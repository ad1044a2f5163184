//! The options of a conversion, as a caller hands them over and as the
//! converter uses them.

use vstd::prelude::*;
use crate::attributes::Color;
use crate::number::{Double, Single, DOUBLE_NINETY_SIX, DOUBLE_TWELVE};
use crate::text::{opt_text, split_commas, split_trimmed, texts, trimmed};

verus! {

/// How the image is fitted to its output.
#[derive(Clone, Copy, Debug, PartialEq, Eq, Structural)]
pub enum FitTo {
    /// In its original size.
    Original,
    /// Scaled to this width.
    Width(u32),
    /// Scaled to this height.
    Height(u32),
    /// Zoomed by this factor.
    Zoom(Single),
}

/// The options of the converter.
#[derive(Clone, Debug)]
pub struct Options {
    /// The path of the source file, by which relative links are resolved.
    pub path: Option<String>,
    /// The resolution by which absolute units become user units.
    pub dpi: Double,
    /// The font family of text that names none.
    pub font_family: String,
    /// The font size of text that names none.
    pub font_size: Double,
    /// The languages that conditional content is matched against.
    pub languages: Vec<String>,
    /// Whether groups that have an id are kept as they are.
    pub keep_named_groups: bool,
}

/// The options of a rendering: those of the converter, the fit, and the
/// background color, if one is drawn.
#[derive(Clone, Debug)]
pub struct RenderOptions {
    pub usvg: Options,
    pub fit_to: FitTo,
    pub background: Option<Color>,
}

/// The kind of a fit.
#[derive(Clone, Copy, Debug, PartialEq, Eq, Structural)]
pub enum FitToKind {
    Original,
    Width,
    Height,
    Zoom,
}

/// A fit as a caller gives it: its kind and its value. `whole` is the
/// value cut down to a whole number, which a width or a height is given in.
#[derive(Clone, Copy, Debug, PartialEq, Eq, Structural)]
pub struct RawFitTo {
    pub kind: FitToKind,
    pub value: Single,
    pub whole: u32,
}

/// The options as a caller gives them. A text is `None` where the caller
/// gave none, or one that is not valid UTF-8.
#[derive(Clone, Debug)]
pub struct RawOptions {
    pub path: Option<String>,
    pub dpi: Double,
    pub font_family: Option<String>,
    pub font_size: Double,
    pub languages: Option<String>,
    pub fit_to: RawFitTo,
    pub draw_background: bool,
    pub background: Color,
    pub keep_named_groups: bool,
}

/// The font family that is used where the caller names none.
pub open spec fn default_font_family() -> Seq<char> {
    "Times New Roman"@
}

/// The path of the options: the one given, unless it is empty.
pub open spec fn native_path(path: Option<String>) -> Option<Seq<char>> {
    match path {
        Some(p) => if p@.len() > 0 {
            Some(p@)
        } else {
            None
        },
        None => None,
    }
}

/// The font family of the options: the one given, or the default one
/// where none is given or the one given is empty.
pub open spec fn native_font_family(family: Option<String>) -> Seq<char> {
    match family {
        Some(f) => if f@.len() > 0 {
            f@
        } else {
            default_font_family()
        },
        None => default_font_family(),
    }
}

/// The languages of the options: the pieces of the given list between
/// its commas, without the white space around them, or `en` alone where no
/// list is given or the one given is empty.
pub open spec fn native_languages(languages: Option<String>) -> Seq<Seq<char>> {
    match languages {
        Some(l) => if l@.len() > 0 {
            Seq::new(split_commas(l@).len(), |i: int| trimmed(split_commas(l@)[i]))
        } else {
            seq!["en"@]
        },
        None => seq!["en"@],
    }
}

/// Whether a fit can be used: a width, a height and a zoom factor are
/// strictly positive.
pub open spec fn usable_fit(fit: RawFitTo) -> bool {
    fit.kind != FitToKind::Original ==> fit.value.positive()
}

/// The fit of the options.
pub open spec fn native_fit_to(fit: RawFitTo) -> FitTo {
    match fit.kind {
        FitToKind::Original => FitTo::Original,
        FitToKind::Width => FitTo::Width(fit.whole),
        FitToKind::Height => FitTo::Height(fit.whole),
        FitToKind::Zoom => FitTo::Zoom(fit.value),
    }
}

/// The options with which a caller starts: 96 dots per inch, a font size
/// of 12, the original size, no background, and no texts.
pub fn init_options() -> (opt: RawOptions)
    ensures
        opt.path is None,
        opt.dpi == (Double { bits: DOUBLE_NINETY_SIX }),
        opt.font_family is None,
        opt.font_size == (Double { bits: DOUBLE_TWELVE }),
        opt.languages is None,
        opt.fit_to == (RawFitTo { kind: FitToKind::Original, value: Single { bits: 0 }, whole: 0 }),
        !opt.draw_background,
        opt.background == (Color { red: 0, green: 0, blue: 0 }),
        !opt.keep_named_groups,
        usable_fit(opt.fit_to),
{
    RawOptions {
        path: None,
        dpi: Double { bits: DOUBLE_NINETY_SIX },
        font_family: None,
        font_size: Double { bits: DOUBLE_TWELVE },
        languages: None,
        fit_to: RawFitTo { kind: FitToKind::Original, value: Single { bits: 0 }, whole: 0 },
        draw_background: false,
        background: Color { red: 0, green: 0, blue: 0 },
        keep_named_groups: false,
    }
}

/// Whether a fit can be used.
pub fn is_usable_fit(fit: &RawFitTo) -> (r: bool)
    ensures
        r == usable_fit(*fit),
{
    match fit.kind {
        FitToKind::Original => true,
        _ => fit.value.is_positive(),
    }
}

/// The languages of the options.
pub fn parse_languages(languages: &Option<String>) -> (list: Vec<String>)
    ensures
        texts(list@) == native_languages(*languages),
{
    let list: Vec<String> = match languages {
        Some(l) => {
            if l.as_str().is_empty() {
                let mut fallback: Vec<String> = Vec::new();
                fallback.push("en".to_owned());
                fallback
            } else {
                split_trimmed(l.as_str())
            }
        },
        None => {
            let mut fallback: Vec<String> = Vec::new();
            fallback.push("en".to_owned());
            fallback
        },
    };
    list
}

/// The options that the converter and the renderer use, from those that
/// a caller gives.
///
/// An empty path counts as none. Where no font family is given, or an
/// empty one, the default family takes its place. The languages are the
/// pieces of the given list between its commas, without the white space
/// around them; where no list is given, or an empty one, `en` alone. The
/// background is there where it is to be drawn.
pub fn to_native_opt(opt: &RawOptions) -> (native: RenderOptions)
    requires
        usable_fit(opt.fit_to),
    ensures
        opt_text(native.usvg.path) == native_path(opt.path),
        native.usvg.dpi == opt.dpi,
        native.usvg.font_family@ == native_font_family(opt.font_family),
        native.usvg.font_size == opt.font_size,
        texts(native.usvg.languages@) == native_languages(opt.languages),
        native.usvg.keep_named_groups == opt.keep_named_groups,
        native.fit_to == native_fit_to(opt.fit_to),
        native.background == if opt.draw_background {
            Some(opt.background)
        } else {
            None
        },
{
    let path: Option<String> = match &opt.path {
        Some(p) => if p.as_str().is_empty() {
            None
        } else {
            Some(p.clone())
        },
        None => None,
    };
    let fit_to: FitTo = match opt.fit_to.kind {
        FitToKind::Original => FitTo::Original,
        FitToKind::Width => FitTo::Width(opt.fit_to.whole),
        FitToKind::Height => FitTo::Height(opt.fit_to.whole),
        FitToKind::Zoom => FitTo::Zoom(opt.fit_to.value),
    };
    let background: Option<Color> = if opt.draw_background {
        Some(opt.background)
    } else {
        None
    };
    let font_family: String = match &opt.font_family {
        Some(f) => if f.as_str().is_empty() {
            "Times New Roman".to_owned()
        } else {
            f.clone()
        },
        None => "Times New Roman".to_owned(),
    };
    let languages: Vec<String> = parse_languages(&opt.languages);
    RenderOptions {
        usvg: Options {
            path,
            dpi: opt.dpi,
            font_family,
            font_size: opt.font_size,
            languages,
            keep_named_groups: opt.keep_named_groups,
        },
        fit_to,
        background,
    }
}

/// Why no render tree could be built.
#[derive(Clone, Debug)]
pub enum Error {
    /// The file is neither an SVG nor a compressed SVG by its suffix.
    InvalidFileSuffix,
    /// The file could not be opened.
    FileOpenFailed,
    /// The source is not valid UTF-8.
    NotAnUtf8Str,
    /// The compressed source could not be expanded.
    MalformedGZip,
    /// The image has no valid size.
    InvalidSize,
    /// The source could not be parsed; the parser's message.
    ParsingFailed(String),
}

/// The outcome of a call, as a caller in another language is told it.
#[derive(Clone, Copy, Debug, PartialEq, Eq, Structural)]
pub enum ErrorId {
    Success,
    NotAnUtf8Str,
    FileOpenFailed,
    FileWriteFailed,
    InvalidFileSuffix,
    MalformedGZip,
    InvalidSize,
    ParsingFailed,
    NoCanvas,
}

impl ErrorId {
    /// The number of the outcome: zero for success, then the failures
    /// from one on.
    pub open spec fn number(self) -> int {
        match self {
            ErrorId::Success => 0,
            ErrorId::NotAnUtf8Str => 1,
            ErrorId::FileOpenFailed => 2,
            ErrorId::FileWriteFailed => 3,
            ErrorId::InvalidFileSuffix => 4,
            ErrorId::MalformedGZip => 5,
            ErrorId::InvalidSize => 6,
            ErrorId::ParsingFailed => 7,
            ErrorId::NoCanvas => 8,
        }
    }

    /// The number of the outcome.
    pub fn code(&self) -> (n: i32)
        ensures
            n == self.number(),
    {
        match self {
            ErrorId::Success => 0,
            ErrorId::NotAnUtf8Str => 1,
            ErrorId::FileOpenFailed => 2,
            ErrorId::FileWriteFailed => 3,
            ErrorId::InvalidFileSuffix => 4,
            ErrorId::MalformedGZip => 5,
            ErrorId::InvalidSize => 6,
            ErrorId::ParsingFailed => 7,
            ErrorId::NoCanvas => 8,
        }
    }
}

/// The outcome that stands for an error.
pub open spec fn error_id_of(e: Error) -> ErrorId {
    match e {
        Error::InvalidFileSuffix => ErrorId::InvalidFileSuffix,
        Error::FileOpenFailed => ErrorId::FileOpenFailed,
        Error::NotAnUtf8Str => ErrorId::NotAnUtf8Str,
        Error::MalformedGZip => ErrorId::MalformedGZip,
        Error::InvalidSize => ErrorId::InvalidSize,
        Error::ParsingFailed(_) => ErrorId::ParsingFailed,
    }
}

/// The outcome that stands for an error. It is never success.
pub fn convert_error(e: &Error) -> (id: ErrorId)
    ensures
        id == error_id_of(*e),
        id != ErrorId::Success,
{
    match e {
        Error::InvalidFileSuffix => ErrorId::InvalidFileSuffix,
        Error::FileOpenFailed => ErrorId::FileOpenFailed,
        Error::NotAnUtf8Str => ErrorId::NotAnUtf8Str,
        Error::MalformedGZip => ErrorId::MalformedGZip,
        Error::InvalidSize => ErrorId::InvalidSize,
        Error::ParsingFailed(_) => ErrorId::ParsingFailed,
    }
}

} // verus!
