//! Style attributes of render-tree nodes.

use vstd::prelude::*;
use vstd::string::StringExecFns;
use crate::geom::{AspectRatio, Point, Rect};
use crate::number::{
    Double, FontSize, Opacity, Single, StrokeMiterlimit, StrokeWidth, DOUBLE_FOUR, DOUBLE_ONE,
};
use crate::text::digit_char;

verus! {

/// A segment of a normalized path, in absolute coordinates.
///
/// A normalized path holds these four kinds only. A subpath starts at a
/// `MoveTo` and may end with a `ClosePath`.
#[derive(Clone, Copy, Debug, PartialEq, Eq, Structural)]
pub enum PathSegment {
    MoveTo { x: Double, y: Double },
    LineTo { x: Double, y: Double },
    /// A cubic curve: two control points and the end point.
    CurveTo { x1: Double, y1: Double, x2: Double, y2: Double, x: Double, y: Double },
    ClosePath,
}

impl PathSegment {
    /// The point at which the segment ends. A `ClosePath` has none of its own.
    pub open spec fn end_point(self) -> Option<Point> {
        match self {
            PathSegment::MoveTo { x, y } => Some(Point { x, y }),
            PathSegment::LineTo { x, y } => Some(Point { x, y }),
            PathSegment::CurveTo { x, y, .. } => Some(Point { x, y }),
            PathSegment::ClosePath => None,
        }
    }

    /// The point at which the segment ends, if it has one.
    pub fn vertex(&self) -> (p: Option<Point>)
        ensures
            p == self.end_point(),
    {
        match *self {
            PathSegment::MoveTo { x, y } => Some(Point { x, y }),
            PathSegment::LineTo { x, y } => Some(Point { x, y }),
            PathSegment::CurveTo { x, y, .. } => Some(Point { x, y }),
            PathSegment::ClosePath => None,
        }
    }
}

/// A view box: the rectangle of user space that is fitted to a viewport.
#[derive(Clone, Copy, Debug, PartialEq, Eq, Structural)]
pub struct ViewBox {
    /// The `viewBox` rectangle.
    pub rect: Rect,
    /// The `preserveAspectRatio` descriptor.
    pub aspect: AspectRatio,
}

/// A line cap: the `stroke-linecap` property.
#[derive(Clone, Copy, Debug, PartialEq, Eq, Structural)]
pub enum LineCap {
    Butt,
    Round,
    Square,
}

impl LineCap {
    /// The keyword of the variant.
    pub open spec fn keyword(self) -> Seq<char> {
        match self {
            LineCap::Butt => "butt"@,
            LineCap::Round => "round"@,
            LineCap::Square => "square"@,
        }
    }

    /// The keyword of the variant, as a string.
    pub fn to_string(&self) -> (s: String)
        ensures
            s@ == self.keyword(),
    {
        match self {
            LineCap::Butt => "butt".to_owned(),
            LineCap::Round => "round".to_owned(),
            LineCap::Square => "square".to_owned(),
        }
    }
}

impl Default for LineCap {
    fn default() -> (r: LineCap)
        ensures
            r == LineCap::Butt,
    {
        LineCap::Butt
    }
}

/// A line join: the `stroke-linejoin` property.
#[derive(Clone, Copy, Debug, PartialEq, Eq, Structural)]
pub enum LineJoin {
    Miter,
    Round,
    Bevel,
}

impl LineJoin {
    /// The keyword of the variant.
    pub open spec fn keyword(self) -> Seq<char> {
        match self {
            LineJoin::Miter => "miter"@,
            LineJoin::Round => "round"@,
            LineJoin::Bevel => "bevel"@,
        }
    }

    /// The keyword of the variant, as a string.
    pub fn to_string(&self) -> (s: String)
        ensures
            s@ == self.keyword(),
    {
        match self {
            LineJoin::Miter => "miter".to_owned(),
            LineJoin::Round => "round".to_owned(),
            LineJoin::Bevel => "bevel".to_owned(),
        }
    }
}

impl Default for LineJoin {
    fn default() -> (r: LineJoin)
        ensures
            r == LineJoin::Miter,
    {
        LineJoin::Miter
    }
}

/// A fill rule: the `fill-rule` property.
#[derive(Clone, Copy, Debug, PartialEq, Eq, Structural)]
pub enum FillRule {
    NonZero,
    EvenOdd,
}

impl FillRule {
    /// The keyword of the variant.
    pub open spec fn keyword(self) -> Seq<char> {
        match self {
            FillRule::NonZero => "nonzero"@,
            FillRule::EvenOdd => "evenodd"@,
        }
    }

    /// The keyword of the variant, as a string.
    pub fn to_string(&self) -> (s: String)
        ensures
            s@ == self.keyword(),
    {
        match self {
            FillRule::NonZero => "nonzero".to_owned(),
            FillRule::EvenOdd => "evenodd".to_owned(),
        }
    }
}

impl Default for FillRule {
    fn default() -> (r: FillRule)
        ensures
            r == FillRule::NonZero,
    {
        FillRule::NonZero
    }
}

/// The units of an element: user space, or the bounding box of the object.
#[derive(Clone, Copy, Debug, PartialEq, Eq, Structural)]
pub enum Units {
    UserSpaceOnUse,
    ObjectBoundingBox,
}

impl Units {
    /// The keyword of the variant.
    pub open spec fn keyword(self) -> Seq<char> {
        match self {
            Units::UserSpaceOnUse => "userSpaceOnUse"@,
            Units::ObjectBoundingBox => "objectBoundingBox"@,
        }
    }

    /// The keyword of the variant, as a string.
    pub fn to_string(&self) -> (s: String)
        ensures
            s@ == self.keyword(),
    {
        match self {
            Units::UserSpaceOnUse => "userSpaceOnUse".to_owned(),
            Units::ObjectBoundingBox => "objectBoundingBox".to_owned(),
        }
    }
}

/// A spread method: the `spreadMethod` attribute of a gradient.
#[derive(Clone, Copy, Debug, PartialEq, Eq, Structural)]
pub enum SpreadMethod {
    Pad,
    Reflect,
    Repeat,
}

impl SpreadMethod {
    /// The keyword of the variant.
    pub open spec fn keyword(self) -> Seq<char> {
        match self {
            SpreadMethod::Pad => "pad"@,
            SpreadMethod::Reflect => "reflect"@,
            SpreadMethod::Repeat => "repeat"@,
        }
    }

    /// The keyword of the variant, as a string.
    pub fn to_string(&self) -> (s: String)
        ensures
            s@ == self.keyword(),
    {
        match self {
            SpreadMethod::Pad => "pad".to_owned(),
            SpreadMethod::Reflect => "reflect".to_owned(),
            SpreadMethod::Repeat => "repeat".to_owned(),
        }
    }
}

impl Default for SpreadMethod {
    fn default() -> (r: SpreadMethod)
        ensures
            r == SpreadMethod::Pad,
    {
        SpreadMethod::Pad
    }
}

/// The `visibility` property.
#[derive(Clone, Copy, Debug, PartialEq, Eq, Structural)]
pub enum Visibility {
    Visible,
    Hidden,
    Collapse,
}

impl Visibility {
    /// The keyword of the variant.
    pub open spec fn keyword(self) -> Seq<char> {
        match self {
            Visibility::Visible => "visible"@,
            Visibility::Hidden => "hidden"@,
            Visibility::Collapse => "collapse"@,
        }
    }

    /// The keyword of the variant, as a string.
    pub fn to_string(&self) -> (s: String)
        ensures
            s@ == self.keyword(),
    {
        match self {
            Visibility::Visible => "visible".to_owned(),
            Visibility::Hidden => "hidden".to_owned(),
            Visibility::Collapse => "collapse".to_owned(),
        }
    }
}

impl Default for Visibility {
    fn default() -> (r: Visibility)
        ensures
            r == Visibility::Visible,
    {
        Visibility::Visible
    }
}

/// A text anchor: the `text-anchor` property.
#[derive(Clone, Copy, Debug, PartialEq, Eq, Structural)]
pub enum TextAnchor {
    Start,
    Middle,
    End,
}

impl TextAnchor {
    /// The keyword of the variant.
    pub open spec fn keyword(self) -> Seq<char> {
        match self {
            TextAnchor::Start => "start"@,
            TextAnchor::Middle => "middle"@,
            TextAnchor::End => "end"@,
        }
    }

    /// The keyword of the variant, as a string.
    pub fn to_string(&self) -> (s: String)
        ensures
            s@ == self.keyword(),
    {
        match self {
            TextAnchor::Start => "start".to_owned(),
            TextAnchor::Middle => "middle".to_owned(),
            TextAnchor::End => "end".to_owned(),
        }
    }
}

impl Default for TextAnchor {
    fn default() -> (r: TextAnchor)
        ensures
            r == TextAnchor::Start,
    {
        TextAnchor::Start
    }
}

/// A font style: the `font-style` property.
#[derive(Clone, Copy, Debug, PartialEq, Eq, Structural)]
pub enum FontStyle {
    Normal,
    Italic,
    Oblique,
}

impl FontStyle {
    /// The keyword of the variant.
    pub open spec fn keyword(self) -> Seq<char> {
        match self {
            FontStyle::Normal => "normal"@,
            FontStyle::Italic => "italic"@,
            FontStyle::Oblique => "oblique"@,
        }
    }

    /// The keyword of the variant, as a string.
    pub fn to_string(&self) -> (s: String)
        ensures
            s@ == self.keyword(),
    {
        match self {
            FontStyle::Normal => "normal".to_owned(),
            FontStyle::Italic => "italic".to_owned(),
            FontStyle::Oblique => "oblique".to_owned(),
        }
    }
}

impl Default for FontStyle {
    fn default() -> (r: FontStyle)
        ensures
            r == FontStyle::Normal,
    {
        FontStyle::Normal
    }
}

/// A font variant: the `font-variant` property.
#[derive(Clone, Copy, Debug, PartialEq, Eq, Structural)]
pub enum FontVariant {
    Normal,
    SmallCaps,
}

impl FontVariant {
    /// The keyword of the variant.
    pub open spec fn keyword(self) -> Seq<char> {
        match self {
            FontVariant::Normal => "normal"@,
            FontVariant::SmallCaps => "small-caps"@,
        }
    }

    /// The keyword of the variant, as a string.
    pub fn to_string(&self) -> (s: String)
        ensures
            s@ == self.keyword(),
    {
        match self {
            FontVariant::Normal => "normal".to_owned(),
            FontVariant::SmallCaps => "small-caps".to_owned(),
        }
    }
}

impl Default for FontVariant {
    fn default() -> (r: FontVariant)
        ensures
            r == FontVariant::Normal,
    {
        FontVariant::Normal
    }
}

/// A font weight: the `font-weight` property.
#[derive(Clone, Copy, Debug, PartialEq, Eq, Structural)]
pub enum FontWeight {
    W100,
    W200,
    W300,
    W400,
    W500,
    W600,
    W700,
    W800,
    W900,
}

impl FontWeight {
    /// The keyword of the variant.
    pub open spec fn keyword(self) -> Seq<char> {
        match self {
            FontWeight::W100 => "100"@,
            FontWeight::W200 => "200"@,
            FontWeight::W300 => "300"@,
            FontWeight::W400 => "400"@,
            FontWeight::W500 => "500"@,
            FontWeight::W600 => "600"@,
            FontWeight::W700 => "700"@,
            FontWeight::W800 => "800"@,
            FontWeight::W900 => "900"@,
        }
    }

    /// The keyword of the variant, as a string.
    pub fn to_string(&self) -> (s: String)
        ensures
            s@ == self.keyword(),
    {
        match self {
            FontWeight::W100 => "100".to_owned(),
            FontWeight::W200 => "200".to_owned(),
            FontWeight::W300 => "300".to_owned(),
            FontWeight::W400 => "400".to_owned(),
            FontWeight::W500 => "500".to_owned(),
            FontWeight::W600 => "600".to_owned(),
            FontWeight::W700 => "700".to_owned(),
            FontWeight::W800 => "800".to_owned(),
            FontWeight::W900 => "900".to_owned(),
        }
    }
}

impl Default for FontWeight {
    fn default() -> (r: FontWeight)
        ensures
            r == FontWeight::W400,
    {
        FontWeight::W400
    }
}

/// A font stretch: the `font-stretch` property.
#[derive(Clone, Copy, Debug, PartialEq, Eq, Structural)]
pub enum FontStretch {
    Normal,
    Wider,
    Narrower,
    UltraCondensed,
    ExtraCondensed,
    Condensed,
    SemiCondensed,
    SemiExpanded,
    Expanded,
    ExtraExpanded,
    UltraExpanded,
}

impl FontStretch {
    /// The keyword of the variant.
    pub open spec fn keyword(self) -> Seq<char> {
        match self {
            FontStretch::Normal => "normal"@,
            FontStretch::Wider => "wider"@,
            FontStretch::Narrower => "narrower"@,
            FontStretch::UltraCondensed => "ultra-condensed"@,
            FontStretch::ExtraCondensed => "extra-condensed"@,
            FontStretch::Condensed => "condensed"@,
            FontStretch::SemiCondensed => "semi-condensed"@,
            FontStretch::SemiExpanded => "semi-expanded"@,
            FontStretch::Expanded => "expanded"@,
            FontStretch::ExtraExpanded => "extra-expanded"@,
            FontStretch::UltraExpanded => "ultra-expanded"@,
        }
    }

    /// The keyword of the variant, as a string.
    pub fn to_string(&self) -> (s: String)
        ensures
            s@ == self.keyword(),
    {
        match self {
            FontStretch::Normal => "normal".to_owned(),
            FontStretch::Wider => "wider".to_owned(),
            FontStretch::Narrower => "narrower".to_owned(),
            FontStretch::UltraCondensed => "ultra-condensed".to_owned(),
            FontStretch::ExtraCondensed => "extra-condensed".to_owned(),
            FontStretch::Condensed => "condensed".to_owned(),
            FontStretch::SemiCondensed => "semi-condensed".to_owned(),
            FontStretch::SemiExpanded => "semi-expanded".to_owned(),
            FontStretch::Expanded => "expanded".to_owned(),
            FontStretch::ExtraExpanded => "extra-expanded".to_owned(),
            FontStretch::UltraExpanded => "ultra-expanded".to_owned(),
        }
    }
}

impl Default for FontStretch {
    fn default() -> (r: FontStretch)
        ensures
            r == FontStretch::Normal,
    {
        FontStretch::Normal
    }
}

/// A color interpolation mode.
#[derive(Clone, Copy, Debug, PartialEq, Eq, Structural)]
pub enum ColorInterpolation {
    SRGB,
    LinearRGB,
}

impl ColorInterpolation {
    /// The keyword of the variant.
    pub open spec fn keyword(self) -> Seq<char> {
        match self {
            ColorInterpolation::SRGB => "sRGB"@,
            ColorInterpolation::LinearRGB => "linearRGB"@,
        }
    }

    /// The keyword of the variant, as a string.
    pub fn to_string(&self) -> (s: String)
        ensures
            s@ == self.keyword(),
    {
        match self {
            ColorInterpolation::SRGB => "sRGB".to_owned(),
            ColorInterpolation::LinearRGB => "linearRGB".to_owned(),
        }
    }
}

/// The blending mode of two images.
#[derive(Clone, Copy, Debug, PartialEq, Eq, Structural)]
pub enum FeBlendMode {
    Normal,
    Multiply,
    Screen,
    Darken,
    Lighten,
}

impl FeBlendMode {
    /// The keyword of the variant.
    pub open spec fn keyword(self) -> Seq<char> {
        match self {
            FeBlendMode::Normal => "normal"@,
            FeBlendMode::Multiply => "multiply"@,
            FeBlendMode::Screen => "screen"@,
            FeBlendMode::Darken => "darken"@,
            FeBlendMode::Lighten => "lighten"@,
        }
    }

    /// The keyword of the variant, as a string.
    pub fn to_string(&self) -> (s: String)
        ensures
            s@ == self.keyword(),
    {
        match self {
            FeBlendMode::Normal => "normal".to_owned(),
            FeBlendMode::Multiply => "multiply".to_owned(),
            FeBlendMode::Screen => "screen".to_owned(),
            FeBlendMode::Darken => "darken".to_owned(),
            FeBlendMode::Lighten => "lighten".to_owned(),
        }
    }
}

/// The compositing operation of two images.
#[derive(Clone, Copy, Debug, PartialEq, Eq, Structural)]
pub enum FeCompositeOperator {
    Over,
    In,
    Out,
    Atop,
    Xor,
    Arithmetic,
}

impl FeCompositeOperator {
    /// The keyword of the variant.
    pub open spec fn keyword(self) -> Seq<char> {
        match self {
            FeCompositeOperator::Over => "over"@,
            FeCompositeOperator::In => "in"@,
            FeCompositeOperator::Out => "out"@,
            FeCompositeOperator::Atop => "atop"@,
            FeCompositeOperator::Xor => "xor"@,
            FeCompositeOperator::Arithmetic => "arithmetic"@,
        }
    }

    /// The keyword of the variant, as a string.
    pub fn to_string(&self) -> (s: String)
        ensures
            s@ == self.keyword(),
    {
        match self {
            FeCompositeOperator::Over => "over".to_owned(),
            FeCompositeOperator::In => "in".to_owned(),
            FeCompositeOperator::Out => "out".to_owned(),
            FeCompositeOperator::Atop => "atop".to_owned(),
            FeCompositeOperator::Xor => "xor".to_owned(),
            FeCompositeOperator::Arithmetic => "arithmetic".to_owned(),
        }
    }
}

/// A color: red, green and blue.
#[derive(Clone, Copy, Debug, PartialEq, Eq, Structural)]
pub struct Color {
    pub red: u8,
    pub green: u8,
    pub blue: u8,
}

/// The character of a hexadecimal digit, in lower case.
pub open spec fn hex_digit(d: nat) -> char
    recommends
        d < 16,
{
    if d < 10 {
        digit_char(d)
    } else if d == 10 {
        'a'
    } else if d == 11 {
        'b'
    } else if d == 12 {
        'c'
    } else if d == 13 {
        'd'
    } else if d == 14 {
        'e'
    } else {
        'f'
    }
}

/// A color in hexadecimal notation: `#` and two digits for each channel.
pub open spec fn hex_notation(c: Color) -> Seq<char> {
    seq![
        '#',
        hex_digit((c.red / 16) as nat),
        hex_digit((c.red % 16) as nat),
        hex_digit((c.green / 16) as nat),
        hex_digit((c.green % 16) as nat),
        hex_digit((c.blue / 16) as nat),
        hex_digit((c.blue % 16) as nat),
    ]
}

/// Black, as `svgdom::Color::black` makes it: all three channels are zero.
#[verifier::external_body]
fn svgdom_black() -> (c: Color)
    ensures
        c == (Color { red: 0, green: 0, blue: 0 }),
{
    let c = svgdom::Color::black();
    Color { red: c.red, green: c.green, blue: c.blue }
}

/// The text that the `Display` impl of `svgdom::Color` writes: `#`, then
/// each channel as two hexadecimal digits in lower case.
#[verifier::external_body]
fn svgdom_color_text(c: &Color) -> (s: String)
    ensures
        s@ == hex_notation(*c),
{
    svgdom::Color::new(c.red, c.green, c.blue).to_string()
}

impl Color {
    /// A color from its three channels.
    pub fn new(red: u8, green: u8, blue: u8) -> (c: Color)
        ensures
            c == (Color { red, green, blue }),
    {
        Color { red, green, blue }
    }

    /// Black.
    pub fn black() -> (c: Color)
        ensures
            c == (Color { red: 0, green: 0, blue: 0 }),
    {
        svgdom_black()
    }

    /// The color in hexadecimal notation.
    pub fn to_string(&self) -> (s: String)
        ensures
            s@ == hex_notation(*self),
    {
        svgdom_color_text(self)
    }
}

/// A paint: a color, or a reference to a paint server by its id.
///
/// A reference is resolved against the definitions later; one that
/// matches no definition paints nothing.
#[derive(Clone, Debug)]
pub enum Paint {
    Color(Color),
    Link(String),
}

impl Paint {
    /// A short description of the paint: the color in hexadecimal
    /// notation, or the word `Link`.
    pub open spec fn description(self) -> Seq<char> {
        match self {
            Paint::Color(c) => "Color("@ + hex_notation(c) + ")"@,
            Paint::Link(_) => "Link"@,
        }
    }

    /// A short description of the paint, for diagnostics.
    pub fn debug_string(&self) -> (s: String)
        ensures
            s@ == self.description(),
    {
        match self {
            Paint::Color(c) => {
                let mut s: String = String::from_str("Color(");
                let text: String = c.to_string();
                s.append(text.as_str());
                s.append(")");
                s
            },
            Paint::Link(_) => String::from_str("Link"),
        }
    }
}

/// A fill style.
#[derive(Clone, Debug)]
pub struct Fill {
    pub paint: Paint,
    pub opacity: Opacity,
    pub rule: FillRule,
}

impl Fill {
    /// The fill is the default one: black, fully opaque, filled by the
    /// nonzero rule.
    pub open spec fn is_default(self) -> bool {
        &&& self.paint == Paint::Color(Color { red: 0, green: 0, blue: 0 })
        &&& self.opacity.number() == (Double { bits: DOUBLE_ONE })
        &&& self.rule == FillRule::NonZero
    }
}

impl Default for Fill {
    /// Black, fully opaque, filled by the nonzero rule.
    fn default() -> (f: Fill)
        ensures
            f.is_default(),
            f.paint == Paint::Color(Color { red: 0, green: 0, blue: 0 }),
            f.opacity.number() == (Double { bits: DOUBLE_ONE }),
            f.rule == FillRule::NonZero,
    {
        Fill {
            paint: Paint::Color(Color::black()),
            opacity: Opacity::default(),
            rule: FillRule::default(),
        }
    }
}

/// A stroke style.
#[derive(Clone, Debug)]
pub struct Stroke {
    pub paint: Paint,
    /// The lengths of dashes and gaps in turn, where the stroke is dashed.
    pub dasharray: Option<Vec<Double>>,
    pub dashoffset: Single,
    pub miterlimit: StrokeMiterlimit,
    pub opacity: Opacity,
    pub width: StrokeWidth,
    pub linecap: LineCap,
    pub linejoin: LineJoin,
}

/// Whether a list of dashes and gaps can be drawn: no length is negative,
/// and not all of them are zero.
pub open spec fn dashes_usable(list: Seq<Double>) -> bool {
    &&& forall|i: int| 0 <= i < list.len() ==> (#[trigger] list[i]).non_negative()
    &&& exists|i: int| 0 <= i < list.len() && !(#[trigger] list[i]).zero()
}

impl Stroke {
    /// The invariant of a stroke: where it is dashed, its dashes can be
    /// drawn.
    pub open spec fn wf(self) -> bool {
        match self.dasharray {
            Some(list) => dashes_usable(list@),
            None => true,
        }
    }

    /// The dashes of a stroke from the lengths that a document gives. A
    /// list with a negative length, and one whose lengths are all zero,
    /// stands for no dashes at all.
    pub fn conv_dasharray(list: Vec<Double>) -> (dashes: Option<Vec<Double>>)
        ensures
            dashes_usable(list@) ==> dashes == Some(list),
            !dashes_usable(list@) ==> dashes is None,
    {
        let mut some_length: bool = false;
        let mut i: usize = 0;
        while i < list.len()
            invariant
                i <= list@.len(),
                forall|j: int| 0 <= j < i ==> (#[trigger] list@[j]).non_negative(),
                some_length == exists|j: int| 0 <= j < i && !(#[trigger] list@[j]).zero(),
            decreases list@.len() - i,
        {
            if !list[i].is_non_negative() {
                return None;
            }
            if !list[i].is_zero() {
                some_length = true;
            }
            i = i + 1;
        }
        if some_length {
            Some(list)
        } else {
            None
        }
    }
}

impl Default for Stroke {
    /// Black, not dashed, fully opaque, one unit wide, with butt caps and
    /// miter joins limited at four.
    fn default() -> (s: Stroke)
        ensures
            s.wf(),
            s.paint == Paint::Color(Color { red: 0, green: 0, blue: 0 }),
            s.dasharray is None,
            s.dashoffset == (Single { bits: 0 }),
            s.miterlimit.number() == (Double { bits: DOUBLE_FOUR }),
            s.opacity.number() == (Double { bits: DOUBLE_ONE }),
            s.width.number() == (Double { bits: DOUBLE_ONE }),
            s.linecap == LineCap::Butt,
            s.linejoin == LineJoin::Miter,
    {
        Stroke {
            paint: Paint::Color(Color::black()),
            dasharray: None,
            dashoffset: Single { bits: 0 },
            miterlimit: StrokeMiterlimit::default(),
            opacity: Opacity::default(),
            width: StrokeWidth::default(),
            linecap: LineCap::default(),
            linejoin: LineJoin::default(),
        }
    }
}

/// The style of a line that decorates text.
#[derive(Clone, Debug)]
pub struct TextDecorationStyle {
    pub fill: Option<Fill>,
    pub stroke: Option<Stroke>,
}

impl Default for TextDecorationStyle {
    /// Neither filled nor stroked.
    fn default() -> (s: TextDecorationStyle)
        ensures
            s.fill is None,
            s.stroke is None,
    {
        TextDecorationStyle { fill: None, stroke: None }
    }
}

/// The lines that decorate text. Underline and overline are drawn under
/// the text, the line through it over the text.
#[derive(Clone, Debug)]
pub struct TextDecoration {
    pub underline: Option<TextDecorationStyle>,
    pub overline: Option<TextDecorationStyle>,
    pub line_through: Option<TextDecorationStyle>,
}

impl Default for TextDecoration {
    /// No lines.
    fn default() -> (d: TextDecoration)
        ensures
            d.underline is None,
            d.overline is None,
            d.line_through is None,
    {
        TextDecoration { underline: None, overline: None, line_through: None }
    }
}

/// A font description. Nothing is laid out here: the family is the text of
/// the `font-family` property as it stands.
#[derive(Clone, Debug)]
pub struct Font {
    pub family: String,
    pub size: FontSize,
    pub style: FontStyle,
    pub variant: FontVariant,
    pub weight: FontWeight,
    pub stretch: FontStretch,
    /// `None` stands for `normal`.
    pub letter_spacing: Option<Double>,
    /// `None` stands for `normal`.
    pub word_spacing: Option<Double>,
}

/// The input of a filter primitive.
#[derive(Clone, PartialEq, Debug)]
pub enum FilterInput {
    SourceGraphic,
    SourceAlpha,
    BackgroundImage,
    BackgroundAlpha,
    FillPaint,
    StrokePaint,
    /// The result of another primitive, by its name.
    Reference(String),
}

impl FilterInput {
    /// The name of the input: the keyword, or the name of the result.
    pub open spec fn name(self) -> Seq<char> {
        match self {
            FilterInput::SourceGraphic => "SourceGraphic"@,
            FilterInput::SourceAlpha => "SourceAlpha"@,
            FilterInput::BackgroundImage => "BackgroundImage"@,
            FilterInput::BackgroundAlpha => "BackgroundAlpha"@,
            FilterInput::FillPaint => "FillPaint"@,
            FilterInput::StrokePaint => "StrokePaint"@,
            FilterInput::Reference(s) => s@,
        }
    }

    /// The name of the input, as a string.
    pub fn to_string(&self) -> (s: String)
        ensures
            s@ == self.name(),
    {
        match self {
            FilterInput::SourceGraphic => "SourceGraphic".to_owned(),
            FilterInput::SourceAlpha => "SourceAlpha".to_owned(),
            FilterInput::BackgroundImage => "BackgroundImage".to_owned(),
            FilterInput::BackgroundAlpha => "BackgroundAlpha".to_owned(),
            FilterInput::FillPaint => "FillPaint".to_owned(),
            FilterInput::StrokePaint => "StrokePaint".to_owned(),
            FilterInput::Reference(s) => s.clone(),
        }
    }
}

/// The data of a raster image.
#[derive(Clone, Debug)]
pub enum ImageData {
    /// The path of a PNG, JPEG or SVG file. It may be relative, and
    /// nothing says that the file is still there.
    Path(String),
    /// The bytes of the image, still encoded.
    Raw(Vec<u8>),
}

/// An image codec.
#[derive(Clone, Copy, Debug, PartialEq, Eq, Structural)]
pub enum ImageFormat {
    PNG,
    JPEG,
    SVG,
}

/// What an `feImage` primitive shows.
#[derive(Clone, Debug)]
pub enum FeImageKind {
    /// Nothing: the primitive is an empty canvas, which is kept because
    /// its result may be used.
    Empty,
    /// An image.
    Image(ImageData, ImageFormat),
    /// Another object of the document, by its id.
    Use(String),
}

} // verus!
