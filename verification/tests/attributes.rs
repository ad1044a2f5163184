use usvg::attributes::{
    Color, ColorInterpolation, FeBlendMode, FeCompositeOperator, FeImageKind, Fill, FillRule,
    FilterInput, Font, FontStretch, FontStyle, FontVariant, FontWeight, ImageData, ImageFormat,
    LineCap, LineJoin, Paint, PathSegment, SpreadMethod, Stroke, TextAnchor, TextDecoration,
    TextDecorationStyle, Units, ViewBox, Visibility,
};
use usvg::geom::{fit_scale, Align, AspectRatio, Point, Rect};
use usvg::number::{Double, FontSize, Single};

fn d(v: f64) -> Double {
    Double::from_bits(v.to_bits())
}

#[test]
fn line_cap_keywords() {
    assert_eq!(LineCap::Butt.to_string(), "butt");
    assert_eq!(LineCap::Round.to_string(), "round");
    assert_eq!(LineCap::Square.to_string(), "square");
    assert_eq!(LineCap::default(), LineCap::Butt);
}

#[test]
fn line_join_keywords() {
    assert_eq!(LineJoin::Miter.to_string(), "miter");
    assert_eq!(LineJoin::Round.to_string(), "round");
    assert_eq!(LineJoin::Bevel.to_string(), "bevel");
    assert_eq!(LineJoin::default(), LineJoin::Miter);
}

#[test]
fn fill_rule_keywords() {
    assert_eq!(FillRule::NonZero.to_string(), "nonzero");
    assert_eq!(FillRule::EvenOdd.to_string(), "evenodd");
    assert_eq!(FillRule::default(), FillRule::NonZero);
}

#[test]
fn units_keywords() {
    assert_eq!(Units::UserSpaceOnUse.to_string(), "userSpaceOnUse");
    assert_eq!(Units::ObjectBoundingBox.to_string(), "objectBoundingBox");
}

#[test]
fn spread_method_keywords() {
    assert_eq!(SpreadMethod::Pad.to_string(), "pad");
    assert_eq!(SpreadMethod::Reflect.to_string(), "reflect");
    assert_eq!(SpreadMethod::Repeat.to_string(), "repeat");
    assert_eq!(SpreadMethod::default(), SpreadMethod::Pad);
}

#[test]
fn visibility_keywords() {
    assert_eq!(Visibility::Visible.to_string(), "visible");
    assert_eq!(Visibility::Hidden.to_string(), "hidden");
    assert_eq!(Visibility::Collapse.to_string(), "collapse");
    assert_eq!(Visibility::default(), Visibility::Visible);
}

#[test]
fn text_anchor_keywords() {
    assert_eq!(TextAnchor::Start.to_string(), "start");
    assert_eq!(TextAnchor::Middle.to_string(), "middle");
    assert_eq!(TextAnchor::End.to_string(), "end");
    assert_eq!(TextAnchor::default(), TextAnchor::Start);
}

#[test]
fn font_style_and_variant_keywords() {
    assert_eq!(FontStyle::Normal.to_string(), "normal");
    assert_eq!(FontStyle::Italic.to_string(), "italic");
    assert_eq!(FontStyle::Oblique.to_string(), "oblique");
    assert_eq!(FontStyle::default(), FontStyle::Normal);
    assert_eq!(FontVariant::Normal.to_string(), "normal");
    assert_eq!(FontVariant::SmallCaps.to_string(), "small-caps");
    assert_eq!(FontVariant::default(), FontVariant::Normal);
}

#[test]
fn font_weight_keywords() {
    let all = [
        (FontWeight::W100, "100"),
        (FontWeight::W200, "200"),
        (FontWeight::W300, "300"),
        (FontWeight::W400, "400"),
        (FontWeight::W500, "500"),
        (FontWeight::W600, "600"),
        (FontWeight::W700, "700"),
        (FontWeight::W800, "800"),
        (FontWeight::W900, "900"),
    ];
    for (w, k) in all {
        assert_eq!(w.to_string(), k);
    }
    assert_eq!(FontWeight::default(), FontWeight::W400);
}

#[test]
fn font_stretch_keywords() {
    let all = [
        (FontStretch::Normal, "normal"),
        (FontStretch::Wider, "wider"),
        (FontStretch::Narrower, "narrower"),
        (FontStretch::UltraCondensed, "ultra-condensed"),
        (FontStretch::ExtraCondensed, "extra-condensed"),
        (FontStretch::Condensed, "condensed"),
        (FontStretch::SemiCondensed, "semi-condensed"),
        (FontStretch::SemiExpanded, "semi-expanded"),
        (FontStretch::Expanded, "expanded"),
        (FontStretch::ExtraExpanded, "extra-expanded"),
        (FontStretch::UltraExpanded, "ultra-expanded"),
    ];
    for (s, k) in all {
        assert_eq!(s.to_string(), k);
    }
    assert_eq!(FontStretch::default(), FontStretch::Normal);
}

#[test]
fn filter_input_names() {
    assert_eq!(FilterInput::SourceGraphic.to_string(), "SourceGraphic");
    assert_eq!(FilterInput::SourceAlpha.to_string(), "SourceAlpha");
    assert_eq!(FilterInput::BackgroundImage.to_string(), "BackgroundImage");
    assert_eq!(FilterInput::BackgroundAlpha.to_string(), "BackgroundAlpha");
    assert_eq!(FilterInput::FillPaint.to_string(), "FillPaint");
    assert_eq!(FilterInput::StrokePaint.to_string(), "StrokePaint");
    assert_eq!(FilterInput::Reference("blur1".to_string()).to_string(), "blur1");
    assert_eq!(FilterInput::Reference(String::new()).to_string(), "");
}

#[test]
fn color_interpolation_and_filter_keywords() {
    assert_eq!(ColorInterpolation::SRGB.to_string(), "sRGB");
    assert_eq!(ColorInterpolation::LinearRGB.to_string(), "linearRGB");
    assert_eq!(FeBlendMode::Normal.to_string(), "normal");
    assert_eq!(FeBlendMode::Multiply.to_string(), "multiply");
    assert_eq!(FeBlendMode::Screen.to_string(), "screen");
    assert_eq!(FeBlendMode::Darken.to_string(), "darken");
    assert_eq!(FeBlendMode::Lighten.to_string(), "lighten");
    assert_eq!(FeCompositeOperator::Over.to_string(), "over");
    assert_eq!(FeCompositeOperator::In.to_string(), "in");
    assert_eq!(FeCompositeOperator::Out.to_string(), "out");
    assert_eq!(FeCompositeOperator::Atop.to_string(), "atop");
    assert_eq!(FeCompositeOperator::Xor.to_string(), "xor");
    assert_eq!(FeCompositeOperator::Arithmetic.to_string(), "arithmetic");
}

#[test]
fn color_black_is_all_zero() {
    assert_eq!(Color::black(), Color { red: 0, green: 0, blue: 0 });
    assert_eq!(Color::new(1, 2, 3), Color { red: 1, green: 2, blue: 3 });
}

#[test]
fn color_text_is_hexadecimal() {
    assert_eq!(Color::new(255, 0, 0).to_string(), "#ff0000");
    assert_eq!(Color::new(255, 127, 5).to_string(), "#ff7f05");
    assert_eq!(Color::black().to_string(), "#000000");
    assert_eq!(Color::new(0xab, 0xcd, 0xef).to_string(), "#abcdef");
    assert_eq!(Color::new(0x12, 0x9a, 0x30).to_string(), "#129a30");
}

#[test]
fn paint_description() {
    assert_eq!(Paint::Color(Color::new(255, 127, 5)).debug_string(), "Color(#ff7f05)");
    assert_eq!(Paint::Color(Color::black()).debug_string(), "Color(#000000)");
    assert_eq!(Paint::Link("grad1".to_string()).debug_string(), "Link");
}

#[test]
fn fill_default() {
    let f = Fill::default();
    match f.paint {
        Paint::Color(c) => assert_eq!(c, Color::black()),
        Paint::Link(_) => panic!("the default paint is a color"),
    }
    assert_eq!(f.opacity.value(), d(1.0));
    assert_eq!(f.rule, FillRule::NonZero);
}

#[test]
fn stroke_default() {
    let s = Stroke::default();
    match s.paint {
        Paint::Color(c) => assert_eq!(c, Color::black()),
        Paint::Link(_) => panic!("the default paint is a color"),
    }
    assert!(s.dasharray.is_none());
    assert_eq!(s.dashoffset, Single::from_bits(0.0f32.to_bits()));
    assert_eq!(s.miterlimit.value(), d(4.0));
    assert_eq!(s.opacity.value(), d(1.0));
    assert_eq!(s.width.value(), d(1.0));
    assert_eq!(s.linecap, LineCap::Butt);
    assert_eq!(s.linejoin, LineJoin::Miter);
}

#[test]
fn text_decoration_default() {
    let s = TextDecorationStyle::default();
    assert!(s.fill.is_none());
    assert!(s.stroke.is_none());
    let t = TextDecoration::default();
    assert!(t.underline.is_none());
    assert!(t.overline.is_none());
    assert!(t.line_through.is_none());
}

#[test]
fn font_holds_its_description() {
    let font = Font {
        family: "Verdana, 'Times New Roman', sans-serif".to_string(),
        size: FontSize::new(d(16.0)).unwrap(),
        style: FontStyle::Italic,
        variant: FontVariant::SmallCaps,
        weight: FontWeight::W700,
        stretch: FontStretch::Condensed,
        letter_spacing: None,
        word_spacing: Some(d(2.0)),
    };
    let copy = font.clone();
    assert_eq!(copy.family, "Verdana, 'Times New Roman', sans-serif");
    assert_eq!(copy.size.value(), d(16.0));
    assert_eq!(copy.weight, FontWeight::W700);
    assert_eq!(copy.letter_spacing, None);
    assert_eq!(copy.word_spacing, Some(d(2.0)));
}

#[test]
fn path_segment_vertex() {
    let mv = PathSegment::MoveTo { x: d(1.0), y: d(2.0) };
    let ln = PathSegment::LineTo { x: d(3.0), y: d(4.0) };
    let cv = PathSegment::CurveTo {
        x1: d(0.0),
        y1: d(0.0),
        x2: d(1.0),
        y2: d(1.0),
        x: d(5.0),
        y: d(6.0),
    };
    assert_eq!(mv.vertex(), Some(Point::new(d(1.0), d(2.0))));
    assert_eq!(ln.vertex(), Some(Point::new(d(3.0), d(4.0))));
    assert_eq!(cv.vertex(), Some(Point::new(d(5.0), d(6.0))));
    assert_eq!(PathSegment::ClosePath.vertex(), None);
}

#[test]
fn rect_is_valid_with_positive_sides() {
    assert!(Rect::new(d(0.0), d(0.0), d(3.0), d(3.0)).is_valid());
    assert!(Rect::new(d(-5.0), d(-5.0), d(0.5), d(1.0)).is_valid());
    assert!(!Rect::new(d(0.0), d(0.0), d(0.0), d(3.0)).is_valid());
    assert!(!Rect::new(d(0.0), d(0.0), d(3.0), d(0.0)).is_valid());
    assert!(!Rect::new(d(0.0), d(0.0), d(-3.0), d(3.0)).is_valid());
    assert!(!Rect::new(d(0.0), d(0.0), d(f64::NAN), d(3.0)).is_valid());
}

#[test]
fn points_coincide_within_tolerance() {
    let a = Point::new(d(0.1 + 0.2), d(1.0));
    let b = Point::new(d(0.3), d(1.0));
    assert!(a.is_coincident(&b));
    assert!(!a.is_coincident(&Point::new(d(0.3), d(1.0001))));
    assert!(!a.is_coincident(&Point::new(d(0.31), d(1.0))));
}

#[test]
fn view_box_and_aspect_ratio() {
    let aspect = AspectRatio::default();
    assert_eq!(aspect, AspectRatio { defer: false, align: Align::XMidYMid, slice: false });
    let vb = ViewBox { rect: Rect::new(d(0.0), d(0.0), d(2.0), d(2.0)), aspect };
    let copy = vb;
    assert_eq!(copy, vb);
}

#[test]
fn image_kinds_hold_their_data() {
    let kind = FeImageKind::Image(ImageData::Raw(vec![1, 2, 3]), ImageFormat::PNG);
    match kind.clone() {
        FeImageKind::Image(ImageData::Raw(bytes), format) => {
            assert_eq!(bytes, vec![1, 2, 3]);
            assert_eq!(format, ImageFormat::PNG);
        }
        _ => panic!("an image was expected"),
    }
    match FeImageKind::Use("shape".to_string()) {
        FeImageKind::Use(id) => assert_eq!(id, "shape"),
        _ => panic!("a reference was expected"),
    }
    assert!(matches!(FeImageKind::Empty, FeImageKind::Empty));
    assert!(matches!(ImageData::Path("a.png".to_string()), ImageData::Path(_)));
}

#[test]
fn view_box_scale_meets_or_slices() {
    let meet = AspectRatio { defer: false, align: Align::XMidYMid, slice: false };
    let slice = AspectRatio { defer: false, align: Align::XMinYMax, slice: true };
    let stretch = AspectRatio { defer: false, align: Align::Stretch, slice: true };
    assert_eq!(fit_scale(&meet, d(2.0), d(3.0)), (d(2.0), d(2.0)));
    assert_eq!(fit_scale(&meet, d(3.0), d(2.0)), (d(2.0), d(2.0)));
    assert_eq!(fit_scale(&slice, d(2.0), d(3.0)), (d(3.0), d(3.0)));
    assert_eq!(fit_scale(&slice, d(3.0), d(2.0)), (d(3.0), d(3.0)));
    assert_eq!(fit_scale(&stretch, d(2.0), d(3.0)), (d(2.0), d(3.0)));
    assert_eq!(fit_scale(&meet, d(1.5), d(1.5)), (d(1.5), d(1.5)));
    assert_eq!(fit_scale(&meet, d(-1.0), d(0.5)), (d(-1.0), d(-1.0)));
}

#[test]
fn dashes_need_lengths_that_can_be_drawn() {
    let list = |v: &[f64]| v.iter().map(|x| d(*x)).collect::<Vec<Double>>();
    assert_eq!(Stroke::conv_dasharray(list(&[5.0, 2.0])), Some(list(&[5.0, 2.0])));
    assert_eq!(Stroke::conv_dasharray(list(&[0.0, 2.0])), Some(list(&[0.0, 2.0])));
    assert_eq!(Stroke::conv_dasharray(list(&[0.0, 0.0])), None);
    assert_eq!(Stroke::conv_dasharray(list(&[0.0, -0.0])), None);
    assert_eq!(Stroke::conv_dasharray(list(&[5.0, -2.0])), None);
    assert_eq!(Stroke::conv_dasharray(list(&[-5.0])), None);
    assert_eq!(Stroke::conv_dasharray(list(&[5.0, f64::NAN])), None);
    assert_eq!(Stroke::conv_dasharray(list(&[])), None);
}
