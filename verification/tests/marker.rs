use usvg::attributes::{Color, FillRule, Paint, PathSegment, Units, ViewBox, Visibility};
use usvg::defs::Defs;
use usvg::dom::{Element, ElementTag, Link, NodeId};
use usvg::geom::{Align, AspectRatio, Point, Rect, Transform};
use usvg::marker::{
    calc_curves_angle, calc_line_angle, calc_rotation, calc_vertex_angle, convert,
    convert_orientation, convert_rect, draw_markers, find_marker, get_own_marker,
    get_prev_vertex, get_subpath_start, has_overflow, is_applicable, needs_rotation, resolve,
    select_marker, stroke_scale, Angle, AngleUnit, Marker, MarkerGroups, MarkerKind,
    MarkerOrientation, MarkerVertex, Orient, Rotation, Scale, State, Tangents, VertexAngle,
};
use usvg::number::Double;
use std::f64::consts::{FRAC_PI_2, PI};

fn d(v: f64) -> Double {
    Double::from_bits(v.to_bits())
}

fn f(v: Double) -> f64 {
    f64::from_bits(v.to_bits())
}

fn p(x: f64, y: f64) -> Point {
    Point::new(d(x), d(y))
}

fn m(x: f64, y: f64) -> PathSegment {
    PathSegment::MoveTo { x: d(x), y: d(y) }
}

fn l(x: f64, y: f64) -> PathSegment {
    PathSegment::LineTo { x: d(x), y: d(y) }
}

fn c(x1: f64, y1: f64, x2: f64, y2: f64, x: f64, y: f64) -> PathSegment {
    PathSegment::CurveTo { x1: d(x1), y1: d(y1), x2: d(x2), y2: d(y2), x: d(x), y: d(y) }
}

fn z() -> PathSegment {
    PathSegment::ClosePath
}

fn line(a: Point, b: Point) -> VertexAngle {
    VertexAngle::Bisector(Tangents { in_from: a, in_to: b, out_from: a, out_to: b })
}

fn corner(a: Point, v: Point, b: Point) -> VertexAngle {
    VertexAngle::Bisector(Tangents { in_from: a, in_to: v, out_from: v, out_to: b })
}

fn normalize(rad: f64) -> f64 {
    let v = rad % (PI * 2.0);
    if v < 0.0 {
        v + PI * 2.0
    } else {
        v
    }
}

fn vector_angle(vx: f64, vy: f64) -> f64 {
    let rad = vy.atan2(vx);
    if rad.is_nan() {
        0.0
    } else {
        normalize(rad)
    }
}

/// The bisector between the incoming and the outgoing direction, in
/// degrees from 0 up to 360.
fn bisector_degrees(t: &Tangents) -> f64 {
    let in_a = vector_angle(f(t.in_to.x) - f(t.in_from.x), f(t.in_to.y) - f(t.in_from.y));
    let out_a = vector_angle(f(t.out_to.x) - f(t.out_from.x), f(t.out_to.y) - f(t.out_from.y));
    let dd = (out_a - in_a) * 0.5;
    let mut angle = in_a + dd;
    if FRAC_PI_2 < dd.abs() {
        angle -= PI;
    }
    normalize(angle) * 180.0 / PI
}

fn degrees(a: VertexAngle) -> f64 {
    match a {
        VertexAngle::Zero => 0.0,
        VertexAngle::Bisector(t) => bisector_degrees(&t),
    }
}

fn marker(id: u64) -> Marker {
    Marker {
        id: NodeId { index: id },
        units: None,
        ref_x: None,
        ref_y: None,
        width: None,
        height: None,
        view_box: None,
        overflow: None,
        orient: Orient::Unset,
    }
}

fn aspect() -> AspectRatio {
    AspectRatio { defer: false, align: Align::XMidYMid, slice: false }
}

fn shape(tag: ElementTag) -> Element {
    Element { id: NodeId { index: 100 }, tag, marker_start: None, marker_mid: None, marker_end: None }
}

fn node(index: u64) -> NodeId {
    NodeId { index }
}

fn link(id: u64) -> Option<Link> {
    Some(Link { target: NodeId { index: id }, tag: ElementTag::Marker })
}

#[test]
fn subpath_start_is_the_nearest_move_before() {
    let segs = vec![m(1.0, 2.0), l(3.0, 4.0), z(), m(5.0, 6.0), l(7.0, 8.0), z()];
    assert_eq!(get_subpath_start(&segs, 0), p(0.0, 0.0));
    assert_eq!(get_subpath_start(&segs, 1), p(1.0, 2.0));
    assert_eq!(get_subpath_start(&segs, 2), p(1.0, 2.0));
    assert_eq!(get_subpath_start(&segs, 3), p(1.0, 2.0));
    assert_eq!(get_subpath_start(&segs, 4), p(5.0, 6.0));
    assert_eq!(get_subpath_start(&segs, 5), p(5.0, 6.0));
    assert_eq!(get_subpath_start(&segs, 6), p(5.0, 6.0));
}

#[test]
fn subpath_start_without_a_move_is_the_origin() {
    let segs = vec![l(3.0, 4.0), l(5.0, 6.0)];
    assert_eq!(get_subpath_start(&segs, 2), p(0.0, 0.0));
    assert_eq!(get_subpath_start(&segs, 7), p(0.0, 0.0));
    let none: Vec<PathSegment> = Vec::new();
    assert_eq!(get_subpath_start(&none, 0), p(0.0, 0.0));
}

#[test]
fn prev_vertex_is_the_end_of_the_segment_before() {
    let segs = vec![m(1.0, 2.0), l(3.0, 4.0), c(0.0, 0.0, 1.0, 1.0, 9.0, 9.0), z(), l(5.0, 5.0)];
    assert_eq!(get_prev_vertex(&segs, 1), p(1.0, 2.0));
    assert_eq!(get_prev_vertex(&segs, 2), p(3.0, 4.0));
    assert_eq!(get_prev_vertex(&segs, 3), p(9.0, 9.0));
    assert_eq!(get_prev_vertex(&segs, 4), p(1.0, 2.0));
    assert_eq!(get_prev_vertex(&segs, 5), p(5.0, 5.0));
    // Nothing comes before the first segment, nor outside the path.
    assert_eq!(get_prev_vertex(&segs, 0), p(0.0, 0.0));
    assert_eq!(get_prev_vertex(&segs, 6), p(0.0, 0.0));
    assert_eq!(get_prev_vertex(&[], 0), p(0.0, 0.0));
}

#[test]
fn line_and_curve_tangents() {
    let t = calc_line_angle(p(0.0, 0.0), p(1.0, 1.0));
    assert_eq!(
        t,
        Tangents { in_from: p(0.0, 0.0), in_to: p(1.0, 1.0), out_from: p(0.0, 0.0), out_to: p(1.0, 1.0) }
    );
    let prev = p(0.0, 0.0);
    let v = p(10.0, 0.0);
    let n = p(10.0, 10.0);
    // Both control points away from the vertex.
    assert_eq!(
        calc_curves_angle(prev, p(5.0, 1.0), v, p(11.0, 5.0), n),
        Tangents { in_from: p(5.0, 1.0), in_to: v, out_from: v, out_to: p(11.0, 5.0) }
    );
    // The control point that leads in coincides with the vertex.
    assert_eq!(
        calc_curves_angle(prev, v, v, p(11.0, 5.0), n),
        Tangents { in_from: prev, in_to: v, out_from: v, out_to: p(11.0, 5.0) }
    );
    // The control point that leads out coincides with the vertex.
    assert_eq!(
        calc_curves_angle(prev, p(5.0, 1.0), v, v, n),
        Tangents { in_from: p(5.0, 1.0), in_to: v, out_from: v, out_to: n }
    );
    // Both control points coincide with the vertex: each direction falls
    // back to its own adjacent vertex.
    assert_eq!(
        calc_curves_angle(prev, v, v, v, n),
        Tangents { in_from: prev, in_to: v, out_from: v, out_to: n }
    );
}

#[test]
fn both_control_points_on_the_vertex() {
    let t = calc_curves_angle(p(0.0, 0.0), p(0.0, 10.0), p(0.0, 10.0), p(0.0, 10.0), p(0.0, 20.0));
    assert_eq!(
        t,
        Tangents {
            in_from: p(0.0, 0.0),
            in_to: p(0.0, 10.0),
            out_from: p(0.0, 10.0),
            out_to: p(0.0, 20.0),
        }
    );
    assert!((bisector_degrees(&t) - 90.0).abs() < 1e-9);
    // The same between two curves of a path.
    let segs = vec![
        m(0.0, 0.0),
        c(0.0, 5.0, 0.0, 10.0, 0.0, 10.0),
        c(0.0, 10.0, 0.0, 15.0, 0.0, 20.0),
    ];
    let a = calc_vertex_angle(&segs, 1);
    assert_eq!(a, corner(p(0.0, 0.0), p(0.0, 10.0), p(0.0, 20.0)));
    assert!((degrees(a) - 90.0).abs() < 1e-9);
}

#[test]
fn interior_move_before_a_curve_with_a_control_point_on_it() {
    let segs = vec![m(0.0, 0.0), l(10.0, 0.0), m(20.0, 0.0), c(20.0, 0.0, 20.0, 5.0, 20.0, 10.0)];
    let a = calc_vertex_angle(&segs, 2);
    assert_eq!(a, line(p(20.0, 0.0), p(20.0, 10.0)));
    assert!((degrees(a) - 90.0).abs() < 1e-9);
    // A control point of its own gives the direction.
    let segs = vec![m(0.0, 0.0), l(10.0, 0.0), m(20.0, 0.0), c(25.0, 0.0, 20.0, 5.0, 20.0, 10.0)];
    let a = calc_vertex_angle(&segs, 2);
    assert_eq!(a, line(p(20.0, 0.0), p(25.0, 0.0)));
    assert_eq!(degrees(a), 0.0);
}

#[test]
fn closing_after_a_curve_comes_in_from_the_vertex_before_the_curve() {
    // The last control point lies on the end of the curve.
    let segs = vec![m(0.0, 0.0), l(10.0, 0.0), c(10.0, 5.0, 10.0, 10.0, 10.0, 10.0), z()];
    let a = calc_vertex_angle(&segs, 3);
    assert_eq!(a, corner(p(10.0, 0.0), p(10.0, 10.0), p(0.0, 0.0)));
    assert!((degrees(a) - 157.5).abs() < 1e-9);
    // The curve is the first segment: no vertex comes before it.
    let segs = vec![c(1.0, 1.0, 5.0, 5.0, 5.0, 5.0), z()];
    assert_eq!(calc_vertex_angle(&segs, 1), corner(p(0.0, 0.0), p(5.0, 5.0), p(0.0, 0.0)));
}

#[test]
fn angle_of_a_horizontal_line_is_zero() {
    let segs = vec![m(0.0, 0.0), l(10.0, 0.0)];
    let a = calc_vertex_angle(&segs, 0);
    assert_eq!(a, line(p(0.0, 0.0), p(10.0, 0.0)));
    assert_eq!(degrees(a), 0.0);
    let e = calc_vertex_angle(&segs, 1);
    assert_eq!(e, line(p(0.0, 0.0), p(10.0, 0.0)));
    assert_eq!(degrees(e), 0.0);
}

#[test]
fn angle_of_a_vertical_line_is_ninety() {
    let segs = vec![m(0.0, 0.0), l(0.0, 10.0)];
    let a = calc_vertex_angle(&segs, 0);
    assert_eq!(a, line(p(0.0, 0.0), p(0.0, 10.0)));
    assert!((degrees(a) - 90.0).abs() < 1e-9);
}

#[test]
fn angle_of_a_right_corner_is_forty_five() {
    let segs = vec![m(0.0, 0.0), l(10.0, 0.0), l(10.0, 10.0)];
    let a = calc_vertex_angle(&segs, 1);
    assert_eq!(a, corner(p(0.0, 0.0), p(10.0, 0.0), p(10.0, 10.0)));
    assert!((degrees(a) - 45.0).abs() < 1e-9);
}

#[test]
fn first_vertex_before_a_curve_follows_its_control_point() {
    let segs = vec![m(0.0, 0.0), c(0.0, 5.0, 5.0, 10.0, 10.0, 10.0)];
    assert_eq!(calc_vertex_angle(&segs, 0), line(p(0.0, 0.0), p(0.0, 5.0)));
    // A control point on the start gives no direction: the end point does.
    let flat = vec![m(0.0, 0.0), c(0.0, 0.0, 5.0, 10.0, 10.0, 10.0)];
    assert_eq!(calc_vertex_angle(&flat, 0), line(p(0.0, 0.0), p(10.0, 10.0)));
}

#[test]
fn undefined_neighbours_give_zero() {
    assert_eq!(calc_vertex_angle(&[], 0), VertexAngle::Zero);
    assert_eq!(calc_vertex_angle(&[m(1.0, 1.0)], 0), VertexAngle::Zero);
    assert_eq!(calc_vertex_angle(&[m(1.0, 1.0), l(2.0, 2.0)], 2), VertexAngle::Zero);
    // A move after a move, and a leading close.
    assert_eq!(calc_vertex_angle(&[m(1.0, 1.0), m(2.0, 2.0)], 0), VertexAngle::Zero);
    assert_eq!(calc_vertex_angle(&[m(1.0, 1.0), m(2.0, 2.0)], 1), VertexAngle::Zero);
    assert_eq!(calc_vertex_angle(&[z(), l(2.0, 2.0)], 0), VertexAngle::Zero);
    assert_eq!(
        calc_vertex_angle(&[m(0.0, 0.0), m(1.0, 1.0), m(2.0, 2.0)], 1),
        VertexAngle::Zero
    );
    assert_eq!(
        calc_vertex_angle(&[m(0.0, 0.0), z(), l(2.0, 2.0), l(3.0, 3.0)], 1),
        VertexAngle::Zero
    );
    assert_eq!(calc_vertex_angle(&[m(0.0, 0.0), z()], 1), VertexAngle::Zero);
}

#[test]
fn last_vertex_cases() {
    // Line.
    let segs = vec![m(0.0, 0.0), l(5.0, 0.0), l(5.0, 5.0)];
    assert_eq!(calc_vertex_angle(&segs, 2), line(p(5.0, 0.0), p(5.0, 5.0)));
    // Curve with a control point of its own.
    let segs = vec![m(0.0, 0.0), c(1.0, 0.0, 8.0, 3.0, 10.0, 10.0)];
    assert_eq!(calc_vertex_angle(&segs, 1), line(p(8.0, 3.0), p(10.0, 10.0)));
    // Curve whose last control point is its end.
    let segs = vec![m(0.0, 0.0), c(1.0, 0.0, 10.0, 10.0, 10.0, 10.0)];
    assert_eq!(calc_vertex_angle(&segs, 1), line(p(0.0, 0.0), p(10.0, 10.0)));
    // Close after a line: along the closing edge.
    let segs = vec![m(0.0, 0.0), l(10.0, 0.0), l(10.0, 10.0), z()];
    assert_eq!(calc_vertex_angle(&segs, 3), line(p(10.0, 10.0), p(0.0, 0.0)));
    // Close after a curve.
    let segs = vec![m(0.0, 0.0), c(1.0, 0.0, 8.0, 3.0, 10.0, 10.0), z()];
    assert_eq!(
        calc_vertex_angle(&segs, 2),
        corner(p(8.0, 3.0), p(10.0, 10.0), p(0.0, 0.0))
    );
}

#[test]
fn middle_vertex_cases() {
    // Move, then line or curve.
    let segs = vec![m(0.0, 0.0), l(1.0, 0.0), m(5.0, 5.0), l(6.0, 5.0), l(7.0, 7.0)];
    assert_eq!(calc_vertex_angle(&segs, 2), line(p(5.0, 5.0), p(6.0, 5.0)));
    let segs = vec![m(0.0, 0.0), l(1.0, 0.0), m(5.0, 5.0), c(5.0, 6.0, 7.0, 7.0, 8.0, 8.0), z()];
    assert_eq!(calc_vertex_angle(&segs, 2), line(p(5.0, 5.0), p(5.0, 6.0)));
    // Line, then move: along the line.
    let segs = vec![m(0.0, 0.0), l(1.0, 0.0), m(5.0, 5.0), l(6.0, 5.0)];
    assert_eq!(calc_vertex_angle(&segs, 1), line(p(0.0, 0.0), p(1.0, 0.0)));
    // Curve, then curve.
    let segs = vec![
        m(0.0, 0.0),
        c(1.0, 0.0, 4.0, 1.0, 5.0, 5.0),
        c(6.0, 9.0, 9.0, 9.0, 10.0, 10.0),
    ];
    assert_eq!(calc_vertex_angle(&segs, 1), corner(p(4.0, 1.0), p(5.0, 5.0), p(6.0, 9.0)));
    // Line, then curve: the previous vertex stands for the control point.
    let segs = vec![m(0.0, 0.0), l(5.0, 5.0), c(6.0, 9.0, 9.0, 9.0, 10.0, 10.0)];
    assert_eq!(calc_vertex_angle(&segs, 1), corner(p(0.0, 0.0), p(5.0, 5.0), p(6.0, 9.0)));
    // Curve, then line.
    let segs = vec![m(0.0, 0.0), c(1.0, 0.0, 4.0, 1.0, 5.0, 5.0), l(9.0, 5.0)];
    assert_eq!(calc_vertex_angle(&segs, 1), corner(p(4.0, 1.0), p(5.0, 5.0), p(9.0, 5.0)));
    // Curve, then move.
    let segs = vec![m(0.0, 0.0), c(1.0, 0.0, 4.0, 1.0, 5.0, 5.0), m(9.0, 5.0), l(1.0, 1.0)];
    assert_eq!(calc_vertex_angle(&segs, 1), line(p(4.0, 1.0), p(5.0, 5.0)));
    let segs = vec![m(0.0, 0.0), c(1.0, 0.0, 5.0, 5.0, 5.0, 5.0), m(9.0, 5.0), l(1.0, 1.0)];
    assert_eq!(calc_vertex_angle(&segs, 1), line(p(0.0, 0.0), p(5.0, 5.0)));
    // Line, then close: from the line into the closing edge.
    let segs = vec![m(1.0, 1.0), l(5.0, 1.0), l(5.0, 5.0), z(), m(0.0, 0.0)];
    assert_eq!(calc_vertex_angle(&segs, 2), corner(p(5.0, 1.0), p(5.0, 5.0), p(1.0, 1.0)));
    // Curve, then close: from the curve into the closing edge.
    let segs = vec![m(1.0, 1.0), l(5.0, 1.0), c(5.0, 2.0, 5.0, 4.0, 5.0, 5.0), z(), m(0.0, 0.0)];
    assert_eq!(calc_vertex_angle(&segs, 2), corner(p(5.0, 4.0), p(5.0, 5.0), p(1.0, 1.0)));
    let segs = vec![m(1.0, 1.0), l(5.0, 1.0), c(5.0, 2.0, 5.0, 5.0, 5.0, 5.0), z(), m(0.0, 0.0)];
    assert_eq!(calc_vertex_angle(&segs, 2), corner(p(5.0, 1.0), p(5.0, 5.0), p(1.0, 1.0)));
    // Move, then close: from the vertex before to the start before.
    let segs = vec![m(1.0, 1.0), l(5.0, 1.0), m(7.0, 7.0), z(), m(0.0, 0.0)];
    assert_eq!(calc_vertex_angle(&segs, 2), line(p(5.0, 1.0), p(1.0, 1.0)));
}

#[test]
fn start_marker_goes_on_a_leading_move() {
    let segs = vec![m(1.0, 2.0), l(3.0, 4.0)];
    assert_eq!(
        draw_markers(&segs, MarkerKind::Start),
        vec![MarkerVertex { at: p(1.0, 2.0), idx: 0 }]
    );
    assert_eq!(draw_markers(&[l(3.0, 4.0), l(5.0, 5.0)], MarkerKind::Start), vec![]);
    assert_eq!(draw_markers(&[z()], MarkerKind::Start), vec![]);
}

#[test]
fn middle_markers_skip_the_ends_and_close_segments() {
    let segs = vec![
        m(0.0, 0.0),
        l(1.0, 0.0),
        c(9.0, 9.0, 8.0, 8.0, 2.0, 0.0),
        z(),
        m(3.0, 3.0),
        l(4.0, 4.0),
    ];
    assert_eq!(
        draw_markers(&segs, MarkerKind::Middle),
        vec![
            MarkerVertex { at: p(1.0, 0.0), idx: 1 },
            MarkerVertex { at: p(2.0, 0.0), idx: 2 },
            MarkerVertex { at: p(3.0, 3.0), idx: 4 },
        ]
    );
    assert_eq!(draw_markers(&[m(0.0, 0.0), l(1.0, 0.0)], MarkerKind::Middle), vec![]);
    assert_eq!(draw_markers(&[m(0.0, 0.0)], MarkerKind::Middle), vec![]);
}

#[test]
fn end_marker_goes_on_the_last_vertex() {
    assert_eq!(
        draw_markers(&[m(0.0, 0.0), l(10.0, 0.0)], MarkerKind::End),
        vec![MarkerVertex { at: p(10.0, 0.0), idx: 1 }]
    );
    assert_eq!(
        draw_markers(&[m(0.0, 0.0), c(1.0, 1.0, 2.0, 2.0, 3.0, 3.0)], MarkerKind::End),
        vec![MarkerVertex { at: p(3.0, 3.0), idx: 1 }]
    );
    assert_eq!(draw_markers(&[m(0.0, 0.0), m(1.0, 1.0)], MarkerKind::End), vec![]);
}

#[test]
fn end_marker_of_a_closed_path_goes_on_its_start() {
    let segs = vec![m(0.0, 0.0), l(10.0, 0.0), l(10.0, 10.0), z()];
    assert_eq!(
        draw_markers(&segs, MarkerKind::End),
        vec![MarkerVertex { at: p(0.0, 0.0), idx: 3 }]
    );
    let segs = vec![m(9.0, 9.0), l(1.0, 1.0), m(2.0, 3.0), l(10.0, 0.0), l(10.0, 10.0), z()];
    assert_eq!(
        draw_markers(&segs, MarkerKind::End),
        vec![MarkerVertex { at: p(2.0, 3.0), idx: 5 }]
    );
}

#[test]
fn empty_path_has_no_markers() {
    for kind in [MarkerKind::Start, MarkerKind::Middle, MarkerKind::End] {
        assert_eq!(draw_markers(&[], kind), vec![]);
    }
}

#[test]
fn orientation_of_an_orient_value() {
    let a = Angle { num: d(30.0), unit: AngleUnit::Radians };
    assert_eq!(convert_orientation(&Orient::Angle(a)), MarkerOrientation::Angle(a));
    assert_eq!(
        convert_orientation(&Orient::Keyword("auto".to_string())),
        MarkerOrientation::Auto
    );
    let zero = MarkerOrientation::Angle(Angle { num: d(0.0), unit: AngleUnit::Degrees });
    assert_eq!(convert_orientation(&Orient::Keyword("Auto".to_string())), zero);
    assert_eq!(convert_orientation(&Orient::Keyword("".to_string())), zero);
    assert_eq!(convert_orientation(&Orient::Unset), zero);
}

#[test]
fn stroke_scale_in_user_space_is_one() {
    let mut mk = marker(1);
    mk.units = Some("userSpaceOnUse".to_string());
    assert_eq!(stroke_scale(&mk, Some(d(5.0))), Some(d(1.0)));
    assert_eq!(stroke_scale(&mk, Some(d(0.0))), Some(d(1.0)));
    assert_eq!(stroke_scale(&mk, Some(d(-3.0))), Some(d(1.0)));
    assert_eq!(stroke_scale(&mk, Some(d(f64::NAN))), Some(d(1.0)));
    assert_eq!(stroke_scale(&mk, None), Some(d(1.0)));
}

#[test]
fn stroke_scale_is_the_positive_stroke_width() {
    for units in [None, Some("strokeWidth".to_string()), Some("other".to_string())] {
        let mut mk = marker(1);
        mk.units = units;
        assert_eq!(stroke_scale(&mk, Some(d(5.0))), Some(d(5.0)));
        assert_eq!(stroke_scale(&mk, Some(d(0.25))), Some(d(0.25)));
        assert_eq!(stroke_scale(&mk, None), Some(d(1.0)));
        assert_eq!(stroke_scale(&mk, Some(d(0.0))), None);
        assert_eq!(stroke_scale(&mk, Some(d(-0.0))), None);
        assert_eq!(stroke_scale(&mk, Some(d(-2.0))), None);
        assert_eq!(stroke_scale(&mk, Some(d(f64::NAN))), None);
    }
}

#[test]
fn reference_rect_defaults() {
    assert_eq!(convert_rect(&marker(1)), Rect::new(d(0.0), d(0.0), d(3.0), d(3.0)));
    let mut mk = marker(1);
    mk.ref_x = Some(d(1.0));
    mk.ref_y = Some(d(2.0));
    mk.width = Some(d(4.0));
    mk.height = Some(d(5.0));
    assert_eq!(convert_rect(&mk), Rect::new(d(1.0), d(2.0), d(4.0), d(5.0)));
}

#[test]
fn overflow_default_is_hidden() {
    let mut mk = marker(1);
    assert!(has_overflow(&mk));
    mk.overflow = Some("hidden".to_string());
    assert!(has_overflow(&mk));
    mk.overflow = Some("scroll".to_string());
    assert!(has_overflow(&mk));
    mk.overflow = Some("visible".to_string());
    assert!(!has_overflow(&mk));
    mk.overflow = Some("auto".to_string());
    assert!(!has_overflow(&mk));
    mk.overflow = Some("".to_string());
    assert!(!has_overflow(&mk));
}

#[test]
fn rotation_is_skipped_for_a_zero_angle() {
    let segs = vec![m(0.0, 0.0), l(10.0, 0.0), l(10.0, 10.0)];
    let deg = |v: f64| MarkerOrientation::Angle(Angle { num: d(v), unit: AngleUnit::Degrees });
    assert_eq!(calc_rotation(deg(0.0), &segs, 1), Rotation::Skip);
    assert_eq!(calc_rotation(deg(-0.0), &segs, 1), Rotation::Skip);
    assert_eq!(calc_rotation(deg(30.0), &segs, 1), Rotation::Degrees(d(30.0)));
    let grad = Angle { num: d(100.0), unit: AngleUnit::Gradians };
    assert_eq!(calc_rotation(MarkerOrientation::Angle(grad), &segs, 1), Rotation::Convert(grad));
    assert_eq!(
        calc_rotation(MarkerOrientation::Auto, &segs, 1),
        Rotation::Bisector(Tangents {
            in_from: p(0.0, 0.0),
            in_to: p(10.0, 0.0),
            out_from: p(10.0, 0.0),
            out_to: p(10.0, 10.0),
        })
    );
    assert_eq!(calc_rotation(MarkerOrientation::Auto, &[m(0.0, 0.0)], 0), Rotation::Skip);
    assert!(!needs_rotation(d(0.0)));
    assert!(!needs_rotation(d(-0.0)));
    assert!(needs_rotation(d(45.0)));
    assert!(needs_rotation(d(1e-9)));
}

#[test]
fn markers_apply_to_shapes_outside_clip_paths() {
    for tag in [ElementTag::Path, ElementTag::Line, ElementTag::Polyline, ElementTag::Polygon] {
        assert!(is_applicable(&[shape(tag), shape(ElementTag::Other)]));
        assert!(!is_applicable(&[shape(tag), shape(ElementTag::Other), shape(ElementTag::ClipPath)]));
    }
    assert!(!is_applicable(&[shape(ElementTag::Other)]));
    assert!(!is_applicable(&[shape(ElementTag::Marker)]));
    assert!(!is_applicable(&[]));
}

#[test]
fn own_marker_needs_a_link_to_a_marker() {
    let mut e = shape(ElementTag::Path);
    e.marker_start = link(7);
    e.marker_mid = Some(Link { target: NodeId { index: 8 }, tag: ElementTag::Other });
    assert_eq!(get_own_marker(&e, MarkerKind::Start), Some(NodeId { index: 7 }));
    assert_eq!(get_own_marker(&e, MarkerKind::Middle), None);
    assert_eq!(get_own_marker(&e, MarkerKind::End), None);
}

#[test]
fn nearest_marker_is_selected() {
    let mut path = shape(ElementTag::Path);
    let mut group = shape(ElementTag::Other);
    let mut root = shape(ElementTag::Other);
    group.marker_end = link(2);
    root.marker_end = link(3);
    root.marker_start = link(4);
    let state = State { current_root: NodeId { index: 0 } };
    let chain = [path, group, root];
    assert_eq!(select_marker(&chain, MarkerKind::End, &state), Some(NodeId { index: 2 }));
    assert_eq!(select_marker(&chain, MarkerKind::Start, &state), Some(NodeId { index: 4 }));
    assert_eq!(select_marker(&chain, MarkerKind::Middle, &state), None);
    path.marker_end = link(1);
    let chain = [path, group, root];
    assert_eq!(select_marker(&chain, MarkerKind::End, &state), Some(NodeId { index: 1 }));
}

#[test]
fn marker_being_expanded_is_passed_over() {
    let mut path = shape(ElementTag::Path);
    path.marker_start = link(5);
    path.marker_end = link(6);
    let mut group = shape(ElementTag::Other);
    group.marker_start = link(9);
    let chain = [path, group];
    let inside = State { current_root: NodeId { index: 0 } }.enter(NodeId { index: 5 });
    assert_eq!(inside.current_root, NodeId { index: 5 });
    assert_eq!(select_marker(&chain, MarkerKind::Start, &inside), None);
    assert_eq!(select_marker(&chain, MarkerKind::End, &inside), Some(NodeId { index: 6 }));
}

#[test]
fn self_referencing_marker_is_not_expanded_again() {
    // The content of marker 5 holds a path that carries marker 5 itself.
    let mut inner = shape(ElementTag::Path);
    inner.marker_start = link(5);
    inner.marker_mid = link(5);
    inner.marker_end = link(5);
    let chain = [inner, shape(ElementTag::Marker)];
    let segs = vec![m(0.0, 0.0), l(1.0, 0.0), l(2.0, 0.0)];
    let state = State { current_root: NodeId { index: 5 } };
    let mut defs = Defs::new(vec![]);
    let groups = convert(&chain, &segs, &state, &[marker(5)], Some(d(1.0)), &mut defs);
    assert!(groups.is_empty());
    assert!(defs.clip_paths().is_empty());
    // Outside of its own content it is expanded.
    let outside = State { current_root: NodeId { index: 0 } };
    let groups = convert(&chain, &segs, &outside, &[marker(5)], Some(d(1.0)), &mut defs);
    assert_eq!(groups.len(), 3);
}

#[test]
fn find_marker_by_node() {
    let markers = [marker(3), marker(4), marker(3)];
    assert_eq!(find_marker(&markers, NodeId { index: 3 }), Some(0));
    assert_eq!(find_marker(&markers, NodeId { index: 4 }), Some(1));
    assert_eq!(find_marker(&markers, NodeId { index: 5 }), None);
}

#[test]
fn resolve_without_stroke_gives_nothing() {
    let segs = vec![m(0.0, 0.0), l(10.0, 0.0)];
    let mut defs = Defs::new(vec![]);
    assert!(resolve(node(100), &marker(1), MarkerKind::End, &segs, Some(d(0.0)), &mut defs).is_none());
    assert!(resolve(node(100), &marker(1), MarkerKind::End, &segs, Some(d(-1.0)), &mut defs).is_none());
    assert!(defs.clip_paths().is_empty());
}

#[test]
fn resolve_with_an_invalid_rect_gives_nothing() {
    let segs = vec![m(0.0, 0.0), l(10.0, 0.0)];
    let mut defs = Defs::new(vec![]);
    let mut mk = marker(1);
    mk.width = Some(d(0.0));
    assert!(resolve(node(100), &mk, MarkerKind::End, &segs, Some(d(1.0)), &mut defs).is_none());
    mk.width = Some(d(2.0));
    mk.height = Some(d(-2.0));
    assert!(resolve(node(100), &mk, MarkerKind::End, &segs, Some(d(1.0)), &mut defs).is_none());
    assert!(defs.clip_paths().is_empty());
}

#[test]
fn resolve_clips_to_the_marker_size() {
    let segs = vec![m(0.0, 0.0), l(10.0, 0.0), l(10.0, 10.0)];
    let mut defs = Defs::new(vec!["clipPath1".to_string()]);
    let mut mk = marker(1);
    mk.ref_x = Some(d(1.0));
    mk.ref_y = Some(d(2.0));
    mk.width = Some(d(4.0));
    mk.height = Some(d(5.0));
    mk.orient = Orient::Angle(Angle { num: d(30.0), unit: AngleUnit::Degrees });
    let out = resolve(node(100), &mk, MarkerKind::Middle, &segs, Some(d(2.0)), &mut defs).unwrap();
    assert_eq!(out.marker, NodeId { index: 1 });
    assert_eq!(out.kind, MarkerKind::Middle);
    assert_eq!(out.scale, Scale::Uniform(d(2.0)));
    assert_eq!(out.offset, p(-1.0, -2.0));
    assert_eq!(out.clip_path, Some("clipPath2".to_string()));
    assert_eq!(out.placements.len(), 1);
    assert_eq!(out.placements[0].vertex, MarkerVertex { at: p(10.0, 0.0), idx: 1 });
    assert_eq!(out.placements[0].rotation, Rotation::Degrees(d(30.0)));
    assert_eq!(defs.clip_paths().len(), 1);
    assert_eq!(defs.clip_paths()[0].id, "clipPath2");
    assert_eq!(defs.clip_paths()[0].path.rect, Rect::new(d(0.0), d(0.0), d(4.0), d(5.0)));
}

#[test]
fn groups_have_no_id_mask_or_filter() {
    let segs = vec![m(0.0, 0.0), l(10.0, 0.0)];
    let mut defs = Defs::new(vec![]);
    let out = resolve(node(100), &marker(1), MarkerKind::End, &segs, Some(d(2.0)), &mut defs)
        .unwrap();
    assert_eq!(out.id, "");
    assert_eq!(out.opacity.value(), d(1.0));
    assert_eq!(out.mask, None);
    assert_eq!(out.filter, None);
    assert_eq!(out.clip_path, Some("clipPath1".to_string()));
}

#[test]
fn clip_path_of_a_marker_is_a_filled_rectangle() {
    let segs = vec![m(0.0, 0.0), l(10.0, 0.0)];
    let mut defs = Defs::new(vec![]);
    let mut mk = marker(1);
    mk.width = Some(d(4.0));
    mk.height = Some(d(5.0));
    resolve(node(100), &mk, MarkerKind::End, &segs, Some(d(2.0)), &mut defs).unwrap();
    let clip = &defs.clip_paths()[0];
    assert_eq!(clip.id, "clipPath1");
    assert_eq!(clip.units, Units::UserSpaceOnUse);
    assert_eq!(clip.transform, Transform::default());
    assert_eq!(clip.clip_path, None);
    assert_eq!(clip.path.id, "");
    assert_eq!(clip.path.transform, Transform::default());
    assert_eq!(clip.path.visibility, Visibility::Visible);
    let fill = clip.path.fill.as_ref().unwrap();
    assert!(matches!(fill.paint, Paint::Color(c) if c == Color::black()));
    assert_eq!(fill.opacity.value(), d(1.0));
    assert_eq!(fill.rule, FillRule::NonZero);
    assert!(clip.path.stroke.is_none());
    assert_eq!(clip.path.rect, Rect::new(d(0.0), d(0.0), d(4.0), d(5.0)));
}

#[test]
fn resolve_clips_to_the_view_box() {
    let segs = vec![m(0.0, 0.0), l(10.0, 0.0)];
    let mut defs = Defs::new(vec![]);
    let mut mk = marker(1);
    let vb = ViewBox { rect: Rect::new(d(1.0), d(1.0), d(20.0), d(10.0)), aspect: aspect() };
    mk.view_box = Some(vb);
    let out = resolve(node(100), &mk, MarkerKind::Start, &segs, None, &mut defs).unwrap();
    assert_eq!(
        out.scale,
        Scale::Fit { view_box: vb, width: d(3.0), height: d(3.0), stroke_scale: d(1.0) }
    );
    assert_eq!(out.offset, p(-0.0, -0.0));
    assert_eq!(out.clip_path, Some("clipPath1".to_string()));
    assert_eq!(defs.clip_paths()[0].path.rect, vb.rect);
    assert_eq!(out.placements.len(), 1);
    assert_eq!(out.placements[0].rotation, Rotation::Skip);
}

#[test]
fn resolve_with_visible_overflow_adds_no_clip_path() {
    let segs = vec![m(0.0, 0.0), l(10.0, 0.0)];
    let mut defs = Defs::new(vec![]);
    let mut mk = marker(1);
    mk.overflow = Some("visible".to_string());
    let out = resolve(node(100), &mk, MarkerKind::End, &segs, Some(d(1.0)), &mut defs).unwrap();
    assert_eq!(out.clip_path, None);
    assert!(defs.clip_paths().is_empty());
}

#[test]
fn convert_takes_the_roles_in_order() {
    let mut path = shape(ElementTag::Polyline);
    path.marker_start = link(1);
    path.marker_mid = link(2);
    path.marker_end = link(1);
    let segs = vec![m(0.0, 0.0), l(10.0, 0.0), l(10.0, 10.0), l(0.0, 10.0)];
    let mut second = marker(2);
    second.overflow = Some("visible".to_string());
    let markers = [marker(1), second];
    let state = State { current_root: NodeId { index: 0 } };
    let mut defs = Defs::new(vec![]);
    let groups = convert(&[path], &segs, &state, &markers, Some(d(1.0)), &mut defs);
    assert_eq!(groups.len(), 3);
    assert_eq!(groups[0].kind, MarkerKind::Start);
    assert_eq!(groups[0].marker, NodeId { index: 1 });
    assert_eq!(groups[0].clip_path, Some("clipPath1".to_string()));
    assert_eq!(groups[0].placements.len(), 1);
    assert_eq!(groups[1].kind, MarkerKind::Middle);
    assert_eq!(groups[1].marker, NodeId { index: 2 });
    assert_eq!(groups[1].clip_path, None);
    assert_eq!(groups[1].placements.len(), 2);
    assert_eq!(groups[2].kind, MarkerKind::End);
    // The same marker on the same shape: its clip path is used again.
    assert_eq!(groups[2].clip_path, Some("clipPath1".to_string()));
    assert_eq!(groups[2].placements[0].vertex, MarkerVertex { at: p(0.0, 10.0), idx: 3 });
    assert_eq!(defs.clip_paths().len(), 1);
    assert_eq!(defs.clip_paths()[0].shape, node(100));
    assert_eq!(defs.clip_paths()[0].marker, node(1));
}

#[test]
fn each_marker_on_each_shape_has_its_clip_path() {
    let segs = vec![m(0.0, 0.0), l(10.0, 0.0)];
    let state = State { current_root: NodeId { index: 0 } };
    let mut defs = Defs::new(vec![]);
    let markers = [marker(1), marker(2)];
    let mut first = shape(ElementTag::Path);
    first.marker_start = link(1);
    first.marker_end = link(2);
    let mut second = shape(ElementTag::Line);
    second.id = node(101);
    second.marker_end = link(1);
    let a = convert(&[first], &segs, &state, &markers, Some(d(1.0)), &mut defs);
    let b = convert(&[second], &segs, &state, &markers, Some(d(1.0)), &mut defs);
    let again = convert(&[first], &segs, &state, &markers, Some(d(1.0)), &mut defs);
    assert_eq!(a[0].clip_path, Some("clipPath1".to_string()));
    assert_eq!(a[1].clip_path, Some("clipPath2".to_string()));
    assert_eq!(b[0].clip_path, Some("clipPath3".to_string()));
    assert_eq!(again[0].clip_path, Some("clipPath1".to_string()));
    assert_eq!(again[1].clip_path, Some("clipPath2".to_string()));
    assert_eq!(defs.clip_paths().len(), 3);
}

#[test]
fn convert_ignores_other_elements_and_unknown_markers() {
    let mut rect = shape(ElementTag::Other);
    rect.marker_end = link(1);
    let segs = vec![m(0.0, 0.0), l(10.0, 0.0)];
    let state = State { current_root: NodeId { index: 0 } };
    let mut defs = Defs::new(vec![]);
    assert!(convert(&[rect], &segs, &state, &[marker(1)], Some(d(1.0)), &mut defs).is_empty());
    let mut path = shape(ElementTag::Path);
    path.marker_end = link(1);
    assert!(convert(&[path], &segs, &state, &[marker(2)], Some(d(1.0)), &mut defs).is_empty());
    let clip = shape(ElementTag::ClipPath);
    assert!(convert(&[path, clip], &segs, &state, &[marker(1)], Some(d(1.0)), &mut defs).is_empty());
    assert!(defs.clip_paths().is_empty());
}

#[test]
fn end_marker_on_a_horizontal_line() {
    let mut path = shape(ElementTag::Path);
    path.marker_end = link(1);
    let segs = vec![m(0.0, 0.0), l(10.0, 0.0)];
    let mut mk = marker(1);
    mk.orient = Orient::Keyword("auto".to_string());
    let vb = ViewBox { rect: Rect::new(d(0.0), d(0.0), d(2.0), d(2.0)), aspect: aspect() };
    mk.view_box = Some(vb);
    mk.ref_x = Some(d(1.0));
    mk.ref_y = Some(d(1.0));
    mk.width = Some(d(2.0));
    mk.height = Some(d(2.0));
    let state = State { current_root: NodeId { index: 0 } };
    let mut defs = Defs::new(vec![]);
    let groups = convert(&[path], &segs, &state, &[mk], Some(d(3.0)), &mut defs);
    assert_eq!(groups.len(), 1);
    let g = &groups[0];
    assert_eq!(g.kind, MarkerKind::End);
    assert_eq!(g.placements.len(), 1);
    // Moved to the end of the line.
    assert_eq!(g.placements[0].vertex, MarkerVertex { at: p(10.0, 0.0), idx: 1 });
    // Turned by the angle of the line, which is zero: no rotation.
    match g.placements[0].rotation {
        Rotation::Bisector(t) => {
            let angle = bisector_degrees(&t);
            assert_eq!(angle, 0.0);
            assert!(!needs_rotation(d(angle)));
        }
        other => panic!("unexpected rotation {:?}", other),
    }
    // Scaled by the stroke width on both axes: the view box has the size
    // of the marker.
    match g.scale {
        Scale::Fit { view_box, width, height, stroke_scale } => {
            assert_eq!(view_box, vb);
            assert_eq!(stroke_scale, d(3.0));
            assert_eq!(f(width) * f(stroke_scale) / f(view_box.rect.width), 3.0);
            assert_eq!(f(height) * f(stroke_scale) / f(view_box.rect.height), 3.0);
        }
        other => panic!("unexpected scale {:?}", other),
    }
    assert_eq!(g.offset, p(-1.0, -1.0));
    assert_eq!(g.clip_path, Some("clipPath1".to_string()));
}

#[test]
fn empty_groups_are_discarded() {
    assert!(!MarkerGroups::keeps_group(0));
    assert!(MarkerGroups::keeps_group(1));
    assert!(MarkerGroups::keeps_group(7));
}
