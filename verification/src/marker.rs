//! Marker placement on path vertices.

use vstd::prelude::*;
use crate::attributes::{PathSegment, ViewBox};
use crate::defs::{clip_path_made, Defs};
use crate::dom::{Element, ElementTag, Link, NodeId};
use crate::geom::{Point, Rect};
use crate::number::{Double, Opacity, DOUBLE_ONE, DOUBLE_THREE};
use crate::resolve::inherited;
use crate::text::{opt_text, str_eq};

verus! {

/// The start of the subpath that reaches segment `idx`: the point of the
/// nearest `MoveTo` before `idx`, or the origin when there is none.
pub open spec fn subpath_start(segments: Seq<PathSegment>, idx: int) -> Point
    decreases idx,
{
    if idx <= 0 || idx > segments.len() {
        Point::origin()
    } else {
        match segments[idx - 1] {
            PathSegment::MoveTo { x, y } => Point { x, y },
            _ => subpath_start(segments, idx - 1),
        }
    }
}

/// The vertex before segment `idx`: the end point of the segment before it,
/// or, where that segment closes a subpath, the start of that subpath. The
/// first segment has no vertex before it, nor has an index outside the path:
/// there it is the origin.
pub open spec fn prev_vertex(segments: Seq<PathSegment>, idx: int) -> Point {
    if idx < 1 || idx > segments.len() {
        Point::origin()
    } else {
        match segments[idx - 1].end_point() {
            Some(p) => p,
            None => subpath_start(segments, idx),
        }
    }
}

/// The start of a subpath is the point of the nearest `MoveTo` before
/// `idx`: no `MoveTo` lies between the two. Where no `MoveTo` comes before
/// `idx`, it is the origin.
pub proof fn lemma_subpath_start_nearest(segments: Seq<PathSegment>, idx: int)
    requires
        0 <= idx <= segments.len(),
    ensures
        (forall|k: int| 0 <= k < idx ==> !(#[trigger] segments[k] is MoveTo)) ==> subpath_start(
            segments,
            idx,
        ) == Point::origin(),
        (exists|k: int| 0 <= k < idx && #[trigger] segments[k] is MoveTo) ==> exists|j: int|
            {
                &&& 0 <= j < idx
                &&& #[trigger] segments[j] is MoveTo
                &&& segments[j].end_point() == Some(subpath_start(segments, idx))
                &&& forall|k: int| j < k < idx ==> !(#[trigger] segments[k] is MoveTo)
            },
    decreases idx,
{
    if idx > 0 && !(segments[idx - 1] is MoveTo) {
        lemma_subpath_start_nearest(segments, idx - 1);
        if exists|k: int| 0 <= k < idx && #[trigger] segments[k] is MoveTo {
            let j = choose|j: int|
                {
                    &&& 0 <= j < idx - 1
                    &&& #[trigger] segments[j] is MoveTo
                    &&& segments[j].end_point() == Some(subpath_start(segments, idx - 1))
                    &&& forall|k: int| j < k < idx - 1 ==> !(#[trigger] segments[k] is MoveTo)
                };
            assert forall|k: int| j < k < idx implies !(#[trigger] segments[k] is MoveTo) by {}
        }
    }
}

/// The start of the subpath that reaches segment `idx`.
///
/// Scans backward from `idx` for the nearest `MoveTo`. An index past the end
/// of the path, like a path without a `MoveTo` before `idx`, gives the origin.
pub fn get_subpath_start(segments: &[PathSegment], idx: usize) -> (p: Point)
    ensures
        p == subpath_start(segments@, idx as int),
{
    if idx > segments.len() {
        return Point { x: Double { bits: 0 }, y: Double { bits: 0 } };
    }
    let mut i: usize = idx;
    while i > 0
        invariant
            i <= idx <= segments.len(),
            subpath_start(segments@, idx as int) == subpath_start(segments@, i as int),
        decreases i,
    {
        match segments[i - 1] {
            PathSegment::MoveTo { x, y } => {
                return Point { x, y };
            },
            _ => {},
        }
        i = i - 1;
    }
    Point { x: Double { bits: 0 }, y: Double { bits: 0 } }
}

/// The vertex before segment `idx`.
///
/// It is the end point of the segment before `idx`; where that segment
/// closes a subpath, the start of that subpath. For the first segment and
/// for an index outside the path it is the origin.
pub fn get_prev_vertex(segments: &[PathSegment], idx: usize) -> (p: Point)
    ensures
        p == prev_vertex(segments@, idx as int),
{
    if idx < 1 || idx > segments.len() {
        return Point { x: Double { bits: 0 }, y: Double { bits: 0 } };
    }
    match segments[idx - 1].vertex() {
        Some(p) => p,
        None => get_subpath_start(segments, idx),
    }
}

/// The two directions that meet at a vertex: the incoming one, from
/// `in_from` to `in_to`, and the outgoing one, from `out_from` to `out_to`.
///
/// The angle of a marker is the bisector between the two.
#[derive(Clone, Copy, Debug, PartialEq, Eq, Structural)]
pub struct Tangents {
    pub in_from: Point,
    pub in_to: Point,
    pub out_from: Point,
    pub out_to: Point,
}

/// The orientation of an automatically oriented marker at a vertex.
#[derive(Clone, Copy, Debug, PartialEq, Eq, Structural)]
pub enum VertexAngle {
    /// No direction is defined at the vertex: the angle is zero.
    Zero,
    /// The bisector between two directions.
    Bisector(Tangents),
}

/// The one-sided tangent along the line from `a` to `b`.
pub open spec fn line_tangents(a: Point, b: Point) -> Tangents {
    Tangents { in_from: a, in_to: b, out_from: a, out_to: b }
}

/// The tangents at vertex `v` between two curves.
///
/// `p` is the previous vertex and `c1` the control point that leads into `v`;
/// `c2` is the control point that leads out of `v` and `n` the next vertex.
/// A control point that coincides with `v` gives no direction, so the
/// adjacent vertex takes its place: `p` for `c1`, and `n` for `c2`. Each of
/// the two directions falls back on its own.
pub open spec fn curve_tangents(p: Point, c1: Point, v: Point, c2: Point, n: Point) -> Tangents {
    Tangents {
        in_from: if c1.coincides(v) {
            p
        } else {
            c1
        },
        in_to: v,
        out_from: v,
        out_to: if v.coincides(c2) {
            n
        } else {
            c2
        },
    }
}

/// A control point that lies on the vertex is never the far end of a
/// direction at it: the adjacent vertex is. One that lies elsewhere is.
pub proof fn lemma_curve_tangents_fall_back(p: Point, c1: Point, v: Point, c2: Point, n: Point)
    ensures
        curve_tangents(p, c1, v, c2, n).in_to == v,
        curve_tangents(p, c1, v, c2, n).out_from == v,
        c1.coincides(v) ==> curve_tangents(p, c1, v, c2, n).in_from == p,
        !c1.coincides(v) ==> curve_tangents(p, c1, v, c2, n).in_from == c1,
        v.coincides(c2) ==> curve_tangents(p, c1, v, c2, n).out_to == n,
        !v.coincides(c2) ==> curve_tangents(p, c1, v, c2, n).out_to == c2,
{
}

/// The orientation at the first vertex of a path: the direction in which
/// the path leaves its first `MoveTo`.
///
/// Before a curve that is the direction to the first control point of the
/// curve; where that lies on the `MoveTo` point, to the end of the curve.
pub open spec fn first_vertex_angle(first: PathSegment, second: PathSegment) -> VertexAngle {
    match (first, second) {
        (PathSegment::MoveTo { x: mx, y: my }, PathSegment::LineTo { x, y }) => {
            VertexAngle::Bisector(line_tangents(Point { x: mx, y: my }, Point { x, y }))
        },
        (PathSegment::MoveTo { x: mx, y: my }, PathSegment::CurveTo { x1, y1, x, y, .. }) => {
            let m = Point { x: mx, y: my };
            if m.coincides(Point { x: x1, y: y1 }) {
                VertexAngle::Bisector(line_tangents(m, Point { x, y }))
            } else {
                VertexAngle::Bisector(line_tangents(m, Point { x: x1, y: y1 }))
            }
        },
        _ => VertexAngle::Zero,
    }
}

/// The orientation at the last vertex of a path, whose last segment is
/// `last` and comes after `before`. `prev` is the vertex before the last
/// segment, `before_prev` the vertex before `before`, and `start` the start
/// of the subpath that the last segment belongs to.
///
/// Where the path ends by closing after a curve, the marker lies between
/// the curve and the closing edge: the curve comes in from `before_prev`,
/// and the closing edge goes out to `start`.
pub open spec fn last_vertex_angle(
    before: PathSegment,
    last: PathSegment,
    prev: Point,
    before_prev: Point,
    start: Point,
) -> VertexAngle {
    match last {
        PathSegment::MoveTo { .. } => VertexAngle::Zero,
        PathSegment::LineTo { x, y } => {
            VertexAngle::Bisector(line_tangents(prev, Point { x, y }))
        },
        PathSegment::CurveTo { x2, y2, x, y, .. } => {
            let c = Point { x: x2, y: y2 };
            let v = Point { x, y };
            if c.coincides(v) {
                VertexAngle::Bisector(line_tangents(prev, v))
            } else {
                VertexAngle::Bisector(line_tangents(c, v))
            }
        },
        PathSegment::ClosePath => match before {
            PathSegment::LineTo { x, y } => {
                VertexAngle::Bisector(line_tangents(Point { x, y }, start))
            },
            PathSegment::CurveTo { x2, y2, x, y, .. } => {
                VertexAngle::Bisector(
                    curve_tangents(
                        before_prev,
                        Point { x: x2, y: y2 },
                        Point { x, y },
                        start,
                        start,
                    ),
                )
            },
            _ => VertexAngle::Zero,
        },
    }
}

/// The orientation at an interior vertex, the end of segment `here`, which
/// `next` follows. `prev` is the vertex before `here` and `start` the start of
/// the subpath that `here` belongs to.
///
/// A `MoveTo` is left as the first vertex of a path is. Between lines and
/// curves the marker lies between the direction that comes in, from the
/// previous vertex or from the last control point of a curve, and the
/// direction that goes out, to the next vertex or to the first control
/// point of a curve; a closing edge goes out to `start`. A control point
/// that lies on the vertex gives way to the adjacent vertex. Before a
/// `MoveTo` only the direction that comes in counts.
pub open spec fn middle_vertex_angle(
    here: PathSegment,
    next: PathSegment,
    prev: Point,
    start: Point,
) -> VertexAngle {
    match (here, next) {
        (PathSegment::MoveTo { x: mx, y: my }, PathSegment::LineTo { x, y }) => {
            VertexAngle::Bisector(line_tangents(Point { x: mx, y: my }, Point { x, y }))
        },
        (PathSegment::MoveTo { x: mx, y: my }, PathSegment::CurveTo { x1, y1, x, y, .. }) => {
            let m = Point { x: mx, y: my };
            if m.coincides(Point { x: x1, y: y1 }) {
                VertexAngle::Bisector(line_tangents(m, Point { x, y }))
            } else {
                VertexAngle::Bisector(line_tangents(m, Point { x: x1, y: y1 }))
            }
        },
        (PathSegment::LineTo { x: x1, y: y1 }, PathSegment::LineTo { x: x2, y: y2 }) => {
            let v = Point { x: x1, y: y1 };
            VertexAngle::Bisector(
                Tangents { in_from: prev, in_to: v, out_from: v, out_to: Point { x: x2, y: y2 } },
            )
        },
        (
            PathSegment::CurveTo { x2: c1x, y2: c1y, x, y, .. },
            PathSegment::CurveTo { x1: c2x, y1: c2y, x: nx, y: ny, .. },
        ) => {
            VertexAngle::Bisector(
                curve_tangents(
                    prev,
                    Point { x: c1x, y: c1y },
                    Point { x, y },
                    Point { x: c2x, y: c2y },
                    Point { x: nx, y: ny },
                ),
            )
        },
        (PathSegment::LineTo { x, y }, PathSegment::CurveTo { x1, y1, x: nx, y: ny, .. }) => {
            VertexAngle::Bisector(
                curve_tangents(
                    prev,
                    prev,
                    Point { x, y },
                    Point { x: x1, y: y1 },
                    Point { x: nx, y: ny },
                ),
            )
        },
        (PathSegment::CurveTo { x2, y2, x, y, .. }, PathSegment::LineTo { x: nx, y: ny }) => {
            let n = Point { x: nx, y: ny };
            VertexAngle::Bisector(
                curve_tangents(prev, Point { x: x2, y: y2 }, Point { x, y }, n, n),
            )
        },
        (PathSegment::LineTo { x, y }, PathSegment::MoveTo { .. }) => {
            VertexAngle::Bisector(line_tangents(prev, Point { x, y }))
        },
        (PathSegment::CurveTo { x2, y2, x, y, .. }, PathSegment::MoveTo { .. }) => {
            let c = Point { x: x2, y: y2 };
            let v = Point { x, y };
            if v.coincides(c) {
                VertexAngle::Bisector(line_tangents(prev, v))
            } else {
                VertexAngle::Bisector(line_tangents(c, v))
            }
        },
        (PathSegment::LineTo { x, y }, PathSegment::ClosePath) => {
            let v = Point { x, y };
            VertexAngle::Bisector(
                Tangents { in_from: prev, in_to: v, out_from: v, out_to: start },
            )
        },
        (PathSegment::CurveTo { x2, y2, x, y, .. }, PathSegment::ClosePath) => {
            VertexAngle::Bisector(
                curve_tangents(prev, Point { x: x2, y: y2 }, Point { x, y }, start, start),
            )
        },
        (_, PathSegment::ClosePath) => VertexAngle::Bisector(line_tangents(prev, start)),
        _ => VertexAngle::Zero,
    }
}

/// The orientation of an automatically oriented marker at the end of
/// segment `idx`. A path of fewer than two segments and an index outside
/// the path have no direction.
pub open spec fn vertex_angle(segments: Seq<PathSegment>, idx: int) -> VertexAngle {
    if segments.len() < 2 || idx < 0 || idx >= segments.len() {
        VertexAngle::Zero
    } else if idx == 0 {
        first_vertex_angle(segments[0], segments[1])
    } else if idx == segments.len() - 1 {
        last_vertex_angle(
            segments[idx - 1],
            segments[idx],
            prev_vertex(segments, idx),
            prev_vertex(segments, idx - 1),
            subpath_start(segments, idx),
        )
    } else {
        middle_vertex_angle(
            segments[idx],
            segments[idx + 1],
            prev_vertex(segments, idx),
            subpath_start(segments, idx),
        )
    }
}

/// The tangents along the line from `a` to `b`.
pub fn calc_line_angle(a: Point, b: Point) -> (t: Tangents)
    ensures
        t == line_tangents(a, b),
{
    Tangents { in_from: a, in_to: b, out_from: a, out_to: b }
}

/// The tangents at vertex `v` between two curves, with the fallback for
/// control points that coincide with `v`.
pub fn calc_curves_angle(p: Point, c1: Point, v: Point, c2: Point, n: Point) -> (t: Tangents)
    ensures
        t == curve_tangents(p, c1, v, c2, n),
{
    let in_from: Point = if c1.is_coincident(&v) {
        p
    } else {
        c1
    };
    let out_to: Point = if v.is_coincident(&c2) {
        n
    } else {
        c2
    };
    Tangents { in_from, in_to: v, out_from: v, out_to }
}

/// The orientation of an automatically oriented marker at the end of
/// segment `idx`: the directions whose bisector is the marker's angle, or
/// `Zero` where the neighbouring segments define none.
pub fn calc_vertex_angle(segments: &[PathSegment], idx: usize) -> (a: VertexAngle)
    ensures
        a == vertex_angle(segments@, idx as int),
{
    let len: usize = segments.len();
    if len < 2 || idx >= len {
        return VertexAngle::Zero;
    }
    if idx == 0 {
        match (segments[0], segments[1]) {
            (PathSegment::MoveTo { x: mx, y: my }, PathSegment::LineTo { x, y }) => {
                VertexAngle::Bisector(calc_line_angle(Point { x: mx, y: my }, Point { x, y }))
            },
            (PathSegment::MoveTo { x: mx, y: my }, PathSegment::CurveTo { x1, y1, x, y, .. }) => {
                let m = Point { x: mx, y: my };
                let c = Point { x: x1, y: y1 };
                if m.is_coincident(&c) {
                    VertexAngle::Bisector(calc_line_angle(m, Point { x, y }))
                } else {
                    VertexAngle::Bisector(calc_line_angle(m, c))
                }
            },
            _ => VertexAngle::Zero,
        }
    } else if idx == len - 1 {
        match (segments[idx - 1], segments[idx]) {
            (_, PathSegment::MoveTo { .. }) => VertexAngle::Zero,
            (_, PathSegment::LineTo { x, y }) => {
                let prev = get_prev_vertex(segments, idx);
                VertexAngle::Bisector(calc_line_angle(prev, Point { x, y }))
            },
            (_, PathSegment::CurveTo { x2, y2, x, y, .. }) => {
                let c = Point { x: x2, y: y2 };
                let v = Point { x, y };
                if c.is_coincident(&v) {
                    let prev = get_prev_vertex(segments, idx);
                    VertexAngle::Bisector(calc_line_angle(prev, v))
                } else {
                    VertexAngle::Bisector(calc_line_angle(c, v))
                }
            },
            (PathSegment::LineTo { x, y }, PathSegment::ClosePath) => {
                let start = get_subpath_start(segments, idx);
                VertexAngle::Bisector(calc_line_angle(Point { x, y }, start))
            },
            (PathSegment::CurveTo { x2, y2, x, y, .. }, PathSegment::ClosePath) => {
                let before_prev = get_prev_vertex(segments, idx - 1);
                let start = get_subpath_start(segments, idx);
                VertexAngle::Bisector(
                    calc_curves_angle(
                        before_prev,
                        Point { x: x2, y: y2 },
                        Point { x, y },
                        start,
                        start,
                    ),
                )
            },
            (_, PathSegment::ClosePath) => VertexAngle::Zero,
        }
    } else {
        match (segments[idx], segments[idx + 1]) {
            (PathSegment::MoveTo { x: mx, y: my }, PathSegment::LineTo { x, y }) => {
                VertexAngle::Bisector(calc_line_angle(Point { x: mx, y: my }, Point { x, y }))
            },
            (PathSegment::MoveTo { x: mx, y: my }, PathSegment::CurveTo { x1, y1, x, y, .. }) => {
                let m = Point { x: mx, y: my };
                let c = Point { x: x1, y: y1 };
                if m.is_coincident(&c) {
                    VertexAngle::Bisector(calc_line_angle(m, Point { x, y }))
                } else {
                    VertexAngle::Bisector(calc_line_angle(m, c))
                }
            },
            (PathSegment::LineTo { x: x1, y: y1 }, PathSegment::LineTo { x: x2, y: y2 }) => {
                let prev = get_prev_vertex(segments, idx);
                let v = Point { x: x1, y: y1 };
                VertexAngle::Bisector(
                    Tangents {
                        in_from: prev,
                        in_to: v,
                        out_from: v,
                        out_to: Point { x: x2, y: y2 },
                    },
                )
            },
            (
                PathSegment::CurveTo { x2: c1x, y2: c1y, x, y, .. },
                PathSegment::CurveTo { x1: c2x, y1: c2y, x: nx, y: ny, .. },
            ) => {
                let prev = get_prev_vertex(segments, idx);
                VertexAngle::Bisector(
                    calc_curves_angle(
                        prev,
                        Point { x: c1x, y: c1y },
                        Point { x, y },
                        Point { x: c2x, y: c2y },
                        Point { x: nx, y: ny },
                    ),
                )
            },
            (PathSegment::LineTo { x, y }, PathSegment::CurveTo { x1, y1, x: nx, y: ny, .. }) => {
                let prev = get_prev_vertex(segments, idx);
                VertexAngle::Bisector(
                    calc_curves_angle(
                        prev,
                        prev,
                        Point { x, y },
                        Point { x: x1, y: y1 },
                        Point { x: nx, y: ny },
                    ),
                )
            },
            (PathSegment::CurveTo { x2, y2, x, y, .. }, PathSegment::LineTo { x: nx, y: ny }) => {
                let prev = get_prev_vertex(segments, idx);
                let n = Point { x: nx, y: ny };
                VertexAngle::Bisector(
                    calc_curves_angle(prev, Point { x: x2, y: y2 }, Point { x, y }, n, n),
                )
            },
            (PathSegment::LineTo { x, y }, PathSegment::MoveTo { .. }) => {
                let prev = get_prev_vertex(segments, idx);
                VertexAngle::Bisector(calc_line_angle(prev, Point { x, y }))
            },
            (PathSegment::CurveTo { x2, y2, x, y, .. }, PathSegment::MoveTo { .. }) => {
                let c = Point { x: x2, y: y2 };
                let v = Point { x, y };
                if v.is_coincident(&c) {
                    let prev = get_prev_vertex(segments, idx);
                    VertexAngle::Bisector(calc_line_angle(prev, v))
                } else {
                    VertexAngle::Bisector(calc_line_angle(c, v))
                }
            },
            (PathSegment::LineTo { x, y }, PathSegment::ClosePath) => {
                let prev = get_prev_vertex(segments, idx);
                let start = get_subpath_start(segments, idx);
                let v = Point { x, y };
                VertexAngle::Bisector(
                    Tangents { in_from: prev, in_to: v, out_from: v, out_to: start },
                )
            },
            (PathSegment::CurveTo { x2, y2, x, y, .. }, PathSegment::ClosePath) => {
                let prev = get_prev_vertex(segments, idx);
                let start = get_subpath_start(segments, idx);
                VertexAngle::Bisector(
                    calc_curves_angle(prev, Point { x: x2, y: y2 }, Point { x, y }, start, start),
                )
            },
            (_, PathSegment::ClosePath) => {
                let prev = get_prev_vertex(segments, idx);
                let start = get_subpath_start(segments, idx);
                VertexAngle::Bisector(calc_line_angle(prev, start))
            },
            _ => VertexAngle::Zero,
        }
    }
}

/// The role of a marker on a path.
#[derive(Clone, Copy, Debug, PartialEq, Eq, Structural)]
pub enum MarkerKind {
    /// On the first vertex.
    Start,
    /// On every interior vertex.
    Middle,
    /// On the last vertex.
    End,
}

/// A vertex that gets a marker: its position and the index of its segment.
#[derive(Clone, Copy, Debug, PartialEq, Eq, Structural)]
pub struct MarkerVertex {
    pub at: Point,
    pub idx: usize,
}

/// The vertex of a start marker: the point of the first segment, if that
/// segment is a `MoveTo`.
pub open spec fn start_vertices(segments: Seq<PathSegment>) -> Seq<MarkerVertex> {
    if segments.len() > 0 && segments[0] is MoveTo {
        seq![MarkerVertex { at: segments[0].end_point().unwrap(), idx: 0 }]
    } else {
        Seq::empty()
    }
}

/// The vertices of middle markers among the segments `1..n`, in path order:
/// the end point of every segment but a `ClosePath`.
pub open spec fn middle_vertices(segments: Seq<PathSegment>, n: int) -> Seq<MarkerVertex>
    decreases n,
{
    if n <= 1 {
        Seq::empty()
    } else {
        let before = middle_vertices(segments, n - 1);
        match segments[n - 1].end_point() {
            Some(p) => before.push(MarkerVertex { at: p, idx: (n - 1) as usize }),
            None => before,
        }
    }
}

/// The vertex of an end marker: the end point of the last segment, or,
/// where the last segment closes a subpath, the start of that subpath. A
/// path that ends in a `MoveTo` has none.
pub open spec fn end_vertices(segments: Seq<PathSegment>) -> Seq<MarkerVertex> {
    if segments.len() == 0 {
        Seq::empty()
    } else {
        let idx = segments.len() - 1;
        match segments[idx] {
            PathSegment::MoveTo { .. } => Seq::empty(),
            PathSegment::LineTo { x, y } => seq![
                MarkerVertex { at: Point { x, y }, idx: idx as usize },
            ],
            PathSegment::CurveTo { x, y, .. } => seq![
                MarkerVertex { at: Point { x, y }, idx: idx as usize },
            ],
            PathSegment::ClosePath => seq![
                MarkerVertex { at: subpath_start(segments, idx), idx: idx as usize },
            ],
        }
    }
}

/// The vertices on which markers of the given role are drawn, in path order.
pub open spec fn marker_vertices(segments: Seq<PathSegment>, kind: MarkerKind) -> Seq<
    MarkerVertex,
> {
    match kind {
        MarkerKind::Start => start_vertices(segments),
        MarkerKind::Middle => middle_vertices(segments, segments.len() - 1),
        MarkerKind::End => end_vertices(segments),
    }
}

/// What the middle vertices among the segments `1..n` are: each is the end
/// point of an interior segment that is no `ClosePath`, they come in path
/// order, and no such segment is left out.
pub proof fn lemma_middle_vertices(segments: Seq<PathSegment>, n: int)
    requires
        n <= segments.len() <= usize::MAX,
    ensures
        forall|k: int|
            0 <= k < middle_vertices(segments, n).len() ==> {
                let v = #[trigger] middle_vertices(segments, n)[k];
                &&& 1 <= v.idx < n
                &&& segments[v.idx as int].end_point() == Some(v.at)
            },
        forall|j: int, k: int|
            0 <= j < k < middle_vertices(segments, n).len() ==> (#[trigger] middle_vertices(
                segments,
                n,
            )[j]).idx < (#[trigger] middle_vertices(segments, n)[k]).idx,
        forall|i: int|
            1 <= i < n && !(#[trigger] segments[i] is ClosePath) ==> exists|k: int|
                0 <= k < middle_vertices(segments, n).len() && (#[trigger] middle_vertices(
                    segments,
                    n,
                )[k]).idx == i,
    decreases n,
{
    if n > 1 {
        lemma_middle_vertices(segments, n - 1);
        let before = middle_vertices(segments, n - 1);
        let all = middle_vertices(segments, n);
        assert forall|i: int| 1 <= i < n && !(#[trigger] segments[i] is ClosePath) implies exists|
            k: int,
        |
            0 <= k < all.len() && (#[trigger] all[k]).idx == i by {
            if i < n - 1 {
                let k = choose|k: int| 0 <= k < before.len() && (#[trigger] before[k]).idx == i;
                assert(all[k] == before[k]);
            } else {
                assert(all[all.len() - 1].idx == i);
            }
        }
    }
}

/// The vertices on which markers of the given role are drawn, in path order.
///
/// A start marker goes on the first segment, if it is a `MoveTo`. Middle
/// markers go on the end point of every segment but the first and the last,
/// `ClosePath` segments left out. An end marker goes on the end point of the
/// last segment; where that segment is a `ClosePath`, on the start of the
/// subpath that it closes.
pub fn draw_markers(segments: &[PathSegment], kind: MarkerKind) -> (vertices: Vec<MarkerVertex>)
    ensures
        vertices@ == marker_vertices(segments@, kind),
{
    let mut vertices: Vec<MarkerVertex> = Vec::new();
    let len: usize = segments.len();
    if len == 0 {
        return vertices;
    }
    match kind {
        MarkerKind::Start => {
            match segments[0] {
                PathSegment::MoveTo { x, y } => {
                    vertices.push(MarkerVertex { at: Point { x, y }, idx: 0 });
                },
                _ => {},
            }
        },
        MarkerKind::Middle => {
            let total: usize = len - 1;
            if total >= 1 {
                let mut i: usize = 1;
                while i < total
                    invariant
                        1 <= i <= total,
                        total == segments.len() - 1,
                        vertices@ == middle_vertices(segments@, i as int),
                    decreases total - i,
                {
                    match segments[i].vertex() {
                        Some(p) => {
                            vertices.push(MarkerVertex { at: p, idx: i });
                        },
                        None => {},
                    }
                    i = i + 1;
                }
            }
        },
        MarkerKind::End => {
            let idx: usize = len - 1;
            match segments[idx] {
                PathSegment::MoveTo { .. } => {},
                PathSegment::LineTo { x, y } => {
                    vertices.push(MarkerVertex { at: Point { x, y }, idx });
                },
                PathSegment::CurveTo { x, y, .. } => {
                    vertices.push(MarkerVertex { at: Point { x, y }, idx });
                },
                PathSegment::ClosePath => {
                    let start = get_subpath_start(segments, idx);
                    vertices.push(MarkerVertex { at: start, idx });
                },
            }
        },
    }
    vertices
}

/// The unit of an angle.
#[derive(Clone, Copy, Debug, PartialEq, Eq, Structural)]
pub enum AngleUnit {
    Degrees,
    Gradians,
    Radians,
}

/// An angle: a number and its unit.
#[derive(Clone, Copy, Debug, PartialEq, Eq, Structural)]
pub struct Angle {
    pub num: Double,
    pub unit: AngleUnit,
}

/// The `orient` attribute of a marker, as the document gives it.
#[derive(Clone, Debug)]
pub enum Orient {
    /// An angle.
    Angle(Angle),
    /// A keyword.
    Keyword(String),
    /// No value, or a value of another kind.
    Unset,
}

/// How a marker is turned at its vertex.
#[derive(Clone, Copy, Debug, PartialEq, Eq, Structural)]
pub enum MarkerOrientation {
    /// Along the path: by the bisector of the directions at the vertex.
    Auto,
    /// By a fixed angle.
    Angle(Angle),
}

/// A marker definition, as far as placement reads it.
///
/// Lengths are resolved to user units; a field is `None` where the element
/// has no such attribute.
#[derive(Clone, Debug)]
pub struct Marker {
    /// The definition's node.
    pub id: NodeId,
    /// `markerUnits`.
    pub units: Option<String>,
    /// `refX`.
    pub ref_x: Option<Double>,
    /// `refY`.
    pub ref_y: Option<Double>,
    /// `markerWidth`.
    pub width: Option<Double>,
    /// `markerHeight`.
    pub height: Option<Double>,
    /// `viewBox` with `preserveAspectRatio`.
    pub view_box: Option<ViewBox>,
    /// `overflow`.
    pub overflow: Option<String>,
    /// `orient`.
    pub orient: Orient,
}

/// The orientation that an `orient` value asks for: the angle as given,
/// automatic for the keyword `auto`, and zero degrees for anything else.
pub open spec fn orientation_of(orient: Orient) -> MarkerOrientation {
    match orient {
        Orient::Angle(a) => MarkerOrientation::Angle(a),
        Orient::Keyword(s) => if s@ == "auto"@ {
            MarkerOrientation::Auto
        } else {
            MarkerOrientation::Angle(Angle { num: Double { bits: 0 }, unit: AngleUnit::Degrees })
        },
        Orient::Unset => MarkerOrientation::Angle(
            Angle { num: Double { bits: 0 }, unit: AngleUnit::Degrees },
        ),
    }
}

/// The orientation that an `orient` value asks for.
pub fn convert_orientation(orient: &Orient) -> (o: MarkerOrientation)
    ensures
        o == orientation_of(*orient),
{
    match orient {
        Orient::Angle(a) => MarkerOrientation::Angle(*a),
        Orient::Keyword(s) => {
            if str_eq(s.as_str(), "auto") {
                MarkerOrientation::Auto
            } else {
                MarkerOrientation::Angle(
                    Angle { num: Double { bits: 0 }, unit: AngleUnit::Degrees },
                )
            }
        },
        Orient::Unset => MarkerOrientation::Angle(
            Angle { num: Double { bits: 0 }, unit: AngleUnit::Degrees },
        ),
    }
}

/// The factor by which a marker is scaled for the stroke that carries it.
///
/// With `markerUnits` set to `userSpaceOnUse` it is one, whatever the
/// stroke. Otherwise it is the stroke width, one where the shape has none
/// set, and a stroke width that is not strictly positive gives no marker.
pub open spec fn stroke_scale_of(units: Option<Seq<char>>, stroke_width: Option<Double>) -> Option<
    Double,
> {
    if units == Some("userSpaceOnUse"@) {
        Some(Double { bits: DOUBLE_ONE })
    } else {
        let width = match stroke_width {
            Some(w) => w,
            None => Double { bits: DOUBLE_ONE },
        };
        if width.positive() {
            Some(width)
        } else {
            None
        }
    }
}

/// In user space the stroke scale is one, whatever the stroke width.
/// Otherwise it is the stroke width where that is strictly positive, and
/// there is none where it is not.
pub proof fn lemma_stroke_scale(units: Option<Seq<char>>, width: Double)
    ensures
        units == Some("userSpaceOnUse"@) ==> stroke_scale_of(units, Some(width)) == Some(
            Double { bits: DOUBLE_ONE },
        ),
        units != Some("userSpaceOnUse"@) && width.positive() ==> stroke_scale_of(
            units,
            Some(width),
        ) == Some(width),
        units != Some("userSpaceOnUse"@) && !width.positive() ==> stroke_scale_of(
            units,
            Some(width),
        ) is None,
{
}

/// The factor by which `marker` is scaled on a shape whose resolved stroke
/// width is `stroke_width`, or `None` where the marker is not drawn.
pub fn stroke_scale(marker: &Marker, stroke_width: Option<Double>) -> (scale: Option<Double>)
    ensures
        scale == stroke_scale_of(opt_text(marker.units), stroke_width),
{
    let user_space: bool = match &marker.units {
        Some(u) => str_eq(u.as_str(), "userSpaceOnUse"),
        None => false,
    };
    if user_space {
        Some(Double { bits: DOUBLE_ONE })
    } else {
        let width: Double = match stroke_width {
            Some(w) => w,
            None => Double { bits: DOUBLE_ONE },
        };
        if width.is_positive() {
            Some(width)
        } else {
            None
        }
    }
}

/// The reference rectangle of a marker: `refX`, `refY`, `markerWidth` and
/// `markerHeight`, which default to 0, 0, 3 and 3.
pub open spec fn reference_rect(marker: Marker) -> Rect {
    Rect {
        x: match marker.ref_x {
            Some(v) => v,
            None => Double { bits: 0 },
        },
        y: match marker.ref_y {
            Some(v) => v,
            None => Double { bits: 0 },
        },
        width: match marker.width {
            Some(v) => v,
            None => Double { bits: DOUBLE_THREE },
        },
        height: match marker.height {
            Some(v) => v,
            None => Double { bits: DOUBLE_THREE },
        },
    }
}

/// The reference rectangle of a marker.
pub fn convert_rect(marker: &Marker) -> (r: Rect)
    ensures
        r == reference_rect(*marker),
{
    Rect {
        x: match marker.ref_x {
            Some(v) => v,
            None => Double { bits: 0 },
        },
        y: match marker.ref_y {
            Some(v) => v,
            None => Double { bits: 0 },
        },
        width: match marker.width {
            Some(v) => v,
            None => Double { bits: DOUBLE_THREE },
        },
        height: match marker.height {
            Some(v) => v,
            None => Double { bits: DOUBLE_THREE },
        },
    }
}

/// Whether a marker with this `overflow` value is clipped to its
/// rectangle: with `hidden`, with `scroll`, and with no value at all.
pub open spec fn clipped(overflow: Option<Seq<char>>) -> bool {
    match overflow {
        None => true,
        Some(v) => v == "hidden"@ || v == "scroll"@,
    }
}

/// Whether the marker is clipped to its rectangle.
pub fn has_overflow(marker: &Marker) -> (r: bool)
    ensures
        r == clipped(opt_text(marker.overflow)),
{
    match &marker.overflow {
        None => true,
        Some(v) => str_eq(v.as_str(), "hidden") || str_eq(v.as_str(), "scroll"),
    }
}

/// A marker without an `overflow` value is clipped as one with `hidden`
/// is, and one with `visible` is not clipped.
pub proof fn lemma_overflow_default()
    ensures
        clipped(None),
        clipped(None) == clipped(Some("hidden"@)),
        !clipped(Some("visible"@)),
{
    reveal_strlit("hidden");
    reveal_strlit("scroll");
    reveal_strlit("visible");
    assert("visible"@.len() == 7);
    assert("hidden"@.len() == 6);
    assert("scroll"@.len() == 6);
}

/// How far a marker is turned at a vertex.
///
/// Turning by an angle that is approximately zero is left out. Where the
/// angle is not known before it is computed, [`needs_rotation`] decides.
#[derive(Clone, Copy, Debug, PartialEq, Eq, Structural)]
pub enum Rotation {
    /// Not at all.
    Skip,
    /// By this many degrees, which are not approximately zero.
    Degrees(Double),
    /// By an angle in another unit: by its value in degrees, unless that is
    /// approximately zero.
    Convert(Angle),
    /// By the bisector angle of the two directions, unless that is
    /// approximately zero.
    Bisector(Tangents),
}

/// How a marker is scaled.
#[derive(Clone, Copy, Debug, PartialEq, Eq, Structural)]
pub enum Scale {
    /// By the stroke scale, on both axes.
    Uniform(Double),
    /// By the factors that fit `view_box` into a viewport of `width` times
    /// `stroke_scale` by `height` times `stroke_scale`.
    Fit { view_box: ViewBox, width: Double, height: Double, stroke_scale: Double },
}

/// One occurrence of a marker: the vertex to which it is moved, and how far
/// it is turned there.
#[derive(Clone, Copy, Debug, PartialEq, Eq, Structural)]
pub struct Placement {
    pub vertex: MarkerVertex,
    pub rotation: Rotation,
}

/// The occurrences of one marker on one path.
///
/// Each occurrence is a group whose transform moves to the vertex, turns,
/// scales, and last moves by `offset`. The content of each group is that of
/// the marker `marker`, expanded with `marker` as the current root. All the
/// groups refer to the clip path `clip_path`, if there is one, and have
/// the same `id`, `opacity`, `mask` and `filter`: no id, full opacity, no
/// mask and no filter.
#[derive(Debug)]
pub struct MarkerGroups {
    pub marker: NodeId,
    pub kind: MarkerKind,
    pub scale: Scale,
    pub offset: Point,
    pub placements: Vec<Placement>,
    /// The id of each group.
    pub id: String,
    /// The opacity of each group.
    pub opacity: Opacity,
    /// The clip path of each group, by its id.
    pub clip_path: Option<String>,
    /// The mask of each group, by its id.
    pub mask: Option<String>,
    /// The filter of each group, by its id.
    pub filter: Option<String>,
}

impl MarkerGroups {
    /// Whether a group stays in the tree once its content is expanded:
    /// one that got no children is discarded.
    pub fn keeps_group(children: usize) -> (keep: bool)
        ensures
            keep == (children > 0),
    {
        children > 0
    }
}

/// The rotation of a marker with the given orientation on the vertex at
/// the end of segment `idx`.
pub open spec fn rotation_of(
    orientation: MarkerOrientation,
    segments: Seq<PathSegment>,
    idx: int,
) -> Rotation {
    match orientation {
        MarkerOrientation::Auto => match vertex_angle(segments, idx) {
            VertexAngle::Zero => Rotation::Skip,
            VertexAngle::Bisector(t) => Rotation::Bisector(t),
        },
        MarkerOrientation::Angle(a) => match a.unit {
            AngleUnit::Degrees => if a.num.fuzzy_zero() {
                Rotation::Skip
            } else {
                Rotation::Degrees(a.num)
            },
            _ => Rotation::Convert(a),
        },
    }
}

/// The placements of a marker with the given orientation on the given
/// vertices of a path.
pub open spec fn placements_on(
    orientation: MarkerOrientation,
    segments: Seq<PathSegment>,
    vertices: Seq<MarkerVertex>,
) -> Seq<Placement> {
    Seq::new(
        vertices.len(),
        |i: int|
            Placement {
                vertex: vertices[i],
                rotation: rotation_of(orientation, segments, vertices[i].idx as int),
            },
    )
}

/// The scale of a marker whose stroke scale is `stroke_scale`.
pub open spec fn scale_of(marker: Marker, stroke_scale: Double) -> Scale {
    match marker.view_box {
        Some(view_box) => Scale::Fit {
            view_box,
            width: reference_rect(marker).width,
            height: reference_rect(marker).height,
            stroke_scale,
        },
        None => Scale::Uniform(stroke_scale),
    }
}

/// The rectangle to which a marker is clipped, if it is clipped: that of
/// its view box, or else its own size at the origin.
pub open spec fn clip_rect_of(marker: Marker) -> Option<Rect> {
    if clipped(opt_text(marker.overflow)) {
        Some(
            match marker.view_box {
                Some(view_box) => view_box.rect,
                None => Rect {
                    x: Double { bits: 0 },
                    y: Double { bits: 0 },
                    width: reference_rect(marker).width,
                    height: reference_rect(marker).height,
                },
            },
        )
    } else {
        None
    }
}

/// Whether a marker is drawn at all on a shape with the given stroke
/// width: its stroke scale exists and its reference rectangle is valid.
pub open spec fn drawn(marker: Marker, stroke_width: Option<Double>) -> bool {
    stroke_scale_of(opt_text(marker.units), stroke_width) is Some && reference_rect(
        marker,
    ).valid()
}

/// The definitions `after` are the definitions `before`.
pub open spec fn defs_unchanged(before: Defs, after: Defs) -> bool {
    after.reserved_ids() == before.reserved_ids() && after.clips() == before.clips()
}

/// What resolving one marker for one role on the shape `shape` gives: the
/// groups `out`, and the definitions `after` from the definitions `before`.
///
/// A marker that is not drawn gives nothing and leaves the definitions as
/// they are. One that is drawn gives its groups, which have no id, full
/// opacity, no mask and no filter; where it is clipped, the groups refer to
/// the clip path of the marker on this shape, which is appended unless it
/// is there already.
pub open spec fn resolved(
    shape: NodeId,
    marker: Marker,
    kind: MarkerKind,
    segments: Seq<PathSegment>,
    stroke_width: Option<Double>,
    before: Defs,
    out: Option<MarkerGroups>,
    after: Defs,
) -> bool {
    if drawn(marker, stroke_width) {
        &&& out matches Some(groups)
        &&& groups.marker == marker.id
        &&& groups.kind == kind
        &&& groups.scale == scale_of(
            marker,
            stroke_scale_of(opt_text(marker.units), stroke_width).unwrap(),
        )
        &&& groups.offset == Point {
            x: reference_rect(marker).x.negated(),
            y: reference_rect(marker).y.negated(),
        }
        &&& groups.placements@ == placements_on(
            orientation_of(marker.orient),
            segments,
            marker_vertices(segments, kind),
        )
        &&& groups.id@ == Seq::<char>::empty()
        &&& groups.opacity.number() == (Double { bits: DOUBLE_ONE })
        &&& groups.mask is None
        &&& groups.filter is None
        &&& match clip_rect_of(marker) {
            Some(rect) => groups.clip_path is Some && clip_path_made(
                before,
                after,
                shape,
                marker.id,
                rect,
                groups.clip_path.unwrap()@,
            ),
            None => defs_unchanged(before, after) && groups.clip_path is None,
        }
    } else {
        out is None && defs_unchanged(before, after)
    }
}

/// A marker outside user space on a shape whose stroke width is not
/// strictly positive is suppressed: it gives no groups and no clip path.
pub proof fn lemma_suppressed_without_stroke(
    shape: NodeId,
    marker: Marker,
    kind: MarkerKind,
    segments: Seq<PathSegment>,
    width: Double,
    before: Defs,
    out: Option<MarkerGroups>,
    after: Defs,
)
    requires
        opt_text(marker.units) != Some("userSpaceOnUse"@),
        !width.positive(),
        resolved(shape, marker, kind, segments, Some(width), before, out, after),
    ensures
        out is None,
        defs_unchanged(before, after),
{
}

/// Whether a marker is turned by an angle of `degrees`: not where the
/// angle is approximately zero.
pub fn needs_rotation(degrees: Double) -> (r: bool)
    ensures
        r == !degrees.fuzzy_zero(),
{
    !degrees.is_fuzzy_zero()
}

/// The rotation of a marker with the given orientation on the vertex at
/// the end of segment `idx`.
pub fn calc_rotation(orientation: MarkerOrientation, segments: &[PathSegment], idx: usize) -> (r:
    Rotation)
    ensures
        r == rotation_of(orientation, segments@, idx as int),
{
    match orientation {
        MarkerOrientation::Auto => match calc_vertex_angle(segments, idx) {
            VertexAngle::Zero => Rotation::Skip,
            VertexAngle::Bisector(t) => Rotation::Bisector(t),
        },
        MarkerOrientation::Angle(a) => match a.unit {
            AngleUnit::Degrees => if a.num.is_fuzzy_zero() {
                Rotation::Skip
            } else {
                Rotation::Degrees(a.num)
            },
            _ => Rotation::Convert(a),
        },
    }
}

/// Resolves one marker for one role on the path of the shape `shape`.
///
/// Gives no groups where the marker is not drawn: where its stroke scale
/// does not exist or its reference rectangle is not valid. Otherwise gives
/// one placement for each vertex of the role. Where the marker is clipped,
/// its clip path on this shape is appended to `defs` first, unless the
/// marker was resolved on this shape before: then that clip path is used
/// again.
pub fn resolve(
    shape: NodeId,
    marker: &Marker,
    kind: MarkerKind,
    segments: &[PathSegment],
    stroke_width: Option<Double>,
    defs: &mut Defs,
) -> (out: Option<MarkerGroups>)
    requires
        old(defs).wf(),
    ensures
        final(defs).wf(),
        resolved(shape, *marker, kind, segments@, stroke_width, *old(defs), out, *final(defs)),
{
    let scale: Double = match stroke_scale(marker, stroke_width) {
        Some(s) => s,
        None => {
            return None;
        },
    };
    let r: Rect = convert_rect(marker);
    if !r.is_valid() {
        return None;
    }
    let clip_path: Option<String> = if has_overflow(marker) {
        let clip_rect: Rect = match marker.view_box {
            Some(view_box) => view_box.rect,
            None => Rect::new(Double { bits: 0 }, Double { bits: 0 }, r.width, r.height),
        };
        Some(defs.clip_path_for(shape, marker.id, clip_rect))
    } else {
        None
    };
    let orientation: MarkerOrientation = convert_orientation(&marker.orient);
    let vertices: Vec<MarkerVertex> = draw_markers(segments, kind);
    let mut placements: Vec<Placement> = Vec::new();
    let mut i: usize = 0;
    while i < vertices.len()
        invariant
            i <= vertices@.len(),
            placements@.len() == i,
            forall|k: int|
                0 <= k < i ==> placements@[k] == placements_on(
                    orientation,
                    segments@,
                    vertices@,
                )[k],
        decreases vertices@.len() - i,
    {
        let vertex: MarkerVertex = vertices[i];
        let rotation: Rotation = calc_rotation(orientation, segments, vertex.idx);
        placements.push(Placement { vertex, rotation });
        i = i + 1;
    }
    assert(placements@ =~= placements_on(orientation, segments@, vertices@));
    let scale_rule: Scale = match marker.view_box {
        Some(view_box) => Scale::Fit {
            view_box,
            width: r.width,
            height: r.height,
            stroke_scale: scale,
        },
        None => Scale::Uniform(scale),
    };
    Some(
        MarkerGroups {
            marker: marker.id,
            kind,
            scale: scale_rule,
            offset: Point { x: r.x.neg(), y: r.y.neg() },
            placements,
            id: String::new(),
            opacity: Opacity::default(),
            clip_path,
            mask: None,
            filter: None,
        },
    )
}

/// The resolution context: the definition whose content is being expanded.
#[derive(Clone, Copy, Debug, PartialEq, Eq, Structural)]
pub struct State {
    pub current_root: NodeId,
}

impl State {
    /// The context for expanding the content of `root`. The context that
    /// it is made from stays as it is.
    pub fn enter(&self, root: NodeId) -> (inner: State)
        ensures
            inner.current_root == root,
    {
        State { current_root: root }
    }
}

/// The marker that an element itself names for a role: the target of the
/// role's property, where that refers to a marker definition.
pub open spec fn own_marker(element: Element, kind: MarkerKind) -> Option<NodeId> {
    let link = match kind {
        MarkerKind::Start => element.marker_start,
        MarkerKind::Middle => element.marker_mid,
        MarkerKind::End => element.marker_end,
    };
    match link {
        Some(l) => if l.tag == ElementTag::Marker {
            Some(l.target)
        } else {
            None
        },
        None => None,
    }
}

/// The markers that the elements of a chain name for a role, in the
/// order of the chain.
pub open spec fn named_markers(chain: Seq<Element>, kind: MarkerKind) -> Seq<Option<NodeId>> {
    Seq::new(chain.len(), |i: int| own_marker(chain[i], kind))
}

/// The marker that a shape inherits for a role: the one named by the
/// nearest element of the chain that names one. The chain starts at the
/// shape and goes on through its ancestors.
pub open spec fn nearest_marker(chain: Seq<Element>, kind: MarkerKind) -> Option<NodeId> {
    inherited(named_markers(chain, kind), 0)
}

/// Whether markers apply to the shape at the start of `chain`: only to a
/// path, line, polyline or polygon, and never inside a clip path.
pub open spec fn applicable(chain: Seq<Element>) -> bool {
    &&& chain.len() > 0
    &&& (chain[0].tag == ElementTag::Path || chain[0].tag == ElementTag::Line || chain[0].tag
        == ElementTag::Polyline || chain[0].tag == ElementTag::Polygon)
    &&& forall|i: int| 0 <= i < chain.len() ==> (#[trigger] chain[i]).tag != ElementTag::ClipPath
}

/// The marker to expand for a role on the shape at the start of `chain`:
/// the inherited one, unless it is the definition that is being expanded.
pub open spec fn selected_marker(chain: Seq<Element>, kind: MarkerKind, state: State) -> Option<
    NodeId,
> {
    if !applicable(chain) {
        None
    } else {
        match nearest_marker(chain, kind) {
            Some(m) => if m == state.current_root {
                None
            } else {
                Some(m)
            },
            None => None,
        }
    }
}

/// A marker is never expanded inside its own content: the marker selected
/// for a shape is not the current root.
pub proof fn lemma_recursion_guard(chain: Seq<Element>, kind: MarkerKind, state: State)
    ensures
        selected_marker(chain, kind, state) != Some(state.current_root),
{
}

/// Whether markers apply to the shape at the start of `chain`.
pub fn is_applicable(chain: &[Element]) -> (r: bool)
    ensures
        r == applicable(chain@),
{
    if chain.len() == 0 {
        return false;
    }
    match chain[0].tag {
        ElementTag::Path | ElementTag::Line | ElementTag::Polyline | ElementTag::Polygon => {},
        _ => {
            return false;
        },
    }
    let mut i: usize = 0;
    while i < chain.len()
        invariant
            i <= chain@.len(),
            forall|j: int| 0 <= j < i ==> (#[trigger] chain@[j]).tag != ElementTag::ClipPath,
        decreases chain@.len() - i,
    {
        match chain[i].tag {
            ElementTag::ClipPath => {
                return false;
            },
            _ => {},
        }
        i = i + 1;
    }
    true
}

/// The marker that an element itself names for a role.
pub fn get_own_marker(element: &Element, kind: MarkerKind) -> (m: Option<NodeId>)
    ensures
        m == own_marker(*element, kind),
{
    let link: Option<Link> = match kind {
        MarkerKind::Start => element.marker_start,
        MarkerKind::Middle => element.marker_mid,
        MarkerKind::End => element.marker_end,
    };
    match link {
        Some(l) => match l.tag {
            ElementTag::Marker => Some(l.target),
            _ => None,
        },
        None => None,
    }
}

/// The marker to expand for a role on the shape at the start of `chain`,
/// if there is one.
pub fn select_marker(chain: &[Element], kind: MarkerKind, state: &State) -> (m: Option<NodeId>)
    ensures
        m == selected_marker(chain@, kind, *state),
{
    if !is_applicable(chain) {
        return None;
    }
    let mut i: usize = 0;
    while i < chain.len()
        invariant
            i <= chain@.len(),
            applicable(chain@),
            nearest_marker(chain@, kind) == inherited(named_markers(chain@, kind), i as int),
        decreases chain@.len() - i,
    {
        match get_own_marker(&chain[i], kind) {
            Some(m) => {
                if m.index == state.current_root.index {
                    return None;
                }
                return Some(m);
            },
            None => {},
        }
        i = i + 1;
    }
    None
}

/// The position of the first definition among `markers` whose node is `id`.
pub open spec fn marker_position(markers: Seq<Marker>, id: NodeId, from: int) -> Option<int>
    decreases markers.len() - from,
{
    if from < 0 || from >= markers.len() {
        None
    } else if markers[from].id == id {
        Some(from)
    } else {
        marker_position(markers, id, from + 1)
    }
}

/// The position of the first definition among `markers` whose node is `id`.
pub fn find_marker(markers: &[Marker], id: NodeId) -> (pos: Option<usize>)
    ensures
        match pos {
            Some(p) => marker_position(markers@, id, 0) == Some(p as int) && p < markers@.len(),
            None => marker_position(markers@, id, 0) is None,
        },
{
    let mut i: usize = 0;
    while i < markers.len()
        invariant
            i <= markers@.len(),
            marker_position(markers@, id, 0) == marker_position(markers@, id, i as int),
        decreases markers@.len() - i,
    {
        if markers[i].id.index == id.index {
            return Some(i);
        }
        i = i + 1;
    }
    None
}

/// What one role adds when the markers of a shape are converted: the
/// groups of the selected marker, if one is selected and defined.
pub open spec fn converted_role(
    chain: Seq<Element>,
    segments: Seq<PathSegment>,
    state: State,
    markers: Seq<Marker>,
    stroke_width: Option<Double>,
    kind: MarkerKind,
    before: Defs,
    out: Option<MarkerGroups>,
    after: Defs,
) -> bool {
    match selected_marker(chain, kind, state) {
        Some(id) => match marker_position(markers, id, 0) {
            Some(p) => resolved(
                chain[0].id,
                markers[p],
                kind,
                segments,
                stroke_width,
                before,
                out,
                after,
            ),
            None => out is None && defs_unchanged(before, after),
        },
        None => out is None && defs_unchanged(before, after),
    }
}

/// The groups that are there, in the order start, middle, end.
pub open spec fn present(
    start: Option<MarkerGroups>,
    mid: Option<MarkerGroups>,
    end: Option<MarkerGroups>,
) -> Seq<MarkerGroups> {
    let a = match start {
        Some(g) => seq![g],
        None => Seq::empty(),
    };
    let b = match mid {
        Some(g) => seq![g],
        None => Seq::empty(),
    };
    let c = match end {
        Some(g) => seq![g],
        None => Seq::empty(),
    };
    a + b + c
}

/// Converts one role of the markers of a shape.
pub fn convert_role(
    chain: &[Element],
    segments: &[PathSegment],
    state: &State,
    markers: &[Marker],
    stroke_width: Option<Double>,
    kind: MarkerKind,
    defs: &mut Defs,
) -> (out: Option<MarkerGroups>)
    requires
        old(defs).wf(),
    ensures
        final(defs).wf(),
        converted_role(
            chain@,
            segments@,
            *state,
            markers@,
            stroke_width,
            kind,
            *old(defs),
            out,
            *final(defs),
        ),
{
    match select_marker(chain, kind, state) {
        Some(id) => match find_marker(markers, id) {
            Some(p) => resolve(chain[0].id, &markers[p], kind, segments, stroke_width, defs),
            None => None,
        },
        None => None,
    }
}

/// Converts the markers of a shape into groups.
///
/// `chain` is the shape and its ancestors, nearest first; `segments` is the
/// shape's path; `markers` are the marker definitions of the document, and
/// `stroke_width` the shape's resolved stroke width, if it has one.
///
/// Markers apply to a path, line, polyline or polygon outside any clip
/// path. For each role in the order start, middle, end, the marker is the
/// one that the nearest element of the chain names; the marker that is
/// being expanded is passed over. Each marker found is resolved in turn,
/// so that clip paths are appended to `defs` in that order.
pub fn convert(
    chain: &[Element],
    segments: &[PathSegment],
    state: &State,
    markers: &[Marker],
    stroke_width: Option<Double>,
    defs: &mut Defs,
) -> (groups: Vec<MarkerGroups>)
    requires
        old(defs).wf(),
    ensures
        final(defs).wf(),
        exists|start: Option<MarkerGroups>,
            mid: Option<MarkerGroups>,
            end: Option<MarkerGroups>,
            after_start: Defs,
            after_mid: Defs,
        |
            {
                &&& #[trigger] converted_role(
                    chain@,
                    segments@,
                    *state,
                    markers@,
                    stroke_width,
                    MarkerKind::Start,
                    *old(defs),
                    start,
                    after_start,
                )
                &&& #[trigger] converted_role(
                    chain@,
                    segments@,
                    *state,
                    markers@,
                    stroke_width,
                    MarkerKind::Middle,
                    after_start,
                    mid,
                    after_mid,
                )
                &&& #[trigger] converted_role(
                    chain@,
                    segments@,
                    *state,
                    markers@,
                    stroke_width,
                    MarkerKind::End,
                    after_mid,
                    end,
                    *final(defs),
                )
                &&& groups@ == present(start, mid, end)
            },
{
    let mut groups: Vec<MarkerGroups> = Vec::new();
    let start = convert_role(chain, segments, state, markers, stroke_width, MarkerKind::Start, defs);
    let mid = convert_role(chain, segments, state, markers, stroke_width, MarkerKind::Middle, defs);
    let end = convert_role(chain, segments, state, markers, stroke_width, MarkerKind::End, defs);
    match start {
        Some(g) => {
            groups.push(g);
        },
        None => {},
    }
    match mid {
        Some(g) => {
            groups.push(g);
        },
        None => {},
    }
    match end {
        Some(g) => {
            groups.push(g);
        },
        None => {},
    }
    groups
}

} // verus!
