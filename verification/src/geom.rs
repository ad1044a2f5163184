//! Rectangles and the aspect-ratio descriptor of a view box.

use vstd::prelude::*;
use crate::number::{Double, DOUBLE_ONE};

verus! {

/// A point in user units.
#[derive(Clone, Copy, Debug, PartialEq, Eq, Structural)]
pub struct Point {
    pub x: Double,
    pub y: Double,
}

impl Point {
    /// The origin.
    pub open spec fn origin() -> Point {
        Point { x: Double { bits: 0 }, y: Double { bits: 0 } }
    }

    /// Both coordinates are approximately equal: the points coincide for
    /// the purposes of path geometry.
    pub open spec fn coincides(self, other: Point) -> bool {
        self.x.fuzzy_eq(other.x) && self.y.fuzzy_eq(other.y)
    }

    /// A point from its coordinates.
    pub fn new(x: Double, y: Double) -> (p: Point)
        ensures
            p == (Point { x, y }),
    {
        Point { x, y }
    }

    /// Whether the two points coincide.
    pub fn is_coincident(&self, other: &Point) -> (r: bool)
        ensures
            r == self.coincides(*other),
    {
        self.x.is_fuzzy_eq(&other.x) && self.y.is_fuzzy_eq(&other.y)
    }
}

/// An axis-aligned rectangle in user units.
#[derive(Clone, Copy, Debug, PartialEq, Eq, Structural)]
pub struct Rect {
    pub x: Double,
    pub y: Double,
    pub width: Double,
    pub height: Double,
}

impl Rect {
    /// A rectangle is usable when both its sides are strictly positive.
    pub open spec fn valid(self) -> bool {
        self.width.positive() && self.height.positive()
    }

    /// A rectangle from its origin and its sides.
    pub fn new(x: Double, y: Double, width: Double, height: Double) -> (r: Rect)
        ensures
            r == (Rect { x, y, width, height }),
    {
        Rect { x, y, width, height }
    }

    /// Whether both sides are strictly positive.
    pub fn is_valid(&self) -> (r: bool)
        ensures
            r == self.valid(),
    {
        self.width.is_positive() && self.height.is_positive()
    }
}

/// An affine transform: a point `(x, y)` goes to
/// `(a * x + c * y + e, b * x + d * y + f)`.
#[derive(Clone, Copy, Debug, PartialEq, Eq, Structural)]
pub struct Transform {
    pub a: Double,
    pub b: Double,
    pub c: Double,
    pub d: Double,
    pub e: Double,
    pub f: Double,
}

impl Transform {
    /// The transform that leaves every point where it is.
    pub open spec fn identity() -> Transform {
        Transform {
            a: Double { bits: DOUBLE_ONE },
            b: Double { bits: 0 },
            c: Double { bits: 0 },
            d: Double { bits: DOUBLE_ONE },
            e: Double { bits: 0 },
            f: Double { bits: 0 },
        }
    }
}

impl Default for Transform {
    /// The identity.
    fn default() -> (t: Transform)
        ensures
            t == Transform::identity(),
    {
        Transform {
            a: Double { bits: DOUBLE_ONE },
            b: Double { bits: 0 },
            c: Double { bits: 0 },
            d: Double { bits: DOUBLE_ONE },
            e: Double { bits: 0 },
            f: Double { bits: 0 },
        }
    }
}

/// Where a view box is placed inside a viewport whose aspect ratio differs.
#[derive(Clone, Copy, Debug, PartialEq, Eq, Structural)]
pub enum Align {
    /// No uniform scaling: the view box is stretched to the viewport.
    Stretch,
    XMinYMin,
    XMidYMin,
    XMaxYMin,
    XMinYMid,
    XMidYMid,
    XMaxYMid,
    XMinYMax,
    XMidYMax,
    XMaxYMax,
}

/// How a view box is fitted to a viewport: alignment, and meet or slice.
#[derive(Clone, Copy, Debug, PartialEq, Eq, Structural)]
pub struct AspectRatio {
    pub defer: bool,
    pub align: Align,
    /// `true` for slice, `false` for meet.
    pub slice: bool,
}

impl Default for AspectRatio {
    /// Centred on both axes, meet.
    fn default() -> (r: AspectRatio)
        ensures
            r == (AspectRatio { defer: false, align: Align::XMidYMid, slice: false }),
    {
        AspectRatio { defer: false, align: Align::XMidYMid, slice: false }
    }
}

/// The factors by which a view box is scaled on the two axes, from the
/// factors `sx` and `sy` that stretch it to its viewport.
///
/// Without alignment the view box is stretched. Otherwise it is scaled by
/// one factor on both axes: the smaller one to meet the viewport, the
/// larger one to slice it.
pub open spec fn fitted_scale(aspect: AspectRatio, sx: Double, sy: Double) -> (Double, Double) {
    if aspect.align == Align::Stretch {
        (sx, sy)
    } else if aspect.slice {
        if sx.num_lt(sy) {
            (sy, sy)
        } else {
            (sx, sx)
        }
    } else {
        if sy.num_lt(sx) {
            (sy, sy)
        } else {
            (sx, sx)
        }
    }
}

/// The factors by which a view box is scaled on the two axes.
pub fn fit_scale(aspect: &AspectRatio, sx: Double, sy: Double) -> (s: (Double, Double))
    ensures
        s == fitted_scale(*aspect, sx, sy),
{
    match aspect.align {
        Align::Stretch => (sx, sy),
        _ => {
            if aspect.slice {
                if sx.is_num_lt(&sy) {
                    (sy, sy)
                } else {
                    (sx, sx)
                }
            } else {
                if sy.is_num_lt(&sx) {
                    (sy, sy)
                } else {
                    (sx, sx)
                }
            }
        },
    }
}

} // verus!
