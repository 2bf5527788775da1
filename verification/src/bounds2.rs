//! 2D axis-aligned bounding regions.

use crate::misc::{inside2_spec, point2f_inside_bounds2f};
use crate::point::Point2f;
use crate::scalar::{
    div_trunc, fits_scalar, lemma_div_trunc_fits, lemma_div_trunc_mul_cancel,
    lemma_mid_floor_axis, lemma_sqrt_floor_monotone, lemma_square_nonneg, max_scalar, mid_floor,
    min_scalar, mul_wide, sqrt_floor, Scalar,
};
use crate::vector::Vector2f;
use vstd::prelude::*;

verus! {

/// A 2D axis-aligned box given by its two extreme corners. The default
/// value is the empty sentinel, whose inverted corners make it the identity
/// of union.
#[derive(Debug, Clone, Copy, PartialEq, Eq, Structural)]
pub struct Bounds2f {
    pub p_min: Point2f,
    pub p_max: Point2f,
}

/// The empty sentinel: corners inverted to the extreme representable values,
/// so that a union with anything returns the other operand.
pub open spec fn empty_bounds2() -> Bounds2f {
    Bounds2f {
        p_min: Point2f { x: i64::MAX, y: i64::MAX },
        p_max: Point2f { x: i64::MIN, y: i64::MIN },
    }
}

/// Where `v` sits between `lo` and `hi`: the offset from `lo`, divided by
/// the extent where the extent is positive and left raw where it is not.
pub open spec fn offset_axis(lo: int, hi: int, v: int) -> int {
    if hi > lo {
        div_trunc(v - lo, hi - lo)
    } else {
        v - lo
    }
}

/// The value the fraction `t` selects between `lo` (at 0) and `hi` (at 1).
pub open spec fn lerp_axis(lo: int, hi: int, t: int) -> int {
    lo + t * (hi - lo)
}

impl Bounds2f {
    /// Both corners ordered on every axis; false for the empty sentinel and
    /// for an inverted result of an intersection.
    pub open spec fn ordered(self) -> bool {
        self.p_min.x <= self.p_max.x && self.p_min.y <= self.p_max.y
    }

    /// The midpoint of the two corners, each axis rounded down; rounding
    /// down keeps the maximum corner a farthest corner, so the bounding
    /// circle encloses the whole region.
    pub open spec fn center_spec(self) -> Point2f {
        Point2f {
            x: ((self.p_min.x + self.p_max.x) / 2) as i64,
            y: ((self.p_min.y + self.p_max.y) / 2) as i64,
        }
    }

    /// The index of the longer diagonal axis, x winning ties.
    pub open spec fn max_extent_spec(self) -> int {
        if self.p_max.x - self.p_min.x >= self.p_max.y - self.p_min.y {
            0
        } else {
            1
        }
    }

    /// The smallest bounds holding both points, the corners resolved
    /// axis by axis.
    pub fn new_with_points(p1: Point2f, p2: Point2f) -> (r: Bounds2f)
        ensures
            r.p_min.x == min_scalar(p1.x, p2.x),
            r.p_min.y == min_scalar(p1.y, p2.y),
            r.p_max.x == max_scalar(p1.x, p2.x),
            r.p_max.y == max_scalar(p1.y, p2.y),
            r.ordered(),
    {
        Bounds2f {
            p_min: Point2f {
                x: if p1.x <= p2.x {
                    p1.x
                } else {
                    p2.x
                },
                y: if p1.y <= p2.y {
                    p1.y
                } else {
                    p2.y
                },
            },
            p_max: Point2f {
                x: if p1.x >= p2.x {
                    p1.x
                } else {
                    p2.x
                },
                y: if p1.y >= p2.y {
                    p1.y
                } else {
                    p2.y
                },
            },
        }
    }

    /// Whether some axis is inverted, as the empty sentinel is; derived
    /// quantities such as the area are undefined on an empty bounds.
    pub fn is_empty(&self) -> (r: bool)
        ensures
            r == !self.ordered(),
    {
        self.p_min.x > self.p_max.x || self.p_min.y > self.p_max.y
    }

    /// The diagonal from the minimum corner to the maximum corner.
    pub fn diagonal(&self) -> (r: Vector2f)
        requires
            fits_scalar(self.p_max.x - self.p_min.x),
            fits_scalar(self.p_max.y - self.p_min.y),
        ensures
            r.x == self.p_max.x - self.p_min.x,
            r.y == self.p_max.y - self.p_min.y,
    {
        self.p_max.sub(&self.p_min)
    }

    /// The signed area spanned by the diagonal; meaningful only on an
    /// ordered bounds.
    pub fn area(&self) -> (r: Scalar)
        requires
            fits_scalar(self.p_max.x - self.p_min.x),
            fits_scalar(self.p_max.y - self.p_min.y),
            fits_scalar((self.p_max.x - self.p_min.x) * (self.p_max.y - self.p_min.y)),
        ensures
            r == (self.p_max.x - self.p_min.x) * (self.p_max.y - self.p_min.y),
    {
        let d = self.diagonal();
        mul_wide(d.x, d.y) as i64
    }

    /// The index of the longer diagonal axis, x winning ties.
    pub fn maximum_extend(&self) -> (r: usize)
        requires
            fits_scalar(self.p_max.x - self.p_min.x),
            fits_scalar(self.p_max.y - self.p_min.y),
        ensures
            r == self.max_extent_spec(),
    {
        let d = self.diagonal();
        if d.x >= d.y {
            0
        } else {
            1
        }
    }

    /// The point the per-axis fractions of `t` select between the corners.
    pub fn lerp(&self, t: &Point2f) -> (r: Point2f)
        requires
            fits_scalar(lerp_axis(self.p_min.x as int, self.p_max.x as int, t.x as int)),
            fits_scalar(lerp_axis(self.p_min.y as int, self.p_max.y as int, t.y as int)),
        ensures
            r.x == lerp_axis(self.p_min.x as int, self.p_max.x as int, t.x as int),
            r.y == lerp_axis(self.p_min.y as int, self.p_max.y as int, t.y as int),
    {
        Point2f {
            x: crate::scalar::lerp(t.x, self.p_min.x, self.p_max.x),
            y: crate::scalar::lerp(t.y, self.p_min.y, self.p_max.y),
        }
    }

    /// The inverse of `lerp`: where `p` sits between the corners, each axis
    /// normalized only where its extent is positive.
    pub fn offset(&self, p: &Point2f) -> (r: Vector2f)
        requires
            fits_scalar(p.x - self.p_min.x),
            fits_scalar(p.y - self.p_min.y),
            self.p_max.x > self.p_min.x ==> fits_scalar(self.p_max.x - self.p_min.x),
            self.p_max.y > self.p_min.y ==> fits_scalar(self.p_max.y - self.p_min.y),
        ensures
            r.x == offset_axis(self.p_min.x as int, self.p_max.x as int, p.x as int),
            r.y == offset_axis(self.p_min.y as int, self.p_max.y as int, p.y as int),
    {
        let mut o = p.sub(&self.p_min);
        if self.p_max.x > self.p_min.x {
            proof {
                lemma_div_trunc_fits(o.x as int, self.p_max.x - self.p_min.x);
            }
            o.x = o.x / (self.p_max.x - self.p_min.x);
        }
        if self.p_max.y > self.p_min.y {
            proof {
                lemma_div_trunc_fits(o.y as int, self.p_max.y - self.p_min.y);
            }
            o.y = o.y / (self.p_max.y - self.p_min.y);
        }
        o
    }

    /// The center of the bounds and, when the center lies inside them, the
    /// rounded distance from the center to the maximum corner — which
    /// encloses the whole region (`lemma_bounding_sphere_encloses2`); the
    /// radius degrades to 0 for the empty sentinel, whose center lies
    /// outside.
    pub fn bounding_sphere(&self) -> (r: (Point2f, Scalar))
        requires
            inside2_spec(self.center_spec(), *self) ==> fits_scalar(
                self.center_spec().x - self.p_max.x,
            ) && fits_scalar(self.center_spec().y - self.p_max.y) && fits_scalar(
                self.center_spec().distance_squared_spec(self.p_max),
            ),
        ensures
            r.0 == self.center_spec(),
            r.1 == (if inside2_spec(self.center_spec(), *self) {
                sqrt_floor(self.center_spec().distance_squared_spec(self.p_max) as nat) as Scalar
            } else {
                0
            }),
    {
        let center = Point2f {
            x: mid_floor(self.p_min.x, self.p_max.x),
            y: mid_floor(self.p_min.y, self.p_max.y),
        };
        let radius = if point2f_inside_bounds2f(&center, self) {
            center.distance(&self.p_max)
        } else {
            0
        };
        (center, radius)
    }

    /// The corner selected by `i`: 0 is the minimum, 1 the maximum; any
    /// other index is a calling-code bug and is ruled out.
    pub fn index(&self, i: usize) -> (r: Point2f)
        requires
            i < 2,
        ensures
            r == (if i == 0 {
                self.p_min
            } else {
                self.p_max
            }),
    {
        if i == 0 {
            self.p_min
        } else {
            self.p_max
        }
    }
}

impl Default for Bounds2f {
    /// The empty sentinel, the identity of union.
    fn default() -> (r: Bounds2f)
        ensures
            r == empty_bounds2(),
    {
        Bounds2f {
            p_min: Point2f { x: i64::MAX, y: i64::MAX },
            p_max: Point2f { x: i64::MIN, y: i64::MIN },
        }
    }
}

impl core::convert::From<Point2f> for Bounds2f {
    /// The degenerate, zero-extent bounds holding exactly `p`.
    fn from(p: Point2f) -> (r: Bounds2f) {
        Bounds2f { p_min: p, p_max: p }
    }
}

impl vstd::std_specs::convert::FromSpecImpl<Point2f> for Bounds2f {
    open spec fn obeys_from_spec() -> bool {
        true
    }

    open spec fn from_spec(p: Point2f) -> Bounds2f {
        Bounds2f { p_min: p, p_max: p }
    }
}

/// The bounding circle encloses its region: on an ordered bounds the center
/// lies inside, no contained point is farther from the center than the
/// maximum corner — exactly, on the squared distances — and so the rounded
/// distance to a contained point never exceeds the rounded radius.
pub proof fn lemma_bounding_sphere_encloses2(b: Bounds2f, q: Point2f)
    requires
        b.ordered(),
        inside2_spec(q, b),
    ensures
        inside2_spec(b.center_spec(), b),
        b.center_spec().distance_squared_spec(q) <= b.center_spec().distance_squared_spec(b.p_max),
        sqrt_floor(b.center_spec().distance_squared_spec(q) as nat) <= sqrt_floor(
            b.center_spec().distance_squared_spec(b.p_max) as nat,
        ),
{
    let c = b.center_spec();
    lemma_mid_floor_axis(b.p_min.x as int, b.p_max.x as int, q.x as int);
    lemma_mid_floor_axis(b.p_min.y as int, b.p_max.y as int, q.y as int);
    lemma_square_nonneg(c.x - q.x);
    lemma_square_nonneg(c.y - q.y);
    lemma_square_nonneg(c.x - b.p_max.x);
    lemma_square_nonneg(c.y - b.p_max.y);
    lemma_sqrt_floor_monotone(
        c.distance_squared_spec(q) as nat,
        c.distance_squared_spec(b.p_max) as nat,
    );
}

/// On every axis with a positive extent, `offset` inverts `lerp` exactly:
/// the fraction put in is the fraction read back, for every scalar
/// parameter.
pub proof fn lemma_offset_lerp_roundtrip2(b: Bounds2f, t: Point2f)
    requires
        b.p_min.x < b.p_max.x,
        b.p_min.y < b.p_max.y,
    ensures
        offset_axis(
            b.p_min.x as int,
            b.p_max.x as int,
            lerp_axis(b.p_min.x as int, b.p_max.x as int, t.x as int),
        ) == t.x,
        offset_axis(
            b.p_min.y as int,
            b.p_max.y as int,
            lerp_axis(b.p_min.y as int, b.p_max.y as int, t.y as int),
        ) == t.y,
{
    lemma_div_trunc_mul_cancel(t.x as int, b.p_max.x - b.p_min.x);
    lemma_div_trunc_mul_cancel(t.y as int, b.p_max.y - b.p_min.y);
}

} // verus!
