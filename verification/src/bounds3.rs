//! 3D axis-aligned bounding regions: the union/intersection algebra, corner
//! enumeration, derived quantities, and the laws the algebra obeys.

use crate::bounds2::{lerp_axis, offset_axis};
use crate::misc::{inside3_spec, point3f_inside_bounds3f};
use crate::point::Point3f;
use crate::scalar::{
    fits_scalar, lemma_div_trunc_fits, lemma_div_trunc_mul_cancel, lemma_mid_floor_axis,
    lemma_scalar_product_bounds, lemma_sqrt_floor_monotone, lemma_square_nonneg, max_scalar,
    mid_floor, min_scalar, mul_wide, sqrt_floor, Scalar,
};
use crate::vector::Vector3f;
use vstd::prelude::*;

verus! {

/// A 3D axis-aligned box given by its two extreme corners. The default
/// value is the empty sentinel, whose inverted corners make it the identity
/// of union.
#[derive(Debug, Clone, Copy, PartialEq, Eq, Structural)]
pub struct Bounds3f {
    pub p_min: Point3f,
    pub p_max: Point3f,
}

/// The empty sentinel: corners inverted to the extreme representable values,
/// so that a union with anything returns the other operand.
pub open spec fn empty_bounds3() -> Bounds3f {
    Bounds3f {
        p_min: Point3f { x: i64::MAX, y: i64::MAX, z: i64::MAX },
        p_max: Point3f { x: i64::MIN, y: i64::MIN, z: i64::MIN },
    }
}

impl Bounds3f {
    /// Both corners ordered on every axis; false for the empty sentinel and
    /// for an inverted result of intersecting disjoint bounds.
    pub open spec fn ordered(self) -> bool {
        self.p_min.x <= self.p_max.x && self.p_min.y <= self.p_max.y && self.p_min.z
            <= self.p_max.z
    }

    /// The smallest bounds holding both operands.
    pub open spec fn union_spec(self, b: Bounds3f) -> Bounds3f {
        Bounds3f {
            p_min: Point3f {
                x: min_scalar(self.p_min.x, b.p_min.x),
                y: min_scalar(self.p_min.y, b.p_min.y),
                z: min_scalar(self.p_min.z, b.p_min.z),
            },
            p_max: Point3f {
                x: max_scalar(self.p_max.x, b.p_max.x),
                y: max_scalar(self.p_max.y, b.p_max.y),
                z: max_scalar(self.p_max.z, b.p_max.z),
            },
        }
    }

    /// The smallest bounds holding `self` and the point `p`.
    pub open spec fn union_point_spec(self, p: Point3f) -> Bounds3f {
        Bounds3f {
            p_min: Point3f {
                x: min_scalar(self.p_min.x, p.x),
                y: min_scalar(self.p_min.y, p.y),
                z: min_scalar(self.p_min.z, p.z),
            },
            p_max: Point3f {
                x: max_scalar(self.p_max.x, p.x),
                y: max_scalar(self.p_max.y, p.y),
                z: max_scalar(self.p_max.z, p.z),
            },
        }
    }

    /// The axiswise intersection; inverted on some axis exactly when the
    /// operands do not overlap there — a valid no-overlap signal, not an
    /// error.
    pub open spec fn intersect_spec(self, b: Bounds3f) -> Bounds3f {
        Bounds3f {
            p_min: Point3f {
                x: max_scalar(self.p_min.x, b.p_min.x),
                y: max_scalar(self.p_min.y, b.p_min.y),
                z: max_scalar(self.p_min.z, b.p_min.z),
            },
            p_max: Point3f {
                x: min_scalar(self.p_max.x, b.p_max.x),
                y: min_scalar(self.p_max.y, b.p_max.y),
                z: min_scalar(self.p_max.z, b.p_max.z),
            },
        }
    }

    /// Whether the two regions share a point: every axis interval overlaps,
    /// boundaries included.
    pub open spec fn overlaps_spec(self, b: Bounds3f) -> bool {
        self.p_max.x >= b.p_min.x && self.p_min.x <= b.p_max.x && self.p_max.y >= b.p_min.y
            && self.p_min.y <= b.p_max.y && self.p_max.z >= b.p_min.z && self.p_min.z <= b.p_max.z
    }

    /// The corner selected by the three low bits of `i`: bit 0 picks the x
    /// of the maximum corner, bit 1 the y, bit 2 the z.
    pub open spec fn corner_spec(self, i: int) -> Point3f {
        Point3f {
            x: if i % 2 == 1 {
                self.p_max.x
            } else {
                self.p_min.x
            },
            y: if (i / 2) % 2 == 1 {
                self.p_max.y
            } else {
                self.p_min.y
            },
            z: if (i / 4) % 2 == 1 {
                self.p_max.z
            } else {
                self.p_min.z
            },
        }
    }

    /// The midpoint of the two corners, each axis rounded down; rounding
    /// down keeps the maximum corner a farthest corner, so the bounding
    /// sphere encloses the whole box.
    pub open spec fn center_spec(self) -> Point3f {
        Point3f {
            x: ((self.p_min.x + self.p_max.x) / 2) as i64,
            y: ((self.p_min.y + self.p_max.y) / 2) as i64,
            z: ((self.p_min.z + self.p_max.z) / 2) as i64,
        }
    }

    /// The index of the longest diagonal axis: x wins ties with both, then
    /// y wins ties with z. The ordering is load-bearing for spatial
    /// partitioning heuristics that split along the longest axis.
    pub open spec fn max_extent_spec(self) -> int {
        let dx = self.p_max.x - self.p_min.x;
        let dy = self.p_max.y - self.p_min.y;
        let dz = self.p_max.z - self.p_min.z;
        if dx >= dy && dx >= dz {
            0
        } else if dy >= dz {
            1
        } else {
            2
        }
    }

    /// The smallest bounds holding both points, the corners resolved
    /// axis by axis.
    pub fn new_with_points(p1: Point3f, p2: Point3f) -> (r: Bounds3f)
        ensures
            r.p_min.x == min_scalar(p1.x, p2.x),
            r.p_min.y == min_scalar(p1.y, p2.y),
            r.p_min.z == min_scalar(p1.z, p2.z),
            r.p_max.x == max_scalar(p1.x, p2.x),
            r.p_max.y == max_scalar(p1.y, p2.y),
            r.p_max.z == max_scalar(p1.z, p2.z),
            r.ordered(),
    {
        Bounds3f { p_min: p1.min(&p2), p_max: p1.max(&p2) }
    }

    /// Whether some axis is inverted, as the empty sentinel is; derived
    /// quantities such as the volume are undefined on an empty bounds.
    pub fn is_empty(&self) -> (r: bool)
        ensures
            r == !self.ordered(),
    {
        self.p_min.x > self.p_max.x || self.p_min.y > self.p_max.y || self.p_min.z > self.p_max.z
    }

    /// The corner selected by the three low bits of `i`.
    pub fn corner(&self, corner: usize) -> (r: Point3f)
        requires
            corner < 8,
        ensures
            r == self.corner_spec(corner as int),
    {
        let index_x: usize = corner % 2;
        let index_y: usize = (corner / 2) % 2;
        let index_z: usize = corner / 4;
        Point3f {
            x: self.index(index_x).x,
            y: self.index(index_y).y,
            z: self.index(index_z).z,
        }
    }

    /// The smallest bounds holding `self` and the point `p`.
    pub fn union_point3f(&self, p: &Point3f) -> (r: Bounds3f)
        ensures
            r == self.union_point_spec(*p),
    {
        Bounds3f { p_min: self.p_min.min(p), p_max: self.p_max.max(p) }
    }

    /// The smallest bounds holding both operands.
    pub fn union(&self, b: &Bounds3f) -> (r: Bounds3f)
        ensures
            r == self.union_spec(*b),
    {
        Bounds3f { p_min: self.p_min.min(&b.p_min), p_max: self.p_max.max(&b.p_max) }
    }

    /// The diagonal from the minimum corner to the maximum corner.
    pub fn diagonal(&self) -> (r: Vector3f)
        requires
            fits_scalar(self.p_max.x - self.p_min.x),
            fits_scalar(self.p_max.y - self.p_min.y),
            fits_scalar(self.p_max.z - self.p_min.z),
        ensures
            r.x == self.p_max.x - self.p_min.x,
            r.y == self.p_max.y - self.p_min.y,
            r.z == self.p_max.z - self.p_min.z,
    {
        self.p_max.sub(&self.p_min)
    }

    /// Twice the sum of the three face areas; meaningful only on an ordered
    /// bounds.
    pub fn surface_area(&self) -> (r: Scalar)
        requires
            fits_scalar(self.p_max.x - self.p_min.x),
            fits_scalar(self.p_max.y - self.p_min.y),
            fits_scalar(self.p_max.z - self.p_min.z),
            fits_scalar(
                2 * ((self.p_max.x - self.p_min.x) * (self.p_max.y - self.p_min.y) + (self.p_max.x
                    - self.p_min.x) * (self.p_max.z - self.p_min.z) + (self.p_max.y - self.p_min.y)
                    * (self.p_max.z - self.p_min.z)),
            ),
        ensures
            r == 2 * ((self.p_max.x - self.p_min.x) * (self.p_max.y - self.p_min.y) + (self.p_max.x
                - self.p_min.x) * (self.p_max.z - self.p_min.z) + (self.p_max.y - self.p_min.y) * (
            self.p_max.z - self.p_min.z)),
    {
        let d = self.diagonal();
        let xy = mul_wide(d.x, d.y);
        let xz = mul_wide(d.x, d.z);
        let yz = mul_wide(d.y, d.z);
        proof {
            lemma_scalar_product_bounds(d.x as int, d.y as int);
            lemma_scalar_product_bounds(d.x as int, d.z as int);
            lemma_scalar_product_bounds(d.y as int, d.z as int);
        }
        (2 * (xy + xz + yz)) as i64
    }

    /// The signed volume spanned by the diagonal; meaningful only on an
    /// ordered bounds.
    pub fn volume(&self) -> (r: Scalar)
        requires
            fits_scalar(self.p_max.x - self.p_min.x),
            fits_scalar(self.p_max.y - self.p_min.y),
            fits_scalar(self.p_max.z - self.p_min.z),
            fits_scalar(
                (self.p_max.x - self.p_min.x) * (self.p_max.y - self.p_min.y) * (self.p_max.z
                    - self.p_min.z),
            ),
        ensures
            r == (self.p_max.x - self.p_min.x) * (self.p_max.y - self.p_min.y) * (self.p_max.z
                - self.p_min.z),
    {
        let d = self.diagonal();
        let xy = mul_wide(d.x, d.y);
        proof {
            lemma_scalar_product_bounds(d.x as int, d.y as int);
            lemma_volume_intermediate_bound(d.x as int, d.y as int, d.z as int);
        }
        (xy * d.z as i128) as i64
    }

    /// The index of the longest diagonal axis: x wins ties with both, then
    /// y wins ties with z.
    pub fn maximum_extend(&self) -> (r: usize)
        requires
            fits_scalar(self.p_max.x - self.p_min.x),
            fits_scalar(self.p_max.y - self.p_min.y),
            fits_scalar(self.p_max.z - self.p_min.z),
        ensures
            r == self.max_extent_spec(),
    {
        let d = self.diagonal();
        if d.x >= d.y && d.x >= d.z {
            0
        } else if d.y >= d.z {
            1
        } else {
            2
        }
    }

    /// The point the per-axis fractions of `t` select between the corners.
    pub fn lerp(&self, t: &Point3f) -> (r: Point3f)
        requires
            fits_scalar(lerp_axis(self.p_min.x as int, self.p_max.x as int, t.x as int)),
            fits_scalar(lerp_axis(self.p_min.y as int, self.p_max.y as int, t.y as int)),
            fits_scalar(lerp_axis(self.p_min.z as int, self.p_max.z as int, t.z as int)),
        ensures
            r.x == lerp_axis(self.p_min.x as int, self.p_max.x as int, t.x as int),
            r.y == lerp_axis(self.p_min.y as int, self.p_max.y as int, t.y as int),
            r.z == lerp_axis(self.p_min.z as int, self.p_max.z as int, t.z as int),
    {
        Point3f {
            x: crate::scalar::lerp(t.x, self.p_min.x, self.p_max.x),
            y: crate::scalar::lerp(t.y, self.p_min.y, self.p_max.y),
            z: crate::scalar::lerp(t.z, self.p_min.z, self.p_max.z),
        }
    }

    /// The inverse of `lerp`: where `p` sits between the corners, each axis
    /// normalized only where its extent is positive.
    pub fn offset(&self, p: &Point3f) -> (r: Vector3f)
        requires
            fits_scalar(p.x - self.p_min.x),
            fits_scalar(p.y - self.p_min.y),
            fits_scalar(p.z - self.p_min.z),
            self.p_max.x > self.p_min.x ==> fits_scalar(self.p_max.x - self.p_min.x),
            self.p_max.y > self.p_min.y ==> fits_scalar(self.p_max.y - self.p_min.y),
            self.p_max.z > self.p_min.z ==> fits_scalar(self.p_max.z - self.p_min.z),
        ensures
            r.x == offset_axis(self.p_min.x as int, self.p_max.x as int, p.x as int),
            r.y == offset_axis(self.p_min.y as int, self.p_max.y as int, p.y as int),
            r.z == offset_axis(self.p_min.z as int, self.p_max.z as int, p.z as int),
    {
        let mut o = p.sub(&self.p_min);
        if self.p_max.x > self.p_min.x {
            proof {
                lemma_div_trunc_fits(o.x as int, self.p_max.x - self.p_min.x);
            }
            o.x = o.x / (self.p_max.x - self.p_min.x);
        }
        if self.p_max.y > self.p_min.y {
            proof {
                lemma_div_trunc_fits(o.y as int, self.p_max.y - self.p_min.y);
            }
            o.y = o.y / (self.p_max.y - self.p_min.y);
        }
        if self.p_max.z > self.p_min.z {
            proof {
                lemma_div_trunc_fits(o.z as int, self.p_max.z - self.p_min.z);
            }
            o.z = o.z / (self.p_max.z - self.p_min.z);
        }
        o
    }

    /// The center of the bounds and, when the center lies inside them, the
    /// rounded distance from the center to the maximum corner — which
    /// encloses the whole box (`lemma_bounding_sphere_encloses3`); the
    /// radius degrades to 0 for the empty sentinel, whose center lies
    /// outside.
    pub fn bounding_sphere(&self) -> (r: (Point3f, Scalar))
        requires
            inside3_spec(self.center_spec(), *self) ==> fits_scalar(
                self.center_spec().x - self.p_max.x,
            ) && fits_scalar(self.center_spec().y - self.p_max.y) && fits_scalar(
                self.center_spec().z - self.p_max.z,
            ) && fits_scalar(self.center_spec().distance_squared_spec(self.p_max)),
        ensures
            r.0 == self.center_spec(),
            r.1 == (if inside3_spec(self.center_spec(), *self) {
                sqrt_floor(self.center_spec().distance_squared_spec(self.p_max) as nat) as Scalar
            } else {
                0
            }),
    {
        let center = Point3f {
            x: mid_floor(self.p_min.x, self.p_max.x),
            y: mid_floor(self.p_min.y, self.p_max.y),
            z: mid_floor(self.p_min.z, self.p_max.z),
        };
        let radius = if point3f_inside_bounds3f(&center, self) {
            center.distance(&self.p_max)
        } else {
            0
        };
        (center, radius)
    }

    /// The axiswise intersection; the caller checks the result for
    /// emptiness before trusting derived quantities.
    pub fn intersect(&self, b: &Bounds3f) -> (r: Bounds3f)
        ensures
            r == self.intersect_spec(*b),
    {
        Bounds3f { p_min: self.p_min.max(&b.p_min), p_max: self.p_max.min(&b.p_max) }
    }

    /// Whether the two regions share a point, boundaries included.
    pub fn overlaps(&self, b: &Bounds3f) -> (r: bool)
        ensures
            r == self.overlaps_spec(*b),
    {
        let x = (self.p_max.x >= b.p_min.x) && (self.p_min.x <= b.p_max.x);
        let y = (self.p_max.y >= b.p_min.y) && (self.p_min.y <= b.p_max.y);
        let z = (self.p_max.z >= b.p_min.z) && (self.p_min.z <= b.p_max.z);
        x && y && z
    }

    /// Both corners pushed outward by `delta` on every axis.
    pub fn expand(&self, delta: Scalar) -> (r: Bounds3f)
        requires
            fits_scalar(self.p_min.x - delta),
            fits_scalar(self.p_min.y - delta),
            fits_scalar(self.p_min.z - delta),
            fits_scalar(self.p_max.x + delta),
            fits_scalar(self.p_max.y + delta),
            fits_scalar(self.p_max.z + delta),
        ensures
            r.p_min.x == self.p_min.x - delta,
            r.p_min.y == self.p_min.y - delta,
            r.p_min.z == self.p_min.z - delta,
            r.p_max.x == self.p_max.x + delta,
            r.p_max.y == self.p_max.y + delta,
            r.p_max.z == self.p_max.z + delta,
    {
        let d = Vector3f { x: delta, y: delta, z: delta };
        Bounds3f { p_min: self.p_min.sub_vector(&d), p_max: self.p_max.add_vector(&d) }
    }

    /// The corner selected by `i`: 0 is the minimum, 1 the maximum; any
    /// other index is a calling-code bug and is ruled out.
    pub fn index(&self, i: usize) -> (r: Point3f)
        requires
            i < 2,
        ensures
            r == (if i == 0 {
                self.p_min
            } else {
                self.p_max
            }),
    {
        if i == 0 {
            self.p_min
        } else {
            self.p_max
        }
    }
}

impl Default for Bounds3f {
    /// The empty sentinel, the identity of union.
    fn default() -> (r: Bounds3f)
        ensures
            r == empty_bounds3(),
    {
        Bounds3f {
            p_min: Point3f { x: i64::MAX, y: i64::MAX, z: i64::MAX },
            p_max: Point3f { x: i64::MIN, y: i64::MIN, z: i64::MIN },
        }
    }
}

impl core::convert::From<Point3f> for Bounds3f {
    /// The degenerate, zero-extent bounds holding exactly `p`.
    fn from(p: Point3f) -> (r: Bounds3f) {
        Bounds3f { p_min: p, p_max: p }
    }
}

impl vstd::std_specs::convert::FromSpecImpl<Point3f> for Bounds3f {
    open spec fn obeys_from_spec() -> bool {
        true
    }

    open spec fn from_spec(p: Point3f) -> Bounds3f {
        Bounds3f { p_min: p, p_max: p }
    }
}

/// When the final product fits the scalar range, the widened intermediate
/// product times the last factor stays within a 128-bit value.
proof fn lemma_volume_intermediate_bound(a: int, b: int, c: int)
    requires
        fits_scalar(a),
        fits_scalar(b),
        fits_scalar(c),
        fits_scalar(a * b * c),
    ensures
        -0x80000000000000000000000000000000 <= (a * b) * c
            <= 0x7fffffffffffffffffffffffffffffff,
{
    assert(a * b * c == (a * b) * c);
}

/// The bounding sphere encloses its box: on an ordered bounds the center
/// lies inside, no contained point is farther from the center than the
/// maximum corner — exactly, on the squared distances — and so the rounded
/// distance to a contained point never exceeds the rounded radius.
pub proof fn lemma_bounding_sphere_encloses3(b: Bounds3f, q: Point3f)
    requires
        b.ordered(),
        inside3_spec(q, b),
    ensures
        inside3_spec(b.center_spec(), b),
        b.center_spec().distance_squared_spec(q) <= b.center_spec().distance_squared_spec(b.p_max),
        sqrt_floor(b.center_spec().distance_squared_spec(q) as nat) <= sqrt_floor(
            b.center_spec().distance_squared_spec(b.p_max) as nat,
        ),
{
    let c = b.center_spec();
    lemma_mid_floor_axis(b.p_min.x as int, b.p_max.x as int, q.x as int);
    lemma_mid_floor_axis(b.p_min.y as int, b.p_max.y as int, q.y as int);
    lemma_mid_floor_axis(b.p_min.z as int, b.p_max.z as int, q.z as int);
    lemma_square_nonneg(c.x - q.x);
    lemma_square_nonneg(c.y - q.y);
    lemma_square_nonneg(c.z - q.z);
    lemma_square_nonneg(c.x - b.p_max.x);
    lemma_square_nonneg(c.y - b.p_max.y);
    lemma_square_nonneg(c.z - b.p_max.z);
    lemma_sqrt_floor_monotone(
        c.distance_squared_spec(q) as nat,
        c.distance_squared_spec(b.p_max) as nat,
    );
}

/// Every point is contained in the union of any bounds with it.
pub proof fn lemma_union_point_contains(b: Bounds3f, p: Point3f)
    ensures
        inside3_spec(p, b.union_point_spec(p)),
{
}

/// The empty sentinel is the identity of union, on either side.
pub proof fn lemma_union_empty_identity(b: Bounds3f)
    ensures
        b.union_spec(empty_bounds3()) == b,
        empty_bounds3().union_spec(b) == b,
{
}

/// On every axis with a positive extent, `offset` inverts `lerp` exactly:
/// the fraction put in is the fraction read back, for every scalar
/// parameter.
pub proof fn lemma_offset_lerp_roundtrip3(b: Bounds3f, t: Point3f)
    requires
        b.p_min.x < b.p_max.x,
        b.p_min.y < b.p_max.y,
        b.p_min.z < b.p_max.z,
    ensures
        offset_axis(
            b.p_min.x as int,
            b.p_max.x as int,
            lerp_axis(b.p_min.x as int, b.p_max.x as int, t.x as int),
        ) == t.x,
        offset_axis(
            b.p_min.y as int,
            b.p_max.y as int,
            lerp_axis(b.p_min.y as int, b.p_max.y as int, t.y as int),
        ) == t.y,
        offset_axis(
            b.p_min.z as int,
            b.p_max.z as int,
            lerp_axis(b.p_min.z as int, b.p_max.z as int, t.z as int),
        ) == t.z,
{
    lemma_div_trunc_mul_cancel(t.x as int, b.p_max.x - b.p_min.x);
    lemma_div_trunc_mul_cancel(t.y as int, b.p_max.y - b.p_min.y);
    lemma_div_trunc_mul_cancel(t.z as int, b.p_max.z - b.p_min.z);
}

/// Corner 0 is the minimum corner and corner 7 the maximum corner.
pub proof fn lemma_corner_endpoints(b: Bounds3f)
    ensures
        b.corner_spec(0) == b.p_min,
        b.corner_spec(7) == b.p_max,
{
}

/// On a box with a positive extent on every axis, the eight corners are
/// pairwise distinct.
pub proof fn lemma_corners_distinct(b: Bounds3f, i: int, j: int)
    requires
        b.p_min.x < b.p_max.x,
        b.p_min.y < b.p_max.y,
        b.p_min.z < b.p_max.z,
        0 <= i < 8,
        0 <= j < 8,
        i != j,
    ensures
        b.corner_spec(i) != b.corner_spec(j),
{
    if i % 2 == j % 2 && (i / 2) % 2 == (j / 2) % 2 && (i / 4) % 2 == (j / 4) % 2 {
        assert(i == i % 2 + 2 * ((i / 2) % 2) + 4 * ((i / 4) % 2));
        assert(j == j % 2 + 2 * ((j / 2) % 2) + 4 * ((j / 4) % 2));
    }
}

/// The overlap test is symmetric in its two operands.
pub proof fn lemma_overlaps_symmetric(a: Bounds3f, b: Bounds3f)
    ensures
        a.overlaps_spec(b) == b.overlaps_spec(a),
{
}

} // verus!
