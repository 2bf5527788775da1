//! Affine position value types in two and three dimensions. Subtracting two
//! points yields a displacement vector; adding a vector to a point yields a
//! point.

use crate::scalar::{div_trunc, fits_scalar, mul_wide, sqrt_floor, Scalar};
use crate::vector::{Vector2f, Vector3f};
use vstd::prelude::*;

verus! {

/// A 2D affine position.
#[derive(Debug, Clone, Copy, PartialEq, Eq, Structural)]
pub struct Point2f {
    pub x: Scalar,
    pub y: Scalar,
}

impl Point2f {
    /// The squared distance to `p`, as a mathematical integer.
    pub open spec fn distance_squared_spec(self, p: Point2f) -> int {
        (self.x - p.x) * (self.x - p.x) + (self.y - p.y) * (self.y - p.y)
    }

    pub fn new(x: Scalar, y: Scalar) -> (r: Point2f)
        ensures
            r == (Point2f { x, y }),
    {
        Point2f { x, y }
    }

    /// Exact scalars admit no not-a-number value, so the check — kept for
    /// interface parity — always reports false.
    pub fn has_nans(&self) -> (r: bool)
        ensures
            !r,
    {
        false
    }

    /// The Euclidean distance to `p`, rounded down to an integer.
    pub fn distance(&self, p: &Point2f) -> (r: Scalar)
        requires
            fits_scalar(self.x - p.x),
            fits_scalar(self.y - p.y),
            fits_scalar(self.distance_squared_spec(*p)),
        ensures
            r == sqrt_floor(self.distance_squared_spec(*p) as nat),
    {
        let d = self.sub(p);
        d.length()
    }

    /// The displacement from `p` to `self`.
    pub fn sub(&self, p: &Point2f) -> (r: Vector2f)
        requires
            fits_scalar(self.x - p.x),
            fits_scalar(self.y - p.y),
        ensures
            r.x == self.x - p.x,
            r.y == self.y - p.y,
    {
        Vector2f { x: self.x - p.x, y: self.y - p.y }
    }

    /// The componentwise sum of two positions, as the midpoint computations
    /// use it.
    pub fn add(&self, p: &Point2f) -> (r: Point2f)
        requires
            fits_scalar(self.x + p.x),
            fits_scalar(self.y + p.y),
        ensures
            r.x == self.x + p.x,
            r.y == self.y + p.y,
    {
        Point2f { x: self.x + p.x, y: self.y + p.y }
    }

    /// The position displaced by `v`.
    pub fn add_vector(&self, v: &Vector2f) -> (r: Point2f)
        requires
            fits_scalar(self.x + v.x),
            fits_scalar(self.y + v.y),
        ensures
            r.x == self.x + v.x,
            r.y == self.y + v.y,
    {
        Point2f { x: self.x + v.x, y: self.y + v.y }
    }

    /// The position displaced against `v`.
    pub fn sub_vector(&self, v: &Vector2f) -> (r: Point2f)
        requires
            fits_scalar(self.x - v.x),
            fits_scalar(self.y - v.y),
        ensures
            r.x == self.x - v.x,
            r.y == self.y - v.y,
    {
        Point2f { x: self.x - v.x, y: self.y - v.y }
    }

    pub fn scale(&self, s: Scalar) -> (r: Point2f)
        requires
            fits_scalar(self.x * s),
            fits_scalar(self.y * s),
        ensures
            r.x == self.x * s,
            r.y == self.y * s,
    {
        Point2f { x: mul_wide(self.x, s) as i64, y: mul_wide(self.y, s) as i64 }
    }

    /// Componentwise division, rounding toward zero as `/` does on scalars.
    pub fn div_scalar(&self, s: Scalar) -> (r: Point2f)
        requires
            s != 0,
            fits_scalar(div_trunc(self.x as int, s as int)),
            fits_scalar(div_trunc(self.y as int, s as int)),
        ensures
            r.x == div_trunc(self.x as int, s as int),
            r.y == div_trunc(self.y as int, s as int),
    {
        Point2f { x: self.x / s, y: self.y / s }
    }

    /// The coordinate on axis `i` (0 is x, 1 is y); any other axis is a
    /// calling-code bug and is ruled out.
    pub fn index(&self, i: usize) -> (r: Scalar)
        requires
            i < 2,
        ensures
            r == (if i == 0 {
                self.x
            } else {
                self.y
            }),
    {
        if i == 0 {
            self.x
        } else {
            self.y
        }
    }
}

impl Default for Point2f {
    fn default() -> (r: Point2f)
        ensures
            r == (Point2f { x: 0, y: 0 }),
    {
        Point2f { x: 0, y: 0 }
    }
}

impl core::convert::From<Point3f> for Point2f {
    /// Drops the z coordinate.
    fn from(p: Point3f) -> (r: Point2f) {
        Point2f { x: p.x, y: p.y }
    }
}

impl vstd::std_specs::convert::FromSpecImpl<Point3f> for Point2f {
    open spec fn obeys_from_spec() -> bool {
        true
    }

    open spec fn from_spec(p: Point3f) -> Point2f {
        Point2f { x: p.x, y: p.y }
    }
}

/// A 3D affine position.
#[derive(Debug, Clone, Copy, PartialEq, Eq, Structural)]
pub struct Point3f {
    pub x: Scalar,
    pub y: Scalar,
    pub z: Scalar,
}

impl Point3f {
    /// The squared distance to `p`, as a mathematical integer.
    pub open spec fn distance_squared_spec(self, p: Point3f) -> int {
        (self.x - p.x) * (self.x - p.x) + (self.y - p.y) * (self.y - p.y) + (self.z - p.z) * (
        self.z - p.z)
    }

    /// The coordinate selected by `i`: 0 is x, 1 is y, anything else z.
    pub open spec fn index_spec(self, i: int) -> Scalar {
        if i == 0 {
            self.x
        } else if i == 1 {
            self.y
        } else {
            self.z
        }
    }

    pub fn new(x: Scalar, y: Scalar, z: Scalar) -> (r: Point3f)
        ensures
            r == (Point3f { x, y, z }),
    {
        Point3f { x, y, z }
    }

    /// Exact scalars admit no not-a-number value, so the check — kept for
    /// interface parity — always reports false.
    pub fn has_nans(&self) -> (r: bool)
        ensures
            !r,
    {
        false
    }

    /// The Euclidean distance to `p`, rounded down to an integer.
    pub fn distance(&self, p: &Point3f) -> (r: Scalar)
        requires
            fits_scalar(self.x - p.x),
            fits_scalar(self.y - p.y),
            fits_scalar(self.z - p.z),
            fits_scalar(self.distance_squared_spec(*p)),
        ensures
            r == sqrt_floor(self.distance_squared_spec(*p) as nat),
    {
        let d = self.sub(p);
        d.length()
    }

    pub fn distance_squared(&self, p: &Point3f) -> (r: Scalar)
        requires
            fits_scalar(self.x - p.x),
            fits_scalar(self.y - p.y),
            fits_scalar(self.z - p.z),
            fits_scalar(self.distance_squared_spec(*p)),
        ensures
            r == self.distance_squared_spec(*p),
    {
        let d = self.sub(p);
        d.length_squared()
    }

    pub fn min(&self, p: &Point3f) -> (r: Point3f)
        ensures
            r.x == vstd::math::min(self.x as int, p.x as int),
            r.y == vstd::math::min(self.y as int, p.y as int),
            r.z == vstd::math::min(self.z as int, p.z as int),
    {
        Point3f {
            x: if self.x <= p.x {
                self.x
            } else {
                p.x
            },
            y: if self.y <= p.y {
                self.y
            } else {
                p.y
            },
            z: if self.z <= p.z {
                self.z
            } else {
                p.z
            },
        }
    }

    pub fn max(&self, p: &Point3f) -> (r: Point3f)
        ensures
            r.x == vstd::math::max(self.x as int, p.x as int),
            r.y == vstd::math::max(self.y as int, p.y as int),
            r.z == vstd::math::max(self.z as int, p.z as int),
    {
        Point3f {
            x: if self.x >= p.x {
                self.x
            } else {
                p.x
            },
            y: if self.y >= p.y {
                self.y
            } else {
                p.y
            },
            z: if self.z >= p.z {
                self.z
            } else {
                p.z
            },
        }
    }

    /// Every scalar is already integral, so rounding down changes nothing.
    pub fn floor(&self) -> (r: Point3f)
        ensures
            r == *self,
    {
        *self
    }

    /// Every scalar is already integral, so rounding up changes nothing.
    pub fn ceil(&self) -> (r: Point3f)
        ensures
            r == *self,
    {
        *self
    }

    pub fn abs(&self) -> (r: Point3f)
        requires
            fits_scalar(-self.x),
            fits_scalar(-self.y),
            fits_scalar(-self.z),
        ensures
            r.x == vstd::math::abs(self.x as int),
            r.y == vstd::math::abs(self.y as int),
            r.z == vstd::math::abs(self.z as int),
    {
        Point3f {
            x: if self.x < 0 {
                -self.x
            } else {
                self.x
            },
            y: if self.y < 0 {
                -self.y
            } else {
                self.y
            },
            z: if self.z < 0 {
                -self.z
            } else {
                self.z
            },
        }
    }

    pub fn permute(&self, x: usize, y: usize, z: usize) -> (r: Point3f)
        requires
            x < 3,
            y < 3,
            z < 3,
        ensures
            r.x == self.index_spec(x as int),
            r.y == self.index_spec(y as int),
            r.z == self.index_spec(z as int),
    {
        Point3f { x: self.index(x), y: self.index(y), z: self.index(z) }
    }

    /// The coordinate on axis `i` (0 is x, 1 is y, 2 is z); any other axis
    /// is a calling-code bug and is ruled out.
    pub fn index(&self, i: usize) -> (r: Scalar)
        requires
            i < 3,
        ensures
            r == self.index_spec(i as int),
    {
        if i == 0 {
            self.x
        } else if i == 1 {
            self.y
        } else {
            self.z
        }
    }

    /// The displacement from `p` to `self`.
    pub fn sub(&self, p: &Point3f) -> (r: Vector3f)
        requires
            fits_scalar(self.x - p.x),
            fits_scalar(self.y - p.y),
            fits_scalar(self.z - p.z),
        ensures
            r.x == self.x - p.x,
            r.y == self.y - p.y,
            r.z == self.z - p.z,
    {
        Vector3f { x: self.x - p.x, y: self.y - p.y, z: self.z - p.z }
    }

    /// The componentwise sum of two positions, as the midpoint computations
    /// use it.
    pub fn add(&self, p: &Point3f) -> (r: Point3f)
        requires
            fits_scalar(self.x + p.x),
            fits_scalar(self.y + p.y),
            fits_scalar(self.z + p.z),
        ensures
            r.x == self.x + p.x,
            r.y == self.y + p.y,
            r.z == self.z + p.z,
    {
        Point3f { x: self.x + p.x, y: self.y + p.y, z: self.z + p.z }
    }

    /// The position displaced by `v`.
    pub fn add_vector(&self, v: &Vector3f) -> (r: Point3f)
        requires
            fits_scalar(self.x + v.x),
            fits_scalar(self.y + v.y),
            fits_scalar(self.z + v.z),
        ensures
            r.x == self.x + v.x,
            r.y == self.y + v.y,
            r.z == self.z + v.z,
    {
        Point3f { x: self.x + v.x, y: self.y + v.y, z: self.z + v.z }
    }

    /// The position displaced against `v`.
    pub fn sub_vector(&self, v: &Vector3f) -> (r: Point3f)
        requires
            fits_scalar(self.x - v.x),
            fits_scalar(self.y - v.y),
            fits_scalar(self.z - v.z),
        ensures
            r.x == self.x - v.x,
            r.y == self.y - v.y,
            r.z == self.z - v.z,
    {
        Point3f { x: self.x - v.x, y: self.y - v.y, z: self.z - v.z }
    }

    pub fn scale(&self, s: Scalar) -> (r: Point3f)
        requires
            fits_scalar(self.x * s),
            fits_scalar(self.y * s),
            fits_scalar(self.z * s),
        ensures
            r.x == self.x * s,
            r.y == self.y * s,
            r.z == self.z * s,
    {
        Point3f {
            x: mul_wide(self.x, s) as i64,
            y: mul_wide(self.y, s) as i64,
            z: mul_wide(self.z, s) as i64,
        }
    }

    /// Componentwise division, rounding toward zero as `/` does on scalars.
    pub fn div_scalar(&self, s: Scalar) -> (r: Point3f)
        requires
            s != 0,
            fits_scalar(div_trunc(self.x as int, s as int)),
            fits_scalar(div_trunc(self.y as int, s as int)),
            fits_scalar(div_trunc(self.z as int, s as int)),
        ensures
            r.x == div_trunc(self.x as int, s as int),
            r.y == div_trunc(self.y as int, s as int),
            r.z == div_trunc(self.z as int, s as int),
    {
        Point3f { x: self.x / s, y: self.y / s, z: self.z / s }
    }
}

impl Default for Point3f {
    fn default() -> (r: Point3f)
        ensures
            r == (Point3f { x: 0, y: 0, z: 0 }),
    {
        Point3f { x: 0, y: 0, z: 0 }
    }
}

impl core::convert::From<Vector3f> for Point3f {
    /// Reads a displacement as a position with the same coordinates.
    fn from(v: Vector3f) -> (r: Point3f) {
        Point3f { x: v.x, y: v.y, z: v.z }
    }
}

impl vstd::std_specs::convert::FromSpecImpl<Vector3f> for Point3f {
    open spec fn obeys_from_spec() -> bool {
        true
    }

    open spec fn from_spec(v: Vector3f) -> Point3f {
        Point3f { x: v.x, y: v.y, z: v.z }
    }
}

/// Componentwise linear interpolation between two positions, exact for every
/// integer parameter.
pub fn lerp(t: Scalar, p0: &Point3f, p1: &Point3f) -> (r: Point3f)
    requires
        fits_scalar(p0.x + t * (p1.x - p0.x)),
        fits_scalar(p0.y + t * (p1.y - p0.y)),
        fits_scalar(p0.z + t * (p1.z - p0.z)),
    ensures
        r.x == p0.x + t * (p1.x - p0.x),
        r.y == p0.y + t * (p1.y - p0.y),
        r.z == p0.z + t * (p1.z - p0.z),
{
    Point3f {
        x: crate::scalar::lerp(t, p0.x, p1.x),
        y: crate::scalar::lerp(t, p0.y, p1.y),
        z: crate::scalar::lerp(t, p0.z, p1.z),
    }
}

} // verus!
