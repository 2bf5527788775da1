//! Displacement/direction value types in two and three dimensions, with
//! componentwise arithmetic, dot and cross products, exact integer lengths
//! and a coordinate-system builder.

use crate::scalar::{
    div_trunc, fits_scalar, isqrt, lemma_div_trunc_fits, lemma_scalar_product_bounds,
    lemma_square_nonneg, mul_wide, sqrt_floor, Scalar,
};
use vstd::prelude::*;

verus! {

/// A 2D displacement.
#[derive(Debug, Clone, Copy, PartialEq, Eq, Structural)]
pub struct Vector2f {
    pub x: Scalar,
    pub y: Scalar,
}

impl Vector2f {
    /// The dot product, as a mathematical integer.
    pub open spec fn dot_spec(self, v: Vector2f) -> int {
        self.x * v.x + self.y * v.y
    }

    /// The squared Euclidean length, as a mathematical integer.
    pub open spec fn length_squared_spec(self) -> int {
        self.dot_spec(self)
    }

    pub fn new(x: Scalar, y: Scalar) -> (r: Vector2f)
        ensures
            r == (Vector2f { x, y }),
    {
        Vector2f { x, y }
    }

    /// Exact scalars admit no not-a-number value, so the check — kept for
    /// interface parity — always reports false.
    pub fn has_nans(&self) -> (r: bool)
        ensures
            !r,
    {
        false
    }

    pub fn length_squared(&self) -> (r: Scalar)
        requires
            fits_scalar(self.length_squared_spec()),
        ensures
            r == self.length_squared_spec(),
    {
        let xx = mul_wide(self.x, self.x);
        let yy = mul_wide(self.y, self.y);
        proof {
            lemma_square_nonneg(self.x as int);
            lemma_square_nonneg(self.y as int);
        }
        (xx + yy) as i64
    }

    /// The Euclidean length rounded down to an integer.
    pub fn length(&self) -> (r: Scalar)
        requires
            fits_scalar(self.length_squared_spec()),
        ensures
            r == sqrt_floor(self.length_squared_spec() as nat),
    {
        proof {
            lemma_square_nonneg(self.x as int);
            lemma_square_nonneg(self.y as int);
        }
        let sq = self.length_squared();
        isqrt(sq)
    }

    pub fn dot(&self, v: &Vector2f) -> (r: Scalar)
        requires
            fits_scalar(self.dot_spec(*v)),
        ensures
            r == self.dot_spec(*v),
    {
        let a = mul_wide(self.x, v.x);
        let b = mul_wide(self.y, v.y);
        proof {
            lemma_scalar_product_bounds(self.x as int, v.x as int);
            lemma_scalar_product_bounds(self.y as int, v.y as int);
        }
        (a + b) as i64
    }

    pub fn add(&self, v: &Vector2f) -> (r: Vector2f)
        requires
            fits_scalar(self.x + v.x),
            fits_scalar(self.y + v.y),
        ensures
            r.x == self.x + v.x,
            r.y == self.y + v.y,
    {
        Vector2f { x: self.x + v.x, y: self.y + v.y }
    }

    pub fn sub(&self, v: &Vector2f) -> (r: Vector2f)
        requires
            fits_scalar(self.x - v.x),
            fits_scalar(self.y - v.y),
        ensures
            r.x == self.x - v.x,
            r.y == self.y - v.y,
    {
        Vector2f { x: self.x - v.x, y: self.y - v.y }
    }

    pub fn neg(&self) -> (r: Vector2f)
        requires
            fits_scalar(-self.x),
            fits_scalar(-self.y),
        ensures
            r.x == -self.x,
            r.y == -self.y,
    {
        Vector2f { x: -self.x, y: -self.y }
    }

    pub fn scale(&self, s: Scalar) -> (r: Vector2f)
        requires
            fits_scalar(self.x * s),
            fits_scalar(self.y * s),
        ensures
            r.x == self.x * s,
            r.y == self.y * s,
    {
        Vector2f { x: mul_wide(self.x, s) as i64, y: mul_wide(self.y, s) as i64 }
    }

    /// Componentwise division, rounding toward zero as `/` does on scalars.
    pub fn div_scalar(&self, s: Scalar) -> (r: Vector2f)
        requires
            s != 0,
            fits_scalar(div_trunc(self.x as int, s as int)),
            fits_scalar(div_trunc(self.y as int, s as int)),
        ensures
            r.x == div_trunc(self.x as int, s as int),
            r.y == div_trunc(self.y as int, s as int),
    {
        Vector2f { x: self.x / s, y: self.y / s }
    }

    /// The component on axis `i` (0 is x, 1 is y); any other axis is a
    /// calling-code bug and is ruled out.
    pub fn index(&self, i: usize) -> (r: Scalar)
        requires
            i < 2,
        ensures
            r == (if i == 0 {
                self.x
            } else {
                self.y
            }),
    {
        if i == 0 {
            self.x
        } else {
            self.y
        }
    }
}

impl Default for Vector2f {
    fn default() -> (r: Vector2f)
        ensures
            r == (Vector2f { x: 0, y: 0 }),
    {
        Vector2f { x: 0, y: 0 }
    }
}

/// A 3D displacement.
#[derive(Debug, Clone, Copy, PartialEq, Eq, Structural)]
pub struct Vector3f {
    pub x: Scalar,
    pub y: Scalar,
    pub z: Scalar,
}

impl Vector3f {
    /// The dot product, as a mathematical integer.
    pub open spec fn dot_spec(self, v: Vector3f) -> int {
        self.x * v.x + self.y * v.y + self.z * v.z
    }

    /// The squared Euclidean length, as a mathematical integer.
    pub open spec fn length_squared_spec(self) -> int {
        self.dot_spec(self)
    }

    /// The cross product, componentwise over mathematical integers.
    pub open spec fn cross_spec(self, v: Vector3f) -> (int, int, int) {
        (
            self.y * v.z - self.z * v.y,
            self.z * v.x - self.x * v.z,
            self.x * v.y - self.y * v.x,
        )
    }

    /// The component selected by `i`: 0 is x, 1 is y, anything else z.
    pub open spec fn index_spec(self, i: int) -> Scalar {
        if i == 0 {
            self.x
        } else if i == 1 {
            self.y
        } else {
            self.z
        }
    }

    /// The index of the largest component, later axes winning ties.
    pub open spec fn max_dimension_spec(self) -> int {
        if self.x > self.y {
            if self.x > self.z {
                0
            } else {
                2
            }
        } else {
            if self.y > self.z {
                1
            } else {
                2
            }
        }
    }

    pub fn new(x: Scalar, y: Scalar, z: Scalar) -> (r: Vector3f)
        ensures
            r == (Vector3f { x, y, z }),
    {
        Vector3f { x, y, z }
    }

    /// Exact scalars admit no not-a-number value, so the check — kept for
    /// interface parity — always reports false.
    pub fn has_nans(&self) -> (r: bool)
        ensures
            !r,
    {
        false
    }

    pub fn length_squared(&self) -> (r: Scalar)
        requires
            fits_scalar(self.length_squared_spec()),
        ensures
            r == self.length_squared_spec(),
    {
        let xx = mul_wide(self.x, self.x);
        let yy = mul_wide(self.y, self.y);
        let zz = mul_wide(self.z, self.z);
        proof {
            lemma_square_nonneg(self.x as int);
            lemma_square_nonneg(self.y as int);
            lemma_square_nonneg(self.z as int);
        }
        (xx + yy + zz) as i64
    }

    /// The Euclidean length rounded down to an integer.
    pub fn length(&self) -> (r: Scalar)
        requires
            fits_scalar(self.length_squared_spec()),
        ensures
            r == sqrt_floor(self.length_squared_spec() as nat),
    {
        proof {
            lemma_square_nonneg(self.x as int);
            lemma_square_nonneg(self.y as int);
            lemma_square_nonneg(self.z as int);
        }
        let sq = self.length_squared();
        isqrt(sq)
    }

    /// Componentwise division by the rounded length; exact contracts keep
    /// the rounding explicit.
    pub fn normalize(&self) -> (r: Vector3f)
        requires
            fits_scalar(self.length_squared_spec()),
            self.length_squared_spec() > 0,
        ensures
            r.x == div_trunc(self.x as int, sqrt_floor(self.length_squared_spec() as nat) as int),
            r.y == div_trunc(self.y as int, sqrt_floor(self.length_squared_spec() as nat) as int),
            r.z == div_trunc(self.z as int, sqrt_floor(self.length_squared_spec() as nat) as int),
    {
        let len = self.length();
        proof {
            if len == 0 {
                assert((len + 1) * (len + 1) == 1) by (nonlinear_arith)
                    requires
                        len == 0,
                ;
            }
            lemma_div_trunc_fits(self.x as int, len as int);
            lemma_div_trunc_fits(self.y as int, len as int);
            lemma_div_trunc_fits(self.z as int, len as int);
        }
        Vector3f { x: self.x / len, y: self.y / len, z: self.z / len }
    }

    pub fn dot(&self, v: &Vector3f) -> (r: Scalar)
        requires
            fits_scalar(self.dot_spec(*v)),
        ensures
            r == self.dot_spec(*v),
    {
        let a = mul_wide(self.x, v.x);
        let b = mul_wide(self.y, v.y);
        let c = mul_wide(self.z, v.z);
        proof {
            lemma_scalar_product_bounds(self.x as int, v.x as int);
            lemma_scalar_product_bounds(self.y as int, v.y as int);
            lemma_scalar_product_bounds(self.z as int, v.z as int);
        }
        (a + b + c) as i64
    }

    /// The absolute value of the dot product.
    pub fn abs_dot(&self, v: &Vector3f) -> (r: Scalar)
        requires
            fits_scalar(self.dot_spec(*v)),
            fits_scalar(-self.dot_spec(*v)),
        ensures
            r == vstd::math::abs(self.dot_spec(*v)),
    {
        let d = self.dot(v);
        if d < 0 {
            -d
        } else {
            d
        }
    }

    pub fn cross(&self, v: &Vector3f) -> (r: Vector3f)
        requires
            fits_scalar(self.cross_spec(*v).0),
            fits_scalar(self.cross_spec(*v).1),
            fits_scalar(self.cross_spec(*v).2),
        ensures
            r.x == self.cross_spec(*v).0,
            r.y == self.cross_spec(*v).1,
            r.z == self.cross_spec(*v).2,
    {
        proof {
            lemma_scalar_product_bounds(self.y as int, v.z as int);
            lemma_scalar_product_bounds(self.z as int, v.y as int);
            lemma_scalar_product_bounds(self.z as int, v.x as int);
            lemma_scalar_product_bounds(self.x as int, v.z as int);
            lemma_scalar_product_bounds(self.x as int, v.y as int);
            lemma_scalar_product_bounds(self.y as int, v.x as int);
        }
        Vector3f {
            x: (mul_wide(self.y, v.z) - mul_wide(self.z, v.y)) as i64,
            y: (mul_wide(self.z, v.x) - mul_wide(self.x, v.z)) as i64,
            z: (mul_wide(self.x, v.y) - mul_wide(self.y, v.x)) as i64,
        }
    }

    pub fn min_component(&self) -> (r: Scalar)
        ensures
            r == vstd::math::min(self.x as int, vstd::math::min(self.y as int, self.z as int)),
    {
        let yz = if self.y <= self.z {
            self.y
        } else {
            self.z
        };
        if self.x <= yz {
            self.x
        } else {
            yz
        }
    }

    pub fn max_component(&self) -> (r: Scalar)
        ensures
            r == vstd::math::max(self.x as int, vstd::math::max(self.y as int, self.z as int)),
    {
        let yz = if self.y >= self.z {
            self.y
        } else {
            self.z
        };
        if self.x >= yz {
            self.x
        } else {
            yz
        }
    }

    pub fn max_dimension(&self) -> (r: usize)
        ensures
            r == self.max_dimension_spec(),
    {
        if self.x > self.y {
            if self.x > self.z {
                0
            } else {
                2
            }
        } else {
            if self.y > self.z {
                1
            } else {
                2
            }
        }
    }

    pub fn min(&self, v: &Vector3f) -> (r: Vector3f)
        ensures
            r.x == vstd::math::min(self.x as int, v.x as int),
            r.y == vstd::math::min(self.y as int, v.y as int),
            r.z == vstd::math::min(self.z as int, v.z as int),
    {
        Vector3f {
            x: if self.x <= v.x {
                self.x
            } else {
                v.x
            },
            y: if self.y <= v.y {
                self.y
            } else {
                v.y
            },
            z: if self.z <= v.z {
                self.z
            } else {
                v.z
            },
        }
    }

    pub fn max(&self, v: &Vector3f) -> (r: Vector3f)
        ensures
            r.x == vstd::math::max(self.x as int, v.x as int),
            r.y == vstd::math::max(self.y as int, v.y as int),
            r.z == vstd::math::max(self.z as int, v.z as int),
    {
        Vector3f {
            x: if self.x >= v.x {
                self.x
            } else {
                v.x
            },
            y: if self.y >= v.y {
                self.y
            } else {
                v.y
            },
            z: if self.z >= v.z {
                self.z
            } else {
                v.z
            },
        }
    }

    pub fn permute(&self, x: usize, y: usize, z: usize) -> (r: Vector3f)
        requires
            x < 3,
            y < 3,
            z < 3,
        ensures
            r.x == self.index_spec(x as int),
            r.y == self.index_spec(y as int),
            r.z == self.index_spec(z as int),
    {
        Vector3f { x: self.index(x), y: self.index(y), z: self.index(z) }
    }

    /// The component on axis `i` (0 is x, 1 is y, 2 is z); any other axis is
    /// a calling-code bug and is ruled out.
    pub fn index(&self, i: usize) -> (r: Scalar)
        requires
            i < 3,
        ensures
            r == self.index_spec(i as int),
    {
        if i == 0 {
            self.x
        } else if i == 1 {
            self.y
        } else {
            self.z
        }
    }

    pub fn add(&self, v: &Vector3f) -> (r: Vector3f)
        requires
            fits_scalar(self.x + v.x),
            fits_scalar(self.y + v.y),
            fits_scalar(self.z + v.z),
        ensures
            r.x == self.x + v.x,
            r.y == self.y + v.y,
            r.z == self.z + v.z,
    {
        Vector3f { x: self.x + v.x, y: self.y + v.y, z: self.z + v.z }
    }

    pub fn sub(&self, v: &Vector3f) -> (r: Vector3f)
        requires
            fits_scalar(self.x - v.x),
            fits_scalar(self.y - v.y),
            fits_scalar(self.z - v.z),
        ensures
            r.x == self.x - v.x,
            r.y == self.y - v.y,
            r.z == self.z - v.z,
    {
        Vector3f { x: self.x - v.x, y: self.y - v.y, z: self.z - v.z }
    }

    pub fn neg(&self) -> (r: Vector3f)
        requires
            fits_scalar(-self.x),
            fits_scalar(-self.y),
            fits_scalar(-self.z),
        ensures
            r.x == -self.x,
            r.y == -self.y,
            r.z == -self.z,
    {
        Vector3f { x: -self.x, y: -self.y, z: -self.z }
    }

    pub fn scale(&self, s: Scalar) -> (r: Vector3f)
        requires
            fits_scalar(self.x * s),
            fits_scalar(self.y * s),
            fits_scalar(self.z * s),
        ensures
            r.x == self.x * s,
            r.y == self.y * s,
            r.z == self.z * s,
    {
        Vector3f {
            x: mul_wide(self.x, s) as i64,
            y: mul_wide(self.y, s) as i64,
            z: mul_wide(self.z, s) as i64,
        }
    }

    /// Componentwise division, rounding toward zero as `/` does on scalars.
    pub fn div_scalar(&self, s: Scalar) -> (r: Vector3f)
        requires
            s != 0,
            fits_scalar(div_trunc(self.x as int, s as int)),
            fits_scalar(div_trunc(self.y as int, s as int)),
            fits_scalar(div_trunc(self.z as int, s as int)),
        ensures
            r.x == div_trunc(self.x as int, s as int),
            r.y == div_trunc(self.y as int, s as int),
            r.z == div_trunc(self.z as int, s as int),
    {
        Vector3f { x: self.x / s, y: self.y / s, z: self.z / s }
    }
}

impl Default for Vector3f {
    fn default() -> (r: Vector3f)
        ensures
            r == (Vector3f { x: 0, y: 0, z: 0 }),
    {
        Vector3f { x: 0, y: 0, z: 0 }
    }
}

impl core::convert::From<crate::point::Point3f> for Vector3f {
    /// Reads a position as the displacement from the origin with the same
    /// coordinates.
    fn from(p: crate::point::Point3f) -> (r: Vector3f) {
        Vector3f { x: p.x, y: p.y, z: p.z }
    }
}

impl vstd::std_specs::convert::FromSpecImpl<crate::point::Point3f> for Vector3f {
    open spec fn obeys_from_spec() -> bool {
        true
    }

    open spec fn from_spec(p: crate::point::Point3f) -> Vector3f {
        Vector3f { x: p.x, y: p.y, z: p.z }
    }
}

/// Builds two further axes from `v1`: `v2` is a vector perpendicular to `v1`
/// in the dominant plane, divided componentwise by the rounded length of its
/// unscaled form, and `v3` completes the triple as `v1` cross `v2`.
pub fn vec3_coordinate_system(v1: &Vector3f, v2: &mut Vector3f, v3: &mut Vector3f)
    requires
        fits_scalar(-v1.x),
        fits_scalar(-v1.y),
        fits_scalar(-v1.z),
        fits_scalar(v1.x * v1.x + v1.z * v1.z),
        v1.x * v1.x + v1.z * v1.z > 0,
        fits_scalar(v1.cross_spec(coordinate_system_second(*v1)).0),
        fits_scalar(v1.cross_spec(coordinate_system_second(*v1)).1),
        fits_scalar(v1.cross_spec(coordinate_system_second(*v1)).2),
    ensures
        *final(v2) == coordinate_system_second(*v1),
        final(v3).x == v1.cross_spec(*final(v2)).0,
        final(v3).y == v1.cross_spec(*final(v2)).1,
        final(v3).z == v1.cross_spec(*final(v2)).2,
{
    let raw = if abs_scalar(v1.x) > abs_scalar(v1.y) {
        Vector3f { x: -v1.z, y: 0, z: v1.x }
    } else {
        Vector3f { x: 0, y: v1.z, z: -v1.y }
    };
    let xx = mul_wide(v1.x, v1.x);
    let zz = mul_wide(v1.z, v1.z);
    proof {
        lemma_square_nonneg(v1.x as int);
        lemma_square_nonneg(v1.z as int);
    }
    let len = isqrt((xx + zz) as i64);
    proof {
        if len == 0 {
            assert((len + 1) * (len + 1) == 1) by (nonlinear_arith)
                requires
                    len == 0,
            ;
        }
        lemma_div_trunc_fits(raw.x as int, len as int);
        lemma_div_trunc_fits(raw.y as int, len as int);
        lemma_div_trunc_fits(raw.z as int, len as int);
    }
    *v2 = raw.div_scalar(len);
    *v3 = v1.cross(v2);
}

/// The second axis that `vec3_coordinate_system` produces: a perpendicular
/// of `v1` divided componentwise by the rounded length of the x–z slice.
pub open spec fn coordinate_system_second(v1: Vector3f) -> Vector3f {
    let l = sqrt_floor((v1.x * v1.x + v1.z * v1.z) as nat) as int;
    if vstd::math::abs(v1.x as int) > vstd::math::abs(v1.y as int) {
        Vector3f {
            x: div_trunc(-v1.z as int, l) as i64,
            y: 0,
            z: div_trunc(v1.x as int, l) as i64,
        }
    } else {
        Vector3f {
            x: 0,
            y: div_trunc(v1.z as int, l) as i64,
            z: div_trunc(-v1.y as int, l) as i64,
        }
    }
}

/// The absolute value of a scalar, saturating nowhere: the minimum scalar is
/// ruled out by the callers' contracts.
fn abs_scalar(v: Scalar) -> (r: Scalar)
    requires
        fits_scalar(-v),
    ensures
        r == vstd::math::abs(v as int),
{
    if v < 0 {
        -v
    } else {
        v
    }
}

} // verus!
