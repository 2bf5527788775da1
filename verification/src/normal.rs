//! Surface-normal value type: algebraically a 3D vector, kept distinct so a
//! normal is never mistaken for a general displacement. Conversion to and
//! from `Vector3f` is explicit.

use crate::scalar::{
    div_trunc, fits_scalar, isqrt, lemma_div_trunc_fits, lemma_scalar_product_bounds,
    lemma_square_nonneg, mul_wide, sqrt_floor, Scalar,
};
use crate::vector::Vector3f;
use vstd::prelude::*;

verus! {

/// A surface orientation in 3D.
#[derive(Debug, Clone, Copy, PartialEq, Eq, Structural)]
pub struct Normal3f {
    pub x: Scalar,
    pub y: Scalar,
    pub z: Scalar,
}

impl Normal3f {
    /// The dot product, as a mathematical integer.
    pub open spec fn dot_spec(self, v: Normal3f) -> int {
        self.x * v.x + self.y * v.y + self.z * v.z
    }

    /// The squared Euclidean length, as a mathematical integer.
    pub open spec fn length_squared_spec(self) -> int {
        self.dot_spec(self)
    }

    /// The dot product of the componentwise absolute values.
    pub open spec fn abs_dot_spec(self, v: Normal3f) -> int {
        (vstd::math::abs(self.x as int) * vstd::math::abs(v.x as int) + vstd::math::abs(
            self.y as int,
        ) * vstd::math::abs(v.y as int) + vstd::math::abs(self.z as int) * vstd::math::abs(
            v.z as int,
        )) as int
    }

    /// `self` negated componentwise.
    pub open spec fn neg_spec(self) -> Normal3f {
        Normal3f { x: (-self.x) as i64, y: (-self.y) as i64, z: (-self.z) as i64 }
    }

    pub fn new(x: Scalar, y: Scalar, z: Scalar) -> (r: Normal3f)
        ensures
            r == (Normal3f { x, y, z }),
    {
        Normal3f { x, y, z }
    }

    /// Exact scalars admit no not-a-number value, so the check — kept for
    /// interface parity — always reports false.
    pub fn has_nans(&self) -> (r: bool)
        ensures
            !r,
    {
        false
    }

    pub fn length_squared(&self) -> (r: Scalar)
        requires
            fits_scalar(self.length_squared_spec()),
        ensures
            r == self.length_squared_spec(),
    {
        let xx = mul_wide(self.x, self.x);
        let yy = mul_wide(self.y, self.y);
        let zz = mul_wide(self.z, self.z);
        proof {
            lemma_square_nonneg(self.x as int);
            lemma_square_nonneg(self.y as int);
            lemma_square_nonneg(self.z as int);
        }
        (xx + yy + zz) as i64
    }

    /// The Euclidean length rounded down to an integer.
    pub fn length(&self) -> (r: Scalar)
        requires
            fits_scalar(self.length_squared_spec()),
        ensures
            r == sqrt_floor(self.length_squared_spec() as nat),
    {
        proof {
            lemma_square_nonneg(self.x as int);
            lemma_square_nonneg(self.y as int);
            lemma_square_nonneg(self.z as int);
        }
        let sq = self.length_squared();
        isqrt(sq)
    }

    pub fn dot(&self, v: &Normal3f) -> (r: Scalar)
        requires
            fits_scalar(self.dot_spec(*v)),
        ensures
            r == self.dot_spec(*v),
    {
        let a = mul_wide(self.x, v.x);
        let b = mul_wide(self.y, v.y);
        let c = mul_wide(self.z, v.z);
        proof {
            lemma_scalar_product_bounds(self.x as int, v.x as int);
            lemma_scalar_product_bounds(self.y as int, v.y as int);
            lemma_scalar_product_bounds(self.z as int, v.z as int);
        }
        (a + b + c) as i64
    }

    /// The dot product of the componentwise absolute values.
    pub fn abs_dot(&self, v: &Normal3f) -> (r: Scalar)
        requires
            fits_scalar(-self.x),
            fits_scalar(-self.y),
            fits_scalar(-self.z),
            fits_scalar(-v.x),
            fits_scalar(-v.y),
            fits_scalar(-v.z),
            fits_scalar(self.abs_dot_spec(*v)),
        ensures
            r == self.abs_dot_spec(*v),
    {
        let ax = abs_scalar(self.x);
        let ay = abs_scalar(self.y);
        let az = abs_scalar(self.z);
        let bx = abs_scalar(v.x);
        let by = abs_scalar(v.y);
        let bz = abs_scalar(v.z);
        let a = mul_wide(ax, bx);
        let b = mul_wide(ay, by);
        let c = mul_wide(az, bz);
        proof {
            lemma_product_nonneg(ax as int, bx as int);
            lemma_product_nonneg(ay as int, by as int);
            lemma_product_nonneg(az as int, bz as int);
        }
        (a + b + c) as i64
    }

    /// `self`, flipped if needed so that it points into the hemisphere of
    /// `v`.
    pub fn face_forward(&self, v: &Normal3f) -> (r: Normal3f)
        requires
            fits_scalar(self.dot_spec(*v)),
            self.dot_spec(*v) < 0 ==> fits_scalar(-self.x) && fits_scalar(-self.y) && fits_scalar(
                -self.z,
            ),
        ensures
            r == (if self.dot_spec(*v) < 0 {
                self.neg_spec()
            } else {
                *self
            }),
    {
        if self.dot(v) < 0 {
            Normal3f { x: -self.x, y: -self.y, z: -self.z }
        } else {
            *self
        }
    }

    pub fn abs(&self) -> (r: Normal3f)
        requires
            fits_scalar(-self.x),
            fits_scalar(-self.y),
            fits_scalar(-self.z),
        ensures
            r.x == vstd::math::abs(self.x as int),
            r.y == vstd::math::abs(self.y as int),
            r.z == vstd::math::abs(self.z as int),
    {
        Normal3f { x: abs_scalar(self.x), y: abs_scalar(self.y), z: abs_scalar(self.z) }
    }

    /// Componentwise division by the rounded length; exact contracts keep
    /// the rounding explicit.
    pub fn normalize(&self) -> (r: Normal3f)
        requires
            fits_scalar(self.length_squared_spec()),
            self.length_squared_spec() > 0,
        ensures
            r.x == div_trunc(self.x as int, sqrt_floor(self.length_squared_spec() as nat) as int),
            r.y == div_trunc(self.y as int, sqrt_floor(self.length_squared_spec() as nat) as int),
            r.z == div_trunc(self.z as int, sqrt_floor(self.length_squared_spec() as nat) as int),
    {
        let len = self.length();
        proof {
            if len == 0 {
                assert((len + 1) * (len + 1) == 1) by (nonlinear_arith)
                    requires
                        len == 0,
                ;
            }
            lemma_div_trunc_fits(self.x as int, len as int);
            lemma_div_trunc_fits(self.y as int, len as int);
            lemma_div_trunc_fits(self.z as int, len as int);
        }
        Normal3f { x: self.x / len, y: self.y / len, z: self.z / len }
    }

    pub fn add(&self, n: &Normal3f) -> (r: Normal3f)
        requires
            fits_scalar(self.x + n.x),
            fits_scalar(self.y + n.y),
            fits_scalar(self.z + n.z),
        ensures
            r.x == self.x + n.x,
            r.y == self.y + n.y,
            r.z == self.z + n.z,
    {
        Normal3f { x: self.x + n.x, y: self.y + n.y, z: self.z + n.z }
    }

    pub fn sub(&self, n: &Normal3f) -> (r: Normal3f)
        requires
            fits_scalar(self.x - n.x),
            fits_scalar(self.y - n.y),
            fits_scalar(self.z - n.z),
        ensures
            r.x == self.x - n.x,
            r.y == self.y - n.y,
            r.z == self.z - n.z,
    {
        Normal3f { x: self.x - n.x, y: self.y - n.y, z: self.z - n.z }
    }

    pub fn neg(&self) -> (r: Normal3f)
        requires
            fits_scalar(-self.x),
            fits_scalar(-self.y),
            fits_scalar(-self.z),
        ensures
            r == self.neg_spec(),
    {
        Normal3f { x: -self.x, y: -self.y, z: -self.z }
    }

    pub fn scale(&self, s: Scalar) -> (r: Normal3f)
        requires
            fits_scalar(self.x * s),
            fits_scalar(self.y * s),
            fits_scalar(self.z * s),
        ensures
            r.x == self.x * s,
            r.y == self.y * s,
            r.z == self.z * s,
    {
        Normal3f {
            x: mul_wide(self.x, s) as i64,
            y: mul_wide(self.y, s) as i64,
            z: mul_wide(self.z, s) as i64,
        }
    }

    /// Componentwise division, rounding toward zero as `/` does on scalars.
    pub fn div_scalar(&self, s: Scalar) -> (r: Normal3f)
        requires
            s != 0,
            fits_scalar(div_trunc(self.x as int, s as int)),
            fits_scalar(div_trunc(self.y as int, s as int)),
            fits_scalar(div_trunc(self.z as int, s as int)),
        ensures
            r.x == div_trunc(self.x as int, s as int),
            r.y == div_trunc(self.y as int, s as int),
            r.z == div_trunc(self.z as int, s as int),
    {
        Normal3f { x: self.x / s, y: self.y / s, z: self.z / s }
    }

    /// The component on axis `i` (0 is x, 1 is y, 2 is z); any other axis is
    /// a calling-code bug and is ruled out.
    pub fn index(&self, i: usize) -> (r: Scalar)
        requires
            i < 3,
        ensures
            r == (if i == 0 {
                self.x
            } else if i == 1 {
                self.y
            } else {
                self.z
            }),
    {
        if i == 0 {
            self.x
        } else if i == 1 {
            self.y
        } else {
            self.z
        }
    }
}

impl Default for Normal3f {
    fn default() -> (r: Normal3f)
        ensures
            r == (Normal3f { x: 0, y: 0, z: 0 }),
    {
        Normal3f { x: 0, y: 0, z: 0 }
    }
}

impl core::convert::From<Vector3f> for Normal3f {
    /// Reads a displacement as a surface orientation with the same
    /// components.
    fn from(v: Vector3f) -> (r: Normal3f) {
        Normal3f { x: v.x, y: v.y, z: v.z }
    }
}

impl vstd::std_specs::convert::FromSpecImpl<Vector3f> for Normal3f {
    open spec fn obeys_from_spec() -> bool {
        true
    }

    open spec fn from_spec(v: Vector3f) -> Normal3f {
        Normal3f { x: v.x, y: v.y, z: v.z }
    }
}

impl core::convert::From<Normal3f> for Vector3f {
    /// Reads a surface orientation as a plain displacement.
    fn from(n: Normal3f) -> (r: Vector3f) {
        Vector3f { x: n.x, y: n.y, z: n.z }
    }
}

impl vstd::std_specs::convert::FromSpecImpl<Normal3f> for Vector3f {
    open spec fn obeys_from_spec() -> bool {
        true
    }

    open spec fn from_spec(n: Normal3f) -> Vector3f {
        Vector3f { x: n.x, y: n.y, z: n.z }
    }
}

/// The product of two nonnegative integers is nonnegative and bounded by the
/// square of the scalar range.
proof fn lemma_product_nonneg(a: int, b: int)
    requires
        0 <= a <= i64::MAX,
        0 <= b <= i64::MAX,
    ensures
        0 <= a * b <= 0x40000000000000000000000000000000,
{
    assert(0 <= a * b <= 0x40000000000000000000000000000000) by (nonlinear_arith)
        requires
            0 <= a <= 0x7fffffffffffffff,
            0 <= b <= 0x7fffffffffffffff,
    ;
}

/// The absolute value of a scalar; the minimum scalar is ruled out by the
/// callers' contracts.
fn abs_scalar(v: Scalar) -> (r: Scalar)
    requires
        fits_scalar(-v),
    ensures
        r == vstd::math::abs(v as int),
{
    if v < 0 {
        -v
    } else {
        v
    }
}

} // verus!
