//! The scalar type and the arithmetic primitives shared by every geometric
//! type: linear interpolation, truncating division, and the integer square
//! root that stands behind lengths and distances.

use vstd::arithmetic::div_mod::{lemma_div_multiples_vanish, lemma_fundamental_div_mod_converse};
use vstd::prelude::*;

verus! {

/// The one scalar type used throughout the library: an exact signed machine
/// integer. Componentwise arithmetic, the bounding-region algebra and the
/// slab intersection test are all stated and proved exactly over it.
pub type Scalar = i64;

/// Whether a mathematical integer is representable as a `Scalar`.
pub open spec fn fits_scalar(x: int) -> bool {
    i64::MIN <= x <= i64::MAX
}

/// The smaller of two scalars.
pub open spec fn min_scalar(a: Scalar, b: Scalar) -> Scalar {
    if a <= b {
        a
    } else {
        b
    }
}

/// The larger of two scalars.
pub open spec fn max_scalar(a: Scalar, b: Scalar) -> Scalar {
    if a >= b {
        a
    } else {
        b
    }
}

/// Division rounding toward zero: the meaning of `/` on `Scalar` values.
pub open spec fn div_trunc(a: int, b: int) -> int {
    if a >= 0 {
        a / b
    } else {
        -((-a) / b)
    }
}

/// Dividing an exact multiple of a positive divisor recovers the factor.
pub proof fn lemma_div_trunc_mul_cancel(t: int, d: int)
    requires
        d > 0,
    ensures
        div_trunc(t * d, d) == t,
{
    if t >= 0 {
        assert(t * d >= 0) by (nonlinear_arith)
            requires
                t >= 0,
                d > 0,
        ;
        lemma_div_multiples_vanish(t, d);
        assert(d * t == t * d) by (nonlinear_arith);
    } else {
        assert(t * d < 0) by (nonlinear_arith)
            requires
                t < 0,
                d > 0,
        ;
        assert(-(t * d) == (-t) * d) by (nonlinear_arith);
        lemma_div_multiples_vanish(-t, d);
        assert(d * (-t) == (-t) * d) by (nonlinear_arith);
    }
}

/// Linear interpolation between `v1` (at `t == 0`) and `v2` (at `t == 1`),
/// exact for every integer parameter.
pub fn lerp(t: Scalar, v1: Scalar, v2: Scalar) -> (r: Scalar)
    requires
        fits_scalar(v1 + t * (v2 - v1)),
    ensures
        r == v1 + t * (v2 - v1),
        r == (1 - t) * v1 + t * v2,
{
    proof {
        assert((1 - t) * v1 + t * v2 == v1 + t * (v2 - v1)) by (nonlinear_arith);
        assert(-0x10000000000000000 <= t * (v2 - v1) <= 0x10000000000000000);
    }
    let delta: i128 = v2 as i128 - v1 as i128;
    let scaled: i128 = t as i128 * delta;
    (v1 as i128 + scaled) as i64
}

/// A square is never negative.
pub proof fn lemma_square_nonneg(a: int)
    ensures
        a * a >= 0,
{
    assert(a * a >= 0) by (nonlinear_arith);
}

/// The product of two scalars never overflows a 128-bit intermediate.
pub proof fn lemma_scalar_product_bounds(a: int, b: int)
    by (nonlinear_arith)
    requires
        fits_scalar(a),
        fits_scalar(b),
    ensures
        -0x40000000000000000000000000000000 <= a * b
            <= 0x40000000000000000000000000000000,
{
}

/// Widening multiplication: the exact product of two scalars.
pub fn mul_wide(a: Scalar, b: Scalar) -> (r: i128)
    ensures
        r == a * b,
{
    proof {
        lemma_scalar_product_bounds(a as int, b as int);
    }
    a as i128 * b as i128
}

/// The integer square root of `n`: the largest natural number whose square
/// does not exceed `n`.
pub open spec fn sqrt_floor(n: nat) -> nat
    decreases n,
{
    if n == 0 {
        0
    } else {
        let r = sqrt_floor((n - 1) as nat);
        if (r + 1) * (r + 1) <= n {
            r + 1
        } else {
            r
        }
    }
}

/// `sqrt_floor(n)` squares to at most `n`, and the next number squares past
/// it.
pub proof fn lemma_sqrt_floor_bounds(n: nat)
    ensures
        sqrt_floor(n) * sqrt_floor(n) <= n,
        n < (sqrt_floor(n) + 1) * (sqrt_floor(n) + 1),
    decreases n,
{
    if n > 0 {
        lemma_sqrt_floor_bounds((n - 1) as nat);
        let r = sqrt_floor((n - 1) as nat);
        if (r + 1) * (r + 1) <= n {
            assert(sqrt_floor(n) == r + 1);
            assert(n == (r + 1) * (r + 1));
            let s = (r + 1) as nat;
            assert(n < (s + 1) * (s + 1)) by (nonlinear_arith)
                requires
                    n == s * s,
                    s >= 0,
            ;
        } else {
            assert(sqrt_floor(n) == r);
        }
    } else {
        assert(sqrt_floor(0) == 0);
        assert(0 < (0 + 1) * (0 + 1)) by (nonlinear_arith);
    }
}

/// The two bracketing inequalities determine the integer square root
/// uniquely.
pub proof fn lemma_sqrt_floor_unique(n: nat, r: nat)
    requires
        r * r <= n,
        n < (r + 1) * (r + 1),
    ensures
        r == sqrt_floor(n),
{
    let s = sqrt_floor(n);
    lemma_sqrt_floor_bounds(n);
    if r < s {
        assert((r + 1) * (r + 1) <= s * s) by (nonlinear_arith)
            requires
                r + 1 <= s,
                r >= 0,
        ;
    }
    if s < r {
        assert((s + 1) * (s + 1) <= r * r) by (nonlinear_arith)
            requires
                s + 1 <= r,
                s >= 0,
        ;
    }
}

/// The integer square root: the largest scalar whose square does not exceed
/// `n`.
pub fn isqrt(n: Scalar) -> (r: Scalar)
    requires
        n >= 0,
    ensures
        r == sqrt_floor(n as nat),
        r * r <= n,
        n < (r + 1) * (r + 1),
{
    let mut lo: i64 = 0;
    let mut hi: i64 = 3037000500;
    proof {
        assert(n < 3037000500i64 * 3037000500i64);
    }
    while lo + 1 < hi
        invariant
            0 <= lo < hi <= 3037000500,
            lo * lo <= n,
            n < hi * hi,
        decreases hi - lo,
    {
        let mid: i64 = lo + (hi - lo) / 2;
        proof {
            assert(mid * mid <= 3037000499i64 * 3037000499i64) by (nonlinear_arith)
                requires
                    0 <= mid <= 3037000499,
            ;
        }
        if mid * mid <= n {
            lo = mid;
        } else {
            hi = mid;
        }
    }
    proof {
        lemma_sqrt_floor_unique(n as nat, lo as nat);
    }
    lo
}

/// The midpoint of two scalars, rounded down. Rounding down (rather than
/// toward zero) keeps the maximum corner a farthest corner of its bounds on
/// every axis, which the bounding-sphere enclosure rests on; the widened
/// intermediate makes the function total.
pub fn mid_floor(a: Scalar, b: Scalar) -> (r: Scalar)
    ensures
        r == (a + b) / 2,
{
    let s: i128 = a as i128 + b as i128;
    let q: i128 = if s >= 0 {
        s / 2
    } else {
        (s - 1) / 2
    };
    proof {
        if s < 0 {
            let u = (1 - s) / 2;
            lemma_fundamental_div_mod_converse(1 - s, 2, u, (1 - s) % 2);
            lemma_fundamental_div_mod_converse(s as int, 2, -u, 1 - ((1 - s) % 2));
        }
    }
    q as i64
}

/// Any value of a closed interval lies within the rounded-down midpoint's
/// distance to the upper end: the midpoint sits in the interval, and the
/// upper end is a farthest point of it.
pub proof fn lemma_mid_floor_axis(lo: int, hi: int, q: int)
    requires
        lo <= q <= hi,
    ensures
        lo <= (lo + hi) / 2 <= hi,
        ((lo + hi) / 2 - q) * ((lo + hi) / 2 - q) <= ((lo + hi) / 2 - hi) * ((lo + hi) / 2 - hi),
{
    let c = (lo + hi) / 2;
    assert(lo + hi == 2 * c + (lo + hi) % 2 && 0 <= (lo + hi) % 2 < 2) by {
        vstd::arithmetic::div_mod::lemma_fundamental_div_mod(lo + hi, 2);
        vstd::arithmetic::div_mod::lemma_mod_bound(lo + hi, 2);
    }
    assert((c - q) * (c - q) <= (c - hi) * (c - hi)) by (nonlinear_arith)
        requires
            c - hi <= c - q <= hi - c,
            hi - c >= 0,
    ;
}

/// The integer square root never decreases.
pub proof fn lemma_sqrt_floor_monotone(m: nat, n: nat)
    requires
        m <= n,
    ensures
        sqrt_floor(m) <= sqrt_floor(n),
{
    let r1 = sqrt_floor(m);
    let r2 = sqrt_floor(n);
    lemma_sqrt_floor_bounds(m);
    lemma_sqrt_floor_bounds(n);
    if r2 < r1 {
        assert((r2 + 1) * (r2 + 1) <= r1 * r1) by (nonlinear_arith)
            requires
                r2 + 1 <= r1,
                r2 >= 0,
        ;
    }
}

/// A quotient by a positive divisor is no larger in magnitude than the
/// dividend, so it stays representable.
pub proof fn lemma_div_trunc_fits(a: int, b: int)
    requires
        b >= 1,
        fits_scalar(a),
    ensures
        fits_scalar(div_trunc(a, b)),
        a >= 0 ==> 0 <= div_trunc(a, b) <= a,
        a < 0 ==> a <= div_trunc(a, b) <= 0,
{
    if a >= 0 {
        assert(0 <= a / b <= a) by (nonlinear_arith)
            requires
                a >= 0,
                b >= 1,
        ;
    } else {
        assert(0 <= (-a) / b <= -a) by (nonlinear_arith)
            requires
                -a > 0,
                b >= 1,
        ;
    }
}

} // verus!
