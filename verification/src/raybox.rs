//! The slab-method ray/box intersection test, exact over rational
//! parameters.
//!
//! A ray parameter is a fraction with a positive denominator (`Frac`). The
//! test clips the running parameter interval against each axis's pair of
//! bounding planes in turn, comparing fractions by widened
//! cross-multiplication, and reports a hit exactly when some rational
//! parameter within the ray's valid range lands inside the box — the
//! property `ray_hits_bounds` that both entry points are proved to decide.

use crate::bounds3::Bounds3f;
use crate::point::Point3f;
use crate::ray::Ray;
use crate::scalar::{fits_scalar, mul_wide, Scalar};
use crate::vector::Vector3f;
use vstd::prelude::*;

verus! {

/// A ray parameter as an exact fraction. Well-formed values keep the
/// denominator positive, so comparisons reduce to cross-multiplication.
#[derive(Debug, Clone, Copy, PartialEq, Eq, Structural)]
pub struct Frac {
    pub num: Scalar,
    pub den: Scalar,
}

/// Whether `an / ad` is at most `bn / bd`, for positive denominators,
/// written without division.
pub open spec fn frac_le(an: int, ad: int, bn: int, bd: int) -> bool {
    an * bd <= bn * ad
}

/// Whether the fraction `tn / td` lies in the closed interval `[t0, t1]`.
pub open spec fn in_interval(t0: Frac, t1: Frac, tn: int, td: int) -> bool {
    frac_le(t0.num as int, t0.den as int, tn, td) && frac_le(tn, td, t1.num as int, t1.den as int)
}

/// Whether the ray point at parameter `tn / td` lies between the two planes
/// of one axis: `lo <= o + d * (tn/td) <= hi`, multiplied through by the
/// positive `td`.
pub open spec fn slab_at(lo: int, hi: int, o: int, d: int, tn: int, td: int) -> bool {
    lo * td <= o * td + d * tn && o * td + d * tn <= hi * td
}

/// Whether the ray `o + t * d`, at the rational parameter `t = tn / td`,
/// lies inside `b` and within the valid range `[0, t_max]`.
pub open spec fn hit_at(b: Bounds3f, o: Point3f, d: Vector3f, t_max: int, tn: int, td: int)
    -> bool {
    &&& td > 0
    &&& 0 <= tn
    &&& tn <= t_max * td
    &&& slab_at(b.p_min.x as int, b.p_max.x as int, o.x as int, d.x as int, tn, td)
    &&& slab_at(b.p_min.y as int, b.p_max.y as int, o.y as int, d.y as int, tn, td)
    &&& slab_at(b.p_min.z as int, b.p_max.z as int, o.z as int, d.z as int, tn, td)
}

/// Whether the ray from `o` along `d`, restricted to parameters in
/// `[0, t_max]`, passes through `b` — the exact property the slab test
/// decides.
pub open spec fn ray_hits_bounds(b: Bounds3f, o: Point3f, d: Vector3f, t_max: int) -> bool {
    exists|tn: int, td: int| #[trigger] hit_at(b, o, d, t_max, tn, td)
}

/// Whether one axis's plane offsets and direction stay representable, so
/// that the clipping arithmetic on that axis is exact.
pub open spec fn axis_exact(lo: int, hi: int, o: int, d: int) -> bool {
    fits_scalar(lo - o) && fits_scalar(o - lo) && fits_scalar(hi - o) && fits_scalar(o - hi)
        && fits_scalar(-d)
}

impl Frac {
    /// A positive denominator, under which the fraction orders by
    /// cross-multiplication.
    pub open spec fn wf(self) -> bool {
        self.den > 0
    }

    /// The whole number `v` as a fraction.
    pub fn from_int(v: Scalar) -> (r: Frac)
        ensures
            r == (Frac { num: v, den: 1 }),
    {
        Frac { num: v, den: 1 }
    }

    /// Cross-multiplied comparison, exact through widening.
    pub fn le(&self, o: &Frac) -> (r: bool)
        ensures
            r == frac_le(self.num as int, self.den as int, o.num as int, o.den as int),
    {
        mul_wide(self.num, o.den) <= mul_wide(o.num, self.den)
    }
}

/// Ordering of fractions with positive denominators is transitive.
proof fn lemma_frac_le_trans(an: int, ad: int, bn: int, bd: int, cn: int, cd: int)
    by (nonlinear_arith)
    requires
        ad > 0,
        bd > 0,
        cd > 0,
        frac_le(an, ad, bn, bd),
        frac_le(bn, bd, cn, cd),
    ensures
        frac_le(an, ad, cn, cd),
{
}

/// A weak bound followed by a strict one stays strict.
proof fn lemma_frac_le_lt_trans(an: int, ad: int, bn: int, bd: int, cn: int, cd: int)
    by (nonlinear_arith)
    requires
        ad > 0,
        bd > 0,
        cd > 0,
        an * bd <= bn * ad,
        bn * cd < cn * bd,
    ensures
        an * cd < cn * ad,
{
}

/// A strict bound followed by a weak one stays strict.
proof fn lemma_frac_lt_le_trans(an: int, ad: int, bn: int, bd: int, cn: int, cd: int)
    by (nonlinear_arith)
    requires
        ad > 0,
        bd > 0,
        cd > 0,
        an * bd < bn * ad,
        bn * cd <= cn * bd,
    ensures
        an * cd < cn * ad,
{
}

/// The later of two fractions bounds a third from below exactly when both
/// do.
proof fn lemma_max_lower(a: Frac, c: Frac, m: Frac, tn: int, td: int)
    requires
        a.wf(),
        c.wf(),
        td > 0,
        m == (if frac_le(a.num as int, a.den as int, c.num as int, c.den as int) {
            c
        } else {
            a
        }),
    ensures
        frac_le(m.num as int, m.den as int, tn, td) <==> (frac_le(a.num as int, a.den as int, tn, td)
            && frac_le(c.num as int, c.den as int, tn, td)),
{
    if frac_le(a.num as int, a.den as int, c.num as int, c.den as int) {
        if frac_le(c.num as int, c.den as int, tn, td) {
            lemma_frac_le_trans(a.num as int, a.den as int, c.num as int, c.den as int, tn, td);
        }
    } else {
        if frac_le(a.num as int, a.den as int, tn, td) {
            lemma_frac_le_trans(c.num as int, c.den as int, a.num as int, a.den as int, tn, td);
        }
    }
}

/// The earlier of two fractions bounds a third from above exactly when both
/// do.
proof fn lemma_min_upper(a: Frac, c: Frac, m: Frac, tn: int, td: int)
    requires
        a.wf(),
        c.wf(),
        td > 0,
        m == (if frac_le(c.num as int, c.den as int, a.num as int, a.den as int) {
            c
        } else {
            a
        }),
    ensures
        frac_le(tn, td, m.num as int, m.den as int) <==> (frac_le(tn, td, a.num as int, a.den as int)
            && frac_le(tn, td, c.num as int, c.den as int)),
{
    if frac_le(c.num as int, c.den as int, a.num as int, a.den as int) {
        if frac_le(tn, td, c.num as int, c.den as int) {
            lemma_frac_le_trans(tn, td, c.num as int, c.den as int, a.num as int, a.den as int);
        }
    } else {
        if frac_le(tn, td, a.num as int, a.den as int) {
            lemma_frac_le_trans(tn, td, a.num as int, a.den as int, c.num as int, c.den as int);
        }
    }
}

/// With a positive direction component, the slab constraint is the pair of
/// fractional bounds `(lo - o) / d <= t` and `t <= (hi - o) / d`.
proof fn lemma_slab_frac_pos(lo: int, hi: int, o: int, d: int, tn: int, td: int)
    by (nonlinear_arith)
    ensures
        slab_at(lo, hi, o, d, tn, td) <==> (frac_le(lo - o, d, tn, td) && frac_le(
            tn,
            td,
            hi - o,
            d,
        )),
{
}

/// With a negative direction component, the far plane bounds the parameter
/// from below and the near plane from above, both over the positive
/// denominator `-d`.
proof fn lemma_slab_frac_neg(lo: int, hi: int, o: int, d: int, tn: int, td: int)
    by (nonlinear_arith)
    ensures
        slab_at(lo, hi, o, d, tn, td) <==> (frac_le(o - hi, -d, tn, td) && frac_le(
            tn,
            td,
            o - lo,
            -d,
        )),
{
}

/// A ray parallel to an axis's planes satisfies that slab constraint for
/// every parameter when its origin lies between the planes, and for none
/// when it does not.
proof fn lemma_slab_const(lo: int, hi: int, o: int, tn: int, td: int)
    by (nonlinear_arith)
    requires
        td > 0,
    ensures
        slab_at(lo, hi, o, 0, tn, td) <==> (lo <= o <= hi),
{
}

/// The interval from 1 down to 0 is empty.
proof fn lemma_empty_interval(tn: int, td: int)
    by (nonlinear_arith)
    requires
        td > 0,
    ensures
        !in_interval((Frac { num: 1, den: 1 }), (Frac { num: 0, den: 1 }), tn, td),
{
}

/// The first plane the ray meets on this axis, and the second: with a
/// negative direction component the roles of the two planes swap.
pub open spec fn slab_lo(near_p: Scalar, far_p: Scalar, neg: bool) -> Scalar {
    if neg {
        far_p
    } else {
        near_p
    }
}

/// The plane the ray leaves through on this axis.
pub open spec fn slab_hi(near_p: Scalar, far_p: Scalar, neg: bool) -> Scalar {
    if neg {
        near_p
    } else {
        far_p
    }
}

/// Clips the running parameter interval `[t0, t1]` against one axis: the
/// interval afterwards holds exactly the parameters it held before that
/// also satisfy the axis's slab constraint.
fn clip_axis(near_p: Scalar, far_p: Scalar, o: Scalar, d: Scalar, neg: bool, t0: &mut Frac, t1: &mut Frac)
    requires
        old(t0).wf(),
        old(t1).wf(),
        neg == (d < 0),
        fits_scalar(-d),
        fits_scalar(near_p - o),
        fits_scalar(o - near_p),
        fits_scalar(far_p - o),
        fits_scalar(o - far_p),
    ensures
        final(t0).wf(),
        final(t1).wf(),
        forall|tn: int, td: int|
            td > 0 ==> (#[trigger] in_interval(*final(t0), *final(t1), tn, td) <==> (in_interval(
                *old(t0),
                *old(t1),
                tn,
                td,
            ) && slab_at(
                slab_lo(near_p, far_p, neg) as int,
                slab_hi(near_p, far_p, neg) as int,
                o as int,
                d as int,
                tn,
                td,
            ))),
{
    let ghost g0 = *t0;
    let ghost g1 = *t1;
    let ghost lo = slab_lo(near_p, far_p, neg) as int;
    let ghost hi = slab_hi(near_p, far_p, neg) as int;
    if d == 0 {
        if o < near_p || o > far_p {
            *t0 = Frac { num: 1, den: 1 };
            *t1 = Frac { num: 0, den: 1 };
            proof {
                assert forall|tn: int, td: int| td > 0 implies (#[trigger] in_interval(
                    *t0,
                    *t1,
                    tn,
                    td,
                ) <==> (in_interval(g0, g1, tn, td) && slab_at(
                    lo,
                    hi,
                    o as int,
                    d as int,
                    tn,
                    td,
                ))) by {
                    lemma_empty_interval(tn, td);
                    lemma_slab_const(lo, hi, o as int, tn, td);
                }
            }
        } else {
            proof {
                assert forall|tn: int, td: int| td > 0 implies (#[trigger] in_interval(
                    *t0,
                    *t1,
                    tn,
                    td,
                ) <==> (in_interval(g0, g1, tn, td) && slab_at(
                    lo,
                    hi,
                    o as int,
                    d as int,
                    tn,
                    td,
                ))) by {
                    lemma_slab_const(lo, hi, o as int, tn, td);
                }
            }
        }
    } else {
        let den: Scalar = if neg {
            -d
        } else {
            d
        };
        let near = Frac {
            num: if neg {
                o - near_p
            } else {
                near_p - o
            },
            den,
        };
        let far = Frac {
            num: if neg {
                o - far_p
            } else {
                far_p - o
            },
            den,
        };
        if t0.le(&near) {
            *t0 = near;
        }
        if far.le(&t1) {
            *t1 = far;
        }
        proof {
            assert forall|tn: int, td: int| td > 0 implies (#[trigger] in_interval(
                *t0,
                *t1,
                tn,
                td,
            ) <==> (in_interval(g0, g1, tn, td) && slab_at(
                lo,
                hi,
                o as int,
                d as int,
                tn,
                td,
            ))) by {
                lemma_max_lower(g0, near, *t0, tn, td);
                lemma_min_upper(g1, far, *t1, tn, td);
                if neg {
                    lemma_slab_frac_neg(lo, hi, o as int, d as int, tn, td);
                } else {
                    lemma_slab_frac_pos(lo, hi, o as int, d as int, tn, td);
                }
            }
        }
    }
}

/// Once the interval holds exactly the parameters of `hit_at`, the hit
/// decision is the comparison of its endpoints, and on a hit both endpoints
/// are themselves hit parameters.
proof fn lemma_hit_decision(b: Bounds3f, o: Point3f, d: Vector3f, t_max: int, t0: Frac, t1: Frac)
    requires
        t0.wf(),
        t1.wf(),
        forall|tn: int, td: int|
            td > 0 ==> (#[trigger] in_interval(t0, t1, tn, td) <==> hit_at(b, o, d, t_max, tn, td)),
    ensures
        ray_hits_bounds(b, o, d, t_max) == frac_le(
            t0.num as int,
            t0.den as int,
            t1.num as int,
            t1.den as int,
        ),
        frac_le(t0.num as int, t0.den as int, t1.num as int, t1.den as int) ==> hit_at(
            b,
            o,
            d,
            t_max,
            t0.num as int,
            t0.den as int,
        ) && hit_at(b, o, d, t_max, t1.num as int, t1.den as int),
{
    if frac_le(t0.num as int, t0.den as int, t1.num as int, t1.den as int) {
        assert(in_interval(t0, t1, t0.num as int, t0.den as int));
        assert(in_interval(t0, t1, t1.num as int, t1.den as int));
        assert(hit_at(b, o, d, t_max, t0.num as int, t0.den as int));
        assert(ray_hits_bounds(b, o, d, t_max));
    } else {
        assert forall|tn: int, td: int| !(#[trigger] hit_at(b, o, d, t_max, tn, td)) by {
            if hit_at(b, o, d, t_max, tn, td) {
                assert(in_interval(t0, t1, tn, td));
                lemma_frac_le_trans(
                    t0.num as int,
                    t0.den as int,
                    tn,
                    td,
                    t1.num as int,
                    t1.den as int,
                );
            }
        }
        assert(!ray_hits_bounds(b, o, d, t_max));
    }
}

/// The parameter range `[0, t_max]` as an interval of fractions.
proof fn lemma_initial_interval(t_max: Scalar)
    ensures
        forall|tn: int, td: int|
            td > 0 ==> (#[trigger] in_interval(
                (Frac { num: 0, den: 1 }),
                (Frac { num: t_max, den: 1 }),
                tn,
                td,
            ) <==> (0 <= tn && tn <= t_max * td)),
{
    assert forall|tn: int, td: int| td > 0 implies (#[trigger] in_interval(
        (Frac { num: 0, den: 1 }),
        (Frac { num: t_max, den: 1 }),
        tn,
        td,
    ) <==> (0 <= tn && tn <= t_max * td)) by {
        assert(0 * td == 0) by (nonlinear_arith);
        assert(tn * 1 == tn) by (nonlinear_arith);
    }
}

impl Bounds3f {
    /// The slab test with entry and exit parameters: reports whether the
    /// ray, within `[0, ray.t_max]`, passes through `self`, and on a hit
    /// writes the exact parameter interval of the overlap into `hitt0` and
    /// `hitt1`. On a miss both are left untouched.
    pub fn intersect_b(&self, ray: &Ray, hitt0: &mut Frac, hitt1: &mut Frac) -> (hit: bool)
        requires
            axis_exact(self.p_min.x as int, self.p_max.x as int, ray.o.x as int, ray.d.x as int),
            axis_exact(self.p_min.y as int, self.p_max.y as int, ray.o.y as int, ray.d.y as int),
            axis_exact(self.p_min.z as int, self.p_max.z as int, ray.o.z as int, ray.d.z as int),
        ensures
            hit == ray_hits_bounds(*self, ray.o, ray.d, ray.t_max as int),
            !hit ==> *final(hitt0) == *old(hitt0) && *final(hitt1) == *old(hitt1),
            hit ==> final(hitt0).wf() && final(hitt1).wf(),
            hit ==> hit_at(
                *self,
                ray.o,
                ray.d,
                ray.t_max as int,
                final(hitt0).num as int,
                final(hitt0).den as int,
            ),
            hit ==> hit_at(
                *self,
                ray.o,
                ray.d,
                ray.t_max as int,
                final(hitt1).num as int,
                final(hitt1).den as int,
            ),
            hit ==> forall|tn: int, td: int|
                td > 0 ==> (#[trigger] in_interval(*final(hitt0), *final(hitt1), tn, td) <==> hit_at(
                    *self,
                    ray.o,
                    ray.d,
                    ray.t_max as int,
                    tn,
                    td,
                )),
    {
        let (hit, t0, t1) = self.slab_interval(ray);
        if hit {
            *hitt0 = t0;
            *hitt1 = t1;
        }
        hit
    }

    /// The cheap-rejection form of the slab test, for traversal loops that
    /// precompute each ray's per-axis sign flags once: reports only whether
    /// the ray, within `[0, ray.t_max]`, passes through `self`.
    pub fn intersect_p(&self, ray: &Ray, dir_is_neg: &[u8; 3]) -> (hit: bool)
        requires
            axis_exact(self.p_min.x as int, self.p_max.x as int, ray.o.x as int, ray.d.x as int),
            axis_exact(self.p_min.y as int, self.p_max.y as int, ray.o.y as int, ray.d.y as int),
            axis_exact(self.p_min.z as int, self.p_max.z as int, ray.o.z as int, ray.d.z as int),
            dir_is_neg[0] == (if ray.d.x < 0 {
                1u8
            } else {
                0u8
            }),
            dir_is_neg[1] == (if ray.d.y < 0 {
                1u8
            } else {
                0u8
            }),
            dir_is_neg[2] == (if ray.d.z < 0 {
                1u8
            } else {
                0u8
            }),
        ensures
            hit == ray_hits_bounds(*self, ray.o, ray.d, ray.t_max as int),
    {
        let mut t0 = Frac { num: 0, den: 1 };
        let mut t1 = Frac { num: ray.t_max, den: 1 };
        let ghost a0 = t0;
        let ghost a1 = t1;
        proof {
            lemma_initial_interval(ray.t_max);
        }
        let nx = dir_is_neg[0];
        let near_x = self.index(nx as usize);
        let far_x = self.index(1 - nx as usize);
        clip_axis(near_x.x, far_x.x, ray.o.x, ray.d.x, nx == 1, &mut t0, &mut t1);
        let ghost b0 = t0;
        let ghost b1 = t1;
        let ny = dir_is_neg[1];
        let near_y = self.index(ny as usize);
        let far_y = self.index(1 - ny as usize);
        clip_axis(near_y.y, far_y.y, ray.o.y, ray.d.y, ny == 1, &mut t0, &mut t1);
        let ghost c0 = t0;
        let ghost c1 = t1;
        let nz = dir_is_neg[2];
        let near_z = self.index(nz as usize);
        let far_z = self.index(1 - nz as usize);
        clip_axis(near_z.z, far_z.z, ray.o.z, ray.d.z, nz == 1, &mut t0, &mut t1);
        proof {
            lemma_interval_characterizes(
                *self,
                ray.o,
                ray.d,
                ray.t_max,
                a0,
                a1,
                b0,
                b1,
                c0,
                c1,
                t0,
                t1,
            );
            lemma_hit_decision(*self, ray.o, ray.d, ray.t_max as int, t0, t1);
        }
        t0.le(&t1)
    }

    /// Runs the three clips and decides the hit; shared by both public
    /// entry points.
    fn slab_interval(&self, ray: &Ray) -> (r: (bool, Frac, Frac))
        requires
            axis_exact(self.p_min.x as int, self.p_max.x as int, ray.o.x as int, ray.d.x as int),
            axis_exact(self.p_min.y as int, self.p_max.y as int, ray.o.y as int, ray.d.y as int),
            axis_exact(self.p_min.z as int, self.p_max.z as int, ray.o.z as int, ray.d.z as int),
        ensures
            r.0 == ray_hits_bounds(*self, ray.o, ray.d, ray.t_max as int),
            r.0 ==> r.1.wf() && r.2.wf(),
            r.0 ==> hit_at(*self, ray.o, ray.d, ray.t_max as int, r.1.num as int, r.1.den as int),
            r.0 ==> hit_at(*self, ray.o, ray.d, ray.t_max as int, r.2.num as int, r.2.den as int),
            r.0 ==> forall|tn: int, td: int|
                td > 0 ==> (#[trigger] in_interval(r.1, r.2, tn, td) <==> hit_at(
                    *self,
                    ray.o,
                    ray.d,
                    ray.t_max as int,
                    tn,
                    td,
                )),
    {
        let mut t0 = Frac { num: 0, den: 1 };
        let mut t1 = Frac { num: ray.t_max, den: 1 };
        let ghost a0 = t0;
        let ghost a1 = t1;
        proof {
            lemma_initial_interval(ray.t_max);
        }
        let neg_x = ray.d.x < 0;
        let (near_x, far_x) = if neg_x {
            (self.p_max.x, self.p_min.x)
        } else {
            (self.p_min.x, self.p_max.x)
        };
        clip_axis(near_x, far_x, ray.o.x, ray.d.x, neg_x, &mut t0, &mut t1);
        let ghost b0 = t0;
        let ghost b1 = t1;
        let neg_y = ray.d.y < 0;
        let (near_y, far_y) = if neg_y {
            (self.p_max.y, self.p_min.y)
        } else {
            (self.p_min.y, self.p_max.y)
        };
        clip_axis(near_y, far_y, ray.o.y, ray.d.y, neg_y, &mut t0, &mut t1);
        let ghost c0 = t0;
        let ghost c1 = t1;
        let neg_z = ray.d.z < 0;
        let (near_z, far_z) = if neg_z {
            (self.p_max.z, self.p_min.z)
        } else {
            (self.p_min.z, self.p_max.z)
        };
        clip_axis(near_z, far_z, ray.o.z, ray.d.z, neg_z, &mut t0, &mut t1);
        proof {
            lemma_interval_characterizes(
                *self,
                ray.o,
                ray.d,
                ray.t_max,
                a0,
                a1,
                b0,
                b1,
                c0,
                c1,
                t0,
                t1,
            );
            lemma_hit_decision(*self, ray.o, ray.d, ray.t_max as int, t0, t1);
        }
        let hit = t0.le(&t1);
        (hit, t0, t1)
    }
}

/// A ray parallel to a pair of slab planes whose origin lies outside that
/// slab misses the box, whatever its other components and range do.
pub proof fn lemma_parallel_outside_misses(b: Bounds3f, o: Point3f, d: Vector3f, t_max: int)
    requires
        (d.x == 0 && !(b.p_min.x <= o.x <= b.p_max.x)) || (d.y == 0 && !(b.p_min.y <= o.y
            <= b.p_max.y)) || (d.z == 0 && !(b.p_min.z <= o.z <= b.p_max.z)),
    ensures
        !ray_hits_bounds(b, o, d, t_max),
{
    assert forall|tn: int, td: int| !(#[trigger] hit_at(b, o, d, t_max, tn, td)) by {
        if hit_at(b, o, d, t_max, tn, td) {
            if d.x == 0 && !(b.p_min.x <= o.x <= b.p_max.x) {
                lemma_slab_const(b.p_min.x as int, b.p_max.x as int, o.x as int, tn, td);
            } else if d.y == 0 && !(b.p_min.y <= o.y <= b.p_max.y) {
                lemma_slab_const(b.p_min.y as int, b.p_max.y as int, o.y as int, tn, td);
            } else {
                lemma_slab_const(b.p_min.z as int, b.p_max.z as int, o.z as int, tn, td);
            }
        }
    }
}

/// When a ray whose origin lies outside the box hits it, the entry
/// parameter the slab test reports is strictly positive.
pub proof fn lemma_entry_positive_when_origin_outside(
    b: Bounds3f,
    o: Point3f,
    d: Vector3f,
    t_max: int,
    t0: Frac,
    t1: Frac,
)
    requires
        t0.wf(),
        t1.wf(),
        forall|tn: int, td: int|
            td > 0 ==> (#[trigger] in_interval(t0, t1, tn, td) <==> hit_at(b, o, d, t_max, tn, td)),
        frac_le(t0.num as int, t0.den as int, t1.num as int, t1.den as int),
        !crate::misc::inside3_spec(o, b),
    ensures
        t0.num > 0,
{
    assert(!hit_at(b, o, d, t_max, 0, 1)) by {
        assert(o.x * 1 + d.x * 0 == o.x) by (nonlinear_arith);
        assert(o.y * 1 + d.y * 0 == o.y) by (nonlinear_arith);
        assert(o.z * 1 + d.z * 0 == o.z) by (nonlinear_arith);
    }
    assert(!in_interval(t0, t1, 0, 1));
    lemma_hit_decision(b, o, d, t_max, t0, t1);
    assert(hit_at(b, o, d, t_max, t1.num as int, t1.den as int));
    assert(frac_le(0, 1, t1.num as int, t1.den as int)) by {
        assert(0 * t1.den == 0) by (nonlinear_arith);
        assert(t1.num * 1 == t1.num) by (nonlinear_arith);
    }
    assert(!frac_le(t0.num as int, t0.den as int, 0, 1));
    assert(t0.num * 1 == t0.num) by (nonlinear_arith);
    assert(0 * t0.den == 0) by (nonlinear_arith);
}

/// A ray that meets the box at two distinct parameters — as one aimed from
/// outside at an interior point does — gets an interval of positive width:
/// the reported entry lies strictly before the reported exit.
pub proof fn lemma_two_hits_separate_endpoints(
    b: Bounds3f,
    o: Point3f,
    d: Vector3f,
    t_max: int,
    t0: Frac,
    t1: Frac,
    an: int,
    ad: int,
    bn: int,
    bd: int,
)
    requires
        t0.wf(),
        t1.wf(),
        forall|tn: int, td: int|
            td > 0 ==> (#[trigger] in_interval(t0, t1, tn, td) <==> hit_at(b, o, d, t_max, tn, td)),
        hit_at(b, o, d, t_max, an, ad),
        hit_at(b, o, d, t_max, bn, bd),
        an * bd < bn * ad,
    ensures
        t0.num * t1.den < t1.num * t0.den,
{
    assert(in_interval(t0, t1, an, ad));
    assert(in_interval(t0, t1, bn, bd));
    lemma_frac_le_lt_trans(t0.num as int, t0.den as int, an, ad, bn, bd);
    lemma_frac_lt_le_trans(t0.num as int, t0.den as int, bn, bd, t1.num as int, t1.den as int);
}

/// Chains the per-axis clip equivalences: after all three clips the
/// interval holds exactly the parameters of `hit_at`.
proof fn lemma_interval_characterizes(
    b: Bounds3f,
    o: Point3f,
    d: Vector3f,
    t_max: Scalar,
    a0: Frac,
    a1: Frac,
    b0: Frac,
    b1: Frac,
    c0: Frac,
    c1: Frac,
    e0: Frac,
    e1: Frac,
)
    requires
        forall|tn: int, td: int|
            td > 0 ==> (#[trigger] in_interval(a0, a1, tn, td) <==> (0 <= tn && tn <= t_max * td)),
        forall|tn: int, td: int|
            td > 0 ==> (#[trigger] in_interval(b0, b1, tn, td) <==> (in_interval(a0, a1, tn, td)
                && slab_at(b.p_min.x as int, b.p_max.x as int, o.x as int, d.x as int, tn, td))),
        forall|tn: int, td: int|
            td > 0 ==> (#[trigger] in_interval(c0, c1, tn, td) <==> (in_interval(b0, b1, tn, td)
                && slab_at(b.p_min.y as int, b.p_max.y as int, o.y as int, d.y as int, tn, td))),
        forall|tn: int, td: int|
            td > 0 ==> (#[trigger] in_interval(e0, e1, tn, td) <==> (in_interval(c0, c1, tn, td)
                && slab_at(b.p_min.z as int, b.p_max.z as int, o.z as int, d.z as int, tn, td))),
    ensures
        forall|tn: int, td: int|
            td > 0 ==> (#[trigger] in_interval(e0, e1, tn, td) <==> hit_at(
                b,
                o,
                d,
                t_max as int,
                tn,
                td,
            )),
{
    assert forall|tn: int, td: int| td > 0 implies (#[trigger] in_interval(e0, e1, tn, td)
        <==> hit_at(b, o, d, t_max as int, tn, td)) by {
        assert(in_interval(c0, c1, tn, td) <==> (in_interval(b0, b1, tn, td) && slab_at(
            b.p_min.y as int,
            b.p_max.y as int,
            o.y as int,
            d.y as int,
            tn,
            td,
        )));
        assert(in_interval(b0, b1, tn, td) <==> (in_interval(a0, a1, tn, td) && slab_at(
            b.p_min.x as int,
            b.p_max.x as int,
            o.x as int,
            d.x as int,
            tn,
            td,
        )));
        assert(in_interval(a0, a1, tn, td) <==> (0 <= tn && tn <= t_max * td));
    }
}

} // verus!
