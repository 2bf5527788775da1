//! Parametric rays: origin, direction, a shrinkable parametric upper bound,
//! a time sample, an optional shared participating medium, and an optional
//! differential payload for texture filtering.

use crate::point::Point3f;
use crate::scalar::{fits_scalar, mul_wide, Scalar};
use crate::vector::Vector3f;
use std::sync::Arc;
use vstd::prelude::*;

verus! {

/// An opaque participating medium. Many rays may share one instance through
/// a reference-counted handle; this library never inspects it.
#[derive(Debug)]
pub struct Medium {}

/// The auxiliary pair of rays offset by one pixel in each image-plane axis,
/// stored as origin/direction pairs.
#[derive(Debug, Clone, Copy, PartialEq, Eq, Structural)]
pub struct RayDifferential {
    pub rx_origin: Point3f,
    pub ry_origin: Point3f,
    pub rx_direction: Vector3f,
    pub ry_direction: Vector3f,
}

impl Default for RayDifferential {
    fn default() -> (r: RayDifferential)
        ensures
            r == (RayDifferential {
                rx_origin: Point3f { x: 0, y: 0, z: 0 },
                ry_origin: Point3f { x: 0, y: 0, z: 0 },
                rx_direction: Vector3f { x: 0, y: 0, z: 0 },
                ry_direction: Vector3f { x: 0, y: 0, z: 0 },
            }),
    {
        RayDifferential {
            rx_origin: Point3f { x: 0, y: 0, z: 0 },
            ry_origin: Point3f { x: 0, y: 0, z: 0 },
            rx_direction: Vector3f { x: 0, y: 0, z: 0 },
            ry_direction: Vector3f { x: 0, y: 0, z: 0 },
        }
    }
}

/// A parametric ray. `t_max` is the mutable upper bound of the valid
/// parameter interval; a hit search narrows it in place as closer hits are
/// found, so the field is plain and the ray is passed by mutable reference
/// through a traversal.
#[derive(Clone)]
pub struct Ray {
    pub o: Point3f,
    pub d: Vector3f,
    pub t_max: Scalar,
    pub time: Scalar,
    pub medium: Option<Arc<Medium>>,
    pub differential: Option<RayDifferential>,
}

/// One auxiliary origin or direction component rescaled toward the primary
/// ray: `base + (aux - base) * s`.
pub open spec fn rescaled_axis(base: Scalar, aux: Scalar, s: Scalar) -> int {
    base + (aux - base) * s
}

/// A differential with every auxiliary origin and direction moved toward the
/// primary ray's origin and direction by the factor `s`.
pub open spec fn scale_diff_spec(o: Point3f, d: Vector3f, diff: RayDifferential, s: Scalar)
    -> RayDifferential {
    RayDifferential {
        rx_origin: Point3f {
            x: rescaled_axis(o.x, diff.rx_origin.x, s) as i64,
            y: rescaled_axis(o.y, diff.rx_origin.y, s) as i64,
            z: rescaled_axis(o.z, diff.rx_origin.z, s) as i64,
        },
        ry_origin: Point3f {
            x: rescaled_axis(o.x, diff.ry_origin.x, s) as i64,
            y: rescaled_axis(o.y, diff.ry_origin.y, s) as i64,
            z: rescaled_axis(o.z, diff.ry_origin.z, s) as i64,
        },
        rx_direction: Vector3f {
            x: rescaled_axis(d.x, diff.rx_direction.x, s) as i64,
            y: rescaled_axis(d.y, diff.rx_direction.y, s) as i64,
            z: rescaled_axis(d.z, diff.rx_direction.z, s) as i64,
        },
        ry_direction: Vector3f {
            x: rescaled_axis(d.x, diff.ry_direction.x, s) as i64,
            y: rescaled_axis(d.y, diff.ry_direction.y, s) as i64,
            z: rescaled_axis(d.z, diff.ry_direction.z, s) as i64,
        },
    }
}

/// Whether every rescaling in `scale_diff_spec` stays representable,
/// intermediate differences included.
pub open spec fn scale_diff_fits(o: Point3f, d: Vector3f, diff: RayDifferential, s: Scalar)
    -> bool {
    &&& fits_scalar(diff.rx_origin.x - o.x) && fits_scalar(rescaled_axis(o.x, diff.rx_origin.x, s))
    &&& fits_scalar(diff.rx_origin.y - o.y) && fits_scalar(rescaled_axis(o.y, diff.rx_origin.y, s))
    &&& fits_scalar(diff.rx_origin.z - o.z) && fits_scalar(rescaled_axis(o.z, diff.rx_origin.z, s))
    &&& fits_scalar(diff.ry_origin.x - o.x) && fits_scalar(rescaled_axis(o.x, diff.ry_origin.x, s))
    &&& fits_scalar(diff.ry_origin.y - o.y) && fits_scalar(rescaled_axis(o.y, diff.ry_origin.y, s))
    &&& fits_scalar(diff.ry_origin.z - o.z) && fits_scalar(rescaled_axis(o.z, diff.ry_origin.z, s))
    &&& fits_scalar(diff.rx_direction.x - d.x) && fits_scalar(
        rescaled_axis(d.x, diff.rx_direction.x, s),
    )
    &&& fits_scalar(diff.rx_direction.y - d.y) && fits_scalar(
        rescaled_axis(d.y, diff.rx_direction.y, s),
    )
    &&& fits_scalar(diff.rx_direction.z - d.z) && fits_scalar(
        rescaled_axis(d.z, diff.rx_direction.z, s),
    )
    &&& fits_scalar(diff.ry_direction.x - d.x) && fits_scalar(
        rescaled_axis(d.x, diff.ry_direction.x, s),
    )
    &&& fits_scalar(diff.ry_direction.y - d.y) && fits_scalar(
        rescaled_axis(d.y, diff.ry_direction.y, s),
    )
    &&& fits_scalar(diff.ry_direction.z - d.z) && fits_scalar(
        rescaled_axis(d.z, diff.ry_direction.z, s),
    )
}

impl Ray {
    /// Exact scalars admit no not-a-number value in the origin, direction or
    /// time, so the check — kept for interface parity — always reports
    /// false.
    pub fn has_nans(&self) -> (r: bool)
        ensures
            !r,
    {
        let o_nan = self.o.has_nans();
        let d_nan = self.d.has_nans();
        o_nan || d_nan
    }

    /// The point the ray reaches at parameter `t`.
    pub fn position(&self, t: Scalar) -> (r: Point3f)
        requires
            fits_scalar(self.d.x * t),
            fits_scalar(self.d.y * t),
            fits_scalar(self.d.z * t),
            fits_scalar(self.o.x + self.d.x * t),
            fits_scalar(self.o.y + self.d.y * t),
            fits_scalar(self.o.z + self.d.z * t),
        ensures
            r.x == self.o.x + self.d.x * t,
            r.y == self.o.y + self.d.y * t,
            r.z == self.o.z + self.d.z * t,
    {
        let scaled = self.d.scale(t);
        self.o.add_vector(&scaled)
    }

    /// Moves the auxiliary origins and directions toward the primary ray by
    /// the factor `s`; a ray without a differential is left untouched.
    pub fn scale_differentials(&mut self, s: Scalar)
        requires
            old(self).differential matches Some(diff) ==> scale_diff_fits(
                old(self).o,
                old(self).d,
                diff,
                s,
            ),
        ensures
            final(self).o == old(self).o,
            final(self).d == old(self).d,
            final(self).t_max == old(self).t_max,
            final(self).time == old(self).time,
            final(self).medium == old(self).medium,
            old(self).differential is None ==> final(self).differential is None,
            old(self).differential matches Some(diff) ==> final(self).differential == Some(
                scale_diff_spec(old(self).o, old(self).d, diff, s),
            ),
    {
        if let Some(diff) = self.differential {
            let rx_origin = rescale_point(&self.o, &diff.rx_origin, s);
            let ry_origin = rescale_point(&self.o, &diff.ry_origin, s);
            let rx_direction = rescale_vector(&self.d, &diff.rx_direction, s);
            let ry_direction = rescale_vector(&self.d, &diff.ry_direction, s);
            self.differential = Some(
                RayDifferential { rx_origin, ry_origin, rx_direction, ry_direction },
            );
        }
    }
}

impl Default for Ray {
    fn default() -> (r: Ray)
        ensures
            r.o == (Point3f { x: 0, y: 0, z: 0 }),
            r.d == (Vector3f { x: 0, y: 0, z: 0 }),
            r.t_max == 0,
            r.time == 0,
            r.medium is None,
            r.differential is None,
    {
        Ray {
            o: Point3f { x: 0, y: 0, z: 0 },
            d: Vector3f { x: 0, y: 0, z: 0 },
            t_max: 0,
            time: 0,
            medium: None,
            differential: None,
        }
    }
}

/// An auxiliary origin moved toward `base` by the factor `s`.
fn rescale_point(base: &Point3f, aux: &Point3f, s: Scalar) -> (r: Point3f)
    requires
        fits_scalar(aux.x - base.x),
        fits_scalar(aux.y - base.y),
        fits_scalar(aux.z - base.z),
        fits_scalar(rescaled_axis(base.x, aux.x, s)),
        fits_scalar(rescaled_axis(base.y, aux.y, s)),
        fits_scalar(rescaled_axis(base.z, aux.z, s)),
    ensures
        r.x == rescaled_axis(base.x, aux.x, s),
        r.y == rescaled_axis(base.y, aux.y, s),
        r.z == rescaled_axis(base.z, aux.z, s),
{
    Point3f {
        x: rescale_axis_exec(base.x, aux.x, s),
        y: rescale_axis_exec(base.y, aux.y, s),
        z: rescale_axis_exec(base.z, aux.z, s),
    }
}

/// An auxiliary direction moved toward `base` by the factor `s`.
fn rescale_vector(base: &Vector3f, aux: &Vector3f, s: Scalar) -> (r: Vector3f)
    requires
        fits_scalar(aux.x - base.x),
        fits_scalar(aux.y - base.y),
        fits_scalar(aux.z - base.z),
        fits_scalar(rescaled_axis(base.x, aux.x, s)),
        fits_scalar(rescaled_axis(base.y, aux.y, s)),
        fits_scalar(rescaled_axis(base.z, aux.z, s)),
    ensures
        r.x == rescaled_axis(base.x, aux.x, s),
        r.y == rescaled_axis(base.y, aux.y, s),
        r.z == rescaled_axis(base.z, aux.z, s),
{
    Vector3f {
        x: rescale_axis_exec(base.x, aux.x, s),
        y: rescale_axis_exec(base.y, aux.y, s),
        z: rescale_axis_exec(base.z, aux.z, s),
    }
}

/// One component of the rescaling, computed with a widened intermediate.
fn rescale_axis_exec(base: Scalar, aux: Scalar, s: Scalar) -> (r: Scalar)
    requires
        fits_scalar(aux - base),
        fits_scalar(rescaled_axis(base, aux, s)),
    ensures
        r == rescaled_axis(base, aux, s),
{
    let offset: i64 = aux - base;
    let scaled: i128 = mul_wide(offset, s);
    (base as i128 + scaled) as i64
}

/// Rescaling a differential by 1 moves nothing: the operation is the
/// identity on every auxiliary origin and direction.
pub proof fn lemma_scale_differentials_identity(o: Point3f, d: Vector3f, diff: RayDifferential)
    ensures
        scale_diff_spec(o, d, diff, 1) == diff,
{
    lemma_rescaled_axis_one(o.x, diff.rx_origin.x);
    lemma_rescaled_axis_one(o.y, diff.rx_origin.y);
    lemma_rescaled_axis_one(o.z, diff.rx_origin.z);
    lemma_rescaled_axis_one(o.x, diff.ry_origin.x);
    lemma_rescaled_axis_one(o.y, diff.ry_origin.y);
    lemma_rescaled_axis_one(o.z, diff.ry_origin.z);
    lemma_rescaled_axis_one(d.x, diff.rx_direction.x);
    lemma_rescaled_axis_one(d.y, diff.rx_direction.y);
    lemma_rescaled_axis_one(d.z, diff.rx_direction.z);
    lemma_rescaled_axis_one(d.x, diff.ry_direction.x);
    lemma_rescaled_axis_one(d.y, diff.ry_direction.y);
    lemma_rescaled_axis_one(d.z, diff.ry_direction.z);
}

/// With factor 1 the rescaled component is the auxiliary component itself.
proof fn lemma_rescaled_axis_one(base: Scalar, aux: Scalar)
    ensures
        rescaled_axis(base, aux, 1) == aux,
{
    assert((aux - base) * 1 == aux - base) by (nonlinear_arith);
}

} // verus!
