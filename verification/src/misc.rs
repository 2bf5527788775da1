//! Containment predicates between points and bounding regions, and the one
//! mixed-dimensional operation: dropping to the image plane while
//! displacing.

use crate::bounds2::Bounds2f;
use crate::bounds3::Bounds3f;
use crate::point::{Point2f, Point3f};
use crate::scalar::fits_scalar;
use crate::vector::Vector2f;
use vstd::prelude::*;

verus! {

/// The x–y slice of `p`, displaced against the 2D vector `v`.
pub fn point3f_minus_vector2f(p: &Point3f, v: &Vector2f) -> (r: Point2f)
    requires
        fits_scalar(p.x - v.x),
        fits_scalar(p.y - v.y),
    ensures
        r.x == p.x - v.x,
        r.y == p.y - v.y,
{
    Point2f { x: p.x - v.x, y: p.y - v.y }
}

/// Whether `p` lies in `b`, boundary included.
pub open spec fn inside2_spec(p: Point2f, b: Bounds2f) -> bool {
    b.p_min.x <= p.x <= b.p_max.x && b.p_min.y <= p.y <= b.p_max.y
}

/// Whether `p` lies in `b`, boundary included.
pub open spec fn inside3_spec(p: Point3f, b: Bounds3f) -> bool {
    b.p_min.x <= p.x <= b.p_max.x && b.p_min.y <= p.y <= b.p_max.y && b.p_min.z <= p.z
        <= b.p_max.z
}

/// Whether `p` lies in `b`, upper faces excluded.
pub open spec fn inside3_exclusive_spec(p: Point3f, b: Bounds3f) -> bool {
    b.p_min.x <= p.x < b.p_max.x && b.p_min.y <= p.y < b.p_max.y && b.p_min.z <= p.z < b.p_max.z
}

pub fn point2f_inside_bounds2f(p: &Point2f, b: &Bounds2f) -> (r: bool)
    ensures
        r == inside2_spec(*p, *b),
{
    p.x >= b.p_min.x && p.x <= b.p_max.x && p.y >= b.p_min.y && p.y <= b.p_max.y
}

pub fn point3f_inside_bounds3f(p: &Point3f, b: &Bounds3f) -> (r: bool)
    ensures
        r == inside3_spec(*p, *b),
{
    p.x >= b.p_min.x && p.x <= b.p_max.x && p.y >= b.p_min.y && p.y <= b.p_max.y && p.z
        >= b.p_min.z && p.z <= b.p_max.z
}

pub fn point3f_inside_exclusive_bounds3f(p: &Point3f, b: &Bounds3f) -> (r: bool)
    ensures
        r == inside3_exclusive_spec(*p, *b),
{
    p.x >= b.p_min.x && p.x < b.p_max.x && p.y >= b.p_min.y && p.y < b.p_max.y && p.z >= b.p_min.z
        && p.z < b.p_max.z
}

} // verus!
