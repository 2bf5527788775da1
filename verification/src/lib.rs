//! Geometric substrate for a ray tracer: points, vectors and surface normals
//! in two and three dimensions, axis-aligned bounding regions, parametric rays
//! with optional differentials, and an exact slab-method ray/box intersection
//! test.
//!
//! Every quantity is an exact signed machine integer (`scalar::Scalar`), so
//! each operation's contract states its result precisely; where the geometry
//! calls for a quotient that need not be integral (a ray's parametric entry
//! and exit distances), the library carries an explicit fraction
//! (`raybox::Frac`) instead of rounding.

pub mod bounds2;
pub mod bounds3;
pub mod misc;
pub mod normal;
pub mod point;
pub mod ray;
pub mod raybox;
pub mod scalar;
pub mod vector;
