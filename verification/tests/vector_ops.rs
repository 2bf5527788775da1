use pbrt_geometry::point::Point3f;
use pbrt_geometry::vector::{vec3_coordinate_system, Vector2f, Vector3f};

#[test]
fn vector3_from_point() {
    assert_eq!(Vector3f::from(Point3f::new(1, -2, 3)), Vector3f::new(1, -2, 3));
}

#[test]
fn vector2_arithmetic() {
    let a = Vector2f::new(3, 4);
    let b = Vector2f::new(-1, 2);
    assert_eq!(a.add(&b), Vector2f::new(2, 6));
    assert_eq!(a.sub(&b), Vector2f::new(4, 2));
    assert_eq!(a.neg(), Vector2f::new(-3, -4));
    assert_eq!(a.scale(2), Vector2f::new(6, 8));
    assert_eq!(a.dot(&b), 5);
    assert_eq!(a.length_squared(), 25);
    assert_eq!(a.length(), 5);
    assert!(!a.has_nans());
    assert_eq!(a.index(0), 3);
    assert_eq!(a.index(1), 4);
    assert_eq!(Vector2f::default(), Vector2f::new(0, 0));
}

#[test]
fn vector2_div_scalar_truncates_toward_zero() {
    let v = Vector2f::new(7, -7);
    assert_eq!(v.div_scalar(2), Vector2f::new(3, -3));
}

#[test]
fn vector3_dot_cross_length() {
    let a = Vector3f::new(1, 2, 3);
    let b = Vector3f::new(4, -5, 6);
    assert_eq!(a.dot(&b), 12);
    assert_eq!(a.abs_dot(&Vector3f::new(-4, -5, -6)), 32);
    let c = a.cross(&b);
    assert_eq!(c, Vector3f::new(27, 6, -13));
    // the cross product is perpendicular to both factors
    assert_eq!(a.dot(&c), 0);
    assert_eq!(b.dot(&c), 0);
    assert_eq!(Vector3f::new(2, 3, 6).length_squared(), 49);
    assert_eq!(Vector3f::new(2, 3, 6).length(), 7);
    assert_eq!(Vector3f::new(1, 1, 1).length(), 1);
}

#[test]
fn vector3_normalize_divides_by_rounded_length() {
    assert_eq!(Vector3f::new(100, 0, 0).normalize(), Vector3f::new(1, 0, 0));
    assert_eq!(Vector3f::new(0, -7, 0).normalize(), Vector3f::new(0, -1, 0));
    // length 25; every component rounds toward zero
    assert_eq!(Vector3f::new(0, 20, -15).normalize(), Vector3f::new(0, 0, 0));
}

#[test]
fn vector3_component_queries() {
    let v = Vector3f::new(5, -2, 9);
    assert_eq!(v.min_component(), -2);
    assert_eq!(v.max_component(), 9);
    assert_eq!(v.max_dimension(), 2);
    // later axes win ties
    assert_eq!(Vector3f::new(4, 4, 1).max_dimension(), 1);
    assert_eq!(Vector3f::new(4, 4, 4).max_dimension(), 2);
    assert_eq!(v.permute(2, 0, 1), Vector3f::new(9, 5, -2));
    assert_eq!(v.index(0), 5);
    assert_eq!(v.index(1), -2);
    assert_eq!(v.index(2), 9);
}

#[test]
fn vector3_min_max() {
    let a = Vector3f::new(1, 7, -3);
    let b = Vector3f::new(2, -4, -3);
    assert_eq!(a.min(&b), Vector3f::new(1, -4, -3));
    assert_eq!(a.max(&b), Vector3f::new(2, 7, -3));
}

#[test]
fn coordinate_system_from_dominant_x() {
    let v1 = Vector3f::new(5, 0, 0);
    let mut v2 = Vector3f::default();
    let mut v3 = Vector3f::default();
    vec3_coordinate_system(&v1, &mut v2, &mut v3);
    // raw second axis (0, 0, 5), divided by the rounded length 5
    assert_eq!(v2, Vector3f::new(0, 0, 1));
    assert_eq!(v3, v1.cross(&v2));
    assert_eq!(v3, Vector3f::new(0, -5, 0));
    // both later axes are perpendicular to the first
    assert_eq!(v1.dot(&v2), 0);
    assert_eq!(v1.dot(&v3), 0);
}

#[test]
fn coordinate_system_from_dominant_y() {
    let v1 = Vector3f::new(0, 7, 24);
    let mut v2 = Vector3f::default();
    let mut v3 = Vector3f::default();
    vec3_coordinate_system(&v1, &mut v2, &mut v3);
    // |x| <= |y|: raw second axis (0, z, -y) = (0, 24, -7), divided by
    // isqrt(x * x + z * z) = isqrt(576) = 24
    assert_eq!(v2, Vector3f::new(0, 1, 0));
    assert_eq!(v3, v1.cross(&v2));
}
