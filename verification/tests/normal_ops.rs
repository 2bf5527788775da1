use pbrt_geometry::normal::Normal3f;
use pbrt_geometry::vector::Vector3f;

#[test]
fn normal_dot_products() {
    let a = Normal3f::new(1, -2, 3);
    let b = Normal3f::new(2, 2, 2);
    assert_eq!(a.dot(&b), 4);
    // componentwise absolute values: 1*2 + 2*2 + 3*2
    assert_eq!(a.abs_dot(&b), 12);
    assert_eq!(a.length_squared(), 14);
    assert_eq!(a.length(), 3);
    assert!(!a.has_nans());
}

#[test]
fn normal_face_forward_flips_against_reference() {
    let n = Normal3f::new(1, 0, 0);
    assert_eq!(n.face_forward(&Normal3f::new(-1, 0, 0)), Normal3f::new(-1, 0, 0));
    assert_eq!(n.face_forward(&Normal3f::new(1, 0, 0)), n);
    // a perpendicular reference leaves the normal as it is
    assert_eq!(n.face_forward(&Normal3f::new(0, 5, 0)), n);
}

#[test]
fn normal_componentwise_ops() {
    let n = Normal3f::new(-3, 4, -5);
    assert_eq!(n.abs(), Normal3f::new(3, 4, 5));
    assert_eq!(n.neg(), Normal3f::new(3, -4, 5));
    assert_eq!(n.add(&Normal3f::new(1, 1, 1)), Normal3f::new(-2, 5, -4));
    assert_eq!(n.sub(&Normal3f::new(1, 1, 1)), Normal3f::new(-4, 3, -6));
    assert_eq!(n.scale(2), Normal3f::new(-6, 8, -10));
    assert_eq!(Normal3f::new(-7, 7, 8).div_scalar(2), Normal3f::new(-3, 3, 4));
    assert_eq!(n.index(0), -3);
    assert_eq!(n.index(1), 4);
    assert_eq!(n.index(2), -5);
    assert_eq!(Normal3f::default(), Normal3f::new(0, 0, 0));
}

#[test]
fn normal_normalize_divides_by_rounded_length() {
    assert_eq!(Normal3f::new(0, 100, 0).normalize(), Normal3f::new(0, 1, 0));
    assert_eq!(Normal3f::new(0, 20, -15).normalize(), Normal3f::new(0, 0, 0));
}

#[test]
fn normal_vector_conversions() {
    let v = Vector3f::new(1, 2, 3);
    let n = Normal3f::from(v);
    assert_eq!(n, Normal3f::new(1, 2, 3));
    assert_eq!(Vector3f::from(n), v);
}
