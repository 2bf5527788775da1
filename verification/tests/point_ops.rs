use pbrt_geometry::point::{lerp, Point2f, Point3f};
use pbrt_geometry::vector::{Vector2f, Vector3f};

#[test]
fn point2_distance_is_rounded_euclidean() {
    let a = Point2f::new(0, 0);
    let b = Point2f::new(3, 4);
    assert_eq!(a.distance(&b), 5);
    // sqrt(2) rounds down to 1
    assert_eq!(Point2f::new(0, 0).distance(&Point2f::new(1, 1)), 1);
    assert!(!a.has_nans());
}

#[test]
fn point2_arithmetic() {
    let p = Point2f::new(2, 3);
    assert_eq!(p.sub(&Point2f::new(1, 1)), Vector2f::new(1, 2));
    assert_eq!(p.add_vector(&Vector2f::new(10, -1)), Point2f::new(12, 2));
    assert_eq!(p.sub_vector(&Vector2f::new(1, 1)), Point2f::new(1, 2));
    assert_eq!(p.add(&Point2f::new(4, 5)), Point2f::new(6, 8));
    assert_eq!(p.scale(3), Point2f::new(6, 9));
    assert_eq!(p.div_scalar(2), Point2f::new(1, 1));
    assert_eq!(p.index(0), 2);
    assert_eq!(p.index(1), 3);
    assert_eq!(Point2f::from(Point3f::new(7, 8, 9)), Point2f::new(7, 8));
}

#[test]
fn point3_distance_and_squares() {
    let a = Point3f::new(1, 2, 3);
    let b = Point3f::new(4, 6, 3);
    assert_eq!(a.distance_squared(&b), 25);
    assert_eq!(a.distance(&b), 5);
    // sqrt(3) rounds down to 1
    assert_eq!(Point3f::new(1, 1, 1).distance(&Point3f::new(2, 2, 2)), 1);
}

#[test]
fn point3_componentwise_queries() {
    let a = Point3f::new(1, 7, -3);
    let b = Point3f::new(2, -4, -3);
    assert_eq!(a.min(&b), Point3f::new(1, -4, -3));
    assert_eq!(a.max(&b), Point3f::new(2, 7, -3));
    assert_eq!(Point3f::new(-1, 2, -3).abs(), Point3f::new(1, 2, 3));
    // every scalar is integral, so rounding is the identity
    assert_eq!(a.floor(), a);
    assert_eq!(a.ceil(), a);
    assert_eq!(a.permute(1, 2, 0), Point3f::new(7, -3, 1));
    assert_eq!(a.index(2), -3);
    assert!(!a.has_nans());
}

#[test]
fn point3_arithmetic() {
    let p = Point3f::new(1, 2, 3);
    assert_eq!(p.sub(&Point3f::new(1, 1, 1)), Vector3f::new(0, 1, 2));
    assert_eq!(p.add_vector(&Vector3f::new(5, 5, 5)), Point3f::new(6, 7, 8));
    assert_eq!(p.sub_vector(&Vector3f::new(1, 0, -1)), Point3f::new(0, 2, 4));
    assert_eq!(p.add(&p), Point3f::new(2, 4, 6));
    assert_eq!(p.scale(-2), Point3f::new(-2, -4, -6));
    assert_eq!(Point3f::new(-7, 7, 8).div_scalar(2), Point3f::new(-3, 3, 4));
    assert_eq!(Point3f::from(Vector3f::new(1, 2, 3)), p);
    assert_eq!(Point3f::default(), Point3f::new(0, 0, 0));
}

#[test]
fn point_lerp_is_componentwise() {
    let p0 = Point3f::new(0, 0, 0);
    let p1 = Point3f::new(10, 20, -30);
    assert_eq!(lerp(0, &p0, &p1), p0);
    assert_eq!(lerp(1, &p0, &p1), p1);
    assert_eq!(lerp(2, &p0, &p1), Point3f::new(20, 40, -60));
}
