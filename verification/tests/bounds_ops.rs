use pbrt_geometry::bounds2::Bounds2f;
use pbrt_geometry::bounds3::Bounds3f;
use pbrt_geometry::misc::{
    point2f_inside_bounds2f, point3f_inside_bounds3f, point3f_inside_exclusive_bounds3f,
    point3f_minus_vector2f,
};
use pbrt_geometry::point::{Point2f, Point3f};
use pbrt_geometry::vector::{Vector2f, Vector3f};

#[test]
fn bounds2_resolves_corners() {
    let b = Bounds2f::new_with_points(Point2f::new(5, -1), Point2f::new(2, 3));
    assert_eq!(b.p_min, Point2f::new(2, -1));
    assert_eq!(b.p_max, Point2f::new(5, 3));
    assert!(!b.is_empty());
    assert_eq!(b.index(0), b.p_min);
    assert_eq!(b.index(1), b.p_max);
}

#[test]
fn bounds2_area_and_extent() {
    let b = Bounds2f::new_with_points(Point2f::new(0, 0), Point2f::new(4, 3));
    assert_eq!(b.diagonal(), Vector2f::new(4, 3));
    assert_eq!(b.area(), 12);
    assert_eq!(b.maximum_extend(), 0);
    // x wins the tie
    let square = Bounds2f::new_with_points(Point2f::new(0, 0), Point2f::new(3, 3));
    assert_eq!(square.maximum_extend(), 0);
    let tall = Bounds2f::new_with_points(Point2f::new(0, 0), Point2f::new(2, 9));
    assert_eq!(tall.maximum_extend(), 1);
}

#[test]
fn bounds2_lerp_offset_roundtrip() {
    let b = Bounds2f::new_with_points(Point2f::new(0, 0), Point2f::new(4, 6));
    let t = Point2f::new(2, 3);
    let p = b.lerp(&t);
    assert_eq!(p, Point2f::new(8, 18));
    assert_eq!(b.offset(&p), Vector2f::new(2, 3));
}

#[test]
fn bounds2_offset_skips_zero_extent_axis() {
    let b = Bounds2f::new_with_points(Point2f::new(1, 0), Point2f::new(1, 10));
    // x has zero extent: the raw difference is kept, y is normalized
    assert_eq!(b.offset(&Point2f::new(4, 10)), Vector2f::new(3, 1));
}

#[test]
fn bounds2_bounding_sphere() {
    let b = Bounds2f::new_with_points(Point2f::new(0, 0), Point2f::new(4, 4));
    let (center, radius) = b.bounding_sphere();
    assert_eq!(center, Point2f::new(2, 2));
    assert_eq!(radius, center.distance(&b.p_max));
    // sqrt(8) rounds down to 2
    assert_eq!(radius, 2);
}

#[test]
fn bounds2_bounding_sphere_negative_box() {
    let b = Bounds2f::new_with_points(Point2f::new(-3, -3), Point2f::new(0, 0));
    let (center, radius) = b.bounding_sphere();
    // the midpoint rounds down, toward the minimum corner
    assert_eq!(center, Point2f::new(-2, -2));
    assert_eq!(radius, center.distance(&b.p_max));
    // sqrt(8) rounds down to 2
    assert_eq!(radius, 2);
    // the circle encloses the whole region, its corners included
    assert!(center.distance(&b.p_min) <= radius);
    assert!(center.distance(&Point2f::new(-3, 0)) <= radius);
    assert!(center.distance(&Point2f::new(0, -3)) <= radius);
}

#[test]
fn bounds2_empty_sentinel() {
    let e = Bounds2f::default();
    assert!(e.is_empty());
    // the sentinel's center lies outside it, so the radius degrades to 0
    let (_, radius) = e.bounding_sphere();
    assert_eq!(radius, 0);
    assert_eq!(Bounds2f::from(Point2f::new(3, 4)).p_min, Point2f::new(3, 4));
    assert_eq!(Bounds2f::from(Point2f::new(3, 4)).p_max, Point2f::new(3, 4));
}

#[test]
fn point3_minus_vector2_drops_to_plane() {
    let p = Point3f::new(5, 7, 9);
    let v = Vector2f::new(1, 2);
    assert_eq!(point3f_minus_vector2f(&p, &v), Point2f::new(4, 5));
}

#[test]
fn bounds2_containment() {
    let b = Bounds2f::new_with_points(Point2f::new(0, 0), Point2f::new(2, 2));
    assert!(point2f_inside_bounds2f(&Point2f::new(0, 2), &b));
    assert!(!point2f_inside_bounds2f(&Point2f::new(3, 1), &b));
}

#[test]
fn bounds3_scenario_unit_cube_queries() {
    let b = Bounds3f::new_with_points(Point3f::new(0, 0, 0), Point3f::new(2, 2, 2));
    assert_eq!(b.diagonal(), Vector3f::new(2, 2, 2));
    assert_eq!(b.surface_area(), 24);
    assert_eq!(b.volume(), 8);
    // the tie among equal extents breaks toward x
    assert_eq!(b.maximum_extend(), 0);
}

#[test]
fn bounds3_scenario_bounding_sphere() {
    let b = Bounds3f::new_with_points(Point3f::new(0, 0, 0), Point3f::new(2, 2, 2));
    let (center, radius) = b.bounding_sphere();
    assert_eq!(center, Point3f::new(1, 1, 1));
    assert_eq!(radius, center.distance(&b.p_max));
    // sqrt(3) rounds down to 1
    assert_eq!(radius, 1);
}

#[test]
fn bounds3_bounding_sphere_negative_box() {
    let b = Bounds3f::new_with_points(Point3f::new(-3, -3, -3), Point3f::new(0, 0, 0));
    let (center, radius) = b.bounding_sphere();
    // the midpoint rounds down, toward the minimum corner
    assert_eq!(center, Point3f::new(-2, -2, -2));
    assert_eq!(radius, center.distance(&b.p_max));
    // sqrt(12) rounds down to 3
    assert_eq!(radius, 3);
    // the sphere encloses the whole box: every corner within the radius
    for i in 0..8 {
        assert!(center.distance(&b.corner(i)) <= radius);
    }
}

#[test]
fn bounds3_union_with_point_contains_it() {
    let b = Bounds3f::new_with_points(Point3f::new(0, 0, 0), Point3f::new(1, 1, 1));
    let p = Point3f::new(-5, 9, 0);
    let u = b.union_point3f(&p);
    assert!(point3f_inside_bounds3f(&p, &u));
    assert_eq!(u.p_min, Point3f::new(-5, 0, 0));
    assert_eq!(u.p_max, Point3f::new(1, 9, 1));
}

#[test]
fn bounds3_union_identity() {
    let b = Bounds3f::new_with_points(Point3f::new(-1, 2, -3), Point3f::new(4, 5, 6));
    let empty = Bounds3f::default();
    assert_eq!(b.union(&empty), b);
    assert_eq!(empty.union(&b), b);
    // a union with a point starts a fresh degenerate box from the sentinel
    let started = empty.union_point3f(&Point3f::new(7, 8, 9));
    assert_eq!(started.p_min, Point3f::new(7, 8, 9));
    assert_eq!(started.p_max, Point3f::new(7, 8, 9));
}

#[test]
fn bounds3_union_of_two_boxes() {
    let a = Bounds3f::new_with_points(Point3f::new(0, 0, 0), Point3f::new(1, 1, 1));
    let b = Bounds3f::new_with_points(Point3f::new(-2, 3, 0), Point3f::new(0, 4, 5));
    let u = a.union(&b);
    assert_eq!(u.p_min, Point3f::new(-2, 0, 0));
    assert_eq!(u.p_max, Point3f::new(1, 4, 5));
}

#[test]
fn bounds3_intersect_overlapping() {
    let a = Bounds3f::new_with_points(Point3f::new(0, 0, 0), Point3f::new(4, 4, 4));
    let b = Bounds3f::new_with_points(Point3f::new(2, 1, -1), Point3f::new(6, 3, 3));
    let i = a.intersect(&b);
    assert_eq!(i.p_min, Point3f::new(2, 1, 0));
    assert_eq!(i.p_max, Point3f::new(4, 3, 3));
    assert!(!i.is_empty());
}

#[test]
fn bounds3_intersect_disjoint_is_inverted() {
    let a = Bounds3f::new_with_points(Point3f::new(0, 0, 0), Point3f::new(1, 1, 1));
    let b = Bounds3f::new_with_points(Point3f::new(5, 0, 0), Point3f::new(6, 1, 1));
    let i = a.intersect(&b);
    // inverted on x: the valid no-overlap signal, not an error
    assert!(i.p_min.x > i.p_max.x);
    assert!(i.is_empty());
}

#[test]
fn bounds3_overlaps_is_symmetric() {
    let a = Bounds3f::new_with_points(Point3f::new(0, 0, 0), Point3f::new(2, 2, 2));
    let b = Bounds3f::new_with_points(Point3f::new(2, 1, 1), Point3f::new(3, 3, 3));
    let c = Bounds3f::new_with_points(Point3f::new(5, 5, 5), Point3f::new(6, 6, 6));
    // touching faces count as overlap
    assert!(a.overlaps(&b));
    assert_eq!(a.overlaps(&b), b.overlaps(&a));
    assert!(!a.overlaps(&c));
    assert_eq!(a.overlaps(&c), c.overlaps(&a));
}

#[test]
fn bounds3_corners() {
    let b = Bounds3f::new_with_points(Point3f::new(0, 0, 0), Point3f::new(1, 2, 3));
    assert_eq!(b.corner(0), b.p_min);
    assert_eq!(b.corner(7), b.p_max);
    assert_eq!(b.corner(1), Point3f::new(1, 0, 0));
    assert_eq!(b.corner(2), Point3f::new(0, 2, 0));
    assert_eq!(b.corner(4), Point3f::new(0, 0, 3));
    // all eight corners of a non-degenerate box are distinct
    for i in 0..8 {
        for j in 0..8 {
            if i != j {
                assert_ne!(b.corner(i), b.corner(j));
            }
        }
    }
}

#[test]
fn bounds3_expand() {
    let b = Bounds3f::new_with_points(Point3f::new(0, 0, 0), Point3f::new(1, 1, 1));
    let e = b.expand(2);
    assert_eq!(e.p_min, Point3f::new(-2, -2, -2));
    assert_eq!(e.p_max, Point3f::new(3, 3, 3));
}

#[test]
fn bounds3_lerp_offset_roundtrip() {
    let b = Bounds3f::new_with_points(Point3f::new(0, 0, 0), Point3f::new(4, 6, 8));
    let t = Point3f::new(2, 3, 5);
    let p = b.lerp(&t);
    assert_eq!(p, Point3f::new(8, 18, 40));
    assert_eq!(b.offset(&p), Vector3f::new(2, 3, 5));
}

#[test]
fn bounds3_offset_skips_zero_extent_axis() {
    let b = Bounds3f::new_with_points(Point3f::new(1, 0, 2), Point3f::new(1, 10, 2));
    assert_eq!(b.offset(&Point3f::new(4, 10, 0)), Vector3f::new(3, 1, -2));
}

#[test]
fn bounds3_containment() {
    let b = Bounds3f::new_with_points(Point3f::new(0, 0, 0), Point3f::new(2, 2, 2));
    assert!(point3f_inside_bounds3f(&Point3f::new(2, 2, 2), &b));
    assert!(!point3f_inside_bounds3f(&Point3f::new(2, 3, 2), &b));
    // the exclusive form rejects the upper faces
    assert!(!point3f_inside_exclusive_bounds3f(&Point3f::new(2, 2, 2), &b));
    assert!(point3f_inside_exclusive_bounds3f(&Point3f::new(0, 0, 0), &b));
}

#[test]
fn bounds3_empty_sentinel() {
    let e = Bounds3f::default();
    assert!(e.is_empty());
    assert_eq!(e.p_min.x, i64::MAX);
    assert_eq!(e.p_max.x, i64::MIN);
    // the sentinel's center lies outside it, so the radius degrades to 0
    let (_, sentinel_radius) = e.bounding_sphere();
    assert_eq!(sentinel_radius, 0);
    let (_, radius) = Bounds3f::new_with_points(Point3f::new(0, 0, 0), Point3f::new(0, 0, 0))
        .bounding_sphere();
    assert_eq!(radius, 0);
    assert_eq!(Bounds3f::from(Point3f::new(1, 2, 3)).p_min, Point3f::new(1, 2, 3));
    assert_eq!(Bounds3f::from(Point3f::new(1, 2, 3)).p_max, Point3f::new(1, 2, 3));
}
