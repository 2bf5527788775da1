use pbrt_geometry::bounds3::Bounds3f;
use pbrt_geometry::point::Point3f;
use pbrt_geometry::ray::Ray;
use pbrt_geometry::raybox::Frac;
use pbrt_geometry::vector::Vector3f;

fn cube2() -> Bounds3f {
    Bounds3f::new_with_points(Point3f::new(0, 0, 0), Point3f::new(2, 2, 2))
}

fn ray(o: Point3f, d: Vector3f, t_max: i64) -> Ray {
    Ray { o, d, t_max, time: 0, medium: None, differential: None }
}

/// The fraction as a pair, reduced against an expected integer value.
fn frac_equals_int(f: &Frac, v: i64) -> bool {
    f.den > 0 && (f.num as i128) == (v as i128) * (f.den as i128)
}

#[test]
fn slab_scenario_axis_ray_entry_and_exit() {
    let b = cube2();
    let r = ray(Point3f::new(-5, 0, 0), Vector3f::new(1, 0, 0), 100);
    let mut t0 = Frac::from_int(0);
    let mut t1 = Frac::from_int(0);
    assert!(b.intersect_b(&r, &mut t0, &mut t1));
    assert!(frac_equals_int(&t0, 5));
    assert!(frac_equals_int(&t1, 7));
    assert_eq!((t0.num, t0.den), (5, 1));
    assert_eq!((t1.num, t1.den), (7, 1));
}

#[test]
fn slab_ray_toward_center_of_unit_box() {
    let b = Bounds3f::new_with_points(Point3f::new(0, 0, 0), Point3f::new(1, 1, 1));
    // from outside, aimed at the center (1/2, 1/2, 1/2)
    let r = ray(Point3f::new(-1, -1, -1), Vector3f::new(3, 3, 3), 100);
    let mut t0 = Frac::from_int(0);
    let mut t1 = Frac::from_int(0);
    assert!(b.intersect_b(&r, &mut t0, &mut t1));
    // 0 < t0 < t1: entry 1/3, exit 2/3
    assert!(t0.num > 0 && t0.den > 0);
    assert!((t0.num as i128) * (t1.den as i128) < (t1.num as i128) * (t0.den as i128));
    assert!(frac_equals_int(&t0, 0) == false);
    assert_eq!((t0.num as i128) * 3, (t0.den as i128));
    assert_eq!((t1.num as i128) * 3, 2 * (t1.den as i128));
}

#[test]
fn slab_parallel_ray_outside_misses() {
    let b = Bounds3f::new_with_points(Point3f::new(0, 0, 0), Point3f::new(1, 1, 1));
    // parallel to the x faces, offset outside the y slab
    let r = ray(Point3f::new(-5, 7, 0), Vector3f::new(1, 0, 0), 100);
    let mut t0 = Frac::from_int(-9);
    let mut t1 = Frac::from_int(-9);
    assert!(!b.intersect_b(&r, &mut t0, &mut t1));
    // a miss leaves the out-parameters untouched
    assert_eq!((t0.num, t0.den), (-9, 1));
    assert_eq!((t1.num, t1.den), (-9, 1));
}

#[test]
fn slab_parallel_ray_inside_hits() {
    let b = cube2();
    let r = ray(Point3f::new(-5, 1, 1), Vector3f::new(1, 0, 0), 100);
    let mut t0 = Frac::from_int(0);
    let mut t1 = Frac::from_int(0);
    assert!(b.intersect_b(&r, &mut t0, &mut t1));
    assert!(frac_equals_int(&t0, 5));
    assert!(frac_equals_int(&t1, 7));
}

#[test]
fn slab_origin_inside_starts_at_zero() {
    let b = cube2();
    let r = ray(Point3f::new(1, 1, 1), Vector3f::new(1, 0, 0), 100);
    let mut t0 = Frac::from_int(9);
    let mut t1 = Frac::from_int(9);
    assert!(b.intersect_b(&r, &mut t0, &mut t1));
    assert!(frac_equals_int(&t0, 0));
    assert!(frac_equals_int(&t1, 1));
}

#[test]
fn slab_respects_t_max() {
    let b = cube2();
    // the box starts at t = 5, but the ray ends at t = 4
    let r = ray(Point3f::new(-5, 0, 0), Vector3f::new(1, 0, 0), 4);
    let mut t0 = Frac::from_int(0);
    let mut t1 = Frac::from_int(0);
    assert!(!b.intersect_b(&r, &mut t0, &mut t1));
    // touching the box exactly at t_max counts
    let grazing = ray(Point3f::new(-5, 0, 0), Vector3f::new(1, 0, 0), 5);
    assert!(b.intersect_b(&grazing, &mut t0, &mut t1));
    assert!(frac_equals_int(&t0, 5));
    assert!(frac_equals_int(&t1, 5));
}

#[test]
fn slab_ray_pointing_away_misses() {
    let b = cube2();
    let r = ray(Point3f::new(-5, 0, 0), Vector3f::new(-1, 0, 0), 100);
    let mut t0 = Frac::from_int(0);
    let mut t1 = Frac::from_int(0);
    assert!(!b.intersect_b(&r, &mut t0, &mut t1));
}

#[test]
fn slab_negative_direction_hits() {
    let b = cube2();
    let r = ray(Point3f::new(5, 1, 1), Vector3f::new(-1, 0, 0), 100);
    let mut t0 = Frac::from_int(0);
    let mut t1 = Frac::from_int(0);
    assert!(b.intersect_b(&r, &mut t0, &mut t1));
    assert!(frac_equals_int(&t0, 3));
    assert!(frac_equals_int(&t1, 5));
}

#[test]
fn slab_empty_sentinel_never_hits() {
    let e = Bounds3f {
        p_min: Point3f::new(1000, 1000, 1000),
        p_max: Point3f::new(-1000, -1000, -1000),
    };
    let r = ray(Point3f::new(0, 0, 0), Vector3f::new(1, 1, 1), 100);
    let mut t0 = Frac::from_int(0);
    let mut t1 = Frac::from_int(0);
    assert!(!e.intersect_b(&r, &mut t0, &mut t1));
}

#[test]
fn predicate_form_agrees_with_parametric_form() {
    let b = cube2();
    let rays = [
        ray(Point3f::new(-5, 0, 0), Vector3f::new(1, 0, 0), 100),
        ray(Point3f::new(-5, 7, 0), Vector3f::new(1, 0, 0), 100),
        ray(Point3f::new(5, 1, 1), Vector3f::new(-1, 0, 0), 100),
        ray(Point3f::new(1, 1, 1), Vector3f::new(0, 0, -2), 100),
        ray(Point3f::new(-1, -1, -1), Vector3f::new(3, 2, 3), 100),
        ray(Point3f::new(-5, 0, 0), Vector3f::new(1, 0, 0), 4),
    ];
    for r in rays.iter() {
        let signs = [
            if r.d.x < 0 { 1u8 } else { 0u8 },
            if r.d.y < 0 { 1u8 } else { 0u8 },
            if r.d.z < 0 { 1u8 } else { 0u8 },
        ];
        let mut t0 = Frac::from_int(0);
        let mut t1 = Frac::from_int(0);
        let expected = b.intersect_b(r, &mut t0, &mut t1);
        assert_eq!(b.intersect_p(r, &signs), expected);
    }
}

#[test]
fn predicate_form_negative_direction() {
    let b = cube2();
    let r = ray(Point3f::new(1, 1, 9), Vector3f::new(0, 0, -1), 100);
    assert!(b.intersect_p(&r, &[0, 0, 1]));
    let away = ray(Point3f::new(1, 1, 9), Vector3f::new(0, 0, 1), 100);
    assert!(!b.intersect_p(&away, &[0, 0, 0]));
}
