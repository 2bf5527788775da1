use pbrt_geometry::point::Point3f;
use pbrt_geometry::ray::{Medium, Ray, RayDifferential};
use pbrt_geometry::vector::Vector3f;
use std::sync::Arc;

fn sample_ray() -> Ray {
    Ray {
        o: Point3f::new(-5, 0, 0),
        d: Vector3f::new(1, 0, 0),
        t_max: 100,
        time: 0,
        medium: None,
        differential: None,
    }
}

#[test]
fn ray_position_moves_along_direction() {
    let r = sample_ray();
    assert_eq!(r.position(0), r.o);
    assert_eq!(r.position(5), Point3f::new(0, 0, 0));
    assert_eq!(r.position(7), Point3f::new(2, 0, 0));
    assert!(!r.has_nans());
}

#[test]
fn ray_default_is_zeroed() {
    let r = Ray::default();
    assert_eq!(r.o, Point3f::new(0, 0, 0));
    assert_eq!(r.d, Vector3f::new(0, 0, 0));
    assert_eq!(r.t_max, 0);
    assert_eq!(r.time, 0);
    assert!(r.medium.is_none());
    assert!(r.differential.is_none());
    assert_eq!(RayDifferential::default().rx_origin, Point3f::new(0, 0, 0));
}

#[test]
fn ray_shares_its_medium() {
    let m = Arc::new(Medium {});
    let mut r = sample_ray();
    r.medium = Some(Arc::clone(&m));
    let r2 = r.clone();
    assert!(r2.medium.is_some());
    assert_eq!(Arc::strong_count(&m), 3);
}

#[test]
fn scale_differentials_by_one_is_identity() {
    let diff = RayDifferential {
        rx_origin: Point3f::new(1, 2, 3),
        ry_origin: Point3f::new(-1, 0, 2),
        rx_direction: Vector3f::new(2, 0, 0),
        ry_direction: Vector3f::new(1, 1, 0),
    };
    let mut r = sample_ray();
    r.differential = Some(diff);
    r.scale_differentials(1);
    assert_eq!(r.differential, Some(diff));
    assert_eq!(r.o, Point3f::new(-5, 0, 0));
    assert_eq!(r.t_max, 100);
}

#[test]
fn scale_differentials_moves_toward_primary() {
    let diff = RayDifferential {
        rx_origin: Point3f::new(1, 2, 3),
        ry_origin: Point3f::new(-1, 0, 2),
        rx_direction: Vector3f::new(3, 0, 0),
        ry_direction: Vector3f::new(1, 1, 0),
    };
    let mut r = Ray {
        o: Point3f::new(0, 0, 0),
        d: Vector3f::new(1, 0, 0),
        t_max: 10,
        time: 0,
        medium: None,
        differential: Some(diff),
    };
    r.scale_differentials(2);
    let scaled = r.differential.unwrap();
    assert_eq!(scaled.rx_origin, Point3f::new(2, 4, 6));
    assert_eq!(scaled.ry_origin, Point3f::new(-2, 0, 4));
    // directions rescale around the primary direction (1, 0, 0)
    assert_eq!(scaled.rx_direction, Vector3f::new(5, 0, 0));
    assert_eq!(scaled.ry_direction, Vector3f::new(1, 2, 0));
}

#[test]
fn scale_differentials_without_payload_is_noop() {
    let mut r = sample_ray();
    r.scale_differentials(7);
    assert!(r.differential.is_none());
    assert_eq!(r.o, Point3f::new(-5, 0, 0));
}
