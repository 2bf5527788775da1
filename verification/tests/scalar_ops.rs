use pbrt_geometry::scalar::{isqrt, lerp, mul_wide};

#[test]
fn lerp_endpoints() {
    assert_eq!(lerp(0, 2, 9), 2);
    assert_eq!(lerp(1, 2, 9), 9);
}

#[test]
fn lerp_outside_unit_range() {
    // 2 + 3 * (5 - 2)
    assert_eq!(lerp(3, 2, 5), 11);
    // 2 + (-1) * (5 - 2)
    assert_eq!(lerp(-1, 2, 5), -1);
}

#[test]
fn isqrt_small_values() {
    assert_eq!(isqrt(0), 0);
    assert_eq!(isqrt(1), 1);
    assert_eq!(isqrt(3), 1);
    assert_eq!(isqrt(4), 2);
    assert_eq!(isqrt(15), 3);
    assert_eq!(isqrt(16), 4);
    assert_eq!(isqrt(17), 4);
}

#[test]
fn isqrt_largest_scalar() {
    let r = isqrt(i64::MAX);
    assert_eq!(r, 3037000499);
    assert!(r * r <= i64::MAX);
}

#[test]
fn mul_wide_is_exact() {
    assert_eq!(mul_wide(i64::MAX, i64::MAX), (i64::MAX as i128) * (i64::MAX as i128));
    assert_eq!(mul_wide(i64::MIN, -1), -(i64::MIN as i128));
    assert_eq!(mul_wide(7, -6), -42);
}
