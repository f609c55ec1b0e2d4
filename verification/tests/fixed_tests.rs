//! Exact values of the scalar fixed-point operations.

use voxel_game::fixed::{descale_wide, div_exact, div_fp, isqrt, mul_fp};
use voxel_game::trig::{cos_fp, half_rad, sin_fp};
use voxel_game::vec3::Vec3;

#[test]
fn isqrt_small_values() {
    assert_eq!(isqrt(0), 0);
    assert_eq!(isqrt(1), 1);
    assert_eq!(isqrt(2), 1);
    assert_eq!(isqrt(3), 1);
    assert_eq!(isqrt(4), 2);
    assert_eq!(isqrt(10), 3);
    assert_eq!(isqrt(99), 9);
    assert_eq!(isqrt(100), 10);
}

#[test]
fn isqrt_large_values() {
    let n: u128 = 1_000_000_000_000_000_000;
    assert_eq!(isqrt(n * n), n as u64);
    assert_eq!(isqrt(n * n + 1), n as u64);
    assert_eq!(isqrt(n * n - 1), (n - 1) as u64);
}

#[test]
fn mul_fp_exact() {
    // 1.0 * 1.0 == 1.0
    assert_eq!(mul_fp(65536, 65536), 65536);
    // 1.5 * 0.5 == 0.75
    assert_eq!(mul_fp(98304, 32768), 49152);
    // rounding is toward zero, also for negative products
    assert_eq!(mul_fp(1, 1), 0);
    assert_eq!(mul_fp(-98304, 32768), -49152);
    assert_eq!(mul_fp(-1, 1), 0);
}

#[test]
fn div_fp_exact() {
    // 2.0 / 1.0 == 2.0
    assert_eq!(div_fp(131072, 65536), 131072);
    // 1.0 / 2.0 == 0.5
    assert_eq!(div_fp(65536, 131072), 32768);
    assert_eq!(div_fp(-65536, 131072), -32768);
}

#[test]
fn div_exact_truncates_toward_zero() {
    assert_eq!(div_exact(7, 2), 3);
    assert_eq!(div_exact(-7, 2), -3);
    assert_eq!(div_exact(0, 5), 0);
}

#[test]
fn descale_wide_truncates_toward_zero() {
    assert_eq!(descale_wide(131072), 2);
    assert_eq!(descale_wide(131073), 2);
    assert_eq!(descale_wide(-131073), -2);
}

#[test]
fn sine_and_cosine_land_near_the_real_values() {
    assert_eq!(sin_fp(0), 0);
    assert_eq!(cos_fp(0), 65536);
    // pi / 2 in fixed point is about 102944
    let s = sin_fp(102944);
    assert!((s - 65536).abs() <= 16, "sin(pi/2) came out as {s}");
    let c = cos_fp(102944);
    assert!(c.abs() <= 16, "cos(pi/2) came out as {c}");
    // half of 90 degrees is pi / 4: both values near sqrt(2) / 2 = 0.70711
    let h = half_rad(90);
    assert_eq!(h, 51471);
    assert!((sin_fp(h) - 46340).abs() <= 16);
    assert!((cos_fp(h) - 46340).abs() <= 16);
}

#[test]
fn vector_length_and_normalization_exact() {
    // a 3-4-5 triangle scaled to fixed point
    let v = Vec3::new(3 * 65536, 4 * 65536, 0);
    assert_eq!(v.length(), 5 * 65536);
    let n = v.normalized();
    assert_eq!(n, Vec3::new(39321, 52428, 0));
}

#[test]
fn cross_and_dot_products_exact() {
    let x = Vec3::new(65536, 0, 0);
    let y = Vec3::new(0, 65536, 0);
    assert_eq!(x.cross(y), Vec3::new(0, 0, 65536));
    assert_eq!(x.dot(y), 0);
    let a = Vec3::new(2 * 65536, 0, 0);
    let b = Vec3::new(3 * 65536, 0, 0);
    assert_eq!(a.dot(b), 6 * 65536);
}
