//! Exact-value tests for the fixed-point vector and scalar operations.

use steering_behaviours::extensions::RandNonZero;
use steering_behaviours::math::isqrt;
use steering_behaviours::math::isqrt_ceil;
use steering_behaviours::notification::Notification;
use steering_behaviours::vec2::Vector2;
use steering_behaviours::MAX_SPEED;
use steering_behaviours::SCALE;

#[test]
fn isqrt_exact_values() {
    assert_eq!(isqrt(0), 0);
    assert_eq!(isqrt(1), 1);
    assert_eq!(isqrt(3), 1);
    assert_eq!(isqrt(4), 2);
    assert_eq!(isqrt(999_999), 999);
    assert_eq!(isqrt(1_000_000), 1000);
    assert_eq!(isqrt(10_000_000_000), 100_000);
    assert_eq!(isqrt(i64::MAX), 3_037_000_499);
}

#[test]
fn isqrt_ceil_exact_values() {
    assert_eq!(isqrt_ceil(0), 0);
    assert_eq!(isqrt_ceil(1), 1);
    assert_eq!(isqrt_ceil(2), 2);
    assert_eq!(isqrt_ceil(4), 2);
    assert_eq!(isqrt_ceil(2_000_000), 1415);
    assert_eq!(isqrt_ceil(10_000_000_000), 100_000);
}

#[test]
fn length_and_length_squared() {
    let v = Vector2::new(3000, 4000);
    assert_eq!(v.length_squared(), 25_000_000);
    assert_eq!(v.length(), 5000);
    let w = Vector2::new(-3000, 4000);
    assert_eq!(w.length_squared(), 25_000_000);
}

#[test]
fn clamp_length_max_leaves_short_vectors_alone() {
    let v = Vector2::new(500, -700);
    let r = v.clamp_length_max(1000);
    assert_eq!(r, v);
}

#[test]
fn clamp_length_max_rescales_long_vectors() {
    let v = Vector2::new(3000, 4000);
    let r = v.clamp_length_max(1000);
    assert_eq!(r, Vector2::new(600, 800));
    let w = Vector2::new(-3000, 4000);
    let rw = w.clamp_length_max(1000);
    assert_eq!(rw, Vector2::new(-600, 800));
}

#[test]
fn clamp_length_exact_scales_up_and_down() {
    let v = Vector2::new(600, 800);
    assert_eq!(v.clamp_length_exact(MAX_SPEED), Vector2::new(6000, 8000));
    let w = Vector2::new(30_000, 40_000);
    assert_eq!(w.clamp_length_exact(MAX_SPEED), Vector2::new(6000, 8000));
}

#[test]
fn clamp_length_exact_keeps_zero_at_zero() {
    let z = Vector2::zero();
    assert_eq!(z.clamp_length_exact(MAX_SPEED), Vector2::zero());
}

#[test]
fn scaled_frac_rounds_toward_zero() {
    let v = Vector2::new(-27, 5);
    assert_eq!(v.scaled_frac(9, 10), Vector2::new(-24, 4));
    let w = Vector2::new(3000, -3000);
    assert_eq!(w.scaled_frac(9, 10), Vector2::new(2700, -2700));
}

#[test]
fn plus_and_minus_are_componentwise() {
    let a = Vector2::new(10, -20);
    let b = Vector2::new(-3, 5);
    assert_eq!(a.plus(b), Vector2::new(7, -15));
    assert_eq!(a.minus(b), Vector2::new(13, -25));
}

#[test]
fn rand_unitary_is_pixel_length_and_nonzero() {
    for _ in 0..200 {
        let v = Vector2::rand_unitary();
        let n = v.length_squared();
        assert!(n >= SCALE * SCALE - 2 * SCALE, "norm {} too small", n);
        assert!(n <= SCALE * SCALE, "norm {} too large", n);
        assert!(!(v.x == 0 && v.y == 0));
    }
}

#[test]
fn notification_times_out_after_interval() {
    let mut n = Notification::default();
    assert_eq!(n.text, "Some text");
    assert!(!n.should_display(0));
    n.display(1000, "hello".to_string());
    assert_eq!(n.text, "hello");
    assert!(n.should_display(1000));
    assert!(n.should_display(3999));
    assert!(!n.should_display(4000));
}
