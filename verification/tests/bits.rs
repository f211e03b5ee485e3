//! The bit-pattern comparison functions must agree exactly with Rust's own
//! IEEE-754 semantics on f64 values.

use randgsvd::fbits::{f64_bits_gt, f64_bits_in_unit_interval, f64_bits_is_nan};
use randgsvd::fixedpt::check_cos_sin_identity;

fn samples() -> Vec<f64> {
    vec![
        0.0,
        -0.0,
        1.0,
        -1.0,
        0.5,
        -0.5,
        1.0000000000000002,
        0.9999999999999999,
        2.0,
        -2.0,
        1e-300,
        -1e-300,
        5e-324,
        -5e-324,
        1e300,
        -1e300,
        f64::INFINITY,
        f64::NEG_INFINITY,
        f64::NAN,
        f64::MAX,
        f64::MIN,
        f64::MIN_POSITIVE,
        0.1,
        0.3,
        1.5,
        100.25,
    ]
}

#[test]
fn gt_matches_ieee_on_all_sample_pairs() {
    let vs = samples();
    for &a in &vs {
        for &b in &vs {
            assert_eq!(
                f64_bits_gt(a.to_bits(), b.to_bits()),
                a > b,
                "mismatch for {} > {}",
                a,
                b
            );
        }
    }
}

#[test]
fn nan_detection_matches_ieee() {
    for &a in &samples() {
        assert_eq!(f64_bits_is_nan(a.to_bits()), a.is_nan(), "mismatch for {}", a);
    }
}

#[test]
fn unit_interval_matches_ieee() {
    for &a in &samples() {
        assert_eq!(
            f64_bits_in_unit_interval(a.to_bits()),
            (0.0..=1.0).contains(&a),
            "mismatch for {}",
            a
        );
    }
}

#[test]
fn negative_zero_equals_positive_zero() {
    let pz = 0.0f64.to_bits();
    let nz = (-0.0f64).to_bits();
    assert!(!f64_bits_gt(pz, nz));
    assert!(!f64_bits_gt(nz, pz));
    assert!(f64_bits_in_unit_interval(nz));
}

#[test]
fn identity_check_on_exact_and_violating_pairs() {
    let one = 1.0f64.to_bits();
    let zero = 0.0f64.to_bits();
    assert!(check_cos_sin_identity(one, zero));
    assert!(check_cos_sin_identity(zero, one));
    assert!(check_cos_sin_identity(0.6f64.to_bits(), 0.8f64.to_bits()));
    assert!(check_cos_sin_identity(0.28f64.to_bits(), 0.96f64.to_bits()));
    // sqrt(1/2) twice: squares sum to 1 up to rounding far below the tolerance
    let h = std::f64::consts::FRAC_1_SQRT_2.to_bits();
    assert!(check_cos_sin_identity(h, h));
    // 1^2 + 0.003^2 - 1 = 9e-6 < 1e-5, just inside the tolerance
    assert!(check_cos_sin_identity(one, 0.003f64.to_bits()));
    // 1^2 + 0.0032^2 - 1 = 1.024e-5 > 1e-5, just outside
    assert!(!check_cos_sin_identity(one, 0.0032f64.to_bits()));
    // far off
    assert!(!check_cos_sin_identity(0.9f64.to_bits(), 0.1f64.to_bits()));
    assert!(!check_cos_sin_identity(zero, zero));
}
