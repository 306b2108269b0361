use sdf_modeler::float_bits::{f32_gt, f32_is_nan, f32_neg, ONE_BITS, POINT_NINE_BITS, ZERO_BITS};

fn samples() -> Vec<f32> {
    vec![
        0.0,
        -0.0,
        1.0,
        -1.0,
        0.9,
        f32::from_bits(0.9f32.to_bits() + 1),
        f32::from_bits(0.9f32.to_bits() - 1),
        0.5,
        -0.5,
        1e-45,
        -1e-45,
        1e-40,
        -1e-40,
        f32::MIN_POSITIVE,
        f32::MAX,
        f32::MIN,
        f32::INFINITY,
        f32::NEG_INFINITY,
        f32::NAN,
        -f32::NAN,
        123.456,
        -123.456,
        3.0e38,
    ]
}

#[test]
fn constants_match_their_floats() {
    assert_eq!(ZERO_BITS, 0.0f32.to_bits());
    assert_eq!(POINT_NINE_BITS, 0.9f32.to_bits());
    assert_eq!(ONE_BITS, 1.0f32.to_bits());
}

#[test]
fn gt_agrees_with_f32_comparison() {
    for a in samples() {
        for b in samples() {
            assert_eq!(f32_gt(a.to_bits(), b.to_bits()), a > b, "{} > {}", a, b);
        }
    }
}

#[test]
fn gt_on_thresholds() {
    assert!(f32_gt(ONE_BITS, POINT_NINE_BITS));
    assert!(!f32_gt(POINT_NINE_BITS, POINT_NINE_BITS));
    assert!(!f32_gt(ZERO_BITS, ZERO_BITS));
    assert!(!f32_gt((-0.0f32).to_bits(), ZERO_BITS));
    assert!(!f32_gt(ZERO_BITS, (-0.0f32).to_bits()));
    assert!(!f32_gt(f32::NAN.to_bits(), ZERO_BITS));
    assert!(f32_gt(1e-45f32.to_bits(), ZERO_BITS));
}

#[test]
fn nan_detection() {
    for a in samples() {
        assert_eq!(f32_is_nan(a.to_bits()), a.is_nan());
    }
}

#[test]
fn negation_flips_sign() {
    for a in samples() {
        assert_eq!(f32_neg(a.to_bits()), (-a).to_bits());
        assert_eq!(f32_neg(f32_neg(a.to_bits())), a.to_bits());
    }
}
