use raytracer::fbits::{f32_bits_is_negative, f32_bits_lt, f32_bits_neg, F32_GUARD_EPS_BITS};

fn lt_via_bits(a: f32, b: f32) -> bool {
    f32_bits_lt(a.to_bits(), b.to_bits())
}

#[test]
fn lt_matches_float_order_on_ordinary_values() {
    let values = [
        0.0f32, -0.0, 1.0, -1.0, 0.5, -0.5, 1e-5, 1e-3, 255.0, 1e30, -1e30, 1e-40, -1e-40,
        f32::INFINITY, f32::NEG_INFINITY, f32::MIN_POSITIVE, f32::MAX, f32::MIN,
    ];
    for &a in values.iter() {
        for &b in values.iter() {
            assert_eq!(lt_via_bits(a, b), a < b, "comparing {a} < {b}");
        }
    }
}

#[test]
fn lt_is_false_on_nan_operands() {
    let nan = f32::NAN;
    assert!(!lt_via_bits(nan, 1.0));
    assert!(!lt_via_bits(1.0, nan));
    assert!(!lt_via_bits(nan, nan));
    assert!(!lt_via_bits(-nan, 0.0));
    assert!(!lt_via_bits(0.0, -nan));
}

#[test]
fn the_two_zeros_are_equal() {
    assert!(!lt_via_bits(0.0, -0.0));
    assert!(!lt_via_bits(-0.0, 0.0));
    assert!(lt_via_bits(-0.0, 1e-30));
    assert!(lt_via_bits(-1e-30, 0.0));
}

#[test]
fn negation_flips_the_sign_bit_exactly() {
    let values = [0.0f32, -0.0, 1.0, -2.5, 1e-40, f32::INFINITY, 3.25];
    for &a in values.iter() {
        assert_eq!(f32_bits_neg(a.to_bits()), (-a).to_bits(), "negating {a}");
    }
}

#[test]
fn is_negative_matches_float_sign_test() {
    assert!(f32_bits_is_negative((-1.0f32).to_bits()));
    assert!(f32_bits_is_negative(f32::NEG_INFINITY.to_bits()));
    assert!(!f32_bits_is_negative((-0.0f32).to_bits()));
    assert!(!f32_bits_is_negative(0.0f32.to_bits()));
    assert!(!f32_bits_is_negative(2.0f32.to_bits()));
    assert!(!f32_bits_is_negative(f32::NAN.to_bits()));
}

#[test]
fn guard_threshold_is_the_float_nearest_1e_minus_5() {
    assert_eq!(F32_GUARD_EPS_BITS, 1e-5f32.to_bits());
    assert!(lt_via_bits(9.9e-6, 1e-5));
    assert!(!lt_via_bits(1.1e-5, 1e-5));
}
