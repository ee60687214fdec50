use product_inventory::price::{Price, INFINITY_BITS, SIGN_BIT};

fn price(value: f64) -> Price {
    Price::from_bits(value.to_bits())
}

fn samples() -> Vec<f64> {
    vec![
        0.0,
        -0.0,
        1.0,
        -1.0,
        9.99,
        -9.99,
        0.01,
        -0.01,
        f64::MIN_POSITIVE,
        -f64::MIN_POSITIVE,
        5e-324,
        -5e-324,
        f64::MAX,
        f64::MIN,
        f64::INFINITY,
        f64::NEG_INFINITY,
        f64::NAN,
        -f64::NAN,
        f64::EPSILON,
        -f64::EPSILON,
        1e308,
        -1e308,
        123456789.125,
        -123456789.125,
    ]
}

#[test]
fn bits_round_trip() {
    for value in samples() {
        let p = price(value);
        assert_eq!(p.to_bits(), value.to_bits());
        assert_eq!(p.bits, value.to_bits());
    }
    assert_eq!(Price::from_bits(0x4023_fae1_47ae_147b).to_bits(), 9.99f64.to_bits());
}

#[test]
fn named_encodings() {
    assert_eq!(SIGN_BIT, (-0.0f64).to_bits());
    assert_eq!(INFINITY_BITS, f64::INFINITY.to_bits());
    assert_eq!(SIGN_BIT + INFINITY_BITS, f64::NEG_INFINITY.to_bits());
}

#[test]
fn is_negative_agrees_with_comparison() {
    for value in samples() {
        assert_eq!(price(value).is_negative(), value < 0.0, "value {value:?}");
    }
}

#[test]
fn zero_of_either_sign_is_not_negative() {
    assert!(!price(0.0).is_negative());
    assert!(!price(-0.0).is_negative());
}

#[test]
fn not_a_number_is_not_negative() {
    assert!(!price(f64::NAN).is_negative());
    assert!(!price(-f64::NAN).is_negative());
    assert!(!Price::from_bits(0xfff0_0000_0000_0001).is_negative());
    assert!(!Price::from_bits(0xffff_ffff_ffff_ffff).is_negative());
    assert!(!Price::from_bits(0x7ff8_0000_0000_0000).is_negative());
}

#[test]
fn negative_infinity_is_negative() {
    assert!(price(f64::NEG_INFINITY).is_negative());
    assert!(!price(f64::INFINITY).is_negative());
}

#[test]
fn smallest_magnitudes() {
    assert!(price(-5e-324).is_negative());
    assert!(!price(5e-324).is_negative());
    assert!(Price::from_bits(0x8000_0000_0000_0001).is_negative());
}

#[test]
fn is_negative_agrees_on_a_sweep_of_encodings() {
    // A multiplicative walk through the 64-bit space reaches every exponent
    // with both signs.
    let mut bits: u64 = 1;
    for _ in 0..200_000 {
        let value = f64::from_bits(bits);
        assert_eq!(Price::from_bits(bits).is_negative(), value < 0.0, "bits {bits:#x}");
        bits = bits.wrapping_mul(6364136223846793005).wrapping_add(1442695040888963407);
    }
}

#[test]
fn is_nan_and_is_zero_agree_with_the_number() {
    for value in samples() {
        assert_eq!(price(value).is_nan(), value.is_nan(), "value {value:?}");
        assert_eq!(price(value).is_zero(), value == 0.0, "value {value:?}");
    }
    let mut bits: u64 = 1;
    for _ in 0..200_000 {
        let value = f64::from_bits(bits);
        assert_eq!(Price::from_bits(bits).is_nan(), value.is_nan(), "bits {bits:#x}");
        assert_eq!(Price::from_bits(bits).is_zero(), value == 0.0, "bits {bits:#x}");
        bits = bits.wrapping_mul(6364136223846793005).wrapping_add(1442695040888963407);
    }
}

#[test]
fn equality_agrees_with_the_numbers() {
    for a in samples() {
        for b in samples() {
            assert_eq!(price(a) == price(b), a == b, "{a:?} and {b:?}");
            assert_eq!(price(a) != price(b), a != b, "{a:?} and {b:?}");
        }
    }
}

#[test]
fn the_two_zeros_are_equal() {
    assert!(price(0.0) == price(-0.0));
    assert!(price(-0.0) == price(0.0));
}

#[test]
fn not_a_number_equals_nothing() {
    assert!(price(f64::NAN) != price(f64::NAN));
    assert!(price(f64::NAN) != price(0.0));
    assert!(price(1.0) != price(f64::NAN));
}
