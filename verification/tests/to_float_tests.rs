//! Tests of the integer-to-unit-interval conversion, read back as doubles.

use noise_fn::to_float::{unit_float_bits, unit_float_bits_u8, ONE_F64_BITS};
use noise_fn::{HashNoise, NoiseDomain, Seedable, ToFloat, WhiteNoise};

#[test]
fn zero_maps_to_exactly_zero() {
    assert_eq!(unit_float_bits(0), 0);
    assert_eq!(f64::from_bits(unit_float_bits(0)), 0.0);
}

#[test]
fn one_maps_to_two_to_the_minus_64() {
    // leading one in the lowest bit: exponent 959, mantissa 0
    let bits = unit_float_bits(1);
    assert_eq!(bits, 959u64 << 52);
    assert_eq!(f64::from_bits(bits), (2f64).powi(-64));
}

#[test]
fn max_maps_just_below_one() {
    let bits = unit_float_bits(u64::MAX);
    assert_eq!(bits, 0x3FEFFFFFFFFFFFFF);
    let value = f64::from_bits(bits);
    assert!(value < 1.0);
    assert!(value > 0.9999999999999998);
}

#[test]
fn top_bit_maps_to_one_half() {
    assert_eq!(f64::from_bits(unit_float_bits(1u64 << 63)), 0.5);
    assert_eq!(f64::from_bits(unit_float_bits(1u64 << 62)), 0.25);
}

#[test]
fn outputs_stay_in_unit_interval() {
    let samples = [
        0u64,
        1,
        2,
        3,
        255,
        256,
        0xDEADBEEF,
        1u64 << 52,
        (1u64 << 53) - 1,
        u64::MAX - 1,
        u64::MAX,
    ];
    for v in samples {
        let bits = unit_float_bits(v);
        assert!(bits < ONE_F64_BITS);
        let value = f64::from_bits(bits);
        assert!((0.0..1.0).contains(&value), "{} escaped [0,1)", value);
    }
}

#[test]
fn conversion_is_monotone() {
    let mut samples = vec![
        0u64,
        1,
        2,
        5,
        255,
        1024,
        0xDEADBEEF,
        1u64 << 40,
        (1u64 << 40) + 1,
        1u64 << 63,
        u64::MAX,
    ];
    samples.sort();
    let mut last = -1.0f64;
    for v in samples {
        let value = f64::from_bits(unit_float_bits(v));
        assert!(value >= last, "not monotone at {}", v);
        last = value;
    }
}

#[test]
fn byte_conversion_matches_scaled_word_conversion() {
    assert_eq!(unit_float_bits_u8(0), 0);
    // a byte spreads over [0, 1) in steps of 1/256
    assert_eq!(f64::from_bits(unit_float_bits_u8(1)), 1.0 / 256.0);
    assert_eq!(f64::from_bits(unit_float_bits_u8(128)), 0.5);
    assert_eq!(f64::from_bits(unit_float_bits_u8(255)), 255.0 / 256.0);
    for v in 0u8..=255 {
        assert_eq!(unit_float_bits_u8(v), unit_float_bits((v as u64) << 56));
    }
}

#[test]
fn to_float_composes_over_white_noise() {
    let inst = ToFloat::new(WhiteNoise::new()).seed(321);
    let bits = inst.noise_from_bytes([5u8, 6]);
    // the byte path applies the byte conversion to the inner byte output
    assert_eq!(bits, unit_float_bits_u8(inst.inner.noise([5u8, 6])));
    let value = f64::from_bits(bits);
    assert!((0.0..1.0).contains(&value));
    assert_eq!(value, inst.inner.noise([5u8, 6]) as f64 / 256.0);
}

#[test]
fn to_float_composes_over_hash_noise() {
    let inst = ToFloat::new(HashNoise::new()).seed(2024);
    let bits = inst.noise([4i64, -9]);
    // the combinator applies the conversion to the inner hash output
    assert_eq!(bits, unit_float_bits(inst.inner.noise([4i64, -9])));
    let value = f64::from_bits(bits);
    assert!((0.0..1.0).contains(&value));
    // the conversion does not hand the hash value back unchanged
    assert_ne!(bits, inst.inner.noise([4i64, -9]));
}
