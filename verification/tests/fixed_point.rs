use polymarket_bot::fixed::{format_micros, micros_from_double, SCALE};

#[test]
fn scale_is_one_million() {
    assert_eq!(SCALE, 1_000_000);
}

#[test]
fn decodes_common_prices() {
    assert_eq!(micros_from_double(0.53f64.to_bits()), Some(530_000));
    assert_eq!(micros_from_double(0.57f64.to_bits()), Some(570_000));
    assert_eq!(micros_from_double(100.0f64.to_bits()), Some(100_000_000));
    assert_eq!(micros_from_double(106.0f64.to_bits()), Some(106_000_000));
    assert_eq!(micros_from_double(60000.0f64.to_bits()), Some(60_000_000_000));
    assert_eq!(micros_from_double(0.02f64.to_bits()), Some(20_000));
    assert_eq!(micros_from_double(0.000001f64.to_bits()), Some(1));
}

#[test]
fn decodes_negative_values() {
    assert_eq!(micros_from_double((-2.5f64).to_bits()), Some(-2_500_000));
    assert_eq!(micros_from_double((-500.0f64).to_bits()), Some(-500_000_000));
}

#[test]
fn decodes_both_zeros_as_zero() {
    assert_eq!(micros_from_double(0.0f64.to_bits()), Some(0));
    assert_eq!(micros_from_double((-0.0f64).to_bits()), Some(0));
    assert_eq!(micros_from_double(0), Some(0));
}

#[test]
fn rounds_to_the_nearest_unit() {
    // 2^-7 is 7812.5 units: a tie, which goes away from zero.
    assert_eq!(micros_from_double(0.0078125f64.to_bits()), Some(7_813));
    assert_eq!(micros_from_double((-0.0078125f64).to_bits()), Some(-7_813));
    // 2^-6 is 15625 units exactly.
    assert_eq!(micros_from_double(0.015625f64.to_bits()), Some(15_625));
    assert_eq!(micros_from_double(0.0000004f64.to_bits()), Some(0));
    assert_eq!(micros_from_double(0.0000006f64.to_bits()), Some(1));
    assert_eq!(micros_from_double(1.2345674f64.to_bits()), Some(1_234_567));
    assert_eq!(micros_from_double(1.2345676f64.to_bits()), Some(1_234_568));
}

#[test]
fn tiny_and_subnormal_values_round_to_zero() {
    assert_eq!(micros_from_double(1), Some(0));
    assert_eq!(micros_from_double(f64::MIN_POSITIVE.to_bits()), Some(0));
    assert_eq!(micros_from_double(1e-300f64.to_bits()), Some(0));
    assert_eq!(micros_from_double(1e-30f64.to_bits()), Some(0));
}

#[test]
fn rejects_what_units_cannot_hold() {
    assert_eq!(micros_from_double(f64::NAN.to_bits()), None);
    assert_eq!(micros_from_double(f64::INFINITY.to_bits()), None);
    assert_eq!(micros_from_double(f64::NEG_INFINITY.to_bits()), None);
    assert_eq!(micros_from_double(f64::MAX.to_bits()), None);
    assert_eq!(micros_from_double(1e13f64.to_bits()), None);
    assert_eq!(micros_from_double((-1e13f64).to_bits()), None);
    assert_eq!(micros_from_double(1e300f64.to_bits()), None);
}

#[test]
fn decodes_up_to_the_largest_amount() {
    assert_eq!(micros_from_double(9.0e12f64.to_bits()), Some(9_000_000_000_000_000_000));
    assert_eq!(micros_from_double((-9.0e12f64).to_bits()), Some(-9_000_000_000_000_000_000));
    assert_eq!(micros_from_double(4503599627370496.0f64.to_bits()), None);
}

#[test]
fn decode_agrees_with_rounding_in_floating_point() {
    let mut x = 0.0001f64;
    while x < 5000.0 {
        let expected = (x * 1e6).round() as i64;
        let got = micros_from_double(x.to_bits()).unwrap();
        assert!((got - expected).abs() <= 1, "{} decoded as {}", x, got);
        x = x * 1.37 + 0.000123;
    }
}

#[test]
fn formats_amounts() {
    assert_eq!(format_micros(10_000), "0.010000");
    assert_eq!(format_micros(100_000_000), "100.000000");
    assert_eq!(format_micros(-2_500_000), "-2.500000");
    assert_eq!(format_micros(0), "0.000000");
    assert_eq!(format_micros(1), "0.000001");
    assert_eq!(format_micros(-1), "-0.000001");
    assert_eq!(format_micros(999_999), "0.999999");
    assert_eq!(format_micros(1_000_000), "1.000000");
    assert_eq!(format_micros(60_000_123_456), "60000.123456");
}

#[test]
fn formats_the_extremes() {
    assert_eq!(format_micros(i128::MAX), "170141183460469231731687303715884.105727");
    assert_eq!(format_micros(i128::MIN), "-170141183460469231731687303715884.105728");
}
