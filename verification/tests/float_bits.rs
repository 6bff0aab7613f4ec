use data_analysis::float_bits::{ge, is_nan, le, lt};

const VALUES: [f64; 14] = [
    0.0, -0.0, 1.0, -1.0, 0.5, -0.5, 1e300, -1e300, f64::MIN_POSITIVE, 5e-324, f64::INFINITY,
    f64::NEG_INFINITY, f64::MAX, f64::NAN,
];

#[test]
fn nan_is_recognised() {
    for &v in VALUES.iter() {
        assert_eq!(is_nan(v.to_bits()), v.is_nan(), "{}", v);
    }
    assert!(is_nan(0x7ff8_0000_0000_0001));
    assert!(is_nan(0xfff0_0000_0000_0001));
    assert!(!is_nan(0x7ff0_0000_0000_0000));
}

#[test]
fn comparisons_agree_with_f64() {
    for &a in VALUES.iter() {
        for &c in VALUES.iter() {
            assert_eq!(lt(a.to_bits(), c.to_bits()), a < c, "{} < {}", a, c);
            assert_eq!(le(a.to_bits(), c.to_bits()), a <= c, "{} <= {}", a, c);
            assert_eq!(ge(a.to_bits(), c.to_bits()), a >= c, "{} >= {}", a, c);
        }
    }
}
