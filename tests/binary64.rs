use gamma_dist::binary64::{
    is_infinite, is_nan, key_of, le, lt, magnitude_of, ulps_eq, NEG_INFINITY, ONE, POS_INFINITY,
    POS_ZERO, SIGN_MASK,
};

#[test]
fn constants_match_std() {
    assert_eq!(ONE, 1.0f64.to_bits());
    assert_eq!(POS_ZERO, 0.0f64.to_bits());
    assert_eq!(POS_INFINITY, f64::INFINITY.to_bits());
    assert_eq!(NEG_INFINITY, f64::NEG_INFINITY.to_bits());
    assert_eq!(SIGN_MASK, (-0.0f64).to_bits());
}

#[test]
fn classification_agrees_with_std() {
    let values = [
        0.0, -0.0, 1.0, -1.0, 0.1, 160.0, f64::MIN_POSITIVE, f64::MAX, f64::MIN,
        f64::INFINITY, f64::NEG_INFINITY, f64::NAN, -f64::NAN, f64::from_bits(1),
    ];
    for a in values {
        assert_eq!(is_nan(a.to_bits()), a.is_nan());
        assert_eq!(is_infinite(a.to_bits()), a.is_infinite());
        assert_eq!(magnitude_of(a.to_bits()), a.abs().to_bits());
        for b in values {
            assert_eq!(lt(a.to_bits(), b.to_bits()), a < b, "{} < {}", a, b);
            assert_eq!(le(a.to_bits(), b.to_bits()), a <= b, "{} <= {}", a, b);
        }
    }
}

#[test]
fn keys_of_neighbours() {
    assert_eq!(key_of(0.0f64.to_bits()), 0);
    assert_eq!(key_of((-0.0f64).to_bits()), 0);
    assert_eq!(key_of(f64::from_bits(1).to_bits()), 1);
    assert_eq!(key_of((-f64::from_bits(1)).to_bits()), -1);
    assert_eq!(key_of(ONE), 0x3FF0_0000_0000_0000);
}

#[test]
fn ulps_tolerance() {
    let one = 1.0f64.to_bits();
    assert!(ulps_eq(one, one, 0));
    assert!(ulps_eq(one + 4, one, 4));
    assert!(!ulps_eq(one + 5, one, 4));
    assert!(ulps_eq(one - 4, one, 4));
    assert!(!ulps_eq(one, one - 5, 4));
    assert!(ulps_eq(0.0f64.to_bits(), (-0.0f64).to_bits(), 0));
    assert!(ulps_eq(f64::from_bits(2).to_bits(), (-f64::from_bits(2)).to_bits(), 4));
    assert!(!ulps_eq(f64::NAN.to_bits(), f64::NAN.to_bits(), 4));
    assert!(ulps_eq(POS_INFINITY, POS_INFINITY, 4));
    assert!(ulps_eq(POS_INFINITY, f64::MAX.to_bits(), 4));
    assert!(!ulps_eq(POS_INFINITY, NEG_INFINITY, 4));
    assert!(ulps_eq(POS_INFINITY, NEG_INFINITY, u64::MAX));
    assert!(!ulps_eq(1.0f64.to_bits(), 2.0f64.to_bits(), 4));
}
