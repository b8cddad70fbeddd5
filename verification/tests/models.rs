use omnibook_quoter::models::{price_is_nonpositive, price_is_positive};

#[test]
fn price_comparisons_agree_with_binary64() {
    let values = [
        0.0f64, -0.0, 1.0, -1.0, 7963860000000.0, -7963860000000.0, f64::MIN_POSITIVE,
        5e-324, -5e-324, f64::MAX, f64::MIN, f64::INFINITY, f64::NEG_INFINITY, f64::NAN, -f64::NAN,
    ];
    for v in values {
        assert_eq!(price_is_positive(v.to_bits()), v > 0.0, "{:?}", v);
        assert_eq!(price_is_nonpositive(v.to_bits()), v <= 0.0, "{:?}", v);
    }
    // Every NaN pattern is neither.
    for bits in [0x7ff0_0000_0000_0001u64, 0x7fff_ffff_ffff_ffff, 0xfff0_0000_0000_0001, u64::MAX] {
        assert!(!price_is_positive(bits));
        assert!(!price_is_nonpositive(bits));
    }
}
