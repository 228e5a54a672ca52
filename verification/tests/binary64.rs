use song_catalog::Binary64;

fn number(x: f64) -> Binary64 {
    Binary64::from_bits(x.to_bits())
}

#[test]
fn bits_are_kept_as_given() {
    assert_eq!(Binary64::from_bits(0x4009_21fb_5444_2d18).to_bits(), 0x4009_21fb_5444_2d18);
    assert_eq!(f64::from_bits(number(-3.5).to_bits()), -3.5);
}

#[test]
fn finiteness_follows_the_exponent() {
    for x in [0.0, -0.0, 1.0, -1.0, f64::MAX, f64::MIN, f64::MIN_POSITIVE, 5e-324] {
        assert!(number(x).is_finite(), "{}", x);
    }
    for x in [f64::INFINITY, f64::NEG_INFINITY, f64::NAN, -f64::NAN] {
        assert!(!number(x).is_finite(), "{}", x);
    }
    assert!(!Binary64::from_bits(0x7ff0_0000_0000_0001).is_finite());
    assert!(Binary64::from_bits(0x7fef_ffff_ffff_ffff).is_finite());
}

#[test]
fn sign_tests_agree_with_comparison() {
    let samples = [
        0.0,
        -0.0,
        1.0,
        -1.0,
        5e-324,
        -5e-324,
        f64::MAX,
        f64::MIN,
        f64::INFINITY,
        f64::NEG_INFINITY,
        f64::NAN,
        -f64::NAN,
    ];
    for x in samples {
        assert_eq!(number(x).is_non_negative(), x >= 0.0, "{}", x);
        assert_eq!(number(x).is_positive(), x > 0.0, "{}", x);
    }
}
