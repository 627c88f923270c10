use rayflux::scalar::{
    Scalar, EPSILON_BITS, INFINITY_BITS, NAN_BITS, NEG_ONE_BITS, ONE_BITS, SIGN_BIT,
};

fn s(x: f64) -> Scalar {
    Scalar::from_bits(x.to_bits())
}

fn f(x: Scalar) -> f64 {
    f64::from_bits(x.to_bits())
}

fn samples() -> Vec<f64> {
    vec![
        f64::NEG_INFINITY,
        f64::MIN,
        -1.0e300,
        -6.0,
        -1.0,
        -f64::EPSILON,
        -f64::MIN_POSITIVE,
        -5.0e-324,
        -0.0,
        0.0,
        5.0e-324,
        f64::MIN_POSITIVE,
        f64::EPSILON / 2.0,
        f64::EPSILON,
        0.1,
        0.999_999_999,
        1.0,
        1.000_000_000_000_000_2,
        3.5,
        4.0,
        1.0e300,
        f64::MAX,
        f64::INFINITY,
        f64::NAN,
        -f64::NAN,
        f64::from_bits(0x7FF0_0000_0000_0001),
        f64::from_bits(0xFFFF_FFFF_FFFF_FFFF),
    ]
}

#[test]
fn the_constants_are_the_bit_patterns_they_name() {
    assert_eq!(ONE_BITS, 1.0_f64.to_bits());
    assert_eq!(NEG_ONE_BITS, (-1.0_f64).to_bits());
    assert_eq!(EPSILON_BITS, f64::EPSILON.to_bits());
    assert_eq!(INFINITY_BITS, f64::INFINITY.to_bits());
    assert_eq!(SIGN_BIT, (-0.0_f64).to_bits());
    assert!(f64::from_bits(NAN_BITS).is_nan());
}

#[test]
fn bit_patterns_go_in_and_out_unchanged() {
    for x in samples() {
        assert_eq!(s(x).to_bits(), x.to_bits());
        assert_eq!(Scalar::from_bits(x.to_bits()).bits, x.to_bits());
    }
}

#[test]
fn comparisons_agree_with_the_numbers() {
    for a in samples() {
        for b in samples() {
            assert_eq!(s(a).lt(&s(b)), a < b, "{a:?} < {b:?}");
            assert_eq!(s(a).le(&s(b)), a <= b, "{a:?} <= {b:?}");
            assert_eq!(s(a).gt(&s(b)), a > b, "{a:?} > {b:?}");
            assert_eq!(s(a).ge(&s(b)), a >= b, "{a:?} >= {b:?}");
            assert_eq!(s(a).same_number(&s(b)), a == b, "{a:?} == {b:?}");
        }
    }
}

#[test]
fn classification_agrees_with_the_numbers() {
    for a in samples() {
        assert_eq!(s(a).is_nan(), a.is_nan());
        assert_eq!(s(a).is_finite(), a.is_finite());
        assert_eq!(s(a).is_non_negative(), a >= 0.0);
    }
    assert!(s(-0.0).is_non_negative());
    assert!(!s(-5.0e-324).is_non_negative());
}

#[test]
fn negation_and_absolute_value_change_the_sign_bit_only() {
    for a in samples() {
        assert_eq!(s(a).neg().to_bits(), (-a).to_bits());
        assert_eq!(s(a).abs().to_bits(), a.abs().to_bits());
    }
    assert_eq!(f(s(3.5).neg()), -3.5);
    assert_eq!(f(s(-3.5).abs()), 3.5);
}

#[test]
fn larger_and_smaller_agree_with_the_numbers() {
    for a in samples() {
        for b in samples() {
            let max = f(s(a).max(&s(b)));
            let min = f(s(a).min(&s(b)));
            if a.is_nan() && b.is_nan() {
                assert!(max.is_nan() && min.is_nan());
            } else {
                assert_eq!(max, a.max(b), "max of {a:?} and {b:?}");
                assert_eq!(min, a.min(b), "min of {a:?} and {b:?}");
            }
        }
    }
    assert_eq!(s(-0.0).max(&s(0.0)).to_bits(), (-0.0_f64).to_bits());
    assert_eq!(s(0.0).min(&s(-0.0)).to_bits(), 0.0_f64.to_bits());
    assert_eq!(f(s(f64::NAN).max(&s(2.0))), 2.0);
    assert_eq!(f(s(2.0).min(&s(f64::NAN))), 2.0);
}

#[test]
fn the_product_with_infinity_keeps_the_sign() {
    for a in samples() {
        let product = f(s(a).times_infinity());
        let expected = a * f64::INFINITY;
        if expected.is_nan() {
            assert!(product.is_nan(), "{a:?} times infinity");
        } else {
            assert_eq!(product, expected, "{a:?} times infinity");
        }
    }
    assert_eq!(f(s(0.5).times_infinity()), f64::INFINITY);
    assert_eq!(f(s(-2.0).times_infinity()), f64::NEG_INFINITY);
    assert!(f(s(0.0).times_infinity()).is_nan());
    assert!(f(s(-0.0).times_infinity()).is_nan());
}
