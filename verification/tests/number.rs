use tree_walker::number::Number;

fn num(x: f64) -> Number {
    Number::from_bits(x.to_bits())
}

fn samples() -> Vec<f64> {
    vec![
        0.0,
        -0.0,
        1.0,
        -1.0,
        0.5,
        -0.5,
        2.0,
        123.45,
        -123.45,
        f64::MIN_POSITIVE,
        -f64::MIN_POSITIVE,
        5e-324,
        -5e-324,
        f64::MAX,
        f64::MIN,
        f64::INFINITY,
        f64::NEG_INFINITY,
        f64::NAN,
        -f64::NAN,
        f64::from_bits(0x7ff0_0000_0000_0001),
        f64::from_bits(0xfff8_0000_0000_0001),
        1e300,
        1e-300,
    ]
}

#[test]
fn order_is_that_of_the_floats() {
    for &x in &samples() {
        for &y in &samples() {
            assert_eq!(num(x).lt(num(y)), x < y, "{} < {}", x, y);
            assert_eq!(num(x).le(num(y)), x <= y, "{} <= {}", x, y);
            assert_eq!(num(x).gt(num(y)), x > y, "{} > {}", x, y);
            assert_eq!(num(x).ge(num(y)), x >= y, "{} >= {}", x, y);
            assert_eq!(num(x).equals(num(y)), x == y, "{} == {}", x, y);
            assert_eq!(num(x) == num(y), x == y, "{} == {}", x, y);
        }
    }
}

#[test]
fn negation_is_that_of_the_floats() {
    for &x in &samples() {
        assert_eq!(num(x).neg().to_bits(), (-x).to_bits(), "-{}", x);
    }
}

#[test]
fn nan_is_told_by_the_bits() {
    for &x in &samples() {
        assert_eq!(num(x).nan(), x.is_nan(), "{}", x);
    }
}

#[test]
fn bits_go_in_and_out_unchanged() {
    assert_eq!(Number::from_bits(0x4059_0000_0000_0000).to_bits(), 0x4059_0000_0000_0000);
    assert_eq!(Number::from_bits(0x4059_0000_0000_0000).bits, 100.0f64.to_bits());
}

#[test]
fn two_zeros_are_equal_and_a_nan_equals_nothing() {
    assert!(num(0.0) == num(-0.0));
    assert!(num(f64::NAN) != num(f64::NAN));
    assert!(!num(0.0).lt(num(-0.0)));
    assert!(num(0.0).le(num(-0.0)));
}
