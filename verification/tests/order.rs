use amos_rs::order::{finite, is_integer, normalize, NormalizedOrder};

#[test]
fn normalize_positive_fraction() {
    assert_eq!(
        normalize(1.5f64.to_bits()),
        NormalizedOrder { negative: false, magnitude: 0x3FF8_0000_0000_0000, integral: false }
    );
}

#[test]
fn normalize_negative_fraction() {
    assert_eq!(
        normalize((-1.5f64).to_bits()),
        NormalizedOrder { negative: true, magnitude: 0x3FF8_0000_0000_0000, integral: false }
    );
}

#[test]
fn normalize_negative_integer() {
    assert_eq!(
        normalize((-2.0f64).to_bits()),
        NormalizedOrder { negative: true, magnitude: 2.0f64.to_bits(), integral: true }
    );
}

#[test]
fn zero_of_either_sign_is_not_negative() {
    assert_eq!(
        normalize(0.0f64.to_bits()),
        NormalizedOrder { negative: false, magnitude: 0, integral: true }
    );
    assert_eq!(
        normalize((-0.0f64).to_bits()),
        NormalizedOrder { negative: false, magnitude: 0, integral: true }
    );
}

#[test]
fn magnitude_is_the_absolute_value() {
    let samples = [-1e300, -3.25, -1.0, -1e-310, 0.0, 5e-324, 0.1, 1.0, 2.5, 1e17, f64::MAX];
    for x in samples {
        let order = normalize(x.to_bits());
        assert_eq!(f64::from_bits(order.magnitude), x.abs());
        assert_eq!(order.negative, x < 0.0);
    }
}

#[test]
fn is_integer_agrees_with_floor() {
    let samples = [
        0.0,
        -0.0,
        5e-324,
        2.2250738585072014e-308,
        1e-310,
        0.1,
        0.5,
        0.9999999999999999,
        1.0,
        1.0000000000000002,
        1.5,
        2.0,
        3.0,
        3.75,
        1024.0,
        1024.5,
        123456789.0,
        123456789.125,
        4503599627370495.5,
        4503599627370496.0,
        4503599627370497.0,
        9007199254740992.0,
        9007199254740994.0,
        1e17,
        1e300,
        f64::MAX,
        f64::MIN_POSITIVE,
    ];
    for x in samples {
        assert_eq!(is_integer(x.to_bits()), x.floor() == x, "at {}", x);
        assert_eq!(is_integer((-x).to_bits()), x.floor() == x, "at {}", -x);
    }
}

#[test]
fn is_integer_on_every_power_of_two() {
    let mut x = f64::MIN_POSITIVE / 4503599627370496.0;
    while x.is_finite() {
        assert_eq!(is_integer(x.to_bits()), x >= 1.0, "at {}", x);
        let above = f64::from_bits(x.to_bits() + 1);
        assert_eq!(is_integer(above.to_bits()), above.floor() == above, "at {}", above);
        x *= 2.0;
    }
}

#[test]
fn finite_tells_infinities_and_nans_apart() {
    assert!(finite(0.0f64.to_bits()));
    assert!(finite(f64::MAX.to_bits()));
    assert!(finite(f64::MIN.to_bits()));
    assert!(finite(5e-324f64.to_bits()));
    assert!(!finite(f64::INFINITY.to_bits()));
    assert!(!finite(f64::NEG_INFINITY.to_bits()));
    assert!(!finite(f64::NAN.to_bits()));
    assert!(!finite(0xFFF0_0000_0000_0001));
}
