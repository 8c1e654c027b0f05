use qbit::ieee;

fn samples() -> Vec<f64> {
    vec![
        0.0,
        -0.0,
        1.0,
        -1.0,
        0.5,
        -0.5,
        0.25,
        0.70711,
        2.0,
        10.0,
        std::f64::consts::PI,
        -std::f64::consts::PI,
        f64::MIN_POSITIVE,
        -f64::MIN_POSITIVE,
        f64::from_bits(1),
        -f64::from_bits(1),
        f64::MAX,
        f64::MIN,
        f64::INFINITY,
        f64::NEG_INFINITY,
        f64::NAN,
        -f64::NAN,
        f64::from_bits(0x7FF0_0000_0000_0001),
        f64::from_bits(0xFFFF_FFFF_FFFF_FFFF),
    ]
}

#[test]
fn constants_are_the_named_numbers() {
    assert_eq!(ieee::ZERO, 0.0f64.to_bits());
    assert_eq!(ieee::ONE, 1.0f64.to_bits());
    assert_eq!(ieee::TWO, 2.0f64.to_bits());
    assert_eq!(ieee::TEN, 10.0f64.to_bits());
    assert_eq!(ieee::PI, std::f64::consts::PI.to_bits());
    assert_eq!(ieee::SQRT_2, std::f64::consts::SQRT_2.to_bits());
    assert_eq!(ieee::SIGN, (-0.0f64).to_bits());
    assert_eq!(ieee::INFINITY, f64::INFINITY.to_bits());
}

#[test]
fn lt_agrees_with_the_hardware_on_every_pair() {
    for a in samples() {
        for b in samples() {
            assert_eq!(ieee::lt(a.to_bits(), b.to_bits()), a < b, "{a:?} < {b:?}");
        }
    }
}

#[test]
fn eq_agrees_with_the_hardware_on_every_pair() {
    for a in samples() {
        for b in samples() {
            assert_eq!(ieee::eq(a.to_bits(), b.to_bits()), a == b, "{a:?} == {b:?}");
        }
    }
}

#[test]
fn zero_and_nan_agree_with_the_hardware() {
    for a in samples() {
        assert_eq!(ieee::zero(a.to_bits()), a == 0.0, "{a:?}");
        assert_eq!(ieee::nan(a.to_bits()), a.is_nan(), "{a:?}");
    }
}

#[test]
fn lt_is_strict_and_total_on_numbers() {
    for a in samples() {
        for b in samples() {
            let (x, y) = (a.to_bits(), b.to_bits());
            if ieee::lt(x, y) {
                assert!(!ieee::lt(y, x));
                assert!(!ieee::eq(x, y));
            }
            if !ieee::nan(x) && !ieee::nan(y) {
                assert!(ieee::lt(x, y) || ieee::eq(x, y) || ieee::lt(y, x));
            }
        }
    }
}

#[test]
fn nan_compares_false_with_everything() {
    let nan = f64::NAN.to_bits();
    for b in samples() {
        assert!(!ieee::lt(nan, b.to_bits()));
        assert!(!ieee::lt(b.to_bits(), nan));
        assert!(!ieee::eq(nan, b.to_bits()));
    }
    assert!(!ieee::eq(nan, nan));
}

#[test]
fn the_two_zeros_are_equal_and_unordered() {
    let (p, n) = (0.0f64.to_bits(), (-0.0f64).to_bits());
    assert_ne!(p, n);
    assert!(ieee::eq(p, n));
    assert!(!ieee::lt(p, n));
    assert!(!ieee::lt(n, p));
    assert!(ieee::zero(n));
}
