use ps_optim::number::{
    abs, equal_to, is_finite_number, is_not_a_number, less_than, negate, INFINITY, ONE, ZERO,
};
use rand::Rng;

fn samples() -> Vec<f64> {
    vec![
        0.0,
        -0.0,
        1.0,
        -1.0,
        0.125,
        -0.25,
        2.5,
        10.0,
        -10.0,
        11.0,
        1e-300,
        -1e-300,
        5e-324,
        -5e-324,
        1e300,
        -1e300,
        f64::MAX,
        f64::MIN,
        f64::MIN_POSITIVE,
        f64::EPSILON,
        f64::INFINITY,
        f64::NEG_INFINITY,
        f64::NAN,
        -f64::NAN,
        f64::from_bits(0x7FF0_0000_0000_0001),
        f64::from_bits(0xFFFF_FFFF_FFFF_FFFF),
    ]
}

#[test]
fn named_numbers_read_as_expected() {
    assert_eq!(f64::from_bits(ZERO), 0.0);
    assert_eq!(f64::from_bits(ONE), 1.0);
    assert_eq!(f64::from_bits(INFINITY), f64::INFINITY);
}

#[test]
fn less_than_agrees_with_the_hardware() {
    let xs = samples();
    for a in xs.iter() {
        for b in xs.iter() {
            assert_eq!(less_than(a.to_bits(), b.to_bits()), a < b, "{:?} < {:?}", a, b);
        }
    }
}

#[test]
fn equal_to_agrees_with_the_hardware() {
    let xs = samples();
    for a in xs.iter() {
        for b in xs.iter() {
            assert_eq!(equal_to(a.to_bits(), b.to_bits()), a == b, "{:?} == {:?}", a, b);
        }
    }
}

#[test]
fn comparisons_agree_with_the_hardware_on_random_bits() {
    let mut rng = rand::thread_rng();
    for _ in 0..20000 {
        let a: u64 = rng.gen();
        let b: u64 = rng.gen();
        let (x, y) = (f64::from_bits(a), f64::from_bits(b));
        assert_eq!(less_than(a, b), x < y);
        assert_eq!(equal_to(a, b), x == y);
        assert_eq!(is_not_a_number(a), x.is_nan());
        assert_eq!(is_finite_number(a), x.is_finite());
    }
}

#[test]
fn comparisons_agree_with_the_hardware_on_random_numbers() {
    let mut rng = rand::thread_rng();
    for _ in 0..20000 {
        let x: f64 = rng.gen_range(-1000.0, 1000.0);
        let y: f64 = rng.gen_range(-1000.0, 1000.0);
        assert_eq!(less_than(x.to_bits(), y.to_bits()), x < y);
        assert_eq!(equal_to(x.to_bits(), y.to_bits()), x == y);
        assert!(equal_to(x.to_bits(), x.to_bits()));
    }
}

#[test]
fn nan_and_infinities_are_told_apart() {
    for x in samples() {
        assert_eq!(is_not_a_number(x.to_bits()), x.is_nan(), "{:?}", x);
        assert_eq!(is_finite_number(x.to_bits()), x.is_finite(), "{:?}", x);
    }
}

#[test]
fn negate_flips_the_sign() {
    for x in samples() {
        let r = f64::from_bits(negate(x.to_bits()));
        if x.is_nan() {
            assert!(r.is_nan());
        } else {
            assert_eq!(r.to_bits(), (-1.0 * x).to_bits(), "{:?}", x);
        }
    }
    assert_eq!(f64::from_bits(negate(0.125f64.to_bits())), -0.125);
}

#[test]
fn abs_clears_the_sign() {
    for x in samples() {
        let r = abs(x.to_bits());
        assert_eq!(r, x.abs().to_bits(), "{:?}", x);
    }
    assert_eq!(f64::from_bits(abs((-1.45f64).to_bits())), 1.45);
    assert_eq!(f64::from_bits(abs(1.65f64.to_bits())), 1.65);
}

#[test]
fn zeros_are_equal_and_neither_is_below_the_other() {
    let (p, n) = (0.0f64.to_bits(), (-0.0f64).to_bits());
    assert!(equal_to(p, n));
    assert!(!less_than(p, n));
    assert!(!less_than(n, p));
}
