use encounter::binary64::Real;

fn r(x: f64) -> Real {
    Real { bits: x.to_bits() }
}

fn f(x: Real) -> f64 {
    f64::from_bits(x.bits)
}

const SAMPLES: [f64; 14] = [
    0.0,
    -0.0,
    1.0,
    -1.0,
    0.1,
    -0.1,
    0.4,
    2.5,
    -7.25,
    1e-310,
    -1e-310,
    f64::INFINITY,
    f64::NEG_INFINITY,
    f64::NAN,
];

#[test]
fn comparisons_agree_with_binary64() {
    for &a in SAMPLES.iter() {
        for &b in SAMPLES.iter() {
            assert_eq!(r(a).lt(&r(b)), a < b, "{a} < {b}");
            assert_eq!(r(a).le(&r(b)), a <= b, "{a} <= {b}");
            assert_eq!(r(a).gt(&r(b)), a > b, "{a} > {b}");
            assert_eq!(r(a).ge(&r(b)), a >= b, "{a} >= {b}");
            assert_eq!(r(a) == r(b), a == b, "{a} == {b}");
        }
    }
}

#[test]
fn abs_max_and_clamp_agree_with_binary64() {
    for &a in SAMPLES.iter() {
        assert_eq!(r(a).abs().bits, a.abs().to_bits());
        assert_eq!(r(a).is_nan(), a.is_nan());
        for &b in SAMPLES.iter() {
            let m = f(r(a).max(&r(b)));
            let expected = a.max(b);
            assert!(m == expected || (m.is_nan() && expected.is_nan()), "max({a}, {b})");
        }
        let c = f(r(a).clamp(&r(0.0), &r(1.0)));
        let expected = a.clamp(0.0, 1.0);
        assert!(c == expected || (c.is_nan() && expected.is_nan()), "clamp({a})");
    }
    assert_eq!(Real::zero().bits, 0.0f64.to_bits());
}
