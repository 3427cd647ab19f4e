use blanko_quaternions::elementary::{
    atan, atan2, exp, ln, sin_cos, HALF_PI_RAW, LN2_RAW, PI_RAW, QUARTER_PI_RAW, TAU_RAW,
};
use blanko_quaternions::scalar::{Scalar, NAN_RAW, ONE_RAW};

fn raw(n: i64) -> Scalar {
    Scalar { raw: n }
}

fn sc(x: f64) -> Scalar {
    Scalar { raw: (x * ONE_RAW as f64).round() as i64 }
}

fn val(s: Scalar) -> f64 {
    assert!(s.finite(), "non-finite scalar");
    s.raw as f64 / ONE_RAW as f64
}

#[test]
fn constants_are_the_nearest_raw_values() {
    assert_eq!(PI_RAW, (std::f64::consts::PI * ONE_RAW as f64).round() as i64);
    assert_eq!(HALF_PI_RAW, (std::f64::consts::FRAC_PI_2 * ONE_RAW as f64).round() as i64);
    assert_eq!(QUARTER_PI_RAW, (std::f64::consts::FRAC_PI_4 * ONE_RAW as f64).round() as i64);
    assert_eq!(TAU_RAW, (std::f64::consts::TAU * ONE_RAW as f64).round() as i64);
    assert_eq!(LN2_RAW, (std::f64::consts::LN_2 * ONE_RAW as f64).round() as i64);
}

#[test]
fn sine_and_cosine_exact_values() {
    assert_eq!(sin_cos(&raw(0)), (raw(0), raw(ONE_RAW)));
    assert_eq!(sin_cos(&raw(ONE_RAW)), (raw(14117540), raw(9064768)));
    assert_eq!(sin_cos(&raw(-41943040)), (raw(-10040696), raw(-13440959)));
    assert_eq!(sin_cos(&raw(1681915904)), (raw(-4652034), raw(16119353)));
    assert_eq!(sin_cos(&raw(HALF_PI_RAW)), (raw(ONE_RAW), raw(0)));
    assert_eq!(sin_cos(&raw(-1678)), (raw(-1678), raw(ONE_RAW - 1)));
    // a quarter and a twelfth of a turn
    assert_eq!(sin_cos(&raw(13176795)), (raw(11863283), raw(11863283)));
    assert_eq!(sin_cos(&raw(8784530)), (raw(8388608), raw(14529495)));
    assert_eq!(sin_cos(&raw(NAN_RAW)), (raw(NAN_RAW), raw(NAN_RAW)));
}

#[test]
fn sine_and_cosine_follow_the_functions() {
    let mut k: i64 = -2000;
    while k <= 2000 {
        let x = k as f64 * 0.0123;
        let (s, c) = sin_cos(&sc(x));
        let x = val(sc(x));
        assert!((val(s) - x.sin()).abs() < 1e-6, "sin {}", x);
        assert!((val(c) - x.cos()).abs() < 1e-6, "cos {}", x);
        k += 1;
    }
}

#[test]
fn sine_and_cosine_in_the_four_quadrants() {
    let (s, c) = sin_cos(&sc(0.5));
    assert!(val(s) > 0.0 && val(c) > 0.0);
    let (s, c) = sin_cos(&sc(2.0));
    assert!(val(s) > 0.0 && val(c) < 0.0);
    let (s, c) = sin_cos(&sc(4.0));
    assert!(val(s) < 0.0 && val(c) < 0.0);
    let (s, c) = sin_cos(&sc(5.5));
    assert!(val(s) < 0.0 && val(c) > 0.0);
    let (s, c) = sin_cos(&sc(-0.5));
    assert!(val(s) < 0.0 && val(c) > 0.0);
}

#[test]
fn arctangent_exact_values() {
    assert_eq!(atan(&raw(0)), raw(0));
    assert_eq!(atan(&raw(8388608)), raw(7778717));
    assert_eq!(atan(&raw(ONE_RAW)), raw(QUARTER_PI_RAW));
    assert_eq!(atan(&raw(-50331648)), raw(-20955511));
    assert_eq!(atan(&raw(16777216000)), raw(26336813));
    assert_eq!(atan(&raw(-4194304)), raw(-4110060));
    assert_eq!(atan(&raw(NAN_RAW)), raw(NAN_RAW));
}

#[test]
fn arctangent_follows_the_function() {
    let mut k: i64 = -3000;
    while k <= 3000 {
        let x = k as f64 * 0.0137;
        let a = atan(&sc(x));
        assert!((val(a) - val(sc(x)).atan()).abs() < 1e-6, "atan {}", x);
        k += 1;
    }
}

#[test]
fn angle_of_a_point_in_every_quadrant() {
    let cases: [(f64, f64); 10] = [
        (1.0, 1.0),
        (1.0, -1.0),
        (-1.0, -1.0),
        (-1.0, 1.0),
        (0.0, 1.0),
        (0.0, -1.0),
        (1.0, 0.0),
        (-1.0, 0.0),
        (0.001, 30.0),
        (-20.0, 0.5),
    ];
    for (y, x) in cases {
        let a = atan2(&sc(y), &sc(x));
        assert!((val(a) - y.atan2(x)).abs() < 1e-6, "atan2 {} {}", y, x);
    }
    assert_eq!(atan2(&raw(0), &raw(0)), raw(0));
    assert_eq!(atan2(&raw(0), &raw(-ONE_RAW)), raw(PI_RAW));
    assert_eq!(atan2(&raw(ONE_RAW), &raw(0)), raw(HALF_PI_RAW));
    assert_eq!(atan2(&raw(-ONE_RAW), &raw(0)), raw(-HALF_PI_RAW));
    assert_eq!(atan2(&raw(NAN_RAW), &raw(ONE_RAW)), raw(NAN_RAW));
    assert_eq!(atan2(&raw(ONE_RAW), &raw(NAN_RAW)), raw(NAN_RAW));
}

#[test]
fn exponential_exact_values() {
    assert_eq!(exp(&raw(0)), raw(ONE_RAW));
    assert_eq!(exp(&raw(ONE_RAW)), raw(45605200));
    assert_eq!(exp(&raw(-ONE_RAW)), raw(6171993));
    assert_eq!(exp(&raw(92274688)), raw(4105249792));
    assert_eq!(exp(&raw(184549376)), raw(1004521455616));
    assert_eq!(exp(&raw(NAN_RAW)), raw(NAN_RAW));
}

#[test]
fn exponential_overflows_to_non_finite_and_underflows_to_zero() {
    assert_eq!(exp(&sc(12.0)), raw(NAN_RAW));
    assert_eq!(exp(&sc(60000.0)), raw(NAN_RAW));
    assert_eq!(exp(&sc(-20.0)), raw(0));
    assert_eq!(exp(&sc(-30.0)), raw(0));
    assert_eq!(exp(&sc(-60000.0)), raw(0));
}

#[test]
fn exponential_follows_the_function() {
    let mut k: i64 = -1500;
    while k <= 1100 {
        let x = k as f64 * 0.01;
        let e = val(exp(&sc(x)));
        let want = val(sc(x)).exp();
        assert!((e - want).abs() <= 2e-7 * want.max(1.0), "exp {}", x);
        k += 1;
    }
}

#[test]
fn logarithm_exact_values() {
    assert_eq!(ln(&raw(ONE_RAW)), raw(0));
    assert_eq!(ln(&raw(2 * ONE_RAW)), raw(LN2_RAW - 1));
    assert_eq!(ln(&raw(ONE_RAW / 2)), raw(-LN2_RAW + 1));
    assert_eq!(ln(&raw(167772160)), raw(38630965));
    assert_eq!(ln(&raw(1099511627776)), raw(186065279));
    assert_eq!(ln(&raw(16777)), raw(-115893119));
}

#[test]
fn logarithm_of_zero_or_less_is_not_finite() {
    assert_eq!(ln(&raw(0)), raw(NAN_RAW));
    assert_eq!(ln(&raw(-1)), raw(NAN_RAW));
    assert_eq!(ln(&sc(-2.0)), raw(NAN_RAW));
    assert_eq!(ln(&raw(NAN_RAW)), raw(NAN_RAW));
}

#[test]
fn logarithm_follows_the_function() {
    let mut k: i64 = 1;
    while k <= 4000 {
        let x = k as f64 * 0.0371;
        let l = val(ln(&sc(x)));
        assert!((l - val(sc(x)).ln()).abs() < 1e-6, "ln {}", x);
        k += 1;
    }
    assert!((val(ln(&raw(1))) - (1.0f64 / ONE_RAW as f64).ln()).abs() < 1e-6);
}

#[test]
fn sine_over_its_argument_and_arctangent_over_its_argument() {
    use_ratio_functions();
}

fn use_ratio_functions() {
    assert_eq!(blanko_quaternions::elementary::sinc(&raw(0)), raw(ONE_RAW));
    assert_eq!(blanko_quaternions::elementary::atan_over(&raw(0)), raw(ONE_RAW));
    assert_eq!(blanko_quaternions::elementary::sinc(&raw(100)), raw(ONE_RAW));
    assert_eq!(blanko_quaternions::elementary::sinc(&raw(NAN_RAW)), raw(NAN_RAW));
    assert_eq!(blanko_quaternions::elementary::atan_over(&raw(NAN_RAW)), raw(NAN_RAW));
    let mut k: i64 = -400;
    while k <= 400 {
        if k != 0 {
            let x = k as f64 * 0.0173;
            let s = val(blanko_quaternions::elementary::sinc(&sc(x)));
            let a = val(blanko_quaternions::elementary::atan_over(&sc(x)));
            let x = val(sc(x));
            assert!((s - x.sin() / x).abs() < 1e-6, "sinc {}", x);
            assert!((a - x.atan() / x).abs() < 1e-6, "atan over {}", x);
        }
        k += 1;
    }
}

#[test]
fn sine_and_cosine_follow_the_functions_over_the_whole_range() {
    let mut x: i64 = -(1 << 40);
    while x <= 1 << 40 {
        let (s, c) = sin_cos(&raw(x));
        let t = x as f64 / ONE_RAW as f64;
        assert!((val(s) - t.sin()).abs() < 1e-6, "sin {}", t);
        assert!((val(c) - t.cos()).abs() < 1e-6, "cos {}", t);
        x += 98765432101 / 97;
    }
}
