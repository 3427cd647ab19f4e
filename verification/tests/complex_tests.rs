use blanko_quaternions::complex::Complex;
use blanko_quaternions::dual_numbers::DualNumber;
use blanko_quaternions::scalar::{Scalar, NAN_RAW, ONE_RAW};

fn raw(n: i64) -> Scalar {
    Scalar { raw: n }
}

fn whole(n: i64) -> Scalar {
    Scalar { raw: n * ONE_RAW }
}

fn val(s: Scalar) -> f64 {
    assert!(s.finite(), "non-finite scalar");
    s.raw as f64 / ONE_RAW as f64
}

fn cx(re: i64, im: i64) -> Complex {
    Complex { re: whole(re), im: whole(im) }
}

fn dn(re: i64, du: i64) -> DualNumber {
    DualNumber { re: whole(re), du: whole(du) }
}

#[test]
fn complex_from_a_real_number() {
    assert_eq!(Complex::from(whole(3)), cx(3, 0));
    let c: Complex = whole(-2).into();
    assert_eq!(c, cx(-2, 0));
}

#[test]
fn complex_conjugate_and_norm() {
    assert_eq!(cx(3, 4).conj(), cx(3, -4));
    assert_eq!(cx(3, 4).norm(), whole(5));
    assert_eq!(cx(0, 0).norm(), whole(0));
    assert_eq!(cx(0, -2).normalized(), cx(0, -1));
    assert_eq!(cx(3, 4).normalized(), Complex { re: raw(3 * ONE_RAW / 5), im: raw(4 * ONE_RAW / 5) });
    assert_eq!(cx(0, 0).normalized(), Complex { re: raw(NAN_RAW), im: raw(NAN_RAW) });
    assert!(cx(1, 2).finite());
    assert!(!Complex { re: raw(NAN_RAW), im: whole(0) }.finite());
}

#[test]
fn complex_product_and_quotient() {
    // (1 + 2i)(3 + 4i) = -5 + 10i
    assert_eq!(cx(1, 2).product(&cx(3, 4)), cx(-5, 10));
    assert_eq!(cx(0, 1).product(&cx(0, 1)), cx(-1, 0));
    // (-5 + 10i) / (1 + 2i) = 3 + 4i
    let q = cx(-5, 10).div(cx(1, 2));
    assert!((val(q.re) - 3.0).abs() < 1e-5);
    assert!((val(q.im) - 4.0).abs() < 1e-5);
    assert_eq!(cx(4, 8).div(cx(0, 2)), cx(4, -2));
    assert_eq!(cx(0, 2).inverse_norm_sq(), raw(ONE_RAW / 4));
    assert_eq!(cx(1, 2).div(cx(0, 0)), Complex { re: raw(NAN_RAW), im: raw(NAN_RAW) });
    assert_eq!(
        cx(1, 2).product(&Complex { re: raw(NAN_RAW), im: whole(0) }),
        Complex { re: raw(NAN_RAW), im: raw(NAN_RAW) }
    );
}

#[test]
fn complex_and_real_numbers() {
    assert_eq!(cx(1, 2).scale(&whole(3)), cx(3, 6));
    assert_eq!(cx(3, 6).div_scalar(&whole(3)), cx(1, 2));
    assert_eq!(cx(1, 2).add_scalar(&whole(3)), cx(4, 2));
    assert_eq!(cx(1, 2).sub_scalar(&whole(3)), cx(-2, 2));
    assert_eq!(cx(1, 2).sub_from_scalar(&whole(3)), cx(2, -2));
    // 4 / (2i) = -2i
    assert_eq!(cx(0, 2).div_into_scalar(&whole(4)), cx(0, -2));
    assert_eq!(cx(1, 2).add(cx(10, 20)), cx(11, 22));
    assert_eq!(cx(1, 2).sub(cx(10, 20)), cx(-9, -18));
    assert_eq!(cx(1, 2).neg(), cx(-1, -2));
}

#[test]
fn dual_number_from_a_real_number() {
    assert_eq!(DualNumber::from(whole(3)), dn(3, 0));
}

#[test]
fn dual_number_conjugate_and_norms() {
    assert_eq!(dn(3, 4).conj(), dn(3, -4));
    assert_eq!(dn(3, 4).seminorm(), whole(3));
    assert_eq!(dn(-3, 4).seminorm(), whole(3));
    assert_eq!(dn(0, 4).seminorm(), whole(0));
    assert_eq!(dn(3, 4).norm(), whole(5));
    assert_eq!(dn(0, 4).norm(), whole(4));
    assert_eq!(dn(-2, 4).seminormalized(), dn(-1, 2));
    assert_eq!(dn(0, -3).normalized(), dn(0, -1));
    assert_eq!(dn(0, 4).seminormalized(), DualNumber { re: raw(NAN_RAW), du: raw(NAN_RAW) });
    assert!(dn(1, 2).finite());
}

#[test]
fn dual_number_product_and_quotient() {
    // (2 + 3e)(4 + 5e) = 8 + 22e
    assert_eq!(dn(2, 3).product(&dn(4, 5)), dn(8, 22));
    assert_eq!(dn(0, 1).product(&dn(0, 1)), dn(0, 0));
    // (8 + 22e) / (4 + 5e) = 2 + 3e
    let q = dn(8, 22).div(dn(4, 5));
    assert!((val(q.re) - 2.0).abs() < 1e-5);
    assert!((val(q.du) - 3.0).abs() < 1e-5);
    assert_eq!(dn(8, 22).div(dn(2, 0)), dn(4, 11));
    assert_eq!(dn(2, 4).recip(), DualNumber { re: raw(ONE_RAW / 2), du: whole(-1) });
    assert_eq!(dn(1, 2).div(dn(0, 5)), DualNumber { re: raw(NAN_RAW), du: raw(NAN_RAW) });
    assert_eq!(dn(2, 0).inverse_seminorm_sq(), raw(ONE_RAW / 4));
}

#[test]
fn dual_number_and_real_numbers() {
    assert_eq!(dn(1, 2).scale(&whole(3)), dn(3, 6));
    assert_eq!(dn(3, 6).div_scalar(&whole(3)), dn(1, 2));
    assert_eq!(dn(1, 2).add_scalar(&whole(3)), dn(4, 2));
    assert_eq!(dn(1, 2).sub_scalar(&whole(3)), dn(-2, 2));
    assert_eq!(dn(1, 2).sub_from_scalar(&whole(3)), dn(2, -2));
    assert_eq!(dn(1, 2).add(dn(10, 20)), dn(11, 22));
    assert_eq!(dn(1, 2).sub(dn(10, 20)), dn(-9, -18));
    assert_eq!(dn(1, 2).neg(), dn(-1, -2));
}

#[test]
fn dual_number_square_root() {
    // sqrt(4 + 8e) = 2 + 2e
    assert_eq!(dn(4, 8).sqrt(), dn(2, 2));
    assert_eq!(dn(-4, 8).sqrt(), DualNumber { re: raw(NAN_RAW), du: raw(NAN_RAW) });
    assert_eq!(dn(0, 8).sqrt(), DualNumber { re: whole(0), du: raw(NAN_RAW) });
}

#[test]
fn dual_number_exponential_and_logarithm() {
    // exp(0 + 3e) = 1 + 3e, log(1 + 3e) = 0 + 3e
    assert_eq!(dn(0, 3).exp(), dn(1, 3));
    assert_eq!(dn(1, 3).log(), dn(0, 3));
    let e = dn(1, 2).exp();
    assert_eq!(e.re, raw(45605200));
    assert!((val(e.du) - 2.0 * std::f64::consts::E).abs() < 1e-6);
    let l = dn(2, 6).log();
    assert_eq!(l.re, raw(11629079));
    assert_eq!(l.du, whole(3));
    assert!(!dn(0, 1).log().re.finite());
    assert!(!dn(-1, 1).log().re.finite());
}

#[test]
fn dual_number_real_power() {
    // (4 + 8e)^(1/2) = 2 + 2e
    let p = dn(4, 8).powf(Scalar::from_ratio(1, 2));
    assert!((val(p.re) - 2.0).abs() < 1e-5);
    assert!((val(p.du) - 2.0).abs() < 1e-5);
    assert!(!dn(-4, 8).powf(whole(2)).re.finite());
}

#[test]
fn dual_number_integer_power() {
    // (a + b e)^n = a^n + n a^(n-1) b e
    assert_eq!(dn(2, 3).powi(3), dn(8, 36));
    assert_eq!(dn(2, 3).powi(1), dn(2, 3));
    assert_eq!(dn(2, 3).powi(2), dn(2, 3).product(&dn(2, 3)));
    // the exponent zero keeps the real part and drops the dual part
    assert_eq!(dn(2, 3).powi(0), dn(2, 0));
    // a negative exponent inverts a + n b e
    assert_eq!(dn(2, 4).powi(-1), dn(2, -4).recip());
    assert_eq!(dn(2, 4).powi(-1), DualNumber { re: raw(ONE_RAW / 2), du: whole(1) });
}
