use blanko_quaternions::angle::Angle;
use blanko_quaternions::complex::Complex;
use blanko_quaternions::direction::Direction;
use blanko_quaternions::point::Point;
use blanko_quaternions::quaternion::Quaternion;
use blanko_quaternions::scalar::{Scalar, NAN_RAW, ONE_RAW};
use blanko_quaternions::vector3::Vector3;

fn raw(n: i64) -> Scalar {
    Scalar { raw: n }
}

fn whole(n: i64) -> Scalar {
    Scalar { raw: n * ONE_RAW }
}

fn sc(x: f64) -> Scalar {
    Scalar { raw: (x * ONE_RAW as f64).round() as i64 }
}

fn val(s: Scalar) -> f64 {
    assert!(s.finite(), "non-finite scalar");
    s.raw as f64 / ONE_RAW as f64
}

fn quat(w: i64, i: i64, j: i64, k: i64) -> Quaternion {
    Quaternion { w: whole(w), i: whole(i), j: whole(j), k: whole(k) }
}

fn fquat(w: f64, i: f64, j: f64, k: f64) -> Quaternion {
    Quaternion { w: sc(w), i: sc(i), j: sc(j), k: sc(k) }
}

fn nan_quat() -> Quaternion {
    Quaternion { w: raw(NAN_RAW), i: raw(NAN_RAW), j: raw(NAN_RAW), k: raw(NAN_RAW) }
}

fn near(a: &Quaternion, b: &Quaternion, tol: f64) -> bool {
    (val(a.w) - val(b.w)).abs() <= tol && (val(a.i) - val(b.i)).abs() <= tol
        && (val(a.j) - val(b.j)).abs() <= tol && (val(a.k) - val(b.k)).abs() <= tol
}

#[test]
fn hamilton_product_of_the_units() {
    let one = quat(1, 0, 0, 0);
    let i = quat(0, 1, 0, 0);
    let j = quat(0, 0, 1, 0);
    let k = quat(0, 0, 0, 1);
    assert_eq!(i.product(&j), k);
    assert_eq!(j.product(&k), i);
    assert_eq!(k.product(&i), j);
    assert_eq!(j.product(&i), k.neg());
    assert_eq!(i.product(&i), one.neg());
    assert_eq!(j.product(&j), one.neg());
    assert_eq!(k.product(&k), one.neg());
    assert_eq!(one.product(&k), k);
}

#[test]
fn hamilton_product_formula() {
    // (1 + 2i + 3j + 4k)(5 + 6i + 7j + 8k) = -60 + 12i + 30j + 24k
    assert_eq!(quat(1, 2, 3, 4).product(&quat(5, 6, 7, 8)), quat(-60, 12, 30, 24));
    assert_eq!(quat(5, 6, 7, 8).product(&quat(1, 2, 3, 4)), quat(-60, 20, 14, 32));
}

#[test]
fn hamilton_product_is_not_commutative() {
    let a = quat(1, 2, 3, 4);
    let b = quat(5, 6, 7, 8);
    assert_ne!(a.product(&b), b.product(&a));
}

#[test]
fn product_with_the_conjugate_is_the_squared_norm() {
    let a = quat(1, 2, 3, 4);
    assert_eq!(a.product(&a.conj()), quat(30, 0, 0, 0));
    assert_eq!(a.conj().product(&a), quat(30, 0, 0, 0));
    let b = fquat(0.3, -1.7, 2.2, 0.9);
    let p = b.product(&b.conj());
    assert_eq!(p.i, whole(0));
    assert_eq!(p.j, whole(0));
    assert_eq!(p.k, whole(0));
    let n = val(b.norm());
    assert!((val(p.w) - n * n).abs() < 1e-6);
}

#[test]
fn product_with_a_non_finite_factor_is_not_finite() {
    let bad = Quaternion { w: whole(1), i: raw(NAN_RAW), j: whole(0), k: whole(0) };
    assert_eq!(bad.product(&quat(1, 0, 0, 0)), nan_quat());
    assert_eq!(quat(1, 0, 0, 0).product(&bad), nan_quat());
    assert_eq!(Quaternion::not_finite(), nan_quat());
    assert!(!bad.finite());
    assert!(quat(1, 2, 3, 4).finite());
}

#[test]
fn conjugate_negates_the_vector_part() {
    assert_eq!(quat(1, 2, -3, 4).conj(), quat(1, -2, 3, -4));
    assert_eq!(quat(1, 2, -3, 4).conj().conj(), quat(1, 2, -3, 4));
}

#[test]
fn norm_of_a_quaternion() {
    assert_eq!(quat(1, 2, 2, 4).norm(), whole(5));
    assert_eq!(quat(0, 0, 0, 0).norm(), whole(0));
    assert_eq!(quat(0, 0, -3, 0).norm(), whole(3));
    assert_eq!(nan_quat().norm(), raw(NAN_RAW));
}

#[test]
fn normalized_has_norm_one() {
    assert_eq!(quat(0, 0, 7, 0).normalized(), quat(0, 0, 1, 0));
    assert_eq!(
        quat(1, 2, 2, 4).normalized(),
        Quaternion {
            w: raw(ONE_RAW / 5),
            i: raw(2 * ONE_RAW / 5),
            j: raw(2 * ONE_RAW / 5),
            k: raw(4 * ONE_RAW / 5),
        }
    );
    let n = fquat(0.3, -1.7, 2.2, 0.9).normalized().norm();
    assert!((val(n) - 1.0).abs() < 1e-6);
}

#[test]
fn normalized_zero_quaternion_is_not_finite() {
    assert_eq!(quat(0, 0, 0, 0).normalized(), nan_quat());
}

#[test]
fn sum_difference_and_scale_of_quaternions() {
    assert_eq!(quat(1, 2, 3, 4).add(quat(10, 20, 30, 40)), quat(11, 22, 33, 44));
    assert_eq!(quat(1, 2, 3, 4).sub(quat(10, 20, 30, 40)), quat(-9, -18, -27, -36));
    assert_eq!(quat(1, 2, 3, 4).neg(), quat(-1, -2, -3, -4));
    assert_eq!(quat(1, 2, 3, 4).scale(&whole(3)), quat(3, 6, 9, 12));
    assert_eq!(quat(3, 6, 9, 12).div_scalar(&whole(3)), quat(1, 2, 3, 4));
    assert_eq!(quat(1, 2, 3, 4).div_scalar(&whole(0)), nan_quat());
    assert_eq!(quat(1, 2, 3, 4).axis(), Vector3 { x: whole(2), y: whole(3), z: whole(4) });
    assert_eq!(
        Quaternion::from_parts(whole(1), &Vector3 { x: whole(2), y: whole(3), z: whole(4) }),
        quat(1, 2, 3, 4)
    );
}

#[test]
fn quotient_of_quaternions() {
    // (a b) / b = a
    let a = quat(1, 2, 3, 4);
    let b = quat(0, 2, 0, 0);
    let q = a.product(&b).div(b);
    assert!(near(&q, &a, 1e-5));
    assert_eq!(b.inverse_norm_sq(), raw(ONE_RAW / 4));
    assert_eq!(a.div(quat(0, 0, 0, 0)), nan_quat());
    // 2 / (2i) = -i
    assert_eq!(b.div_into_scalar(&whole(2)), quat(0, -1, 0, 0));
}

#[test]
fn rotor_about_a_coordinate_axis() {
    let q = Quaternion::from_angle_axis(Angle::from_deg(whole(180)), whole(0), whole(0), whole(5));
    assert_eq!(q, quat(0, 0, 0, 1));
    let r = Quaternion::from_angle_axis(Angle::from_deg(whole(90)), whole(2), whole(0), whole(0));
    let h = std::f64::consts::FRAC_1_SQRT_2;
    assert!(near(&r, &fquat(h, h, 0.0, 0.0), 1e-6));
    assert!((val(r.norm()) - 1.0).abs() < 1e-6);
    let z = Quaternion::from_angle_axis(Angle::zero(), whole(1), whole(2), whole(3));
    assert_eq!(z.w, whole(1));
    assert_eq!(z.i, whole(0));
}

#[test]
fn rotor_about_the_zero_axis_is_not_finite() {
    let q = Quaternion::from_angle_axis(Angle::from_deg(whole(90)), whole(0), whole(0), whole(0));
    assert!(!q.i.finite());
    assert!(!q.j.finite());
    assert!(!q.k.finite());
}

#[test]
fn half_turn_about_z_negates_x_and_y() {
    let q = quat(0, 0, 0, 1);
    let v = Vector3 { x: whole(1), y: whole(2), z: whole(3) };
    assert_eq!(q.transform(&v), Vector3 { x: whole(-1), y: whole(-2), z: whole(3) });
    assert_eq!(q.transform_scaled(&v), Vector3 { x: whole(-1), y: whole(-2), z: whole(3) });
    assert_eq!(
        q.transform_point(&Point { x: whole(1), y: whole(2), z: whole(3) }),
        Point { x: whole(-1), y: whole(-2), z: whole(3) }
    );
    assert_eq!(
        q.transform_direction(&Direction { x: whole(1), y: whole(2), z: whole(3) }),
        Direction { x: whole(-1), y: whole(-2), z: whole(3) }
    );
}

#[test]
fn third_of_a_turn_about_the_diagonal_permutes_the_axes() {
    // (1 + i + j + k) / 2 has norm one exactly
    let h = raw(ONE_RAW / 2);
    let q = Quaternion { w: h, i: h, j: h, k: h };
    assert_eq!(q.norm(), whole(1));
    let v = Vector3 { x: whole(1), y: whole(2), z: whole(3) };
    assert_eq!(q.transform(&v), Vector3 { x: whole(3), y: whole(1), z: whole(2) });
    assert_eq!(q.transform(&v).norm(), v.norm());
}

#[test]
fn transform_agrees_with_the_sandwich_product() {
    let q = Quaternion::from_angle_axis(Angle::from_deg(whole(40)), whole(1), whole(2), whole(-1));
    let v = Vector3 { x: whole(3), y: whole(-1), z: whole(2) };
    let p = Quaternion::from_parts(whole(0), &v);
    let s = q.product(&p).product(&q.conj());
    let t = q.transform(&v);
    assert!((val(s.w)).abs() < 1e-6);
    assert!((val(s.i) - val(t.x)).abs() < 1e-6);
    assert!((val(s.j) - val(t.y)).abs() < 1e-6);
    assert!((val(s.k) - val(t.z)).abs() < 1e-6);
}

#[test]
fn scaled_transform_of_a_scaled_rotor() {
    let q = Quaternion::from_angle_axis(Angle::from_deg(whole(40)), whole(1), whole(2), whole(-1));
    let v = Vector3 { x: whole(3), y: whole(-1), z: whole(2) };
    let t = q.transform(&v);
    let big = q.scale(&whole(3));
    let s = big.transform_scaled(&v);
    assert!((val(s.x) - 9.0 * val(t.x)).abs() < 1e-4);
    assert!((val(s.y) - 9.0 * val(t.y)).abs() < 1e-4);
    assert!((val(s.z) - 9.0 * val(t.z)).abs() < 1e-4);
    // the unit formula is not a rotation for the scaled rotor
    let wrong = big.transform(&v);
    assert!((val(wrong.norm()) - val(s.norm())).abs() > 1.0);
}

#[test]
fn transform_of_a_non_finite_vector_is_not_finite() {
    let q = quat(1, 0, 0, 0);
    let bad = Vector3 { x: raw(NAN_RAW), y: whole(0), z: whole(0) };
    let n = raw(NAN_RAW);
    assert_eq!(q.transform(&bad), Vector3 { x: n, y: n, z: n });
    assert_eq!(q.transform_scaled(&bad), Vector3 { x: n, y: n, z: n });
    assert_eq!(nan_quat().transform(&Vector3 { x: n, y: n, z: n }), Vector3 { x: n, y: n, z: n });
}

#[test]
fn exponential_of_a_real_quaternion_has_no_vector_part() {
    assert_eq!(quat(0, 0, 0, 0).exp(), quat(1, 0, 0, 0));
    assert_eq!(quat(1, 0, 0, 0).exp(), Quaternion { w: raw(45605200), i: whole(0), j: whole(0), k: whole(0) });
}

#[test]
fn exponential_of_a_pure_quaternion_is_a_rotor() {
    // exp(pi/2 k) = k
    let q = Quaternion { w: whole(0), i: whole(0), j: whole(0), k: raw(26353589) };
    assert!(near(&q.exp(), &quat(0, 0, 0, 1), 1e-6));
    let small = Quaternion { w: whole(0), i: raw(3), j: raw(-4), k: whole(0) };
    // the cosine of a small angle is rounded down from one
    assert_eq!(small.exp(), Quaternion { w: raw(ONE_RAW - 1), i: raw(3), j: raw(-4), k: whole(0) });
}

#[test]
fn logarithm_of_a_rotor_is_half_the_angle_times_the_axis() {
    let q = Quaternion::from_angle_axis(Angle::from_deg(whole(90)), whole(0), whole(0), whole(1));
    let l = q.log();
    assert!(near(&l, &fquat(0.0, 0.0, 0.0, std::f64::consts::FRAC_PI_4), 1e-6));
    assert_eq!(quat(1, 0, 0, 0).log(), quat(0, 0, 0, 0));
    // a quarter turn past a half turn: the angle is in [0, pi]
    let back = fquat(-0.5, 0.0, 0.5, 0.0).log();
    assert!((val(back.j) - 0.75 * std::f64::consts::PI).abs() < 1e-6);
}

#[test]
fn logarithm_on_the_branch_cut_is_not_finite() {
    assert!(!quat(-1, 0, 0, 0).log().w.finite());
    assert!(!quat(0, 0, 0, 0).log().w.finite());
}

#[test]
fn power_of_a_rotor_scales_the_angle() {
    let q = Quaternion::from_angle_axis(Angle::from_deg(whole(90)), whole(0), whole(1), whole(0));
    let third = Quaternion::from_angle_axis(Angle::from_deg(whole(30)), whole(0), whole(1), whole(0));
    assert!(near(&q.power(&Scalar::from_ratio(1, 3)), &third, 1e-6));
    assert!(near(&q.power(&whole(2)), &quat(0, 0, 1, 0), 1e-6));
    assert!(near(&q.power(&whole(0)), &quat(1, 0, 0, 0), 1e-6));
}

#[test]
fn power_of_a_real_quaternion_takes_the_fast_path() {
    let p = quat(4, 0, 0, 0).power(&Scalar::from_ratio(1, 2));
    assert!((val(p.w) - 2.0).abs() < 1e-6);
    assert_eq!(p.i, whole(0));
    assert_eq!(p.j, whole(0));
    assert_eq!(p.k, whole(0));
    let n = quat(-4, 0, 0, 0).power(&whole(2));
    assert!(!n.w.finite());
    assert_eq!(n.i, whole(0));
}

#[test]
fn linear_interpolation_of_quaternions() {
    let a = quat(1, 2, 3, 4);
    let b = quat(3, 2, 1, 0);
    assert_eq!(a.lerp(&b, &whole(0)), a);
    assert_eq!(a.lerp(&b, &whole(1)), b);
    assert_eq!(a.lerp(&b, &Scalar::from_ratio(1, 2)), quat(2, 2, 2, 2));
    assert_eq!(a.lerp(&b, &whole(2)), quat(5, 2, -1, -4));
    assert_eq!(a.lerp(&b, &whole(-1)), quat(-1, 2, 5, 8));
}

#[test]
fn spherical_interpolation_of_rotors() {
    let a = Quaternion::from_angle_axis(Angle::from_deg(whole(20)), whole(0), whole(0), whole(1));
    let b = Quaternion::from_angle_axis(Angle::from_deg(whole(80)), whole(0), whole(0), whole(1));
    let mid = Quaternion::from_angle_axis(Angle::from_deg(whole(50)), whole(0), whole(0), whole(1));
    let beyond = Quaternion::from_angle_axis(Angle::from_deg(whole(140)), whole(0), whole(0), whole(1));
    assert!(near(&a.slerp(&b, &whole(0)), &a, 1e-6));
    assert!(near(&a.slerp(&b, &whole(1)), &b, 1e-6));
    assert!(near(&a.slerp(&b, &Scalar::from_ratio(1, 2)), &mid, 1e-6));
    assert!(near(&a.slerp(&b, &whole(2)), &beyond, 1e-5));
}

#[test]
fn spherical_interpolation_interpolates_the_magnitudes_linearly() {
    let a = Quaternion::from_angle_axis(Angle::from_deg(whole(20)), whole(0), whole(0), whole(1))
        .scale(&whole(2));
    let b = Quaternion::from_angle_axis(Angle::from_deg(whole(80)), whole(0), whole(0), whole(1))
        .scale(&whole(4));
    let m = a.slerp(&b, &Scalar::from_ratio(1, 2));
    assert!((val(m.norm()) - 3.0).abs() < 1e-5);
    let mid = Quaternion::from_angle_axis(Angle::from_deg(whole(50)), whole(0), whole(0), whole(1))
        .scale(&whole(3));
    assert!(near(&m, &mid, 1e-5));
}

#[test]
fn quaternions_and_complex_numbers() {
    let q = quat(1, 2, 3, 4);
    let c = Complex { re: whole(5), im: whole(6) };
    assert_eq!(q.add_complex(&c), quat(6, 8, 3, 4));
    assert_eq!(q.sub_complex(&c), quat(-4, -4, 3, 4));
    assert_eq!(c.sub_quaternion(&q), quat(4, 4, -3, -4));
    // w re - i im, w im + i re, j re + k im, -j im + k re
    assert_eq!(q.mul_complex(&c), quat(-7, 16, 39, 2));
    // re w - im i, re i + im w, re j - im k, re k + im j
    assert_eq!(c.mul_quaternion(&q), quat(-7, 16, -9, 38));
    assert_eq!(c.to_quaternion(), quat(5, 6, 0, 0));
    let unit = Complex { re: whole(0), im: whole(2) };
    // q / (2i) = q (-2i) / 4
    assert_eq!(q.div_complex(&unit), Quaternion { w: whole(1), i: raw(-ONE_RAW / 2), j: whole(-2), k: raw(3 * ONE_RAW / 2) });
    let d = unit.div_quaternion(&quat(0, 2, 0, 0));
    assert_eq!(d, quat(1, 0, 0, 0));
}

#[test]
fn logarithm_next_to_the_negative_real_axis_is_finite() {
    let q = Quaternion { w: whole(-1), i: raw(100), j: raw(0), k: raw(0) };
    let l = q.log();
    assert!(l.finite());
    assert!(val(l.w).abs() < 1e-6);
    assert!((val(l.i) - std::f64::consts::PI).abs() < 1e-4);
    assert_eq!(l.j, whole(0));
    assert_eq!(l.k, whole(0));
    let back = l.exp();
    assert!(near(&back, &q, 1e-4));
    let p = Quaternion { w: whole(-3), i: raw(0), j: raw(-1), k: raw(1) };
    assert!(p.log().finite());
    assert!(near(&p.log().exp(), &p, 1e-4));
}

#[test]
fn shown_components_of_a_quaternion() {
    assert_eq!(quat(1, 0, -3, 0).shown(), vec![0, 2]);
    assert_eq!(quat(0, 0, 0, 0).shown(), Vec::<usize>::new());
    assert_eq!(quat(1, 2, 3, 4).shown(), vec![0, 1, 2, 3]);
    assert_eq!(Complex { re: whole(0), im: whole(2) }.shown(), vec![1]);
}

#[test]
fn division_by_a_short_quaternion_is_exact_to_one_rounding() {
    let q = Quaternion::from_angle_axis(Angle::from_deg(whole(40)), whole(1), whole(2), whole(-1));
    let small = fquat(0.001, 0.002, -0.0005, 0.00025);
    let back = q.product(&small).div(small);
    assert!(near(&back, &q, 1e-4));
    let tiny = Quaternion { w: raw(0), i: raw(3), j: raw(0), k: raw(0) };
    // (6 units of k) / (3 units of i) = -2 j
    let six_k = Quaternion { w: raw(0), i: raw(0), j: raw(0), k: raw(6) };
    assert_eq!(six_k.div(tiny), quat(0, 0, -2, 0));
    assert_eq!(tiny.div(tiny), quat(1, 0, 0, 0));
    assert_eq!(quat(1, 2, 3, 4).div(quat(1, 2, 3, 4)), quat(1, 0, 0, 0));
    assert_eq!(quat(0, 0, 0, 2).inverse_norm_sq(), raw(ONE_RAW / 4));
    assert_eq!(tiny.inverse_norm_sq(), raw(NAN_RAW));
    assert_eq!(Quaternion { w: raw(ONE_RAW / 64), i: raw(0), j: raw(0), k: raw(0) }.inverse_norm_sq(), whole(4096));
}
