use blanko_quaternions::angle::Angle;
use blanko_quaternions::direction::Direction;
use blanko_quaternions::dual_quaternion::DualQuaternion;
use blanko_quaternions::point::Point;
use blanko_quaternions::quaternion::Quaternion;
use blanko_quaternions::scalar::{Scalar, NAN_RAW, ONE_RAW};

fn raw(n: i64) -> Scalar {
    Scalar { raw: n }
}

fn whole(n: i64) -> Scalar {
    Scalar { raw: n * ONE_RAW }
}

fn sc(x: f64) -> Scalar {
    Scalar { raw: (x * ONE_RAW as f64).round() as i64 }
}

fn val(s: Scalar) -> f64 {
    assert!(s.finite(), "non-finite scalar");
    s.raw as f64 / ONE_RAW as f64
}

fn dq(w: i64, i: i64, j: i64, k: i64, ie: i64, je: i64, ke: i64, we: i64) -> DualQuaternion {
    DualQuaternion {
        w: whole(w),
        i: whole(i),
        j: whole(j),
        k: whole(k),
        ie: whole(ie),
        je: whole(je),
        ke: whole(ke),
        we: whole(we),
    }
}

fn pt(x: i64, y: i64, z: i64) -> Point {
    Point { x: whole(x), y: whole(y), z: whole(z) }
}

fn dir(x: i64, y: i64, z: i64) -> Direction {
    Direction { x: whole(x), y: whole(y), z: whole(z) }
}

fn near(a: &DualQuaternion, b: &DualQuaternion, tol: f64) -> bool {
    (val(a.w) - val(b.w)).abs() <= tol && (val(a.i) - val(b.i)).abs() <= tol
        && (val(a.j) - val(b.j)).abs() <= tol && (val(a.k) - val(b.k)).abs() <= tol
        && (val(a.ie) - val(b.ie)).abs() <= tol && (val(a.je) - val(b.je)).abs() <= tol
        && (val(a.ke) - val(b.ke)).abs() <= tol && (val(a.we) - val(b.we)).abs() <= tol
}

fn near_point(a: &Point, x: f64, y: f64, z: f64, tol: f64) -> bool {
    (val(a.x) - x).abs() <= tol && (val(a.y) - y).abs() <= tol && (val(a.z) - z).abs() <= tol
}

#[test]
fn the_three_conjugates_negate_different_components() {
    let a = dq(1, 2, 3, 4, 5, 6, 7, 8);
    assert_eq!(a.conj(), dq(1, -2, -3, -4, -5, -6, -7, 8));
    assert_eq!(a.sconj(), dq(1, -2, -3, -4, 5, 6, 7, -8));
    assert_eq!(a.iconj(), dq(1, 2, 3, 4, -5, -6, -7, -8));
    assert_eq!(a.conj().conj(), a);
    assert_eq!(a.sconj().sconj(), a);
    assert_eq!(a.iconj().iconj(), a);
    assert_eq!(a.conj().iconj(), a.sconj());
}

#[test]
fn norm_reads_the_rotation_part_and_inorm_the_dual_part() {
    let a = dq(1, 2, 2, 4, 3, 0, 4, 0);
    assert_eq!(a.norm(), whole(5));
    assert_eq!(a.inorm(), whole(5));
    let b = dq(0, 0, 3, 0, 1, 2, 2, 4);
    assert_eq!(b.norm(), whole(3));
    assert_eq!(b.inorm(), whole(5));
}

#[test]
fn normalized_divides_all_eight_components() {
    let a = dq(0, 0, 2, 0, 4, 6, 8, 10);
    assert_eq!(a.normalized(), dq(0, 0, 1, 0, 2, 3, 4, 5));
    let zero_rotation = dq(0, 0, 0, 0, 1, 2, 3, 4);
    assert!(!zero_rotation.normalized().ie.finite());
    assert_eq!(zero_rotation.normalized(), DualQuaternion::not_finite());
}

#[test]
fn normalized_does_not_restore_the_study_condition() {
    // rotation vector and dual vector are not orthogonal, and stay so
    let a = dq(0, 0, 2, 0, 0, 6, 0, 0);
    let n = a.normalized();
    assert_eq!(n, dq(0, 0, 1, 0, 0, 3, 0, 0));
    let study = n.w.mul(n.we).add(n.i.mul(n.ie)).add(n.j.mul(n.je)).add(n.k.mul(n.ke));
    assert_eq!(study, whole(3));
}

#[test]
fn product_of_dual_quaternions() {
    // (r1 r2, r1 d2 + d1 r2)
    let a = dq(1, 2, 3, 4, 0, 0, 0, 0);
    let b = dq(5, 6, 7, 8, 0, 0, 0, 0);
    assert_eq!(a.product(&b), dq(-60, 12, 30, 24, 0, 0, 0, 0));
    let eps_i = dq(0, 0, 0, 0, 1, 0, 0, 0);
    let j = dq(0, 0, 1, 0, 0, 0, 0, 0);
    assert_eq!(eps_i.product(&j), dq(0, 0, 0, 0, 0, 0, 1, 0));
    assert_eq!(j.product(&eps_i), dq(0, 0, 0, 0, 0, 0, -1, 0));
    assert_eq!(eps_i.product(&eps_i), dq(0, 0, 0, 0, 0, 0, 0, 0));
    let c = dq(1, 2, 3, 4, 5, 6, 7, 8);
    let d = dq(2, 0, 1, 0, 1, 1, 0, 3);
    assert_eq!(c.product(&d), dq(-1, 0, 7, 10, 6, 34, 30, 8));
    assert_eq!(d.product(&c), dq(-1, 8, 7, 6, 28, 26, 22, 8));
}

#[test]
fn product_is_not_commutative() {
    let c = dq(1, 2, 3, 4, 5, 6, 7, 8);
    let d = dq(2, 0, 1, 0, 1, 1, 0, 3);
    assert_ne!(c.product(&d), d.product(&c));
}

#[test]
fn product_with_the_identity() {
    let c = dq(1, 2, 3, 4, 5, 6, 7, 8);
    assert_eq!(c.product(&DualQuaternion::identity()), c);
    assert_eq!(DualQuaternion::identity().product(&c), c);
    assert_eq!(DualQuaternion::identity(), dq(1, 0, 0, 0, 0, 0, 0, 0));
}

#[test]
fn dual_product_with_a_non_finite_factor_is_not_finite() {
    let mut bad = dq(1, 2, 3, 4, 5, 6, 7, 8);
    bad.ke = raw(NAN_RAW);
    assert_eq!(bad.product(&DualQuaternion::identity()), DualQuaternion::not_finite());
    assert_eq!(DualQuaternion::identity().product(&bad), DualQuaternion::not_finite());
    assert!(!bad.finite());
    assert!(!DualQuaternion::not_finite().finite());
}

#[test]
fn sum_difference_and_scale_of_dual_quaternions() {
    let a = dq(1, 2, 3, 4, 5, 6, 7, 8);
    let b = dq(8, 7, 6, 5, 4, 3, 2, 1);
    assert_eq!(a.add(b), dq(9, 9, 9, 9, 9, 9, 9, 9));
    assert_eq!(a.sub(b), dq(-7, -5, -3, -1, 1, 3, 5, 7));
    assert_eq!(a.neg(), dq(-1, -2, -3, -4, -5, -6, -7, -8));
    assert_eq!(a.scale(&whole(2)), dq(2, 4, 6, 8, 10, 12, 14, 16));
    assert_eq!(a.scale(&whole(2)).div_scalar(&whole(2)), a);
    assert_eq!(a.real_part(), Quaternion { w: whole(1), i: whole(2), j: whole(3), k: whole(4) });
    assert_eq!(a.dual_part(), Quaternion { w: whole(8), i: whole(5), j: whole(6), k: whole(7) });
    assert_eq!(DualQuaternion::from_parts(&a.real_part(), &a.dual_part()), a);
}

#[test]
fn point_embedding() {
    assert_eq!(DualQuaternion::point(&pt(1, 2, 3)), dq(1, 0, 0, 0, 1, 2, 3, 0));
}

#[test]
fn line_in_pluecker_coordinates() {
    // direction (0, 0, 2) normalized, moment = direction x position
    let l = DualQuaternion::line(&pt(1, 2, 3), &dir(0, 0, 2));
    assert_eq!(l, dq(0, 0, 0, 1, -2, 1, 0, 0));
    let m = DualQuaternion::line(&pt(0, 1, 0), &dir(1, 0, 0));
    assert_eq!(m, dq(0, 1, 0, 0, 0, 0, 1, 0));
    let through_origin = DualQuaternion::line(&pt(0, 0, 0), &dir(0, 5, 0));
    assert_eq!(through_origin, dq(0, 0, 1, 0, 0, 0, 0, 0));
}

#[test]
fn line_along_the_zero_direction_is_not_finite() {
    let l = DualQuaternion::line(&pt(1, 2, 3), &dir(0, 0, 0));
    assert!(!l.i.finite());
    assert!(!l.ie.finite());
    assert_eq!(l.w, whole(0));
    assert_eq!(l.we, whole(0));
}

#[test]
fn rotor_has_no_dual_part() {
    let r = DualQuaternion::from_angle_axis(Angle::from_deg(whole(180)), &dir(0, 3, 0));
    assert_eq!(r, dq(0, 0, 1, 0, 0, 0, 0, 0));
    let q = DualQuaternion::from_angle_axis(Angle::from_deg(whole(90)), &dir(0, 0, 1));
    let h = std::f64::consts::FRAC_1_SQRT_2;
    assert!((val(q.w) - h).abs() < 1e-6);
    assert!((val(q.k) - h).abs() < 1e-6);
    assert_eq!(q.dual_part(), Quaternion { w: whole(0), i: whole(0), j: whole(0), k: whole(0) });
    assert_eq!(
        q.real_part(),
        Quaternion::from_angle_axis(Angle::from_deg(whole(90)), whole(0), whole(0), whole(1))
    );
}

#[test]
fn translator_holds_half_the_translation() {
    let t = DualQuaternion::from_translation(&dir(2, -4, 6));
    assert_eq!(t, dq(1, 0, 0, 0, 1, -2, 3, 0));
    let odd = DualQuaternion::from_translation(&Direction { x: raw(3), y: raw(-3), z: raw(0) });
    assert_eq!(odd.ie, raw(1));
    assert_eq!(odd.je, raw(-1));
}

#[test]
fn translator_moves_points_and_leaves_directions() {
    let t = DualQuaternion::from_translation(&dir(2, -4, 6));
    assert_eq!(t.transform_point(&pt(1, 1, 1)), pt(3, -3, 7));
    assert_eq!(t.transform_direction(&dir(1, 1, 1)), dir(1, 1, 1));
}

#[test]
fn rotor_turns_points_and_directions_alike() {
    let r = DualQuaternion::from_angle_axis(Angle::from_deg(whole(180)), &dir(0, 0, 1));
    assert_eq!(r.transform_point(&pt(1, 2, 3)), pt(-1, -2, 3));
    assert_eq!(r.transform_direction(&dir(1, 2, 3)), dir(-1, -2, 3));
}

#[test]
fn transform_point_formula() {
    // w = 0, v = (0, 0, 1), m = (1, 0, 0), we = 0:
    // a = v x p + m = (-2 + 1, 1, 0), p' = p + 2 (v x a) = (1, 2, 3) + 2 (-1, -1, 0)
    let a = dq(0, 0, 0, 1, 1, 0, 0, 0);
    assert_eq!(a.transform_point(&pt(1, 2, 3)), pt(-1, 0, 3));
    // a dual scalar shifts along the rotation vector: p' = p - 2 we v
    let b = dq(1, 0, 0, 0, 0, 0, 0, 3);
    assert_eq!(b.transform_point(&pt(1, 2, 3)), pt(1, 2, 3));
    let c = dq(0, 0, 0, 1, 0, 0, 0, 3);
    assert_eq!(c.transform_point(&pt(1, 2, 3)), pt(-1, -2, -3));
}

#[test]
fn transform_of_non_finite_values_is_not_finite() {
    let bad = Point { x: raw(NAN_RAW), y: whole(0), z: whole(0) };
    let n = raw(NAN_RAW);
    assert_eq!(DualQuaternion::identity().transform_point(&bad), Point { x: n, y: n, z: n });
    assert_eq!(DualQuaternion::not_finite().transform_point(&pt(1, 2, 3)), Point { x: n, y: n, z: n });
    assert_eq!(
        DualQuaternion::identity().transform_line(&DualQuaternion::not_finite()),
        DualQuaternion::not_finite()
    );
    assert_eq!(
        DualQuaternion::not_finite().transform_direction(&dir(1, 0, 0)),
        Direction { x: n, y: n, z: n }
    );
}

#[test]
fn screw_about_the_x_axis_through_a_point() {
    // The moment of a line is direction x position, so the line with
    // position (0, 1, 0) turns points about the axis through (0, -1, 0).
    let s = DualQuaternion::from_line(&pt(0, 1, 0), &dir(1, 0, 0), Angle::from_deg(whole(90)), whole(2));
    let p = s.transform_point(&pt(0, 0, 0));
    assert!(near_point(&p, 2.0, -1.0, 1.0, 1e-5));
    let on_axis = s.transform_point(&pt(5, -1, 0));
    assert!(near_point(&on_axis, 7.0, -1.0, 0.0, 1e-5));
    assert!((val(s.norm()) - 1.0).abs() < 1e-6);
}

#[test]
fn screw_without_rotation_is_a_translation_along_the_line() {
    let line = DualQuaternion::line(&pt(0, 1, 0), &dir(0, 0, 1));
    let s = DualQuaternion::screw(&line, Angle::zero(), whole(4));
    assert_eq!(s, DualQuaternion::from_translation(&dir(0, 0, 4)));
    assert_eq!(s.transform_point(&pt(1, 2, 3)), pt(1, 2, 7));
}

#[test]
fn transform_line_moves_direction_and_moment() {
    // The x axis moved by (0, 0, 2): direction kept, moment changed.
    let l = DualQuaternion::line(&pt(0, 0, 0), &dir(1, 0, 0));
    let t = DualQuaternion::from_translation(&dir(0, 0, 2));
    assert_eq!(t.transform_line(&l), dq(0, 1, 0, 0, 0, 2, 0, 0));
    // a half turn about z reverses the x axis
    let r = DualQuaternion::from_angle_axis(Angle::from_deg(whole(180)), &dir(0, 0, 1));
    assert_eq!(r.transform_line(&l), dq(0, -1, 0, 0, 0, 0, 0, 0));
}

#[test]
fn transform_line_gives_a_line() {
    let l = DualQuaternion::line(&pt(1, -2, 0), &dir(1, 1, 0));
    let m = DualQuaternion::from_line(&pt(0, 1, 0), &dir(1, 0, 0), Angle::from_deg(whole(75)), whole(2));
    let image = m.transform_line(&l);
    assert_eq!(image.w, whole(0));
    assert_eq!(image.we, whole(0));
    assert!((val(image.norm()) - 1.0).abs() < 1e-6);
    // direction and moment stay orthogonal
    let dot = image.i.mul(image.ie).add(image.j.mul(image.je)).add(image.k.mul(image.ke));
    assert!(val(dot).abs() < 1e-6);
}

#[test]
fn exponential_of_a_rotation_generator() {
    // exp(pi/4 k) is the quarter turn about z
    let g = DualQuaternion {
        w: whole(0),
        i: whole(0),
        j: whole(0),
        k: raw(13176795),
        ie: whole(0),
        je: whole(0),
        ke: whole(0),
        we: whole(0),
    };
    let r = DualQuaternion::from_angle_axis(Angle::from_deg(whole(90)), &dir(0, 0, 1));
    assert!(near(&g.exp(), &r, 1e-6));
}

#[test]
fn exponential_does_not_read_the_scalars_of_its_argument() {
    let mut g = dq(0, 0, 0, 1, 1, 2, 0, 0);
    let e = g.exp();
    g.w = whole(5);
    g.we = whole(-7);
    assert_eq!(g.exp(), e);
}

#[test]
fn logarithm_of_a_screw_is_its_generator() {
    let s = DualQuaternion::from_line(&pt(0, 1, 0), &dir(0, 0, 1), Angle::from_deg(whole(90)), whole(2));
    let g = s.log();
    let q = std::f64::consts::FRAC_PI_4;
    // half the angle times the line, plus half the distance along the direction
    let want = DualQuaternion {
        w: sc(0.0),
        i: sc(0.0),
        j: sc(0.0),
        k: sc(q),
        ie: sc(-q),
        je: sc(0.0),
        ke: sc(1.0),
        we: sc(0.0),
    };
    assert!(near(&g, &want, 1e-5));
}

#[test]
fn logarithm_of_a_half_turn_is_not_finite() {
    let r = dq(0, 0, 0, 1, 0, 0, 0, 0);
    assert!(!r.log().k.finite());
}

#[test]
fn logarithm_of_a_motion_without_rotation_is_not_finite() {
    let t = DualQuaternion::from_translation(&dir(2, 0, 0));
    assert!(!t.log().finite());
    assert!(!t.log().ie.finite());
    assert!(!DualQuaternion::identity().log().ie.finite());
    // the rotation vector of the logarithm is zero all the same
    assert_eq!(t.log().i, whole(0));
    assert_eq!(t.log().j, whole(0));
    assert_eq!(t.log().k, whole(0));
}

#[test]
fn power_of_a_screw() {
    let line = DualQuaternion::line(&pt(0, 1, 0), &dir(0, 0, 1));
    let s = DualQuaternion::screw(&line, Angle::from_deg(whole(90)), whole(2));
    let half = DualQuaternion::screw(&line, Angle::from_deg(whole(45)), whole(1));
    let twice = DualQuaternion::screw(&line, Angle::from_deg(whole(180)), whole(4));
    assert!(near(&s.power(&Scalar::from_ratio(1, 2)), &half, 1e-5));
    assert!(near(&s.power(&whole(2)), &twice, 1e-5));
    assert_eq!(s.power(&whole(0)), DualQuaternion::identity());
}

#[test]
fn sclerp_extrapolates_beyond_the_ends() {
    let line = DualQuaternion::line(&pt(0, 1, 0), &dir(0, 0, 1));
    let a = DualQuaternion::screw(&line, Angle::from_deg(whole(20)), whole(1));
    let b = DualQuaternion::screw(&line, Angle::from_deg(whole(50)), whole(2));
    let beyond = DualQuaternion::screw(&line, Angle::from_deg(whole(80)), whole(3));
    let before = DualQuaternion::screw(&line, Angle::from_deg(whole(-10)), whole(0));
    assert!(near(&a.sclerp(&b, &whole(2)), &beyond, 1e-4));
    assert!(near(&a.sclerp(&b, &whole(-1)), &before, 1e-4));
}

#[test]
fn sclerp_between_equal_whole_motions_stays_there() {
    // conj(a) a has no rotation vector at all, and the power of it is the identity
    let a = dq(0, 0, 0, 1, 1, 2, 0, 0);
    assert_eq!(a.sclerp(&a, &Scalar::from_ratio(1, 2)), a);
    assert_eq!(a.sclerp(&a, &whole(0)), a);
    assert_eq!(a.sclerp(&a, &whole(1)), a);
    let line = DualQuaternion::line(&pt(0, 1, 0), &dir(0, 0, 1));
    let s = DualQuaternion::screw(&line, Angle::from_deg(whole(20)), whole(1));
    assert_eq!(s.sclerp(&s, &whole(0)), s);
    assert_eq!(s.sclerp(&s, &whole(1)), s);
    assert_eq!(s.sclerp(&s, &Scalar::from_ratio(1, 3)), s);
    assert_eq!(s.sclerp(&s, &whole(-7)), s);
}

#[test]
fn powers_of_a_translation_are_the_identity() {
    let t = DualQuaternion::from_translation(&dir(2, 0, 0));
    assert_eq!(t.power(&whole(1)), DualQuaternion::identity());
    assert_eq!(t.power(&Scalar::from_ratio(1, 2)), DualQuaternion::identity());
    assert_eq!(t.power(&whole(-3)), DualQuaternion::identity());
}

#[test]
fn sclerp_between_two_translations_stays_at_the_first() {
    let a = DualQuaternion::from_translation(&dir(1, 0, 0));
    let b = DualQuaternion::from_translation(&dir(3, 0, 0));
    assert_eq!(a.sclerp(&b, &whole(0)), a);
    assert_eq!(a.sclerp(&b, &Scalar::from_ratio(1, 2)), a);
    assert_eq!(a.sclerp(&b, &whole(1)), a);
}

#[test]
fn exponential_of_a_generator_with_components_up_to_64_is_finite() {
    assert!(dq(0, 64, 64, 64, 64, 64, 64, 0).exp().finite());
    assert!(dq(0, -64, 64, -64, 64, -64, 64, 0).exp().finite());
    let short = DualQuaternion {
        w: whole(0),
        i: raw(1),
        j: raw(0),
        k: raw(-1),
        ie: whole(64),
        je: whole(-64),
        ke: whole(64),
        we: whole(0),
    };
    assert!(short.exp().finite());
}
