use blanko_quaternions::angle::Angle;
use blanko_quaternions::complex::Complex;
use blanko_quaternions::dual_numbers::DualNumber;
use blanko_quaternions::direction::Direction;
use blanko_quaternions::dual_quaternion::DualQuaternion;
use blanko_quaternions::point::Point;
use blanko_quaternions::quaternion::Quaternion;
use blanko_quaternions::scalar::{Scalar, ONE_RAW};
use blanko_quaternions::vector3::Vector3;

fn raw(n: i64) -> Scalar {
    Scalar { raw: n }
}

fn whole(n: i64) -> Scalar {
    Scalar { raw: n * ONE_RAW }
}

fn quat(w: i64, i: i64, j: i64, k: i64) -> Quaternion {
    Quaternion { w: whole(w), i: whole(i), j: whole(j), k: whole(k) }
}

fn dq(w: i64, i: i64, j: i64, k: i64, ie: i64, je: i64, ke: i64, we: i64) -> DualQuaternion {
    DualQuaternion {
        w: whole(w),
        i: whole(i),
        j: whole(j),
        k: whole(k),
        ie: whole(ie),
        je: whole(je),
        ke: whole(ke),
        we: whole(we),
    }
}

fn vec(x: i64, y: i64, z: i64) -> Vector3 {
    Vector3 { x: whole(x), y: whole(y), z: whole(z) }
}

/// Exact sum of the squares of raw values.
fn squares(raws: &[i64]) -> i128 {
    raws.iter().map(|r| (*r as i128) * (*r as i128)).sum()
}

fn study(m: &DualQuaternion) -> Scalar {
    m.w.mul(m.we).add(m.i.mul(m.ie)).add(m.j.mul(m.je)).add(m.k.mul(m.ke))
}

fn norm_sq(m: &DualQuaternion) -> Scalar {
    m.w.mul(m.w).add(m.i.mul(m.i)).add(m.j.mul(m.j)).add(m.k.mul(m.k))
}

#[test]
fn quaternion_product_is_associative_on_whole_numbers() {
    let a = quat(1, -2, 3, 4);
    let b = quat(0, 5, -1, 2);
    let c = quat(-3, 1, 1, 6);
    assert_eq!(a.product(&b).product(&c), a.product(&b.product(&c)));
}

#[test]
fn quaternion_product_distributes_over_the_sum() {
    let a = quat(1, -2, 3, 4);
    let b = quat(0, 5, -1, 2);
    let c = quat(-3, 1, 1, 6);
    assert_eq!(a.product(&b.add(c)), a.product(&b).add(a.product(&c)));
    assert_eq!(a.add(b).product(&c), a.product(&c).add(b.product(&c)));
}

#[test]
fn conjugate_of_a_product_reverses_the_factors() {
    let a = quat(1, -2, 3, 4);
    let b = quat(0, 5, -1, 2);
    assert_eq!(a.product(&b).conj(), b.conj().product(&a.conj()));
}

#[test]
fn squared_norm_of_a_product_is_the_product_of_the_squared_norms() {
    let a = quat(1, -2, 3, 4);
    let b = quat(0, 5, -1, 2);
    let p = a.product(&b);
    let n = |q: &Quaternion| squares(&[q.w.raw / ONE_RAW, q.i.raw / ONE_RAW, q.j.raw / ONE_RAW, q.k.raw / ONE_RAW]);
    assert_eq!(n(&p), n(&a) * n(&b));
    assert_eq!(n(&a), 30);
}

#[test]
fn scaled_transform_is_the_sandwich_product() {
    let q = quat(1, -2, 3, 4);
    let v = vec(2, 0, -5);
    let s = q.product(&Quaternion::from_parts(whole(0), &v)).product(&q.conj());
    let t = q.transform_scaled(&v);
    assert_eq!(s, Quaternion::from_parts(whole(0), &t));
    // its squared length is |q|^4 |v|^2
    assert_eq!(
        squares(&[t.x.raw / ONE_RAW, t.y.raw / ONE_RAW, t.z.raw / ONE_RAW]),
        30 * 30 * 29
    );
}

#[test]
fn lagrange_identity_on_whole_numbers() {
    let u = vec(1, -2, 3);
    let w = vec(4, 0, -5);
    let c = u.cross(&w);
    let d = u.dot(&w).raw / ONE_RAW;
    let n = |v: &Vector3| squares(&[v.x.raw / ONE_RAW, v.y.raw / ONE_RAW, v.z.raw / ONE_RAW]);
    assert_eq!(n(&u) * n(&w), (d as i128) * (d as i128) + n(&c));
}

#[test]
fn dual_quaternion_product_is_associative_on_whole_numbers() {
    let a = dq(1, -2, 3, 4, 5, 0, -1, 2);
    let b = dq(0, 5, -1, 2, 1, 1, 0, -3);
    let c = dq(-3, 1, 1, 6, 0, -2, 4, 1);
    assert_eq!(a.product(&b).product(&c), a.product(&b.product(&c)));
}

#[test]
fn conjugates_of_a_dual_product() {
    let a = dq(1, -2, 3, 4, 5, 0, -1, 2);
    let b = dq(0, 5, -1, 2, 1, 1, 0, -3);
    assert_eq!(a.product(&b).conj(), b.conj().product(&a.conj()));
    assert_eq!(a.product(&b).sconj(), b.sconj().product(&a.sconj()));
    assert_eq!(a.product(&b).iconj(), a.iconj().product(&b.iconj()));
}

#[test]
fn study_sum_of_a_product() {
    let a = dq(1, -2, 3, 4, 5, 0, -1, 2);
    let b = dq(0, 5, -1, 2, 1, 1, 0, -3);
    let p = a.product(&b);
    let want = norm_sq(&a).mul(study(&b)).add(norm_sq(&b).mul(study(&a)));
    assert_eq!(study(&p), want);
    // two motions: a quarter turn and a translation
    let m = dq(0, 0, 0, 1, 1, 2, 0, 0);
    let t = dq(1, 0, 0, 0, 3, -1, 2, 0);
    assert_eq!(study(&m), whole(0));
    assert_eq!(study(&t), whole(0));
    assert_eq!(study(&m.product(&t)), whole(0));
    assert_eq!(norm_sq(&m.product(&t)), whole(1));
}

#[test]
fn point_sandwich_is_the_image_of_the_point() {
    // a half turn about z with a dual part; its squared norm is one
    let m = dq(0, 0, 0, 1, 1, 2, 0, 0);
    let p = Point { x: whole(3), y: whole(-1), z: whole(4) };
    let s = m.product(&DualQuaternion::point(&p)).product(&m.sconj());
    assert_eq!(s, DualQuaternion::point(&m.transform_point(&p)));
    // closing the sandwich with the line conjugate gives no point
    let wrong = m.product(&DualQuaternion::point(&p)).product(&m.conj());
    assert_ne!(wrong, s);
}

#[test]
fn sandwiches_compose() {
    let a = dq(1, -2, 3, 4, 5, 0, -1, 2);
    let b = dq(0, 5, -1, 2, 1, 1, 0, -3);
    let x = dq(1, 0, 0, 0, 2, -1, 3, 0);
    let ab = a.product(&b);
    assert_eq!(
        ab.product(&x).product(&ab.sconj()),
        a.product(&b.product(&x).product(&b.sconj())).product(&a.sconj())
    );
    assert_eq!(
        ab.product(&x).product(&ab.conj()),
        a.product(&b.product(&x).product(&b.conj())).product(&a.conj())
    );
}

#[test]
fn transform_by_a_product_is_two_transforms() {
    // motions of squared norm one with whole components
    let a = dq(0, 0, 0, 1, 1, 2, 0, 0);
    let b = dq(0, 1, 0, 0, 0, 3, -1, 0);
    let p = Point { x: whole(3), y: whole(-1), z: whole(4) };
    assert_eq!(a.product(&b).transform_point(&p), a.transform_point(&b.transform_point(&p)));
    let l = dq(0, 0, 1, 0, 2, 0, -1, 0);
    assert_eq!(a.product(&b).transform_line(&l), a.transform_line(&b.transform_line(&l)));
}

#[test]
fn image_of_a_line_has_no_scalars() {
    let a = dq(1, -2, 3, 4, 5, 0, -1, 2);
    let l = dq(0, 0, 1, 0, 2, 0, -1, 0);
    let image = a.transform_line(&l);
    assert_eq!(image.w, whole(0));
    assert_eq!(image.we, whole(0));
    assert_eq!(image, a.product(&l).product(&a.conj()));
}

#[test]
fn normalized_vector_has_length_one_within_rounding() {
    let vs = [
        Vector3 { x: raw(123456789), y: raw(-987654321), z: raw(55555) },
        Vector3 { x: raw(1), y: raw(1), z: raw(0) },
        Vector3 { x: raw(5), y: raw(0), z: raw(0) },
        vec(100, -100, 0),
        vec(3, -4, 12),
    ];
    for v in vs {
        let n = v.norm().raw as i128;
        assert!(n > 0);
        let r = v.normalize();
        assert!(r.finite());
        let big = squares(&[r.x.raw, r.y.raw, r.z.raw]);
        let one = (r.x.raw.abs() + r.y.raw.abs() + r.z.raw.abs()) as i128;
        let s = 1i128 << 48;
        assert!(s <= big + 2 * one + 2);
        assert!(n * n * big < s * (n + 1) * (n + 1));
    }
}

#[test]
fn normalized_quaternion_has_norm_one_within_rounding() {
    let q = Quaternion { w: raw(123456789), i: raw(-987654321), j: raw(55555), k: raw(-7) };
    let n = q.norm().raw as i128;
    let r = q.normalized();
    assert!(r.finite());
    let big = squares(&[r.w.raw, r.i.raw, r.j.raw, r.k.raw]);
    let one = (r.w.raw.abs() + r.i.raw.abs() + r.j.raw.abs() + r.k.raw.abs()) as i128;
    let s = 1i128 << 48;
    assert!(s <= big + 2 * one + 3);
    assert!(n * n * big < s * (n + 1) * (n + 1));
}

#[test]
fn rotation_by_an_exact_unit_quaternion_loses_at_most_two_units_of_length() {
    let h = raw(ONE_RAW / 2);
    let q = Quaternion { w: h, i: h.neg(), j: h, k: h };
    assert_eq!(squares(&[q.w.raw, q.i.raw, q.j.raw, q.k.raw]), 1i128 << 48);
    let v = Vector3 { x: raw(123456789), y: raw(-987654321), z: raw(55555) };
    let r = q.transform(&v);
    let before = squares(&[v.x.raw, v.y.raw, v.z.raw]);
    let after = squares(&[r.x.raw, r.y.raw, r.z.raw]);
    let one = (r.x.raw.abs() + r.y.raw.abs() + r.z.raw.abs()) as i128;
    assert!(after <= before);
    assert!(before <= after + 2 * one + 2);
    assert!(r.norm().raw <= v.norm().raw);
    assert!(v.norm().raw <= r.norm().raw + 2);
}

#[test]
fn rotation_by_a_rotor_keeps_length_within_its_distance_from_norm_one() {
    let q = Quaternion::from_angle_axis(Angle::from_deg(whole(73)), whole(1), whole(-2), raw(ONE_RAW / 2));
    let n = squares(&[q.w.raw, q.i.raw, q.j.raw, q.k.raw]);
    let s = 1i128 << 48;
    let k = (n - s).abs();
    assert!(k <= 10 * (ONE_RAW as i128) + 10);
    let v = Vector3 { x: raw(1000), y: raw(-2000), z: raw(301) };
    let r = q.transform(&v);
    let before = squares(&[v.x.raw, v.y.raw, v.z.raw]);
    let after = squares(&[r.x.raw, r.y.raw, r.z.raw]);
    let one = (r.x.raw.abs() + r.y.raw.abs() + r.z.raw.abs()) as i128;
    // 2^96 |r|^2 <= (n + k)^2 |v|^2 and (n - k)^2 |v|^2 < 2^96 (|r|^2 + 2 |r|_1 + 3),
    // with both sides divided by 2^64 to stay in range
    let up = ((n + k) >> 32) + 1;
    let down = (n - k) >> 32;
    assert!((after << 32) <= up * up * before);
    assert!(down * down * before < ((after + 2 * one + 3) << 32));
}

#[test]
fn the_two_sandwiches_differ_whenever_the_dual_part_is_not_zero() {
    let l = dq(0, 0, 1, 0, 2, 0, -1, 0);
    let motions = [
        dq(1, 0, 0, 0, 0, 0, 1, 0),
        dq(0, 0, 0, 1, 1, 2, 0, 0),
        dq(1, -2, 3, 4, 0, 0, 0, 7),
    ];
    for m in motions {
        let ml = m.product(&l);
        assert_ne!(ml.product(&m.conj()), ml.product(&m.sconj()));
    }
    let rotor = dq(1, -2, 3, 4, 0, 0, 0, 0);
    let rl = rotor.product(&l);
    assert_eq!(rl.product(&rotor.conj()), rl.product(&rotor.sconj()));
}

#[test]
fn sclerp_at_zero_is_exactly_the_first_motion() {
    let a = DualQuaternion::from_line(
        &Point { x: whole(0), y: whole(1), z: whole(0) },
        &Direction { x: whole(1), y: whole(0), z: whole(0) },
        Angle::from_deg(whole(30)),
        whole(1),
    );
    let b = DualQuaternion::from_line(
        &Point { x: whole(1), y: whole(0), z: whole(2) },
        &Direction { x: whole(0), y: whole(1), z: whole(1) },
        Angle::from_deg(whole(100)),
        raw(-ONE_RAW / 2),
    );
    assert!(a.conj().product(&b).log().finite());
    assert_eq!(a.sclerp(&b, &whole(0)), a);
    assert_eq!(b.sclerp(&a, &whole(0)), b);
}

#[test]
fn identity_motion_fixes_points_and_directions() {
    let e = DualQuaternion::identity();
    let p = Point { x: raw(123456789), y: raw(-987654321), z: raw(55555) };
    let d = Direction { x: raw(-1), y: raw(7), z: raw(1 << 40) };
    assert_eq!(e.transform_point(&p), p);
    assert_eq!(e.transform_direction(&d), d);
}

#[test]
fn norm_is_zero_only_for_the_zero_quaternion() {
    assert_eq!(quat(0, 0, 0, 0).norm(), whole(0));
    assert_eq!(Quaternion { w: raw(0), i: raw(0), j: raw(-1), k: raw(0) }.norm(), raw(1));
    assert_eq!(Quaternion { w: raw(1), i: raw(0), j: raw(0), k: raw(0) }.norm(), raw(1));
}

#[test]
fn unit_defect_measures_the_distance_from_norm_one() {
    let h = raw(ONE_RAW / 2);
    assert_eq!(Quaternion { w: h, i: h, j: h, k: h }.unit_defect(), Some(0));
    assert_eq!(quat(1, 0, 0, 0).unit_defect(), Some(0));
    assert_eq!(quat(0, 0, 0, 0).unit_defect(), Some(1 << 48));
    assert_eq!(quat(1, 1, 0, 0).unit_defect(), Some(1 << 48));
    assert_eq!(Quaternion { w: raw(ONE_RAW + 1), i: raw(0), j: raw(0), k: raw(0) }.unit_defect(), Some(2 * (ONE_RAW as i128) + 1));
    assert_eq!(Quaternion { w: raw(i64::MIN), i: raw(0), j: raw(0), k: raw(0) }.unit_defect(), None);
    let q = Quaternion::from_angle_axis(Angle::from_deg(whole(73)), whole(1), whole(-2), raw(ONE_RAW / 2));
    assert!(q.unit_defect().unwrap() <= 10 * (ONE_RAW as i128) + 10);
}

#[test]
fn sine_and_cosine_stay_within_one() {
    let mut x: i64 = -(1 << 40);
    while x <= 1 << 40 {
        let (s, c) = blanko_quaternions::elementary::sin_cos(&raw(x));
        assert!(s.finite() && c.finite());
        assert!(s.raw.abs() <= ONE_RAW && c.raw.abs() <= ONE_RAW);
        x += 987654321;
    }
}

#[test]
fn rotor_about_any_axis_is_finite() {
    let q = Quaternion::from_angle_axis(Angle::from_deg(whole(65536)), raw(1), raw(0), raw(0));
    assert!(q.finite());
    let r = Quaternion::from_angle_axis(Angle::from_rad(whole(-60000)), whole(30000), whole(-30000), whole(30000));
    assert!(r.finite());
}

#[test]
fn squares_of_sine_and_cosine_add_up_to_one_within_rounding() {
    let s = 1i128 << 48;
    let mut x: i64 = -(1 << 40);
    while x <= 1 << 40 {
        let (sin, cos) = blanko_quaternions::elementary::sin_cos(&raw(x));
        let sum = squares(&[sin.raw, cos.raw]);
        assert!(sum <= s);
        assert!(s - 2 * (ONE_RAW as i128) - 1 < sum);
        x += 123456789;
    }
}

#[test]
fn rotors_about_axes_of_norm_one_or_more_have_norm_one_within_ten_units() {
    let axes = [
        (whole(1), whole(0), whole(0)),
        (whole(1), whole(-2), raw(ONE_RAW / 2)),
        (raw(123456789), raw(-987654321), raw(55555)),
        (whole(30000), whole(-30000), whole(30000)),
        (raw(ONE_RAW), raw(1), raw(-1)),
    ];
    for (x, y, z) in axes {
        let mut d: i64 = -720;
        while d <= 720 {
            let q = Quaternion::from_angle_axis(Angle::from_deg(whole(d)), x, y, z);
            assert!(q.unit_defect().unwrap() <= 10 * (ONE_RAW as i128) + 10);
            d += 7;
        }
    }
}

#[test]
fn rotation_part_of_a_screw_is_the_rotor_about_its_direction() {
    let pos = Point { x: whole(0), y: whole(1), z: whole(0) };
    let dir = Direction { x: whole(1), y: whole(-2), z: whole(2) };
    let angle = Angle::from_deg(whole(75));
    let s = DualQuaternion::from_line(&pos, &dir, angle, whole(2));
    assert_eq!(s.real_part(), Quaternion::from_angle_axis(angle, dir.x, dir.y, dir.z));
    assert_eq!(
        DualQuaternion::from_angle_axis(angle, &dir).real_part(),
        Quaternion::from_angle_axis(angle, dir.x, dir.y, dir.z)
    );
}

#[test]
fn complex_and_dual_number_rings_on_whole_numbers() {
    let a = Complex { re: whole(3), im: whole(-4) };
    let b = Complex { re: whole(2), im: whole(7) };
    assert_eq!(a.product(&b), b.product(&a));
    assert_eq!(a.product(&a.conj()), Complex { re: whole(25), im: whole(0) });
    assert_eq!(a.product(&b).conj(), a.conj().product(&b.conj()));
    let p = a.product(&b);
    assert_eq!(
        squares(&[p.re.raw / ONE_RAW, p.im.raw / ONE_RAW]),
        squares(&[3, 4]) * squares(&[2, 7])
    );
    let c = DualNumber { re: whole(3), du: whole(-4) };
    let d = DualNumber { re: whole(2), du: whole(7) };
    assert_eq!(c.product(&d), d.product(&c));
    assert_eq!(c.product(&c.conj()), DualNumber { re: whole(9), du: whole(0) });
    assert_eq!(c.product(&d).conj(), c.conj().product(&d.conj()));
}

fn defect3(v: &Vector3) -> i128 {
    (squares(&[v.x.raw, v.y.raw, v.z.raw]) - (1i128 << 48)).abs()
}

#[test]
fn normalizing_a_short_vector_gives_length_one() {
    // 0.001 in every component
    let v = Vector3 { x: raw(16777), y: raw(16777), z: raw(16777) };
    let r = v.normalize();
    assert_eq!(r, Vector3 { x: raw(9686330), y: raw(9686330), z: raw(9686330) });
    assert!(defect3(&r) <= (1 << 27) + 27);
    assert!((r.norm().raw - ONE_RAW).abs() <= 16);
    // one raw unit in two components
    let tiny = Vector3 { x: raw(1), y: raw(1), z: raw(0) };
    assert_eq!(tiny.normalize(), Vector3 { x: raw(11863284), y: raw(11863284), z: raw(0) });
    // one raw unit in one component
    assert_eq!(Vector3 { x: raw(0), y: raw(-1), z: raw(0) }.normalize(), vec(0, -1, 0));
    // the longest vectors
    let long = vec(65536, -65536, 65536).normalize();
    assert_eq!(long, Vector3 { x: raw(9686330), y: raw(-9686330), z: raw(9686330) });
}

#[test]
fn normalizing_does_not_depend_on_the_length_of_the_vector() {
    let mut scale: i64 = 1;
    while scale <= 1 << 20 {
        let v = Vector3 { x: raw(3 * scale), y: raw(-4 * scale), z: raw(12 * scale) };
        let r = v.normalize();
        assert_eq!(
            r,
            Vector3 { x: raw(3 * ONE_RAW / 13), y: raw(-4 * ONE_RAW / 13), z: raw(12 * ONE_RAW / 13) }
        );
        assert!(defect3(&r) <= (1 << 27) + 27);
        scale *= 2;
    }
}

#[test]
fn normalizing_a_short_quaternion_gives_norm_one() {
    let q = Quaternion { w: raw(16777), i: raw(16777), j: raw(16777), k: raw(0) };
    let r = q.normalized();
    assert!(r.unit_defect().unwrap() <= (1 << 27) + 27);
    assert!((r.norm().raw - ONE_RAW).abs() <= 16);
    let tiny = Quaternion { w: raw(1), i: raw(-1), j: raw(1), k: raw(-1) };
    let h = raw(ONE_RAW / 2);
    assert_eq!(tiny.normalized(), Quaternion { w: h, i: h.neg(), j: h, k: h.neg() });
    let d = DualQuaternion {
        w: raw(0),
        i: raw(0),
        j: raw(2),
        k: raw(0),
        ie: raw(4),
        je: raw(6),
        ke: raw(8),
        we: raw(10),
    };
    assert_eq!(d.normalized(), dq(0, 0, 1, 0, 2, 3, 4, 5));
    let c = Complex { re: raw(3), im: raw(-4) }.normalized();
    assert_eq!(c, Complex { re: raw(3 * ONE_RAW / 5), im: raw(-4 * ONE_RAW / 5) });
    let n = DualNumber { re: raw(-3), du: raw(4) }.normalized();
    assert_eq!(n, DualNumber { re: raw(-3 * ONE_RAW / 5), du: raw(4 * ONE_RAW / 5) });
}

#[test]
fn rotors_about_short_axes_have_norm_one() {
    let axes = [
        (raw(16777), raw(16777), raw(16777)),
        (raw(1), raw(1), raw(0)),
        (raw(0), raw(0), raw(-1)),
        (raw(3), raw(-4), raw(12)),
    ];
    for (x, y, z) in axes {
        let mut d: i64 = -720;
        while d <= 720 {
            let angle = Angle::from_deg(whole(d));
            let q = Quaternion::from_angle_axis(angle, x, y, z);
            assert!(q.unit_defect().unwrap() <= 10 * (ONE_RAW as i128) + 40);
            let m = DualQuaternion::from_angle_axis(angle, &Direction { x, y, z });
            assert_eq!(m.real_part(), q);
            assert!((m.norm().raw - ONE_RAW).abs() <= 8);
            d += 45;
        }
    }
    let half_turn = Quaternion::from_angle_axis(Angle::from_deg(whole(180)), raw(1), raw(1), raw(0));
    assert_eq!(half_turn, Quaternion { w: raw(0), i: raw(11863284), j: raw(11863284), k: raw(0) });
}

#[test]
fn a_motion_fixes_the_points_where_its_moment_arm_vanishes() {
    // quarter turn built from the line with position (0, 1, 0) along x
    let line = DualQuaternion::line(
        &Point { x: whole(0), y: whole(1), z: whole(0) },
        &Direction { x: whole(1), y: whole(0), z: whole(0) },
    );
    let m = DualQuaternion::screw(&line, Angle::from_deg(whole(90)), whole(0));
    // the points of the line through (0, -1, 0) along x stay in place
    let on_axis = Point { x: whole(5), y: whole(-1), z: whole(0) };
    assert_eq!(m.transform_point(&on_axis), on_axis);
    let also = Point { x: whole(-7), y: whole(-1), z: whole(0) };
    assert_eq!(m.transform_point(&also), also);
    // the points of the line through (0, 1, 0) do not
    let off_axis = Point { x: whole(5), y: whole(1), z: whole(0) };
    assert_ne!(m.transform_point(&off_axis), off_axis);
    // as a line, the line itself stays in place
    let image = m.transform_line(&line);
    assert!((image.i.raw - line.i.raw).abs() <= 4);
    assert!((image.ke.raw - line.ke.raw).abs() <= 4);
    assert!(image.j.raw.abs() <= 4 && image.k.raw.abs() <= 4);
    assert!(image.ie.raw.abs() <= 4 && image.je.raw.abs() <= 4);
}

#[test]
fn a_translator_moves_lines_against_points() {
    let pos = Point { x: whole(1), y: whole(2), z: whole(3) };
    let dir = Direction { x: whole(0), y: whole(0), z: whole(2) };
    let t = Direction { x: whole(4), y: whole(-6), z: whole(8) };
    let m = DualQuaternion::from_translation(&t);
    assert_eq!(m.transform_point(&pos), Point { x: whole(5), y: whole(-4), z: whole(11) });
    let moved = Point { x: whole(-3), y: whole(8), z: whole(-5) };
    assert_eq!(
        m.transform_line(&DualQuaternion::line(&pos, &dir)),
        DualQuaternion::line(&moved, &dir)
    );
}

#[test]
fn a_motion_times_its_line_conjugate_is_the_identity() {
    let motions = [dq(0, 0, 0, 1, 1, 2, 0, 0), dq(0, 1, 0, 0, 0, 3, -1, 0), dq(1, 0, 0, 0, 4, 5, 6, 0)];
    for m in motions {
        assert_eq!(m.product(&m.conj()), DualQuaternion::identity());
        assert_eq!(m.conj().product(&m), DualQuaternion::identity());
        let b = dq(1, -2, 3, 4, 5, 0, -1, 2);
        assert_eq!(m.product(&m.conj().product(&b)), b);
    }
    // any dual quaternion: the squared norm, and twice the sum of Study
    let a = dq(1, -2, 3, 4, 5, 0, -1, 2);
    assert_eq!(a.product(&a.conj()), dq(30, 0, 0, 0, 0, 0, 0, -24));
    assert_eq!(a.conj().product(&a), dq(30, 0, 0, 0, 0, 0, 0, -24));
}
