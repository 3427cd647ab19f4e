use blanko_quaternions::angle::Angle;
use blanko_quaternions::scalar::{Scalar, NAN_RAW, ONE_RAW};

fn raw(n: i64) -> Scalar {
    Scalar { raw: n }
}

fn whole(n: i64) -> Scalar {
    Scalar { raw: n * ONE_RAW }
}

fn deg(n: i64) -> Angle {
    Angle::from_deg(whole(n))
}

fn val(s: Scalar) -> f64 {
    assert!(s.finite(), "non-finite scalar");
    s.raw as f64 / ONE_RAW as f64
}

#[test]
fn degrees_and_radians_are_kept_together() {
    let a = deg(180);
    assert_eq!(a.deg(), whole(180));
    assert_eq!(a.rad(), raw(52707179));
    assert_eq!(a, Angle::half());
    assert_eq!(deg(90).rad(), raw(26353589));
    assert_eq!(deg(0), Angle::zero());
    let b = Angle::from_rad(raw(52707179));
    assert_eq!(b.rad(), raw(52707179));
    // the raw value of pi is a little above pi
    assert_eq!(b.deg(), raw(3019898907));
    let c = Angle::from_rad(whole(1));
    assert!((val(c.deg()) - 57.29577951308232).abs() < 1e-6);
}

#[test]
fn named_angles() {
    assert_eq!(Angle::full().deg(), whole(360));
    assert_eq!(Angle::full().rad(), raw(105414357));
    assert_eq!(Angle::half().deg(), whole(180));
    assert_eq!(Angle::quarter().deg(), whole(90));
    assert_eq!(Angle::quarter().rad(), raw(26353589));
    assert_eq!(Angle::zero().deg(), whole(0));
    assert_eq!(Angle::zero().rad(), whole(0));
}

#[test]
fn minimum_maximum_and_clamp_go_by_degrees() {
    assert_eq!(deg(10).min(deg(20)), deg(10));
    assert_eq!(deg(30).min(deg(20)), deg(20));
    assert_eq!(deg(10).max(deg(20)), deg(20));
    assert_eq!(deg(30).max(deg(20)), deg(30));
    assert_eq!(deg(50).clamp(deg(0), deg(45)), deg(45));
    assert_eq!(deg(-50).clamp(deg(0), deg(45)), deg(0));
    assert_eq!(deg(30).clamp(deg(0), deg(45)), deg(30));
}

#[test]
fn comparison_with_a_non_finite_angle_keeps_the_other_operand() {
    let bad = Angle::from_deg(raw(NAN_RAW));
    assert_eq!(deg(10).min(bad), bad);
    assert_eq!(deg(10).max(bad), bad);
    assert_eq!(bad.min(deg(10)), deg(10));
    assert_eq!(bad.clamp(deg(0), deg(45)), bad);
}

#[test]
fn absolute_value_and_sign_of_an_angle() {
    assert_eq!(deg(-90).abs().deg(), whole(90));
    assert_eq!(deg(-90).abs().rad(), raw(26353589));
    assert_eq!(deg(-90).signum(), whole(-1));
    assert_eq!(deg(90).signum(), whole(1));
    assert_eq!(deg(0).signum(), whole(1));
}

#[test]
fn rounding_to_multiples_of_an_angle() {
    let step = deg(45);
    assert_eq!(deg(100).floor(step).deg(), whole(90));
    assert_eq!(deg(-100).floor(step).deg(), whole(-90));
    assert_eq!(deg(100).ceil(step).deg(), whole(135));
    assert_eq!(deg(-100).ceil(step).deg(), whole(-135));
    assert_eq!(deg(90).ceil(step).deg(), whole(90));
    assert_eq!(deg(100).round(step).deg(), whole(90));
    assert_eq!(deg(120).round(step).deg(), whole(135));
    assert_eq!(deg(-120).round(step).deg(), whole(-135));
    // the radians of a multiple are those of its degrees
    assert_eq!(deg(100).floor(step).rad(), deg(90).rad());
    assert_eq!(deg(65000).floor(deg(1)), deg(65000));
}

#[test]
fn rounding_to_multiples_of_the_zero_angle_is_not_finite() {
    let r = deg(100).floor(deg(0));
    assert_eq!(r.deg(), raw(NAN_RAW));
    assert_eq!(r.rad(), raw(NAN_RAW));
}

#[test]
fn corrected_brings_an_angle_into_the_first_turn() {
    assert_eq!(deg(-20).corrected().deg(), whole(340));
    assert_eq!(deg(380).corrected().deg(), whole(20));
    assert_eq!(deg(-380).corrected().deg(), whole(340));
    assert_eq!(deg(20).corrected().deg(), whole(20));
    assert_eq!(deg(0).corrected().deg(), whole(0));
    assert_eq!(deg(-20).corrected(), deg(340));
}

#[test]
fn sign_corrected_adds_whole_turns() {
    assert_eq!(deg(-380).sign_corrected().deg(), whole(700));
    assert_eq!(deg(-20).sign_corrected().deg(), whole(340));
    assert_eq!(deg(380).sign_corrected().deg(), whole(380));
    assert_eq!(deg(0).sign_corrected().deg(), whole(0));
}

#[test]
fn range_corrected_keeps_the_sign() {
    assert_eq!(deg(-20).range_corrected().deg(), whole(-20));
    assert_eq!(deg(-380).range_corrected().deg(), whole(-20));
    assert_eq!(deg(380).range_corrected().deg(), whole(20));
    assert_eq!(deg(720).range_corrected().deg(), whole(0));
}

#[test]
fn arithmetic_of_angles() {
    assert_eq!(deg(30).add(deg(60)).deg(), whole(90));
    assert_eq!(deg(30).sub(deg(60)).deg(), whole(-30));
    assert_eq!(deg(30).neg().deg(), whole(-30));
    assert_eq!(deg(30).scale(&whole(3)).deg(), whole(90));
    assert_eq!(deg(30).scale(&whole(3)), deg(90));
    assert_eq!(deg(1).scale(&whole(65000)), deg(65000));
    assert_eq!(deg(90).div(whole(3)), deg(30));
    assert_eq!(deg(90).div(whole(3)).deg(), whole(30));
    assert_eq!(deg(90).halved().deg(), whole(45));
    assert_eq!(deg(90).halved(), deg(45));
    assert_eq!(deg(90).halved().rad(), raw(13176795));
    assert_eq!(deg(100).rem(whole(45)).deg(), whole(10));
    assert_eq!(deg(100).rem(whole(45)).rad(), deg(10).rad());
    assert_eq!(deg(30).add(deg(60)), deg(90));
    assert_eq!(deg(30).sub(deg(60)), deg(-30));
    assert_eq!(deg(30).neg(), deg(-30));
    assert_eq!(deg(-30).abs(), deg(30));
}

#[test]
fn the_two_measures_of_an_angle_agree() {
    let third = Angle::from_rad(raw(17569060));
    let sixth = Angle::from_rad(raw(8784530));
    assert_eq!(third.rad(), raw(17569060));
    assert_eq!(sixth.rad(), raw(8784530));
    assert_eq!(Angle::from_deg(third.deg()), third);
    assert_eq!(Angle::from_deg(sixth.deg()), sixth);
    let sum = third.add(sixth);
    assert_eq!(sum, Angle::from_deg(sum.deg()));
    assert_eq!(sum.rad(), raw(17569060 + 8784530));
    assert_eq!(Angle::full(), deg(360));
    assert_eq!(Angle::half(), deg(180));
    assert_eq!(Angle::quarter(), deg(90));
    assert_eq!(Angle::zero(), deg(0));
    let mut n: i64 = -40000;
    while n <= 40000 {
        let a = Angle::from_rad(raw(n * 1021 + 7));
        assert_eq!(a.rad(), raw(n * 1021 + 7));
        assert_eq!(Angle::from_deg(a.deg()), a);
        assert_eq!(a.neg().neg(), a);
        assert_eq!(a.add(a).halved().rad(), a.rad());
        n += 97;
    }
}

#[test]
fn trigonometry_of_angles() {
    assert_eq!(deg(0).sin(), whole(0));
    assert_eq!(deg(0).cos(), whole(1));
    assert_eq!(deg(90).sin(), whole(1));
    assert_eq!(deg(90).cos(), whole(0));
    assert_eq!(deg(90).sin_cos(), (whole(1), whole(0)));
    assert!((val(deg(30).sin()) - 0.5).abs() < 1e-6);
    assert!((val(deg(60).cos()) - 0.5).abs() < 1e-6);
    assert!((val(deg(45).tan()) - 1.0).abs() < 1e-6);
    assert_eq!(deg(90).tan(), raw(NAN_RAW));
    assert_eq!(deg(30).sin_cos(), (deg(30).sin(), deg(30).cos()));
}

#[test]
fn sign_corrected_is_never_negative() {
    let full = 360 * ONE_RAW;
    for d in [-1i64, -2, -359, -360, -361, -full + 1, -full, -full - 1, -7 * full, -7 * full - 5] {
        let r = Angle::from_deg(raw(d)).sign_corrected();
        assert!(r.deg().finite());
        assert!(r.deg().raw >= 0, "{}", d);
    }
    assert_eq!(Angle::from_deg(raw(-1)).sign_corrected().deg(), raw(full - 1));
    assert_eq!(Angle::from_deg(raw(-359)).sign_corrected().deg(), raw(full - 359));
    assert_eq!(Angle::from_deg(raw(-full)).sign_corrected().deg(), raw(full));
    assert_eq!(Angle::from_deg(raw(-full - 1)).sign_corrected().deg(), raw(2 * full - 1));
    assert_eq!(Angle::from_deg(raw(0)).sign_corrected().deg(), raw(0));
    assert_eq!(Angle::from_deg(raw(5)).sign_corrected().deg(), raw(5));
    // within a turn of the lower end of the range the result leaves the range
    assert!(!Angle::from_deg(whole(-65536)).sign_corrected().deg().finite());
    assert_eq!(Angle::from_deg(whole(-65176)).sign_corrected().deg(), whole(65504));
}

#[test]
fn ceil_rounds_the_exact_quotient_away_from_zero() {
    let step = deg(90);
    assert_eq!(Angle::from_deg(raw(-1)).ceil(step).deg(), whole(-90));
    assert_eq!(Angle::from_deg(raw(1)).ceil(step).deg(), whole(90));
    assert_eq!(Angle::from_deg(raw(0)).ceil(step).deg(), whole(0));
    assert_eq!(Angle::from_deg(raw(90 * ONE_RAW + 1)).ceil(step).deg(), whole(180));
    assert_eq!(Angle::from_deg(raw(-90 * ONE_RAW - 1)).ceil(step).deg(), whole(-180));
    assert_eq!(deg(100).ceil(deg(-45)).deg(), whole(135));
    assert_eq!(Angle::from_deg(raw(-1)).floor(step).deg(), whole(0));
    assert_eq!(Angle::from_deg(raw(1)).floor(step).deg(), whole(0));
    assert_eq!(Angle::from_deg(raw(45 * ONE_RAW - 1)).round(step).deg(), whole(0));
    assert_eq!(Angle::from_deg(raw(45 * ONE_RAW)).round(step).deg(), whole(90));
    assert_eq!(Angle::from_deg(raw(-45 * ONE_RAW)).round(step).deg(), whole(-90));
    assert_eq!(Angle::from_deg(raw(-45 * ONE_RAW + 1)).round(step).deg(), whole(0));
}

#[test]
fn corrected_stays_within_one_turn() {
    let full = 360 * ONE_RAW;
    for d in [-1i64, -359, -full, -full - 1, -3 * full, 0, 1, full - 1, full, full + 1, 5 * full] {
        let r = Angle::from_deg(raw(d)).corrected().deg();
        assert!(r.finite());
        assert!(0 <= r.raw && r.raw <= full, "{}", d);
        if d >= 0 {
            assert!(r.raw < full);
        }
    }
    // a negative whole number of turns comes out as a full turn
    assert_eq!(deg(-360).corrected().deg(), whole(360));
    assert_eq!(deg(-720).corrected().deg(), whole(360));
    assert_eq!(deg(360).corrected().deg(), whole(0));
    assert_eq!(Angle::from_deg(raw(-1)).corrected().deg(), raw(full - 1));
}

#[test]
fn trigonometry_of_large_angles() {
    for d in [60000i64, -60000, 65536, 12345, -7777, 3600, 361] {
        let a = deg(d);
        let t = (d as f64).to_radians();
        assert!((val(a.rad()) - t).abs() < 1e-7, "rad {}", d);
        assert!((val(a.sin()) - t.sin()).abs() < 1e-6, "sin {}", d);
        assert!((val(a.cos()) - t.cos()).abs() < 1e-6, "cos {}", d);
    }
    let back = Angle::from_rad(deg(60000).rad());
    assert!((val(back.deg()) - 60000.0).abs() < 1e-5);
}
