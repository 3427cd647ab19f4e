use blanko_quaternions::scalar::{Scalar, MAX_RAW, NAN_RAW, ONE_RAW};

fn raw(n: i64) -> Scalar {
    Scalar { raw: n }
}

fn whole(n: i64) -> Scalar {
    Scalar { raw: n * ONE_RAW }
}

#[test]
fn raw_value_of_one_is_two_to_the_24() {
    assert_eq!(ONE_RAW, 1 << 24);
    assert_eq!(MAX_RAW, 1 << 40);
    assert_eq!(NAN_RAW, i64::MIN);
    assert_eq!(Scalar::from_int(1), raw(ONE_RAW));
    assert_eq!(Scalar::from_int(-3), whole(-3));
}

#[test]
fn finite_range_ends_at_65536() {
    assert!(raw(MAX_RAW).finite());
    assert!(raw(-MAX_RAW).finite());
    assert!(!raw(MAX_RAW + 1).finite());
    assert!(!raw(-MAX_RAW - 1).finite());
    assert!(!raw(NAN_RAW).finite());
    assert_eq!(Scalar::from_int(65536), raw(MAX_RAW));
    assert_eq!(Scalar::from_int(65537), raw(NAN_RAW));
}

#[test]
fn sum_and_difference_are_exact() {
    assert_eq!(raw(5).add(raw(-7)), raw(-2));
    assert_eq!(raw(5).sub(raw(-7)), raw(12));
    assert_eq!(whole(2).neg(), whole(-2));
}

#[test]
fn sum_out_of_range_is_not_finite() {
    assert_eq!(raw(MAX_RAW).add(raw(1)), raw(NAN_RAW));
    assert_eq!(raw(-MAX_RAW).sub(raw(1)), raw(NAN_RAW));
    assert_eq!(raw(MAX_RAW).add(raw(-1)), raw(MAX_RAW - 1));
}

#[test]
fn non_finite_operands_give_the_canonical_non_finite_value() {
    let bad = raw(MAX_RAW + 5);
    assert_eq!(bad.add(whole(1)), raw(NAN_RAW));
    assert_eq!(whole(1).sub(bad), raw(NAN_RAW));
    assert_eq!(bad.mul(whole(0)), raw(NAN_RAW));
    assert_eq!(whole(0).div(bad), raw(NAN_RAW));
    assert_eq!(bad.neg(), raw(NAN_RAW));
    assert_eq!(bad.abs(), raw(NAN_RAW));
    assert_eq!(bad.sqrt(), raw(NAN_RAW));
    assert_eq!(bad.floor(), raw(NAN_RAW));
    assert!(!bad.lt(&whole(1)));
    assert!(!whole(1).lt(&bad));
    assert!(!bad.le(&bad));
}

#[test]
fn product_rounds_toward_zero() {
    // 1.5 * 2.5 = 3.75
    assert_eq!(raw(3 * ONE_RAW / 2).mul(raw(5 * ONE_RAW / 2)), raw(15 * ONE_RAW / 4));
    // 3 units * 0.5 = 1.5 units, rounded toward zero
    assert_eq!(raw(3).mul(raw(ONE_RAW / 2)), raw(1));
    assert_eq!(raw(-3).mul(raw(ONE_RAW / 2)), raw(-1));
    assert_eq!(raw(3).mul(raw(-ONE_RAW / 2)), raw(-1));
    assert_eq!(raw(-3).mul(raw(-ONE_RAW / 2)), raw(1));
    assert_eq!(whole(300).mul(whole(300)), raw(NAN_RAW));
    assert_eq!(whole(256).mul(whole(256)), whole(65536));
}

#[test]
fn quotient_rounds_toward_zero() {
    assert_eq!(whole(1).div(whole(3)), raw(5592405));
    assert_eq!(whole(-1).div(whole(3)), raw(-5592405));
    assert_eq!(whole(1).div(whole(-3)), raw(-5592405));
    assert_eq!(whole(-1).div(whole(-3)), raw(5592405));
    assert_eq!(whole(7).div(whole(2)), raw(7 * ONE_RAW / 2));
}

#[test]
fn division_by_zero_is_not_finite() {
    assert_eq!(whole(1).div(whole(0)), raw(NAN_RAW));
    assert_eq!(whole(0).div(whole(0)), raw(NAN_RAW));
    assert_eq!(whole(1).rem(whole(0)), raw(NAN_RAW));
    assert_eq!(whole(1).div_int(0), raw(NAN_RAW));
    assert_eq!(Scalar::from_ratio(1, 0), raw(NAN_RAW));
    assert_eq!(whole(1).mul_div(&whole(1), &whole(0)), raw(NAN_RAW));
}

#[test]
fn quotient_out_of_range_is_not_finite() {
    assert_eq!(whole(1).div(raw(1)), raw(NAN_RAW));
    assert_eq!(whole(1).div(raw(256)), whole(65536));
}

#[test]
fn square_root_rounds_down() {
    assert_eq!(whole(4).sqrt(), whole(2));
    assert_eq!(whole(0).sqrt(), whole(0));
    assert_eq!(whole(2).sqrt(), raw(23726566));
    assert_eq!(raw(1).sqrt(), raw(4096));
    assert_eq!(whole(65536).sqrt(), whole(256));
    assert_eq!(whole(-1).sqrt(), raw(NAN_RAW));
}

#[test]
fn absolute_value_and_signum() {
    assert_eq!(whole(-5).abs(), whole(5));
    assert_eq!(whole(5).abs(), whole(5));
    assert_eq!(whole(-5).signum(), whole(-1));
    assert_eq!(whole(5).signum(), whole(1));
    assert_eq!(whole(0).signum(), whole(1));
}

#[test]
fn integer_factor_and_divisor() {
    assert_eq!(raw(7).mul_int(-3), raw(-21));
    assert_eq!(raw(7).div_int(2), raw(3));
    assert_eq!(raw(-7).div_int(2), raw(-3));
    assert_eq!(raw(7).div_int(-2), raw(-3));
    assert_eq!(raw(MAX_RAW).mul_int(2), raw(NAN_RAW));
    assert_eq!(raw(MAX_RAW).mul_int(i64::MAX), raw(NAN_RAW));
}

#[test]
fn fused_product_and_quotient_rounds_once() {
    // 180 * pi / 180 is pi exactly, where two roundings would lose a unit
    let pi = raw(52707179);
    assert_eq!(whole(180).mul_div(&pi, &whole(180)), pi);
    assert_eq!(whole(90).mul_div(&pi, &whole(180)), raw(26353589));
    assert_eq!(whole(-90).mul_div(&pi, &whole(180)), raw(-26353589));
}

#[test]
fn remainder_has_the_sign_of_the_dividend() {
    assert_eq!(whole(380).rem(whole(360)), whole(20));
    assert_eq!(whole(-380).rem(whole(360)), whole(-20));
    assert_eq!(whole(380).rem(whole(-360)), whole(20));
    assert_eq!(whole(-380).rem(whole(-360)), whole(-20));
    assert_eq!(whole(360).rem(whole(360)), whole(0));
    assert_eq!(raw(7).rem(raw(4)), raw(3));
}

#[test]
fn rounding_to_integers() {
    let x = raw(5 * ONE_RAW / 2); // 2.5
    let y = raw(-5 * ONE_RAW / 2); // -2.5
    assert_eq!(x.trunc(), whole(2));
    assert_eq!(y.trunc(), whole(-2));
    assert_eq!(x.floor(), whole(2));
    assert_eq!(y.floor(), whole(-3));
    assert_eq!(x.ceil(), whole(3));
    assert_eq!(y.ceil(), whole(-2));
    assert_eq!(x.round(), whole(3));
    assert_eq!(y.round(), whole(-3));
    assert_eq!(raw(ONE_RAW / 2 - 1).round(), whole(0));
    assert_eq!(raw(-ONE_RAW / 2 + 1).round(), whole(0));
    assert_eq!(whole(7).floor(), whole(7));
    assert_eq!(whole(-7).ceil(), whole(-7));
    assert_eq!(whole(-7).floor(), whole(-7));
    assert_eq!(raw(-1).floor(), whole(-1));
    assert_eq!(raw(1).ceil(), whole(1));
}

#[test]
fn comparisons() {
    assert!(whole(1).lt(&whole(2)));
    assert!(!whole(2).lt(&whole(2)));
    assert!(whole(2).le(&whole(2)));
    assert!(!whole(3).le(&whole(2)));
    assert!(whole(-3).lt(&whole(2)));
}

#[test]
fn scalars_from_ratios() {
    assert_eq!(Scalar::from_ratio(1, 2), raw(ONE_RAW / 2));
    assert_eq!(Scalar::from_ratio(-1, 3), raw(-5592405));
    assert_eq!(Scalar::from_ratio(200000, 2), raw(NAN_RAW));
    assert_eq!(Scalar::from_ratio(i64::MAX, 1), raw(NAN_RAW));
    assert_eq!(Scalar::from_ratio(i64::MIN, i64::MIN), whole(1));
}

#[test]
fn integer_powers() {
    assert_eq!(whole(2).powi(10), whole(1024));
    assert_eq!(whole(7).powi(0), whole(1));
    assert_eq!(whole(0).powi(0), whole(1));
    assert_eq!(whole(-2).powi(3), whole(-8));
    assert_eq!(whole(2).powi(17), raw(NAN_RAW));
    assert_eq!(raw(ONE_RAW / 2).powi(3), raw(ONE_RAW / 8));
}

#[test]
fn wide_values_are_rounded_once() {
    assert_eq!(Scalar::from_wide(5), raw(5));
    assert_eq!(Scalar::from_wide(i128::MAX), raw(NAN_RAW));
    assert_eq!(Scalar::from_wide(i128::MIN), raw(NAN_RAW));
    assert_eq!(Scalar::from_product(3 * (ONE_RAW as i128) + 5), raw(3));
    assert_eq!(Scalar::from_product(-3 * (ONE_RAW as i128) - 5), raw(-3));
    let sq = (ONE_RAW as i128) * (ONE_RAW as i128);
    assert_eq!(Scalar::from_triple_product(7 * sq + sq - 1), raw(7));
    assert_eq!(Scalar::from_triple_product(-7 * sq - sq + 1), raw(-7));
}

#[test]
fn noticeable_scalars_have_a_square_above_two_units() {
    // 5793^2 = 33558849 > 2^25 = 33554432 > 5792^2 = 33547264
    assert!(raw(5793).noticeable());
    assert!(raw(-5793).noticeable());
    assert!(!raw(5792).noticeable());
    assert!(!raw(-5792).noticeable());
    assert!(!raw(0).noticeable());
    assert!(whole(1).noticeable());
    assert!(whole(300).noticeable());
    assert!(!raw(NAN_RAW).noticeable());
}

#[test]
fn exact_quotients_rounded_to_whole_numbers() {
    assert_eq!(raw(7).quotient_trunc(&raw(2)), whole(3));
    assert_eq!(raw(-7).quotient_trunc(&raw(2)), whole(-3));
    assert_eq!(raw(7).quotient_away(&raw(2)), whole(4));
    assert_eq!(raw(-7).quotient_away(&raw(2)), whole(-4));
    assert_eq!(raw(7).quotient_away(&raw(-2)), whole(-4));
    assert_eq!(raw(-7).quotient_away(&raw(-2)), whole(4));
    assert_eq!(raw(6).quotient_away(&raw(2)), whole(3));
    assert_eq!(raw(-1).quotient_away(&whole(90)), whole(-1));
    assert_eq!(raw(7).quotient_floor(&raw(2)), whole(3));
    assert_eq!(raw(-7).quotient_floor(&raw(2)), whole(-4));
    assert_eq!(raw(7).quotient_floor(&raw(-2)), whole(-4));
    assert_eq!(raw(-6).quotient_floor(&raw(2)), whole(-3));
    assert_eq!(raw(-1).quotient_floor(&whole(360)), whole(-1));
    assert_eq!(raw(7).quotient_round(&raw(2)), whole(4));
    assert_eq!(raw(-7).quotient_round(&raw(2)), whole(-4));
    assert_eq!(raw(5).quotient_round(&raw(4)), whole(1));
    assert_eq!(raw(-5).quotient_round(&raw(4)), whole(-1));
    assert_eq!(raw(0).quotient_away(&raw(3)), whole(0));
    assert_eq!(raw(1).quotient_trunc(&raw(0)), raw(NAN_RAW));
    assert_eq!(raw(NAN_RAW).quotient_floor(&raw(1)), raw(NAN_RAW));
    assert_eq!(whole(65536).quotient_trunc(&raw(1)), raw(NAN_RAW));
    assert_eq!(raw(65536).quotient_trunc(&raw(1)), whole(65536));
}

#[test]
fn shown_components_are_the_noticeable_ones() {
    use_shown();
}

fn use_shown() {
    let values = vec![whole(1), raw(0), raw(5792), raw(-5793), raw(NAN_RAW), whole(-3)];
    assert_eq!(blanko_quaternions::scalar::shown_among(&values), vec![0, 3, 5]);
    assert_eq!(blanko_quaternions::scalar::shown_among(&Vec::new()), Vec::<usize>::new());
}
