//! Laws of the elementary functions.
use vstd::prelude::*;
use vstd::arithmetic::power2::{lemma2_to64, pow2};
use crate::elementary::{
    atan_factor, atan_over_spec, cos_from_sin, exp_poly, exp_spec, floor_log2, is_floor_log2, lemma_floor_log2_unique,
    ln_series, ln_spec, odd_up, one, reduce, sin_cos_spec, sin_factor, sin_poly, sinc_spec,
    odd_down, step_down, step_up, HALF_PI_RAW, HALF_PI_WIDE, LN2_RAW, LN2_WIDE, QUARTER_PI_RAW,
    SQRT2_RAW, TAN_PI_8_RAW,
};
use crate::scalar::{
    Scalar, in_range, is_isqrt, isqrt, lemma_isqrt_exists, lemma_isqrt_unique, lemma_mul_bound,
    lemma_square_monotonic, round_div, trunc_div, MAX_RAW, ONE_RAW, ONE_SQ_RAW,
};

verus! {

/// A bound on the raw value of a reduced argument: a quarter of pi and a
/// little, the little being what the rounded constant of the quotient
/// lets through.
pub open spec fn reduced_max() -> int {
    13190000
}

/// Whether the scalar is finite and between zero and `bound`.
pub open spec fn between_zero_and(s: Scalar, bound: int) -> bool {
    s.is_finite() && 0 <= s.raw <= bound
}

/// The argument of the series lies within a quarter of pi of zero, and a little.
pub proof fn lemma_reduced_argument(x: Scalar)
    requires
        x.is_finite(),
    ensures
        reduce(x.raw as int, round_div(x.raw as int, HALF_PI_RAW as int), HALF_PI_WIDE as int).is_finite(),
        -reduced_max() <= reduce(
            x.raw as int,
            round_div(x.raw as int, HALF_PI_RAW as int),
            HALF_PI_WIDE as int,
        ).raw <= reduced_max(),
{
    let n = x.raw as int;
    let k = round_div(n, 26353589);
    assert(HALF_PI_RAW == 26353589);
    assert(HALF_PI_WIDE == 442139859501778);
    assert(-13176794 <= n - k * 26353589 <= 13176794);
    assert(-41723 <= k <= 41723);
    let m = n * 0x100_0000 - k * 442139859501778;
    assert(m == (n - k * 26353589) * 0x100_0000 - k * 4473554);
    assert(-13190000 <= trunc_div(m, 0x100_0000) <= 13190000);
}

/// A product of a scalar between zero and `a` with a scalar between zero
/// and one lies between zero and `a`.
pub proof fn lemma_product_below(x: Scalar, p: Scalar, a: int)
    requires
        between_zero_and(x, a),
        between_zero_and(p, ONE_RAW as int),
        a <= ONE_RAW,
    ensures
        between_zero_and(x.mul_spec(p), a),
{
    lemma_mul_bound(x.raw as int, p.raw as int, a, ONE_RAW as int);
    assert(x.raw * p.raw >= 0) by (nonlinear_arith)
        requires
            x.raw >= 0,
            p.raw >= 0,
    ;
    assert(a * ONE_RAW == a * 0x100_0000) by (nonlinear_arith)
        requires
            ONE_RAW == 0x100_0000,
    ;
    let m = x.raw * p.raw;
    assert(0 <= trunc_div(m, 0x100_0000) <= a);
}

/// One step of a series with alternating signs keeps its value between
/// zero and one: for `x` between zero and `a <= 1`, `p` between zero and
/// one and `n >= 1`, the value `1 - (x p) / n` lies between `1 - a / n` and one.
pub proof fn lemma_step_down_bounds(x: Scalar, p: Scalar, n: int, a: int)
    requires
        between_zero_and(x, a),
        between_zero_and(p, ONE_RAW as int),
        a <= ONE_RAW,
        n >= 1,
    ensures
        between_zero_and(step_down(x, p, n), ONE_RAW as int),
        step_down(x, p, n).raw >= ONE_RAW - a,
{
    lemma_product_below(x, p, a);
    let m = x.mul_spec(p).raw as int;
    assert(0 <= m / n <= m) by (nonlinear_arith)
        requires
            m >= 0,
            n >= 1,
    ;
}

/// The sine series at an argument within a quarter of pi of zero is no
/// larger in magnitude than its argument.
pub proof fn lemma_series_bounds(r: Scalar)
    requires
        -reduced_max() <= r.raw <= reduced_max(),
    ensures
        sin_poly(r).is_finite(),
        -reduced_max() <= sin_poly(r).raw <= reduced_max(),
{
    lemma_sin_factor_bounds(r);
    let s4 = sin_factor(r);
    lemma_mul_bound(r.raw as int, s4.raw as int, reduced_max(), ONE_RAW as int);
    assert(reduced_max() * ONE_RAW == 13190000 * 0x100_0000) by (nonlinear_arith)
        requires
            ONE_RAW == 0x100_0000,
            reduced_max() == 13190000,
    ;
    let m = r.raw * s4.raw;
    assert(-13190000 <= trunc_div(m, 0x100_0000) <= 13190000);
}

/// The cosine that goes with a sine of magnitude at most one: it lies
/// between zero and one, and the two squares add up to one within the
/// rounding of the root: `2^48 - 2 c - 1 < s^2 + c^2 <= 2^48`.
pub proof fn lemma_cos_from_sin(s: Scalar)
    requires
        -ONE_RAW <= s.raw <= ONE_RAW,
    ensures
        between_zero_and(cos_from_sin(s), ONE_RAW as int),
        s.raw * s.raw + cos_from_sin(s).raw * cos_from_sin(s).raw <= ONE_SQ_RAW,
        ONE_SQ_RAW - 2 * cos_from_sin(s).raw - 1 < s.raw * s.raw + cos_from_sin(s).raw
            * cos_from_sin(s).raw,
{
    let q = s.raw * s.raw;
    lemma_mul_bound(s.raw as int, s.raw as int, ONE_RAW as int, ONE_RAW as int);
    assert(ONE_RAW * ONE_RAW == ONE_SQ_RAW);
    assert(q >= 0) by (nonlinear_arith)
        requires
            q == s.raw * s.raw,
    ;
    let n = ONE_SQ_RAW - q;
    lemma_isqrt_exists(n);
    let c = isqrt(n);
    assert(is_isqrt(n, c));
    if c > ONE_RAW {
        lemma_square_monotonic(ONE_RAW + 1, c);
        assert((ONE_RAW + 1) * (ONE_RAW + 1) > ONE_SQ_RAW) by (nonlinear_arith)
            requires
                ONE_RAW == 0x100_0000,
                ONE_SQ_RAW == 0x1_0000_0000_0000,
        ;
        assert(false);
    }
    assert((c + 1) * (c + 1) == c * c + 2 * c + 1) by (nonlinear_arith);
}

/// Sine and cosine of a finite scalar are finite, and neither exceeds one
/// in magnitude.
pub proof fn law_sin_cos_bounded(x: Scalar)
    requires
        x.is_finite(),
    ensures
        sin_cos_spec(x).0.is_finite(),
        sin_cos_spec(x).1.is_finite(),
        -ONE_RAW <= sin_cos_spec(x).0.raw <= ONE_RAW,
        -ONE_RAW <= sin_cos_spec(x).1.raw <= ONE_RAW,
{
    lemma_reduced_argument(x);
    let k = round_div(x.raw as int, HALF_PI_RAW as int);
    let r = reduce(x.raw as int, k, HALF_PI_WIDE as int);
    lemma_series_bounds(r);
    lemma_cos_from_sin(sin_poly(r));
}

/// The series of `sin r / r` at an argument within a quarter of pi of
/// zero lies between zero and one.
pub proof fn lemma_sin_factor_bounds(r: Scalar)
    requires
        -reduced_max() <= r.raw <= reduced_max(),
    ensures
        between_zero_and(sin_factor(r), ONE_RAW as int),
{
    let a = 10369783int;
    let r2 = r.mul_spec(r);
    assert(0 <= r.raw * r.raw <= 13190000 * 13190000) by (nonlinear_arith)
        requires
            -13190000 <= r.raw <= 13190000,
    ;
    assert(0 <= trunc_div(r.raw * r.raw, 0x100_0000) <= a);
    assert(between_zero_and(r2, a));
    lemma_step_down_bounds(r2, one(), 72, a);
    let s1 = step_down(r2, one(), 72);
    lemma_step_down_bounds(r2, s1, 42, a);
    let s2 = step_down(r2, s1, 42);
    lemma_step_down_bounds(r2, s2, 20, a);
    let s3 = step_down(r2, s2, 20);
    lemma_step_down_bounds(r2, s3, 6, a);
}

/// `sin x / x` of a finite scalar is finite and no larger than two in
/// magnitude.
pub proof fn law_sinc_bounded(x: Scalar)
    requires
        x.is_finite(),
    ensures
        sinc_spec(x).is_finite(),
        -2 * ONE_RAW <= sinc_spec(x).raw <= 2 * ONE_RAW,
{
    assert(MAX_RAW == 0x100_0000_0000 && ONE_RAW == 0x100_0000 && QUARTER_PI_RAW == 13176795);
    if x.abs_spec().lt_spec(Scalar { raw: QUARTER_PI_RAW }) {
        lemma_sin_factor_bounds(x);
    } else {
        law_sin_cos_bounded(x);
        let s = sin_cos_spec(x).0.raw as int;
        let d = if x.raw < 0 {
            -x.raw
        } else {
            x.raw as int
        };
        assert(d >= 13176795);
        lemma_mul_bound(s, ONE_RAW as int, ONE_RAW as int, ONE_RAW as int);
        let n = s * ONE_RAW;
        let m = if n < 0 {
            -n
        } else {
            n
        };
        assert(ONE_RAW * ONE_RAW == 0x1_0000_0000_0000);
        assert(0 <= m / d <= 0x200_0000) by (nonlinear_arith)
            requires
                0 <= m <= 0x1_0000_0000_0000,
                d >= 13176795,
        ;
        assert(-0x200_0000 <= trunc_div(n, x.raw as int) <= 0x200_0000);
    }
}

/// The squares of sine and cosine add up to one, within the rounding of a
/// square root: `2^48 - 2^25 - 1 < sin^2 + cos^2 <= 2^48` on the raw values,
/// for every finite scalar.
pub proof fn law_sin_cos_pythagoras(x: Scalar)
    requires
        x.is_finite(),
    ensures
        sin_cos_spec(x).0.raw * sin_cos_spec(x).0.raw + sin_cos_spec(x).1.raw * sin_cos_spec(
            x,
        ).1.raw <= ONE_SQ_RAW,
        ONE_SQ_RAW - 2 * ONE_RAW - 1 < sin_cos_spec(x).0.raw * sin_cos_spec(x).0.raw + sin_cos_spec(
            x,
        ).1.raw * sin_cos_spec(x).1.raw,
{
    lemma_reduced_argument(x);
    let k = round_div(x.raw as int, HALF_PI_RAW as int);
    let r = reduce(x.raw as int, k, HALF_PI_WIDE as int);
    lemma_series_bounds(r);
    let s = sin_poly(r);
    let c = cos_from_sin(s);
    lemma_cos_from_sin(s);
    assert((-s.raw) * (-s.raw) == s.raw * s.raw) by (nonlinear_arith);
    assert((-c.raw) * (-c.raw) == c.raw * c.raw) by (nonlinear_arith);
    assert(s.raw * s.raw + c.raw * c.raw == c.raw * c.raw + s.raw * s.raw);
}

/// Sine and cosine of zero are zero and one.
pub proof fn law_sin_cos_of_zero()
    ensures
        sin_cos_spec(Scalar { raw: 0 }) == (Scalar { raw: 0 }, one()),
{
    let z = Scalar { raw: 0 };
    assert(HALF_PI_RAW == 26353589);
    assert(round_div(0, 26353589) == 0);
    assert(reduce(0, 0, HALF_PI_WIDE as int) == z);
    assert(z.mul_spec(z) == z) by {
        assert(z.raw * z.raw == 0) by (nonlinear_arith)
            requires
                z.raw == 0,
        ;
    }
    lemma_step_of_zero(one(), 72);
    lemma_step_of_zero(one(), 42);
    lemma_step_of_zero(one(), 20);
    lemma_step_of_zero(one(), 6);
    assert(z.mul_spec(one()) == z) by {
        assert(z.raw * one().raw == 0) by (nonlinear_arith)
            requires
                z.raw == 0,
        ;
    }
    assert(sin_poly(z) == z);
    assert(z.raw * z.raw == 0) by (nonlinear_arith)
        requires
            z.raw == 0,
    ;
    assert(is_isqrt(0x1_0000_0000_0000, 0x100_0000)) by (nonlinear_arith);
    lemma_isqrt_unique(0x1_0000_0000_0000, 0x100_0000);
}

/// A step of a series with equal signs at the argument zero is one.
pub proof fn lemma_step_up_of_zero(p: Scalar, n: int)
    requires
        p.is_finite(),
        n >= 1,
    ensures
        step_up(Scalar { raw: 0 }, p, n) == one(),
{
    let z = Scalar { raw: 0 };
    assert(z.raw * p.raw == 0) by (nonlinear_arith)
        requires
            z.raw == 0,
    ;
    assert(0int / n == 0) by (nonlinear_arith)
        requires
            n >= 1,
    ;
}

/// The exponential of zero is one.
pub proof fn law_exp_of_zero()
    ensures
        exp_spec(Scalar { raw: 0 }) == one(),
{
    let z = Scalar { raw: 0 };
    assert(LN2_RAW == 11629080);
    assert(round_div(0, 11629080) == 0);
    assert(reduce(0, 0, LN2_WIDE as int) == z);
    lemma_step_up_of_zero(one(), 8);
    lemma_step_up_of_zero(one(), 7);
    lemma_step_up_of_zero(one(), 6);
    lemma_step_up_of_zero(one(), 5);
    lemma_step_up_of_zero(one(), 4);
    lemma_step_up_of_zero(one(), 3);
    lemma_step_up_of_zero(one(), 2);
    lemma_step_up_of_zero(one(), 1);
    assert(exp_poly(z) == one());
    lemma2_to64();
    assert(one().raw * pow2(0) == ONE_RAW) by (nonlinear_arith)
        requires
            one().raw == ONE_RAW,
            pow2(0) == 1,
    ;
}

/// The logarithm of one is zero.
pub proof fn law_ln_of_one()
    ensures
        ln_spec(one()) == (Scalar { raw: 0 }),
{
    let z = Scalar { raw: 0 };
    lemma2_to64();
    assert(is_floor_log2(ONE_RAW as int, 24));
    lemma_floor_log2_unique(ONE_RAW as int, 24);
    assert(ONE_RAW * pow2(0) == ONE_RAW) by (nonlinear_arith)
        requires
            pow2(0) == 1,
    ;
    assert(ONE_RAW as int / pow2(0) as int == ONE_RAW) by (nonlinear_arith)
        requires
            pow2(0) == 1,
    ;
    assert(Scalar::of(ONE_RAW - ONE_RAW) == z);
    assert(trunc_div(0 * ONE_RAW, 2 * ONE_RAW) == 0) by {
        assert(0 * ONE_RAW == 0);
        assert(0int / (2 * ONE_RAW) == 0);
    }
    assert(z.div_spec(Scalar::of(ONE_RAW + ONE_RAW)) == z);
    assert(z.raw * z.raw == 0) by (nonlinear_arith)
        requires
            z.raw == 0,
    ;
    assert(z.mul_spec(z) == z);
    let p = odd_up(z, odd_up(z, odd_up(z, odd_up(z, odd_up(z, one().div_int_spec(11), 9), 7), 5), 3), 1);
    assert(p.is_finite()) by {
        lemma_odd_up_of_zero(one().div_int_spec(11), 9);
        lemma_odd_up_of_zero(odd_up(z, one().div_int_spec(11), 9), 7);
        lemma_odd_up_of_zero(odd_up(z, odd_up(z, one().div_int_spec(11), 9), 7), 5);
        lemma_odd_up_of_zero(odd_up(z, odd_up(z, odd_up(z, one().div_int_spec(11), 9), 7), 5), 3);
        lemma_odd_up_of_zero(
            odd_up(z, odd_up(z, odd_up(z, odd_up(z, one().div_int_spec(11), 9), 7), 5), 3),
            1,
        );
    }
    assert(z.raw * p.raw == 0) by (nonlinear_arith)
        requires
            z.raw == 0,
    ;
    assert(ln_series(z) == z);
    assert(reduce(0, 0, LN2_WIDE as int) == z);
}

/// A step of the series of the logarithm at the argument zero is `1 / n`.
pub proof fn lemma_odd_up_of_zero(p: Scalar, n: int)
    requires
        p.is_finite(),
        n >= 1,
    ensures
        odd_up(Scalar { raw: 0 }, p, n) == one().div_int_spec(n),
        odd_up(Scalar { raw: 0 }, p, n).is_finite(),
{
    let z = Scalar { raw: 0 };
    assert(z.raw * p.raw == 0) by (nonlinear_arith)
        requires
            z.raw == 0,
    ;
    assert(0 <= ONE_RAW as int / n <= ONE_RAW) by (nonlinear_arith)
        requires
            n >= 1,
            ONE_RAW >= 0,
    ;
}

/// A step of a series at the argument zero is one.
pub proof fn lemma_step_of_zero(p: Scalar, n: int)
    requires
        p.is_finite(),
        n >= 1,
    ensures
        step_down(Scalar { raw: 0 }, p, n) == one(),
{
    let z = Scalar { raw: 0 };
    assert(z.raw * p.raw == 0) by (nonlinear_arith)
        requires
            z.raw == 0,
    ;
    assert(0int / n == 0) by (nonlinear_arith)
        requires
            n >= 1,
    ;
}

/// A step of the arctangent series at zero is the reciprocal of its index.
pub proof fn lemma_odd_down_of_zero(p: Scalar, n: int)
    requires
        p.is_finite(),
        n >= 1,
    ensures
        odd_down(Scalar { raw: 0 }, p, n) == one().div_int_spec(n),
        odd_down(Scalar { raw: 0 }, p, n).is_finite(),
{
    let z = Scalar { raw: 0 };
    assert(z.raw * p.raw == 0) by (nonlinear_arith)
        requires
            z.raw == 0,
    ;
    assert(0 <= ONE_RAW as int / n <= ONE_RAW) by (nonlinear_arith)
        requires
            n >= 1,
            ONE_RAW >= 0,
    ;
}

/// `atan x / x` is one at zero.
pub proof fn law_atan_over_of_zero()
    ensures
        atan_over_spec(Scalar { raw: 0 }) == one(),
{
    let z = Scalar { raw: 0 };
    assert(z.mul_spec(z) == z);
    assert(TAN_PI_8_RAW >= 0);
    let tail = one().div_int_spec(17);
    assert(tail.is_finite());
    lemma_odd_down_of_zero(tail, 15);
    let s15 = odd_down(z, tail, 15);
    lemma_odd_down_of_zero(s15, 13);
    let s13 = odd_down(z, s15, 13);
    lemma_odd_down_of_zero(s13, 11);
    let s11 = odd_down(z, s13, 11);
    lemma_odd_down_of_zero(s11, 9);
    let s9 = odd_down(z, s11, 9);
    lemma_odd_down_of_zero(s9, 7);
    let s7 = odd_down(z, s9, 7);
    lemma_odd_down_of_zero(s7, 5);
    let s5 = odd_down(z, s7, 5);
    lemma_odd_down_of_zero(s5, 3);
    let s3 = odd_down(z, s5, 3);
    lemma_odd_down_of_zero(s3, 1);
    assert(one().div_int_spec(1) == one());
    assert(atan_factor(z) == one());
}

} // verus!
