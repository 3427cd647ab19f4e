//! Elementary functions on fixed-point scalars.
//!
//! Each function reduces its argument to a small interval and evaluates a
//! truncated power series there in Horner form.  Every scalar operation
//! rounds toward zero, and the specifications below state the result bit
//! for bit as that composition of scalar operations.  The cosine is not a
//! series of its own: it is the square root that makes the squares of sine
//! and cosine add up to one.
use vstd::prelude::*;
use vstd::arithmetic::power2::{
    pow2, lemma_pow2_adds, lemma_pow2_pos, lemma_pow2_strictly_increases, lemma_pow2_unfold,
    lemma2_to64, lemma2_to64_rest,
};
use crate::scalar::{
    Scalar, in_range, isqrt, lemma_mul_bound, round_div, trunc_div, wide_div, wide_isqrt,
    wide_mul, wide_round_div, MAX_RAW, NAN_RAW, ONE_RAW, ONE_SQ_RAW,
};

verus! {

/// Raw value of pi.
pub const PI_RAW: i64 = 52707179;

/// Raw value of pi / 2.
pub const HALF_PI_RAW: i64 = 26353589;

/// pi / 2 with 48 fractional bits, for the reduction of an argument.
pub const HALF_PI_WIDE: i128 = 442139859501778;

/// The natural logarithm of 2 with 48 fractional bits.
pub const LN2_WIDE: i128 = 195103586505167;

/// Raw value of pi / 4.
pub const QUARTER_PI_RAW: i64 = 13176795;

/// Raw value of 2 pi.
pub const TAU_RAW: i64 = 105414357;

/// Raw value of the natural logarithm of 2.
pub const LN2_RAW: i64 = 11629080;

/// Raw value of the square root of 2.
pub const SQRT2_RAW: i64 = 23726566;

/// Raw value of the tangent of pi / 8.
pub const TAN_PI_8_RAW: i64 = 6949350;

/// The argument `x` less `k` times a constant that is given with 48
/// fractional bits, rounded once: what is left of an argument when whole
/// periods are taken off it.
pub open spec fn reduce(x: int, k: int, wide: int) -> Scalar {
    Scalar::of(trunc_div(x * 0x100_0000 - k * wide, 0x100_0000))
}

/// The scalar 1.
pub open spec fn one() -> Scalar {
    Scalar { raw: ONE_RAW }
}

/// `1 - (x * p) / n`.
pub open spec fn step_down(x: Scalar, p: Scalar, n: int) -> Scalar {
    one().sub_spec(x.mul_spec(p).div_int_spec(n))
}

/// `1 + (x * p) / n`.
pub open spec fn step_up(x: Scalar, p: Scalar, n: int) -> Scalar {
    one().add_spec(x.mul_spec(p).div_int_spec(n))
}

/// `1 / n - x * p`.
pub open spec fn odd_down(x: Scalar, p: Scalar, n: int) -> Scalar {
    one().div_int_spec(n).sub_spec(x.mul_spec(p))
}

/// `1 / n + x * p`.
pub open spec fn odd_up(x: Scalar, p: Scalar, n: int) -> Scalar {
    one().div_int_spec(n).add_spec(x.mul_spec(p))
}

/// The series of `sin r / r` through the term of degree eight:
/// `1 - r^2/6 (1 - r^2/20 (1 - r^2/42 (1 - r^2/72)))`.
pub open spec fn sin_factor(r: Scalar) -> Scalar {
    let r2 = r.mul_spec(r);
    step_down(r2, step_down(r2, step_down(r2, step_down(r2, one(), 72), 42), 20), 6)
}

/// The sine series through the term of degree nine: `r` times the series
/// of `sin r / r`.
pub open spec fn sin_poly(r: Scalar) -> Scalar {
    r.mul_spec(sin_factor(r))
}

/// `sin x / x`.  Within a quarter of pi of zero it is the series itself,
/// which loses nothing for a small `x` and is one at zero; elsewhere it is
/// the sine divided by `x`.
pub open spec fn sinc_spec(x: Scalar) -> Scalar {
    if x.abs_spec().lt_spec(Scalar { raw: QUARTER_PI_RAW }) {
        sin_factor(x)
    } else {
        sin_cos_spec(x).0.div_spec(x)
    }
}

/// The cosine that goes with a sine between minus one and one, for an
/// angle within a quarter turn of zero: the square root of `1 - s^2`,
/// rounded down.
pub open spec fn cos_from_sin(s: Scalar) -> Scalar {
    if s.is_finite() && -ONE_RAW <= s.raw <= ONE_RAW {
        Scalar::of(isqrt(ONE_SQ_RAW - s.raw * s.raw))
    } else {
        Scalar::nan()
    }
}

/// Sine and cosine.  With `k` the multiple of pi / 2 nearest to `x` and
/// `r = x - k pi / 2`, the sine of `r` is the series, the cosine of `r`
/// is the square root that goes with it, and the two are assigned by the
/// quadrant `k mod 4`.
pub open spec fn sin_cos_spec(x: Scalar) -> (Scalar, Scalar) {
    if x.is_finite() {
        let k = round_div(x.raw as int, HALF_PI_RAW as int);
        let r = reduce(x.raw as int, k, HALF_PI_WIDE as int);
        let s = sin_poly(r);
        let c = cos_from_sin(s);
        let q = k % 4;
        if q == 0 {
            (s, c)
        } else if q == 1 {
            (c, s.neg_spec())
        } else if q == 2 {
            (s.neg_spec(), c.neg_spec())
        } else {
            (c.neg_spec(), s)
        }
    } else {
        (Scalar::nan(), Scalar::nan())
    }
}

/// The series of `atan w / w` through the term of degree sixteen, for a
/// small argument.
pub open spec fn atan_factor(w: Scalar) -> Scalar {
    let w2 = w.mul_spec(w);
    let tail = one().div_int_spec(17);
    let upper = odd_down(w2, odd_down(w2, odd_down(w2, odd_down(w2, tail, 15), 13), 11), 9);
    odd_down(w2, odd_down(w2, odd_down(w2, odd_down(w2, upper, 7), 5), 3), 1)
}

/// The arctangent series through the term of degree seventeen, for a small
/// argument: `w` times the series of `atan w / w`.
pub open spec fn atan_series(w: Scalar) -> Scalar {
    w.mul_spec(atan_factor(w))
}

/// `atan x / x`.  Up to `tan(pi/8)` in magnitude it is the series itself,
/// which loses nothing for a small `x` and is one at zero; elsewhere it is
/// the arctangent divided by `x`.
pub open spec fn atan_over_spec(x: Scalar) -> Scalar {
    if x.abs_spec().le_spec(Scalar { raw: TAN_PI_8_RAW }) {
        atan_factor(x)
    } else {
        atan_spec(x).div_spec(x)
    }
}

/// Arctangent on `[0, 1]`: above `tan(pi/8)` the argument is first reduced
/// by `atan(u) = pi/4 + atan((u - 1) / (u + 1))`.
pub open spec fn atan_unit(u: Scalar) -> Scalar {
    if (Scalar { raw: TAN_PI_8_RAW }).lt_spec(u) {
        (Scalar { raw: QUARTER_PI_RAW }).add_spec(
            atan_series(u.sub_spec(one()).div_spec(u.add_spec(one()))),
        )
    } else {
        atan_series(u)
    }
}

/// Arctangent, in `(-pi/2, pi/2)`.  A magnitude above one is reduced by
/// `atan(a) = pi/2 - atan(1 / a)`; the function is odd.
pub open spec fn atan_spec(t: Scalar) -> Scalar {
    let a = t.abs_spec();
    let r = if one().lt_spec(a) {
        (Scalar { raw: HALF_PI_RAW }).sub_spec(atan_unit(one().div_spec(a)))
    } else {
        atan_unit(a)
    };
    if t.raw < 0 {
        r.neg_spec()
    } else {
        r
    }
}

/// The angle of the point `(x, y)`, in `(-pi, pi]`, from the arctangent of
/// the quotient whose magnitude is at most one.  The angle of the origin is zero.
pub open spec fn atan2_spec(y: Scalar, x: Scalar) -> Scalar {
    if !(x.is_finite() && y.is_finite()) {
        Scalar::nan()
    } else if y.abs_spec().le_spec(x.abs_spec()) {
        if x.raw == 0 {
            Scalar { raw: 0 }
        } else if x.raw > 0 {
            atan_spec(y.div_spec(x))
        } else if y.raw >= 0 {
            atan_spec(y.div_spec(x)).add_spec(Scalar { raw: PI_RAW })
        } else {
            atan_spec(y.div_spec(x)).sub_spec(Scalar { raw: PI_RAW })
        }
    } else if y.raw > 0 {
        (Scalar { raw: HALF_PI_RAW }).sub_spec(atan_spec(x.div_spec(y)))
    } else {
        (Scalar { raw: HALF_PI_RAW }).neg_spec().sub_spec(atan_spec(x.div_spec(y)))
    }
}

/// The exponential series through the term of degree eight.
pub open spec fn exp_poly(r: Scalar) -> Scalar {
    let upper = step_up(r, step_up(r, step_up(r, step_up(r, one(), 8), 7), 6), 5);
    step_up(r, step_up(r, step_up(r, step_up(r, upper, 4), 3), 2), 1)
}

/// Exponential.  With `k` the multiple of `ln 2` nearest to `x` and
/// `r = x - k ln 2`, the result is the series at `r` times `2^k`.
pub open spec fn exp_spec(x: Scalar) -> Scalar {
    if x.is_finite() {
        let k = round_div(x.raw as int, LN2_RAW as int);
        let e = exp_poly(reduce(x.raw as int, k, LN2_WIDE as int));
        if !e.is_finite() || k > 17 {
            Scalar::nan()
        } else if k >= 0 {
            Scalar::of(e.raw * pow2(k as nat))
        } else if k >= -25 {
            Scalar::of(trunc_div(e.raw as int, pow2((-k) as nat) as int))
        } else {
            Scalar::of(0)
        }
    } else {
        Scalar::nan()
    }
}

/// Whether `e` is the integer part of the binary logarithm of `n`.
pub open spec fn is_floor_log2(n: int, e: nat) -> bool {
    pow2(e) <= n < pow2(e + 1)
}

/// The integer part of the binary logarithm of `n`, for `n >= 1`.
pub open spec fn floor_log2(n: int) -> nat
    recommends
        n >= 1,
{
    choose|e: nat| is_floor_log2(n, e)
}

/// The series of the logarithm in `z = (m - 1) / (m + 1)`, through the term of
/// degree eleven: `ln m = 2 z (1 + z^2/3 + z^4/5 + ...)`.
pub open spec fn ln_series(z: Scalar) -> Scalar {
    let z2 = z.mul_spec(z);
    let tail = one().div_int_spec(11);
    let series = odd_up(z2, odd_up(z2, odd_up(z2, odd_up(z2, odd_up(z2, tail, 9), 7), 5), 3), 1);
    z.mul_spec(series).mul_int_spec(2)
}

/// Natural logarithm; non-finite for a scalar that is zero or less.  The
/// argument is written as `m 2^k` with `m` between `sqrt(1/2)` and
/// `sqrt(2)`, and the result is `k ln 2` plus the series for `ln m`.
pub open spec fn ln_spec(x: Scalar) -> Scalar {
    if x.is_finite() && x.raw > 0 {
        let e = floor_log2(x.raw as int);
        let m = if e >= 24 {
            x.raw as int / pow2((e - 24) as nat) as int
        } else {
            x.raw * pow2((24 - e) as nat)
        };
        if m > SQRT2_RAW {
            let z = Scalar::of(m - 2 * ONE_RAW).div_spec(Scalar::of(m + 2 * ONE_RAW));
            reduce(0, 23 - e, LN2_WIDE as int).add_spec(ln_series(z))
        } else {
            let z = Scalar::of(m - ONE_RAW).div_spec(Scalar::of(m + ONE_RAW));
            reduce(0, 24 - e, LN2_WIDE as int).add_spec(ln_series(z))
        }
    } else {
        Scalar::nan()
    }
}

/// The integer part of the binary logarithm is unique.
pub proof fn lemma_floor_log2_unique(n: int, e: nat)
    requires
        is_floor_log2(n, e),
    ensures
        floor_log2(n) == e,
{
    let f = floor_log2(n);
    assert(is_floor_log2(n, f));
    if f < e {
        if f + 1 < e {
            lemma_pow2_strictly_increases(f + 1, e);
        }
    } else if e < f {
        if e + 1 < f {
            lemma_pow2_strictly_increases(e + 1, f);
        }
    }
}

fn reduce_exec(x: i128, k: i128, wide: i128) -> (r: Scalar)
    requires
        -2 * MAX_RAW <= x <= 2 * MAX_RAW,
        -4 * MAX_RAW <= k <= 4 * MAX_RAW,
        0 < wide <= 0x2_0000_0000_0000,
    ensures
        r == reduce(x as int, k as int, wide as int),
{
    proof {
        lemma_mul_bound(k as int, wide as int, 4 * MAX_RAW, 0x2_0000_0000_0000);
        assert(MAX_RAW == 0x100_0000_0000);
    }
    Scalar::from_wide(wide_div(x * 0x100_0000 - k * wide, 0x100_0000))
}

fn scalar_one() -> (r: Scalar)
    ensures
        r == one(),
{
    Scalar { raw: ONE_RAW }
}

fn step_down_exec(x: &Scalar, p: &Scalar, n: i64) -> (r: Scalar)
    ensures
        r == step_down(*x, *p, n as int),
{
    scalar_one().sub(x.mul(*p).div_int(n))
}

fn step_up_exec(x: &Scalar, p: &Scalar, n: i64) -> (r: Scalar)
    ensures
        r == step_up(*x, *p, n as int),
{
    scalar_one().add(x.mul(*p).div_int(n))
}

fn odd_down_exec(x: &Scalar, p: &Scalar, n: i64) -> (r: Scalar)
    ensures
        r == odd_down(*x, *p, n as int),
{
    scalar_one().div_int(n).sub(x.mul(*p))
}

fn odd_up_exec(x: &Scalar, p: &Scalar, n: i64) -> (r: Scalar)
    ensures
        r == odd_up(*x, *p, n as int),
{
    scalar_one().div_int(n).add(x.mul(*p))
}

fn sin_factor_exec(r: &Scalar) -> (s: Scalar)
    ensures
        s == sin_factor(*r),
{
    let r2 = r.mul(*r);
    let p = step_down_exec(&r2, &scalar_one(), 72);
    let p = step_down_exec(&r2, &p, 42);
    let p = step_down_exec(&r2, &p, 20);
    step_down_exec(&r2, &p, 6)
}

fn sin_poly_exec(r: &Scalar) -> (s: Scalar)
    ensures
        s == sin_poly(*r),
{
    r.mul(sin_factor_exec(r))
}

/// `sin x / x`, one at zero.
pub fn sinc(x: &Scalar) -> (r: Scalar)
    ensures
        r == sinc_spec(*x),
{
    if x.abs().lt(&Scalar { raw: QUARTER_PI_RAW }) {
        sin_factor_exec(x)
    } else {
        sin_cos(x).0.div(*x)
    }
}

fn cos_from_sin_exec(s: &Scalar) -> (c: Scalar)
    ensures
        c == cos_from_sin(*s),
{
    if s.finite() && -ONE_RAW <= s.raw && s.raw <= ONE_RAW {
        let sq: i128 = wide_mul(s.raw, s.raw);
        proof {
            lemma_mul_bound(s.raw as int, s.raw as int, ONE_RAW as int, ONE_RAW as int);
            assert(ONE_RAW * ONE_RAW == ONE_SQ_RAW);
        }
        Scalar::from_wide(wide_isqrt((ONE_SQ_RAW - sq) as u128) as i128)
    } else {
        Scalar { raw: NAN_RAW }
    }
}

/// Sine and cosine of `x`, in that order.
pub fn sin_cos(x: &Scalar) -> (r: (Scalar, Scalar))
    ensures
        r == sin_cos_spec(*x),
{
    if x.finite() {
        let k: i128 = wide_round_div(x.raw as i128, HALF_PI_RAW as i128);
        let red = reduce_exec(x.raw as i128, k, HALF_PI_WIDE);
        let s = sin_poly_exec(&red);
        let c = cos_from_sin_exec(&s);
        let m: i128 = k % 4;
        let q: i128 = if m < 0 {
            m + 4
        } else {
            m
        };
        assert(q == k % 4);
        if q == 0 {
            (s, c)
        } else if q == 1 {
            (c, s.neg())
        } else if q == 2 {
            (s.neg(), c.neg())
        } else {
            (c.neg(), s)
        }
    } else {
        (Scalar { raw: NAN_RAW }, Scalar { raw: NAN_RAW })
    }
}

fn atan_factor_exec(w: &Scalar) -> (r: Scalar)
    ensures
        r == atan_factor(*w),
{
    let w2 = w.mul(*w);
    let p = scalar_one().div_int(17);
    let p = odd_down_exec(&w2, &p, 15);
    let p = odd_down_exec(&w2, &p, 13);
    let p = odd_down_exec(&w2, &p, 11);
    let p = odd_down_exec(&w2, &p, 9);
    let p = odd_down_exec(&w2, &p, 7);
    let p = odd_down_exec(&w2, &p, 5);
    let p = odd_down_exec(&w2, &p, 3);
    odd_down_exec(&w2, &p, 1)
}

fn atan_series_exec(w: &Scalar) -> (r: Scalar)
    ensures
        r == atan_series(*w),
{
    w.mul(atan_factor_exec(w))
}

fn atan_unit_exec(u: &Scalar) -> (r: Scalar)
    ensures
        r == atan_unit(*u),
{
    let one = scalar_one();
    if (Scalar { raw: TAN_PI_8_RAW }).lt(u) {
        let w = u.sub(one).div(u.add(one));
        (Scalar { raw: QUARTER_PI_RAW }).add(atan_series_exec(&w))
    } else {
        atan_series_exec(u)
    }
}

/// Arctangent of `t`.
pub fn atan(t: &Scalar) -> (r: Scalar)
    ensures
        r == atan_spec(*t),
{
    let one = scalar_one();
    let a = t.abs();
    let r = if one.lt(&a) {
        (Scalar { raw: HALF_PI_RAW }).sub(atan_unit_exec(&one.div(a)))
    } else {
        atan_unit_exec(&a)
    };
    if t.raw < 0 {
        r.neg()
    } else {
        r
    }
}

/// The angle of the point `(x, y)`.
pub fn atan2(y: &Scalar, x: &Scalar) -> (r: Scalar)
    ensures
        r == atan2_spec(*y, *x),
{
    if !(x.finite() && y.finite()) {
        Scalar { raw: NAN_RAW }
    } else if y.abs().le(&x.abs()) {
        if x.raw == 0 {
            Scalar { raw: 0 }
        } else if x.raw > 0 {
            atan(&y.div(*x))
        } else if y.raw >= 0 {
            atan(&y.div(*x)).add(Scalar { raw: PI_RAW })
        } else {
            atan(&y.div(*x)).sub(Scalar { raw: PI_RAW })
        }
    } else if y.raw > 0 {
        (Scalar { raw: HALF_PI_RAW }).sub(atan(&x.div(*y)))
    } else {
        (Scalar { raw: HALF_PI_RAW }).neg().sub(atan(&x.div(*y)))
    }
}

/// `atan x / x`, one at zero.
pub fn atan_over(x: &Scalar) -> (r: Scalar)
    ensures
        r == atan_over_spec(*x),
{
    if x.abs().le(&Scalar { raw: TAN_PI_8_RAW }) {
        atan_factor_exec(x)
    } else {
        atan(x).div(*x)
    }
}

fn exp_poly_exec(r: &Scalar) -> (e: Scalar)
    ensures
        e == exp_poly(*r),
{
    let p = step_up_exec(r, &scalar_one(), 8);
    let p = step_up_exec(r, &p, 7);
    let p = step_up_exec(r, &p, 6);
    let p = step_up_exec(r, &p, 5);
    let p = step_up_exec(r, &p, 4);
    let p = step_up_exec(r, &p, 3);
    let p = step_up_exec(r, &p, 2);
    step_up_exec(r, &p, 1)
}

/// Two to the power `k`.
fn pow2_exec(k: u32) -> (p: i64)
    requires
        k <= 41,
    ensures
        p == pow2(k as nat),
        1 <= p <= 0x200_0000_0000,
{
    let mut p: i64 = 1;
    let mut i: u32 = 0;
    proof {
        lemma2_to64();
        lemma2_to64_rest();
    }
    while i < k
        invariant
            i <= k <= 41,
            p == pow2(i as nat),
            1 <= p,
            p * pow2((41 - i) as nat) == 0x200_0000_0000,
        decreases k - i,
    {
        proof {
            lemma_pow2_unfold((i + 1) as nat);
            lemma_pow2_unfold((41 - i) as nat);
            lemma_pow2_pos((40 - i) as nat);
            assert(p * (2 * pow2((40 - i) as nat)) == (2 * p) * pow2((40 - i) as nat))
                by (nonlinear_arith);
            assert(2 * p <= (2 * p) * pow2((40 - i) as nat)) by (nonlinear_arith)
                requires
                    p >= 1,
                    pow2((40 - i) as nat) >= 1,
            ;
        }
        p = 2 * p;
        i = i + 1;
    }
    proof {
        lemma_pow2_pos((41 - i) as nat);
        assert(p <= p * pow2((41 - i) as nat)) by (nonlinear_arith)
            requires
                p >= 1,
                pow2((41 - i) as nat) >= 1,
        ;
    }
    p
}

/// Exponential of `x`.
pub fn exp(x: &Scalar) -> (r: Scalar)
    ensures
        r == exp_spec(*x),
{
    if x.finite() {
        let k: i128 = wide_round_div(x.raw as i128, LN2_RAW as i128);
        let red = reduce_exec(x.raw as i128, k, LN2_WIDE);
        let e = exp_poly_exec(&red);
        if !e.finite() || k > 17 {
            Scalar { raw: NAN_RAW }
        } else if k >= 0 {
            let p: i64 = pow2_exec(k as u32);
            proof {
                lemma_mul_bound(e.raw as int, p as int, MAX_RAW as int, 0x200_0000_0000);
            }
            Scalar::from_wide((e.raw as i128) * (p as i128))
        } else if k >= -25 {
            let p: i64 = pow2_exec((-k) as u32);
            Scalar::from_wide(wide_div(e.raw as i128, p as i128))
        } else {
            Scalar { raw: 0 }
        }
    } else {
        Scalar { raw: NAN_RAW }
    }
}

fn ln_series_exec(z: &Scalar) -> (r: Scalar)
    ensures
        r == ln_series(*z),
{
    let z2 = z.mul(*z);
    let p = scalar_one().div_int(11);
    let p = odd_up_exec(&z2, &p, 9);
    let p = odd_up_exec(&z2, &p, 7);
    let p = odd_up_exec(&z2, &p, 5);
    let p = odd_up_exec(&z2, &p, 3);
    let p = odd_up_exec(&z2, &p, 1);
    z.mul(p).mul_int(2)
}

/// The integer part of the binary logarithm of a positive finite raw value.
fn floor_log2_exec(n: i64) -> (e: u32)
    requires
        1 <= n <= MAX_RAW,
    ensures
        e == floor_log2(n as int),
        is_floor_log2(n as int, e as nat),
        e <= 40,
{
    let mut e: u32 = 0;
    let mut p: i64 = 1;
    proof {
        lemma2_to64();
        lemma2_to64_rest();
    }
    while p <= n / 2
        invariant
            p == pow2(e as nat),
            1 <= p <= n <= MAX_RAW,
            e <= 40,
            p * pow2((40 - e) as nat) == MAX_RAW,
        decreases n - p,
    {
        proof {
            lemma_pow2_unfold((e + 1) as nat);
            if e == 40 {
                lemma2_to64();
                assert(pow2(0) == 1);
                assert(p * 1 == p) by (nonlinear_arith);
                assert(false);
            }
            lemma_pow2_unfold((40 - e) as nat);
            assert(p * (2 * pow2((39 - e) as nat)) == (2 * p) * pow2((39 - e) as nat))
                by (nonlinear_arith);
        }
        p = 2 * p;
        e = e + 1;
    }
    proof {
        lemma_pow2_unfold((e + 1) as nat);
        lemma_floor_log2_unique(n as int, e as nat);
    }
    e
}

/// Natural logarithm of `x`.
pub fn ln(x: &Scalar) -> (r: Scalar)
    ensures
        r == ln_spec(*x),
{
    if x.finite() && x.raw > 0 {
        let e: u32 = floor_log2_exec(x.raw);
        let m: i64 = if e >= 24 {
            let p: i64 = pow2_exec(e - 24);
            x.raw / p
        } else {
            let p: i64 = pow2_exec(24 - e);
            proof {
                lemma_mul_bound(x.raw as int, p as int, MAX_RAW as int, 0x200_0000_0000);
            }
            let w: i128 = (x.raw as i128) * (p as i128);
            proof {
                lemma_pow2_unfold((e + 1) as nat);
                lemma_pow2_unfold(25);
                lemma2_to64();
                assert(pow2((e + 1) as nat) * pow2((24 - e) as nat) == pow2(25)) by {
                    lemma_pow2_adds((e + 1) as nat, (24 - e) as nat);
                }
                assert(w < pow2((e + 1) as nat) * pow2((24 - e) as nat)) by (nonlinear_arith)
                    requires
                        w == x.raw * p,
                        p == pow2((24 - e) as nat),
                        x.raw < pow2((e + 1) as nat),
                        p >= 1,
                ;
            }
            w as i64
        };
        let e_int: i64 = e as i64;
        if m > SQRT2_RAW {
            let z = Scalar::from_wide(m as i128 - 2 * (ONE_RAW as i128)).div(
                Scalar::from_wide(m as i128 + 2 * (ONE_RAW as i128)),
            );
            reduce_exec(0, (23 - e_int) as i128, LN2_WIDE).add(ln_series_exec(&z))
        } else {
            let z = Scalar::from_wide(m as i128 - (ONE_RAW as i128)).div(
                Scalar::from_wide(m as i128 + (ONE_RAW as i128)),
            );
            reduce_exec(0, (24 - e_int) as i128, LN2_WIDE).add(ln_series_exec(&z))
        }
    } else {
        Scalar { raw: NAN_RAW }
    }
}

} // verus!
