//! Fixed-point scalars.
//!
//! A [`Scalar`] is a signed binary fixed-point number with 24 fractional bits,
//! stored as a raw `i64` count of units of 2^-24.  Raw values of magnitude at
//! most 2^40 are the finite scalars; every other raw value stands for a
//! non-finite scalar, and every operation that leaves the finite range, or
//! that is handed a non-finite operand, yields the one canonical non-finite
//! value [`NAN_RAW`].  All operations are total.
use vstd::prelude::*;

verus! {

/// Number of fractional bits.
pub const FRAC_BITS: u32 = 24;

/// Raw value of the scalar 1.
pub const ONE_RAW: i64 = 0x100_0000;

/// Raw value of 1 carried by a product of two raw values, 2^48.
pub const ONE_SQ_RAW: i128 = 0x1_0000_0000_0000;

/// Largest raw magnitude of a finite scalar (the scalar 65536).
pub const MAX_RAW: i64 = 0x100_0000_0000;

/// Raw value of the least scalar whose square counts as different from
/// zero when a value is shown: `2^-23`.
pub const EPSILON_RAW: i64 = 2;

/// Raw value of the canonical non-finite scalar.
pub const NAN_RAW: i64 = -0x8000_0000_0000_0000;

/// Whether `n` is the raw value of a finite scalar.
pub open spec fn in_range(n: int) -> bool {
    -(MAX_RAW as int) <= n <= MAX_RAW as int
}

/// Quotient of `n` by `d` rounded toward zero.
pub open spec fn trunc_div(n: int, d: int) -> int
    recommends
        d != 0,
{
    if d > 0 {
        if n >= 0 {
            n / d
        } else {
            -((-n) / d)
        }
    } else {
        if n >= 0 {
            -(n / (-d))
        } else {
            (-n) / (-d)
        }
    }
}

/// Remainder of `n` by `d` that goes with [`trunc_div`]: it has the sign of `n`.
pub open spec fn trunc_rem(n: int, d: int) -> int
    recommends
        d != 0,
{
    n - d * trunc_div(n, d)
}

/// Quotient of `n` by a positive `d` rounded to the nearest integer, halves
/// away from zero.
pub open spec fn round_div(n: int, d: int) -> int
    recommends
        d > 0,
{
    if n >= 0 {
        (n + d / 2) / d
    } else {
        -((-n + d / 2) / d)
    }
}

/// The absolute value of an integer.
pub open spec fn magnitude(n: int) -> int {
    if n < 0 {
        -n
    } else {
        n
    }
}

/// Whether the quotient of `n` by `d` is zero or more.
pub open spec fn same_sign(n: int, d: int) -> bool {
    (n >= 0) == (d > 0)
}

/// The exact quotient of `n` by `d`, rounded away from zero to a whole number.
pub open spec fn away_div(n: int, d: int) -> int
    recommends
        d != 0,
{
    let q = (magnitude(n) + magnitude(d) - 1) / magnitude(d);
    if same_sign(n, d) {
        q
    } else {
        -q
    }
}

/// The exact quotient of `n` by `d`, rounded down to a whole number.
pub open spec fn floor_div(n: int, d: int) -> int
    recommends
        d != 0,
{
    if same_sign(n, d) {
        magnitude(n) / magnitude(d)
    } else {
        -((magnitude(n) + magnitude(d) - 1) / magnitude(d))
    }
}

/// The exact quotient of `n` by `d`, rounded to the nearest whole number,
/// halves away from zero.
pub open spec fn nearest_div(n: int, d: int) -> int
    recommends
        d != 0,
{
    let q = (2 * magnitude(n) + magnitude(d)) / (2 * magnitude(d));
    if same_sign(n, d) {
        q
    } else {
        -q
    }
}

/// Whether `r` is the integer square root of `n`: the largest integer whose
/// square does not exceed `n`.
pub open spec fn is_isqrt(n: int, r: int) -> bool {
    r >= 0 && r * r <= n && n < (r + 1) * (r + 1)
}

/// The square root of `t` with 22 more binary digits than a scalar holds:
/// the integer square root of `2^44 t`.  It is the divisor of every
/// normalization, so that the quotient is as exact for a short vector as
/// for a long one.
pub open spec fn sharp_root(t: int) -> int
    recommends
        t >= 0,
{
    isqrt(t * 0x1000_0000_0000)
}

/// The integer square root of `n`, for `n >= 0`.
pub open spec fn isqrt(n: int) -> int
    recommends
        n >= 0,
{
    choose|r: int| is_isqrt(n, r)
}

/// A fixed-point number: `raw` units of `2^-24`.  The raw values of
/// magnitude up to `2^40` are the finite scalars; every other raw value is
/// not finite.
#[derive(Clone, Copy, Debug, PartialEq, Eq, Structural)]
pub struct Scalar {
    pub raw: i64,
}

impl View for Scalar {
    type V = int;

    /// The raw value.
    open spec fn view(&self) -> int {
        self.raw as int
    }
}

impl Scalar {
    /// A scalar is finite when its raw value lies in the finite range.
    pub open spec fn is_finite(self) -> bool {
        in_range(self.raw as int)
    }

    /// The canonical non-finite scalar.
    pub open spec fn nan() -> Scalar {
        Scalar { raw: NAN_RAW }
    }

    /// The scalar with raw value `n`, or the non-finite scalar when `n` is out of range.
    pub open spec fn of(n: int) -> Scalar {
        if in_range(n) {
            Scalar { raw: n as i64 }
        } else {
            Scalar::nan()
        }
    }

    /// The scalar nearest toward zero to `n / 2^24`: the value of a product of
    /// two raw values.
    pub open spec fn rescale(n: int) -> Scalar {
        Scalar::of(trunc_div(n, ONE_RAW as int))
    }

    /// The scalar nearest toward zero to `n / 2^48`: the value of a product of
    /// three raw values.
    pub open spec fn rescale2(n: int) -> Scalar {
        Scalar::of(trunc_div(n, ONE_SQ_RAW as int))
    }

    /// Exact sum; non-finite when it leaves the range.
    pub open spec fn add_spec(self, rhs: Scalar) -> Scalar {
        if self.is_finite() && rhs.is_finite() {
            Scalar::of(self.raw + rhs.raw)
        } else {
            Scalar::nan()
        }
    }

    /// Exact difference; non-finite when it leaves the range.
    pub open spec fn sub_spec(self, rhs: Scalar) -> Scalar {
        if self.is_finite() && rhs.is_finite() {
            Scalar::of(self.raw - rhs.raw)
        } else {
            Scalar::nan()
        }
    }

    /// Negation.
    pub open spec fn neg_spec(self) -> Scalar {
        if self.is_finite() {
            Scalar::of(-self.raw)
        } else {
            Scalar::nan()
        }
    }

    /// Product, rounded toward zero.
    pub open spec fn mul_spec(self, rhs: Scalar) -> Scalar {
        if self.is_finite() && rhs.is_finite() {
            Scalar::rescale(self.raw * rhs.raw)
        } else {
            Scalar::nan()
        }
    }

    /// Square root rounded down; non-finite for a negative scalar.
    pub open spec fn sqrt_spec(self) -> Scalar {
        if self.is_finite() && self.raw >= 0 {
            Scalar::of(isqrt(self.raw * ONE_RAW))
        } else {
            Scalar::nan()
        }
    }

    /// Quotient, rounded toward zero; non-finite for the divisor zero.
    pub open spec fn div_spec(self, rhs: Scalar) -> Scalar {
        if self.is_finite() && rhs.is_finite() && rhs.raw != 0 {
            Scalar::of(trunc_div(self.raw * ONE_RAW, rhs.raw as int))
        } else {
            Scalar::nan()
        }
    }

    /// Absolute value.
    pub open spec fn abs_spec(self) -> Scalar {
        if self.is_finite() {
            Scalar::of(if self.raw < 0 { -self.raw } else { self.raw as int })
        } else {
            Scalar::nan()
        }
    }

    /// One for a scalar that is zero or more, minus one for a negative one.
    pub open spec fn signum_spec(self) -> Scalar {
        if self.is_finite() {
            Scalar::of(if self.raw < 0 { -(ONE_RAW as int) } else { ONE_RAW as int })
        } else {
            Scalar::nan()
        }
    }

    /// The raw value times the integer `n`.
    pub open spec fn mul_int_spec(self, n: int) -> Scalar {
        if self.is_finite() {
            Scalar::of(self.raw * n)
        } else {
            Scalar::nan()
        }
    }

    /// The raw value divided by the integer `n`, rounded toward zero.
    pub open spec fn div_int_spec(self, n: int) -> Scalar {
        if self.is_finite() && n != 0 {
            Scalar::of(trunc_div(self.raw as int, n))
        } else {
            Scalar::nan()
        }
    }

    /// `self * b / c` with a single rounding, toward zero.
    pub open spec fn mul_div_spec(self, b: Scalar, c: Scalar) -> Scalar {
        if self.is_finite() && b.is_finite() && c.is_finite() && c.raw != 0 {
            Scalar::of(trunc_div(self.raw * b.raw, c.raw as int))
        } else {
            Scalar::nan()
        }
    }

    /// The remainder of the division rounded toward zero; it has the sign of `self`.
    pub open spec fn rem_spec(self, rhs: Scalar) -> Scalar {
        if self.is_finite() && rhs.is_finite() && rhs.raw != 0 {
            Scalar::of(trunc_rem(self.raw as int, rhs.raw as int))
        } else {
            Scalar::nan()
        }
    }

    /// The integer nearest toward zero.
    pub open spec fn trunc_spec(self) -> Scalar {
        if self.is_finite() {
            Scalar::of(trunc_div(self.raw as int, ONE_RAW as int) * ONE_RAW)
        } else {
            Scalar::nan()
        }
    }

    /// The largest integer that is not above the scalar.
    pub open spec fn floor_spec(self) -> Scalar {
        if self.is_finite() {
            Scalar::of((self.raw as int / ONE_RAW as int) * ONE_RAW)
        } else {
            Scalar::nan()
        }
    }

    /// The smallest integer that is not below the scalar.
    pub open spec fn ceil_spec(self) -> Scalar {
        if self.is_finite() {
            Scalar::of(-((-self.raw) / (ONE_RAW as int)) * ONE_RAW)
        } else {
            Scalar::nan()
        }
    }

    /// The nearest integer, halves rounded away from zero.
    pub open spec fn round_spec(self) -> Scalar {
        if self.is_finite() {
            Scalar::of(round_div(self.raw as int, ONE_RAW as int) * ONE_RAW)
        } else {
            Scalar::nan()
        }
    }

    /// The power with the natural exponent `n`: `n` factors multiplied from
    /// the left, each product rounded.
    pub open spec fn powi_spec(self, n: nat) -> Scalar
        decreases n,
    {
        if n == 0 {
            Scalar { raw: ONE_RAW }
        } else {
            self.powi_spec((n - 1) as nat).mul_spec(self)
        }
    }

    /// Strictly less: false when either scalar is non-finite.
    pub open spec fn lt_spec(self, rhs: Scalar) -> bool {
        self.is_finite() && rhs.is_finite() && self.raw < rhs.raw
    }

    /// Less or equal: false when either scalar is non-finite.
    pub open spec fn le_spec(self, rhs: Scalar) -> bool {
        self.is_finite() && rhs.is_finite() && self.raw <= rhs.raw
    }

    /// The quotient of two exact products of raw values, `m / n`, rounded
    /// once, toward zero; non-finite where `n` is zero.
    pub open spec fn ratio_spec(m: int, n: int) -> Scalar {
        if n > 0 {
            Scalar::of(trunc_div(m * ONE_RAW, n))
        } else {
            Scalar::nan()
        }
    }

    /// The whole number `k` as a scalar, where `self` and `rhs` are finite
    /// and `rhs` is not zero; non-finite otherwise.
    pub open spec fn whole_spec(self, rhs: Scalar, k: int) -> Scalar {
        if self.is_finite() && rhs.is_finite() && rhs.raw != 0 {
            Scalar::of(k * ONE_RAW)
        } else {
            Scalar::nan()
        }
    }

    /// The exact quotient `self / rhs` rounded toward zero to a whole number.
    pub open spec fn quotient_trunc_spec(self, rhs: Scalar) -> Scalar {
        self.whole_spec(rhs, trunc_div(self.raw as int, rhs.raw as int))
    }

    /// The exact quotient `self / rhs` rounded away from zero to a whole number.
    pub open spec fn quotient_away_spec(self, rhs: Scalar) -> Scalar {
        self.whole_spec(rhs, away_div(self.raw as int, rhs.raw as int))
    }

    /// The exact quotient `self / rhs` rounded down to a whole number.
    pub open spec fn quotient_floor_spec(self, rhs: Scalar) -> Scalar {
        self.whole_spec(rhs, floor_div(self.raw as int, rhs.raw as int))
    }

    /// The exact quotient `self / rhs` rounded to the nearest whole number.
    pub open spec fn quotient_round_spec(self, rhs: Scalar) -> Scalar {
        self.whole_spec(rhs, nearest_div(self.raw as int, rhs.raw as int))
    }

    /// The scalar divided by the square root of `t`, where `t` is an exact
    /// sum of squares of raw values: `2^46 raw / sharp_root(t)`, rounded
    /// toward zero.  Non-finite where `t` is zero.
    pub open spec fn over_root_spec(self, t: int) -> Scalar {
        if self.is_finite() && t > 0 {
            Scalar::of(trunc_div(self.raw * 0x4000_0000_0000, sharp_root(t)))
        } else {
            Scalar::nan()
        }
    }

    /// Whether the scalar is finite and its exact square exceeds `2^-23`:
    /// whether the scalar is worth showing as a component of a sum.
    pub open spec fn noticeable_spec(self) -> bool {
        self.is_finite() && self.raw * self.raw > EPSILON_RAW * ONE_RAW
    }

    /// Whether this scalar is finite.
    pub fn finite(&self) -> (b: bool)
        ensures
            b == self.is_finite(),
    {
        -MAX_RAW <= self.raw && self.raw <= MAX_RAW
    }

    /// The scalar with raw value `n`, non-finite when `n` is out of range.
    pub fn from_wide(n: i128) -> (r: Scalar)
        ensures
            r == Scalar::of(n as int),
    {
        if -(MAX_RAW as i128) <= n && n <= MAX_RAW as i128 {
            Scalar { raw: n as i64 }
        } else {
            Scalar { raw: NAN_RAW }
        }
    }

    /// `n / 2^24` rounded toward zero.
    pub fn from_product(n: i128) -> (r: Scalar)
        ensures
            r == Scalar::rescale(n as int),
    {
        Scalar::from_wide(n / (ONE_RAW as i128))
    }

    /// `n / 2^48` rounded toward zero.
    pub fn from_triple_product(n: i128) -> (r: Scalar)
        ensures
            r == Scalar::rescale2(n as int),
    {
        Scalar::from_wide(n / ONE_SQ_RAW)
    }

    /// Sum.
    pub fn add(self, rhs: Scalar) -> (r: Scalar)
        ensures
            r == self.add_spec(rhs),
    {
        if self.finite() && rhs.finite() {
            Scalar::from_wide(self.raw as i128 + rhs.raw as i128)
        } else {
            Scalar { raw: NAN_RAW }
        }
    }

    /// Difference.
    pub fn sub(self, rhs: Scalar) -> (r: Scalar)
        ensures
            r == self.sub_spec(rhs),
    {
        if self.finite() && rhs.finite() {
            Scalar::from_wide(self.raw as i128 - rhs.raw as i128)
        } else {
            Scalar { raw: NAN_RAW }
        }
    }

    /// Negation.
    pub fn neg(self) -> (r: Scalar)
        ensures
            r == self.neg_spec(),
    {
        if self.finite() {
            Scalar { raw: -self.raw }
        } else {
            Scalar { raw: NAN_RAW }
        }
    }

    /// Product, rounded toward zero.
    pub fn mul(self, rhs: Scalar) -> (r: Scalar)
        ensures
            r == self.mul_spec(rhs),
    {
        if self.finite() && rhs.finite() {
            Scalar::from_product(wide_mul(self.raw, rhs.raw))
        } else {
            Scalar { raw: NAN_RAW }
        }
    }

    /// Absolute value.
    pub fn abs(&self) -> (r: Scalar)
        ensures
            r == self.abs_spec(),
    {
        if self.finite() {
            if self.raw < 0 {
                Scalar { raw: -self.raw }
            } else {
                *self
            }
        } else {
            Scalar { raw: NAN_RAW }
        }
    }

    /// One for a scalar that is zero or more, minus one for a negative one.
    pub fn signum(&self) -> (r: Scalar)
        ensures
            r == self.signum_spec(),
    {
        if self.finite() {
            if self.raw < 0 {
                Scalar { raw: -ONE_RAW }
            } else {
                Scalar { raw: ONE_RAW }
            }
        } else {
            Scalar { raw: NAN_RAW }
        }
    }

    /// The scalar times the integer `n`, exactly.
    pub fn mul_int(&self, n: i64) -> (r: Scalar)
        ensures
            r == self.mul_int_spec(n as int),
    {
        if self.finite() {
            proof {
                lemma_mul_bound(self.raw as int, n as int, MAX_RAW as int, 0x8000_0000_0000_0000);
            }
            Scalar::from_wide((self.raw as i128) * (n as i128))
        } else {
            Scalar { raw: NAN_RAW }
        }
    }

    /// The scalar divided by the integer `n`, rounded toward zero.
    pub fn div_int(&self, n: i64) -> (r: Scalar)
        ensures
            r == self.div_int_spec(n as int),
    {
        if self.finite() && n != 0 {
            Scalar::from_wide(wide_div(self.raw as i128, n as i128))
        } else {
            Scalar { raw: NAN_RAW }
        }
    }

    /// `self * b / c` with a single rounding.
    pub fn mul_div(&self, b: &Scalar, c: &Scalar) -> (r: Scalar)
        ensures
            r == self.mul_div_spec(*b, *c),
    {
        if self.finite() && b.finite() && c.finite() && c.raw != 0 {
            Scalar::from_wide(wide_div(wide_mul(self.raw, b.raw), c.raw as i128))
        } else {
            Scalar { raw: NAN_RAW }
        }
    }

    /// Remainder of the division rounded toward zero.
    pub fn rem(self, rhs: Scalar) -> (r: Scalar)
        ensures
            r == self.rem_spec(rhs),
    {
        if self.finite() && rhs.finite() && rhs.raw != 0 {
            let n: i128 = self.raw as i128;
            let d: i128 = rhs.raw as i128;
            let q: i128 = wide_div(n, d);
            proof {
                lemma_trunc_div_bound(n as int, d as int);
                lemma_mul_bound(d as int, q as int, MAX_RAW as int, MAX_RAW as int);
            }
            Scalar::from_wide(n - d * q)
        } else {
            Scalar { raw: NAN_RAW }
        }
    }

    /// The integer nearest toward zero.
    pub fn trunc(&self) -> (r: Scalar)
        ensures
            r == self.trunc_spec(),
    {
        if self.finite() {
            let m: i64 = self.raw % ONE_RAW;
            Scalar::from_wide((self.raw - m) as i128)
        } else {
            Scalar { raw: NAN_RAW }
        }
    }

    /// The largest integer that is not above the scalar.
    pub fn floor(&self) -> (r: Scalar)
        ensures
            r == self.floor_spec(),
    {
        if self.finite() {
            let m: i64 = self.raw % ONE_RAW;
            if m < 0 {
                Scalar::from_wide((self.raw - m - ONE_RAW) as i128)
            } else {
                Scalar::from_wide((self.raw - m) as i128)
            }
        } else {
            Scalar { raw: NAN_RAW }
        }
    }

    /// The smallest integer that is not below the scalar.
    pub fn ceil(&self) -> (r: Scalar)
        ensures
            r == self.ceil_spec(),
    {
        if self.finite() {
            let m: i64 = self.raw % ONE_RAW;
            if m > 0 {
                Scalar::from_wide((self.raw - m + ONE_RAW) as i128)
            } else {
                Scalar::from_wide((self.raw - m) as i128)
            }
        } else {
            Scalar { raw: NAN_RAW }
        }
    }

    /// The nearest integer, halves rounded away from zero.
    pub fn round(&self) -> (r: Scalar)
        ensures
            r == self.round_spec(),
    {
        if self.finite() {
            let q: i128 = wide_round_div(self.raw as i128, ONE_RAW as i128);
            proof {
                lemma_mul_bound(q as int, ONE_RAW as int, 2 * MAX_RAW, ONE_RAW as int);
            }
            Scalar::from_wide(q * (ONE_RAW as i128))
        } else {
            Scalar { raw: NAN_RAW }
        }
    }

    /// The power `self^n`; the power zero of any scalar is one.
    pub fn powi(&self, n: u32) -> (r: Scalar)
        ensures
            r == self.powi_spec(n as nat),
    {
        let mut r = Scalar { raw: ONE_RAW };
        let mut i: u32 = 0;
        while i < n
            invariant
                i <= n,
                r == self.powi_spec(i as nat),
            decreases n - i,
        {
            r = r.mul(*self);
            i = i + 1;
        }
        r
    }

    /// Whether the square of the scalar exceeds `2^-23`.  A non-finite
    /// scalar is not noticeable.
    pub fn noticeable(&self) -> (b: bool)
        ensures
            b == self.noticeable_spec(),
    {
        if self.finite() {
            assert(EPSILON_RAW * ONE_RAW == 0x200_0000);
            wide_mul(self.raw, self.raw) > 0x200_0000
        } else {
            false
        }
    }

    /// Whether `self < rhs`; false when either is non-finite.
    pub fn lt(&self, rhs: &Scalar) -> (b: bool)
        ensures
            b == self.lt_spec(*rhs),
    {
        self.finite() && rhs.finite() && self.raw < rhs.raw
    }

    /// Whether `self <= rhs`; false when either is non-finite.
    pub fn le(&self, rhs: &Scalar) -> (b: bool)
        ensures
            b == self.le_spec(*rhs),
    {
        self.finite() && rhs.finite() && self.raw <= rhs.raw
    }

    /// The quotient of two exact sums of products of raw values.
    pub(crate) fn ratio(m: i128, n: i128) -> (r: Scalar)
        requires
            -8 * (MAX_RAW * MAX_RAW) <= m <= 8 * (MAX_RAW * MAX_RAW),
            0 <= n <= 4 * (MAX_RAW * MAX_RAW),
        ensures
            r == Scalar::ratio_spec(m as int, n as int),
    {
        if n > 0 {
            proof {
                lemma_mul_bound(m as int, ONE_RAW as int, 8 * (MAX_RAW * MAX_RAW), ONE_RAW as int);
            }
            Scalar::from_wide(wide_div(m * (ONE_RAW as i128), n))
        } else {
            Scalar { raw: NAN_RAW }
        }
    }

    /// The magnitudes of two finite raw values, the second not zero.
    fn magnitudes(&self, rhs: &Scalar) -> (r: (i128, i128))
        requires
            self.is_finite(),
            rhs.is_finite(),
            rhs.raw != 0,
        ensures
            r.0 == magnitude(self.raw as int),
            r.1 == magnitude(rhs.raw as int),
            0 <= r.0 <= MAX_RAW,
            0 < r.1 <= MAX_RAW,
    {
        let a: i128 = if self.raw < 0 {
            -(self.raw as i128)
        } else {
            self.raw as i128
        };
        let b: i128 = if rhs.raw < 0 {
            -(rhs.raw as i128)
        } else {
            rhs.raw as i128
        };
        (a, b)
    }

    /// The whole number `k`, with the sign of the quotient `self / rhs` or
    /// the opposite sign, as a scalar.
    fn whole(k: i128, positive: bool) -> (r: Scalar)
        requires
            0 <= k <= 0x800_0000_0000,
        ensures
            r == Scalar::of((if positive {
                k as int
            } else {
                -k
            }) * ONE_RAW),
    {
        proof {
            lemma_mul_bound(k as int, ONE_RAW as int, 0x800_0000_0000, ONE_RAW as int);
            lemma_mul_bound(-k, ONE_RAW as int, 0x800_0000_0000, ONE_RAW as int);
        }
        if positive {
            Scalar::from_wide(k * (ONE_RAW as i128))
        } else {
            Scalar::from_wide((-k) * (ONE_RAW as i128))
        }
    }

    /// The exact quotient `self / rhs` rounded toward zero to a whole number.
    pub fn quotient_trunc(&self, rhs: &Scalar) -> (r: Scalar)
        ensures
            r == self.quotient_trunc_spec(*rhs),
    {
        if self.finite() && rhs.finite() && rhs.raw != 0 {
            let m = self.magnitudes(rhs);
            proof {
                lemma_div_bound(m.0 as int, m.1 as int);
            }
            Scalar::whole(m.0 / m.1, (self.raw >= 0) == (rhs.raw > 0))
        } else {
            Scalar { raw: NAN_RAW }
        }
    }

    /// The exact quotient `self / rhs` rounded away from zero to a whole number.
    pub fn quotient_away(&self, rhs: &Scalar) -> (r: Scalar)
        ensures
            r == self.quotient_away_spec(*rhs),
    {
        if self.finite() && rhs.finite() && rhs.raw != 0 {
            let m = self.magnitudes(rhs);
            proof {
                lemma_div_bound(m.0 + m.1 - 1, m.1 as int);
            }
            Scalar::whole((m.0 + m.1 - 1) / m.1, (self.raw >= 0) == (rhs.raw > 0))
        } else {
            Scalar { raw: NAN_RAW }
        }
    }

    /// The exact quotient `self / rhs` rounded down to a whole number.
    pub fn quotient_floor(&self, rhs: &Scalar) -> (r: Scalar)
        ensures
            r == self.quotient_floor_spec(*rhs),
    {
        if self.finite() && rhs.finite() && rhs.raw != 0 {
            let m = self.magnitudes(rhs);
            proof {
                lemma_div_bound(m.0 as int, m.1 as int);
                lemma_div_bound(m.0 + m.1 - 1, m.1 as int);
            }
            if (self.raw >= 0) == (rhs.raw > 0) {
                Scalar::whole(m.0 / m.1, true)
            } else {
                Scalar::whole((m.0 + m.1 - 1) / m.1, false)
            }
        } else {
            Scalar { raw: NAN_RAW }
        }
    }

    /// The exact quotient `self / rhs` rounded to the nearest whole number,
    /// halves away from zero.
    pub fn quotient_round(&self, rhs: &Scalar) -> (r: Scalar)
        ensures
            r == self.quotient_round_spec(*rhs),
    {
        if self.finite() && rhs.finite() && rhs.raw != 0 {
            let m = self.magnitudes(rhs);
            proof {
                lemma_div_bound(2 * m.0 + m.1, 2 * m.1);
            }
            Scalar::whole((2 * m.0 + m.1) / (2 * m.1), (self.raw >= 0) == (rhs.raw > 0))
        } else {
            Scalar { raw: NAN_RAW }
        }
    }

    /// The scalar divided by the square root of `t`, given that root.
    pub(crate) fn over_root(&self, root: i128, Ghost(t): Ghost<int>) -> (r: Scalar)
        requires
            t > 0,
            root == sharp_root(t),
            0 < root <= 0x8000_0000_0000_0000,
        ensures
            r == self.over_root_spec(t),
    {
        if self.finite() {
            proof {
                lemma_mul_bound(self.raw as int, 0x4000_0000_0000, MAX_RAW as int, 0x4000_0000_0000);
            }
            Scalar::from_wide(wide_div((self.raw as i128) * 0x4000_0000_0000, root))
        } else {
            Scalar { raw: NAN_RAW }
        }
    }

    /// The scalar with the value of the integer `n`.
    pub fn from_int(n: i32) -> (r: Scalar)
        ensures
            r == Scalar::of(n * ONE_RAW),
    {
        proof {
            lemma_mul_bound(n as int, ONE_RAW as int, 0x8000_0000, ONE_RAW as int);
        }
        Scalar::from_wide((n as i128) * (ONE_RAW as i128))
    }

    /// The scalar nearest toward zero to `num / den`; non-finite when `den` is zero.
    pub fn from_ratio(num: i64, den: i64) -> (r: Scalar)
        ensures
            r == (if den != 0 {
                Scalar::of(trunc_div(num * ONE_RAW, den as int))
            } else {
                Scalar::nan()
            }),
    {
        if den != 0 {
            proof {
                lemma_mul_bound(num as int, ONE_RAW as int, 0x8000_0000_0000_0000, ONE_RAW as int);
            }
            Scalar::from_wide(wide_div((num as i128) * (ONE_RAW as i128), den as i128))
        } else {
            Scalar { raw: NAN_RAW }
        }
    }

    /// Square root, rounded down; non-finite for a negative scalar.
    pub fn sqrt(&self) -> (r: Scalar)
        ensures
            r == self.sqrt_spec(),
    {
        if self.finite() && self.raw >= 0 {
            let n: i128 = wide_mul(self.raw, ONE_RAW);
            Scalar::from_wide(wide_isqrt(n as u128) as i128)
        } else {
            Scalar { raw: NAN_RAW }
        }
    }

    /// Quotient, rounded toward zero; non-finite for the divisor zero.
    pub fn div(self, rhs: Scalar) -> (r: Scalar)
        ensures
            r == self.div_spec(rhs),
    {
        if self.finite() && rhs.finite() && rhs.raw != 0 {
            let n: i128 = wide_mul(self.raw, ONE_RAW);
            Scalar::from_wide(wide_div(n, rhs.raw as i128))
        } else {
            Scalar { raw: NAN_RAW }
        }
    }
}

/// The places of the noticeable scalars among `values`, in rising order:
/// the components of a value that are shown when it is written as a sum.
pub open spec fn shown_indices(values: Seq<Scalar>) -> Seq<int>
    decreases values.len(),
{
    if values.len() == 0 {
        Seq::empty()
    } else {
        let rest = shown_indices(values.drop_last());
        if values.last().noticeable_spec() {
            rest.push(values.len() - 1)
        } else {
            rest
        }
    }
}

/// The places of the noticeable scalars among `values`, in rising order.
pub fn shown_among(values: &Vec<Scalar>) -> (r: Vec<usize>)
    ensures
        r@.map_values(|i: usize| i as int) == shown_indices(values@),
{
    let mut out: Vec<usize> = Vec::new();
    let mut i: usize = 0;
    assert(values@.take(0) =~= Seq::<Scalar>::empty());
    assert(out@.map_values(|i: usize| i as int) =~= Seq::<int>::empty());
    while i < values.len()
        invariant
            i <= values.len(),
            out@.map_values(|i: usize| i as int) == shown_indices(values@.take(i as int)),
        decreases values.len() - i,
    {
        let ghost before = out@;
        assert(values@.take(i + 1).drop_last() =~= values@.take(i as int));
        assert(values@.take(i + 1).last() == values@[i as int]);
        if values[i].noticeable() {
            out.push(i);
            assert(out@.map_values(|i: usize| i as int) =~= before.map_values(|i: usize| i as int).push(
                i as int,
            ));
        }
        i = i + 1;
    }
    assert(values@.take(values.len() as int) =~= values@);
    out
}

/// Bound on a product of two bounded factors.
pub proof fn lemma_mul_bound(a: int, b: int, x: int, y: int)
    by (nonlinear_arith)
    requires
        -x <= a <= x,
        -y <= b <= y,
    ensures
        -(x * y) <= a * b <= x * y,
{
}

/// Squaring is monotonic on the non-negative integers.
pub proof fn lemma_square_monotonic(a: int, b: int)
    by (nonlinear_arith)
    requires
        0 <= a <= b,
    ensures
        a * a <= b * b,
{
}

/// The integer square root is unique.
pub proof fn lemma_isqrt_unique(n: int, r: int)
    requires
        is_isqrt(n, r),
    ensures
        isqrt(n) == r,
{
    let s = isqrt(n);
    assert(is_isqrt(n, s));
    if s < r {
        lemma_square_monotonic(s + 1, r);
    } else if r < s {
        lemma_square_monotonic(r + 1, s);
    }
}

/// Every non-negative integer has an integer square root.
pub proof fn lemma_isqrt_exists(n: int)
    requires
        n >= 0,
    ensures
        is_isqrt(n, isqrt(n)),
    decreases n,
{
    if n == 0 {
        assert(is_isqrt(0, 0));
    } else {
        lemma_isqrt_exists(n - 1);
        let r = isqrt(n - 1);
        if (r + 1) * (r + 1) <= n {
            assert(n < (r + 2) * (r + 2)) by (nonlinear_arith)
                requires
                    n - 1 < (r + 1) * (r + 1),
                    r >= 0,
            ;
            assert(is_isqrt(n, r + 1));
        } else {
            assert(r * r <= n) by (nonlinear_arith)
                requires
                    r * r <= n - 1,
            ;
            assert(is_isqrt(n, r));
        }
    }
}

/// The integer square root is monotonic.
pub proof fn lemma_isqrt_monotonic(x: int, y: int)
    requires
        0 <= x <= y,
    ensures
        isqrt(x) <= isqrt(y),
{
    lemma_isqrt_exists(x);
    lemma_isqrt_exists(y);
    if isqrt(y) < isqrt(x) {
        lemma_square_monotonic(isqrt(y) + 1, isqrt(x));
    }
}

/// Integer square root of a number below 2^84.
pub(crate) fn wide_isqrt(n: u128) -> (r: u64)
    requires
        n < 0x10_0000_0000_0000_0000_0000,
    ensures
        r == isqrt(n as int),
        r < 0x400_0000_0000,
{
    let mut lo: u64 = 0;
    let mut hi: u64 = 0x400_0000_0000;
    assert(0x400_0000_0000 * 0x400_0000_0000 == 0x10_0000_0000_0000_0000_0000int);
    while hi - lo > 1
        invariant
            lo < hi <= 0x400_0000_0000,
            lo * lo <= n,
            n < hi * hi,
        decreases hi - lo,
    {
        let mid: u64 = lo + (hi - lo) / 2;
        proof {
            lemma_square_monotonic(mid as int, 0x400_0000_0000);
        }
        let sq: u128 = (mid as u128) * (mid as u128);
        if sq <= n {
            lo = mid;
        } else {
            hi = mid;
        }
    }
    proof {
        lemma_isqrt_unique(n as int, lo as int);
    }
    lo
}

/// The exact sum of the squares of four finite raw values.
pub(crate) fn sum_squares(a: i64, b: i64, c: i64, d: i64) -> (r: i128)
    requires
        in_range(a as int),
        in_range(b as int),
        in_range(c as int),
        in_range(d as int),
    ensures
        r == a * a + b * b + c * c + d * d,
        0 <= r <= 4 * (MAX_RAW * MAX_RAW),
        a * a >= 0,
        b * b >= 0,
        c * c >= 0,
        d * d >= 0,
{
    let aa: i128 = wide_mul(a, a);
    let bb: i128 = wide_mul(b, b);
    let cc: i128 = wide_mul(c, c);
    let dd: i128 = wide_mul(d, d);
    assert(aa >= 0 && bb >= 0 && cc >= 0 && dd >= 0) by (nonlinear_arith)
        requires
            aa == a * a,
            bb == b * b,
            cc == c * c,
            dd == d * d,
    ;
    aa + bb + cc + dd
}

/// The sharp root of a sum of at most four squares of finite raw values
/// that is not zero.
pub(crate) fn sharp_root_exec(t: i128) -> (r: i128)
    requires
        0 < t <= 4 * (MAX_RAW * MAX_RAW),
    ensures
        r == sharp_root(t as int),
        0x40_0000 <= r <= 0x8000_0000_0000_0000,
{
    assert(MAX_RAW * MAX_RAW == 0x1_0000_0000_0000_0000_0000);
    let n: u128 = (t as u128) * 0x1000_0000_0000;
    let mut lo: u128 = 0x40_0000;
    let mut hi: u128 = 0x8000_0000_0000_0001;
    assert(0x8000_0000_0000_0001 * 0x8000_0000_0000_0001
        == 0x4000_0000_0000_0001_0000_0000_0000_0001int);
    assert(0x40_0000 * 0x40_0000 == 0x1000_0000_0000int);
    while hi - lo > 1
        invariant
            lo < hi <= 0x8000_0000_0000_0001,
            lo * lo <= n,
            n < hi * hi,
            lo >= 0x40_0000,
        decreases hi - lo,
    {
        let mid: u128 = lo + (hi - lo) / 2;
        proof {
            lemma_square_monotonic(mid as int, 0x8000_0000_0000_0001);
        }
        let sq: u128 = mid * mid;
        if sq <= n {
            lo = mid;
        } else {
            hi = mid;
        }
    }
    proof {
        lemma_isqrt_unique(n as int, lo as int);
    }
    lo as i128
}

/// A quotient of a non-negative number by a positive one lies between zero
/// and the number.
pub proof fn lemma_div_bound(n: int, d: int)
    by (nonlinear_arith)
    requires
        n >= 0,
        d > 0,
    ensures
        0 <= n / d <= n,
{
}

/// Quotient rounded toward zero.
pub(crate) fn wide_div(n: i128, d: i128) -> (q: i128)
    requires
        d != 0,
        n != i128::MIN,
        d != i128::MIN,
    ensures
        q == trunc_div(n as int, d as int),
{
    proof {
        if n >= 0 && d > 0 {
            lemma_div_bound(n as int, d as int);
        } else if n < 0 && d > 0 {
            lemma_div_bound(-n, d as int);
        } else if n >= 0 && d < 0 {
            lemma_div_bound(n as int, -d);
        } else {
            lemma_div_bound(-n, -d);
        }
    }
    if d > 0 {
        n / d
    } else {
        -(n / (-d))
    }
}

/// A quotient rounded toward zero is no larger in magnitude than the dividend.
pub proof fn lemma_trunc_div_bound(n: int, d: int)
    requires
        d != 0,
    ensures
        n >= 0 ==> -n <= trunc_div(n, d) <= n,
        n < 0 ==> n <= trunc_div(n, d) <= -n,
{
    if n >= 0 && d > 0 {
        lemma_div_bound(n, d);
    } else if n < 0 && d > 0 {
        lemma_div_bound(-n, d);
    } else if n >= 0 && d < 0 {
        lemma_div_bound(n, -d);
    } else {
        lemma_div_bound(-n, -d);
    }
}

/// Quotient by a positive number rounded to the nearest integer, halves away
/// from zero.
pub(crate) fn wide_round_div(n: i128, d: i128) -> (q: i128)
    requires
        0 < d <= 0x1_0000_0000_0000_0000,
        -0x1_0000_0000_0000_0000_0000_0000 <= n <= 0x1_0000_0000_0000_0000_0000_0000,
    ensures
        q == round_div(n as int, d as int),
        n >= 0 ==> 0 <= q <= n + d / 2,
        n < 0 ==> n - d / 2 <= q <= 0,
{
    if n >= 0 {
        proof {
            lemma_div_bound(n + d / 2, d as int);
        }
        (n + d / 2) / d
    } else {
        proof {
            lemma_div_bound(-n + d / 2, d as int);
        }
        -((-n + d / 2) / d)
    }
}

/// Exact product of two finite raw values.
pub(crate) fn wide_mul(a: i64, b: i64) -> (p: i128)
    requires
        in_range(a as int),
        in_range(b as int),
    ensures
        p == a * b,
        -(MAX_RAW * MAX_RAW) <= p <= MAX_RAW * MAX_RAW,
{
    proof {
        lemma_mul_bound(a as int, b as int, MAX_RAW as int, MAX_RAW as int);
    }
    (a as i128) * (b as i128)
}

/// Exact product of a sum of at most four products of two finite raw values
/// with a third finite raw value.
pub(crate) fn wide_mul4(p: i128, c: i64) -> (r: i128)
    requires
        -4 * (MAX_RAW * MAX_RAW) <= p <= 4 * (MAX_RAW * MAX_RAW),
        in_range(c as int),
    ensures
        r == p * c,
        r == c * p,
        -4 * (MAX_RAW * MAX_RAW * MAX_RAW) <= r <= 4 * (MAX_RAW * MAX_RAW * MAX_RAW),
{
    proof {
        assert(p * c == c * p) by (nonlinear_arith);
        lemma_mul_bound(p as int, c as int, 4 * (MAX_RAW * MAX_RAW), MAX_RAW as int);
        assert(4 * (MAX_RAW * MAX_RAW) * MAX_RAW == 4 * (MAX_RAW * MAX_RAW * MAX_RAW));
    }
    p * (c as i128)
}

/// Exact product of a sum of at most eight products of two finite raw values
/// with a third finite raw value.
pub(crate) fn wide_mul8(p: i128, c: i64) -> (r: i128)
    requires
        -8 * (MAX_RAW * MAX_RAW) <= p <= 8 * (MAX_RAW * MAX_RAW),
        in_range(c as int),
    ensures
        r == p * c,
        r == c * p,
        -8 * (MAX_RAW * MAX_RAW * MAX_RAW) <= r <= 8 * (MAX_RAW * MAX_RAW * MAX_RAW),
{
    proof {
        assert(p * c == c * p) by (nonlinear_arith);
        lemma_mul_bound(p as int, c as int, 8 * (MAX_RAW * MAX_RAW), MAX_RAW as int);
        assert(8 * (MAX_RAW * MAX_RAW) * MAX_RAW == 8 * (MAX_RAW * MAX_RAW * MAX_RAW));
    }
    p * (c as i128)
}

} // verus!
