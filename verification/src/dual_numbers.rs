//! Dual numbers `re + du eps`, with `eps^2 = 0`, over fixed-point scalars.
use vstd::prelude::*;
use vstd::std_specs::convert::FromSpecImpl;
use crate::algebra::Dual;
use crate::elementary::{exp, exp_spec, ln, ln_spec};
use crate::scalar::{
    Scalar, shown_among, shown_indices, isqrt, sharp_root_exec, sum_squares, wide_isqrt,
    wide_mul, MAX_RAW, NAN_RAW, ONE_RAW, ONE_SQ_RAW,
};

verus! {

/// A dual number `re + du eps`, with `eps^2 = 0`.
#[derive(Clone, Copy, Debug, PartialEq, Eq, Structural)]
pub struct DualNumber {
    pub re: Scalar,
    pub du: Scalar,
}

impl From<Scalar> for DualNumber {
    /// The real number `value` as a dual number.
    fn from(value: Scalar) -> (r: DualNumber) {
        DualNumber { re: value, du: Scalar { raw: 0 } }
    }
}

impl FromSpecImpl<Scalar> for DualNumber {
    open spec fn obeys_from_spec() -> bool {
        true
    }

    open spec fn from_spec(value: Scalar) -> DualNumber {
        DualNumber { re: value, du: Scalar { raw: 0 } }
    }
}

/// The scalar 1.
pub open spec fn one() -> Scalar {
    Scalar { raw: ONE_RAW }
}

impl View for DualNumber {
    type V = Dual;

    /// The raw values of the parts.
    open spec fn view(&self) -> Dual {
        Dual { re: self.re.raw as int, du: self.du.raw as int }
    }
}

impl DualNumber {
    /// Whether every component is finite.
    pub open spec fn is_finite(self) -> bool {
        self.re.is_finite() && self.du.is_finite()
    }

    /// The dual number whose parts are both non-finite.
    pub open spec fn nan() -> DualNumber {
        DualNumber { re: Scalar::nan(), du: Scalar::nan() }
    }

    /// The conjugate.
    pub open spec fn conj_spec(self) -> DualNumber {
        DualNumber { re: self.re, du: self.du.neg_spec() }
    }

    /// The magnitude of the real part: the square root of its exact square.
    pub open spec fn seminorm_spec(self) -> Scalar {
        self.re.abs_spec()
    }

    /// Both parts divided by the exact Euclidean norm.
    pub open spec fn normalized_spec(self) -> DualNumber {
        if self.is_finite() {
            DualNumber {
                re: self.re.over_root_spec(self@.norm_sq()),
                du: self.du.over_root_spec(self@.norm_sq()),
            }
        } else {
            DualNumber::nan()
        }
    }

    /// The square root of the exact sum of squares, rounded down.
    pub open spec fn norm_spec(self) -> Scalar {
        if self.is_finite() {
            Scalar::of(isqrt(self@.norm_sq()))
        } else {
            Scalar::nan()
        }
    }

    /// Every component multiplied by `s`.
    pub open spec fn scale_spec(self, s: Scalar) -> DualNumber {
        DualNumber { re: self.re.mul_spec(s), du: self.du.mul_spec(s) }
    }

    /// Every component divided by `s`.
    pub open spec fn div_scalar_spec(self, s: Scalar) -> DualNumber {
        DualNumber { re: self.re.div_spec(s), du: self.du.div_spec(s) }
    }

    /// The exact product of the raw values, rounded once per part:
    /// `(a + b eps)(c + d eps) = a c + (a d + b c) eps`.
    pub open spec fn product_spec(self, rhs: DualNumber) -> DualNumber {
        if self.is_finite() && rhs.is_finite() {
            DualNumber {
                re: Scalar::rescale(self@.mul(rhs@).re),
                du: Scalar::rescale(self@.mul(rhs@).du),
            }
        } else {
            DualNumber::nan()
        }
    }

    /// The reciprocal of the exact square of the real part, rounded once.
    pub open spec fn inverse_seminorm_sq_spec(self) -> Scalar {
        if self.re.is_finite() {
            Scalar::ratio_spec(ONE_SQ_RAW as int, self.re.raw * self.re.raw)
        } else {
            Scalar::nan()
        }
    }

    /// `self conj(rhs) / rhs.re^2`: the exact product and the exact square
    /// of the raw values, divided with one rounding per part.
    pub open spec fn div_spec(self, rhs: DualNumber) -> DualNumber {
        if self.is_finite() && rhs.is_finite() {
            let m = self@.mul(rhs@.conj());
            let n = rhs.re.raw * rhs.re.raw;
            DualNumber { re: Scalar::ratio_spec(m.re, n), du: Scalar::ratio_spec(m.du, n) }
        } else {
            DualNumber::nan()
        }
    }

    /// The reciprocal: `conj(self) / self.re^2`.
    pub open spec fn recip_spec(self) -> DualNumber {
        (DualNumber { re: one(), du: Scalar { raw: 0 } }).div_spec(self)
    }

    /// The quotient `s / self` of a real number by this dual number.
    pub open spec fn div_into_scalar_spec(self, s: Scalar) -> DualNumber {
        (DualNumber { re: s, du: Scalar { raw: 0 } }).div_spec(self)
    }

    /// `sqrt(a + b eps) = sqrt(a) + b / (2 sqrt(a)) eps`.
    pub open spec fn sqrt_spec(self) -> DualNumber {
        let s = self.re.sqrt_spec();
        DualNumber { re: s, du: self.du.div_spec(s.mul_int_spec(2)) }
    }

    /// `exp(a + b eps) = exp(a) + b exp(a) eps`.
    pub open spec fn exp_spec(self) -> DualNumber {
        let e = exp_spec(self.re);
        DualNumber { re: e, du: self.du.mul_spec(e) }
    }

    /// `log(a + b eps) = ln(a) + (b / a) eps`.
    pub open spec fn log_spec(self) -> DualNumber {
        DualNumber { re: ln_spec(self.re), du: self.du.div_spec(self.re) }
    }

    /// `exp(f log(self))`.
    pub open spec fn powf_spec(self, f: Scalar) -> DualNumber {
        self.log_spec().scale_spec(f).exp_spec()
    }

    /// The exponent of the power of the real part in `powi`: `i - 1`, but
    /// not below zero.
    pub open spec fn powi_exponent(i: int) -> nat {
        if i >= 1 {
            (i - 1) as nat
        } else {
            0
        }
    }

    /// With `p = a^max(i - 1, 0)`: the dual number `p a + i p b eps`, and
    /// for a negative `i` its reciprocal.
    pub open spec fn powi_spec(self, i: int) -> DualNumber {
        let p = self.re.powi_spec(DualNumber::powi_exponent(i));
        let d = DualNumber {
            re: p.mul_spec(self.re),
            du: Scalar::of(i * ONE_RAW).mul_spec(p).mul_spec(self.du),
        };
        if i < 0 {
            d.recip_spec()
        } else {
            d
        }
    }

    /// Whether every component is finite.
    pub fn finite(&self) -> (b: bool)
        ensures
            b == self.is_finite(),
    {
        self.re.finite() && self.du.finite()
    }

    /// The places of the components that are shown when the value is
    /// written as a sum, counted from zero in the order `re`, `du`: those
    /// whose square exceeds `2^-23`.
    pub fn shown(&self) -> (r: Vec<usize>)
        ensures
            r@.map_values(|i: usize| i as int) == shown_indices(seq![self.re, self.du]),
    {
        let values: Vec<Scalar> = vec![self.re, self.du];
        assert(values@ =~= seq![self.re, self.du]);
        shown_among(&values)
    }

    /// Conjugate: the dual part negated.
    pub fn conj(&self) -> (r: DualNumber)
        ensures
            r == self.conj_spec(),
    {
        DualNumber { re: self.re, du: self.du.neg() }
    }

    /// The norm that conjugation defines, the magnitude of the real part.
    /// It is zero for every pure dual number.
    pub fn seminorm(&self) -> (r: Scalar)
        ensures
            r == self.seminorm_spec(),
    {
        self.re.abs()
    }

    /// Both parts divided by the seminorm.
    pub fn seminormalized(&self) -> (r: DualNumber)
        ensures
            r == self.div_scalar_spec(self.seminorm_spec()),
    {
        self.div_scalar(&self.seminorm())
    }

    /// The Euclidean norm of the two parts; zero only for zero.
    pub fn norm(&self) -> (r: Scalar)
        ensures
            r == self.norm_spec(),
    {
        if self.finite() {
            let a: i128 = wide_mul(self.re.raw, self.re.raw);
            let b: i128 = wide_mul(self.du.raw, self.du.raw);
            assert(a >= 0 && b >= 0) by (nonlinear_arith)
                requires
                    a == self.re.raw * self.re.raw,
                    b == self.du.raw * self.du.raw,
            ;
            Scalar::from_wide(wide_isqrt((a + b) as u128) as i128)
        } else {
            Scalar { raw: NAN_RAW }
        }
    }

    /// Both parts divided by the Euclidean norm; zero gives non-finite parts.
    pub fn normalized(&self) -> (r: DualNumber)
        ensures
            r == self.normalized_spec(),
    {
        if self.finite() {
            let t: i128 = sum_squares(self.re.raw, self.du.raw, 0, 0);
            if t > 0 {
                let root: i128 = sharp_root_exec(t);
                DualNumber {
                    re: self.re.over_root(root, Ghost(t as int)),
                    du: self.du.over_root(root, Ghost(t as int)),
                }
            } else {
                DualNumber { re: Scalar { raw: NAN_RAW }, du: Scalar { raw: NAN_RAW } }
            }
        } else {
            DualNumber { re: Scalar { raw: NAN_RAW }, du: Scalar { raw: NAN_RAW } }
        }
    }

    /// Both parts multiplied by `s`.
    pub fn scale(&self, s: &Scalar) -> (r: DualNumber)
        ensures
            r == self.scale_spec(*s),
    {
        DualNumber { re: self.re.mul(*s), du: self.du.mul(*s) }
    }

    /// Both parts divided by `s`.
    pub fn div_scalar(&self, s: &Scalar) -> (r: DualNumber)
        ensures
            r == self.div_scalar_spec(*s),
    {
        DualNumber { re: self.re.div(*s), du: self.du.div(*s) }
    }

    /// Product `self * rhs`.
    pub fn product(&self, rhs: &DualNumber) -> (r: DualNumber)
        ensures
            r == self.product_spec(*rhs),
    {
        if self.finite() && rhs.finite() {
            let re: i128 = wide_mul(self.re.raw, rhs.re.raw);
            let du: i128 = wide_mul(self.re.raw, rhs.du.raw) + wide_mul(self.du.raw, rhs.re.raw);
            DualNumber { re: Scalar::from_product(re), du: Scalar::from_product(du) }
        } else {
            DualNumber { re: Scalar { raw: NAN_RAW }, du: Scalar { raw: NAN_RAW } }
        }
    }

    /// The reciprocal of the squared seminorm; non-finite where the real
    /// part is zero.
    pub fn inverse_seminorm_sq(&self) -> (r: Scalar)
        ensures
            r == self.inverse_seminorm_sq_spec(),
    {
        if self.re.finite() {
            let n: i128 = sum_squares(self.re.raw, 0, 0, 0);
            assert(MAX_RAW * MAX_RAW == 0x1_0000_0000_0000_0000_0000);
            Scalar::ratio(ONE_SQ_RAW, n)
        } else {
            Scalar { raw: NAN_RAW }
        }
    }

    /// Quotient `self / rhs`; a divisor without real part gives non-finite parts.
    pub fn div(self, rhs: DualNumber) -> (r: DualNumber)
        ensures
            r == self.div_spec(rhs),
    {
        if self.finite() && rhs.finite() {
            let c = rhs.conj();
            let re: i128 = wide_mul(self.re.raw, c.re.raw);
            let du: i128 = wide_mul(self.re.raw, c.du.raw) + wide_mul(self.du.raw, c.re.raw);
            let n: i128 = sum_squares(rhs.re.raw, 0, 0, 0);
            DualNumber { re: Scalar::ratio(re, n), du: Scalar::ratio(du, n) }
        } else {
            DualNumber { re: Scalar { raw: NAN_RAW }, du: Scalar { raw: NAN_RAW } }
        }
    }

    /// The reciprocal `1 / self`.
    pub fn recip(&self) -> (r: DualNumber)
        ensures
            r == self.recip_spec(),
    {
        (DualNumber { re: Scalar { raw: ONE_RAW }, du: Scalar { raw: 0 } }).div(*self)
    }

    /// The quotient `s / self` for a real number `s`.
    pub fn div_into_scalar(&self, s: &Scalar) -> (r: DualNumber)
        ensures
            r == self.div_into_scalar_spec(*s),
    {
        (DualNumber { re: *s, du: Scalar { raw: 0 } }).div(*self)
    }

    /// Part-wise sum.
    pub fn add(self, rhs: DualNumber) -> (r: DualNumber)
        ensures
            r == (DualNumber { re: self.re.add_spec(rhs.re), du: self.du.add_spec(rhs.du) }),
    {
        DualNumber { re: self.re.add(rhs.re), du: self.du.add(rhs.du) }
    }

    /// Part-wise difference.
    pub fn sub(self, rhs: DualNumber) -> (r: DualNumber)
        ensures
            r == (DualNumber { re: self.re.sub_spec(rhs.re), du: self.du.sub_spec(rhs.du) }),
    {
        DualNumber { re: self.re.sub(rhs.re), du: self.du.sub(rhs.du) }
    }

    /// Both parts negated.
    pub fn neg(self) -> (r: DualNumber)
        ensures
            r == (DualNumber { re: self.re.neg_spec(), du: self.du.neg_spec() }),
    {
        DualNumber { re: self.re.neg(), du: self.du.neg() }
    }

    /// The real number `s` added to the real part.
    pub fn add_scalar(&self, s: &Scalar) -> (r: DualNumber)
        ensures
            r == (DualNumber { re: self.re.add_spec(*s), du: self.du }),
    {
        DualNumber { re: self.re.add(*s), du: self.du }
    }

    /// The real number `s` subtracted from the real part.
    pub fn sub_scalar(&self, s: &Scalar) -> (r: DualNumber)
        ensures
            r == (DualNumber { re: self.re.sub_spec(*s), du: self.du }),
    {
        DualNumber { re: self.re.sub(*s), du: self.du }
    }

    /// The difference `s - self` for a real number `s`.
    pub fn sub_from_scalar(&self, s: &Scalar) -> (r: DualNumber)
        ensures
            r == (DualNumber { re: s.sub_spec(self.re), du: self.du.neg_spec() }),
    {
        DualNumber { re: s.sub(self.re), du: self.du.neg() }
    }

    /// Square root.  Non-finite parts where the real part is negative, a
    /// non-finite dual part where it is zero.
    pub fn sqrt(&self) -> (r: DualNumber)
        ensures
            r == self.sqrt_spec(),
    {
        let s = self.re.sqrt();
        DualNumber { re: s, du: self.du.div(s.mul_int(2)) }
    }

    /// Exponential.
    pub fn exp(&self) -> (r: DualNumber)
        ensures
            r == self.exp_spec(),
    {
        let e = exp(&self.re);
        DualNumber { re: e, du: self.du.mul(e) }
    }

    /// Natural logarithm.  Non-finite parts where the real part is zero or less.
    pub fn log(&self) -> (r: DualNumber)
        ensures
            r == self.log_spec(),
    {
        DualNumber { re: ln(&self.re), du: self.du.div(self.re) }
    }

    /// The power with a real exponent.  Non-finite parts where the real
    /// part is zero or less.
    pub fn powf(&self, f: Scalar) -> (r: DualNumber)
        ensures
            r == self.powf_spec(f),
    {
        self.log().scale(&f).exp()
    }

    /// The power with an integer exponent.
    pub fn powi(&self, i: i32) -> (r: DualNumber)
        ensures
            r == self.powi_spec(i as int),
    {
        let e: u32 = if i >= 1 {
            (i - 1) as u32
        } else {
            0
        };
        let p = self.re.powi(e);
        let d = DualNumber { re: p.mul(self.re), du: Scalar::from_int(i).mul(p).mul(self.du) };
        if i < 0 {
            d.recip()
        } else {
            d
        }
    }
}

} // verus!
