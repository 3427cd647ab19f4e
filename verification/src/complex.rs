//! Complex numbers over fixed-point scalars.
use vstd::prelude::*;
use vstd::std_specs::convert::FromSpecImpl;
use crate::algebra::Cplx;
use crate::scalar::{
    Scalar, shown_among, shown_indices, isqrt, sharp_root_exec, sum_squares, wide_isqrt,
    wide_mul, MAX_RAW, NAN_RAW, ONE_RAW, ONE_SQ_RAW,
};

verus! {

/// A complex number `re + im I`.
#[derive(Clone, Copy, Debug, PartialEq, Eq, Structural)]
pub struct Complex {
    pub re: Scalar,
    pub im: Scalar,
}

impl From<Scalar> for Complex {
    /// The real number `value` as a complex number.
    fn from(value: Scalar) -> (r: Complex) {
        Complex { re: value, im: Scalar { raw: 0 } }
    }
}

impl FromSpecImpl<Scalar> for Complex {
    open spec fn obeys_from_spec() -> bool {
        true
    }

    open spec fn from_spec(value: Scalar) -> Complex {
        Complex { re: value, im: Scalar { raw: 0 } }
    }
}

impl View for Complex {
    type V = Cplx;

    /// The raw values of the parts.
    open spec fn view(&self) -> Cplx {
        Cplx { re: self.re.raw as int, im: self.im.raw as int }
    }
}

impl Complex {
    /// Whether every component is finite.
    pub open spec fn is_finite(self) -> bool {
        self.re.is_finite() && self.im.is_finite()
    }

    /// The complex number whose parts are both non-finite.
    pub open spec fn nan() -> Complex {
        Complex { re: Scalar::nan(), im: Scalar::nan() }
    }

    /// The conjugate.
    pub open spec fn conj_spec(self) -> Complex {
        Complex { re: self.re, im: self.im.neg_spec() }
    }

    /// The square root of the exact sum of squares, rounded down.
    pub open spec fn norm_spec(self) -> Scalar {
        if self.is_finite() {
            Scalar::of(isqrt(self@.norm_sq()))
        } else {
            Scalar::nan()
        }
    }

    /// Every component multiplied by `s`.
    pub open spec fn scale_spec(self, s: Scalar) -> Complex {
        Complex { re: self.re.mul_spec(s), im: self.im.mul_spec(s) }
    }

    /// Every component divided by `s`.
    pub open spec fn div_scalar_spec(self, s: Scalar) -> Complex {
        Complex { re: self.re.div_spec(s), im: self.im.div_spec(s) }
    }

    /// Both parts divided by the norm.
    pub open spec fn normalized_spec(self) -> Complex {
        if self.is_finite() {
            Complex {
                re: self.re.over_root_spec(self@.norm_sq()),
                im: self.im.over_root_spec(self@.norm_sq()),
            }
        } else {
            Complex::nan()
        }
    }

    /// The exact product of the raw values, rounded once per part.
    pub open spec fn product_spec(self, rhs: Complex) -> Complex {
        if self.is_finite() && rhs.is_finite() {
            Complex {
                re: Scalar::rescale(self@.mul(rhs@).re),
                im: Scalar::rescale(self@.mul(rhs@).im),
            }
        } else {
            Complex::nan()
        }
    }

    /// The reciprocal of the exact squared norm, rounded once.
    pub open spec fn inverse_norm_sq_spec(self) -> Scalar {
        if self.is_finite() {
            Scalar::ratio_spec(ONE_SQ_RAW as int, self@.norm_sq())
        } else {
            Scalar::nan()
        }
    }

    /// `self conj(rhs) / |rhs|^2`: the exact product and the exact squared
    /// norm of the raw values, divided with one rounding per part.
    pub open spec fn div_spec(self, rhs: Complex) -> Complex {
        if self.is_finite() && rhs.is_finite() {
            let m = self@.mul(rhs@.conj());
            let n = rhs@.norm_sq();
            Complex { re: Scalar::ratio_spec(m.re, n), im: Scalar::ratio_spec(m.im, n) }
        } else {
            Complex::nan()
        }
    }

    /// The quotient `s / self` of a real number by this complex number.
    pub open spec fn div_into_scalar_spec(self, s: Scalar) -> Complex {
        (Complex { re: s, im: Scalar { raw: 0 } }).div_spec(self)
    }

    /// Component-wise sum.
    pub open spec fn add_spec(self, rhs: Complex) -> Complex {
        Complex { re: self.re.add_spec(rhs.re), im: self.im.add_spec(rhs.im) }
    }

    /// Component-wise difference.
    pub open spec fn sub_spec(self, rhs: Complex) -> Complex {
        Complex { re: self.re.sub_spec(rhs.re), im: self.im.sub_spec(rhs.im) }
    }

    /// Every component negated.
    pub open spec fn neg_spec(self) -> Complex {
        Complex { re: self.re.neg_spec(), im: self.im.neg_spec() }
    }

    /// Whether every component is finite.
    pub fn finite(&self) -> (b: bool)
        ensures
            b == self.is_finite(),
    {
        self.re.finite() && self.im.finite()
    }

    /// The places of the components that are shown when the value is
    /// written as a sum, counted from zero in the order `re`, `im`: those
    /// whose square exceeds `2^-23`.
    pub fn shown(&self) -> (r: Vec<usize>)
        ensures
            r@.map_values(|i: usize| i as int) == shown_indices(seq![self.re, self.im]),
    {
        let values: Vec<Scalar> = vec![self.re, self.im];
        assert(values@ =~= seq![self.re, self.im]);
        shown_among(&values)
    }

    /// Conjugate: the imaginary part negated.
    pub fn conj(&self) -> (r: Complex)
        ensures
            r == self.conj_spec(),
    {
        Complex { re: self.re, im: self.im.neg() }
    }

    /// Modulus.
    pub fn norm(&self) -> (r: Scalar)
        ensures
            r == self.norm_spec(),
    {
        if self.finite() {
            let a: i128 = wide_mul(self.re.raw, self.re.raw);
            let b: i128 = wide_mul(self.im.raw, self.im.raw);
            assert(a >= 0 && b >= 0) by (nonlinear_arith)
                requires
                    a == self.re.raw * self.re.raw,
                    b == self.im.raw * self.im.raw,
            ;
            Scalar::from_wide(wide_isqrt((a + b) as u128) as i128)
        } else {
            Scalar { raw: NAN_RAW }
        }
    }

    /// The number of modulus one with the same argument; zero gives
    /// non-finite parts.
    pub fn normalized(&self) -> (r: Complex)
        ensures
            r == self.normalized_spec(),
    {
        if self.finite() {
            let t: i128 = sum_squares(self.re.raw, self.im.raw, 0, 0);
            if t > 0 {
                let root: i128 = sharp_root_exec(t);
                Complex {
                    re: self.re.over_root(root, Ghost(t as int)),
                    im: self.im.over_root(root, Ghost(t as int)),
                }
            } else {
                Complex { re: Scalar { raw: NAN_RAW }, im: Scalar { raw: NAN_RAW } }
            }
        } else {
            Complex { re: Scalar { raw: NAN_RAW }, im: Scalar { raw: NAN_RAW } }
        }
    }

    /// Both parts multiplied by `s`.
    pub fn scale(&self, s: &Scalar) -> (r: Complex)
        ensures
            r == self.scale_spec(*s),
    {
        Complex { re: self.re.mul(*s), im: self.im.mul(*s) }
    }

    /// Both parts divided by `s`.
    pub fn div_scalar(&self, s: &Scalar) -> (r: Complex)
        ensures
            r == self.div_scalar_spec(*s),
    {
        Complex { re: self.re.div(*s), im: self.im.div(*s) }
    }

    /// Product `self * rhs`.
    pub fn product(&self, rhs: &Complex) -> (r: Complex)
        ensures
            r == self.product_spec(*rhs),
    {
        if self.finite() && rhs.finite() {
            let re: i128 = wide_mul(self.re.raw, rhs.re.raw) - wide_mul(self.im.raw, rhs.im.raw);
            let im: i128 = wide_mul(self.im.raw, rhs.re.raw) + wide_mul(self.re.raw, rhs.im.raw);
            Complex { re: Scalar::from_product(re), im: Scalar::from_product(im) }
        } else {
            Complex { re: Scalar { raw: NAN_RAW }, im: Scalar { raw: NAN_RAW } }
        }
    }

    /// The reciprocal of the squared modulus; non-finite for zero.
    pub fn inverse_norm_sq(&self) -> (r: Scalar)
        ensures
            r == self.inverse_norm_sq_spec(),
    {
        if self.finite() {
            let n: i128 = sum_squares(self.re.raw, self.im.raw, 0, 0);
            assert(MAX_RAW * MAX_RAW == 0x1_0000_0000_0000_0000_0000);
            Scalar::ratio(ONE_SQ_RAW, n)
        } else {
            Scalar { raw: NAN_RAW }
        }
    }

    /// Quotient `self / rhs`; a zero divisor gives non-finite parts.
    pub fn div(self, rhs: Complex) -> (r: Complex)
        ensures
            r == self.div_spec(rhs),
    {
        if self.finite() && rhs.finite() {
            let c = rhs.conj();
            let re: i128 = wide_mul(self.re.raw, c.re.raw) - wide_mul(self.im.raw, c.im.raw);
            let im: i128 = wide_mul(self.im.raw, c.re.raw) + wide_mul(self.re.raw, c.im.raw);
            let n: i128 = sum_squares(rhs.re.raw, rhs.im.raw, 0, 0);
            Complex { re: Scalar::ratio(re, n), im: Scalar::ratio(im, n) }
        } else {
            Complex { re: Scalar { raw: NAN_RAW }, im: Scalar { raw: NAN_RAW } }
        }
    }

    /// Part-wise sum.
    pub fn add(self, rhs: Complex) -> (r: Complex)
        ensures
            r == self.add_spec(rhs),
    {
        Complex { re: self.re.add(rhs.re), im: self.im.add(rhs.im) }
    }

    /// Part-wise difference.
    pub fn sub(self, rhs: Complex) -> (r: Complex)
        ensures
            r == self.sub_spec(rhs),
    {
        Complex { re: self.re.sub(rhs.re), im: self.im.sub(rhs.im) }
    }

    /// Both parts negated.
    pub fn neg(self) -> (r: Complex)
        ensures
            r == self.neg_spec(),
    {
        Complex { re: self.re.neg(), im: self.im.neg() }
    }

    /// The real number `s` added to the real part.
    pub fn add_scalar(&self, s: &Scalar) -> (r: Complex)
        ensures
            r == (Complex { re: self.re.add_spec(*s), im: self.im }),
    {
        Complex { re: self.re.add(*s), im: self.im }
    }

    /// The real number `s` subtracted from the real part.
    pub fn sub_scalar(&self, s: &Scalar) -> (r: Complex)
        ensures
            r == (Complex { re: self.re.sub_spec(*s), im: self.im }),
    {
        Complex { re: self.re.sub(*s), im: self.im }
    }

    /// The difference `s - self` for a real number `s`.
    pub fn sub_from_scalar(&self, s: &Scalar) -> (r: Complex)
        ensures
            r == (Complex { re: s.sub_spec(self.re), im: self.im.neg_spec() }),
    {
        Complex { re: s.sub(self.re), im: self.im.neg() }
    }

    /// The quotient `s / self` for a real number `s`.
    pub fn div_into_scalar(&self, s: &Scalar) -> (r: Complex)
        ensures
            r == self.div_into_scalar_spec(*s),
    {
        (Complex { re: *s, im: Scalar { raw: 0 } }).div(*self)
    }
}

} // verus!
