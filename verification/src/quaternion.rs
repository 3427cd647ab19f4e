//! Quaternions over fixed-point scalars.
use vstd::prelude::*;
use crate::algebra::{Quat, Vec3, abs, rotate, sandwich};
use crate::angle::Angle;
use crate::direction::Direction;
use crate::elementary::{
    atan2, atan2_spec, exp, exp_spec, ln, ln_spec, sin_cos, sin_cos_spec, sinc, sinc_spec,
};
use crate::point::Point;
use crate::scalar::{
    Scalar, shown_among, shown_indices, sharp_root_exec, sum_squares, wide_mul, wide_mul4, wide_mul8, wide_isqrt, isqrt,
    MAX_RAW, NAN_RAW, ONE_RAW,
    ONE_SQ_RAW,
};
use crate::vector3::Vector3;

verus! {

/// A quaternion `w + i I + j J + k K`.  Whether it stands for a point
/// (`w = 0`), for a rotor (norm one) or for any element of the ring is for
/// its user to keep track of.
#[derive(Clone, Copy, Debug, PartialEq, Eq, Structural)]
pub struct Quaternion {
    pub w: Scalar,
    pub i: Scalar,
    pub j: Scalar,
    pub k: Scalar,
}

impl View for Quaternion {
    type V = Quat;

    /// The raw values of the components.
    open spec fn view(&self) -> Quat {
        Quat {
            w: self.w.raw as int,
            i: self.i.raw as int,
            j: self.j.raw as int,
            k: self.k.raw as int,
        }
    }
}

/// A quaternion of exact sums of products of raw values: what a product of
/// quaternions is before it is rounded.
pub struct WideQuat {
    pub w: i128,
    pub i: i128,
    pub j: i128,
    pub k: i128,
}

impl View for WideQuat {
    type V = Quat;

    open spec fn view(&self) -> Quat {
        Quat { w: self.w as int, i: self.i as int, j: self.j as int, k: self.k as int }
    }
}

impl WideQuat {
    /// Whether every component has magnitude at most `b`.
    pub open spec fn within(self, b: int) -> bool {
        &&& -b <= self.w <= b
        &&& -b <= self.i <= b
        &&& -b <= self.j <= b
        &&& -b <= self.k <= b
    }

    /// Exact sum of two products of two quaternions.
    pub(crate) fn sum(&self, o: &WideQuat) -> (r: WideQuat)
        requires
            self.within(4 * (MAX_RAW * MAX_RAW)),
            o.within(4 * (MAX_RAW * MAX_RAW)),
        ensures
            r@ == self@.add(o@),
            r.within(8 * (MAX_RAW * MAX_RAW)),
    {
        WideQuat { w: self.w + o.w, i: self.i + o.i, j: self.j + o.j, k: self.k + o.k }
    }

    /// Exact sum of two products of three quaternions.
    pub(crate) fn sum3(&self, o: &WideQuat) -> (r: WideQuat)
        requires
            self.within(16 * (MAX_RAW * MAX_RAW * MAX_RAW)),
            o.within(32 * (MAX_RAW * MAX_RAW * MAX_RAW)),
        ensures
            r@ == self@.add(o@),
            r.within(48 * (MAX_RAW * MAX_RAW * MAX_RAW)),
    {
        WideQuat { w: self.w + o.w, i: self.i + o.i, j: self.j + o.j, k: self.k + o.k }
    }

    /// Exact Hamilton product of a product of two quaternions with a third.
    pub(crate) fn product4(&self, o: &Quaternion) -> (r: WideQuat)
        requires
            self.within(4 * (MAX_RAW * MAX_RAW)),
            o.is_finite(),
        ensures
            r@ == self@.mul(o@),
            r.within(16 * (MAX_RAW * MAX_RAW * MAX_RAW)),
    {
        let a = self;
        let b = o;
        WideQuat {
            w: wide_mul4(a.w, b.w.raw) - wide_mul4(a.i, b.i.raw) - wide_mul4(a.j, b.j.raw)
                - wide_mul4(a.k, b.k.raw),
            i: wide_mul4(a.w, b.i.raw) + wide_mul4(a.i, b.w.raw) + wide_mul4(a.j, b.k.raw)
                - wide_mul4(a.k, b.j.raw),
            j: wide_mul4(a.w, b.j.raw) - wide_mul4(a.i, b.k.raw) + wide_mul4(a.j, b.w.raw)
                + wide_mul4(a.k, b.i.raw),
            k: wide_mul4(a.w, b.k.raw) + wide_mul4(a.i, b.j.raw) - wide_mul4(a.j, b.i.raw)
                + wide_mul4(a.k, b.w.raw),
        }
    }

    /// Exact Hamilton product of a sum of two products of two quaternions
    /// with a third quaternion.
    pub(crate) fn product8(&self, o: &Quaternion) -> (r: WideQuat)
        requires
            self.within(8 * (MAX_RAW * MAX_RAW)),
            o.is_finite(),
        ensures
            r@ == self@.mul(o@),
            r.within(32 * (MAX_RAW * MAX_RAW * MAX_RAW)),
    {
        let a = self;
        let b = o;
        WideQuat {
            w: wide_mul8(a.w, b.w.raw) - wide_mul8(a.i, b.i.raw) - wide_mul8(a.j, b.j.raw)
                - wide_mul8(a.k, b.k.raw),
            i: wide_mul8(a.w, b.i.raw) + wide_mul8(a.i, b.w.raw) + wide_mul8(a.j, b.k.raw)
                - wide_mul8(a.k, b.j.raw),
            j: wide_mul8(a.w, b.j.raw) - wide_mul8(a.i, b.k.raw) + wide_mul8(a.j, b.w.raw)
                + wide_mul8(a.k, b.i.raw),
            k: wide_mul8(a.w, b.k.raw) + wide_mul8(a.i, b.j.raw) - wide_mul8(a.j, b.i.raw)
                + wide_mul8(a.k, b.w.raw),
        }
    }
}

impl Quaternion {
    /// Whether every component is finite.
    pub open spec fn is_finite(self) -> bool {
        self.w.is_finite() && self.i.is_finite() && self.j.is_finite() && self.k.is_finite()
    }

    /// The quaternion whose components are all non-finite.
    pub open spec fn nan() -> Quaternion {
        Quaternion { w: Scalar::nan(), i: Scalar::nan(), j: Scalar::nan(), k: Scalar::nan() }
    }

    /// The quaternion whose raw values are `q / 2^24`, each rounded toward zero.
    pub open spec fn rescale(q: Quat) -> Quaternion {
        Quaternion {
            w: Scalar::rescale(q.w),
            i: Scalar::rescale(q.i),
            j: Scalar::rescale(q.j),
            k: Scalar::rescale(q.k),
        }
    }

    /// The conjugate.
    pub open spec fn conj_spec(self) -> Quaternion {
        Quaternion { w: self.w, i: self.i.neg_spec(), j: self.j.neg_spec(), k: self.k.neg_spec() }
    }

    /// The exact Hamilton product of the raw values, rounded once per component.
    pub open spec fn product_spec(self, rhs: Quaternion) -> Quaternion {
        if self.is_finite() && rhs.is_finite() {
            Quaternion::rescale(self@.mul(rhs@))
        } else {
            Quaternion::nan()
        }
    }

    /// The square root of the exact sum of squares, rounded down.
    pub open spec fn norm_spec(self) -> Scalar {
        if self.is_finite() {
            Scalar::of(isqrt(self@.norm_sq()))
        } else {
            Scalar::nan()
        }
    }

    /// Every component multiplied by `s`.
    pub open spec fn scale_spec(self, s: Scalar) -> Quaternion {
        Quaternion {
            w: self.w.mul_spec(s),
            i: self.i.mul_spec(s),
            j: self.j.mul_spec(s),
            k: self.k.mul_spec(s),
        }
    }

    /// Every component divided by `s`.
    pub open spec fn div_scalar_spec(self, s: Scalar) -> Quaternion {
        Quaternion {
            w: self.w.div_spec(s),
            i: self.i.div_spec(s),
            j: self.j.div_spec(s),
            k: self.k.div_spec(s),
        }
    }

    /// The reciprocal of the exact squared norm, rounded once.
    pub open spec fn inverse_norm_sq_spec(self) -> Scalar {
        if self.is_finite() {
            Scalar::ratio_spec(ONE_SQ_RAW as int, self@.norm_sq())
        } else {
            Scalar::nan()
        }
    }

    /// `self conj(rhs) / |rhs|^2`: the exact product and the exact squared
    /// norm of the raw values, divided with one rounding per component.
    pub open spec fn div_spec(self, rhs: Quaternion) -> Quaternion {
        if self.is_finite() && rhs.is_finite() {
            let m = self@.mul(rhs@.conj());
            let n = rhs@.norm_sq();
            Quaternion {
                w: Scalar::ratio_spec(m.w, n),
                i: Scalar::ratio_spec(m.i, n),
                j: Scalar::ratio_spec(m.j, n),
                k: Scalar::ratio_spec(m.k, n),
            }
        } else {
            Quaternion::nan()
        }
    }

    /// The quotient `s / self` of a real number by this quaternion.
    pub open spec fn div_into_scalar_spec(self, s: Scalar) -> Quaternion {
        (Quaternion { w: s, i: Scalar { raw: 0 }, j: Scalar { raw: 0 }, k: Scalar { raw: 0 } }).div_spec(
            self,
        )
    }

    /// Every component divided by the square root of the exact squared
    /// norm, the quotient rounded once.
    pub open spec fn normalized_spec(self) -> Quaternion {
        if self.is_finite() {
            let t = self@.norm_sq();
            Quaternion {
                w: self.w.over_root_spec(t),
                i: self.i.over_root_spec(t),
                j: self.j.over_root_spec(t),
                k: self.k.over_root_spec(t),
            }
        } else {
            Quaternion::nan()
        }
    }

    /// Component-wise sum.
    pub open spec fn add_spec(self, rhs: Quaternion) -> Quaternion {
        Quaternion {
            w: self.w.add_spec(rhs.w),
            i: self.i.add_spec(rhs.i),
            j: self.j.add_spec(rhs.j),
            k: self.k.add_spec(rhs.k),
        }
    }

    /// Component-wise difference.
    pub open spec fn sub_spec(self, rhs: Quaternion) -> Quaternion {
        Quaternion {
            w: self.w.sub_spec(rhs.w),
            i: self.i.sub_spec(rhs.i),
            j: self.j.sub_spec(rhs.j),
            k: self.k.sub_spec(rhs.k),
        }
    }

    /// Every component negated.
    pub open spec fn neg_spec(self) -> Quaternion {
        Quaternion {
            w: self.w.neg_spec(),
            i: self.i.neg_spec(),
            j: self.j.neg_spec(),
            k: self.k.neg_spec(),
        }
    }

    /// `v + 2 (w a + u x a)` with `u` the vector part and `a = u x v`,
    /// computed exactly on the raw values and rounded once per component.
    pub open spec fn transform_spec(self, v: Vector3) -> Vector3 {
        if self.is_finite() && v.is_finite() {
            let n = rotate(self@, v@, ONE_RAW as int);
            Vector3 { x: Scalar::rescale2(n.x), y: Scalar::rescale2(n.y), z: Scalar::rescale2(n.z) }
        } else {
            Vector3::nan()
        }
    }

    /// `|q|^2 v + 2 (w a + u x a)` with `u` the vector part and `a = u x v`,
    /// computed exactly on the raw values and rounded once per component.
    pub open spec fn transform_scaled_spec(self, v: Vector3) -> Vector3 {
        if self.is_finite() && v.is_finite() {
            let n = sandwich(self@, v@);
            Vector3 { x: Scalar::rescale2(n.x), y: Scalar::rescale2(n.y), z: Scalar::rescale2(n.z) }
        } else {
            Vector3::nan()
        }
    }

    /// How far the exact squared norm is from one: `| |q|^2 - 2^48 |` on the
    /// raw values.
    pub open spec fn unit_defect_spec(self) -> int {
        abs(self@.norm_sq() - ONE_SQ_RAW)
    }

    /// The vector part.
    pub open spec fn axis_spec(self) -> Vector3 {
        Vector3 { x: self.i, y: self.j, z: self.k }
    }

    /// The quaternion with scalar part `w` and vector part `v`.
    pub open spec fn from_parts_spec(w: Scalar, v: Vector3) -> Quaternion {
        Quaternion { w, i: v.x, j: v.y, k: v.z }
    }

    /// Cosine of the half angle as the scalar part, sine of the half angle
    /// times the normalized axis as the vector part.
    pub open spec fn from_angle_axis_spec(angle: Angle, x: Scalar, y: Scalar, z: Scalar) -> Quaternion {
        let n = (Vector3 { x, y, z }).normalize_spec();
        let sc = sin_cos_spec(angle.radians().div_int_spec(2));
        Quaternion::from_parts_spec(sc.1, n.scale_spec(sc.0))
    }

    /// `exp(w) (cos r + (sin r / r) v)` with `v` the vector part and `r` its
    /// length; `exp(w)` alone when `r` is zero.
    pub open spec fn exp_spec(self) -> Quaternion {
        let v = self.axis_spec();
        let r = v.norm_spec();
        let ew = exp_spec(self.w);
        if r.raw == 0 {
            Quaternion::from_parts_spec(
                ew,
                Vector3 { x: Scalar { raw: 0 }, y: Scalar { raw: 0 }, z: Scalar { raw: 0 } },
            )
        } else {
            let sc = sin_cos_spec(r);
            Quaternion::from_parts_spec(ew.mul_spec(sc.1), v.scale_spec(ew.mul_spec(sinc_spec(r))))
        }
    }

    /// `ln |q| + theta (v / |v|)` with `v` the vector part, `r` its length
    /// and `theta` the angle of the point `(w, r)`, in `[0, pi]`; the vector
    /// part is normalized first, so that a short one loses nothing.  Where
    /// `r` is zero the result is `ln w`, which is non-finite unless `w` is
    /// positive.
    pub open spec fn log_spec(self) -> Quaternion {
        let v = self.axis_spec();
        let r = v.norm_spec();
        if r.raw == 0 {
            Quaternion::from_parts_spec(
                ln_spec(self.w),
                Vector3 { x: Scalar { raw: 0 }, y: Scalar { raw: 0 }, z: Scalar { raw: 0 } },
            )
        } else {
            let theta = atan2_spec(r, self.w);
            Quaternion::from_parts_spec(
                ln_spec(self.norm_spec()),
                v.normalize_spec().scale_spec(theta),
            )
        }
    }

    /// Whether the vector part is exactly zero.
    pub open spec fn is_scalar(self) -> bool {
        self.i.raw == 0 && self.j.raw == 0 && self.k.raw == 0
    }

    /// `exp(f log q)`; for a quaternion without vector part, `exp(f ln w)`
    /// with a zero vector part.
    pub open spec fn power_spec(self, f: Scalar) -> Quaternion {
        if self.is_scalar() {
            Quaternion::from_parts_spec(
                exp_spec(ln_spec(self.w).mul_spec(f)),
                Vector3 { x: Scalar { raw: 0 }, y: Scalar { raw: 0 }, z: Scalar { raw: 0 } },
            )
        } else {
            self.log_spec().scale_spec(f).exp_spec()
        }
    }

    /// `a + (b - a) alpha`, component by component.
    pub open spec fn lerp_spec(self, b: Quaternion, alpha: Scalar) -> Quaternion {
        self.add_spec(b.sub_spec(self).scale_spec(alpha))
    }

    /// `(b' conj(a'))^alpha a'` for the normalized `a'` and `b'`, scaled by
    /// the magnitude `|a| + (|b| - |a|) alpha`.
    pub open spec fn slerp_spec(self, b: Quaternion, alpha: Scalar) -> Quaternion {
        let na = self.norm_spec();
        let nb = b.norm_spec();
        let ua = self.normalized_spec();
        let ub = b.normalized_spec();
        let turn = ub.product_spec(ua.conj_spec()).power_spec(alpha);
        turn.product_spec(ua).scale_spec(na.add_spec(nb.sub_spec(na).mul_spec(alpha)))
    }

    /// Whether every component is finite.
    pub fn finite(&self) -> (b: bool)
        ensures
            b == self.is_finite(),
    {
        self.w.finite() && self.i.finite() && self.j.finite() && self.k.finite()
    }

    /// The places of the components that are shown when the value is
    /// written as a sum, counted from zero in the order `w`, `i`, `j`, `k`: those
    /// whose square exceeds `2^-23`.
    pub fn shown(&self) -> (r: Vec<usize>)
        ensures
            r@.map_values(|i: usize| i as int) == shown_indices(seq![self.w, self.i, self.j, self.k]),
    {
        let values: Vec<Scalar> = vec![self.w, self.i, self.j, self.k];
        assert(values@ =~= seq![self.w, self.i, self.j, self.k]);
        shown_among(&values)
    }

    /// Conjugate: the vector part negated.
    pub fn conj(&self) -> (r: Quaternion)
        ensures
            r == self.conj_spec(),
    {
        Quaternion { w: self.w, i: self.i.neg(), j: self.j.neg(), k: self.k.neg() }
    }

    /// Hamilton product `self * rhs`.
    pub fn product(&self, rhs: &Quaternion) -> (r: Quaternion)
        ensures
            r == self.product_spec(*rhs),
    {
        if self.finite() && rhs.finite() {
            let p = self.product_wide(rhs);
            Quaternion {
                w: Scalar::from_product(p.w),
                i: Scalar::from_product(p.i),
                j: Scalar::from_product(p.j),
                k: Scalar::from_product(p.k),
            }
        } else {
            Quaternion::not_finite()
        }
    }

    /// The exact Hamilton product of the raw values.
    pub(crate) fn product_wide(&self, rhs: &Quaternion) -> (r: WideQuat)
        requires
            self.is_finite(),
            rhs.is_finite(),
        ensures
            r@ == self@.mul(rhs@),
            r.within(4 * (MAX_RAW * MAX_RAW)),
    {
        let a = self;
        let b = rhs;
        WideQuat {
            w: wide_mul(a.w.raw, b.w.raw) - wide_mul(a.i.raw, b.i.raw) - wide_mul(a.j.raw, b.j.raw)
                - wide_mul(a.k.raw, b.k.raw),
            i: wide_mul(a.w.raw, b.i.raw) + wide_mul(a.i.raw, b.w.raw) + wide_mul(a.j.raw, b.k.raw)
                - wide_mul(a.k.raw, b.j.raw),
            j: wide_mul(a.w.raw, b.j.raw) - wide_mul(a.i.raw, b.k.raw) + wide_mul(a.j.raw, b.w.raw)
                + wide_mul(a.k.raw, b.i.raw),
            k: wide_mul(a.w.raw, b.k.raw) + wide_mul(a.i.raw, b.j.raw) - wide_mul(a.j.raw, b.i.raw)
                + wide_mul(a.k.raw, b.w.raw),
        }
    }

    /// The quaternion whose components are all non-finite.
    pub fn not_finite() -> (r: Quaternion)
        ensures
            r == Quaternion::nan(),
    {
        let n = Scalar { raw: NAN_RAW };
        Quaternion { w: n, i: n, j: n, k: n }
    }

    /// Euclidean norm of the four components.
    pub fn norm(&self) -> (r: Scalar)
        ensures
            r == self.norm_spec(),
    {
        if self.finite() {
            let ww: i128 = wide_mul(self.w.raw, self.w.raw);
            let ii: i128 = wide_mul(self.i.raw, self.i.raw);
            let jj: i128 = wide_mul(self.j.raw, self.j.raw);
            let kk: i128 = wide_mul(self.k.raw, self.k.raw);
            assert(ww >= 0 && ii >= 0 && jj >= 0 && kk >= 0) by (nonlinear_arith)
                requires
                    ww == self.w.raw * self.w.raw,
                    ii == self.i.raw * self.i.raw,
                    jj == self.j.raw * self.j.raw,
                    kk == self.k.raw * self.k.raw,
            ;
            let sum: i128 = ww + ii + jj + kk;
            Scalar::from_wide(wide_isqrt(sum as u128) as i128)
        } else {
            Scalar { raw: NAN_RAW }
        }
    }

    /// Every component multiplied by `s`.
    pub fn scale(&self, s: &Scalar) -> (r: Quaternion)
        ensures
            r == self.scale_spec(*s),
    {
        Quaternion { w: self.w.mul(*s), i: self.i.mul(*s), j: self.j.mul(*s), k: self.k.mul(*s) }
    }

    /// Every component divided by `s`.
    pub fn div_scalar(&self, s: &Scalar) -> (r: Quaternion)
        ensures
            r == self.div_scalar_spec(*s),
    {
        Quaternion { w: self.w.div(*s), i: self.i.div(*s), j: self.j.div(*s), k: self.k.div(*s) }
    }

    /// How far the exact squared norm of a finite quaternion is from one,
    /// in units of `2^-48`; `None` for a quaternion that is not finite.  It
    /// is zero for a quaternion of norm one exactly, and it bounds what a
    /// rotation by this quaternion does to lengths.
    pub fn unit_defect(&self) -> (d: Option<i128>)
        ensures
            d == (if self.is_finite() {
                Some(self.unit_defect_spec() as i128)
            } else {
                None
            }),
            self.is_finite() ==> 0 <= self.unit_defect_spec() <= 4 * (MAX_RAW * MAX_RAW),
    {
        if self.finite() {
            let ww: i128 = wide_mul(self.w.raw, self.w.raw);
            let ii: i128 = wide_mul(self.i.raw, self.i.raw);
            let jj: i128 = wide_mul(self.j.raw, self.j.raw);
            let kk: i128 = wide_mul(self.k.raw, self.k.raw);
            assert(ww >= 0 && ii >= 0 && jj >= 0 && kk >= 0) by (nonlinear_arith)
                requires
                    ww == self.w.raw * self.w.raw,
                    ii == self.i.raw * self.i.raw,
                    jj == self.j.raw * self.j.raw,
                    kk == self.k.raw * self.k.raw,
            ;
            let n: i128 = ww + ii + jj + kk;
            if n >= ONE_SQ_RAW {
                Some(n - ONE_SQ_RAW)
            } else {
                Some(ONE_SQ_RAW - n)
            }
        } else {
            None
        }
    }

    /// The reciprocal of the squared norm; non-finite for the zero quaternion.
    pub fn inverse_norm_sq(&self) -> (r: Scalar)
        ensures
            r == self.inverse_norm_sq_spec(),
    {
        if self.finite() {
            let n: i128 = sum_squares(self.w.raw, self.i.raw, self.j.raw, self.k.raw);
            assert(MAX_RAW * MAX_RAW == 0x1_0000_0000_0000_0000_0000);
            Scalar::ratio(ONE_SQ_RAW, n)
        } else {
            Scalar { raw: NAN_RAW }
        }
    }

    /// Quotient `self / rhs`: the product with the inverse of `rhs` from
    /// the right.  The zero quaternion as divisor gives non-finite components.
    pub fn div(self, rhs: Quaternion) -> (r: Quaternion)
        ensures
            r == self.div_spec(rhs),
    {
        if self.finite() && rhs.finite() {
            let c = rhs.conj();
            let m = self.product_wide(&c);
            let n: i128 = sum_squares(rhs.w.raw, rhs.i.raw, rhs.j.raw, rhs.k.raw);
            Quaternion {
                w: Scalar::ratio(m.w, n),
                i: Scalar::ratio(m.i, n),
                j: Scalar::ratio(m.j, n),
                k: Scalar::ratio(m.k, n),
            }
        } else {
            Quaternion::not_finite()
        }
    }

    /// The quotient `s / self` of a real number by this quaternion.
    pub fn div_into_scalar(&self, s: &Scalar) -> (r: Quaternion)
        ensures
            r == self.div_into_scalar_spec(*s),
    {
        let z = Scalar { raw: 0 };
        (Quaternion { w: *s, i: z, j: z, k: z }).div(*self)
    }

    /// Every component divided by the norm.  The zero quaternion gives
    /// non-finite components.
    pub fn normalized(&self) -> (r: Quaternion)
        ensures
            r == self.normalized_spec(),
    {
        if self.finite() {
            let t: i128 = sum_squares(self.w.raw, self.i.raw, self.j.raw, self.k.raw);
            if t > 0 {
                let root: i128 = sharp_root_exec(t);
                Quaternion {
                    w: self.w.over_root(root, Ghost(t as int)),
                    i: self.i.over_root(root, Ghost(t as int)),
                    j: self.j.over_root(root, Ghost(t as int)),
                    k: self.k.over_root(root, Ghost(t as int)),
                }
            } else {
                Quaternion::not_finite()
            }
        } else {
            Quaternion::not_finite()
        }
    }

    /// Component-wise sum.
    pub fn add(self, rhs: Quaternion) -> (r: Quaternion)
        ensures
            r == self.add_spec(rhs),
    {
        Quaternion {
            w: self.w.add(rhs.w),
            i: self.i.add(rhs.i),
            j: self.j.add(rhs.j),
            k: self.k.add(rhs.k),
        }
    }

    /// Component-wise difference.
    pub fn sub(self, rhs: Quaternion) -> (r: Quaternion)
        ensures
            r == self.sub_spec(rhs),
    {
        Quaternion {
            w: self.w.sub(rhs.w),
            i: self.i.sub(rhs.i),
            j: self.j.sub(rhs.j),
            k: self.k.sub(rhs.k),
        }
    }

    /// The vector part.
    pub fn axis(&self) -> (r: Vector3)
        ensures
            r == self.axis_spec(),
    {
        Vector3 { x: self.i, y: self.j, z: self.k }
    }

    /// Rotation of `v` by a unit quaternion: `v + 2 (w a + u x a)` with `u`
    /// the vector part and `a = u x v`.  The result is a rotation of `v`
    /// only when the quaternion has norm one; for any other quaternion use
    /// [`Quaternion::transform_scaled`].
    pub fn transform(&self, v: &Vector3) -> (r: Vector3)
        ensures
            r == self.transform_spec(*v),
    {
        if self.finite() && v.finite() {
            let u = self.axis();
            let a = u.cross_wide(v);
            let s = u.screw_wide(self.w.raw, a);
            let x: i128 = ONE_SQ_RAW * (v.x.raw as i128) + 2 * s.0;
            let y: i128 = ONE_SQ_RAW * (v.y.raw as i128) + 2 * s.1;
            let z: i128 = ONE_SQ_RAW * (v.z.raw as i128) + 2 * s.2;
            assert(ONE_RAW * ONE_RAW == ONE_SQ_RAW);
            Vector3 {
                x: Scalar::from_triple_product(x),
                y: Scalar::from_triple_product(y),
                z: Scalar::from_triple_product(z),
            }
        } else {
            Vector3::not_finite()
        }
    }

    /// The sandwich `q v conj(q)` for any quaternion: the rotation of `v`
    /// by `q / |q|`, scaled by `|q|^2`.
    pub fn transform_scaled(&self, v: &Vector3) -> (r: Vector3)
        ensures
            r == self.transform_scaled_spec(*v),
    {
        if self.finite() && v.finite() {
            let u = self.axis();
            let a = u.cross_wide(v);
            let s = u.screw_wide(self.w.raw, a);
            let n: i128 = wide_mul(self.w.raw, self.w.raw) + wide_mul(self.i.raw, self.i.raw)
                + wide_mul(self.j.raw, self.j.raw) + wide_mul(self.k.raw, self.k.raw);
            let x: i128 = wide_mul4(n, v.x.raw) + 2 * s.0;
            let y: i128 = wide_mul4(n, v.y.raw) + 2 * s.1;
            let z: i128 = wide_mul4(n, v.z.raw) + 2 * s.2;
            Vector3 {
                x: Scalar::from_triple_product(x),
                y: Scalar::from_triple_product(y),
                z: Scalar::from_triple_product(z),
            }
        } else {
            Vector3::not_finite()
        }
    }

    /// The quaternion with scalar part `w` and vector part `v`.
    pub fn from_parts(w: Scalar, v: &Vector3) -> (r: Quaternion)
        ensures
            r == Quaternion::from_parts_spec(w, *v),
    {
        Quaternion { w, i: v.x, j: v.y, k: v.z }
    }

    /// The rotor that rotates by `angle` about the axis `(x, y, z)`.  The
    /// axis is normalized here; a zero axis gives non-finite components.
    pub fn from_angle_axis(angle: Angle, x: Scalar, y: Scalar, z: Scalar) -> (r: Quaternion)
        ensures
            r == Quaternion::from_angle_axis_spec(angle, x, y, z),
    {
        let n = (Vector3 { x, y, z }).normalize();
        let sc = sin_cos(&angle.rad().div_int(2));
        Quaternion::from_parts(sc.1, &n.scale(&sc.0))
    }

    /// Rotation of a point about the origin by a unit quaternion.
    pub fn transform_point(&self, point: &Point) -> (r: Point)
        ensures
            r == Point::of(self.transform_spec(point.vector())),
    {
        Point::from_vector(&self.transform(&point.to_vector()))
    }

    /// Rotation of a direction by a unit quaternion.
    pub fn transform_direction(&self, direction: &Direction) -> (r: Direction)
        ensures
            r == Direction::of(self.transform_spec(direction.vector())),
    {
        Direction::from_vector(&self.transform(&direction.to_vector()))
    }

    /// Exponential.
    pub fn exp(&self) -> (r: Quaternion)
        ensures
            r == self.exp_spec(),
    {
        let v = self.axis();
        let r = v.norm();
        let ew = exp(&self.w);
        if r.raw == 0 {
            let zero = Scalar { raw: 0 };
            Quaternion { w: ew, i: zero, j: zero, k: zero }
        } else {
            let sc = sin_cos(&r);
            Quaternion::from_parts(ew.mul(sc.1), &v.scale(&ew.mul(sinc(&r))))
        }
    }

    /// Principal logarithm.  Non-finite for the zero quaternion and for a
    /// real quaternion that is not positive.
    pub fn log(&self) -> (r: Quaternion)
        ensures
            r == self.log_spec(),
    {
        let v = self.axis();
        let r = v.norm();
        if r.raw == 0 {
            let zero = Scalar { raw: 0 };
            Quaternion { w: ln(&self.w), i: zero, j: zero, k: zero }
        } else {
            let theta = atan2(&r, &self.w);
            Quaternion::from_parts(ln(&self.norm()), &v.normalize().scale(&theta))
        }
    }

    /// The power `q^f`.
    pub fn power(&self, f: &Scalar) -> (r: Quaternion)
        ensures
            r == self.power_spec(*f),
    {
        if self.i.raw == 0 && self.j.raw == 0 && self.k.raw == 0 {
            let zero = Scalar { raw: 0 };
            Quaternion { w: exp(&ln(&self.w).mul(*f)), i: zero, j: zero, k: zero }
        } else {
            self.log().scale(f).exp()
        }
    }

    /// Linear interpolation from `self` at `alpha = 0` to `b` at
    /// `alpha = 1`; other values of `alpha` extrapolate.
    pub fn lerp(&self, b: &Quaternion, alpha: &Scalar) -> (r: Quaternion)
        ensures
            r == self.lerp_spec(*b, *alpha),
    {
        self.add(b.sub(*self).scale(alpha))
    }

    /// Spherical interpolation from `self` at `alpha = 0` to `b` at
    /// `alpha = 1`: the rotation is interpolated along the arc, the
    /// magnitude linearly; other values of `alpha` extrapolate.
    pub fn slerp(&self, b: &Quaternion, alpha: &Scalar) -> (r: Quaternion)
        ensures
            r == self.slerp_spec(*b, *alpha),
    {
        let na = self.norm();
        let nb = b.norm();
        let ua = self.normalized();
        let ub = b.normalized();
        let turn = ub.product(&ua.conj()).power(alpha);
        turn.product(&ua).scale(&na.add(nb.sub(na).mul(*alpha)))
    }

    /// Every component negated.
    pub fn neg(self) -> (r: Quaternion)
        ensures
            r == self.neg_spec(),
    {
        Quaternion { w: self.w.neg(), i: self.i.neg(), j: self.j.neg(), k: self.k.neg() }
    }
}

} // verus!
