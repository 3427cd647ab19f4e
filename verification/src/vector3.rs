//! Three-component vectors of fixed-point scalars.
use vstd::prelude::*;
use crate::algebra::Vec3;
use crate::scalar::{
    Scalar, in_range, isqrt, sharp_root_exec, sum_squares, wide_isqrt, wide_mul, wide_mul4,
    MAX_RAW, NAN_RAW,
};

verus! {

/// A vector of three scalars.
#[derive(Clone, Copy, Debug, PartialEq, Eq, Structural)]
pub struct Vector3 {
    pub x: Scalar,
    pub y: Scalar,
    pub z: Scalar,
}

impl View for Vector3 {
    type V = Vec3;

    /// The raw values of the components.
    open spec fn view(&self) -> Vec3 {
        Vec3 { x: self.x.raw as int, y: self.y.raw as int, z: self.z.raw as int }
    }
}

impl Vector3 {
    /// Whether every component is finite.
    pub open spec fn is_finite(self) -> bool {
        self.x.is_finite() && self.y.is_finite() && self.z.is_finite()
    }

    /// The vector whose components are all non-finite.
    pub open spec fn nan() -> Vector3 {
        Vector3 { x: Scalar::nan(), y: Scalar::nan(), z: Scalar::nan() }
    }

    /// Each component of the exact cross product, rounded once.
    pub open spec fn cross_spec(self, other: Vector3) -> Vector3 {
        if self.is_finite() && other.is_finite() {
            let c = self@.cross(other@);
            Vector3 { x: Scalar::rescale(c.x), y: Scalar::rescale(c.y), z: Scalar::rescale(c.z) }
        } else {
            Vector3::nan()
        }
    }

    /// The square root of the exact sum of squares, rounded down.
    pub open spec fn norm_spec(self) -> Scalar {
        if self.is_finite() {
            Scalar::of(isqrt(self@.norm_sq()))
        } else {
            Scalar::nan()
        }
    }

    /// Each component divided by the square root of the exact squared norm,
    /// the quotient rounded once.
    pub open spec fn normalize_spec(self) -> Vector3 {
        if self.is_finite() {
            let t = self@.norm_sq();
            Vector3 {
                x: self.x.over_root_spec(t),
                y: self.y.over_root_spec(t),
                z: self.z.over_root_spec(t),
            }
        } else {
            Vector3::nan()
        }
    }

    /// The exact cross product of the raw values.
    pub(crate) fn cross_wide(&self, other: &Vector3) -> (r: (i128, i128, i128))
        requires
            self.is_finite(),
            other.is_finite(),
        ensures
            r.0 == self@.cross(other@).x,
            r.1 == self@.cross(other@).y,
            r.2 == self@.cross(other@).z,
            -2 * (MAX_RAW * MAX_RAW) <= r.0 <= 2 * (MAX_RAW * MAX_RAW),
            -2 * (MAX_RAW * MAX_RAW) <= r.1 <= 2 * (MAX_RAW * MAX_RAW),
            -2 * (MAX_RAW * MAX_RAW) <= r.2 <= 2 * (MAX_RAW * MAX_RAW),
    {
        let x: i128 = wide_mul(self.y.raw, other.z.raw) - wide_mul(other.y.raw, self.z.raw);
        let y: i128 = wide_mul(self.z.raw, other.x.raw) - wide_mul(other.z.raw, self.x.raw);
        let z: i128 = wide_mul(self.x.raw, other.y.raw) - wide_mul(other.x.raw, self.y.raw);
        (x, y, z)
    }

    /// The exact value of `w a + u x a` on raw values, for `u = self` and a
    /// vector `a` of sums of products of two raw values.
    pub(crate) fn screw_wide(&self, w: i64, a: (i128, i128, i128)) -> (r: (i128, i128, i128))
        requires
            self.is_finite(),
            in_range(w as int),
            -4 * (MAX_RAW * MAX_RAW) <= a.0 <= 4 * (MAX_RAW * MAX_RAW),
            -4 * (MAX_RAW * MAX_RAW) <= a.1 <= 4 * (MAX_RAW * MAX_RAW),
            -4 * (MAX_RAW * MAX_RAW) <= a.2 <= 4 * (MAX_RAW * MAX_RAW),
        ensures
            ({
                let av = Vec3 { x: a.0 as int, y: a.1 as int, z: a.2 as int };
                let s = av.scale(w as int).add(self@.cross(av));
                r.0 == s.x && r.1 == s.y && r.2 == s.z
            }),
            -12 * (MAX_RAW * MAX_RAW * MAX_RAW) <= r.0 <= 12 * (MAX_RAW * MAX_RAW * MAX_RAW),
            -12 * (MAX_RAW * MAX_RAW * MAX_RAW) <= r.1 <= 12 * (MAX_RAW * MAX_RAW * MAX_RAW),
            -12 * (MAX_RAW * MAX_RAW * MAX_RAW) <= r.2 <= 12 * (MAX_RAW * MAX_RAW * MAX_RAW),
    {
        let x: i128 = wide_mul4(a.0, w) + wide_mul4(a.2, self.y.raw) - wide_mul4(a.1, self.z.raw);
        let y: i128 = wide_mul4(a.1, w) + wide_mul4(a.0, self.z.raw) - wide_mul4(a.2, self.x.raw);
        let z: i128 = wide_mul4(a.2, w) + wide_mul4(a.1, self.x.raw) - wide_mul4(a.0, self.y.raw);
        (x, y, z)
    }

    /// Component-wise sum.
    pub open spec fn add_spec(self, other: Vector3) -> Vector3 {
        Vector3 {
            x: self.x.add_spec(other.x),
            y: self.y.add_spec(other.y),
            z: self.z.add_spec(other.z),
        }
    }

    /// Component-wise difference.
    pub open spec fn sub_spec(self, other: Vector3) -> Vector3 {
        Vector3 {
            x: self.x.sub_spec(other.x),
            y: self.y.sub_spec(other.y),
            z: self.z.sub_spec(other.z),
        }
    }

    /// Every component negated.
    pub open spec fn neg_spec(self) -> Vector3 {
        Vector3 { x: self.x.neg_spec(), y: self.y.neg_spec(), z: self.z.neg_spec() }
    }

    /// Every component multiplied by `s`.
    pub open spec fn scale_spec(self, s: Scalar) -> Vector3 {
        Vector3 { x: self.x.mul_spec(s), y: self.y.mul_spec(s), z: self.z.mul_spec(s) }
    }

    /// The exact dot product of the raw values, rounded once.
    pub open spec fn dot_spec(self, other: Vector3) -> Scalar {
        if self.is_finite() && other.is_finite() {
            Scalar::rescale(self@.dot(other@))
        } else {
            Scalar::nan()
        }
    }

    /// Whether every component is finite.
    pub fn finite(&self) -> (b: bool)
        ensures
            b == self.is_finite(),
    {
        self.x.finite() && self.y.finite() && self.z.finite()
    }

    /// The vector whose components are all non-finite.
    pub fn not_finite() -> (r: Vector3)
        ensures
            r == Vector3::nan(),
    {
        let n = Scalar { raw: NAN_RAW };
        Vector3 { x: n, y: n, z: n }
    }

    /// Euclidean length.
    pub fn norm(&self) -> (r: Scalar)
        ensures
            r == self.norm_spec(),
    {
        if self.finite() {
            let xx: i128 = wide_mul(self.x.raw, self.x.raw);
            let yy: i128 = wide_mul(self.y.raw, self.y.raw);
            let zz: i128 = wide_mul(self.z.raw, self.z.raw);
            assert(xx >= 0 && yy >= 0 && zz >= 0) by (nonlinear_arith)
                requires
                    xx == self.x.raw * self.x.raw,
                    yy == self.y.raw * self.y.raw,
                    zz == self.z.raw * self.z.raw,
            ;
            let sum: i128 = xx + yy + zz;
            Scalar::from_wide(wide_isqrt(sum as u128) as i128)
        } else {
            Scalar { raw: NAN_RAW }
        }
    }

    /// The vector of length one in the same direction.  The zero vector and
    /// vectors with a non-finite component give non-finite components.
    pub fn normalize(&self) -> (r: Vector3)
        ensures
            r == self.normalize_spec(),
    {
        if self.finite() {
            let t: i128 = sum_squares(self.x.raw, self.y.raw, self.z.raw, 0);
            if t > 0 {
                let root: i128 = sharp_root_exec(t);
                Vector3 {
                    x: self.x.over_root(root, Ghost(t as int)),
                    y: self.y.over_root(root, Ghost(t as int)),
                    z: self.z.over_root(root, Ghost(t as int)),
                }
            } else {
                Vector3::not_finite()
            }
        } else {
            Vector3::not_finite()
        }
    }

    /// Component-wise sum.
    pub fn add(self, other: Vector3) -> (r: Vector3)
        ensures
            r == self.add_spec(other),
    {
        Vector3 { x: self.x.add(other.x), y: self.y.add(other.y), z: self.z.add(other.z) }
    }

    /// Component-wise difference.
    pub fn sub(self, other: Vector3) -> (r: Vector3)
        ensures
            r == self.sub_spec(other),
    {
        Vector3 { x: self.x.sub(other.x), y: self.y.sub(other.y), z: self.z.sub(other.z) }
    }

    /// Every component negated.
    pub fn neg(self) -> (r: Vector3)
        ensures
            r == self.neg_spec(),
    {
        Vector3 { x: self.x.neg(), y: self.y.neg(), z: self.z.neg() }
    }

    /// Every component multiplied by `s`.
    pub fn scale(&self, s: &Scalar) -> (r: Vector3)
        ensures
            r == self.scale_spec(*s),
    {
        Vector3 { x: self.x.mul(*s), y: self.y.mul(*s), z: self.z.mul(*s) }
    }

    /// Dot product.
    pub fn dot(&self, other: &Vector3) -> (r: Scalar)
        ensures
            r == self.dot_spec(*other),
    {
        if self.finite() && other.finite() {
            let d: i128 = wide_mul(self.x.raw, other.x.raw) + wide_mul(self.y.raw, other.y.raw)
                + wide_mul(self.z.raw, other.z.raw);
            Scalar::from_product(d)
        } else {
            Scalar { raw: NAN_RAW }
        }
    }

    /// Cross product.
    pub fn cross(&self, other: &Vector3) -> (r: Vector3)
        ensures
            r == self.cross_spec(*other),
    {
        if self.finite() && other.finite() {
            let c = self.cross_wide(other);
            Vector3 {
                x: Scalar::from_product(c.0),
                y: Scalar::from_product(c.1),
                z: Scalar::from_product(c.2),
            }
        } else {
            Vector3::not_finite()
        }
    }
}

} // verus!
