//! Exact integer models of the algebra.
//!
//! The executable types hold fixed-point scalars.  Their raw values are
//! integers, and on integers the ring operations are exact.  The types of
//! this module are those integer tuples; the executable operations are
//! specified as one of the polynomials below followed by a single rounding.
use vstd::prelude::*;

verus! {

/// The absolute value of an integer.
pub open spec fn abs(x: int) -> int {
    if x < 0 {
        -x
    } else {
        x
    }
}

/// A complex number with integer parts, `re + im I`.
pub struct Cplx {
    pub re: int,
    pub im: int,
}

impl Cplx {
    /// Product.
    pub open spec fn mul(self, o: Cplx) -> Cplx {
        Cplx { re: self.re * o.re - self.im * o.im, im: self.im * o.re + self.re * o.im }
    }

    /// Conjugate: the imaginary part negated.
    pub open spec fn conj(self) -> Cplx {
        Cplx { re: self.re, im: -self.im }
    }

    /// Squared modulus.
    pub open spec fn norm_sq(self) -> int {
        self.re * self.re + self.im * self.im
    }
}

/// A dual number with integer parts, `re + du eps` with `eps^2 = 0`.
pub struct Dual {
    pub re: int,
    pub du: int,
}

impl Dual {
    /// Product: `(a + b eps)(c + d eps) = a c + (a d + b c) eps`.
    pub open spec fn mul(self, o: Dual) -> Dual {
        Dual { re: self.re * o.re, du: self.re * o.du + self.du * o.re }
    }

    /// Conjugate: the dual part negated.
    pub open spec fn conj(self) -> Dual {
        Dual { re: self.re, du: -self.du }
    }

    /// Squared Euclidean norm of the two parts.
    pub open spec fn norm_sq(self) -> int {
        self.re * self.re + self.du * self.du
    }
}

/// A triple of integers.
pub struct Vec3 {
    pub x: int,
    pub y: int,
    pub z: int,
}

impl Vec3 {
    /// Component-wise sum.
    pub open spec fn add(self, o: Vec3) -> Vec3 {
        Vec3 { x: self.x + o.x, y: self.y + o.y, z: self.z + o.z }
    }

    /// Component-wise difference.
    pub open spec fn sub(self, o: Vec3) -> Vec3 {
        Vec3 { x: self.x - o.x, y: self.y - o.y, z: self.z - o.z }
    }

    /// Every component negated.
    pub open spec fn neg(self) -> Vec3 {
        Vec3 { x: -self.x, y: -self.y, z: -self.z }
    }

    /// Every component multiplied by `s`.
    pub open spec fn scale(self, s: int) -> Vec3 {
        Vec3 { x: s * self.x, y: s * self.y, z: s * self.z }
    }

    /// Dot product.
    pub open spec fn dot(self, o: Vec3) -> int {
        self.x * o.x + self.y * o.y + self.z * o.z
    }

    /// Cross product.
    pub open spec fn cross(self, o: Vec3) -> Vec3 {
        Vec3 {
            x: self.y * o.z - o.y * self.z,
            y: self.z * o.x - o.z * self.x,
            z: self.x * o.y - o.x * self.y,
        }
    }

    /// Squared Euclidean length.
    pub open spec fn norm_sq(self) -> int {
        self.dot(self)
    }

    /// The sum of the absolute values of the components.
    pub open spec fn norm_one(self) -> int {
        abs(self.x) + abs(self.y) + abs(self.z)
    }
}

/// A quaternion with integer components, `w + i*I + j*J + k*K`.
pub struct Quat {
    pub w: int,
    pub i: int,
    pub j: int,
    pub k: int,
}

impl Quat {
    /// The real quaternion `w`.
    pub open spec fn scalar(w: int) -> Quat {
        Quat { w, i: 0, j: 0, k: 0 }
    }

    /// The quaternion with zero scalar part and vector part `v`.
    pub open spec fn pure(v: Vec3) -> Quat {
        Quat { w: 0, i: v.x, j: v.y, k: v.z }
    }

    /// The vector part.
    pub open spec fn vec(self) -> Vec3 {
        Vec3 { x: self.i, y: self.j, z: self.k }
    }

    /// Component-wise sum.
    pub open spec fn add(self, o: Quat) -> Quat {
        Quat { w: self.w + o.w, i: self.i + o.i, j: self.j + o.j, k: self.k + o.k }
    }

    /// Component-wise difference.
    pub open spec fn sub(self, o: Quat) -> Quat {
        Quat { w: self.w - o.w, i: self.i - o.i, j: self.j - o.j, k: self.k - o.k }
    }

    /// Every component negated.
    pub open spec fn neg(self) -> Quat {
        Quat { w: -self.w, i: -self.i, j: -self.j, k: -self.k }
    }

    /// Every component multiplied by `s`.
    pub open spec fn scale(self, s: int) -> Quat {
        Quat { w: s * self.w, i: s * self.i, j: s * self.j, k: s * self.k }
    }

    /// Hamilton product.
    pub open spec fn mul(self, o: Quat) -> Quat {
        Quat {
            w: self.w * o.w - self.i * o.i - self.j * o.j - self.k * o.k,
            i: self.w * o.i + self.i * o.w + self.j * o.k - self.k * o.j,
            j: self.w * o.j - self.i * o.k + self.j * o.w + self.k * o.i,
            k: self.w * o.k + self.i * o.j - self.j * o.i + self.k * o.w,
        }
    }

    /// Conjugate: the vector part negated.
    pub open spec fn conj(self) -> Quat {
        Quat { w: self.w, i: -self.i, j: -self.j, k: -self.k }
    }

    /// Squared Euclidean norm.
    pub open spec fn norm_sq(self) -> int {
        self.w * self.w + self.i * self.i + self.j * self.j + self.k * self.k
    }

    /// The sum of the absolute values of the components.
    pub open spec fn norm_one(self) -> int {
        abs(self.w) + abs(self.i) + abs(self.j) + abs(self.k)
    }
}

/// The vector `|q|^2 v + 2 (w a + u x a)` with `u` the vector part of `q`
/// and `a = u x v`.  It is the vector part of `q v conj(q)`.
pub open spec fn sandwich(q: Quat, v: Vec3) -> Vec3 {
    let u = q.vec();
    let a = u.cross(v);
    v.scale(q.norm_sq()).add(a.scale(q.w).add(u.cross(a)).scale(2))
}

/// The vector `one^2 v + 2 (w a + u x a)` with `u` the vector part of `q`
/// and `a = u x v`: the rotation of `v` by a quaternion of squared norm
/// `one^2`, scaled by `one^2`.
pub open spec fn rotate(q: Quat, v: Vec3, one: int) -> Vec3 {
    let u = q.vec();
    let a = u.cross(v);
    v.scale(one * one).add(a.scale(q.w).add(u.cross(a)).scale(2))
}

/// A dual quaternion with integer components: a rotation part
/// `w + i*I + j*J + k*K` and a dual part `we + ie*I + je*J + ke*K`, which
/// stands for `rotation + eps * dual` with `eps^2 = 0`.
pub struct DualQuat {
    pub w: int,
    pub i: int,
    pub j: int,
    pub k: int,
    pub ie: int,
    pub je: int,
    pub ke: int,
    pub we: int,
}

impl DualQuat {
    /// The rotation part.
    pub open spec fn re(self) -> Quat {
        Quat { w: self.w, i: self.i, j: self.j, k: self.k }
    }

    /// The dual part.
    pub open spec fn du(self) -> Quat {
        Quat { w: self.we, i: self.ie, j: self.je, k: self.ke }
    }

    /// The dual quaternion with rotation part `re` and dual part `du`.
    pub open spec fn from_parts(re: Quat, du: Quat) -> DualQuat {
        DualQuat {
            w: re.w,
            i: re.i,
            j: re.j,
            k: re.k,
            ie: du.i,
            je: du.j,
            ke: du.k,
            we: du.w,
        }
    }

    /// The motion that moves nothing, with `one` as the value of 1.
    pub open spec fn identity(one: int) -> DualQuat {
        DualQuat { w: one, i: 0, j: 0, k: 0, ie: 0, je: 0, ke: 0, we: 0 }
    }

    /// Component-wise sum.
    pub open spec fn add(self, o: DualQuat) -> DualQuat {
        DualQuat::from_parts(self.re().add(o.re()), self.du().add(o.du()))
    }

    /// Component-wise difference.
    pub open spec fn sub(self, o: DualQuat) -> DualQuat {
        DualQuat::from_parts(self.re().sub(o.re()), self.du().sub(o.du()))
    }

    /// Every component negated.
    pub open spec fn neg(self) -> DualQuat {
        DualQuat::from_parts(self.re().neg(), self.du().neg())
    }

    /// Every component multiplied by `s`.
    pub open spec fn scale(self, s: int) -> DualQuat {
        DualQuat::from_parts(self.re().scale(s), self.du().scale(s))
    }

    /// Product: `(r1 r2, r1 d2 + d1 r2)` in Hamilton products of the parts.
    pub open spec fn mul(self, o: DualQuat) -> DualQuat {
        DualQuat::from_parts(
            self.re().mul(o.re()),
            self.re().mul(o.du()).add(self.du().mul(o.re())),
        )
    }

    /// The conjugate that goes with lines: both vector parts negated.
    pub open spec fn conj(self) -> DualQuat {
        DualQuat::from_parts(self.re().conj(), self.du().conj())
    }

    /// The conjugate that goes with points: the vector part of the rotation
    /// part and the scalar of the dual part negated.
    pub open spec fn sconj(self) -> DualQuat {
        DualQuat::from_parts(self.re().conj(), self.du().conj().neg())
    }

    /// The dual conjugate: the dual part negated.
    pub open spec fn iconj(self) -> DualQuat {
        DualQuat::from_parts(self.re(), self.du().neg())
    }

    /// Squared norm of the rotation part.
    pub open spec fn norm_sq(self) -> int {
        self.re().norm_sq()
    }

    /// The embedding `one + eps p` of the point `p`.
    pub open spec fn point(p: Vec3, one: int) -> DualQuat {
        DualQuat::from_parts(Quat::scalar(one), Quat::pure(p))
    }

    /// The sum `w we + i ie + j je + k ke`.  It is zero for a rigid motion
    /// and for a line: the condition of Study.
    pub open spec fn study(self) -> int {
        self.w * self.we + self.i * self.ie + self.j * self.je + self.k * self.ke
    }

    /// Whether both scalars are zero, as in a line.
    pub open spec fn is_pure(self) -> bool {
        self.w == 0 && self.we == 0
    }
}

/// The vector `|m|^2 p + 2 (w a + v x a - one we v)` with `a = v x p + one d`:
/// the dual vector of the sandwich `m (one + eps p) sconj(m)`.
pub open spec fn scaled_point_image(m: DualQuat, p: Vec3, one: int) -> Vec3 {
    let v = m.re().vec();
    let a = v.cross(p).add(m.du().vec().scale(one));
    p.scale(m.norm_sq()).add(a.scale(m.w).add(v.cross(a)).sub(v.scale(one * m.we)).scale(2))
}

/// The image of the point `p` under a motion `m` of rotation scalar `w`,
/// rotation vector `v`, dual vector `d` and dual scalar `we`:
/// `one^2 p + 2 (w a + v x a - one we v)` with `a = v x p + one d`, which is
/// `one^2` times the image.
pub open spec fn point_image(m: DualQuat, p: Vec3, one: int) -> Vec3 {
    let v = m.re().vec();
    let a = v.cross(p).add(m.du().vec().scale(one));
    p.scale(one * one).add(a.scale(m.w).add(v.cross(a)).sub(v.scale(one * m.we)).scale(2))
}

} // verus!
