//! Dual quaternions over fixed-point scalars.
//!
//! One eight-component value serves as a line (both scalars zero, a unit
//! rotation vector), as the embedding of a point (`1 + eps p`), as a rigid
//! motion (a unit rotation part), or as a raw intermediate value.  The
//! algebra does not tell these roles apart.
//!
//! The moment of a line is its direction crossed with a position on it.
//! Lines are moved by the sandwich with the line conjugate, points by the
//! sandwich with the point conjugate; the two are not interchangeable.
//!
//! With this moment and these two sandwiches, lines and points answer a
//! motion in opposite senses.  The rotor `cos + sin l` about the line
//! `l = line(pos, dir)` keeps `l` where it is as a line, and as a motion of
//! points it keeps the points of the line through `-pos` along `dir`.  The
//! translator by `t` moves every point by `t` and the line `line(pos, dir)`
//! to `line(pos - t, dir)`.
use vstd::prelude::*;
use crate::algebra::{DualQuat, Quat, Vec3, point_image, rotate};
use crate::angle::Angle;
use crate::direction::Direction;
use crate::elementary::{
    atan_over, atan_over_spec, sin_cos, sin_cos_spec, sinc, sinc_spec,
};
use crate::point::Point;
use crate::quaternion::{Quaternion, WideQuat};
use crate::scalar::{
    Scalar, shown_among, shown_indices, sharp_root_exec, sum_squares, wide_mul, wide_mul4, MAX_RAW, NAN_RAW, ONE_RAW,
    ONE_SQ_RAW,
};
use crate::vector3::Vector3;

verus! {

/// A dual quaternion: the rotation part `(w, i, j, k)` and the dual part
/// `(we, ie, je, ke)`, which stand for `rotation + eps dual` with
/// `eps^2 = 0`.
#[derive(Clone, Copy, Debug, PartialEq, Eq, Structural)]
pub struct DualQuaternion {
    pub w: Scalar,
    pub i: Scalar,
    pub j: Scalar,
    pub k: Scalar,
    pub ie: Scalar,
    pub je: Scalar,
    pub ke: Scalar,
    pub we: Scalar,
}

impl View for DualQuaternion {
    type V = DualQuat;

    /// The raw values of the components.
    open spec fn view(&self) -> DualQuat {
        DualQuat {
            w: self.w.raw as int,
            i: self.i.raw as int,
            j: self.j.raw as int,
            k: self.k.raw as int,
            ie: self.ie.raw as int,
            je: self.je.raw as int,
            ke: self.ke.raw as int,
            we: self.we.raw as int,
        }
    }
}

/// The scalar 0.
pub open spec fn zero() -> Scalar {
    Scalar { raw: 0 }
}

/// The scalar 1.
pub open spec fn one() -> Scalar {
    Scalar { raw: ONE_RAW }
}

/// The vector of three zeros.
pub open spec fn zero_vector() -> Vector3 {
    Vector3 { x: zero(), y: zero(), z: zero() }
}

impl DualQuaternion {
    /// The rotation part `(w, i, j, k)`.
    pub open spec fn re(self) -> Quaternion {
        Quaternion { w: self.w, i: self.i, j: self.j, k: self.k }
    }

    /// The dual part `(we, ie, je, ke)`.
    pub open spec fn du(self) -> Quaternion {
        Quaternion { w: self.we, i: self.ie, j: self.je, k: self.ke }
    }

    /// The dual quaternion with rotation part `re` and dual part `du`.
    pub open spec fn from_parts_spec(re: Quaternion, du: Quaternion) -> DualQuaternion {
        DualQuaternion {
            w: re.w,
            i: re.i,
            j: re.j,
            k: re.k,
            ie: du.i,
            je: du.j,
            ke: du.k,
            we: du.w,
        }
    }

    /// Whether every component is finite.
    pub open spec fn is_finite(self) -> bool {
        self.re().is_finite() && self.du().is_finite()
    }

    /// The dual quaternion whose components are all non-finite.
    pub open spec fn nan() -> DualQuaternion {
        DualQuaternion::from_parts_spec(Quaternion::nan(), Quaternion::nan())
    }

    /// The motion that moves nothing: `w = 1`, every other component zero.
    pub open spec fn identity_spec() -> DualQuaternion {
        DualQuaternion::from_parts_spec(
            Quaternion::from_parts_spec(one(), zero_vector()),
            Quaternion::from_parts_spec(zero(), zero_vector()),
        )
    }

    /// The dual quaternion whose raw values are `q / 2^24`, each rounded toward zero.
    pub open spec fn rescale(q: DualQuat) -> DualQuaternion {
        DualQuaternion::from_parts_spec(Quaternion::rescale(q.re()), Quaternion::rescale(q.du()))
    }

    /// The dual quaternion whose raw values are `q / 2^48`, each rounded toward zero.
    pub open spec fn rescale2(q: DualQuat) -> DualQuaternion {
        DualQuaternion {
            w: Scalar::rescale2(q.w),
            i: Scalar::rescale2(q.i),
            j: Scalar::rescale2(q.j),
            k: Scalar::rescale2(q.k),
            ie: Scalar::rescale2(q.ie),
            je: Scalar::rescale2(q.je),
            ke: Scalar::rescale2(q.ke),
            we: Scalar::rescale2(q.we),
        }
    }

    /// Negate `i, j, k, ie, je, ke`; keep `w, we`.
    pub open spec fn conj_spec(self) -> DualQuaternion {
        DualQuaternion {
            w: self.w,
            i: self.i.neg_spec(),
            j: self.j.neg_spec(),
            k: self.k.neg_spec(),
            ie: self.ie.neg_spec(),
            je: self.je.neg_spec(),
            ke: self.ke.neg_spec(),
            we: self.we,
        }
    }

    /// Negate `i, j, k, we`; keep `w, ie, je, ke`.
    pub open spec fn sconj_spec(self) -> DualQuaternion {
        DualQuaternion {
            w: self.w,
            i: self.i.neg_spec(),
            j: self.j.neg_spec(),
            k: self.k.neg_spec(),
            ie: self.ie,
            je: self.je,
            ke: self.ke,
            we: self.we.neg_spec(),
        }
    }

    /// Negate `ie, je, ke, we`; keep `w, i, j, k`.
    pub open spec fn iconj_spec(self) -> DualQuaternion {
        DualQuaternion {
            w: self.w,
            i: self.i,
            j: self.j,
            k: self.k,
            ie: self.ie.neg_spec(),
            je: self.je.neg_spec(),
            ke: self.ke.neg_spec(),
            we: self.we.neg_spec(),
        }
    }

    /// The exact product of the raw values, rounded once per component.
    pub open spec fn product_spec(self, rhs: DualQuaternion) -> DualQuaternion {
        if self.is_finite() && rhs.is_finite() {
            DualQuaternion::rescale(self@.mul(rhs@))
        } else {
            DualQuaternion::nan()
        }
    }

    /// Every component multiplied by `s`.
    pub open spec fn scale_spec(self, s: Scalar) -> DualQuaternion {
        DualQuaternion::from_parts_spec(self.re().scale_spec(s), self.du().scale_spec(s))
    }

    /// Every component divided by `s`.
    pub open spec fn div_scalar_spec(self, s: Scalar) -> DualQuaternion {
        DualQuaternion::from_parts_spec(self.re().div_scalar_spec(s), self.du().div_scalar_spec(s))
    }

    /// Component-wise sum.
    pub open spec fn add_spec(self, rhs: DualQuaternion) -> DualQuaternion {
        DualQuaternion::from_parts_spec(self.re().add_spec(rhs.re()), self.du().add_spec(rhs.du()))
    }

    /// Component-wise difference.
    pub open spec fn sub_spec(self, rhs: DualQuaternion) -> DualQuaternion {
        DualQuaternion::from_parts_spec(self.re().sub_spec(rhs.re()), self.du().sub_spec(rhs.du()))
    }

    /// Every component negated.
    pub open spec fn neg_spec(self) -> DualQuaternion {
        DualQuaternion::from_parts_spec(self.re().neg_spec(), self.du().neg_spec())
    }

    /// Norm of the rotation part.
    pub open spec fn norm_spec(self) -> Scalar {
        self.re().norm_spec()
    }

    /// Norm of the dual part.
    pub open spec fn inorm_spec(self) -> Scalar {
        self.du().norm_spec()
    }

    /// All eight components divided by the norm of the rotation part.
    pub open spec fn normalized_spec(self) -> DualQuaternion {
        if self.re().is_finite() {
            let t = self@.norm_sq();
            DualQuaternion {
                w: self.w.over_root_spec(t),
                i: self.i.over_root_spec(t),
                j: self.j.over_root_spec(t),
                k: self.k.over_root_spec(t),
                ie: self.ie.over_root_spec(t),
                je: self.je.over_root_spec(t),
                ke: self.ke.over_root_spec(t),
                we: self.we.over_root_spec(t),
            }
        } else {
            DualQuaternion::nan()
        }
    }

    /// `1 + eps (x I + y J + z K)`.
    pub open spec fn point_spec(pos: Point) -> DualQuaternion {
        DualQuaternion::from_parts_spec(
            Quaternion::from_parts_spec(one(), zero_vector()),
            Quaternion::from_parts_spec(zero(), pos.vector()),
        )
    }

    /// The line through `pos` along `dir`: the normalized direction as
    /// rotation vector, its cross product with `pos` as dual vector, both
    /// scalars zero.
    pub open spec fn line_spec(pos: Point, dir: Direction) -> DualQuaternion {
        let d = dir.vector().normalize_spec();
        DualQuaternion::from_parts_spec(
            Quaternion::from_parts_spec(zero(), d),
            Quaternion::from_parts_spec(zero(), d.cross_spec(pos.vector())),
        )
    }

    /// The rotation by `angle` about `axis` through the origin: a zero dual part.
    pub open spec fn from_angle_axis_spec(angle: Angle, axis: Direction) -> DualQuaternion {
        DualQuaternion::from_parts_spec(
            Quaternion::from_angle_axis_spec(angle, axis.x, axis.y, axis.z),
            Quaternion::from_parts_spec(zero(), zero_vector()),
        )
    }

    /// The translation by `t`: `1 + eps t / 2`.
    pub open spec fn from_translation_spec(t: Direction) -> DualQuaternion {
        DualQuaternion::from_parts_spec(
            Quaternion::from_parts_spec(one(), zero_vector()),
            Quaternion::from_parts_spec(
                zero(),
                Vector3 {
                    x: t.x.div_int_spec(2),
                    y: t.y.div_int_spec(2),
                    z: t.z.div_int_spec(2),
                },
            ),
        )
    }

    /// The rotation about `line` by `angle`: `cos(angle / 2) + sin(angle / 2) line`.
    pub open spec fn line_rotor_spec(line: DualQuaternion, angle: Angle) -> DualQuaternion {
        let sc = sin_cos_spec(angle.radians().div_int_spec(2));
        DualQuaternion::from_parts_spec(
            Quaternion::from_parts_spec(sc.1, line.re().axis_spec().scale_spec(sc.0)),
            Quaternion::from_parts_spec(zero(), line.du().axis_spec().scale_spec(sc.0)),
        )
    }

    /// The translation by `distance` along the direction of `line`.
    pub open spec fn line_translator_spec(line: DualQuaternion, distance: Scalar) -> DualQuaternion {
        DualQuaternion::from_parts_spec(
            Quaternion::from_parts_spec(one(), zero_vector()),
            Quaternion::from_parts_spec(
                zero(),
                line.re().axis_spec().scale_spec(distance.div_int_spec(2)),
            ),
        )
    }

    /// The translation along `line` times the rotation about it.
    pub open spec fn screw_spec(line: DualQuaternion, angle: Angle, distance: Scalar) -> DualQuaternion {
        DualQuaternion::line_translator_spec(line, distance).product_spec(
            DualQuaternion::line_rotor_spec(line, angle),
        )
    }

    /// The generator of the screw about `line`: half the angle times the
    /// line, plus half the distance times the direction of the line in the
    /// dual vector.
    pub open spec fn screw_generator_spec(line: DualQuaternion, angle: Angle, distance: Scalar) -> DualQuaternion {
        let h = angle.radians().div_int_spec(2);
        let d = line.re().axis_spec();
        DualQuaternion::from_parts_spec(
            Quaternion::from_parts_spec(zero(), d.scale_spec(h)),
            Quaternion::from_parts_spec(
                zero(),
                line.du().axis_spec().scale_spec(h).add_spec(d.scale_spec(distance.div_int_spec(2))),
            ),
        )
    }

    /// `p + 2 (w a + v x a - we v)` with `a = v x p + m`, where `v` is the
    /// rotation vector and `m` the dual vector, computed exactly on the raw
    /// values and rounded once per component.
    pub open spec fn transform_point_spec(self, p: Point) -> Point {
        if self.is_finite() && p.is_finite() {
            let n = point_image(self@, p@, ONE_RAW as int);
            Point { x: Scalar::rescale2(n.x), y: Scalar::rescale2(n.y), z: Scalar::rescale2(n.z) }
        } else {
            Point::of(Vector3::nan())
        }
    }

    /// `d + 2 (w a + v x a)` with `a = v x d`: the rotation part alone acts.
    pub open spec fn transform_direction_spec(self, d: Direction) -> Direction {
        Direction::of(self.re().transform_spec(d.vector()))
    }

    /// The sandwich `a line conj(a)`, computed exactly on the raw values and
    /// rounded once per component.
    pub open spec fn transform_line_spec(self, line: DualQuaternion) -> DualQuaternion {
        if self.is_finite() && line.is_finite() {
            DualQuaternion::rescale2(self@.mul(line@).mul(self@.conj()))
        } else {
            DualQuaternion::nan()
        }
    }

    /// Exponential of a pure generator with rotation vector `v` and dual
    /// vector `m`.  With `r = |v|` and `t = v . m`:
    /// `w' = cos r`, `v' = (sin r / r) v`, `we' = -(sin r / r) t`,
    /// `m' = (sin r / r) m + ((cos r - sin r / r) / r^2) t v`.
    /// The last term is computed as `(cos r - sin r / r) (u . m) u` with the
    /// unit vector `u = v / r`, which is the same and divides by nothing
    /// small.  Where `v` is zero the result is the identity.  The two
    /// scalars of the argument are not read.
    pub open spec fn exp_spec(self) -> DualQuaternion {
        let v = self.re().axis_spec();
        let m = self.du().axis_spec();
        let r = v.norm_spec();
        if r.raw == 0 {
            DualQuaternion::identity_spec()
        } else {
            let t = v.dot_spec(m);
            let sc = sin_cos_spec(r);
            let sr = sinc_spec(r);
            let u = v.normalize_spec();
            let along = sc.1.sub_spec(sr).mul_spec(u.dot_spec(m));
            DualQuaternion::from_parts_spec(
                Quaternion::from_parts_spec(sc.1, v.scale_spec(sr)),
                Quaternion::from_parts_spec(
                    sr.mul_spec(t).neg_spec(),
                    m.scale_spec(sr).add_spec(u.scale_spec(along)),
                ),
            )
        }
    }

    /// Logarithm of a normalized motion with rotation vector `v` and dual
    /// vector `m`.  With `r = |v|`, `t = v . m`, `alpha = atan(r / w) / r`
    /// and `beta = t / r^2`: the generator has rotation vector `alpha v` and
    /// dual vector `alpha m + ((w - alpha) beta - we) v`, and both scalars
    /// zero.  `alpha` is computed as `(atan x / x) / w` with `x = r / w`, and
    /// `beta v` as `(u . m) u` with the unit vector `u = v / r`, which are
    /// the same and divide by nothing small.
    pub open spec fn log_spec(self) -> DualQuaternion {
        let v = self.re().axis_spec();
        let m = self.du().axis_spec();
        let r = v.norm_spec();
        let alpha = atan_over_spec(r.div_spec(self.w)).div_spec(self.w);
        let u = v.normalize_spec();
        let along = self.w.sub_spec(alpha).mul_spec(u.dot_spec(m));
        DualQuaternion::from_parts_spec(
            Quaternion::from_parts_spec(zero(), v.scale_spec(alpha)),
            Quaternion::from_parts_spec(
                zero(),
                m.scale_spec(alpha).add_spec(u.scale_spec(along)).sub_spec(v.scale_spec(self.we)),
            ),
        )
    }

    /// `exp(f log a)`.
    pub open spec fn power_spec(self, f: Scalar) -> DualQuaternion {
        self.log_spec().scale_spec(f).exp_spec()
    }

    /// `a (conj(a) b)^alpha`.
    pub open spec fn sclerp_spec(self, b: DualQuaternion, alpha: Scalar) -> DualQuaternion {
        self.product_spec(self.conj_spec().product_spec(b).power_spec(alpha))
    }

    /// Whether every component is finite.
    pub fn finite(&self) -> (b: bool)
        ensures
            b == self.is_finite(),
    {
        self.real_part().finite() && self.dual_part().finite()
    }

    /// The rotation part `(w, i, j, k)`.
    pub fn real_part(&self) -> (r: Quaternion)
        ensures
            r == self.re(),
    {
        Quaternion { w: self.w, i: self.i, j: self.j, k: self.k }
    }

    /// The dual part `(we, ie, je, ke)`.
    pub fn dual_part(&self) -> (r: Quaternion)
        ensures
            r == self.du(),
    {
        Quaternion { w: self.we, i: self.ie, j: self.je, k: self.ke }
    }

    /// The dual quaternion with rotation part `re` and dual part `du`.
    pub fn from_parts(re: &Quaternion, du: &Quaternion) -> (r: DualQuaternion)
        ensures
            r == DualQuaternion::from_parts_spec(*re, *du),
    {
        DualQuaternion {
            w: re.w,
            i: re.i,
            j: re.j,
            k: re.k,
            ie: du.i,
            je: du.j,
            ke: du.k,
            we: du.w,
        }
    }

    /// The dual quaternion with rotation part `q` and no dual part.
    pub fn from_quaternion(q: &Quaternion) -> (r: DualQuaternion)
        ensures
            r == DualQuaternion::from_parts_spec(*q, Quaternion::from_parts_spec(zero(), zero_vector())),
    {
        let z = Scalar { raw: 0 };
        DualQuaternion { w: q.w, i: q.i, j: q.j, k: q.k, ie: z, je: z, ke: z, we: z }
    }

    /// The dual quaternion whose components are all non-finite.
    pub fn not_finite() -> (r: DualQuaternion)
        ensures
            r == DualQuaternion::nan(),
    {
        let n = Quaternion::not_finite();
        DualQuaternion::from_parts(&n, &n)
    }

    /// The motion that moves nothing.
    pub fn identity() -> (r: DualQuaternion)
        ensures
            r == DualQuaternion::identity_spec(),
    {
        let z = Scalar { raw: 0 };
        DualQuaternion { w: Scalar { raw: ONE_RAW }, i: z, j: z, k: z, ie: z, je: z, ke: z, we: z }
    }

    /// The places of the components that are shown when the value is
    /// written as a sum, counted from zero in the order `w`, `i`, `j`, `k`, `ie`, `je`, `ke`, `we`: those
    /// whose square exceeds `2^-23`.
    pub fn shown(&self) -> (r: Vec<usize>)
        ensures
            r@.map_values(|i: usize| i as int) == shown_indices(seq![self.w, self.i, self.j, self.k, self.ie, self.je, self.ke, self.we]),
    {
        let values: Vec<Scalar> = vec![self.w, self.i, self.j, self.k, self.ie, self.je, self.ke, self.we];
        assert(values@ =~= seq![self.w, self.i, self.j, self.k, self.ie, self.je, self.ke, self.we]);
        shown_among(&values)
    }

    /// Negate everything except scalar and dual scalar: the line conjugate,
    /// which closes the sandwich of a line.
    pub fn conj(&self) -> (r: DualQuaternion)
        ensures
            r == self.conj_spec(),
    {
        DualQuaternion {
            w: self.w,
            i: self.i.neg(),
            j: self.j.neg(),
            k: self.k.neg(),
            ie: self.ie.neg(),
            je: self.je.neg(),
            ke: self.ke.neg(),
            we: self.we,
        }
    }

    /// Negate the rotation vector and the dual scalar: the point conjugate
    /// (`nconj`), which closes the sandwich of a point.
    pub fn sconj(&self) -> (r: DualQuaternion)
        ensures
            r == self.sconj_spec(),
    {
        DualQuaternion {
            w: self.w,
            i: self.i.neg(),
            j: self.j.neg(),
            k: self.k.neg(),
            ie: self.ie,
            je: self.je,
            ke: self.ke,
            we: self.we.neg(),
        }
    }

    /// Negate the dual part: the dual conjugate.
    pub fn iconj(&self) -> (r: DualQuaternion)
        ensures
            r == self.iconj_spec(),
    {
        DualQuaternion {
            w: self.w,
            i: self.i,
            j: self.j,
            k: self.k,
            ie: self.ie.neg(),
            je: self.je.neg(),
            ke: self.ke.neg(),
            we: self.we.neg(),
        }
    }

    /// The norm of the rotation part.
    pub fn norm(&self) -> (r: Scalar)
        ensures
            r == self.norm_spec(),
    {
        self.real_part().norm()
    }

    /// The norm of the dual part.
    pub fn inorm(&self) -> (r: Scalar)
        ensures
            r == self.inorm_spec(),
    {
        self.dual_part().norm()
    }

    /// Every component multiplied by `s`.
    pub fn scale(&self, s: &Scalar) -> (r: DualQuaternion)
        ensures
            r == self.scale_spec(*s),
    {
        DualQuaternion::from_parts(&self.real_part().scale(s), &self.dual_part().scale(s))
    }

    /// Every component divided by `s`.
    pub fn div_scalar(&self, s: &Scalar) -> (r: DualQuaternion)
        ensures
            r == self.div_scalar_spec(*s),
    {
        DualQuaternion::from_parts(&self.real_part().div_scalar(s), &self.dual_part().div_scalar(s))
    }

    /// All eight components divided by the norm of the rotation part.  The
    /// dual part is not made orthogonal to the rotation part again.
    pub fn normalized(&self) -> (r: DualQuaternion)
        ensures
            r == self.normalized_spec(),
    {
        if self.real_part().finite() {
            let t: i128 = sum_squares(self.w.raw, self.i.raw, self.j.raw, self.k.raw);
            if t > 0 {
                let root: i128 = sharp_root_exec(t);
                DualQuaternion {
                    w: self.w.over_root(root, Ghost(t as int)),
                    i: self.i.over_root(root, Ghost(t as int)),
                    j: self.j.over_root(root, Ghost(t as int)),
                    k: self.k.over_root(root, Ghost(t as int)),
                    ie: self.ie.over_root(root, Ghost(t as int)),
                    je: self.je.over_root(root, Ghost(t as int)),
                    ke: self.ke.over_root(root, Ghost(t as int)),
                    we: self.we.over_root(root, Ghost(t as int)),
                }
            } else {
                DualQuaternion::not_finite()
            }
        } else {
            DualQuaternion::not_finite()
        }
    }

    /// Component-wise sum.
    pub fn add(self, rhs: DualQuaternion) -> (r: DualQuaternion)
        ensures
            r == self.add_spec(rhs),
    {
        DualQuaternion::from_parts(
            &self.real_part().add(rhs.real_part()),
            &self.dual_part().add(rhs.dual_part()),
        )
    }

    /// Component-wise difference.
    pub fn sub(self, rhs: DualQuaternion) -> (r: DualQuaternion)
        ensures
            r == self.sub_spec(rhs),
    {
        DualQuaternion::from_parts(
            &self.real_part().sub(rhs.real_part()),
            &self.dual_part().sub(rhs.dual_part()),
        )
    }

    /// Every component negated.
    pub fn neg(self) -> (r: DualQuaternion)
        ensures
            r == self.neg_spec(),
    {
        DualQuaternion::from_parts(&self.real_part().neg(), &self.dual_part().neg())
    }

    /// Product `self * rhs`.
    pub fn product(&self, rhs: &DualQuaternion) -> (r: DualQuaternion)
        ensures
            r == self.product_spec(*rhs),
    {
        if self.finite() && rhs.finite() {
            let a = self.real_part();
            let b = self.dual_part();
            let c = rhs.real_part();
            let d = rhs.dual_part();
            let re = a.product_wide(&c);
            let du = a.product_wide(&d).sum(&b.product_wide(&c));
            DualQuaternion {
                w: Scalar::from_product(re.w),
                i: Scalar::from_product(re.i),
                j: Scalar::from_product(re.j),
                k: Scalar::from_product(re.k),
                ie: Scalar::from_product(du.i),
                je: Scalar::from_product(du.j),
                ke: Scalar::from_product(du.k),
                we: Scalar::from_product(du.w),
            }
        } else {
            DualQuaternion::not_finite()
        }
    }

    /// The embedding of a point.
    pub fn point(pos: &Point) -> (r: DualQuaternion)
        ensures
            r == DualQuaternion::point_spec(*pos),
    {
        let z = Scalar { raw: 0 };
        DualQuaternion {
            w: Scalar { raw: ONE_RAW },
            i: z,
            j: z,
            k: z,
            ie: pos.x,
            je: pos.y,
            ke: pos.z,
            we: z,
        }
    }

    /// The line through `pos` along `dir`, in Pluecker coordinates.  The
    /// direction is normalized here; a zero direction gives non-finite components.
    pub fn line(pos: &Point, dir: &Direction) -> (r: DualQuaternion)
        ensures
            r == DualQuaternion::line_spec(*pos, *dir),
    {
        let d = dir.to_vector().normalize();
        let m = d.cross(&pos.to_vector());
        let z = Scalar { raw: 0 };
        DualQuaternion { w: z, i: d.x, j: d.y, k: d.z, ie: m.x, je: m.y, ke: m.z, we: z }
    }

    /// The rotor: the rotation by `angle` about `axis` through the origin.
    pub fn from_angle_axis(angle: Angle, axis: &Direction) -> (r: DualQuaternion)
        ensures
            r == DualQuaternion::from_angle_axis_spec(angle, *axis),
    {
        let q = Quaternion::from_angle_axis(angle, axis.x, axis.y, axis.z);
        let z = Scalar { raw: 0 };
        DualQuaternion { w: q.w, i: q.i, j: q.j, k: q.k, ie: z, je: z, ke: z, we: z }
    }

    /// The translator: the translation by `translation`.
    pub fn from_translation(translation: &Direction) -> (r: DualQuaternion)
        ensures
            r == DualQuaternion::from_translation_spec(*translation),
    {
        let z = Scalar { raw: 0 };
        DualQuaternion {
            w: Scalar { raw: ONE_RAW },
            i: z,
            j: z,
            k: z,
            ie: translation.x.div_int(2),
            je: translation.y.div_int(2),
            ke: translation.z.div_int(2),
            we: z,
        }
    }

    /// The screw built from `line`: the rotation `cos + sin line` by `angle`
    /// and the translation by `distance` along the direction of the line,
    /// composed as translation times rotation.  It keeps `line` in place as
    /// a line; as a motion of points its axis has the opposite moment.
    pub fn screw(line: &DualQuaternion, angle: Angle, distance: Scalar) -> (r: DualQuaternion)
        ensures
            r == DualQuaternion::screw_spec(*line, angle, distance),
    {
        let sc = sin_cos(&angle.rad().div_int(2));
        let d = line.real_part().axis();
        let m = line.dual_part().axis();
        let z = Scalar { raw: 0 };
        let rotor = DualQuaternion::from_parts(
            &Quaternion::from_parts(sc.1, &d.scale(&sc.0)),
            &Quaternion::from_parts(z, &m.scale(&sc.0)),
        );
        let translator = DualQuaternion::from_parts(
            &Quaternion { w: Scalar { raw: ONE_RAW }, i: z, j: z, k: z },
            &Quaternion::from_parts(z, &d.scale(&distance.div_int(2))),
        );
        translator.product(&rotor)
    }

    /// The same screw as the exponential of its generator.
    pub fn screw_exp(line: &DualQuaternion, angle: Angle, distance: Scalar) -> (r: DualQuaternion)
        ensures
            r == DualQuaternion::screw_generator_spec(*line, angle, distance).exp_spec(),
    {
        let h = angle.rad().div_int(2);
        let d = line.real_part().axis();
        let m = line.dual_part().axis();
        let z = Scalar { raw: 0 };
        let g = DualQuaternion::from_parts(
            &Quaternion::from_parts(z, &d.scale(&h)),
            &Quaternion::from_parts(z, &m.scale(&h).add(d.scale(&distance.div_int(2)))),
        );
        g.exp()
    }

    /// The screw built from the line `line(pos, dir)`: it rotates by `angle`
    /// about the direction of the line and travels `distance` along it.  As a
    /// motion of points its axis is the line through `-pos` along `dir`: a
    /// screw of distance zero leaves the points of that line in place.
    pub fn from_line(pos: &Point, dir: &Direction, angle: Angle, distance: Scalar) -> (r:
        DualQuaternion)
        ensures
            r == DualQuaternion::screw_spec(DualQuaternion::line_spec(*pos, *dir), angle, distance),
    {
        let l = DualQuaternion::line(pos, dir);
        DualQuaternion::screw(&l, angle, distance)
    }

    /// The image of a point under a motion.
    pub fn transform_point(&self, point: &Point) -> (r: Point)
        ensures
            r == self.transform_point_spec(*point),
    {
        if self.finite() && point.to_vector().finite() {
            let v = self.real_part().axis();
            let p = point.to_vector();
            let c = v.cross_wide(&p);
            assert(ONE_RAW * self.ie.raw == self.ie.raw * ONE_RAW) by (nonlinear_arith);
            assert(ONE_RAW * self.je.raw == self.je.raw * ONE_RAW) by (nonlinear_arith);
            assert(ONE_RAW * self.ke.raw == self.ke.raw * ONE_RAW) by (nonlinear_arith);
            let a: (i128, i128, i128) = (
                c.0 + wide_mul(ONE_RAW, self.ie.raw),
                c.1 + wide_mul(ONE_RAW, self.je.raw),
                c.2 + wide_mul(ONE_RAW, self.ke.raw),
            );
            let s = v.screw_wide(self.w.raw, a);
            let owe: i128 = wide_mul(ONE_RAW, self.we.raw);
            assert(ONE_RAW * ONE_RAW == ONE_SQ_RAW);
            let x: i128 = ONE_SQ_RAW * (p.x.raw as i128) + 2 * (s.0 - wide_mul4(owe, v.x.raw));
            let y: i128 = ONE_SQ_RAW * (p.y.raw as i128) + 2 * (s.1 - wide_mul4(owe, v.y.raw));
            let z: i128 = ONE_SQ_RAW * (p.z.raw as i128) + 2 * (s.2 - wide_mul4(owe, v.z.raw));
            Point {
                x: Scalar::from_triple_product(x),
                y: Scalar::from_triple_product(y),
                z: Scalar::from_triple_product(z),
            }
        } else {
            Point::from_vector(&Vector3::not_finite())
        }
    }

    /// The image of a direction under a motion: translation does not act
    /// on free vectors.
    pub fn transform_direction(&self, direction: &Direction) -> (r: Direction)
        ensures
            r == self.transform_direction_spec(*direction),
    {
        self.real_part().transform_direction(direction)
    }

    /// The image of a line under a motion, by the sandwich with the line
    /// conjugate; the image of a line is a line.  A translator by `t` takes
    /// `line(pos, dir)` to `line(pos - t, dir)`.
    pub fn transform_line(&self, line: &DualQuaternion) -> (r: DualQuaternion)
        ensures
            r == self.transform_line_spec(*line),
    {
        if self.finite() && line.finite() {
            let a = self.real_part();
            let b = self.dual_part();
            let p = line.real_part();
            let q = line.dual_part();
            let re1 = a.product_wide(&p);
            let du1 = a.product_wide(&q).sum(&b.product_wide(&p));
            let ac = a.conj();
            let bc = b.conj();
            let re2 = re1.product4(&ac);
            let du2 = re1.product4(&bc).sum3(&du1.product8(&ac));
            DualQuaternion {
                w: Scalar::from_triple_product(re2.w),
                i: Scalar::from_triple_product(re2.i),
                j: Scalar::from_triple_product(re2.j),
                k: Scalar::from_triple_product(re2.k),
                ie: Scalar::from_triple_product(du2.i),
                je: Scalar::from_triple_product(du2.j),
                ke: Scalar::from_triple_product(du2.k),
                we: Scalar::from_triple_product(du2.w),
            }
        } else {
            DualQuaternion::not_finite()
        }
    }

    /// Exponential of a pure generator.  A generator whose rotation vector
    /// is zero gives the identity motion, never a non-finite value.
    pub fn exp(&self) -> (r: DualQuaternion)
        ensures
            r == self.exp_spec(),
            self.re().axis_spec().norm_spec().raw == 0 ==> r == DualQuaternion::identity_spec(),
    {
        let v = self.real_part().axis();
        let m = self.dual_part().axis();
        let r = v.norm();
        if r.raw == 0 {
            DualQuaternion::identity()
        } else {
            let t = v.dot(&m);
            let sc = sin_cos(&r);
            let sr = sinc(&r);
            let u = v.normalize();
            let along = sc.1.sub(sr).mul(u.dot(&m));
            DualQuaternion::from_parts(
                &Quaternion::from_parts(sc.1, &v.scale(&sr)),
                &Quaternion::from_parts(sr.mul(t).neg(), &m.scale(&sr).add(u.scale(&along))),
            )
        }
    }

    /// Logarithm of a normalized motion: the pure generator whose
    /// exponential is the motion.  Non-finite where the rotation scalar or
    /// the rotation vector is zero.
    pub fn log(&self) -> (r: DualQuaternion)
        ensures
            r == self.log_spec(),
    {
        let v = self.real_part().axis();
        let m = self.dual_part().axis();
        let r = v.norm();
        let alpha = atan_over(&r.div(self.w)).div(self.w);
        let u = v.normalize();
        let along = self.w.sub(alpha).mul(u.dot(&m));
        let z = Scalar { raw: 0 };
        DualQuaternion::from_parts(
            &Quaternion::from_parts(z, &v.scale(&alpha)),
            &Quaternion::from_parts(z, &m.scale(&alpha).add(u.scale(&along)).sub(v.scale(&self.we))),
        )
    }

    /// The power `a^f` of a normalized motion.
    pub fn power(&self, f: &Scalar) -> (r: DualQuaternion)
        ensures
            r == self.power_spec(*f),
    {
        self.log().scale(f).exp()
    }

    /// Screw-linear interpolation from `self` at `alpha = 0` to `b` at
    /// `alpha = 1`, along the screw axis between the two motions; other
    /// values of `alpha` extrapolate.
    pub fn sclerp(&self, b: &DualQuaternion, alpha: &Scalar) -> (r: DualQuaternion)
        ensures
            r == self.sclerp_spec(*b, *alpha),
    {
        self.product(&self.conj().product(b).power(alpha))
    }
}

} // verus!
