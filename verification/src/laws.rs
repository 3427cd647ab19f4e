//! Laws of the executable operations, stated on their specifications.
use vstd::prelude::*;
use crate::algebra::{DualQuat, Quat, Vec3, abs, point_image, rotate, sandwich};
use crate::algebra_laws::{
    law_dual_times_conj, law_line_image_is_pure, law_quat_norm_definite, law_quat_times_conj,
    law_rotate_length_bounds, law_rotate_preserves_norm, law_sandwich_norm,
};
use crate::angle::Angle;
use crate::direction::Direction;
use crate::elementary::{exp_spec, ln_spec, sin_cos_spec, sinc_spec};
use crate::elementary_laws::{
    law_atan_over_of_zero, law_exp_of_zero, law_sin_cos_bounded, law_sin_cos_pythagoras,
    law_sinc_bounded,
};
use crate::point::Point;
use crate::dual_quaternion::{DualQuaternion, one, zero, zero_vector};
use crate::quaternion::Quaternion;
use crate::scalar::{
    Scalar, in_range, is_isqrt, isqrt, lemma_isqrt_exists, lemma_isqrt_monotonic,
    lemma_isqrt_unique, lemma_mul_bound, lemma_square_monotonic, sharp_root, trunc_div, MAX_RAW,
    ONE_RAW, ONE_SQ_RAW,
};
use crate::vector3::Vector3;

verus! {

/// A raw value times the raw value of one, rounded, is the raw value.
pub proof fn lemma_rescale_of_scaled(x: int)
    requires
        in_range(x),
    ensures
        Scalar::rescale(ONE_RAW * x) == (Scalar { raw: x as i64 }),
        Scalar::rescale(x * ONE_RAW) == (Scalar { raw: x as i64 }),
        Scalar::rescale2(ONE_SQ_RAW * x) == (Scalar { raw: x as i64 }),
{
    assert(ONE_RAW * x == 0x100_0000 * x) by (nonlinear_arith)
        requires
            ONE_RAW == 0x100_0000,
    ;
    assert(x * ONE_RAW == 0x100_0000 * x) by (nonlinear_arith)
        requires
            ONE_RAW == 0x100_0000,
    ;
    assert(ONE_SQ_RAW * x == 0x1_0000_0000_0000 * x) by (nonlinear_arith)
        requires
            ONE_SQ_RAW == 0x1_0000_0000_0000,
    ;
    assert(trunc_div(0x100_0000 * x, 0x100_0000) == x);
    assert(trunc_div(0x1_0000_0000_0000 * x, 0x1_0000_0000_0000) == x);
}

/// The exponential of a pure generator whose rotation vector is zero is
/// the identity motion, whatever its dual vector, and never non-finite.
pub proof fn law_exp_of_zero_rotation(g: DualQuaternion)
    requires
        g.i.raw == 0,
        g.j.raw == 0,
        g.k.raw == 0,
    ensures
        g.exp_spec() == DualQuaternion::identity_spec(),
        g.exp_spec().is_finite(),
{
    let v = g.re().axis_spec();
    assert(v@.norm_sq() == 0) by (nonlinear_arith)
        requires
            v@.x == 0,
            v@.y == 0,
            v@.z == 0,
            v@.norm_sq() == v@.x * v@.x + v@.y * v@.y + v@.z * v@.z,
    ;
    lemma_isqrt_unique(0, 0);
}

/// The exponential of a quaternion without vector part is the exponential
/// of its scalar, with a zero vector part.
pub proof fn law_exp_of_scalar(q: Quaternion)
    requires
        q.is_scalar(),
    ensures
        q.exp_spec() == Quaternion::from_parts_spec(exp_spec(q.w), zero_vector()),
{
    let v = q.axis_spec();
    assert(v@.norm_sq() == 0) by (nonlinear_arith)
        requires
            v@.x == 0,
            v@.y == 0,
            v@.z == 0,
            v@.norm_sq() == v@.x * v@.x + v@.y * v@.y + v@.z * v@.z,
    ;
    lemma_isqrt_unique(0, 0);
}

/// The logarithm is not finite on its branch cut: at the zero quaternion
/// and at every quaternion without vector part whose scalar is negative.
pub proof fn law_log_on_branch_cut(q: Quaternion)
    requires
        q.is_scalar(),
        q.w.raw <= 0,
    ensures
        !q.log_spec().w.is_finite(),
        !q.log_spec().is_finite(),
{
    let v = q.axis_spec();
    assert(v@.norm_sq() == 0) by (nonlinear_arith)
        requires
            v@.x == 0,
            v@.y == 0,
            v@.z == 0,
            v@.norm_sq() == v@.x * v@.x + v@.y * v@.y + v@.z * v@.z,
    ;
    lemma_isqrt_unique(0, 0);
}

/// The logarithm of a motion is not finite at a half turn, where the
/// rotation scalar is zero.
pub proof fn law_log_at_half_turn(a: DualQuaternion)
    requires
        a.w.raw == 0,
    ensures
        !a.log_spec().is_finite(),
{
}

/// Whether the raw value of a finite scalar is at most `bound` in magnitude.
pub open spec fn within(a: Scalar, bound: int) -> bool {
    a.is_finite() && -bound <= a.raw <= bound
}

/// Whether every component of a vector is at most `bound` in magnitude.
pub open spec fn vector_within(v: Vector3, bound: int) -> bool {
    within(v.x, bound) && within(v.y, bound) && within(v.z, bound)
}

/// The product of two bounded scalars is bounded by the product of the
/// bounds.
pub proof fn lemma_product_within(a: Scalar, b: Scalar, x: int, y: int, z: int)
    requires
        within(a, x),
        within(b, y),
        x * y <= z * ONE_RAW,
        0 <= z <= MAX_RAW,
    ensures
        within(a.mul_spec(b), z),
{
    lemma_mul_bound(a.raw as int, b.raw as int, x, y);
    let m = a.raw * b.raw;
    assert(z * ONE_RAW == z * 0x100_0000) by (nonlinear_arith)
        requires
            ONE_RAW == 0x100_0000,
    ;
    assert(-z <= trunc_div(m, 0x100_0000) <= z);
}

/// The dot product of two bounded vectors is bounded by three times the
/// product of the bounds.
pub proof fn lemma_dot_within(a: Vector3, b: Vector3, x: int, y: int, z: int)
    requires
        vector_within(a, x),
        vector_within(b, y),
        3 * (x * y) <= z * ONE_RAW,
        0 <= z <= MAX_RAW,
    ensures
        within(a.dot_spec(b), z),
{
    lemma_mul_bound(a.x.raw as int, b.x.raw as int, x, y);
    lemma_mul_bound(a.y.raw as int, b.y.raw as int, x, y);
    lemma_mul_bound(a.z.raw as int, b.z.raw as int, x, y);
    let m = a@.dot(b@);
    assert(z * ONE_RAW == z * 0x100_0000) by (nonlinear_arith)
        requires
            ONE_RAW == 0x100_0000,
    ;
    assert(-z <= trunc_div(m, 0x100_0000) <= z);
}

/// The exponential of a generator is never non-finite while its rotation
/// vector and its dual vector are finite and have no component beyond 64
/// in magnitude, however short the rotation vector is.
pub proof fn law_exp_is_finite(g: DualQuaternion)
    requires
        vector_within(g.re().axis_spec(), 0x4000_0000),
        vector_within(g.du().axis_spec(), 0x4000_0000),
    ensures
        g.exp_spec().is_finite(),
{
    let b = 0x4000_0000int;
    let v = g.re().axis_spec();
    let m = g.du().axis_spec();
    let n = v@.norm_sq();
    assert(MAX_RAW == 0x100_0000_0000 && ONE_RAW == 0x100_0000);
    lemma_mul_bound(v.x.raw as int, v.x.raw as int, b, b);
    lemma_mul_bound(v.y.raw as int, v.y.raw as int, b, b);
    lemma_mul_bound(v.z.raw as int, v.z.raw as int, b, b);
    assert(b * b == 0x1000_0000_0000_0000);
    assert(v.x.raw * v.x.raw >= 0 && v.y.raw * v.y.raw >= 0 && v.z.raw * v.z.raw >= 0)
        by (nonlinear_arith);
    assert(0 <= n <= 3 * 0x1000_0000_0000_0000);
    assert((0x8000_0000int + 1) * (0x8000_0000int + 1) > 3 * 0x1000_0000_0000_0000);
    lemma_isqrt_below(n, 0x8000_0000);
    lemma_isqrt_exists(n);
    let r = v.norm_spec();
    assert(r.is_finite());
    if r.raw != 0 {
        if n == 0 {
            lemma_isqrt_unique(0, 0);
        }
        law_normalize_unit_length(v);
        let u = v.normalize_spec();
        let one = 0x100_0000int;
        assert(vector_within(u, one + 4)) by {
            let q = u@.norm_sq();
            assert(q == u@.x * u@.x + u@.y * u@.y + u@.z * u@.z);
            assert(-(one + 4) <= u@.x <= one + 4) by (nonlinear_arith)
                requires
                    u@.x * u@.x + u@.y * u@.y + u@.z * u@.z < (one + 4) * (one + 4),
                    one > 0,
            ;
            assert(-(one + 4) <= u@.y <= one + 4) by (nonlinear_arith)
                requires
                    u@.x * u@.x + u@.y * u@.y + u@.z * u@.z < (one + 4) * (one + 4),
                    one > 0,
            ;
            assert(-(one + 4) <= u@.z <= one + 4) by (nonlinear_arith)
                requires
                    u@.x * u@.x + u@.y * u@.y + u@.z * u@.z < (one + 4) * (one + 4),
                    one > 0,
            ;
        }
        law_sin_cos_bounded(r);
        law_sinc_bounded(r);
        let sc = sin_cos_spec(r);
        let sr = sinc_spec(r);
        assert(within(sr, 2 * one));
        // rotation part
        assert((2 * one) * b == 0x8000_0000 * one) by (nonlinear_arith)
            requires
                b == 0x4000_0000,
        ;
        lemma_product_within(v.x, sr, b, 2 * one, 0x8000_0000);
        lemma_product_within(v.y, sr, b, 2 * one, 0x8000_0000);
        lemma_product_within(v.z, sr, b, 2 * one, 0x8000_0000);
        // dual scalar
        let t = v.dot_spec(m);
        assert(3 * (b * b) == 0x30_0000_0000 * one);
        lemma_dot_within(v, m, b, b, 0x30_0000_0000);
        assert((2 * one) * 0x30_0000_0000 == 0x60_0000_0000 * one) by (nonlinear_arith);
        lemma_product_within(sr, t, 2 * one, 0x30_0000_0000, 0x60_0000_0000);
        // dual vector
        assert(b * (2 * one) == 0x8000_0000 * one) by (nonlinear_arith)
            requires
                b == 0x4000_0000,
        ;
        lemma_product_within(m.x, sr, b, 2 * one, 0x8000_0000);
        lemma_product_within(m.y, sr, b, 2 * one, 0x8000_0000);
        lemma_product_within(m.z, sr, b, 2 * one, 0x8000_0000);
        assert(3 * ((one + 4) * b) <= 0x1_0000_0000 * one) by (nonlinear_arith)
            requires
                b == 0x4000_0000,
                one == 0x100_0000,
        ;
        lemma_dot_within(u, m, one + 4, b, 0x1_0000_0000);
        let d = sc.1.sub_spec(sr);
        assert(within(d, 3 * one));
        assert((3 * one) * 0x1_0000_0000 == 0x3_0000_0000 * one) by (nonlinear_arith);
        lemma_product_within(d, u.dot_spec(m), 3 * one, 0x1_0000_0000, 0x3_0000_0000);
        let along = d.mul_spec(u.dot_spec(m));
        assert((one + 4) * 0x3_0000_0000 <= 0x4_0000_0000 * one) by (nonlinear_arith)
            requires
                one == 0x100_0000,
        ;
        lemma_product_within(u.x, along, one + 4, 0x3_0000_0000, 0x4_0000_0000);
        lemma_product_within(u.y, along, one + 4, 0x3_0000_0000, 0x4_0000_0000);
        lemma_product_within(u.z, along, one + 4, 0x3_0000_0000, 0x4_0000_0000);
    }
}

/// The identity motion leaves every finite line where it is.
pub proof fn law_identity_fixes_lines(line: DualQuaternion)
    requires
        line.is_finite(),
    ensures
        DualQuaternion::identity_spec().transform_line_spec(line) == line,
{
    let e = DualQuaternion::identity_spec();
    let s = e@.mul(line@).mul(e@.conj());
    lemma_identity_sandwich(line@);
    lemma_rescale_of_scaled(line.w.raw as int);
    lemma_rescale_of_scaled(line.i.raw as int);
    lemma_rescale_of_scaled(line.j.raw as int);
    lemma_rescale_of_scaled(line.k.raw as int);
    lemma_rescale_of_scaled(line.ie.raw as int);
    lemma_rescale_of_scaled(line.je.raw as int);
    lemma_rescale_of_scaled(line.ke.raw as int);
    lemma_rescale_of_scaled(line.we.raw as int);
}

/// The sandwich of a dual quaternion between the identity and its
/// conjugate multiplies every component by `2^48`.
pub proof fn lemma_identity_sandwich(x: DualQuat)
    ensures
        DualQuat::identity(ONE_RAW as int).mul(x).mul(DualQuat::identity(ONE_RAW as int).conj())
            == x.scale(ONE_SQ_RAW as int),
{
    let e = DualQuat::identity(ONE_RAW as int);
    let l = e.mul(x).mul(e.conj());
    let r = x.scale(ONE_SQ_RAW as int);
    assert(l.w == r.w && l.i == r.i && l.j == r.j && l.k == r.k && l.ie == r.ie && l.je == r.je
        && l.ke == r.ke && l.we == r.we) by (nonlinear_arith)
        requires
            l == DualQuat::identity(0x100_0000).mul(x).mul(DualQuat::identity(0x100_0000).conj()),
            r == x.scale(0x1_0000_0000_0000),
    ;
}

/// A finite dual quaternion times the identity motion is itself.
pub proof fn law_product_with_identity(a: DualQuaternion)
    requires
        a.is_finite(),
    ensures
        a.product_spec(DualQuaternion::identity_spec()) == a,
        DualQuaternion::identity_spec().product_spec(a) == a,
{
    let e = DualQuat::identity(ONE_RAW as int);
    let x = a@;
    let l = x.mul(e);
    let m = e.mul(x);
    let r = x.scale(ONE_RAW as int);
    assert(l.w == r.w && l.i == r.i && l.j == r.j && l.k == r.k && l.ie == r.ie && l.je == r.je
        && l.ke == r.ke && l.we == r.we) by (nonlinear_arith)
        requires
            l == x.mul(DualQuat::identity(0x100_0000)),
            r == x.scale(0x100_0000),
    ;
    assert(m.w == r.w && m.i == r.i && m.j == r.j && m.k == r.k && m.ie == r.ie && m.je == r.je
        && m.ke == r.ke && m.we == r.we) by (nonlinear_arith)
        requires
            m == DualQuat::identity(0x100_0000).mul(x),
            r == x.scale(0x100_0000),
    ;
    lemma_rescale_of_scaled(a.w.raw as int);
    lemma_rescale_of_scaled(a.i.raw as int);
    lemma_rescale_of_scaled(a.j.raw as int);
    lemma_rescale_of_scaled(a.k.raw as int);
    lemma_rescale_of_scaled(a.ie.raw as int);
    lemma_rescale_of_scaled(a.je.raw as int);
    lemma_rescale_of_scaled(a.ke.raw as int);
    lemma_rescale_of_scaled(a.we.raw as int);
}

/// The power zero of a motion is the identity motion, wherever the
/// rotation vector of its logarithm is finite: everywhere but at and next
/// to a half turn, where the rotation scalar is zero.
pub proof fn law_power_zero(a: DualQuaternion)
    requires
        a.log_spec().re().axis_spec().is_finite(),
    ensures
        a.power_spec(zero()) == DualQuaternion::identity_spec(),
{
    let g = a.log_spec().scale_spec(zero());
    assert(trunc_div(0, ONE_RAW as int) == 0);
    assert(g.i.raw == 0 && g.j.raw == 0 && g.k.raw == 0) by {
        assert(a.log_spec().i.raw * 0 == 0);
        assert(a.log_spec().j.raw * 0 == 0);
        assert(a.log_spec().k.raw * 0 == 0);
    }
    law_exp_of_zero_rotation(g);
}

/// The power of a motion without rotation vector is the identity motion,
/// whatever the exponent, wherever the rotation vector of its logarithm is
/// finite.  The exponential takes every generator without rotation to the
/// identity, so that the powers of a translation do not move along it.
pub proof fn law_power_without_rotation(a: DualQuaternion, f: Scalar)
    requires
        a.i.raw == 0,
        a.j.raw == 0,
        a.k.raw == 0,
        f.is_finite(),
        a.log_spec().re().axis_spec().is_finite(),
    ensures
        a.power_spec(f) == DualQuaternion::identity_spec(),
{
    let l = a.log_spec();
    let g = l.scale_spec(f);
    assert(trunc_div(0, ONE_RAW as int) == 0);
    assert(l.i.raw == 0 && l.j.raw == 0 && l.k.raw == 0) by {
        assert(forall|x: int| #[trigger] (0 * x) == 0);
    }
    assert(g.i.raw == 0 && g.j.raw == 0 && g.k.raw == 0) by {
        assert(0 * f.raw == 0);
    }
    law_exp_of_zero_rotation(g);
}

/// Between two motions that differ by a translation alone, screw-linear
/// interpolation stays at the first motion for every parameter.
pub proof fn law_sclerp_without_rotation(a: DualQuaternion, b: DualQuaternion, alpha: Scalar)
    requires
        a.is_finite(),
        alpha.is_finite(),
        a.conj_spec().product_spec(b).re().axis_spec() == zero_vector(),
        a.conj_spec().product_spec(b).log_spec().re().axis_spec().is_finite(),
    ensures
        a.sclerp_spec(b, alpha) == a,
{
    law_power_without_rotation(a.conj_spec().product_spec(b), alpha);
    law_product_with_identity(a);
}

/// Screw-linear interpolation from a motion to itself stays there, at
/// both ends and everywhere else: `sclerp(a, a, alpha) == a` for every
/// finite `alpha` and every finite `a` whose norm lies between `2^-8` and
/// `2^8`.
pub proof fn law_sclerp_to_itself(a: DualQuaternion, alpha: Scalar)
    requires
        a.is_finite(),
        alpha.is_finite(),
        0x1_0000_0000 <= a@.norm_sq() <= 0x1_0000_0000_0000_0000,
    ensures
        a.sclerp_spec(a, alpha) == a,
{
    law_motion_times_conj(a);
    law_atan_over_of_zero();
    let c = a.conj_spec().product_spec(a);
    let n = a@.norm_sq();
    let w = trunc_div(n, 0x100_0000);
    assert(ONE_RAW == 0x100_0000 && MAX_RAW == 0x100_0000_0000);
    assert(0x100 <= w <= 0x100_0000_0000);
    assert(c.w == Scalar::of(w));
    let v = c.re().axis_spec();
    assert(v == zero_vector());
    assert(v@.norm_sq() == 0) by (nonlinear_arith)
        requires
            v@.x == 0,
            v@.y == 0,
            v@.z == 0,
            v@.norm_sq() == v@.x * v@.x + v@.y * v@.y + v@.z * v@.z,
    ;
    lemma_isqrt_unique(0, 0);
    let r = v.norm_spec();
    assert(r.raw == 0);
    assert(0int / w == 0) by (nonlinear_arith)
        requires
            w > 0,
    ;
    assert(r.div_spec(c.w) == zero());
    let q = 0x1_0000_0000_0000int / w;
    assert(0 <= q <= 0x100_0000_0000) by (nonlinear_arith)
        requires
            q == 0x1_0000_0000_0000int / w,
            w >= 0x100,
    ;
    assert(0x100_0000int * 0x100_0000int == 0x1_0000_0000_0000int);
    let s = one().div_spec(c.w);
    assert(s.is_finite());
    assert(forall|x: int| #[trigger] (0 * x) == 0);
    assert(trunc_div(0, 0x100_0000) == 0);
    assert(c.log_spec().re().axis_spec() == zero_vector());
    law_sclerp_without_rotation(a, a, alpha);
}

/// Screw-linear interpolation starts at its first motion:
/// `sclerp(a, b, 0) == a` for every finite `a`, wherever the rotation
/// vector of the logarithm of `conj(a) b` is finite.
pub proof fn law_sclerp_at_zero(a: DualQuaternion, b: DualQuaternion)
    requires
        a.is_finite(),
        a.conj_spec().product_spec(b).log_spec().re().axis_spec().is_finite(),
    ensures
        a.sclerp_spec(b, zero()) == a,
{
    law_power_zero(a.conj_spec().product_spec(b));
    law_product_with_identity(a);
}

/// A dual quaternion times its line conjugate, in either order, has no
/// vector part: its scalar is the squared norm and its dual scalar twice
/// the sum of the condition of Study, each rounded once.  For a rigid
/// motion of squared norm exactly one it is the identity motion, so that
/// the line conjugate of such a motion is its inverse.
pub proof fn law_motion_times_conj(a: DualQuaternion)
    requires
        a.is_finite(),
    ensures
        a.product_spec(a.conj_spec()) == DualQuaternion::from_parts_spec(
            Quaternion::from_parts_spec(Scalar::rescale(a@.norm_sq()), zero_vector()),
            Quaternion::from_parts_spec(Scalar::rescale(2 * a@.study()), zero_vector()),
        ),
        a.conj_spec().product_spec(a) == a.product_spec(a.conj_spec()),
        a@.norm_sq() == ONE_SQ_RAW && a@.study() == 0 ==> a.product_spec(a.conj_spec())
            == DualQuaternion::identity_spec(),
{
    law_dual_times_conj(a@);
    assert(a.conj_spec()@ == a@.conj());
    assert(trunc_div(0, ONE_RAW as int) == 0);
    assert(trunc_div(0x1_0000_0000_0000, 0x100_0000) == 0x100_0000);
}

/// A quaternion times its conjugate has no vector part, and its scalar
/// part is the squared norm, rounded once.
pub proof fn law_product_with_conj(a: Quaternion)
    requires
        a.is_finite(),
    ensures
        a.product_spec(a.conj_spec()) == (Quaternion {
            w: Scalar::rescale(a@.norm_sq()),
            i: zero(),
            j: zero(),
            k: zero(),
        }),
        a.conj_spec().product_spec(a) == a.product_spec(a.conj_spec()),
{
    law_quat_times_conj(a@);
    assert(a.conj_spec()@ == a@.conj());
    assert(trunc_div(0, ONE_RAW as int) == 0);
}

/// Linear interpolation reaches both ends exactly: `lerp(a, b, 0) == a` and
/// `lerp(a, b, 1) == b`, for finite `a` and `b` whose difference is finite.
pub proof fn law_lerp_endpoints(a: Quaternion, b: Quaternion)
    requires
        a.is_finite(),
        b.is_finite(),
        b.sub_spec(a).is_finite(),
    ensures
        a.lerp_spec(b, zero()) == a,
        a.lerp_spec(b, one()) == b,
{
    let d = b.sub_spec(a);
    assert(trunc_div(0, ONE_RAW as int) == 0);
    assert(d.w.raw * 0 == 0 && d.i.raw * 0 == 0 && d.j.raw * 0 == 0 && d.k.raw * 0 == 0);
    lemma_rescale_of_scaled(d.w.raw as int);
    lemma_rescale_of_scaled(d.i.raw as int);
    lemma_rescale_of_scaled(d.j.raw as int);
    lemma_rescale_of_scaled(d.k.raw as int);
}

/// The power zero of a quaternion whose logarithm is finite is one.
pub proof fn law_quaternion_power_zero(q: Quaternion)
    requires
        q.log_spec().is_finite(),
    ensures
        q.power_spec(zero()) == Quaternion::from_parts_spec(one(), zero_vector()),
{
    law_exp_of_zero();
    assert(trunc_div(0, ONE_RAW as int) == 0);
    if q.is_scalar() {
        assert(q.axis_spec()@.norm_sq() == 0) by (nonlinear_arith)
            requires
                q.axis_spec()@.x == 0,
                q.axis_spec()@.y == 0,
                q.axis_spec()@.z == 0,
                q.axis_spec()@.norm_sq() == q.axis_spec()@.x * q.axis_spec()@.x + q.axis_spec()@.y
                    * q.axis_spec()@.y + q.axis_spec()@.z * q.axis_spec()@.z,
        ;
        lemma_isqrt_unique(0, 0);
        assert(q.log_spec().w == ln_spec(q.w));
        assert(ln_spec(q.w).raw * 0 == 0);
    } else {
        let l = q.log_spec();
        let g = l.scale_spec(zero());
        assert(l.w.raw * 0 == 0 && l.i.raw * 0 == 0 && l.j.raw * 0 == 0 && l.k.raw * 0 == 0);
        assert(g == Quaternion::from_parts_spec(zero(), zero_vector()));
        assert(g.axis_spec()@.norm_sq() == 0) by (nonlinear_arith)
            requires
                g.axis_spec()@.x == 0,
                g.axis_spec()@.y == 0,
                g.axis_spec()@.z == 0,
                g.axis_spec()@.norm_sq() == g.axis_spec()@.x * g.axis_spec()@.x + g.axis_spec()@.y
                    * g.axis_spec()@.y + g.axis_spec()@.z * g.axis_spec()@.z,
        ;
        lemma_isqrt_unique(0, 0);
    }
}

/// The conjugate of the conjugate of a finite quaternion is the
/// quaternion, and so for the three conjugates of a dual quaternion.
pub proof fn law_conj_involution(a: Quaternion, b: DualQuaternion)
    requires
        a.is_finite(),
        b.is_finite(),
    ensures
        a.conj_spec().conj_spec() == a,
        b.conj_spec().conj_spec() == b,
        b.sconj_spec().sconj_spec() == b,
        b.iconj_spec().iconj_spec() == b,
        b.conj_spec().iconj_spec() == b.sconj_spec(),
{
}

/// The norm of a finite quaternion is zero only for the zero quaternion.
pub proof fn law_norm_zero_only_for_zero(a: Quaternion)
    requires
        a.is_finite(),
    ensures
        a.norm_spec().raw == 0 <==> a@ == Quat::scalar(0),
{
    law_quat_norm_definite(a@);
    let n = a@.norm_sq();
    lemma_isqrt_exists(n);
    let r = isqrt(n);
    if n == 0 {
        lemma_isqrt_unique(0, 0);
    } else {
        if r == 0 {
            assert((r + 1) * (r + 1) == 1) by (nonlinear_arith)
                requires
                    r == 0,
            ;
            assert(n < 1);
        }
        if !in_range(r) {
            assert(Scalar::of(r).raw != 0);
        }
    }
}

/// The image of a line is a line: where the two scalars of `line` are zero,
/// so are those of its image under any finite `a`.
pub proof fn law_line_image_is_line(a: DualQuaternion, line: DualQuaternion)
    requires
        a.is_finite(),
        line.is_finite(),
        line.w.raw == 0,
        line.we.raw == 0,
    ensures
        a.transform_line_spec(line).w.raw == 0,
        a.transform_line_spec(line).we.raw == 0,
{
    law_line_image_is_pure(a@, line@);
    assert(trunc_div(0, ONE_SQ_RAW as int) == 0);
}

/// The identity motion leaves every finite point and every finite
/// direction where it is.
pub proof fn law_identity_fixes_points(p: Point, d: Direction)
    requires
        p.is_finite(),
        d.is_finite(),
    ensures
        DualQuaternion::identity_spec().transform_point_spec(p) == p,
        DualQuaternion::identity_spec().transform_direction_spec(d) == d,
{
    let e = DualQuaternion::identity_spec();
    let n = point_image(e@, p@, ONE_RAW as int);
    let m = rotate(e.re()@, d@, ONE_RAW as int);
    assert(ONE_RAW * ONE_RAW == ONE_SQ_RAW);
    assert(n.x == ONE_SQ_RAW * p@.x && n.y == ONE_SQ_RAW * p@.y && n.z == ONE_SQ_RAW * p@.z)
        by (nonlinear_arith)
        requires
            n == point_image(DualQuat::identity(0x100_0000), p@, 0x100_0000),
            ONE_SQ_RAW == 0x1_0000_0000_0000,
    ;
    assert(m.x == ONE_SQ_RAW * d@.x && m.y == ONE_SQ_RAW * d@.y && m.z == ONE_SQ_RAW * d@.z)
        by (nonlinear_arith)
        requires
            m == rotate(Quat::scalar(0x100_0000), d@, 0x100_0000),
            ONE_SQ_RAW == 0x1_0000_0000_0000,
    ;
    lemma_rescale_of_scaled(p.x.raw as int);
    lemma_rescale_of_scaled(p.y.raw as int);
    lemma_rescale_of_scaled(p.z.raw as int);
    lemma_rescale_of_scaled(d.x.raw as int);
    lemma_rescale_of_scaled(d.y.raw as int);
    lemma_rescale_of_scaled(d.z.raw as int);
}

/// The square of a number that was divided by `2^48` and rounded toward
/// zero, against the square of the number: `2^96 r^2 <= n^2 < 2^96 (|r| + 1)^2`.
pub proof fn lemma_trunc_square_bounds(n: int, r: int)
    requires
        r == trunc_div(n, 0x1_0000_0000_0000),
    ensures
        0x1_0000_0000_0000_0000_0000_0000 * (r * r) <= n * n,
        n * n < 0x1_0000_0000_0000_0000_0000_0000 * (r * r + 2 * abs(r) + 1),
{
    let d = 0x1_0000_0000_0000int;
    let a = abs(r);
    let m = abs(n);
    assert(d * a <= m < d * a + d);
    lemma_square_monotonic(d * a, m);
    lemma_square_monotonic(m, d * a + d - 1);
    assert(m * m == n * n) by (nonlinear_arith)
        requires
            m == n || m == -n,
    ;
    assert(a * a == r * r) by (nonlinear_arith)
        requires
            a == r || a == -r,
    ;
    assert((d * a) * (d * a) == 0x1_0000_0000_0000_0000_0000_0000 * (a * a)) by (nonlinear_arith)
        requires
            d == 0x1_0000_0000_0000,
    ;
    assert((d * a + d - 1) * (d * a + d - 1) < 0x1_0000_0000_0000_0000_0000_0000 * (a * a + 2 * a
        + 1)) by (nonlinear_arith)
        requires
            d == 0x1_0000_0000_0000,
            a >= 0,
    ;
}

/// The square of a quotient `r` of `y` by a positive `n`, rounded toward
/// zero, against the square of `y`: `n^2 r^2 <= y^2 < n^2 (|r| + 1)^2`.
pub proof fn lemma_quotient_square_bounds(y: int, n: int, r: int)
    requires
        n > 0,
        r == trunc_div(y, n),
    ensures
        n * n * (r * r) <= y * y,
        y * y < n * n * (r * r + 2 * abs(r) + 1),
{
    let a = abs(r);
    let m = abs(y);
    assert(n * (m / n) <= m < n * (m / n) + n) by (nonlinear_arith)
        requires
            n > 0,
            m >= 0,
    ;
    assert(a == m / n);
    lemma_square_monotonic(n * a, m);
    lemma_square_monotonic(m, n * a + n - 1);
    assert(m * m == y * y) by (nonlinear_arith)
        requires
            m == y || m == -y,
    ;
    assert(a * a == r * r) by (nonlinear_arith)
        requires
            a == r || a == -r,
    ;
    assert((n * a) * (n * a) == n * n * (a * a)) by (nonlinear_arith);
    assert((n * a + n - 1) * (n * a + n - 1) < n * n * (a * a + 2 * a + 1)) by (nonlinear_arith)
        requires
            n >= 1,
            a >= 0,
    ;
}

/// A common positive factor cancels from a strict inequality.
pub proof fn lemma_cancel_factor(k: int, a: int, b: int)
    by (nonlinear_arith)
    requires
        k > 0,
        k * a < k * b,
    ensures
        a < b,
{
}

/// The sharp root of a positive number is the integer square root of the
/// number times `2^44`, and it is at least `2^22`.
pub proof fn lemma_sharp_root(t: int)
    requires
        t > 0,
    ensures
        is_isqrt(t * 0x1000_0000_0000, sharp_root(t)),
        sharp_root(t) >= 0x40_0000,
{
    lemma_isqrt_exists(t * 0x1000_0000_0000);
    assert(is_isqrt(0x1000_0000_0000, 0x40_0000)) by (nonlinear_arith);
    lemma_isqrt_unique(0x1000_0000_0000, 0x40_0000);
    lemma_isqrt_monotonic(0x1000_0000_0000, t * 0x1000_0000_0000);
}

/// One component `x` of a tuple with the sum of squares `t`, divided by the
/// sharp root `n` of `t`: the quotient `q` of `2^46 x` by `n` obeys
/// `n^2 q^2 <= 2^92 x^2 < n^2 (|q| + 1)^2`.
pub proof fn lemma_sharp_quotient(x: int, t: int, q: int)
    requires
        t > 0,
        q == trunc_div(x * 0x4000_0000_0000, sharp_root(t)),
    ensures
        sharp_root(t) * sharp_root(t) * (q * q) <= 0x1000_0000_0000_0000_0000_0000 * (x * x),
        0x1000_0000_0000_0000_0000_0000 * (x * x) < sharp_root(t) * sharp_root(t) * (q * q + 2
            * abs(q) + 1),
{
    lemma_sharp_root(t);
    lemma_quotient_square_bounds(x * 0x4000_0000_0000, sharp_root(t), q);
    assert((x * 0x4000_0000_0000) * (x * 0x4000_0000_0000) == 0x1000_0000_0000_0000_0000_0000 * (x
        * x)) by (nonlinear_arith);
}

/// A tuple of four integers divided by its exact length.  Where `q` holds
/// the quotients of the components of `x` by the sharp root of the sum of
/// squares of `x`, the squared length of `q` is one within rounding:
/// `2^48 < |q|^2 + 2 |q|_1 + 4` and `|q|^2 < (2^24 + 4)^2`, however short
/// or long `x` is.
pub proof fn lemma_sharp_normalized(x: Quat, q: Quat)
    requires
        x.norm_sq() > 0,
        q.w == trunc_div(x.w * 0x4000_0000_0000, sharp_root(x.norm_sq())),
        q.i == trunc_div(x.i * 0x4000_0000_0000, sharp_root(x.norm_sq())),
        q.j == trunc_div(x.j * 0x4000_0000_0000, sharp_root(x.norm_sq())),
        q.k == trunc_div(x.k * 0x4000_0000_0000, sharp_root(x.norm_sq())),
    ensures
        0x1_0000_0000_0000 < q.norm_sq() + 2 * q.norm_one() + 4,
        0 <= q.norm_sq() < (0x100_0000 + 4) * (0x100_0000 + 4),
        -(0x100_0000 + 3) <= q.w <= 0x100_0000 + 3,
        -(0x100_0000 + 3) <= q.i <= 0x100_0000 + 3,
        -(0x100_0000 + 3) <= q.j <= 0x100_0000 + 3,
        -(0x100_0000 + 3) <= q.k <= 0x100_0000 + 3,
{
    let t = x.norm_sq();
    let n = sharp_root(t);
    let one = 0x100_0000int;
    let sq = 0x1_0000_0000_0000int;
    let big = 0x1000_0000_0000_0000_0000_0000int;
    lemma_sharp_root(t);
    lemma_sharp_quotient(x.w, t, q.w);
    lemma_sharp_quotient(x.i, t, q.i);
    lemma_sharp_quotient(x.j, t, q.j);
    lemma_sharp_quotient(x.k, t, q.k);
    let r = q.norm_sq();
    let nn = n * n;
    assert(nn > 0) by (nonlinear_arith)
        requires
            nn == n * n,
            n > 0,
    ;
    assert(nn * r == nn * (q.w * q.w) + nn * (q.i * q.i) + nn * (q.j * q.j) + nn * (q.k * q.k))
        by (nonlinear_arith)
        requires
            r == q.w * q.w + q.i * q.i + q.j * q.j + q.k * q.k,
    ;
    assert(big * t == big * (x.w * x.w) + big * (x.i * x.i) + big * (x.j * x.j) + big * (x.k
        * x.k)) by (nonlinear_arith)
        requires
            t == x.w * x.w + x.i * x.i + x.j * x.j + x.k * x.k,
    ;
    // n^2 |q|^2 <= 2^92 t < n^2 (|q|^2 + 2 |q|_1 + 4)
    let up = r + 2 * q.norm_one() + 4;
    assert(nn * up == nn * (q.w * q.w + 2 * abs(q.w) + 1) + nn * (q.i * q.i + 2 * abs(q.i) + 1)
        + nn * (q.j * q.j + 2 * abs(q.j) + 1) + nn * (q.k * q.k + 2 * abs(q.k) + 1))
        by (nonlinear_arith)
        requires
            up == (q.w * q.w + 2 * abs(q.w) + 1) + (q.i * q.i + 2 * abs(q.i) + 1) + (q.j * q.j + 2
                * abs(q.j) + 1) + (q.k * q.k + 2 * abs(q.k) + 1),
    ;
    assert(nn * r <= big * t < nn * up);
    // 2^48 n^2 <= 2^92 t < 2^48 (n + 1)^2
    assert(big * t == sq * (t * 0x1000_0000_0000)) by (nonlinear_arith)
        requires
            big == sq * 0x1000_0000_0000,
    ;
    assert(sq * nn <= sq * (t * 0x1000_0000_0000)) by (nonlinear_arith)
        requires
            nn <= t * 0x1000_0000_0000,
            sq > 0,
    ;
    assert(sq * (t * 0x1000_0000_0000) < sq * ((n + 1) * (n + 1))) by (nonlinear_arith)
        requires
            t * 0x1000_0000_0000 < (n + 1) * (n + 1),
            sq > 0,
    ;
    assert(sq * nn == nn * sq) by (nonlinear_arith);
    lemma_cancel_factor(nn, sq, up);
    // the upper bound: n (2^24 + 4) >= 2^24 (n + 1)
    assert(r >= 0) by (nonlinear_arith)
        requires
            r == q.w * q.w + q.i * q.i + q.j * q.j + q.k * q.k,
    ;
    if r >= (one + 4) * (one + 4) {
        lemma_square_monotonic(one * (n + 1), n * (one + 4));
        assert((n * (one + 4)) * (n * (one + 4)) == nn * ((one + 4) * (one + 4)))
            by (nonlinear_arith)
            requires
                nn == n * n,
        ;
        assert((one * (n + 1)) * (one * (n + 1)) == sq * ((n + 1) * (n + 1))) by (nonlinear_arith)
            requires
                one * one == sq,
        ;
        assert(nn * r >= nn * ((one + 4) * (one + 4))) by (nonlinear_arith)
            requires
                r >= (one + 4) * (one + 4),
                nn > 0,
        ;
        assert(false);
    }
    lemma_square_bounds_component(q.w, q.i, q.j, q.k, one + 4);
}

/// A component of a tuple whose sum of squares is below `b^2` is below `b`
/// in magnitude.
pub proof fn lemma_square_bounds_component(w: int, i: int, j: int, k: int, b: int)
    requires
        b > 0,
        w * w + i * i + j * j + k * k < b * b,
    ensures
        -b < w < b,
        -b < i < b,
        -b < j < b,
        -b < k < b,
{
    assert(w * w >= 0 && i * i >= 0 && j * j >= 0 && k * k >= 0) by (nonlinear_arith);
    if abs(w) >= b {
        lemma_square_monotonic(b, abs(w));
        assert(abs(w) * abs(w) == w * w) by (nonlinear_arith)
            requires
                abs(w) == w || abs(w) == -w,
        ;
    }
    if abs(i) >= b {
        lemma_square_monotonic(b, abs(i));
        assert(abs(i) * abs(i) == i * i) by (nonlinear_arith)
            requires
                abs(i) == i || abs(i) == -i,
        ;
    }
    if abs(j) >= b {
        lemma_square_monotonic(b, abs(j));
        assert(abs(j) * abs(j) == j * j) by (nonlinear_arith)
            requires
                abs(j) == j || abs(j) == -j,
        ;
    }
    if abs(k) >= b {
        lemma_square_monotonic(b, abs(k));
        assert(abs(k) * abs(k) == k * k) by (nonlinear_arith)
            requires
                abs(k) == k || abs(k) == -k,
        ;
    }
}

/// A normalized vector has length one, within rounding, however short or
/// long the vector is.  For every finite vector `v` that is not zero, with
/// `r = normalize(v)`: every component of `r` is finite,
/// `2^48 < |r|^2 + 2 |r|_1 + 4` and `|r|^2 < (2^24 + 4)^2`, so that
/// `| |r|^2 - 2^48 | <= 2^27 + 27` on the raw values: the squared length is
/// within `2^-21` of one.
pub proof fn law_normalize_unit_length(v: Vector3)
    requires
        v.is_finite(),
        v@.norm_sq() > 0,
    ensures
        v.normalize_spec().is_finite(),
        0x1_0000_0000_0000 < v.normalize_spec()@.norm_sq() + 2 * v.normalize_spec()@.norm_one() + 4,
        0 <= v.normalize_spec()@.norm_sq() < (0x100_0000 + 4) * (0x100_0000 + 4),
        abs(v.normalize_spec()@.norm_sq() - 0x1_0000_0000_0000) <= 0x800_0000 + 27,
{
    let x = Quat { w: 0, i: v@.x, j: v@.y, k: v@.z };
    let t = v@.norm_sq();
    assert(x.norm_sq() == t);
    let n = sharp_root(t);
    let q = Quat {
        w: 0,
        i: trunc_div(v@.x * 0x4000_0000_0000, n),
        j: trunc_div(v@.y * 0x4000_0000_0000, n),
        k: trunc_div(v@.z * 0x4000_0000_0000, n),
    };
    lemma_sharp_root(t);
    assert(0int / n == 0) by (nonlinear_arith)
        requires
            n > 0,
    ;
    assert(trunc_div(0int * 0x4000_0000_0000, n) == 0);
    lemma_sharp_normalized(x, q);
    let r = v.normalize_spec()@;
    assert(r.x == q.i && r.y == q.j && r.z == q.k);
    assert(q.norm_sq() == r.norm_sq());
    assert((0x100_0000int + 4) * (0x100_0000int + 4) == 0x1_0000_0000_0000int + 0x800_0000 + 16);
}

/// A normalized quaternion has norm one, within rounding, however small
/// or large the quaternion is.  For every finite quaternion `q` that is not
/// zero, with `r = normalized(q)`: every component of `r` is finite, and
/// `| |r|^2 - 2^48 | <= 2^27 + 27` on the raw values.
pub proof fn law_normalized_unit_norm(q: Quaternion)
    requires
        q.is_finite(),
        q@.norm_sq() > 0,
    ensures
        q.normalized_spec().is_finite(),
        0x1_0000_0000_0000 < q.normalized_spec()@.norm_sq() + 2 * q.normalized_spec()@.norm_one()
            + 4,
        0 <= q.normalized_spec()@.norm_sq() < (0x100_0000 + 4) * (0x100_0000 + 4),
        q.normalized_spec().unit_defect_spec() <= 0x800_0000 + 27,
{
    let t = q@.norm_sq();
    let n = sharp_root(t);
    let r = Quat {
        w: trunc_div(q@.w * 0x4000_0000_0000, n),
        i: trunc_div(q@.i * 0x4000_0000_0000, n),
        j: trunc_div(q@.j * 0x4000_0000_0000, n),
        k: trunc_div(q@.k * 0x4000_0000_0000, n),
    };
    lemma_sharp_normalized(q@, r);
    assert(q.normalized_spec()@ == r);
    assert((0x100_0000int + 4) * (0x100_0000int + 4) == 0x1_0000_0000_0000int + 0x800_0000 + 16);
    assert(ONE_SQ_RAW == 0x1_0000_0000_0000);
}

/// A finite scalar times a scalar of magnitude at most one is finite.
pub proof fn lemma_times_fraction(a: Scalar, f: Scalar)
    requires
        a.is_finite(),
        -ONE_RAW <= f.raw <= ONE_RAW,
    ensures
        a.mul_spec(f).is_finite(),
{
    let m = a.raw * f.raw;
    assert(-(MAX_RAW * 0x100_0000) <= m <= MAX_RAW * 0x100_0000) by (nonlinear_arith)
        requires
            m == a.raw * f.raw,
            -MAX_RAW <= a.raw <= MAX_RAW,
            -0x100_0000 <= f.raw <= 0x100_0000,
            MAX_RAW >= 0,
    ;
    assert(MAX_RAW == 0x100_0000_0000);
    assert(in_range(trunc_div(m, 0x100_0000)));
}

/// A rotor is finite: for a finite angle and a finite axis that is not
/// zero, every component of the rotor is finite.
pub proof fn law_rotor_is_finite(angle: Angle, x: Scalar, y: Scalar, z: Scalar)
    requires
        angle.radians().is_finite(),
        (Vector3 { x, y, z }).is_finite(),
        (Vector3 { x, y, z })@.norm_sq() > 0,
    ensures
        Quaternion::from_angle_axis_spec(angle, x, y, z).is_finite(),
{
    let v = Vector3 { x, y, z };
    law_normalize_unit_length(v);
    let h = angle.radians().div_int_spec(2);
    assert(h.is_finite());
    law_sin_cos_bounded(h);
    let n = v.normalize_spec();
    let s = sin_cos_spec(h).0;
    lemma_times_fraction(n.x, s);
    lemma_times_fraction(n.y, s);
    lemma_times_fraction(n.z, s);
}

/// The integer square root of a number below `(s + 1)^2` is at most `s`.
pub proof fn lemma_isqrt_below(a: int, s: int)
    requires
        0 <= a < (s + 1) * (s + 1),
        s >= 0,
    ensures
        isqrt(a) <= s,
{
    lemma_isqrt_exists(a);
    if isqrt(a) > s {
        lemma_square_monotonic(s + 1, isqrt(a));
    }
}

/// A vector `q` scaled by a factor `s / 2^24`, every component rounded
/// toward zero, against the exact scaling:
/// `2^48 |v|^2 <= s^2 |q|^2 < 2^48 (|v|^2 + 2 |v|_1 + 3)`.
pub proof fn lemma_scaled_vector(q: Vec3, s: int, v: Vec3)
    requires
        v.x == trunc_div(q.x * s, 0x100_0000),
        v.y == trunc_div(q.y * s, 0x100_0000),
        v.z == trunc_div(q.z * s, 0x100_0000),
    ensures
        0x1_0000_0000_0000 * v.norm_sq() <= s * s * q.norm_sq(),
        s * s * q.norm_sq() < 0x1_0000_0000_0000 * (v.norm_sq() + 2 * v.norm_one() + 3),
{
    let one = 0x100_0000int;
    lemma_quotient_square_bounds(q.x * s, one, v.x);
    lemma_quotient_square_bounds(q.y * s, one, v.y);
    lemma_quotient_square_bounds(q.z * s, one, v.z);
    assert((q.x * s) * (q.x * s) == s * s * (q.x * q.x)) by (nonlinear_arith);
    assert((q.y * s) * (q.y * s) == s * s * (q.y * q.y)) by (nonlinear_arith);
    assert((q.z * s) * (q.z * s) == s * s * (q.z * q.z)) by (nonlinear_arith);
    assert(s * s * q.norm_sq() == s * s * (q.x * q.x) + s * s * (q.y * q.y) + s * s * (q.z * q.z))
        by (nonlinear_arith)
        requires
            q.norm_sq() == q.x * q.x + q.y * q.y + q.z * q.z,
    ;
    assert(one * one == 0x1_0000_0000_0000);
}

/// A rotor has norm one, within rounding, whatever the length of its
/// axis.  For a finite angle and a finite axis that is not zero, the
/// `unit_defect` of the rotor is at most `10 * 2^24 + 40`: its exact squared
/// norm is within `10 * 2^-24` and a little of one.
pub proof fn law_rotor_unit_defect(angle: Angle, x: Scalar, y: Scalar, z: Scalar)
    requires
        angle.radians().is_finite(),
        (Vector3 { x, y, z }).is_finite(),
        (Vector3 { x, y, z })@.norm_sq() > 0,
    ensures
        Quaternion::from_angle_axis_spec(angle, x, y, z).is_finite(),
        Quaternion::from_angle_axis_spec(angle, x, y, z).unit_defect_spec() <= 10 * ONE_RAW + 40,
{
    let one = 0x100_0000int;
    let sq = 0x1_0000_0000_0000int;
    let axis = Vector3 { x, y, z };
    let nh = axis.normalize_spec();
    let q = nh@;
    let h = angle.radians().div_int_spec(2);
    let sc = sin_cos_spec(h);
    let s = sc.0.raw as int;
    let c = sc.1.raw as int;
    let rotor = Quaternion::from_angle_axis_spec(angle, x, y, z);
    law_rotor_is_finite(angle, x, y, z);
    law_sin_cos_bounded(h);
    law_sin_cos_pythagoras(h);
    law_normalize_unit_length(axis);
    let v = rotor@.vec();
    assert(v.x == trunc_div(q.x * s, one) && v.y == trunc_div(q.y * s, one) && v.z == trunc_div(
        q.z * s,
        one,
    ));
    lemma_scaled_vector(q, s, v);
    let a = q.norm_sq();
    let b = v.norm_sq();
    let big = rotor@.norm_sq();
    assert(big == c * c + b);
    let ss = s * s;
    let cc = c * c;
    assert(ss >= 0 && cc >= 0) by (nonlinear_arith)
        requires
            ss == s * s,
            cc == c * c,
    ;
    assert(ss <= sq);
    assert((one + 4) * (one + 4) == sq + 8 * one + 16) by (nonlinear_arith)
        requires
            one == 0x100_0000,
            sq == 0x1_0000_0000_0000,
    ;
    lemma_norm_one_bound(q);
    lemma_isqrt_below(a, one + 3);
    assert(q.norm_one() <= 2 * one + 7);
    // upper bound
    assert(ss * a <= ss * (sq + 8 * one + 15)) by (nonlinear_arith)
        requires
            ss >= 0,
            a <= sq + 8 * one + 15,
    ;
    assert(ss * (sq + 8 * one + 15) == sq * ss + (8 * one + 15) * ss) by (nonlinear_arith);
    assert(s * s * a == ss * a);
    assert(b <= ss + 8 * one + 15);
    // lower bound
    lemma_norm_one_bound(v);
    assert(b < (one + 4) * (one + 4));
    lemma_isqrt_below(b, one + 3);
    assert(v.norm_one() <= 2 * one + 7);
    let slack = 2 * q.norm_one() + 4;
    assert(ss * a >= ss * (sq - slack)) by (nonlinear_arith)
        requires
            ss >= 0,
            a >= sq - slack,
    ;
    assert(ss * (sq - slack) == sq * ss - ss * slack) by (nonlinear_arith);
    assert(ss * slack <= sq * slack) by (nonlinear_arith)
        requires
            0 <= ss <= sq,
            slack >= 0,
    ;
    assert(b + 2 * v.norm_one() + 3 > ss - slack);
}

/// Which points a motion leaves in place.  A finite motion without dual
/// scalar leaves a finite point `p` exactly where it is if `v x p + m` is
/// zero, for `v` the rotation vector and `m` the dual vector of the
/// motion.  For the rotor `cos + sin l` about a line `l` with direction `d`
/// and moment `d x pos`, these are the points `p` with `d x (p + pos) = 0`:
/// the line through `-pos` along `d`.
pub proof fn law_fixed_points(m: DualQuaternion, p: Point)
    requires
        m.is_finite(),
        p.is_finite(),
        m.we.raw == 0,
        m@.re().vec().cross(p@).add(m@.du().vec().scale(ONE_RAW as int)) == (Vec3 {
            x: 0,
            y: 0,
            z: 0,
        }),
    ensures
        m.transform_point_spec(p) == p,
{
    let v = m@.re().vec();
    let a = v.cross(p@).add(m@.du().vec().scale(ONE_RAW as int));
    let n = point_image(m@, p@, ONE_RAW as int);
    assert(ONE_RAW * ONE_RAW == ONE_SQ_RAW);
    assert(a.scale(m@.w) == a && v.cross(a) == a && v.scale(ONE_RAW * m@.we) == a)
        by (nonlinear_arith)
        requires
            a == (Vec3 { x: 0, y: 0, z: 0 }),
            m@.we == 0,
    ;
    assert(n.x == ONE_SQ_RAW * p@.x && n.y == ONE_SQ_RAW * p@.y && n.z == ONE_SQ_RAW * p@.z);
    lemma_rescale_of_scaled(p.x.raw as int);
    lemma_rescale_of_scaled(p.y.raw as int);
    lemma_rescale_of_scaled(p.z.raw as int);
}

/// The rotation part of a screw is the rotor about the direction of its
/// line: the translation along the line leaves the rotation part alone.
pub proof fn law_screw_rotation_part(pos: Point, dir: Direction, angle: Angle, distance: Scalar)
    requires
        DualQuaternion::line_rotor_spec(DualQuaternion::line_spec(pos, dir), angle).is_finite(),
        DualQuaternion::line_translator_spec(
            DualQuaternion::line_spec(pos, dir),
            distance,
        ).is_finite(),
    ensures
        DualQuaternion::screw_spec(DualQuaternion::line_spec(pos, dir), angle, distance).re()
            == Quaternion::from_angle_axis_spec(angle, dir.x, dir.y, dir.z),
{
    let l = DualQuaternion::line_spec(pos, dir);
    let r = DualQuaternion::line_rotor_spec(l, angle);
    let t = DualQuaternion::line_translator_spec(l, distance);
    let p = t@.mul(r@).re();
    let x = r@.re();
    assert(p.w == 0x100_0000 * x.w && p.i == 0x100_0000 * x.i && p.j == 0x100_0000 * x.j && p.k
        == 0x100_0000 * x.k) by (nonlinear_arith)
        requires
            p == Quat::scalar(0x100_0000).mul(x),
    ;
    assert(ONE_RAW == 0x100_0000);
    lemma_rescale_of_scaled(r.w.raw as int);
    lemma_rescale_of_scaled(r.i.raw as int);
    lemma_rescale_of_scaled(r.j.raw as int);
    lemma_rescale_of_scaled(r.k.raw as int);
}

/// Rotation by a rotor preserves length, within rounding.  For a rotor `q`
/// about any finite axis that is not zero, and a finite vector `v` whose
/// image `r = transform(q, v)` is finite:
/// `2^96 |r|^2 <= (2^48 + 2 d)^2 |v|^2` and
/// `(2^48 - 2 d)^2 |v|^2 < 2^96 (|r|^2 + 2 |r|_1 + 3)` with
/// `d = 10 * 2^24 + 40`: the squared lengths agree to a few parts in a million.
pub proof fn law_rotor_preserves_length(angle: Angle, x: Scalar, y: Scalar, z: Scalar, v: Vector3)
    requires
        angle.radians().is_finite(),
        (Vector3 { x, y, z }).is_finite(),
        (Vector3 { x, y, z })@.norm_sq() > 0,
        v.is_finite(),
        Quaternion::from_angle_axis_spec(angle, x, y, z).transform_spec(v).is_finite(),
    ensures
        0x1_0000_0000_0000_0000_0000_0000 * Quaternion::from_angle_axis_spec(
            angle,
            x,
            y,
            z,
        ).transform_spec(v)@.norm_sq() <= (0x1_0000_0000_0000 + 2 * (10 * ONE_RAW + 40)) * (
        0x1_0000_0000_0000 + 2 * (10 * ONE_RAW + 40)) * v@.norm_sq(),
        (0x1_0000_0000_0000 - 2 * (10 * ONE_RAW + 40)) * (0x1_0000_0000_0000 - 2 * (10 * ONE_RAW
            + 40)) * v@.norm_sq() < 0x1_0000_0000_0000_0000_0000_0000 * (
        Quaternion::from_angle_axis_spec(angle, x, y, z).transform_spec(v)@.norm_sq() + 2
            * Quaternion::from_angle_axis_spec(angle, x, y, z).transform_spec(v)@.norm_one() + 3),
{
    let q = Quaternion::from_angle_axis_spec(angle, x, y, z);
    law_rotor_unit_defect(angle, x, y, z);
    law_transform_length_bounds(q, v);
    let n = q@.norm_sq();
    let k = q.unit_defect_spec();
    let d = 10 * ONE_RAW + 40;
    let sq = 0x1_0000_0000_0000int;
    let t = v@.norm_sq();
    lemma_norm_one_bound(v@);
    let hi = n + k;
    let lo = n - k;
    assert(0 <= sq - 2 * d <= lo && hi <= sq + 2 * d);
    lemma_square_monotonic(hi, sq + 2 * d);
    lemma_square_monotonic(sq - 2 * d, lo);
    assert(hi * hi * t <= (sq + 2 * d) * (sq + 2 * d) * t) by (nonlinear_arith)
        requires
            hi * hi <= (sq + 2 * d) * (sq + 2 * d),
            t >= 0,
    ;
    assert((sq - 2 * d) * (sq - 2 * d) * t <= lo * lo * t) by (nonlinear_arith)
        requires
            (sq - 2 * d) * (sq - 2 * d) <= lo * lo,
            t >= 0,
    ;
}

/// The sum of the absolute values is below twice the integer square root of
/// the sum of squares, plus two.
pub proof fn lemma_norm_one_bound(v: Vec3)
    ensures
        v.norm_sq() >= 0,
        v.norm_one() <= 2 * isqrt(v.norm_sq()) + 1,
{
    let x = abs(v.x);
    let y = abs(v.y);
    let z = abs(v.z);
    let n = v.norm_sq();
    assert(n == x * x + y * y + z * z) by (nonlinear_arith)
        requires
            n == v.x * v.x + v.y * v.y + v.z * v.z,
            x == v.x || x == -v.x,
            y == v.y || y == -v.y,
            z == v.z || z == -v.z,
    ;
    assert(n >= 0) by (nonlinear_arith)
        requires
            n == x * x + y * y + z * z,
    ;
    lemma_isqrt_exists(n);
    let s = isqrt(n);
    assert((x + y + z) * (x + y + z) <= 3 * (x * x + y * y + z * z)) by (nonlinear_arith);
    if x + y + z >= 2 * s + 2 {
        lemma_square_monotonic(2 * s + 2, x + y + z);
        assert((2 * s + 2) * (2 * s + 2) == 4 * ((s + 1) * (s + 1))) by (nonlinear_arith);
        assert(false);
    }
}

/// Rotation preserves length.  For a quaternion whose squared norm is
/// exactly one and a result `r = transform(q, v)` that is finite:
/// the exact vector that is rounded to `r` has the squared length of `v`
/// (times `2^96`), the squared length of `r` is at most that of `v` and
/// falls short of it by at most `2 |r|_1 + 2` raw units, and the norms of
/// `r` and `v` differ by at most two raw units, `2^-23`.
pub proof fn law_transform_preserves_norm(q: Quaternion, v: Vector3)
    requires
        q.is_finite(),
        v.is_finite(),
        q@.norm_sq() == ONE_SQ_RAW,
        q.transform_spec(v).is_finite(),
    ensures
        rotate(q@, v@, ONE_RAW as int).norm_sq() == 0x1_0000_0000_0000_0000_0000_0000 * v@.norm_sq(),
        q.transform_spec(v)@.norm_sq() <= v@.norm_sq() <= q.transform_spec(v)@.norm_sq() + 2
            * q.transform_spec(v)@.norm_one() + 2,
        isqrt(q.transform_spec(v)@.norm_sq()) <= isqrt(v@.norm_sq()) <= isqrt(
            q.transform_spec(v)@.norm_sq(),
        ) + 2,
{
    let n = rotate(q@, v@, ONE_RAW as int);
    let r = q.transform_spec(v)@;
    assert(ONE_RAW * ONE_RAW == ONE_SQ_RAW);
    law_rotate_preserves_norm(q@, v@, ONE_RAW as int);
    assert((ONE_RAW * ONE_RAW) * (ONE_RAW * ONE_RAW) * v@.norm_sq()
        == 0x1_0000_0000_0000_0000_0000_0000 * v@.norm_sq()) by (nonlinear_arith)
        requires
            ONE_RAW * ONE_RAW == 0x1_0000_0000_0000,
    ;
    lemma_rounded_norm(n, r, v@.norm_sq());
}

/// Rotation nearly preserves length where the quaternion nearly has norm
/// one.  With `n` the exact squared norm of `q`, `k = |n - 2^48|` its
/// distance from one, which `unit_defect` computes, and
/// `r = transform(q, v)` finite:
/// `2^96 |r|^2 <= (n + k)^2 |v|^2` and
/// `(n - k)^2 |v|^2 < 2^96 (|r|^2 + 2 |r|_1 + 3)`.
pub proof fn law_transform_length_bounds(q: Quaternion, v: Vector3)
    requires
        q.is_finite(),
        v.is_finite(),
        q.transform_spec(v).is_finite(),
    ensures
        0x1_0000_0000_0000_0000_0000_0000 * q.transform_spec(v)@.norm_sq() <= (q@.norm_sq()
            + q.unit_defect_spec()) * (q@.norm_sq() + q.unit_defect_spec()) * v@.norm_sq(),
        (q@.norm_sq() - q.unit_defect_spec()) * (q@.norm_sq() - q.unit_defect_spec()) * v@.norm_sq()
            < 0x1_0000_0000_0000_0000_0000_0000 * (q.transform_spec(v)@.norm_sq() + 2
            * q.transform_spec(v)@.norm_one() + 3),
{
    let n = rotate(q@, v@, ONE_RAW as int);
    let r = q.transform_spec(v)@;
    assert(ONE_RAW * ONE_RAW == 0x1_0000_0000_0000);
    law_rotate_length_bounds(q@, v@, ONE_RAW as int);
    lemma_trunc_square_bounds(n.x, r.x);
    lemma_trunc_square_bounds(n.y, r.y);
    lemma_trunc_square_bounds(n.z, r.z);
}

/// The same for the scaled transform of any finite quaternion: the exact
/// vector that is rounded to `r = transform_scaled(q, v)` has the squared
/// length of `v` times the square of the squared norm of `q`, and
/// `2^96 |r|^2 <= (|q|^2)^2 |v|^2 < 2^96 (|r|^2 + 2 |r|_1 + 3)`.
pub proof fn law_transform_scaled_norm(q: Quaternion, v: Vector3)
    requires
        q.is_finite(),
        v.is_finite(),
        q.transform_scaled_spec(v).is_finite(),
    ensures
        sandwich(q@, v@).norm_sq() == q@.norm_sq() * q@.norm_sq() * v@.norm_sq(),
        0x1_0000_0000_0000_0000_0000_0000 * q.transform_scaled_spec(v)@.norm_sq() <= q@.norm_sq()
            * q@.norm_sq() * v@.norm_sq(),
        q@.norm_sq() * q@.norm_sq() * v@.norm_sq() < 0x1_0000_0000_0000_0000_0000_0000 * (
        q.transform_scaled_spec(v)@.norm_sq() + 2 * q.transform_scaled_spec(v)@.norm_one() + 3),
{
    let n = sandwich(q@, v@);
    let r = q.transform_scaled_spec(v)@;
    law_sandwich_norm(q@, v@);
    lemma_trunc_square_bounds(n.x, r.x);
    lemma_trunc_square_bounds(n.y, r.y);
    lemma_trunc_square_bounds(n.z, r.z);
}

/// A vector `r` of components of `n` divided by `2^48` and rounded toward
/// zero, where `n` has squared length `2^96 t`: the squared length of `r`
/// is at most `t` and at least `t - 2 |r|_1 - 2`, and the integer square
/// roots of the two differ by at most two.
pub proof fn lemma_rounded_norm(n: Vec3, r: Vec3, t: int)
    requires
        r.x == trunc_div(n.x, 0x1_0000_0000_0000),
        r.y == trunc_div(n.y, 0x1_0000_0000_0000),
        r.z == trunc_div(n.z, 0x1_0000_0000_0000),
        n.norm_sq() == 0x1_0000_0000_0000_0000_0000_0000 * t,
    ensures
        0 <= r.norm_sq() <= t <= r.norm_sq() + 2 * r.norm_one() + 2,
        isqrt(r.norm_sq()) <= isqrt(t) <= isqrt(r.norm_sq()) + 2,
{
    lemma_trunc_square_bounds(n.x, r.x);
    lemma_trunc_square_bounds(n.y, r.y);
    lemma_trunc_square_bounds(n.z, r.z);
    lemma_norm_one_bound(r);
    let big = r.norm_sq();
    let s = isqrt(big);
    lemma_isqrt_exists(big);
    lemma_isqrt_monotonic(big, t);
    lemma_isqrt_exists(t);
    if isqrt(t) >= s + 3 {
        lemma_square_monotonic(s + 3, isqrt(t));
        assert((s + 3) * (s + 3) == (s + 1) * (s + 1) + 4 * s + 8) by (nonlinear_arith);
        assert(false);
    }
}

} // verus!
