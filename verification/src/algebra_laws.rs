//! Laws of the exact integer models.
//!
//! Each law is an identity between polynomials.  Where the solver does not
//! see it at once, the proof expands both sides into sums of monomials,
//! the factors of each monomial in one fixed order, by the lemmas at the
//! head of this file.
use vstd::prelude::*;
use crate::algebra::{
    Cplx, Dual, DualQuat, Quat, Vec3, abs, point_image, rotate, sandwich, scaled_point_image,
};
use crate::scalar::{lemma_mul_bound, lemma_square_monotonic};

verus! {

/// Multiplication of integers is commutative.
pub proof fn lemma_comm(x: int, y: int)
    by (nonlinear_arith)
    ensures
        x * y == y * x,
{
}

/// `x (y z) = (x y) z`.
pub proof fn lemma_assoc(x: int, y: int, z: int)
    by (nonlinear_arith)
    ensures
        x * (y * z) == x * y * z,
{
}

/// `(p x) y = (p y) x`.
pub proof fn lemma_swap(p: int, x: int, y: int)
    by (nonlinear_arith)
    ensures
        p * x * y == p * y * x,
{
}

/// `(-x) y = -(x y)`.
pub proof fn lemma_neg_left(x: int, y: int)
    by (nonlinear_arith)
    ensures
        (-x) * y == -(x * y),
{
}

/// `x (-y) = -(x y)`.
pub proof fn lemma_neg_right(x: int, y: int)
    by (nonlinear_arith)
    ensures
        x * (-y) == -(x * y),
{
}

/// A sum of 2 terms times `x`, term by term.
pub proof fn lemma_sum2_times(x: int, t1: int, t2: int)
    by (nonlinear_arith)
    ensures
        (t1 + t2) * x == t1 * x + t2 * x,
{
}

/// `x` times a sum of 2 terms, term by term.
pub proof fn lemma_times_sum2(x: int, t1: int, t2: int)
    by (nonlinear_arith)
    ensures
        x * (t1 + t2) == x * t1 + x * t2,
{
}

/// A sum of 3 terms times `x`, term by term.
pub proof fn lemma_sum3_times(x: int, t1: int, t2: int, t3: int)
    by (nonlinear_arith)
    ensures
        (t1 + t2 + t3) * x == t1 * x + t2 * x + t3 * x,
{
}

/// `x` times a sum of 3 terms, term by term.
pub proof fn lemma_times_sum3(x: int, t1: int, t2: int, t3: int)
    by (nonlinear_arith)
    ensures
        x * (t1 + t2 + t3) == x * t1 + x * t2 + x * t3,
{
}

/// A sum of 4 terms times `x`, term by term.
pub proof fn lemma_sum4_times(x: int, t1: int, t2: int, t3: int, t4: int)
    by (nonlinear_arith)
    ensures
        (t1 + t2 + t3 + t4) * x == t1 * x + t2 * x + t3 * x + t4 * x,
{
}

/// `x` times a sum of 4 terms, term by term.
pub proof fn lemma_times_sum4(x: int, t1: int, t2: int, t3: int, t4: int)
    by (nonlinear_arith)
    ensures
        x * (t1 + t2 + t3 + t4) == x * t1 + x * t2 + x * t3 + x * t4,
{
}

/// A sum of 6 terms times `x`, term by term.
pub proof fn lemma_sum6_times(x: int, t1: int, t2: int, t3: int, t4: int, t5: int, t6: int)
    by (nonlinear_arith)
    ensures
        (t1 + t2 + t3 + t4 + t5 + t6) * x == t1 * x + t2 * x + t3 * x + t4 * x + t5 * x + t6 * x,
{
}

/// `x` times a sum of 8 terms, term by term.
pub proof fn lemma_times_sum8(x: int, t1: int, t2: int, t3: int, t4: int, t5: int, t6: int, t7: int, t8: int)
    by (nonlinear_arith)
    ensures
        x * (t1 + t2 + t3 + t4 + t5 + t6 + t7 + t8) == x * t1 + x * t2 + x * t3 + x * t4 + x * t5 + x * t6 + x * t7 + x * t8,
{
}

/// The `w` component of a product of three quaternions does not depend on the grouping.
proof fn lemma_quat_mul_associative_w(a: Quat, b: Quat, c: Quat)
    ensures
        a.mul(b).mul(c).w == a.mul(b.mul(c)).w,
{
    lemma_sum4_times(c.w, a.w * b.w, -(a.i * b.i), -(a.j * b.j), -(a.k * b.k));
    lemma_neg_left((a.i * b.i), c.w);
    lemma_neg_left((a.j * b.j), c.w);
    lemma_neg_left((a.k * b.k), c.w);
    lemma_sum4_times(c.i, a.w * b.i, a.i * b.w, a.j * b.k, -(a.k * b.j));
    lemma_neg_left((a.k * b.j), c.i);
    lemma_sum4_times(c.j, a.w * b.j, -(a.i * b.k), a.j * b.w, a.k * b.i);
    lemma_neg_left((a.i * b.k), c.j);
    lemma_sum4_times(c.k, a.w * b.k, a.i * b.j, -(a.j * b.i), a.k * b.w);
    lemma_neg_left((a.j * b.i), c.k);
    lemma_times_sum4(a.w, b.w * c.w, -(b.i * c.i), -(b.j * c.j), -(b.k * c.k));
    lemma_assoc(a.w, b.w, c.w);
    lemma_neg_right(a.w, (b.i * c.i));
    lemma_assoc(a.w, b.i, c.i);
    lemma_neg_right(a.w, (b.j * c.j));
    lemma_assoc(a.w, b.j, c.j);
    lemma_neg_right(a.w, (b.k * c.k));
    lemma_assoc(a.w, b.k, c.k);
    lemma_times_sum4(a.i, b.w * c.i, b.i * c.w, b.j * c.k, -(b.k * c.j));
    lemma_assoc(a.i, b.w, c.i);
    lemma_assoc(a.i, b.i, c.w);
    lemma_assoc(a.i, b.j, c.k);
    lemma_neg_right(a.i, (b.k * c.j));
    lemma_assoc(a.i, b.k, c.j);
    lemma_times_sum4(a.j, b.w * c.j, -(b.i * c.k), b.j * c.w, b.k * c.i);
    lemma_assoc(a.j, b.w, c.j);
    lemma_neg_right(a.j, (b.i * c.k));
    lemma_assoc(a.j, b.i, c.k);
    lemma_assoc(a.j, b.j, c.w);
    lemma_assoc(a.j, b.k, c.i);
    lemma_times_sum4(a.k, b.w * c.k, b.i * c.j, -(b.j * c.i), b.k * c.w);
    lemma_assoc(a.k, b.w, c.k);
    lemma_assoc(a.k, b.i, c.j);
    lemma_neg_right(a.k, (b.j * c.i));
    lemma_assoc(a.k, b.j, c.i);
    lemma_assoc(a.k, b.k, c.w);
}

/// The `i` component of a product of three quaternions does not depend on the grouping.
proof fn lemma_quat_mul_associative_i(a: Quat, b: Quat, c: Quat)
    ensures
        a.mul(b).mul(c).i == a.mul(b.mul(c)).i,
{
    lemma_sum4_times(c.i, a.w * b.w, -(a.i * b.i), -(a.j * b.j), -(a.k * b.k));
    lemma_neg_left((a.i * b.i), c.i);
    lemma_neg_left((a.j * b.j), c.i);
    lemma_neg_left((a.k * b.k), c.i);
    lemma_sum4_times(c.w, a.w * b.i, a.i * b.w, a.j * b.k, -(a.k * b.j));
    lemma_neg_left((a.k * b.j), c.w);
    lemma_sum4_times(c.k, a.w * b.j, -(a.i * b.k), a.j * b.w, a.k * b.i);
    lemma_neg_left((a.i * b.k), c.k);
    lemma_sum4_times(c.j, a.w * b.k, a.i * b.j, -(a.j * b.i), a.k * b.w);
    lemma_neg_left((a.j * b.i), c.j);
    lemma_times_sum4(a.w, b.w * c.i, b.i * c.w, b.j * c.k, -(b.k * c.j));
    lemma_assoc(a.w, b.w, c.i);
    lemma_assoc(a.w, b.i, c.w);
    lemma_assoc(a.w, b.j, c.k);
    lemma_neg_right(a.w, (b.k * c.j));
    lemma_assoc(a.w, b.k, c.j);
    lemma_times_sum4(a.i, b.w * c.w, -(b.i * c.i), -(b.j * c.j), -(b.k * c.k));
    lemma_assoc(a.i, b.w, c.w);
    lemma_neg_right(a.i, (b.i * c.i));
    lemma_assoc(a.i, b.i, c.i);
    lemma_neg_right(a.i, (b.j * c.j));
    lemma_assoc(a.i, b.j, c.j);
    lemma_neg_right(a.i, (b.k * c.k));
    lemma_assoc(a.i, b.k, c.k);
    lemma_times_sum4(a.j, b.w * c.k, b.i * c.j, -(b.j * c.i), b.k * c.w);
    lemma_assoc(a.j, b.w, c.k);
    lemma_assoc(a.j, b.i, c.j);
    lemma_neg_right(a.j, (b.j * c.i));
    lemma_assoc(a.j, b.j, c.i);
    lemma_assoc(a.j, b.k, c.w);
    lemma_times_sum4(a.k, b.w * c.j, -(b.i * c.k), b.j * c.w, b.k * c.i);
    lemma_assoc(a.k, b.w, c.j);
    lemma_neg_right(a.k, (b.i * c.k));
    lemma_assoc(a.k, b.i, c.k);
    lemma_assoc(a.k, b.j, c.w);
    lemma_assoc(a.k, b.k, c.i);
}

/// The `j` component of a product of three quaternions does not depend on the grouping.
proof fn lemma_quat_mul_associative_j(a: Quat, b: Quat, c: Quat)
    ensures
        a.mul(b).mul(c).j == a.mul(b.mul(c)).j,
{
    lemma_sum4_times(c.j, a.w * b.w, -(a.i * b.i), -(a.j * b.j), -(a.k * b.k));
    lemma_neg_left((a.i * b.i), c.j);
    lemma_neg_left((a.j * b.j), c.j);
    lemma_neg_left((a.k * b.k), c.j);
    lemma_sum4_times(c.k, a.w * b.i, a.i * b.w, a.j * b.k, -(a.k * b.j));
    lemma_neg_left((a.k * b.j), c.k);
    lemma_sum4_times(c.w, a.w * b.j, -(a.i * b.k), a.j * b.w, a.k * b.i);
    lemma_neg_left((a.i * b.k), c.w);
    lemma_sum4_times(c.i, a.w * b.k, a.i * b.j, -(a.j * b.i), a.k * b.w);
    lemma_neg_left((a.j * b.i), c.i);
    lemma_times_sum4(a.w, b.w * c.j, -(b.i * c.k), b.j * c.w, b.k * c.i);
    lemma_assoc(a.w, b.w, c.j);
    lemma_neg_right(a.w, (b.i * c.k));
    lemma_assoc(a.w, b.i, c.k);
    lemma_assoc(a.w, b.j, c.w);
    lemma_assoc(a.w, b.k, c.i);
    lemma_times_sum4(a.i, b.w * c.k, b.i * c.j, -(b.j * c.i), b.k * c.w);
    lemma_assoc(a.i, b.w, c.k);
    lemma_assoc(a.i, b.i, c.j);
    lemma_neg_right(a.i, (b.j * c.i));
    lemma_assoc(a.i, b.j, c.i);
    lemma_assoc(a.i, b.k, c.w);
    lemma_times_sum4(a.j, b.w * c.w, -(b.i * c.i), -(b.j * c.j), -(b.k * c.k));
    lemma_assoc(a.j, b.w, c.w);
    lemma_neg_right(a.j, (b.i * c.i));
    lemma_assoc(a.j, b.i, c.i);
    lemma_neg_right(a.j, (b.j * c.j));
    lemma_assoc(a.j, b.j, c.j);
    lemma_neg_right(a.j, (b.k * c.k));
    lemma_assoc(a.j, b.k, c.k);
    lemma_times_sum4(a.k, b.w * c.i, b.i * c.w, b.j * c.k, -(b.k * c.j));
    lemma_assoc(a.k, b.w, c.i);
    lemma_assoc(a.k, b.i, c.w);
    lemma_assoc(a.k, b.j, c.k);
    lemma_neg_right(a.k, (b.k * c.j));
    lemma_assoc(a.k, b.k, c.j);
}

/// The `k` component of a product of three quaternions does not depend on the grouping.
proof fn lemma_quat_mul_associative_k(a: Quat, b: Quat, c: Quat)
    ensures
        a.mul(b).mul(c).k == a.mul(b.mul(c)).k,
{
    lemma_sum4_times(c.k, a.w * b.w, -(a.i * b.i), -(a.j * b.j), -(a.k * b.k));
    lemma_neg_left((a.i * b.i), c.k);
    lemma_neg_left((a.j * b.j), c.k);
    lemma_neg_left((a.k * b.k), c.k);
    lemma_sum4_times(c.j, a.w * b.i, a.i * b.w, a.j * b.k, -(a.k * b.j));
    lemma_neg_left((a.k * b.j), c.j);
    lemma_sum4_times(c.i, a.w * b.j, -(a.i * b.k), a.j * b.w, a.k * b.i);
    lemma_neg_left((a.i * b.k), c.i);
    lemma_sum4_times(c.w, a.w * b.k, a.i * b.j, -(a.j * b.i), a.k * b.w);
    lemma_neg_left((a.j * b.i), c.w);
    lemma_times_sum4(a.w, b.w * c.k, b.i * c.j, -(b.j * c.i), b.k * c.w);
    lemma_assoc(a.w, b.w, c.k);
    lemma_assoc(a.w, b.i, c.j);
    lemma_neg_right(a.w, (b.j * c.i));
    lemma_assoc(a.w, b.j, c.i);
    lemma_assoc(a.w, b.k, c.w);
    lemma_times_sum4(a.i, b.w * c.j, -(b.i * c.k), b.j * c.w, b.k * c.i);
    lemma_assoc(a.i, b.w, c.j);
    lemma_neg_right(a.i, (b.i * c.k));
    lemma_assoc(a.i, b.i, c.k);
    lemma_assoc(a.i, b.j, c.w);
    lemma_assoc(a.i, b.k, c.i);
    lemma_times_sum4(a.j, b.w * c.i, b.i * c.w, b.j * c.k, -(b.k * c.j));
    lemma_assoc(a.j, b.w, c.i);
    lemma_assoc(a.j, b.i, c.w);
    lemma_assoc(a.j, b.j, c.k);
    lemma_neg_right(a.j, (b.k * c.j));
    lemma_assoc(a.j, b.k, c.j);
    lemma_times_sum4(a.k, b.w * c.w, -(b.i * c.i), -(b.j * c.j), -(b.k * c.k));
    lemma_assoc(a.k, b.w, c.w);
    lemma_neg_right(a.k, (b.i * c.i));
    lemma_assoc(a.k, b.i, c.i);
    lemma_neg_right(a.k, (b.j * c.j));
    lemma_assoc(a.k, b.j, c.j);
    lemma_neg_right(a.k, (b.k * c.k));
    lemma_assoc(a.k, b.k, c.k);
}

/// The Hamilton product is associative.
pub proof fn law_quat_mul_associative(a: Quat, b: Quat, c: Quat)
    ensures
        a.mul(b).mul(c) == a.mul(b.mul(c)),
{
    lemma_quat_mul_associative_w(a, b, c);
    lemma_quat_mul_associative_i(a, b, c);
    lemma_quat_mul_associative_j(a, b, c);
    lemma_quat_mul_associative_k(a, b, c);
}

/// The `w` component of `a (b + c)`.
proof fn lemma_quat_mul_distributes_left_w(a: Quat, b: Quat, c: Quat)
    ensures
        a.mul(b.add(c)).w == a.mul(b).add(a.mul(c)).w,
{
    lemma_times_sum2(a.w, b.w, c.w);
    lemma_times_sum2(a.i, b.i, c.i);
    lemma_times_sum2(a.j, b.j, c.j);
    lemma_times_sum2(a.k, b.k, c.k);
}

/// The `i` component of `a (b + c)`.
proof fn lemma_quat_mul_distributes_left_i(a: Quat, b: Quat, c: Quat)
    ensures
        a.mul(b.add(c)).i == a.mul(b).add(a.mul(c)).i,
{
    lemma_times_sum2(a.w, b.i, c.i);
    lemma_times_sum2(a.i, b.w, c.w);
    lemma_times_sum2(a.j, b.k, c.k);
    lemma_times_sum2(a.k, b.j, c.j);
}

/// The `j` component of `a (b + c)`.
proof fn lemma_quat_mul_distributes_left_j(a: Quat, b: Quat, c: Quat)
    ensures
        a.mul(b.add(c)).j == a.mul(b).add(a.mul(c)).j,
{
    lemma_times_sum2(a.w, b.j, c.j);
    lemma_times_sum2(a.i, b.k, c.k);
    lemma_times_sum2(a.j, b.w, c.w);
    lemma_times_sum2(a.k, b.i, c.i);
}

/// The `k` component of `a (b + c)`.
proof fn lemma_quat_mul_distributes_left_k(a: Quat, b: Quat, c: Quat)
    ensures
        a.mul(b.add(c)).k == a.mul(b).add(a.mul(c)).k,
{
    lemma_times_sum2(a.w, b.k, c.k);
    lemma_times_sum2(a.i, b.j, c.j);
    lemma_times_sum2(a.j, b.i, c.i);
    lemma_times_sum2(a.k, b.w, c.w);
}

/// The `w` component of `(a + b) c`.
proof fn lemma_quat_mul_distributes_right_w(a: Quat, b: Quat, c: Quat)
    ensures
        a.add(b).mul(c).w == a.mul(c).add(b.mul(c)).w,
{
    lemma_sum2_times(c.w, a.w, b.w);
    lemma_sum2_times(c.i, a.i, b.i);
    lemma_sum2_times(c.j, a.j, b.j);
    lemma_sum2_times(c.k, a.k, b.k);
}

/// The `i` component of `(a + b) c`.
proof fn lemma_quat_mul_distributes_right_i(a: Quat, b: Quat, c: Quat)
    ensures
        a.add(b).mul(c).i == a.mul(c).add(b.mul(c)).i,
{
    lemma_sum2_times(c.i, a.w, b.w);
    lemma_sum2_times(c.w, a.i, b.i);
    lemma_sum2_times(c.k, a.j, b.j);
    lemma_sum2_times(c.j, a.k, b.k);
}

/// The `j` component of `(a + b) c`.
proof fn lemma_quat_mul_distributes_right_j(a: Quat, b: Quat, c: Quat)
    ensures
        a.add(b).mul(c).j == a.mul(c).add(b.mul(c)).j,
{
    lemma_sum2_times(c.j, a.w, b.w);
    lemma_sum2_times(c.k, a.i, b.i);
    lemma_sum2_times(c.w, a.j, b.j);
    lemma_sum2_times(c.i, a.k, b.k);
}

/// The `k` component of `(a + b) c`.
proof fn lemma_quat_mul_distributes_right_k(a: Quat, b: Quat, c: Quat)
    ensures
        a.add(b).mul(c).k == a.mul(c).add(b.mul(c)).k,
{
    lemma_sum2_times(c.k, a.w, b.w);
    lemma_sum2_times(c.j, a.i, b.i);
    lemma_sum2_times(c.i, a.j, b.j);
    lemma_sum2_times(c.w, a.k, b.k);
}

/// The Hamilton product distributes over the sum, on both sides.
pub proof fn law_quat_mul_distributes(a: Quat, b: Quat, c: Quat)
    ensures
        a.mul(b.add(c)) == a.mul(b).add(a.mul(c)),
        a.add(b).mul(c) == a.mul(c).add(b.mul(c)),
{
    lemma_quat_mul_distributes_left_w(a, b, c);
    lemma_quat_mul_distributes_left_i(a, b, c);
    lemma_quat_mul_distributes_left_j(a, b, c);
    lemma_quat_mul_distributes_left_k(a, b, c);
    lemma_quat_mul_distributes_right_w(a, b, c);
    lemma_quat_mul_distributes_right_i(a, b, c);
    lemma_quat_mul_distributes_right_j(a, b, c);
    lemma_quat_mul_distributes_right_k(a, b, c);
}

/// The `w` component of `a (-b)`.
proof fn lemma_quat_mul_neg_right_w(a: Quat, b: Quat)
    ensures
        a.mul(b.neg()).w == a.mul(b).neg().w,
{
    lemma_neg_right(a.w, b.w);
    lemma_neg_right(a.i, b.i);
    lemma_neg_right(a.j, b.j);
    lemma_neg_right(a.k, b.k);
}

/// The `i` component of `a (-b)`.
proof fn lemma_quat_mul_neg_right_i(a: Quat, b: Quat)
    ensures
        a.mul(b.neg()).i == a.mul(b).neg().i,
{
    lemma_neg_right(a.w, b.i);
    lemma_neg_right(a.i, b.w);
    lemma_neg_right(a.j, b.k);
    lemma_neg_right(a.k, b.j);
}

/// The `j` component of `a (-b)`.
proof fn lemma_quat_mul_neg_right_j(a: Quat, b: Quat)
    ensures
        a.mul(b.neg()).j == a.mul(b).neg().j,
{
    lemma_neg_right(a.w, b.j);
    lemma_neg_right(a.i, b.k);
    lemma_neg_right(a.j, b.w);
    lemma_neg_right(a.k, b.i);
}

/// The `k` component of `a (-b)`.
proof fn lemma_quat_mul_neg_right_k(a: Quat, b: Quat)
    ensures
        a.mul(b.neg()).k == a.mul(b).neg().k,
{
    lemma_neg_right(a.w, b.k);
    lemma_neg_right(a.i, b.j);
    lemma_neg_right(a.j, b.i);
    lemma_neg_right(a.k, b.w);
}

/// The `w` component of `(-a) b`.
proof fn lemma_quat_mul_neg_left_w(a: Quat, b: Quat)
    ensures
        a.neg().mul(b).w == a.mul(b).neg().w,
{
    lemma_neg_left(a.w, b.w);
    lemma_neg_left(a.i, b.i);
    lemma_neg_left(a.j, b.j);
    lemma_neg_left(a.k, b.k);
}

/// The `i` component of `(-a) b`.
proof fn lemma_quat_mul_neg_left_i(a: Quat, b: Quat)
    ensures
        a.neg().mul(b).i == a.mul(b).neg().i,
{
    lemma_neg_left(a.w, b.i);
    lemma_neg_left(a.i, b.w);
    lemma_neg_left(a.j, b.k);
    lemma_neg_left(a.k, b.j);
}

/// The `j` component of `(-a) b`.
proof fn lemma_quat_mul_neg_left_j(a: Quat, b: Quat)
    ensures
        a.neg().mul(b).j == a.mul(b).neg().j,
{
    lemma_neg_left(a.w, b.j);
    lemma_neg_left(a.i, b.k);
    lemma_neg_left(a.j, b.w);
    lemma_neg_left(a.k, b.i);
}

/// The `k` component of `(-a) b`.
proof fn lemma_quat_mul_neg_left_k(a: Quat, b: Quat)
    ensures
        a.neg().mul(b).k == a.mul(b).neg().k,
{
    lemma_neg_left(a.w, b.k);
    lemma_neg_left(a.i, b.j);
    lemma_neg_left(a.j, b.i);
    lemma_neg_left(a.k, b.w);
}

/// A sign moves out of a Hamilton product.
pub proof fn law_quat_mul_neg(a: Quat, b: Quat)
    ensures
        a.mul(b.neg()) == a.mul(b).neg(),
        a.neg().mul(b) == a.mul(b).neg(),
{
    lemma_quat_mul_neg_right_w(a, b);
    lemma_quat_mul_neg_right_i(a, b);
    lemma_quat_mul_neg_right_j(a, b);
    lemma_quat_mul_neg_right_k(a, b);
    lemma_quat_mul_neg_left_w(a, b);
    lemma_quat_mul_neg_left_i(a, b);
    lemma_quat_mul_neg_left_j(a, b);
    lemma_quat_mul_neg_left_k(a, b);
}

/// The `w` component of the conjugate of a product.
proof fn lemma_quat_conj_of_product_w(a: Quat, b: Quat)
    ensures
        a.mul(b).conj().w == b.conj().mul(a.conj()).w,
{
    lemma_comm(b.w, a.w);
    lemma_neg_left(b.i, a.conj().i);
    lemma_neg_right(b.i, a.i);
    lemma_comm(b.i, a.i);
    lemma_neg_left(b.j, a.conj().j);
    lemma_neg_right(b.j, a.j);
    lemma_comm(b.j, a.j);
    lemma_neg_left(b.k, a.conj().k);
    lemma_neg_right(b.k, a.k);
    lemma_comm(b.k, a.k);
}

/// The `i` component of the conjugate of a product.
proof fn lemma_quat_conj_of_product_i(a: Quat, b: Quat)
    ensures
        a.mul(b).conj().i == b.conj().mul(a.conj()).i,
{
    lemma_neg_right(b.w, a.i);
    lemma_comm(b.w, a.i);
    lemma_neg_left(b.i, a.conj().w);
    lemma_comm(b.i, a.w);
    lemma_neg_left(b.j, a.conj().k);
    lemma_neg_right(b.j, a.k);
    lemma_comm(b.j, a.k);
    lemma_neg_left(b.k, a.conj().j);
    lemma_neg_right(b.k, a.j);
    lemma_comm(b.k, a.j);
}

/// The `j` component of the conjugate of a product.
proof fn lemma_quat_conj_of_product_j(a: Quat, b: Quat)
    ensures
        a.mul(b).conj().j == b.conj().mul(a.conj()).j,
{
    lemma_neg_right(b.w, a.j);
    lemma_comm(b.w, a.j);
    lemma_neg_left(b.i, a.conj().k);
    lemma_neg_right(b.i, a.k);
    lemma_comm(b.i, a.k);
    lemma_neg_left(b.j, a.conj().w);
    lemma_comm(b.j, a.w);
    lemma_neg_left(b.k, a.conj().i);
    lemma_neg_right(b.k, a.i);
    lemma_comm(b.k, a.i);
}

/// The `k` component of the conjugate of a product.
proof fn lemma_quat_conj_of_product_k(a: Quat, b: Quat)
    ensures
        a.mul(b).conj().k == b.conj().mul(a.conj()).k,
{
    lemma_neg_right(b.w, a.k);
    lemma_comm(b.w, a.k);
    lemma_neg_left(b.i, a.conj().j);
    lemma_neg_right(b.i, a.j);
    lemma_comm(b.i, a.j);
    lemma_neg_left(b.j, a.conj().i);
    lemma_neg_right(b.j, a.i);
    lemma_comm(b.j, a.i);
    lemma_neg_left(b.k, a.conj().w);
    lemma_comm(b.k, a.w);
}

/// The conjugate of a product is the product of the conjugates in reverse order.
pub proof fn law_quat_conj_of_product(a: Quat, b: Quat)
    ensures
        a.mul(b).conj() == b.conj().mul(a.conj()),
{
    lemma_quat_conj_of_product_w(a, b);
    lemma_quat_conj_of_product_i(a, b);
    lemma_quat_conj_of_product_j(a, b);
    lemma_quat_conj_of_product_k(a, b);
}

/// The `w` component of a quaternion times its conjugate.
proof fn lemma_quat_times_conj_right_w(a: Quat)
    ensures
        a.mul(a.conj()).w == a.norm_sq(),
{
    lemma_neg_right(a.i, a.i);
    lemma_neg_right(a.j, a.j);
    lemma_neg_right(a.k, a.k);
}

/// The `i` component of a quaternion times its conjugate.
proof fn lemma_quat_times_conj_right_i(a: Quat)
    ensures
        a.mul(a.conj()).i == 0,
{
    lemma_neg_right(a.w, a.i);
    lemma_comm(a.w, a.i);
    lemma_neg_right(a.j, a.k);
    lemma_neg_right(a.k, a.j);
    lemma_comm(a.k, a.j);
}

/// The `j` component of a quaternion times its conjugate.
proof fn lemma_quat_times_conj_right_j(a: Quat)
    ensures
        a.mul(a.conj()).j == 0,
{
    lemma_neg_right(a.w, a.j);
    lemma_comm(a.w, a.j);
    lemma_neg_right(a.i, a.k);
    lemma_neg_right(a.k, a.i);
    lemma_comm(a.k, a.i);
}

/// The `k` component of a quaternion times its conjugate.
proof fn lemma_quat_times_conj_right_k(a: Quat)
    ensures
        a.mul(a.conj()).k == 0,
{
    lemma_neg_right(a.w, a.k);
    lemma_comm(a.w, a.k);
    lemma_neg_right(a.i, a.j);
    lemma_neg_right(a.j, a.i);
    lemma_comm(a.j, a.i);
}

/// The `w` component of a quaternion times its conjugate.
proof fn lemma_quat_times_conj_left_w(a: Quat)
    ensures
        a.conj().mul(a).w == a.norm_sq(),
{
    lemma_neg_left(a.i, a.i);
    lemma_neg_left(a.j, a.j);
    lemma_neg_left(a.k, a.k);
}

/// The `i` component of a quaternion times its conjugate.
proof fn lemma_quat_times_conj_left_i(a: Quat)
    ensures
        a.conj().mul(a).i == 0,
{
    lemma_comm(a.w, a.i);
    lemma_neg_left(a.i, a.conj().w);
    lemma_neg_left(a.j, a.k);
    lemma_neg_left(a.k, a.j);
    lemma_comm(a.k, a.j);
}

/// The `j` component of a quaternion times its conjugate.
proof fn lemma_quat_times_conj_left_j(a: Quat)
    ensures
        a.conj().mul(a).j == 0,
{
    lemma_comm(a.w, a.j);
    lemma_neg_left(a.i, a.k);
    lemma_neg_left(a.j, a.conj().w);
    lemma_neg_left(a.k, a.i);
    lemma_comm(a.k, a.i);
}

/// The `k` component of a quaternion times its conjugate.
proof fn lemma_quat_times_conj_left_k(a: Quat)
    ensures
        a.conj().mul(a).k == 0,
{
    lemma_comm(a.w, a.k);
    lemma_neg_left(a.i, a.j);
    lemma_neg_left(a.j, a.i);
    lemma_comm(a.j, a.i);
    lemma_neg_left(a.k, a.conj().w);
}

/// A quaternion times its conjugate, in either order, is the real
/// quaternion of its squared norm.
pub proof fn law_quat_times_conj(a: Quat)
    ensures
        a.mul(a.conj()) == Quat::scalar(a.norm_sq()),
        a.conj().mul(a) == Quat::scalar(a.norm_sq()),
{
    lemma_quat_times_conj_right_w(a);
    lemma_quat_times_conj_right_i(a);
    lemma_quat_times_conj_right_j(a);
    lemma_quat_times_conj_right_k(a);
    lemma_quat_times_conj_left_w(a);
    lemma_quat_times_conj_left_i(a);
    lemma_quat_times_conj_left_j(a);
    lemma_quat_times_conj_left_k(a);
}

/// The squared norm of a product is the product of the squared norms.
pub proof fn law_quat_norm_multiplicative(a: Quat, b: Quat)
    ensures
        a.mul(b).norm_sq() == a.norm_sq() * b.norm_sq(),
{
    lemma_sum4_times(a.mul(b).w, a.w * b.w, -(a.i * b.i), -(a.j * b.j), -(a.k * b.k));
    lemma_times_sum4((a.w * b.w), a.w * b.w, -(a.i * b.i), -(a.j * b.j), -(a.k * b.k));
    lemma_assoc((a.w * b.w), a.w, b.w);
    lemma_swap(a.w, b.w, a.w);
    lemma_neg_right((a.w * b.w), (a.i * b.i));
    lemma_assoc((a.w * b.w), a.i, b.i);
    lemma_swap(a.w, b.w, a.i);
    lemma_comm(a.w, a.i);
    lemma_swap(a.i * a.w, b.w, b.i);
    lemma_neg_right((a.w * b.w), (a.j * b.j));
    lemma_assoc((a.w * b.w), a.j, b.j);
    lemma_swap(a.w, b.w, a.j);
    lemma_comm(a.w, a.j);
    lemma_swap(a.j * a.w, b.w, b.j);
    lemma_neg_right((a.w * b.w), (a.k * b.k));
    lemma_assoc((a.w * b.w), a.k, b.k);
    lemma_swap(a.w, b.w, a.k);
    lemma_comm(a.w, a.k);
    lemma_swap(a.k * a.w, b.w, b.k);
    lemma_neg_left((a.i * b.i), a.mul(b).w);
    lemma_times_sum4((a.i * b.i), a.w * b.w, -(a.i * b.i), -(a.j * b.j), -(a.k * b.k));
    lemma_assoc((a.i * b.i), a.w, b.w);
    lemma_swap(a.i, b.i, a.w);
    lemma_neg_right((a.i * b.i), (a.i * b.i));
    lemma_assoc((a.i * b.i), a.i, b.i);
    lemma_swap(a.i, b.i, a.i);
    lemma_neg_right((a.i * b.i), (a.j * b.j));
    lemma_assoc((a.i * b.i), a.j, b.j);
    lemma_swap(a.i, b.i, a.j);
    lemma_neg_right((a.i * b.i), (a.k * b.k));
    lemma_assoc((a.i * b.i), a.k, b.k);
    lemma_swap(a.i, b.i, a.k);
    lemma_neg_left((a.j * b.j), a.mul(b).w);
    lemma_times_sum4((a.j * b.j), a.w * b.w, -(a.i * b.i), -(a.j * b.j), -(a.k * b.k));
    lemma_assoc((a.j * b.j), a.w, b.w);
    lemma_swap(a.j, b.j, a.w);
    lemma_neg_right((a.j * b.j), (a.i * b.i));
    lemma_assoc((a.j * b.j), a.i, b.i);
    lemma_swap(a.j, b.j, a.i);
    lemma_comm(a.j, a.i);
    lemma_swap(a.i * a.j, b.j, b.i);
    lemma_neg_right((a.j * b.j), (a.j * b.j));
    lemma_assoc((a.j * b.j), a.j, b.j);
    lemma_swap(a.j, b.j, a.j);
    lemma_neg_right((a.j * b.j), (a.k * b.k));
    lemma_assoc((a.j * b.j), a.k, b.k);
    lemma_swap(a.j, b.j, a.k);
    lemma_neg_left((a.k * b.k), a.mul(b).w);
    lemma_times_sum4((a.k * b.k), a.w * b.w, -(a.i * b.i), -(a.j * b.j), -(a.k * b.k));
    lemma_assoc((a.k * b.k), a.w, b.w);
    lemma_swap(a.k, b.k, a.w);
    lemma_neg_right((a.k * b.k), (a.i * b.i));
    lemma_assoc((a.k * b.k), a.i, b.i);
    lemma_swap(a.k, b.k, a.i);
    lemma_comm(a.k, a.i);
    lemma_swap(a.i * a.k, b.k, b.i);
    lemma_neg_right((a.k * b.k), (a.j * b.j));
    lemma_assoc((a.k * b.k), a.j, b.j);
    lemma_swap(a.k, b.k, a.j);
    lemma_comm(a.k, a.j);
    lemma_swap(a.j * a.k, b.k, b.j);
    lemma_neg_right((a.k * b.k), (a.k * b.k));
    lemma_assoc((a.k * b.k), a.k, b.k);
    lemma_swap(a.k, b.k, a.k);
    lemma_sum4_times(a.mul(b).i, a.w * b.i, a.i * b.w, a.j * b.k, -(a.k * b.j));
    lemma_times_sum4((a.w * b.i), a.w * b.i, a.i * b.w, a.j * b.k, -(a.k * b.j));
    lemma_assoc((a.w * b.i), a.w, b.i);
    lemma_swap(a.w, b.i, a.w);
    lemma_assoc((a.w * b.i), a.i, b.w);
    lemma_swap(a.w, b.i, a.i);
    lemma_assoc((a.w * b.i), a.j, b.k);
    lemma_swap(a.w, b.i, a.j);
    lemma_neg_right((a.w * b.i), (a.k * b.j));
    lemma_assoc((a.w * b.i), a.k, b.j);
    lemma_swap(a.w, b.i, a.k);
    lemma_times_sum4((a.i * b.w), a.w * b.i, a.i * b.w, a.j * b.k, -(a.k * b.j));
    lemma_assoc((a.i * b.w), a.w, b.i);
    lemma_swap(a.i, b.w, a.w);
    lemma_assoc((a.i * b.w), a.i, b.w);
    lemma_swap(a.i, b.w, a.i);
    lemma_assoc((a.i * b.w), a.j, b.k);
    lemma_swap(a.i, b.w, a.j);
    lemma_swap(a.i * a.j, b.w, b.k);
    lemma_neg_right((a.i * b.w), (a.k * b.j));
    lemma_assoc((a.i * b.w), a.k, b.j);
    lemma_swap(a.i, b.w, a.k);
    lemma_swap(a.i * a.k, b.w, b.j);
    lemma_times_sum4((a.j * b.k), a.w * b.i, a.i * b.w, a.j * b.k, -(a.k * b.j));
    lemma_assoc((a.j * b.k), a.w, b.i);
    lemma_swap(a.j, b.k, a.w);
    lemma_swap(a.j * a.w, b.k, b.i);
    lemma_assoc((a.j * b.k), a.i, b.w);
    lemma_swap(a.j, b.k, a.i);
    lemma_assoc((a.j * b.k), a.j, b.k);
    lemma_swap(a.j, b.k, a.j);
    lemma_neg_right((a.j * b.k), (a.k * b.j));
    lemma_assoc((a.j * b.k), a.k, b.j);
    lemma_swap(a.j, b.k, a.k);
    lemma_neg_left((a.k * b.j), a.mul(b).i);
    lemma_times_sum4((a.k * b.j), a.w * b.i, a.i * b.w, a.j * b.k, -(a.k * b.j));
    lemma_assoc((a.k * b.j), a.w, b.i);
    lemma_swap(a.k, b.j, a.w);
    lemma_swap(a.k * a.w, b.j, b.i);
    lemma_assoc((a.k * b.j), a.i, b.w);
    lemma_swap(a.k, b.j, a.i);
    lemma_assoc((a.k * b.j), a.j, b.k);
    lemma_swap(a.k, b.j, a.j);
    lemma_neg_right((a.k * b.j), (a.k * b.j));
    lemma_assoc((a.k * b.j), a.k, b.j);
    lemma_swap(a.k, b.j, a.k);
    lemma_sum4_times(a.mul(b).j, a.w * b.j, -(a.i * b.k), a.j * b.w, a.k * b.i);
    lemma_times_sum4((a.w * b.j), a.w * b.j, -(a.i * b.k), a.j * b.w, a.k * b.i);
    lemma_assoc((a.w * b.j), a.w, b.j);
    lemma_swap(a.w, b.j, a.w);
    lemma_neg_right((a.w * b.j), (a.i * b.k));
    lemma_assoc((a.w * b.j), a.i, b.k);
    lemma_swap(a.w, b.j, a.i);
    lemma_assoc((a.w * b.j), a.j, b.w);
    lemma_swap(a.w, b.j, a.j);
    lemma_assoc((a.w * b.j), a.k, b.i);
    lemma_swap(a.w, b.j, a.k);
    lemma_neg_left((a.i * b.k), a.mul(b).j);
    lemma_times_sum4((a.i * b.k), a.w * b.j, -(a.i * b.k), a.j * b.w, a.k * b.i);
    lemma_assoc((a.i * b.k), a.w, b.j);
    lemma_swap(a.i, b.k, a.w);
    lemma_swap(a.i * a.w, b.k, b.j);
    lemma_neg_right((a.i * b.k), (a.i * b.k));
    lemma_assoc((a.i * b.k), a.i, b.k);
    lemma_swap(a.i, b.k, a.i);
    lemma_assoc((a.i * b.k), a.j, b.w);
    lemma_swap(a.i, b.k, a.j);
    lemma_assoc((a.i * b.k), a.k, b.i);
    lemma_swap(a.i, b.k, a.k);
    lemma_times_sum4((a.j * b.w), a.w * b.j, -(a.i * b.k), a.j * b.w, a.k * b.i);
    lemma_assoc((a.j * b.w), a.w, b.j);
    lemma_swap(a.j, b.w, a.w);
    lemma_neg_right((a.j * b.w), (a.i * b.k));
    lemma_assoc((a.j * b.w), a.i, b.k);
    lemma_swap(a.j, b.w, a.i);
    lemma_assoc((a.j * b.w), a.j, b.w);
    lemma_swap(a.j, b.w, a.j);
    lemma_assoc((a.j * b.w), a.k, b.i);
    lemma_swap(a.j, b.w, a.k);
    lemma_swap(a.j * a.k, b.w, b.i);
    lemma_times_sum4((a.k * b.i), a.w * b.j, -(a.i * b.k), a.j * b.w, a.k * b.i);
    lemma_assoc((a.k * b.i), a.w, b.j);
    lemma_swap(a.k, b.i, a.w);
    lemma_neg_right((a.k * b.i), (a.i * b.k));
    lemma_assoc((a.k * b.i), a.i, b.k);
    lemma_swap(a.k, b.i, a.i);
    lemma_assoc((a.k * b.i), a.j, b.w);
    lemma_swap(a.k, b.i, a.j);
    lemma_assoc((a.k * b.i), a.k, b.i);
    lemma_swap(a.k, b.i, a.k);
    lemma_sum4_times(a.mul(b).k, a.w * b.k, a.i * b.j, -(a.j * b.i), a.k * b.w);
    lemma_times_sum4((a.w * b.k), a.w * b.k, a.i * b.j, -(a.j * b.i), a.k * b.w);
    lemma_assoc((a.w * b.k), a.w, b.k);
    lemma_swap(a.w, b.k, a.w);
    lemma_assoc((a.w * b.k), a.i, b.j);
    lemma_swap(a.w, b.k, a.i);
    lemma_neg_right((a.w * b.k), (a.j * b.i));
    lemma_assoc((a.w * b.k), a.j, b.i);
    lemma_swap(a.w, b.k, a.j);
    lemma_assoc((a.w * b.k), a.k, b.w);
    lemma_swap(a.w, b.k, a.k);
    lemma_times_sum4((a.i * b.j), a.w * b.k, a.i * b.j, -(a.j * b.i), a.k * b.w);
    lemma_assoc((a.i * b.j), a.w, b.k);
    lemma_swap(a.i, b.j, a.w);
    lemma_assoc((a.i * b.j), a.i, b.j);
    lemma_swap(a.i, b.j, a.i);
    lemma_neg_right((a.i * b.j), (a.j * b.i));
    lemma_assoc((a.i * b.j), a.j, b.i);
    lemma_swap(a.i, b.j, a.j);
    lemma_assoc((a.i * b.j), a.k, b.w);
    lemma_swap(a.i, b.j, a.k);
    lemma_neg_left((a.j * b.i), a.mul(b).k);
    lemma_times_sum4((a.j * b.i), a.w * b.k, a.i * b.j, -(a.j * b.i), a.k * b.w);
    lemma_assoc((a.j * b.i), a.w, b.k);
    lemma_swap(a.j, b.i, a.w);
    lemma_assoc((a.j * b.i), a.i, b.j);
    lemma_swap(a.j, b.i, a.i);
    lemma_neg_right((a.j * b.i), (a.j * b.i));
    lemma_assoc((a.j * b.i), a.j, b.i);
    lemma_swap(a.j, b.i, a.j);
    lemma_assoc((a.j * b.i), a.k, b.w);
    lemma_swap(a.j, b.i, a.k);
    lemma_times_sum4((a.k * b.w), a.w * b.k, a.i * b.j, -(a.j * b.i), a.k * b.w);
    lemma_assoc((a.k * b.w), a.w, b.k);
    lemma_swap(a.k, b.w, a.w);
    lemma_assoc((a.k * b.w), a.i, b.j);
    lemma_swap(a.k, b.w, a.i);
    lemma_neg_right((a.k * b.w), (a.j * b.i));
    lemma_assoc((a.k * b.w), a.j, b.i);
    lemma_swap(a.k, b.w, a.j);
    lemma_assoc((a.k * b.w), a.k, b.w);
    lemma_swap(a.k, b.w, a.k);
    lemma_sum4_times(b.norm_sq(), a.w * a.w, a.i * a.i, a.j * a.j, a.k * a.k);
    lemma_times_sum4((a.w * a.w), b.w * b.w, b.i * b.i, b.j * b.j, b.k * b.k);
    lemma_assoc((a.w * a.w), b.w, b.w);
    lemma_assoc((a.w * a.w), b.i, b.i);
    lemma_assoc((a.w * a.w), b.j, b.j);
    lemma_assoc((a.w * a.w), b.k, b.k);
    lemma_times_sum4((a.i * a.i), b.w * b.w, b.i * b.i, b.j * b.j, b.k * b.k);
    lemma_assoc((a.i * a.i), b.w, b.w);
    lemma_assoc((a.i * a.i), b.i, b.i);
    lemma_assoc((a.i * a.i), b.j, b.j);
    lemma_assoc((a.i * a.i), b.k, b.k);
    lemma_times_sum4((a.j * a.j), b.w * b.w, b.i * b.i, b.j * b.j, b.k * b.k);
    lemma_assoc((a.j * a.j), b.w, b.w);
    lemma_assoc((a.j * a.j), b.i, b.i);
    lemma_assoc((a.j * a.j), b.j, b.j);
    lemma_assoc((a.j * a.j), b.k, b.k);
    lemma_times_sum4((a.k * a.k), b.w * b.w, b.i * b.i, b.j * b.j, b.k * b.k);
    lemma_assoc((a.k * a.k), b.w, b.w);
    lemma_assoc((a.k * a.k), b.i, b.i);
    lemma_assoc((a.k * a.k), b.j, b.j);
    lemma_assoc((a.k * a.k), b.k, b.k);
}

/// Squares are not negative.
pub proof fn lemma_square_nonnegative(x: int)
    by (nonlinear_arith)
    ensures
        x * x >= 0,
        x * x == 0 <==> x == 0,
{
}

/// The squared norm is zero for the zero quaternion and positive for every other.
pub proof fn law_quat_norm_definite(a: Quat)
    ensures
        a.norm_sq() >= 0,
        a.norm_sq() == 0 <==> a == Quat::scalar(0),
{
    lemma_square_nonnegative(a.w);
    lemma_square_nonnegative(a.i);
    lemma_square_nonnegative(a.j);
    lemma_square_nonnegative(a.k);
}

/// A product of quaternions is zero only if a factor is zero.
pub proof fn law_quat_no_zero_divisors(a: Quat, b: Quat)
    requires
        a.mul(b) == Quat::scalar(0),
    ensures
        a == Quat::scalar(0) || b == Quat::scalar(0),
{
    law_quat_norm_multiplicative(a, b);
    law_quat_norm_definite(a);
    law_quat_norm_definite(b);
    law_quat_norm_definite(a.mul(b));
    if a.norm_sq() != 0 && b.norm_sq() != 0 {
        assert(a.norm_sq() * b.norm_sq() > 0) by (nonlinear_arith)
            requires
                a.norm_sq() > 0,
                b.norm_sq() > 0,
        ;
    }
}

/// The `w` component of `q v conj(q)`.
proof fn lemma_sandwich_w(q: Quat, v: Vec3)
    ensures
        q.mul(Quat::pure(v)).mul(q.conj()).w == 0,
{
    lemma_sum3_times(q.w, -(q.i * v.x), -(q.j * v.y), -(q.k * v.z));
    lemma_neg_left((q.i * v.x), q.w);
    lemma_swap(q.i, v.x, q.w);
    lemma_neg_left((q.j * v.y), q.w);
    lemma_swap(q.j, v.y, q.w);
    lemma_neg_left((q.k * v.z), q.w);
    lemma_swap(q.k, v.z, q.w);
    lemma_sum3_times((-q.i), q.w * v.x, q.j * v.z, -(q.k * v.y));
    lemma_neg_right((q.w * v.x), q.i);
    lemma_swap(q.w, v.x, q.i);
    lemma_comm(q.w, q.i);
    lemma_neg_right((q.j * v.z), q.i);
    lemma_swap(q.j, v.z, q.i);
    lemma_comm(q.j, q.i);
    lemma_neg_left((q.k * v.y), (-q.i));
    lemma_neg_right((q.k * v.y), q.i);
    lemma_swap(q.k, v.y, q.i);
    lemma_comm(q.k, q.i);
    lemma_sum3_times((-q.j), q.w * v.y, -(q.i * v.z), q.k * v.x);
    lemma_neg_right((q.w * v.y), q.j);
    lemma_swap(q.w, v.y, q.j);
    lemma_comm(q.w, q.j);
    lemma_neg_left((q.i * v.z), (-q.j));
    lemma_neg_right((q.i * v.z), q.j);
    lemma_swap(q.i, v.z, q.j);
    lemma_neg_right((q.k * v.x), q.j);
    lemma_swap(q.k, v.x, q.j);
    lemma_comm(q.k, q.j);
    lemma_sum3_times((-q.k), q.w * v.z, q.i * v.y, -(q.j * v.x));
    lemma_neg_right((q.w * v.z), q.k);
    lemma_swap(q.w, v.z, q.k);
    lemma_comm(q.w, q.k);
    lemma_neg_right((q.i * v.y), q.k);
    lemma_swap(q.i, v.y, q.k);
    lemma_neg_left((q.j * v.x), (-q.k));
    lemma_neg_right((q.j * v.x), q.k);
    lemma_swap(q.j, v.x, q.k);
}

/// The `i` component of `q v conj(q)`.
proof fn lemma_sandwich_i(q: Quat, v: Vec3)
    ensures
        q.mul(Quat::pure(v)).mul(q.conj()).i == sandwich(q, v).x,
{
    lemma_sum3_times((-q.i), -(q.i * v.x), -(q.j * v.y), -(q.k * v.z));
    lemma_neg_left((q.i * v.x), (-q.i));
    lemma_neg_right((q.i * v.x), q.i);
    lemma_swap(q.i, v.x, q.i);
    lemma_neg_left((q.j * v.y), (-q.i));
    lemma_neg_right((q.j * v.y), q.i);
    lemma_swap(q.j, v.y, q.i);
    lemma_comm(q.j, q.i);
    lemma_neg_left((q.k * v.z), (-q.i));
    lemma_neg_right((q.k * v.z), q.i);
    lemma_swap(q.k, v.z, q.i);
    lemma_comm(q.k, q.i);
    lemma_sum3_times(q.w, q.w * v.x, q.j * v.z, -(q.k * v.y));
    lemma_swap(q.w, v.x, q.w);
    lemma_swap(q.j, v.z, q.w);
    lemma_neg_left((q.k * v.y), q.w);
    lemma_swap(q.k, v.y, q.w);
    lemma_sum3_times((-q.k), q.w * v.y, -(q.i * v.z), q.k * v.x);
    lemma_neg_right((q.w * v.y), q.k);
    lemma_swap(q.w, v.y, q.k);
    lemma_comm(q.w, q.k);
    lemma_neg_left((q.i * v.z), (-q.k));
    lemma_neg_right((q.i * v.z), q.k);
    lemma_swap(q.i, v.z, q.k);
    lemma_neg_right((q.k * v.x), q.k);
    lemma_swap(q.k, v.x, q.k);
    lemma_sum3_times((-q.j), q.w * v.z, q.i * v.y, -(q.j * v.x));
    lemma_neg_right((q.w * v.z), q.j);
    lemma_swap(q.w, v.z, q.j);
    lemma_comm(q.w, q.j);
    lemma_neg_right((q.i * v.y), q.j);
    lemma_swap(q.i, v.y, q.j);
    lemma_neg_left((q.j * v.x), (-q.j));
    lemma_neg_right((q.j * v.x), q.j);
    lemma_swap(q.j, v.x, q.j);
    lemma_sum4_times(v.x, q.w * q.w, q.i * q.i, q.j * q.j, q.k * q.k);
    lemma_comm(v.y, q.k);
    lemma_times_sum2(q.w, q.j * v.z, -(q.k * v.y));
    lemma_assoc(q.w, q.j, v.z);
    lemma_neg_right(q.w, (q.k * v.y));
    lemma_assoc(q.w, q.k, v.y);
    lemma_comm(v.x, q.j);
    lemma_times_sum2(q.j, q.i * v.y, -(q.j * v.x));
    lemma_assoc(q.j, q.i, v.y);
    lemma_neg_right(q.j, (q.j * v.x));
    lemma_assoc(q.j, q.j, v.x);
    lemma_comm(v.z, q.i);
    lemma_sum2_times(q.k, q.k * v.x, -(q.i * v.z));
    lemma_neg_left((q.i * v.z), q.k);
}

/// The `j` component of `q v conj(q)`.
proof fn lemma_sandwich_j(q: Quat, v: Vec3)
    ensures
        q.mul(Quat::pure(v)).mul(q.conj()).j == sandwich(q, v).y,
{
    lemma_sum3_times((-q.j), -(q.i * v.x), -(q.j * v.y), -(q.k * v.z));
    lemma_neg_left((q.i * v.x), (-q.j));
    lemma_neg_right((q.i * v.x), q.j);
    lemma_swap(q.i, v.x, q.j);
    lemma_neg_left((q.j * v.y), (-q.j));
    lemma_neg_right((q.j * v.y), q.j);
    lemma_swap(q.j, v.y, q.j);
    lemma_neg_left((q.k * v.z), (-q.j));
    lemma_neg_right((q.k * v.z), q.j);
    lemma_swap(q.k, v.z, q.j);
    lemma_comm(q.k, q.j);
    lemma_sum3_times((-q.k), q.w * v.x, q.j * v.z, -(q.k * v.y));
    lemma_neg_right((q.w * v.x), q.k);
    lemma_swap(q.w, v.x, q.k);
    lemma_comm(q.w, q.k);
    lemma_neg_right((q.j * v.z), q.k);
    lemma_swap(q.j, v.z, q.k);
    lemma_neg_left((q.k * v.y), (-q.k));
    lemma_neg_right((q.k * v.y), q.k);
    lemma_swap(q.k, v.y, q.k);
    lemma_sum3_times(q.w, q.w * v.y, -(q.i * v.z), q.k * v.x);
    lemma_swap(q.w, v.y, q.w);
    lemma_neg_left((q.i * v.z), q.w);
    lemma_swap(q.i, v.z, q.w);
    lemma_swap(q.k, v.x, q.w);
    lemma_sum3_times((-q.i), q.w * v.z, q.i * v.y, -(q.j * v.x));
    lemma_neg_right((q.w * v.z), q.i);
    lemma_swap(q.w, v.z, q.i);
    lemma_comm(q.w, q.i);
    lemma_neg_right((q.i * v.y), q.i);
    lemma_swap(q.i, v.y, q.i);
    lemma_neg_left((q.j * v.x), (-q.i));
    lemma_neg_right((q.j * v.x), q.i);
    lemma_swap(q.j, v.x, q.i);
    lemma_comm(q.j, q.i);
    lemma_sum4_times(v.y, q.w * q.w, q.i * q.i, q.j * q.j, q.k * q.k);
    lemma_comm(v.z, q.i);
    lemma_times_sum2(q.w, q.k * v.x, -(q.i * v.z));
    lemma_assoc(q.w, q.k, v.x);
    lemma_neg_right(q.w, (q.i * v.z));
    lemma_assoc(q.w, q.i, v.z);
    lemma_comm(v.y, q.k);
    lemma_times_sum2(q.k, q.j * v.z, -(q.k * v.y));
    lemma_assoc(q.k, q.j, v.z);
    lemma_neg_right(q.k, (q.k * v.y));
    lemma_assoc(q.k, q.k, v.y);
    lemma_comm(v.x, q.j);
    lemma_sum2_times(q.i, q.i * v.y, -(q.j * v.x));
    lemma_neg_left((q.j * v.x), q.i);
}

/// The `k` component of `q v conj(q)`.
proof fn lemma_sandwich_k(q: Quat, v: Vec3)
    ensures
        q.mul(Quat::pure(v)).mul(q.conj()).k == sandwich(q, v).z,
{
    lemma_sum3_times((-q.k), -(q.i * v.x), -(q.j * v.y), -(q.k * v.z));
    lemma_neg_left((q.i * v.x), (-q.k));
    lemma_neg_right((q.i * v.x), q.k);
    lemma_swap(q.i, v.x, q.k);
    lemma_neg_left((q.j * v.y), (-q.k));
    lemma_neg_right((q.j * v.y), q.k);
    lemma_swap(q.j, v.y, q.k);
    lemma_neg_left((q.k * v.z), (-q.k));
    lemma_neg_right((q.k * v.z), q.k);
    lemma_swap(q.k, v.z, q.k);
    lemma_sum3_times((-q.j), q.w * v.x, q.j * v.z, -(q.k * v.y));
    lemma_neg_right((q.w * v.x), q.j);
    lemma_swap(q.w, v.x, q.j);
    lemma_comm(q.w, q.j);
    lemma_neg_right((q.j * v.z), q.j);
    lemma_swap(q.j, v.z, q.j);
    lemma_neg_left((q.k * v.y), (-q.j));
    lemma_neg_right((q.k * v.y), q.j);
    lemma_swap(q.k, v.y, q.j);
    lemma_comm(q.k, q.j);
    lemma_sum3_times((-q.i), q.w * v.y, -(q.i * v.z), q.k * v.x);
    lemma_neg_right((q.w * v.y), q.i);
    lemma_swap(q.w, v.y, q.i);
    lemma_comm(q.w, q.i);
    lemma_neg_left((q.i * v.z), (-q.i));
    lemma_neg_right((q.i * v.z), q.i);
    lemma_swap(q.i, v.z, q.i);
    lemma_neg_right((q.k * v.x), q.i);
    lemma_swap(q.k, v.x, q.i);
    lemma_comm(q.k, q.i);
    lemma_sum3_times(q.w, q.w * v.z, q.i * v.y, -(q.j * v.x));
    lemma_swap(q.w, v.z, q.w);
    lemma_swap(q.i, v.y, q.w);
    lemma_neg_left((q.j * v.x), q.w);
    lemma_swap(q.j, v.x, q.w);
    lemma_sum4_times(v.z, q.w * q.w, q.i * q.i, q.j * q.j, q.k * q.k);
    lemma_comm(v.x, q.j);
    lemma_times_sum2(q.w, q.i * v.y, -(q.j * v.x));
    lemma_assoc(q.w, q.i, v.y);
    lemma_neg_right(q.w, (q.j * v.x));
    lemma_assoc(q.w, q.j, v.x);
    lemma_comm(v.z, q.i);
    lemma_times_sum2(q.i, q.k * v.x, -(q.i * v.z));
    lemma_assoc(q.i, q.k, v.x);
    lemma_neg_right(q.i, (q.i * v.z));
    lemma_assoc(q.i, q.i, v.z);
    lemma_comm(v.y, q.k);
    lemma_sum2_times(q.j, q.j * v.z, -(q.k * v.y));
    lemma_neg_left((q.k * v.y), q.j);
}

/// The sandwich `q v conj(q)` of a vector is a vector again, and it is
/// `|q|^2 v + 2 (w a + u x a)` with `u` the vector part of `q` and `a = u x v`.
pub proof fn law_sandwich_is_conjugation(q: Quat, v: Vec3)
    ensures
        q.mul(Quat::pure(v)).mul(q.conj()) == Quat::pure(sandwich(q, v)),
{
    lemma_sandwich_w(q, v);
    lemma_sandwich_i(q, v);
    lemma_sandwich_j(q, v);
    lemma_sandwich_k(q, v);
}

/// The sandwich scales squared lengths by the square of the squared norm:
/// `|q v conj(q)|^2 = (|q|^2)^2 |v|^2`.
pub proof fn law_sandwich_norm(q: Quat, v: Vec3)
    ensures
        sandwich(q, v).norm_sq() == q.norm_sq() * q.norm_sq() * v.norm_sq(),
{
    let p = Quat::pure(v);
    let s = sandwich(q, v);
    law_sandwich_is_conjugation(q, v);
    law_quat_norm_multiplicative(q.mul(p), q.conj());
    law_quat_norm_multiplicative(q, p);
    assert(Quat::pure(s).norm_sq() == s.norm_sq());
    assert(p.norm_sq() == v.norm_sq());
    lemma_neg_left(q.i, -q.i);
    lemma_neg_right(q.i, q.i);
    lemma_neg_left(q.j, -q.j);
    lemma_neg_right(q.j, q.j);
    lemma_neg_left(q.k, -q.k);
    lemma_neg_right(q.k, q.k);
    assert(q.conj().norm_sq() == q.norm_sq());
    lemma_swap(q.norm_sq(), v.norm_sq(), q.norm_sq());
}

/// Rotation preserves length: for a quaternion of squared norm `one^2` the
/// rotation formula is the sandwich, and it scales squared lengths by
/// `one^4` exactly.
pub proof fn law_rotate_preserves_norm(q: Quat, v: Vec3, one: int)
    requires
        q.norm_sq() == one * one,
    ensures
        rotate(q, v, one) == sandwich(q, v),
        rotate(q, v, one).norm_sq() == (one * one) * (one * one) * v.norm_sq(),
{
    law_sandwich_norm(q, v);
}

/// The squared modulus of a product of complex numbers is the product of
/// the squared moduli.
pub proof fn law_cplx_norm_multiplicative(a: Cplx, b: Cplx)
    ensures
        a.mul(b).norm_sq() == a.norm_sq() * b.norm_sq(),
{
    lemma_sum2_times(a.mul(b).re, a.re * b.re, -(a.im * b.im));
    lemma_times_sum2((a.re * b.re), a.re * b.re, -(a.im * b.im));
    lemma_assoc((a.re * b.re), a.re, b.re);
    lemma_swap(a.re, b.re, a.re);
    lemma_neg_right((a.re * b.re), (a.im * b.im));
    lemma_assoc((a.re * b.re), a.im, b.im);
    lemma_swap(a.re, b.re, a.im);
    lemma_comm(a.re, a.im);
    lemma_swap(a.im * a.re, b.re, b.im);
    lemma_neg_left((a.im * b.im), a.mul(b).re);
    lemma_times_sum2((a.im * b.im), a.re * b.re, -(a.im * b.im));
    lemma_assoc((a.im * b.im), a.re, b.re);
    lemma_swap(a.im, b.im, a.re);
    lemma_neg_right((a.im * b.im), (a.im * b.im));
    lemma_assoc((a.im * b.im), a.im, b.im);
    lemma_swap(a.im, b.im, a.im);
    lemma_sum2_times(a.mul(b).im, a.im * b.re, a.re * b.im);
    lemma_times_sum2((a.im * b.re), a.im * b.re, a.re * b.im);
    lemma_assoc((a.im * b.re), a.im, b.re);
    lemma_swap(a.im, b.re, a.im);
    lemma_assoc((a.im * b.re), a.re, b.im);
    lemma_swap(a.im, b.re, a.re);
    lemma_times_sum2((a.re * b.im), a.im * b.re, a.re * b.im);
    lemma_assoc((a.re * b.im), a.im, b.re);
    lemma_swap(a.re, b.im, a.im);
    lemma_assoc((a.re * b.im), a.re, b.im);
    lemma_swap(a.re, b.im, a.re);
    lemma_sum2_times(b.norm_sq(), a.re * a.re, a.im * a.im);
    lemma_times_sum2((a.re * a.re), b.re * b.re, b.im * b.im);
    lemma_assoc((a.re * a.re), b.re, b.re);
    lemma_assoc((a.re * a.re), b.im, b.im);
    lemma_times_sum2((a.im * a.im), b.re * b.re, b.im * b.im);
    lemma_assoc((a.im * a.im), b.re, b.re);
    lemma_assoc((a.im * a.im), b.im, b.im);
}

/// A complex number times its conjugate is its squared modulus, and the
/// product of complex numbers is commutative.
pub proof fn law_cplx_ring(a: Cplx, b: Cplx)
    ensures
        a.mul(a.conj()) == (Cplx { re: a.norm_sq(), im: 0 }),
        a.mul(b) == b.mul(a),
        a.mul(b).conj() == a.conj().mul(b.conj()),
{
    lemma_neg_right(a.im, a.im);
    lemma_neg_right(a.re, a.im);
    lemma_comm(a.im, a.re);
    lemma_comm(a.re, b.re);
    lemma_comm(a.im, b.im);
    lemma_comm(a.im, b.re);
    lemma_comm(a.re, b.im);
    lemma_neg_left(a.im, -b.im);
    lemma_neg_right(a.im, b.im);
    lemma_neg_left(a.im, b.re);
    lemma_neg_right(a.re, b.im);
}

/// A dual number times its conjugate is the square of its real part, and
/// the product of dual numbers is commutative.
pub proof fn law_dual_number_ring(a: Dual, b: Dual)
    ensures
        a.mul(a.conj()) == (Dual { re: a.re * a.re, du: 0 }),
        a.mul(b) == b.mul(a),
        a.mul(b).conj() == a.conj().mul(b.conj()),
{
    lemma_neg_right(a.re, a.du);
    lemma_comm(a.du, a.re);
    lemma_comm(a.re, b.re);
    lemma_comm(a.re, b.du);
    lemma_comm(a.du, b.re);
    lemma_neg_right(a.re, b.du);
    lemma_neg_left(a.du, b.re);
}


/// The identity of Lagrange: `|u|^2 |w|^2 = (u . w)^2 + |u x w|^2`.
pub proof fn law_lagrange_identity(u: Vec3, w: Vec3)
    ensures
        u.norm_sq() * w.norm_sq() == u.dot(w) * u.dot(w) + u.cross(w).norm_sq(),
{
    lemma_sum3_times(w.norm_sq(), u.x * u.x, u.y * u.y, u.z * u.z);
    lemma_times_sum3((u.x * u.x), w.x * w.x, w.y * w.y, w.z * w.z);
    lemma_assoc((u.x * u.x), w.x, w.x);
    lemma_assoc((u.x * u.x), w.y, w.y);
    lemma_assoc((u.x * u.x), w.z, w.z);
    lemma_times_sum3((u.y * u.y), w.x * w.x, w.y * w.y, w.z * w.z);
    lemma_assoc((u.y * u.y), w.x, w.x);
    lemma_assoc((u.y * u.y), w.y, w.y);
    lemma_assoc((u.y * u.y), w.z, w.z);
    lemma_times_sum3((u.z * u.z), w.x * w.x, w.y * w.y, w.z * w.z);
    lemma_assoc((u.z * u.z), w.x, w.x);
    lemma_assoc((u.z * u.z), w.y, w.y);
    lemma_assoc((u.z * u.z), w.z, w.z);
    lemma_sum3_times(u.dot(w), u.x * w.x, u.y * w.y, u.z * w.z);
    lemma_times_sum3((u.x * w.x), u.x * w.x, u.y * w.y, u.z * w.z);
    lemma_assoc((u.x * w.x), u.x, w.x);
    lemma_swap(u.x, w.x, u.x);
    lemma_assoc((u.x * w.x), u.y, w.y);
    lemma_swap(u.x, w.x, u.y);
    lemma_assoc((u.x * w.x), u.z, w.z);
    lemma_swap(u.x, w.x, u.z);
    lemma_times_sum3((u.y * w.y), u.x * w.x, u.y * w.y, u.z * w.z);
    lemma_assoc((u.y * w.y), u.x, w.x);
    lemma_swap(u.y, w.y, u.x);
    lemma_comm(u.y, u.x);
    lemma_swap(u.x * u.y, w.y, w.x);
    lemma_assoc((u.y * w.y), u.y, w.y);
    lemma_swap(u.y, w.y, u.y);
    lemma_assoc((u.y * w.y), u.z, w.z);
    lemma_swap(u.y, w.y, u.z);
    lemma_times_sum3((u.z * w.z), u.x * w.x, u.y * w.y, u.z * w.z);
    lemma_assoc((u.z * w.z), u.x, w.x);
    lemma_swap(u.z, w.z, u.x);
    lemma_comm(u.z, u.x);
    lemma_swap(u.x * u.z, w.z, w.x);
    lemma_assoc((u.z * w.z), u.y, w.y);
    lemma_swap(u.z, w.z, u.y);
    lemma_comm(u.z, u.y);
    lemma_swap(u.y * u.z, w.z, w.y);
    lemma_assoc((u.z * w.z), u.z, w.z);
    lemma_swap(u.z, w.z, u.z);
    lemma_comm(w.y, u.z);
    lemma_sum2_times(u.cross(w).x, u.y * w.z, -(u.z * w.y));
    lemma_times_sum2((u.y * w.z), u.y * w.z, -(u.z * w.y));
    lemma_assoc((u.y * w.z), u.y, w.z);
    lemma_swap(u.y, w.z, u.y);
    lemma_neg_right((u.y * w.z), (u.z * w.y));
    lemma_assoc((u.y * w.z), u.z, w.y);
    lemma_swap(u.y, w.z, u.z);
    lemma_neg_left((u.z * w.y), u.cross(w).x);
    lemma_times_sum2((u.z * w.y), u.y * w.z, -(u.z * w.y));
    lemma_assoc((u.z * w.y), u.y, w.z);
    lemma_swap(u.z, w.y, u.y);
    lemma_neg_right((u.z * w.y), (u.z * w.y));
    lemma_assoc((u.z * w.y), u.z, w.y);
    lemma_swap(u.z, w.y, u.z);
    lemma_comm(w.z, u.x);
    lemma_sum2_times(u.cross(w).y, u.z * w.x, -(u.x * w.z));
    lemma_times_sum2((u.z * w.x), u.z * w.x, -(u.x * w.z));
    lemma_assoc((u.z * w.x), u.z, w.x);
    lemma_swap(u.z, w.x, u.z);
    lemma_neg_right((u.z * w.x), (u.x * w.z));
    lemma_assoc((u.z * w.x), u.x, w.z);
    lemma_swap(u.z, w.x, u.x);
    lemma_neg_left((u.x * w.z), u.cross(w).y);
    lemma_times_sum2((u.x * w.z), u.z * w.x, -(u.x * w.z));
    lemma_assoc((u.x * w.z), u.z, w.x);
    lemma_swap(u.x, w.z, u.z);
    lemma_neg_right((u.x * w.z), (u.x * w.z));
    lemma_assoc((u.x * w.z), u.x, w.z);
    lemma_swap(u.x, w.z, u.x);
    lemma_comm(w.x, u.y);
    lemma_sum2_times(u.cross(w).z, u.x * w.y, -(u.y * w.x));
    lemma_times_sum2((u.x * w.y), u.x * w.y, -(u.y * w.x));
    lemma_assoc((u.x * w.y), u.x, w.y);
    lemma_swap(u.x, w.y, u.x);
    lemma_neg_right((u.x * w.y), (u.y * w.x));
    lemma_assoc((u.x * w.y), u.y, w.x);
    lemma_swap(u.x, w.y, u.y);
    lemma_neg_left((u.y * w.x), u.cross(w).z);
    lemma_times_sum2((u.y * w.x), u.x * w.y, -(u.y * w.x));
    lemma_assoc((u.y * w.x), u.x, w.y);
    lemma_swap(u.y, w.x, u.x);
    lemma_neg_right((u.y * w.x), (u.y * w.x));
    lemma_assoc((u.y * w.x), u.y, w.x);
    lemma_swap(u.y, w.x, u.y);
}

/// The inequality of Cauchy and Schwarz: `(u . w)^2 <= |u|^2 |w|^2`.
pub proof fn law_cauchy_schwarz(u: Vec3, w: Vec3)
    ensures
        u.dot(w) * u.dot(w) <= u.norm_sq() * w.norm_sq(),
{
    law_lagrange_identity(u, w);
    let c = u.cross(w);
    lemma_square_nonnegative(c.x);
    lemma_square_nonnegative(c.y);
    lemma_square_nonnegative(c.z);
}

/// The squared length of a difference: `|s - k v|^2 = |s|^2 - 2 k (s . v) + k^2 |v|^2`.
pub proof fn lemma_norm_of_difference(s: Vec3, v: Vec3, k: int)
    ensures
        s.sub(v.scale(k)).norm_sq() == s.norm_sq() - 2 * (k * s.dot(v)) + k * k * v.norm_sq(),
{
    lemma_sum2_times(s.sub(v.scale(k)).x, s.x, -(k * v.x));
    lemma_times_sum2(s.x, s.x, -(k * v.x));
    lemma_neg_right(s.x, (k * v.x));
    lemma_assoc(s.x, k, v.x);
    lemma_comm(s.x, k);
    lemma_neg_left((k * v.x), s.sub(v.scale(k)).x);
    lemma_times_sum2((k * v.x), s.x, -(k * v.x));
    lemma_swap(k, v.x, s.x);
    lemma_neg_right((k * v.x), (k * v.x));
    lemma_assoc((k * v.x), k, v.x);
    lemma_swap(k, v.x, k);
    lemma_sum2_times(s.sub(v.scale(k)).y, s.y, -(k * v.y));
    lemma_times_sum2(s.y, s.y, -(k * v.y));
    lemma_neg_right(s.y, (k * v.y));
    lemma_assoc(s.y, k, v.y);
    lemma_comm(s.y, k);
    lemma_neg_left((k * v.y), s.sub(v.scale(k)).y);
    lemma_times_sum2((k * v.y), s.y, -(k * v.y));
    lemma_swap(k, v.y, s.y);
    lemma_neg_right((k * v.y), (k * v.y));
    lemma_assoc((k * v.y), k, v.y);
    lemma_swap(k, v.y, k);
    lemma_sum2_times(s.sub(v.scale(k)).z, s.z, -(k * v.z));
    lemma_times_sum2(s.z, s.z, -(k * v.z));
    lemma_neg_right(s.z, (k * v.z));
    lemma_assoc(s.z, k, v.z);
    lemma_comm(s.z, k);
    lemma_neg_left((k * v.z), s.sub(v.scale(k)).z);
    lemma_times_sum2((k * v.z), s.z, -(k * v.z));
    lemma_swap(k, v.z, s.z);
    lemma_neg_right((k * v.z), (k * v.z));
    lemma_assoc((k * v.z), k, v.z);
    lemma_swap(k, v.z, k);
    lemma_times_sum3(k, s.x * v.x, s.y * v.y, s.z * v.z);
    lemma_assoc(k, s.x, v.x);
    lemma_assoc(k, s.y, v.y);
    lemma_assoc(k, s.z, v.z);
    lemma_times_sum3((k * k), v.x * v.x, v.y * v.y, v.z * v.z);
    lemma_assoc((k * k), v.x, v.x);
    lemma_assoc((k * k), v.y, v.y);
    lemma_assoc((k * k), v.z, v.z);
}

/// How far the rotation formula is from preserving length, for any
/// quaternion.  With `n = |q|^2` and `k = |n - one^2|`, the squared length
/// of `rotate(q, v, one)` lies between `(n - k)^2 |v|^2` and
/// `(n + k)^2 |v|^2`; for `n = one^2` both are `one^4 |v|^2`.
pub proof fn law_rotate_length_bounds(q: Quat, v: Vec3, one: int)
    ensures
        (q.norm_sq() - abs(q.norm_sq() - one * one)) * (q.norm_sq() - abs(q.norm_sq() - one * one))
            * v.norm_sq() <= rotate(q, v, one).norm_sq(),
        rotate(q, v, one).norm_sq() <= (q.norm_sq() + abs(q.norm_sq() - one * one)) * (q.norm_sq()
            + abs(q.norm_sq() - one * one)) * v.norm_sq(),
{
    let n = q.norm_sq();
    let k = n - one * one;
    let a = abs(k);
    let s = sandwich(q, v);
    let r = rotate(q, v, one);
    let t = v.norm_sq();
    let d = s.dot(v);
    // the rotation formula is the sandwich less `k v`
    lemma_sum2_times(v.x, one * one, k);
    lemma_sum2_times(v.y, one * one, k);
    lemma_sum2_times(v.z, one * one, k);
    assert(r == s.sub(v.scale(k)));
    lemma_norm_of_difference(s, v, k);
    law_sandwich_norm(q, v);
    law_cauchy_schwarz(s, v);
    law_quat_norm_definite(q);
    lemma_square_nonnegative(v.x);
    lemma_square_nonnegative(v.y);
    lemma_square_nonnegative(v.z);
    // |s . v| <= n |v|^2
    let m = n * t;
    assert(m >= 0) by (nonlinear_arith)
        requires
            m == n * t,
            n >= 0,
            t >= 0,
    ;
    assert(n * n * t * t == m * m) by (nonlinear_arith)
        requires
            m == n * t,
    ;
    let e = abs(d);
    assert(e * e == d * d) by (nonlinear_arith)
        requires
            e == d || e == -d,
    ;
    if e > m {
        lemma_square_monotonic(m + 1, e);
        assert((m + 1) * (m + 1) > m * m) by (nonlinear_arith)
            requires
                m >= 0,
        ;
        assert(false);
    }
    lemma_mul_bound(k, d, a, m);
    assert(a * a == k * k) by (nonlinear_arith)
        requires
            a == k || a == -k,
    ;
    assert((n + a) * (n + a) * t == n * n * t + 2 * (a * m) + a * a * t) by (nonlinear_arith)
        requires
            m == n * t,
    ;
    assert((n - a) * (n - a) * t == n * n * t - 2 * (a * m) + a * a * t) by (nonlinear_arith)
        requires
            m == n * t,
    ;
}

/// The product of dual quaternions is associative.
pub proof fn law_dual_mul_associative(a: DualQuat, b: DualQuat, c: DualQuat)
    ensures
        a.mul(b).mul(c) == a.mul(b.mul(c)),
{
    law_quat_mul_associative(a.re(), b.re(), c.re());
    law_quat_mul_associative(a.re(), b.re(), c.du());
    law_quat_mul_associative(a.re(), b.du(), c.re());
    law_quat_mul_associative(a.du(), b.re(), c.re());
    law_quat_mul_distributes(a.re(), b.re().mul(c.du()), b.du().mul(c.re()));
    law_quat_mul_distributes(a.re().mul(b.du()), a.du().mul(b.re()), c.re());
}

/// The line conjugate of a product is the product of the line conjugates
/// in reverse order.
pub proof fn law_dual_conj_of_product(a: DualQuat, b: DualQuat)
    ensures
        a.mul(b).conj() == b.conj().mul(a.conj()),
{
    law_quat_conj_of_product(a.re(), b.re());
    law_quat_conj_of_product(a.re(), b.du());
    law_quat_conj_of_product(a.du(), b.re());
}

/// The point conjugate of a product is the product of the point
/// conjugates in reverse order.
pub proof fn law_dual_sconj_of_product(a: DualQuat, b: DualQuat)
    ensures
        a.mul(b).sconj() == b.sconj().mul(a.sconj()),
{
    law_quat_conj_of_product(a.re(), b.re());
    law_quat_conj_of_product(a.re(), b.du());
    law_quat_conj_of_product(a.du(), b.re());
    law_quat_mul_neg(b.re().conj(), a.du().conj());
    law_quat_mul_neg(b.du().conj(), a.re().conj());
}

/// The dual conjugate of a product is the product of the dual conjugates.
pub proof fn law_dual_iconj_of_product(a: DualQuat, b: DualQuat)
    ensures
        a.mul(b).iconj() == a.iconj().mul(b.iconj()),
{
    law_quat_mul_neg(a.re(), b.du());
    law_quat_mul_neg(a.du(), b.re());
}

/// The three conjugates undo themselves, and each is the composition of
/// the other two.
pub proof fn law_dual_conjugates(a: DualQuat)
    ensures
        a.conj().conj() == a,
        a.sconj().sconj() == a,
        a.iconj().iconj() == a,
        a.conj().iconj() == a.sconj(),
        a.iconj().conj() == a.sconj(),
        a.conj().sconj() == a.iconj(),
        a.sconj().iconj() == a.conj(),
{
}

/// The condition of Study under the product:
/// `study(a b) = |a|^2 study(b) + |b|^2 study(a)`.
pub proof fn law_study_of_product(a: DualQuat, b: DualQuat)
    ensures
        a.mul(b).study() == a.norm_sq() * b.study() + b.norm_sq() * a.study(),
{
    lemma_sum4_times(a.mul(b).we, a.w * b.w, -(a.i * b.i), -(a.j * b.j), -(a.k * b.k));
    lemma_times_sum8((a.w * b.w), a.w * b.we, -(a.i * b.ie), -(a.j * b.je), -(a.k * b.ke), a.we * b.w, -(a.ie * b.i), -(a.je * b.j), -(a.ke * b.k));
    lemma_assoc((a.w * b.w), a.w, b.we);
    lemma_swap(a.w, b.w, a.w);
    lemma_neg_right((a.w * b.w), (a.i * b.ie));
    lemma_assoc((a.w * b.w), a.i, b.ie);
    lemma_swap(a.w, b.w, a.i);
    lemma_comm(a.w, a.i);
    lemma_swap(a.i * a.w, b.w, b.ie);
    lemma_neg_right((a.w * b.w), (a.j * b.je));
    lemma_assoc((a.w * b.w), a.j, b.je);
    lemma_swap(a.w, b.w, a.j);
    lemma_comm(a.w, a.j);
    lemma_swap(a.j * a.w, b.w, b.je);
    lemma_neg_right((a.w * b.w), (a.k * b.ke));
    lemma_assoc((a.w * b.w), a.k, b.ke);
    lemma_swap(a.w, b.w, a.k);
    lemma_comm(a.w, a.k);
    lemma_swap(a.k * a.w, b.w, b.ke);
    lemma_assoc((a.w * b.w), a.we, b.w);
    lemma_swap(a.w, b.w, a.we);
    lemma_neg_right((a.w * b.w), (a.ie * b.i));
    lemma_assoc((a.w * b.w), a.ie, b.i);
    lemma_swap(a.w, b.w, a.ie);
    lemma_comm(a.w, a.ie);
    lemma_swap(a.ie * a.w, b.w, b.i);
    lemma_neg_right((a.w * b.w), (a.je * b.j));
    lemma_assoc((a.w * b.w), a.je, b.j);
    lemma_swap(a.w, b.w, a.je);
    lemma_comm(a.w, a.je);
    lemma_swap(a.je * a.w, b.w, b.j);
    lemma_neg_right((a.w * b.w), (a.ke * b.k));
    lemma_assoc((a.w * b.w), a.ke, b.k);
    lemma_swap(a.w, b.w, a.ke);
    lemma_comm(a.w, a.ke);
    lemma_swap(a.ke * a.w, b.w, b.k);
    lemma_neg_left((a.i * b.i), a.mul(b).we);
    lemma_times_sum8((a.i * b.i), a.w * b.we, -(a.i * b.ie), -(a.j * b.je), -(a.k * b.ke), a.we * b.w, -(a.ie * b.i), -(a.je * b.j), -(a.ke * b.k));
    lemma_assoc((a.i * b.i), a.w, b.we);
    lemma_swap(a.i, b.i, a.w);
    lemma_neg_right((a.i * b.i), (a.i * b.ie));
    lemma_assoc((a.i * b.i), a.i, b.ie);
    lemma_swap(a.i, b.i, a.i);
    lemma_neg_right((a.i * b.i), (a.j * b.je));
    lemma_assoc((a.i * b.i), a.j, b.je);
    lemma_swap(a.i, b.i, a.j);
    lemma_neg_right((a.i * b.i), (a.k * b.ke));
    lemma_assoc((a.i * b.i), a.k, b.ke);
    lemma_swap(a.i, b.i, a.k);
    lemma_assoc((a.i * b.i), a.we, b.w);
    lemma_swap(a.i, b.i, a.we);
    lemma_neg_right((a.i * b.i), (a.ie * b.i));
    lemma_assoc((a.i * b.i), a.ie, b.i);
    lemma_swap(a.i, b.i, a.ie);
    lemma_neg_right((a.i * b.i), (a.je * b.j));
    lemma_assoc((a.i * b.i), a.je, b.j);
    lemma_swap(a.i, b.i, a.je);
    lemma_neg_right((a.i * b.i), (a.ke * b.k));
    lemma_assoc((a.i * b.i), a.ke, b.k);
    lemma_swap(a.i, b.i, a.ke);
    lemma_neg_left((a.j * b.j), a.mul(b).we);
    lemma_times_sum8((a.j * b.j), a.w * b.we, -(a.i * b.ie), -(a.j * b.je), -(a.k * b.ke), a.we * b.w, -(a.ie * b.i), -(a.je * b.j), -(a.ke * b.k));
    lemma_assoc((a.j * b.j), a.w, b.we);
    lemma_swap(a.j, b.j, a.w);
    lemma_neg_right((a.j * b.j), (a.i * b.ie));
    lemma_assoc((a.j * b.j), a.i, b.ie);
    lemma_swap(a.j, b.j, a.i);
    lemma_comm(a.j, a.i);
    lemma_swap(a.i * a.j, b.j, b.ie);
    lemma_neg_right((a.j * b.j), (a.j * b.je));
    lemma_assoc((a.j * b.j), a.j, b.je);
    lemma_swap(a.j, b.j, a.j);
    lemma_neg_right((a.j * b.j), (a.k * b.ke));
    lemma_assoc((a.j * b.j), a.k, b.ke);
    lemma_swap(a.j, b.j, a.k);
    lemma_assoc((a.j * b.j), a.we, b.w);
    lemma_swap(a.j, b.j, a.we);
    lemma_neg_right((a.j * b.j), (a.ie * b.i));
    lemma_assoc((a.j * b.j), a.ie, b.i);
    lemma_swap(a.j, b.j, a.ie);
    lemma_comm(a.j, a.ie);
    lemma_swap(a.ie * a.j, b.j, b.i);
    lemma_neg_right((a.j * b.j), (a.je * b.j));
    lemma_assoc((a.j * b.j), a.je, b.j);
    lemma_swap(a.j, b.j, a.je);
    lemma_neg_right((a.j * b.j), (a.ke * b.k));
    lemma_assoc((a.j * b.j), a.ke, b.k);
    lemma_swap(a.j, b.j, a.ke);
    lemma_neg_left((a.k * b.k), a.mul(b).we);
    lemma_times_sum8((a.k * b.k), a.w * b.we, -(a.i * b.ie), -(a.j * b.je), -(a.k * b.ke), a.we * b.w, -(a.ie * b.i), -(a.je * b.j), -(a.ke * b.k));
    lemma_assoc((a.k * b.k), a.w, b.we);
    lemma_swap(a.k, b.k, a.w);
    lemma_neg_right((a.k * b.k), (a.i * b.ie));
    lemma_assoc((a.k * b.k), a.i, b.ie);
    lemma_swap(a.k, b.k, a.i);
    lemma_comm(a.k, a.i);
    lemma_swap(a.i * a.k, b.k, b.ie);
    lemma_neg_right((a.k * b.k), (a.j * b.je));
    lemma_assoc((a.k * b.k), a.j, b.je);
    lemma_swap(a.k, b.k, a.j);
    lemma_comm(a.k, a.j);
    lemma_swap(a.j * a.k, b.k, b.je);
    lemma_neg_right((a.k * b.k), (a.k * b.ke));
    lemma_assoc((a.k * b.k), a.k, b.ke);
    lemma_swap(a.k, b.k, a.k);
    lemma_assoc((a.k * b.k), a.we, b.w);
    lemma_swap(a.k, b.k, a.we);
    lemma_neg_right((a.k * b.k), (a.ie * b.i));
    lemma_assoc((a.k * b.k), a.ie, b.i);
    lemma_swap(a.k, b.k, a.ie);
    lemma_comm(a.k, a.ie);
    lemma_swap(a.ie * a.k, b.k, b.i);
    lemma_neg_right((a.k * b.k), (a.je * b.j));
    lemma_assoc((a.k * b.k), a.je, b.j);
    lemma_swap(a.k, b.k, a.je);
    lemma_comm(a.k, a.je);
    lemma_swap(a.je * a.k, b.k, b.j);
    lemma_neg_right((a.k * b.k), (a.ke * b.k));
    lemma_assoc((a.k * b.k), a.ke, b.k);
    lemma_swap(a.k, b.k, a.ke);
    lemma_sum4_times(a.mul(b).ie, a.w * b.i, a.i * b.w, a.j * b.k, -(a.k * b.j));
    lemma_times_sum8((a.w * b.i), a.w * b.ie, a.i * b.we, a.j * b.ke, -(a.k * b.je), a.we * b.i, a.ie * b.w, a.je * b.k, -(a.ke * b.j));
    lemma_assoc((a.w * b.i), a.w, b.ie);
    lemma_swap(a.w, b.i, a.w);
    lemma_assoc((a.w * b.i), a.i, b.we);
    lemma_swap(a.w, b.i, a.i);
    lemma_assoc((a.w * b.i), a.j, b.ke);
    lemma_swap(a.w, b.i, a.j);
    lemma_neg_right((a.w * b.i), (a.k * b.je));
    lemma_assoc((a.w * b.i), a.k, b.je);
    lemma_swap(a.w, b.i, a.k);
    lemma_assoc((a.w * b.i), a.we, b.i);
    lemma_swap(a.w, b.i, a.we);
    lemma_assoc((a.w * b.i), a.ie, b.w);
    lemma_swap(a.w, b.i, a.ie);
    lemma_assoc((a.w * b.i), a.je, b.k);
    lemma_swap(a.w, b.i, a.je);
    lemma_neg_right((a.w * b.i), (a.ke * b.j));
    lemma_assoc((a.w * b.i), a.ke, b.j);
    lemma_swap(a.w, b.i, a.ke);
    lemma_times_sum8((a.i * b.w), a.w * b.ie, a.i * b.we, a.j * b.ke, -(a.k * b.je), a.we * b.i, a.ie * b.w, a.je * b.k, -(a.ke * b.j));
    lemma_assoc((a.i * b.w), a.w, b.ie);
    lemma_swap(a.i, b.w, a.w);
    lemma_assoc((a.i * b.w), a.i, b.we);
    lemma_swap(a.i, b.w, a.i);
    lemma_assoc((a.i * b.w), a.j, b.ke);
    lemma_swap(a.i, b.w, a.j);
    lemma_swap(a.i * a.j, b.w, b.ke);
    lemma_neg_right((a.i * b.w), (a.k * b.je));
    lemma_assoc((a.i * b.w), a.k, b.je);
    lemma_swap(a.i, b.w, a.k);
    lemma_swap(a.i * a.k, b.w, b.je);
    lemma_assoc((a.i * b.w), a.we, b.i);
    lemma_swap(a.i, b.w, a.we);
    lemma_swap(a.i * a.we, b.w, b.i);
    lemma_assoc((a.i * b.w), a.ie, b.w);
    lemma_swap(a.i, b.w, a.ie);
    lemma_assoc((a.i * b.w), a.je, b.k);
    lemma_swap(a.i, b.w, a.je);
    lemma_swap(a.i * a.je, b.w, b.k);
    lemma_neg_right((a.i * b.w), (a.ke * b.j));
    lemma_assoc((a.i * b.w), a.ke, b.j);
    lemma_swap(a.i, b.w, a.ke);
    lemma_swap(a.i * a.ke, b.w, b.j);
    lemma_times_sum8((a.j * b.k), a.w * b.ie, a.i * b.we, a.j * b.ke, -(a.k * b.je), a.we * b.i, a.ie * b.w, a.je * b.k, -(a.ke * b.j));
    lemma_assoc((a.j * b.k), a.w, b.ie);
    lemma_swap(a.j, b.k, a.w);
    lemma_swap(a.j * a.w, b.k, b.ie);
    lemma_assoc((a.j * b.k), a.i, b.we);
    lemma_swap(a.j, b.k, a.i);
    lemma_assoc((a.j * b.k), a.j, b.ke);
    lemma_swap(a.j, b.k, a.j);
    lemma_neg_right((a.j * b.k), (a.k * b.je));
    lemma_assoc((a.j * b.k), a.k, b.je);
    lemma_swap(a.j, b.k, a.k);
    lemma_assoc((a.j * b.k), a.we, b.i);
    lemma_swap(a.j, b.k, a.we);
    lemma_swap(a.j * a.we, b.k, b.i);
    lemma_assoc((a.j * b.k), a.ie, b.w);
    lemma_swap(a.j, b.k, a.ie);
    lemma_assoc((a.j * b.k), a.je, b.k);
    lemma_swap(a.j, b.k, a.je);
    lemma_neg_right((a.j * b.k), (a.ke * b.j));
    lemma_assoc((a.j * b.k), a.ke, b.j);
    lemma_swap(a.j, b.k, a.ke);
    lemma_swap(a.j * a.ke, b.k, b.j);
    lemma_neg_left((a.k * b.j), a.mul(b).ie);
    lemma_times_sum8((a.k * b.j), a.w * b.ie, a.i * b.we, a.j * b.ke, -(a.k * b.je), a.we * b.i, a.ie * b.w, a.je * b.k, -(a.ke * b.j));
    lemma_assoc((a.k * b.j), a.w, b.ie);
    lemma_swap(a.k, b.j, a.w);
    lemma_swap(a.k * a.w, b.j, b.ie);
    lemma_assoc((a.k * b.j), a.i, b.we);
    lemma_swap(a.k, b.j, a.i);
    lemma_assoc((a.k * b.j), a.j, b.ke);
    lemma_swap(a.k, b.j, a.j);
    lemma_neg_right((a.k * b.j), (a.k * b.je));
    lemma_assoc((a.k * b.j), a.k, b.je);
    lemma_swap(a.k, b.j, a.k);
    lemma_assoc((a.k * b.j), a.we, b.i);
    lemma_swap(a.k, b.j, a.we);
    lemma_swap(a.k * a.we, b.j, b.i);
    lemma_assoc((a.k * b.j), a.ie, b.w);
    lemma_swap(a.k, b.j, a.ie);
    lemma_assoc((a.k * b.j), a.je, b.k);
    lemma_swap(a.k, b.j, a.je);
    lemma_neg_right((a.k * b.j), (a.ke * b.j));
    lemma_assoc((a.k * b.j), a.ke, b.j);
    lemma_swap(a.k, b.j, a.ke);
    lemma_sum4_times(a.mul(b).je, a.w * b.j, -(a.i * b.k), a.j * b.w, a.k * b.i);
    lemma_times_sum8((a.w * b.j), a.w * b.je, -(a.i * b.ke), a.j * b.we, a.k * b.ie, a.we * b.j, -(a.ie * b.k), a.je * b.w, a.ke * b.i);
    lemma_assoc((a.w * b.j), a.w, b.je);
    lemma_swap(a.w, b.j, a.w);
    lemma_neg_right((a.w * b.j), (a.i * b.ke));
    lemma_assoc((a.w * b.j), a.i, b.ke);
    lemma_swap(a.w, b.j, a.i);
    lemma_assoc((a.w * b.j), a.j, b.we);
    lemma_swap(a.w, b.j, a.j);
    lemma_assoc((a.w * b.j), a.k, b.ie);
    lemma_swap(a.w, b.j, a.k);
    lemma_assoc((a.w * b.j), a.we, b.j);
    lemma_swap(a.w, b.j, a.we);
    lemma_neg_right((a.w * b.j), (a.ie * b.k));
    lemma_assoc((a.w * b.j), a.ie, b.k);
    lemma_swap(a.w, b.j, a.ie);
    lemma_assoc((a.w * b.j), a.je, b.w);
    lemma_swap(a.w, b.j, a.je);
    lemma_assoc((a.w * b.j), a.ke, b.i);
    lemma_swap(a.w, b.j, a.ke);
    lemma_swap(a.ke * a.w, b.j, b.i);
    lemma_neg_left((a.i * b.k), a.mul(b).je);
    lemma_times_sum8((a.i * b.k), a.w * b.je, -(a.i * b.ke), a.j * b.we, a.k * b.ie, a.we * b.j, -(a.ie * b.k), a.je * b.w, a.ke * b.i);
    lemma_assoc((a.i * b.k), a.w, b.je);
    lemma_swap(a.i, b.k, a.w);
    lemma_swap(a.i * a.w, b.k, b.je);
    lemma_neg_right((a.i * b.k), (a.i * b.ke));
    lemma_assoc((a.i * b.k), a.i, b.ke);
    lemma_swap(a.i, b.k, a.i);
    lemma_assoc((a.i * b.k), a.j, b.we);
    lemma_swap(a.i, b.k, a.j);
    lemma_assoc((a.i * b.k), a.k, b.ie);
    lemma_swap(a.i, b.k, a.k);
    lemma_assoc((a.i * b.k), a.we, b.j);
    lemma_swap(a.i, b.k, a.we);
    lemma_swap(a.i * a.we, b.k, b.j);
    lemma_neg_right((a.i * b.k), (a.ie * b.k));
    lemma_assoc((a.i * b.k), a.ie, b.k);
    lemma_swap(a.i, b.k, a.ie);
    lemma_assoc((a.i * b.k), a.je, b.w);
    lemma_swap(a.i, b.k, a.je);
    lemma_assoc((a.i * b.k), a.ke, b.i);
    lemma_swap(a.i, b.k, a.ke);
    lemma_swap(a.i * a.ke, b.k, b.i);
    lemma_times_sum8((a.j * b.w), a.w * b.je, -(a.i * b.ke), a.j * b.we, a.k * b.ie, a.we * b.j, -(a.ie * b.k), a.je * b.w, a.ke * b.i);
    lemma_assoc((a.j * b.w), a.w, b.je);
    lemma_swap(a.j, b.w, a.w);
    lemma_neg_right((a.j * b.w), (a.i * b.ke));
    lemma_assoc((a.j * b.w), a.i, b.ke);
    lemma_swap(a.j, b.w, a.i);
    lemma_assoc((a.j * b.w), a.j, b.we);
    lemma_swap(a.j, b.w, a.j);
    lemma_assoc((a.j * b.w), a.k, b.ie);
    lemma_swap(a.j, b.w, a.k);
    lemma_swap(a.j * a.k, b.w, b.ie);
    lemma_assoc((a.j * b.w), a.we, b.j);
    lemma_swap(a.j, b.w, a.we);
    lemma_swap(a.j * a.we, b.w, b.j);
    lemma_neg_right((a.j * b.w), (a.ie * b.k));
    lemma_assoc((a.j * b.w), a.ie, b.k);
    lemma_swap(a.j, b.w, a.ie);
    lemma_swap(a.ie * a.j, b.w, b.k);
    lemma_assoc((a.j * b.w), a.je, b.w);
    lemma_swap(a.j, b.w, a.je);
    lemma_assoc((a.j * b.w), a.ke, b.i);
    lemma_swap(a.j, b.w, a.ke);
    lemma_swap(a.j * a.ke, b.w, b.i);
    lemma_times_sum8((a.k * b.i), a.w * b.je, -(a.i * b.ke), a.j * b.we, a.k * b.ie, a.we * b.j, -(a.ie * b.k), a.je * b.w, a.ke * b.i);
    lemma_assoc((a.k * b.i), a.w, b.je);
    lemma_swap(a.k, b.i, a.w);
    lemma_neg_right((a.k * b.i), (a.i * b.ke));
    lemma_assoc((a.k * b.i), a.i, b.ke);
    lemma_swap(a.k, b.i, a.i);
    lemma_assoc((a.k * b.i), a.j, b.we);
    lemma_swap(a.k, b.i, a.j);
    lemma_assoc((a.k * b.i), a.k, b.ie);
    lemma_swap(a.k, b.i, a.k);
    lemma_assoc((a.k * b.i), a.we, b.j);
    lemma_swap(a.k, b.i, a.we);
    lemma_neg_right((a.k * b.i), (a.ie * b.k));
    lemma_assoc((a.k * b.i), a.ie, b.k);
    lemma_swap(a.k, b.i, a.ie);
    lemma_assoc((a.k * b.i), a.je, b.w);
    lemma_swap(a.k, b.i, a.je);
    lemma_assoc((a.k * b.i), a.ke, b.i);
    lemma_swap(a.k, b.i, a.ke);
    lemma_sum4_times(a.mul(b).ke, a.w * b.k, a.i * b.j, -(a.j * b.i), a.k * b.w);
    lemma_times_sum8((a.w * b.k), a.w * b.ke, a.i * b.je, -(a.j * b.ie), a.k * b.we, a.we * b.k, a.ie * b.j, -(a.je * b.i), a.ke * b.w);
    lemma_assoc((a.w * b.k), a.w, b.ke);
    lemma_swap(a.w, b.k, a.w);
    lemma_assoc((a.w * b.k), a.i, b.je);
    lemma_swap(a.w, b.k, a.i);
    lemma_neg_right((a.w * b.k), (a.j * b.ie));
    lemma_assoc((a.w * b.k), a.j, b.ie);
    lemma_swap(a.w, b.k, a.j);
    lemma_assoc((a.w * b.k), a.k, b.we);
    lemma_swap(a.w, b.k, a.k);
    lemma_assoc((a.w * b.k), a.we, b.k);
    lemma_swap(a.w, b.k, a.we);
    lemma_assoc((a.w * b.k), a.ie, b.j);
    lemma_swap(a.w, b.k, a.ie);
    lemma_swap(a.ie * a.w, b.k, b.j);
    lemma_neg_right((a.w * b.k), (a.je * b.i));
    lemma_assoc((a.w * b.k), a.je, b.i);
    lemma_swap(a.w, b.k, a.je);
    lemma_swap(a.je * a.w, b.k, b.i);
    lemma_assoc((a.w * b.k), a.ke, b.w);
    lemma_swap(a.w, b.k, a.ke);
    lemma_times_sum8((a.i * b.j), a.w * b.ke, a.i * b.je, -(a.j * b.ie), a.k * b.we, a.we * b.k, a.ie * b.j, -(a.je * b.i), a.ke * b.w);
    lemma_assoc((a.i * b.j), a.w, b.ke);
    lemma_swap(a.i, b.j, a.w);
    lemma_assoc((a.i * b.j), a.i, b.je);
    lemma_swap(a.i, b.j, a.i);
    lemma_neg_right((a.i * b.j), (a.j * b.ie));
    lemma_assoc((a.i * b.j), a.j, b.ie);
    lemma_swap(a.i, b.j, a.j);
    lemma_assoc((a.i * b.j), a.k, b.we);
    lemma_swap(a.i, b.j, a.k);
    lemma_assoc((a.i * b.j), a.we, b.k);
    lemma_swap(a.i, b.j, a.we);
    lemma_assoc((a.i * b.j), a.ie, b.j);
    lemma_swap(a.i, b.j, a.ie);
    lemma_neg_right((a.i * b.j), (a.je * b.i));
    lemma_assoc((a.i * b.j), a.je, b.i);
    lemma_swap(a.i, b.j, a.je);
    lemma_swap(a.i * a.je, b.j, b.i);
    lemma_assoc((a.i * b.j), a.ke, b.w);
    lemma_swap(a.i, b.j, a.ke);
    lemma_neg_left((a.j * b.i), a.mul(b).ke);
    lemma_times_sum8((a.j * b.i), a.w * b.ke, a.i * b.je, -(a.j * b.ie), a.k * b.we, a.we * b.k, a.ie * b.j, -(a.je * b.i), a.ke * b.w);
    lemma_assoc((a.j * b.i), a.w, b.ke);
    lemma_swap(a.j, b.i, a.w);
    lemma_assoc((a.j * b.i), a.i, b.je);
    lemma_swap(a.j, b.i, a.i);
    lemma_neg_right((a.j * b.i), (a.j * b.ie));
    lemma_assoc((a.j * b.i), a.j, b.ie);
    lemma_swap(a.j, b.i, a.j);
    lemma_assoc((a.j * b.i), a.k, b.we);
    lemma_swap(a.j, b.i, a.k);
    lemma_assoc((a.j * b.i), a.we, b.k);
    lemma_swap(a.j, b.i, a.we);
    lemma_assoc((a.j * b.i), a.ie, b.j);
    lemma_swap(a.j, b.i, a.ie);
    lemma_neg_right((a.j * b.i), (a.je * b.i));
    lemma_assoc((a.j * b.i), a.je, b.i);
    lemma_swap(a.j, b.i, a.je);
    lemma_assoc((a.j * b.i), a.ke, b.w);
    lemma_swap(a.j, b.i, a.ke);
    lemma_times_sum8((a.k * b.w), a.w * b.ke, a.i * b.je, -(a.j * b.ie), a.k * b.we, a.we * b.k, a.ie * b.j, -(a.je * b.i), a.ke * b.w);
    lemma_assoc((a.k * b.w), a.w, b.ke);
    lemma_swap(a.k, b.w, a.w);
    lemma_assoc((a.k * b.w), a.i, b.je);
    lemma_swap(a.k, b.w, a.i);
    lemma_neg_right((a.k * b.w), (a.j * b.ie));
    lemma_assoc((a.k * b.w), a.j, b.ie);
    lemma_swap(a.k, b.w, a.j);
    lemma_assoc((a.k * b.w), a.k, b.we);
    lemma_swap(a.k, b.w, a.k);
    lemma_assoc((a.k * b.w), a.we, b.k);
    lemma_swap(a.k, b.w, a.we);
    lemma_swap(a.k * a.we, b.w, b.k);
    lemma_assoc((a.k * b.w), a.ie, b.j);
    lemma_swap(a.k, b.w, a.ie);
    lemma_swap(a.ie * a.k, b.w, b.j);
    lemma_neg_right((a.k * b.w), (a.je * b.i));
    lemma_assoc((a.k * b.w), a.je, b.i);
    lemma_swap(a.k, b.w, a.je);
    lemma_swap(a.je * a.k, b.w, b.i);
    lemma_assoc((a.k * b.w), a.ke, b.w);
    lemma_swap(a.k, b.w, a.ke);
    lemma_sum4_times(b.study(), a.w * a.w, a.i * a.i, a.j * a.j, a.k * a.k);
    lemma_times_sum4((a.w * a.w), b.w * b.we, b.i * b.ie, b.j * b.je, b.k * b.ke);
    lemma_assoc((a.w * a.w), b.w, b.we);
    lemma_assoc((a.w * a.w), b.i, b.ie);
    lemma_assoc((a.w * a.w), b.j, b.je);
    lemma_assoc((a.w * a.w), b.k, b.ke);
    lemma_times_sum4((a.i * a.i), b.w * b.we, b.i * b.ie, b.j * b.je, b.k * b.ke);
    lemma_assoc((a.i * a.i), b.w, b.we);
    lemma_assoc((a.i * a.i), b.i, b.ie);
    lemma_assoc((a.i * a.i), b.j, b.je);
    lemma_assoc((a.i * a.i), b.k, b.ke);
    lemma_times_sum4((a.j * a.j), b.w * b.we, b.i * b.ie, b.j * b.je, b.k * b.ke);
    lemma_assoc((a.j * a.j), b.w, b.we);
    lemma_assoc((a.j * a.j), b.i, b.ie);
    lemma_assoc((a.j * a.j), b.j, b.je);
    lemma_assoc((a.j * a.j), b.k, b.ke);
    lemma_times_sum4((a.k * a.k), b.w * b.we, b.i * b.ie, b.j * b.je, b.k * b.ke);
    lemma_assoc((a.k * a.k), b.w, b.we);
    lemma_assoc((a.k * a.k), b.i, b.ie);
    lemma_assoc((a.k * a.k), b.j, b.je);
    lemma_assoc((a.k * a.k), b.k, b.ke);
    lemma_sum4_times(a.study(), b.w * b.w, b.i * b.i, b.j * b.j, b.k * b.k);
    lemma_times_sum4((b.w * b.w), a.w * a.we, a.i * a.ie, a.j * a.je, a.k * a.ke);
    lemma_assoc((b.w * b.w), a.w, a.we);
    lemma_swap(b.w, b.w, a.w);
    lemma_comm(b.w, a.w);
    lemma_swap(a.w * b.w, b.w, a.we);
    lemma_assoc((b.w * b.w), a.i, a.ie);
    lemma_swap(b.w, b.w, a.i);
    lemma_comm(b.w, a.i);
    lemma_swap(a.i * b.w, b.w, a.ie);
    lemma_assoc((b.w * b.w), a.j, a.je);
    lemma_swap(b.w, b.w, a.j);
    lemma_comm(b.w, a.j);
    lemma_swap(a.j * b.w, b.w, a.je);
    lemma_assoc((b.w * b.w), a.k, a.ke);
    lemma_swap(b.w, b.w, a.k);
    lemma_comm(b.w, a.k);
    lemma_swap(a.k * b.w, b.w, a.ke);
    lemma_times_sum4((b.i * b.i), a.w * a.we, a.i * a.ie, a.j * a.je, a.k * a.ke);
    lemma_assoc((b.i * b.i), a.w, a.we);
    lemma_swap(b.i, b.i, a.w);
    lemma_comm(b.i, a.w);
    lemma_swap(a.w * b.i, b.i, a.we);
    lemma_assoc((b.i * b.i), a.i, a.ie);
    lemma_swap(b.i, b.i, a.i);
    lemma_comm(b.i, a.i);
    lemma_swap(a.i * b.i, b.i, a.ie);
    lemma_assoc((b.i * b.i), a.j, a.je);
    lemma_swap(b.i, b.i, a.j);
    lemma_comm(b.i, a.j);
    lemma_swap(a.j * b.i, b.i, a.je);
    lemma_assoc((b.i * b.i), a.k, a.ke);
    lemma_swap(b.i, b.i, a.k);
    lemma_comm(b.i, a.k);
    lemma_swap(a.k * b.i, b.i, a.ke);
    lemma_times_sum4((b.j * b.j), a.w * a.we, a.i * a.ie, a.j * a.je, a.k * a.ke);
    lemma_assoc((b.j * b.j), a.w, a.we);
    lemma_swap(b.j, b.j, a.w);
    lemma_comm(b.j, a.w);
    lemma_swap(a.w * b.j, b.j, a.we);
    lemma_assoc((b.j * b.j), a.i, a.ie);
    lemma_swap(b.j, b.j, a.i);
    lemma_comm(b.j, a.i);
    lemma_swap(a.i * b.j, b.j, a.ie);
    lemma_assoc((b.j * b.j), a.j, a.je);
    lemma_swap(b.j, b.j, a.j);
    lemma_comm(b.j, a.j);
    lemma_swap(a.j * b.j, b.j, a.je);
    lemma_assoc((b.j * b.j), a.k, a.ke);
    lemma_swap(b.j, b.j, a.k);
    lemma_comm(b.j, a.k);
    lemma_swap(a.k * b.j, b.j, a.ke);
    lemma_times_sum4((b.k * b.k), a.w * a.we, a.i * a.ie, a.j * a.je, a.k * a.ke);
    lemma_assoc((b.k * b.k), a.w, a.we);
    lemma_swap(b.k, b.k, a.w);
    lemma_comm(b.k, a.w);
    lemma_swap(a.w * b.k, b.k, a.we);
    lemma_assoc((b.k * b.k), a.i, a.ie);
    lemma_swap(b.k, b.k, a.i);
    lemma_comm(b.k, a.i);
    lemma_swap(a.i * b.k, b.k, a.ie);
    lemma_assoc((b.k * b.k), a.j, a.je);
    lemma_swap(b.k, b.k, a.j);
    lemma_comm(b.k, a.j);
    lemma_swap(a.j * b.k, b.k, a.je);
    lemma_assoc((b.k * b.k), a.k, a.ke);
    lemma_swap(b.k, b.k, a.k);
    lemma_comm(b.k, a.k);
    lemma_swap(a.k * b.k, b.k, a.ke);
}

/// A product of rigid motions is a rigid motion: the squared norms
/// multiply, and where both factors meet the condition of Study so does
/// the product.
pub proof fn law_product_of_motions(a: DualQuat, b: DualQuat)
    requires
        a.study() == 0,
        b.study() == 0,
    ensures
        a.mul(b).norm_sq() == a.norm_sq() * b.norm_sq(),
        a.mul(b).study() == 0,
{
    law_study_of_product(a, b);
    law_quat_norm_multiplicative(a.re(), b.re());
    assert(a.norm_sq() * 0 == 0);
    assert(b.norm_sq() * 0 == 0);
}

/// The image of a line under a rigid motion meets the condition of Study:
/// its direction and its moment are orthogonal.
pub proof fn law_line_image_study(a: DualQuat, l: DualQuat)
    requires
        a.study() == 0,
        l.study() == 0,
    ensures
        a.mul(l).mul(a.conj()).study() == 0,
        a.mul(l).mul(a.conj()).norm_sq() == a.norm_sq() * l.norm_sq() * a.norm_sq(),
{
    law_product_of_motions(a, l);
    lemma_neg_left(a.i, -a.ie);
    lemma_neg_right(a.i, a.ie);
    lemma_neg_left(a.j, -a.je);
    lemma_neg_right(a.j, a.je);
    lemma_neg_left(a.k, -a.ke);
    lemma_neg_right(a.k, a.ke);
    assert(a.conj().study() == a.study());
    lemma_neg_left(a.i, -a.i);
    lemma_neg_right(a.i, a.i);
    lemma_neg_left(a.j, -a.j);
    lemma_neg_right(a.j, a.j);
    lemma_neg_left(a.k, -a.k);
    lemma_neg_right(a.k, a.k);
    assert(a.conj().norm_sq() == a.norm_sq());
    law_product_of_motions(a.mul(l), a.conj());
}

/// A dual quaternion times its line conjugate has no vector parts: it is
/// the squared norm, and twice the sum of the condition of Study in the
/// dual scalar.  For a rigid motion it is the squared norm alone.
pub proof fn law_dual_times_conj(a: DualQuat)
    ensures
        a.mul(a.conj()) == DualQuat::from_parts(
            Quat::scalar(a.norm_sq()),
            Quat::scalar(2 * a.study()),
        ),
        a.conj().mul(a) == a.mul(a.conj()),
{
    law_quat_times_conj(a.re());
    let x = a.re().mul(a.du().conj());
    law_quat_conj_of_product(a.re(), a.du().conj());
    assert(a.du().conj().conj() == a.du());
    assert(a.du().mul(a.re().conj()) == x.conj());
    lemma_neg_right(a.i, a.ie);
    lemma_neg_right(a.j, a.je);
    lemma_neg_right(a.k, a.ke);
    assert(x.w == a.study());
    let y = a.re().conj().mul(a.du());
    law_quat_conj_of_product(a.re().conj(), a.du());
    assert(a.re().conj().conj() == a.re());
    assert(a.du().conj().mul(a.re()) == y.conj());
    lemma_neg_left(a.i, a.ie);
    lemma_neg_left(a.j, a.je);
    lemma_neg_left(a.k, a.ke);
    assert(y.w == a.study());
}

/// The `w` component of the rotation part of `m (one + eps p) sconj(m)`.
proof fn lemma_point_sandwich_re_w(m: DualQuat, p: Vec3, one: int)
    ensures
        m.mul(DualQuat::point(p, one)).mul(m.sconj()).re().w == one * m.norm_sq(),
{
    lemma_swap(m.w, one, m.w);
    lemma_neg_right((m.i * one), m.i);
    lemma_swap(m.i, one, m.i);
    lemma_neg_right((m.j * one), m.j);
    lemma_swap(m.j, one, m.j);
    lemma_neg_right((m.k * one), m.k);
    lemma_swap(m.k, one, m.k);
    lemma_times_sum4(one, m.w * m.w, m.i * m.i, m.j * m.j, m.k * m.k);
    lemma_assoc(one, m.w, m.w);
    lemma_comm(one, m.w);
    lemma_assoc(one, m.i, m.i);
    lemma_comm(one, m.i);
    lemma_assoc(one, m.j, m.j);
    lemma_comm(one, m.j);
    lemma_assoc(one, m.k, m.k);
    lemma_comm(one, m.k);
}

/// The `i` component of the rotation part of `m (one + eps p) sconj(m)`.
proof fn lemma_point_sandwich_re_i(m: DualQuat, p: Vec3, one: int)
    ensures
        m.mul(DualQuat::point(p, one)).mul(m.sconj()).re().i == 0,
{
    lemma_neg_right((m.w * one), m.i);
    lemma_swap(m.w, one, m.i);
    lemma_comm(m.w, m.i);
    lemma_swap(m.i, one, m.w);
    lemma_neg_right((m.j * one), m.k);
    lemma_swap(m.j, one, m.k);
    lemma_neg_right((m.k * one), m.j);
    lemma_swap(m.k, one, m.j);
    lemma_comm(m.k, m.j);
}

/// The `j` component of the rotation part of `m (one + eps p) sconj(m)`.
proof fn lemma_point_sandwich_re_j(m: DualQuat, p: Vec3, one: int)
    ensures
        m.mul(DualQuat::point(p, one)).mul(m.sconj()).re().j == 0,
{
    lemma_neg_right((m.w * one), m.j);
    lemma_swap(m.w, one, m.j);
    lemma_comm(m.w, m.j);
    lemma_neg_right((m.i * one), m.k);
    lemma_swap(m.i, one, m.k);
    lemma_swap(m.j, one, m.w);
    lemma_neg_right((m.k * one), m.i);
    lemma_swap(m.k, one, m.i);
    lemma_comm(m.k, m.i);
}

/// The `k` component of the rotation part of `m (one + eps p) sconj(m)`.
proof fn lemma_point_sandwich_re_k(m: DualQuat, p: Vec3, one: int)
    ensures
        m.mul(DualQuat::point(p, one)).mul(m.sconj()).re().k == 0,
{
    lemma_neg_right((m.w * one), m.k);
    lemma_swap(m.w, one, m.k);
    lemma_comm(m.w, m.k);
    lemma_neg_right((m.i * one), m.j);
    lemma_swap(m.i, one, m.j);
    lemma_neg_right((m.j * one), m.i);
    lemma_swap(m.j, one, m.i);
    lemma_comm(m.j, m.i);
    lemma_swap(m.k, one, m.w);
}

/// The `w` component of the dual part of `m (one + eps p) sconj(m)`.
proof fn lemma_point_sandwich_du_w(m: DualQuat, p: Vec3, one: int)
    ensures
        m.mul(DualQuat::point(p, one)).mul(m.sconj()).du().w == 0,
{
    lemma_neg_right((m.w * one), m.we);
    lemma_swap(m.w, one, m.we);
    lemma_swap(m.i, one, m.ie);
    lemma_swap(m.j, one, m.je);
    lemma_swap(m.k, one, m.ke);
    lemma_sum4_times(m.sconj().re().w, -(m.i * p.x), -(m.j * p.y), -(m.k * p.z), m.we * one);
    lemma_neg_left((m.i * p.x), m.sconj().re().w);
    lemma_swap(m.i, p.x, m.w);
    lemma_neg_left((m.j * p.y), m.sconj().re().w);
    lemma_swap(m.j, p.y, m.w);
    lemma_neg_left((m.k * p.z), m.sconj().re().w);
    lemma_swap(m.k, p.z, m.w);
    lemma_swap(m.we, one, m.w);
    lemma_comm(m.we, m.w);
    lemma_sum4_times(m.sconj().re().i, m.w * p.x, m.j * p.z, -(m.k * p.y), m.ie * one);
    lemma_neg_right((m.w * p.x), m.i);
    lemma_swap(m.w, p.x, m.i);
    lemma_comm(m.w, m.i);
    lemma_neg_right((m.j * p.z), m.i);
    lemma_swap(m.j, p.z, m.i);
    lemma_comm(m.j, m.i);
    lemma_neg_left((m.k * p.y), m.sconj().re().i);
    lemma_neg_right((m.k * p.y), m.i);
    lemma_swap(m.k, p.y, m.i);
    lemma_comm(m.k, m.i);
    lemma_neg_right((m.ie * one), m.i);
    lemma_swap(m.ie, one, m.i);
    lemma_comm(m.ie, m.i);
    lemma_sum4_times(m.sconj().re().j, m.w * p.y, -(m.i * p.z), m.k * p.x, m.je * one);
    lemma_neg_right((m.w * p.y), m.j);
    lemma_swap(m.w, p.y, m.j);
    lemma_comm(m.w, m.j);
    lemma_neg_left((m.i * p.z), m.sconj().re().j);
    lemma_neg_right((m.i * p.z), m.j);
    lemma_swap(m.i, p.z, m.j);
    lemma_neg_right((m.k * p.x), m.j);
    lemma_swap(m.k, p.x, m.j);
    lemma_comm(m.k, m.j);
    lemma_neg_right((m.je * one), m.j);
    lemma_swap(m.je, one, m.j);
    lemma_comm(m.je, m.j);
    lemma_sum4_times(m.sconj().re().k, m.w * p.z, m.i * p.y, -(m.j * p.x), m.ke * one);
    lemma_neg_right((m.w * p.z), m.k);
    lemma_swap(m.w, p.z, m.k);
    lemma_comm(m.w, m.k);
    lemma_neg_right((m.i * p.y), m.k);
    lemma_swap(m.i, p.y, m.k);
    lemma_neg_left((m.j * p.x), m.sconj().re().k);
    lemma_neg_right((m.j * p.x), m.k);
    lemma_swap(m.j, p.x, m.k);
    lemma_neg_right((m.ke * one), m.k);
    lemma_swap(m.ke, one, m.k);
    lemma_comm(m.ke, m.k);
}

/// The `i` component of the dual part of `m (one + eps p) sconj(m)`.
proof fn lemma_point_sandwich_du_i(m: DualQuat, p: Vec3, one: int)
    ensures
        m.mul(DualQuat::point(p, one)).mul(m.sconj()).du().i == scaled_point_image(m, p, one).x,
{
    lemma_swap(m.w, one, m.ie);
    lemma_comm(m.w, m.ie);
    lemma_neg_right((m.i * one), m.we);
    lemma_swap(m.i, one, m.we);
    lemma_swap(m.j, one, m.ke);
    lemma_swap(m.k, one, m.je);
    lemma_comm(m.k, m.je);
    lemma_sum4_times(m.sconj().re().i, -(m.i * p.x), -(m.j * p.y), -(m.k * p.z), m.we * one);
    lemma_neg_left((m.i * p.x), m.sconj().re().i);
    lemma_neg_right((m.i * p.x), m.i);
    lemma_swap(m.i, p.x, m.i);
    lemma_neg_left((m.j * p.y), m.sconj().re().i);
    lemma_neg_right((m.j * p.y), m.i);
    lemma_swap(m.j, p.y, m.i);
    lemma_comm(m.j, m.i);
    lemma_neg_left((m.k * p.z), m.sconj().re().i);
    lemma_neg_right((m.k * p.z), m.i);
    lemma_swap(m.k, p.z, m.i);
    lemma_comm(m.k, m.i);
    lemma_neg_right((m.we * one), m.i);
    lemma_swap(m.we, one, m.i);
    lemma_comm(m.we, m.i);
    lemma_sum4_times(m.sconj().re().w, m.w * p.x, m.j * p.z, -(m.k * p.y), m.ie * one);
    lemma_swap(m.w, p.x, m.w);
    lemma_swap(m.j, p.z, m.w);
    lemma_neg_left((m.k * p.y), m.sconj().re().w);
    lemma_swap(m.k, p.y, m.w);
    lemma_swap(m.ie, one, m.w);
    lemma_sum4_times(m.sconj().re().k, m.w * p.y, -(m.i * p.z), m.k * p.x, m.je * one);
    lemma_neg_right((m.w * p.y), m.k);
    lemma_swap(m.w, p.y, m.k);
    lemma_comm(m.w, m.k);
    lemma_neg_left((m.i * p.z), m.sconj().re().k);
    lemma_neg_right((m.i * p.z), m.k);
    lemma_swap(m.i, p.z, m.k);
    lemma_neg_right((m.k * p.x), m.k);
    lemma_swap(m.k, p.x, m.k);
    lemma_neg_right((m.je * one), m.k);
    lemma_swap(m.je, one, m.k);
    lemma_sum4_times(m.sconj().re().j, m.w * p.z, m.i * p.y, -(m.j * p.x), m.ke * one);
    lemma_neg_right((m.w * p.z), m.j);
    lemma_swap(m.w, p.z, m.j);
    lemma_comm(m.w, m.j);
    lemma_neg_right((m.i * p.y), m.j);
    lemma_swap(m.i, p.y, m.j);
    lemma_neg_left((m.j * p.x), m.sconj().re().j);
    lemma_neg_right((m.j * p.x), m.j);
    lemma_swap(m.j, p.x, m.j);
    lemma_neg_right((m.ke * one), m.j);
    lemma_swap(m.ke, one, m.j);
    lemma_comm(m.ke, m.j);
    lemma_sum4_times(p.x, m.w * m.w, m.i * m.i, m.j * m.j, m.k * m.k);
    lemma_comm(p.y, m.k);
    lemma_comm(one, m.ie);
    lemma_times_sum3(m.w, m.j * p.z, -(m.k * p.y), m.ie * one);
    lemma_assoc(m.w, m.j, p.z);
    lemma_neg_right(m.w, (m.k * p.y));
    lemma_assoc(m.w, m.k, p.y);
    lemma_assoc(m.w, m.ie, one);
    lemma_comm(p.x, m.j);
    lemma_comm(one, m.ke);
    lemma_times_sum3(m.j, m.i * p.y, -(m.j * p.x), m.ke * one);
    lemma_assoc(m.j, m.i, p.y);
    lemma_neg_right(m.j, (m.j * p.x));
    lemma_assoc(m.j, m.j, p.x);
    lemma_assoc(m.j, m.ke, one);
    lemma_comm(p.z, m.i);
    lemma_comm(one, m.je);
    lemma_sum3_times(m.k, m.k * p.x, -(m.i * p.z), m.je * one);
    lemma_neg_left((m.i * p.z), m.k);
    lemma_comm(one, m.we);
}

/// The `j` component of the dual part of `m (one + eps p) sconj(m)`.
proof fn lemma_point_sandwich_du_j(m: DualQuat, p: Vec3, one: int)
    ensures
        m.mul(DualQuat::point(p, one)).mul(m.sconj()).du().j == scaled_point_image(m, p, one).y,
{
    lemma_swap(m.w, one, m.je);
    lemma_comm(m.w, m.je);
    lemma_swap(m.i, one, m.ke);
    lemma_neg_right((m.j * one), m.we);
    lemma_swap(m.j, one, m.we);
    lemma_swap(m.k, one, m.ie);
    lemma_comm(m.k, m.ie);
    lemma_sum4_times(m.sconj().re().j, -(m.i * p.x), -(m.j * p.y), -(m.k * p.z), m.we * one);
    lemma_neg_left((m.i * p.x), m.sconj().re().j);
    lemma_neg_right((m.i * p.x), m.j);
    lemma_swap(m.i, p.x, m.j);
    lemma_neg_left((m.j * p.y), m.sconj().re().j);
    lemma_neg_right((m.j * p.y), m.j);
    lemma_swap(m.j, p.y, m.j);
    lemma_neg_left((m.k * p.z), m.sconj().re().j);
    lemma_neg_right((m.k * p.z), m.j);
    lemma_swap(m.k, p.z, m.j);
    lemma_comm(m.k, m.j);
    lemma_neg_right((m.we * one), m.j);
    lemma_swap(m.we, one, m.j);
    lemma_comm(m.we, m.j);
    lemma_sum4_times(m.sconj().re().k, m.w * p.x, m.j * p.z, -(m.k * p.y), m.ie * one);
    lemma_neg_right((m.w * p.x), m.k);
    lemma_swap(m.w, p.x, m.k);
    lemma_comm(m.w, m.k);
    lemma_neg_right((m.j * p.z), m.k);
    lemma_swap(m.j, p.z, m.k);
    lemma_neg_left((m.k * p.y), m.sconj().re().k);
    lemma_neg_right((m.k * p.y), m.k);
    lemma_swap(m.k, p.y, m.k);
    lemma_neg_right((m.ie * one), m.k);
    lemma_swap(m.ie, one, m.k);
    lemma_sum4_times(m.sconj().re().w, m.w * p.y, -(m.i * p.z), m.k * p.x, m.je * one);
    lemma_swap(m.w, p.y, m.w);
    lemma_neg_left((m.i * p.z), m.sconj().re().w);
    lemma_swap(m.i, p.z, m.w);
    lemma_swap(m.k, p.x, m.w);
    lemma_swap(m.je, one, m.w);
    lemma_sum4_times(m.sconj().re().i, m.w * p.z, m.i * p.y, -(m.j * p.x), m.ke * one);
    lemma_neg_right((m.w * p.z), m.i);
    lemma_swap(m.w, p.z, m.i);
    lemma_comm(m.w, m.i);
    lemma_neg_right((m.i * p.y), m.i);
    lemma_swap(m.i, p.y, m.i);
    lemma_neg_left((m.j * p.x), m.sconj().re().i);
    lemma_neg_right((m.j * p.x), m.i);
    lemma_swap(m.j, p.x, m.i);
    lemma_comm(m.j, m.i);
    lemma_neg_right((m.ke * one), m.i);
    lemma_swap(m.ke, one, m.i);
    lemma_comm(m.ke, m.i);
    lemma_sum4_times(p.y, m.w * m.w, m.i * m.i, m.j * m.j, m.k * m.k);
    lemma_comm(p.z, m.i);
    lemma_comm(one, m.je);
    lemma_times_sum3(m.w, m.k * p.x, -(m.i * p.z), m.je * one);
    lemma_assoc(m.w, m.k, p.x);
    lemma_neg_right(m.w, (m.i * p.z));
    lemma_assoc(m.w, m.i, p.z);
    lemma_assoc(m.w, m.je, one);
    lemma_comm(p.y, m.k);
    lemma_comm(one, m.ie);
    lemma_times_sum3(m.k, m.j * p.z, -(m.k * p.y), m.ie * one);
    lemma_assoc(m.k, m.j, p.z);
    lemma_neg_right(m.k, (m.k * p.y));
    lemma_assoc(m.k, m.k, p.y);
    lemma_assoc(m.k, m.ie, one);
    lemma_comm(p.x, m.j);
    lemma_comm(one, m.ke);
    lemma_sum3_times(m.i, m.i * p.y, -(m.j * p.x), m.ke * one);
    lemma_neg_left((m.j * p.x), m.i);
    lemma_comm(one, m.we);
}

/// The `k` component of the dual part of `m (one + eps p) sconj(m)`.
proof fn lemma_point_sandwich_du_k(m: DualQuat, p: Vec3, one: int)
    ensures
        m.mul(DualQuat::point(p, one)).mul(m.sconj()).du().k == scaled_point_image(m, p, one).z,
{
    lemma_swap(m.w, one, m.ke);
    lemma_comm(m.w, m.ke);
    lemma_swap(m.i, one, m.je);
    lemma_swap(m.j, one, m.ie);
    lemma_comm(m.j, m.ie);
    lemma_neg_right((m.k * one), m.we);
    lemma_swap(m.k, one, m.we);
    lemma_sum4_times(m.sconj().re().k, -(m.i * p.x), -(m.j * p.y), -(m.k * p.z), m.we * one);
    lemma_neg_left((m.i * p.x), m.sconj().re().k);
    lemma_neg_right((m.i * p.x), m.k);
    lemma_swap(m.i, p.x, m.k);
    lemma_neg_left((m.j * p.y), m.sconj().re().k);
    lemma_neg_right((m.j * p.y), m.k);
    lemma_swap(m.j, p.y, m.k);
    lemma_neg_left((m.k * p.z), m.sconj().re().k);
    lemma_neg_right((m.k * p.z), m.k);
    lemma_swap(m.k, p.z, m.k);
    lemma_neg_right((m.we * one), m.k);
    lemma_swap(m.we, one, m.k);
    lemma_comm(m.we, m.k);
    lemma_sum4_times(m.sconj().re().j, m.w * p.x, m.j * p.z, -(m.k * p.y), m.ie * one);
    lemma_neg_right((m.w * p.x), m.j);
    lemma_swap(m.w, p.x, m.j);
    lemma_comm(m.w, m.j);
    lemma_neg_right((m.j * p.z), m.j);
    lemma_swap(m.j, p.z, m.j);
    lemma_neg_left((m.k * p.y), m.sconj().re().j);
    lemma_neg_right((m.k * p.y), m.j);
    lemma_swap(m.k, p.y, m.j);
    lemma_comm(m.k, m.j);
    lemma_neg_right((m.ie * one), m.j);
    lemma_swap(m.ie, one, m.j);
    lemma_sum4_times(m.sconj().re().i, m.w * p.y, -(m.i * p.z), m.k * p.x, m.je * one);
    lemma_neg_right((m.w * p.y), m.i);
    lemma_swap(m.w, p.y, m.i);
    lemma_comm(m.w, m.i);
    lemma_neg_left((m.i * p.z), m.sconj().re().i);
    lemma_neg_right((m.i * p.z), m.i);
    lemma_swap(m.i, p.z, m.i);
    lemma_neg_right((m.k * p.x), m.i);
    lemma_swap(m.k, p.x, m.i);
    lemma_comm(m.k, m.i);
    lemma_neg_right((m.je * one), m.i);
    lemma_swap(m.je, one, m.i);
    lemma_comm(m.je, m.i);
    lemma_sum4_times(m.sconj().re().w, m.w * p.z, m.i * p.y, -(m.j * p.x), m.ke * one);
    lemma_swap(m.w, p.z, m.w);
    lemma_swap(m.i, p.y, m.w);
    lemma_neg_left((m.j * p.x), m.sconj().re().w);
    lemma_swap(m.j, p.x, m.w);
    lemma_swap(m.ke, one, m.w);
    lemma_sum4_times(p.z, m.w * m.w, m.i * m.i, m.j * m.j, m.k * m.k);
    lemma_comm(p.x, m.j);
    lemma_comm(one, m.ke);
    lemma_times_sum3(m.w, m.i * p.y, -(m.j * p.x), m.ke * one);
    lemma_assoc(m.w, m.i, p.y);
    lemma_neg_right(m.w, (m.j * p.x));
    lemma_assoc(m.w, m.j, p.x);
    lemma_assoc(m.w, m.ke, one);
    lemma_comm(p.z, m.i);
    lemma_comm(one, m.je);
    lemma_times_sum3(m.i, m.k * p.x, -(m.i * p.z), m.je * one);
    lemma_assoc(m.i, m.k, p.x);
    lemma_neg_right(m.i, (m.i * p.z));
    lemma_assoc(m.i, m.i, p.z);
    lemma_assoc(m.i, m.je, one);
    lemma_comm(p.y, m.k);
    lemma_comm(one, m.ie);
    lemma_sum3_times(m.j, m.j * p.z, -(m.k * p.y), m.ie * one);
    lemma_neg_left((m.k * p.y), m.j);
    lemma_comm(one, m.we);
}

/// The sandwich of the embedding of a point between a dual quaternion and
/// its point conjugate is the embedding of a point again, scaled by the
/// squared norm: `m (one + eps p) sconj(m) = one |m|^2 + eps p'`.
pub proof fn law_point_sandwich(m: DualQuat, p: Vec3, one: int)
    ensures
        m.mul(DualQuat::point(p, one)).mul(m.sconj()) == DualQuat::from_parts(
            Quat::scalar(one * m.norm_sq()),
            Quat::pure(scaled_point_image(m, p, one)),
        ),
{
    lemma_point_sandwich_re_w(m, p, one);
    lemma_point_sandwich_re_i(m, p, one);
    lemma_point_sandwich_re_j(m, p, one);
    lemma_point_sandwich_re_k(m, p, one);
    lemma_point_sandwich_du_w(m, p, one);
    lemma_point_sandwich_du_i(m, p, one);
    lemma_point_sandwich_du_j(m, p, one);
    lemma_point_sandwich_du_k(m, p, one);
    let l = m.mul(DualQuat::point(p, one)).mul(m.sconj());
    assert(l == DualQuat::from_parts(l.re(), l.du()));
}

/// For a motion of squared norm `one^2`, the formula of the image of a
/// point is the sandwich with the point conjugate:
/// `m (one + eps p) sconj(m) = one^3 + eps point_image(m, p)`.
pub proof fn law_point_image_is_sandwich(m: DualQuat, p: Vec3, one: int)
    requires
        m.norm_sq() == one * one,
    ensures
        m.mul(DualQuat::point(p, one)).mul(m.sconj()) == DualQuat::from_parts(
            Quat::scalar(one * (one * one)),
            Quat::pure(point_image(m, p, one)),
        ),
{
    law_point_sandwich(m, p, one);
}

/// The scalar of the rotation part of the sandwich of a pure dual quaternion.
proof fn lemma_line_image_re(a: DualQuat, l: DualQuat)
    requires
        l.w == 0,
        l.we == 0,
    ensures
        a.mul(l).mul(a.conj()).re().w == 0,
{
    lemma_sum3_times(a.conj().re().w, -(a.i * l.i), -(a.j * l.j), -(a.k * l.k));
    lemma_neg_left((a.i * l.i), a.conj().re().w);
    lemma_swap(a.i, l.i, a.w);
    lemma_neg_left((a.j * l.j), a.conj().re().w);
    lemma_swap(a.j, l.j, a.w);
    lemma_neg_left((a.k * l.k), a.conj().re().w);
    lemma_swap(a.k, l.k, a.w);
    lemma_sum3_times(a.conj().re().i, a.w * l.i, a.j * l.k, -(a.k * l.j));
    lemma_neg_right((a.w * l.i), a.i);
    lemma_swap(a.w, l.i, a.i);
    lemma_comm(a.w, a.i);
    lemma_neg_right((a.j * l.k), a.i);
    lemma_swap(a.j, l.k, a.i);
    lemma_comm(a.j, a.i);
    lemma_neg_left((a.k * l.j), a.conj().re().i);
    lemma_neg_right((a.k * l.j), a.i);
    lemma_swap(a.k, l.j, a.i);
    lemma_comm(a.k, a.i);
    lemma_sum3_times(a.conj().re().j, a.w * l.j, -(a.i * l.k), a.k * l.i);
    lemma_neg_right((a.w * l.j), a.j);
    lemma_swap(a.w, l.j, a.j);
    lemma_comm(a.w, a.j);
    lemma_neg_left((a.i * l.k), a.conj().re().j);
    lemma_neg_right((a.i * l.k), a.j);
    lemma_swap(a.i, l.k, a.j);
    lemma_neg_right((a.k * l.i), a.j);
    lemma_swap(a.k, l.i, a.j);
    lemma_comm(a.k, a.j);
    lemma_sum3_times(a.conj().re().k, a.w * l.k, a.i * l.j, -(a.j * l.i));
    lemma_neg_right((a.w * l.k), a.k);
    lemma_swap(a.w, l.k, a.k);
    lemma_comm(a.w, a.k);
    lemma_neg_right((a.i * l.j), a.k);
    lemma_swap(a.i, l.j, a.k);
    lemma_neg_left((a.j * l.i), a.conj().re().k);
    lemma_neg_right((a.j * l.i), a.k);
    lemma_swap(a.j, l.i, a.k);
}

/// The scalar of the dual part of the sandwich of a pure dual quaternion.
proof fn lemma_line_image_du(a: DualQuat, l: DualQuat)
    requires
        l.w == 0,
        l.we == 0,
    ensures
        a.mul(l).mul(a.conj()).du().w == 0,
{
    lemma_sum3_times(a.conj().du().w, -(a.i * l.i), -(a.j * l.j), -(a.k * l.k));
    lemma_neg_left((a.i * l.i), a.conj().du().w);
    lemma_swap(a.i, l.i, a.we);
    lemma_neg_left((a.j * l.j), a.conj().du().w);
    lemma_swap(a.j, l.j, a.we);
    lemma_neg_left((a.k * l.k), a.conj().du().w);
    lemma_swap(a.k, l.k, a.we);
    lemma_sum3_times(a.conj().du().i, a.w * l.i, a.j * l.k, -(a.k * l.j));
    lemma_neg_right((a.w * l.i), a.ie);
    lemma_swap(a.w, l.i, a.ie);
    lemma_comm(a.w, a.ie);
    lemma_neg_right((a.j * l.k), a.ie);
    lemma_swap(a.j, l.k, a.ie);
    lemma_comm(a.j, a.ie);
    lemma_neg_left((a.k * l.j), a.conj().du().i);
    lemma_neg_right((a.k * l.j), a.ie);
    lemma_swap(a.k, l.j, a.ie);
    lemma_comm(a.k, a.ie);
    lemma_sum3_times(a.conj().du().j, a.w * l.j, -(a.i * l.k), a.k * l.i);
    lemma_neg_right((a.w * l.j), a.je);
    lemma_swap(a.w, l.j, a.je);
    lemma_comm(a.w, a.je);
    lemma_neg_left((a.i * l.k), a.conj().du().j);
    lemma_neg_right((a.i * l.k), a.je);
    lemma_swap(a.i, l.k, a.je);
    lemma_neg_right((a.k * l.i), a.je);
    lemma_swap(a.k, l.i, a.je);
    lemma_comm(a.k, a.je);
    lemma_sum3_times(a.conj().du().k, a.w * l.k, a.i * l.j, -(a.j * l.i));
    lemma_neg_right((a.w * l.k), a.ke);
    lemma_swap(a.w, l.k, a.ke);
    lemma_comm(a.w, a.ke);
    lemma_neg_right((a.i * l.j), a.ke);
    lemma_swap(a.i, l.j, a.ke);
    lemma_neg_left((a.j * l.i), a.conj().du().k);
    lemma_neg_right((a.j * l.i), a.ke);
    lemma_swap(a.j, l.i, a.ke);
    lemma_sum6_times(a.conj().re().w, -(a.i * l.ie), -(a.j * l.je), -(a.k * l.ke), -(a.ie * l.i), -(a.je * l.j), -(a.ke * l.k));
    lemma_neg_left((a.i * l.ie), a.conj().re().w);
    lemma_swap(a.i, l.ie, a.w);
    lemma_neg_left((a.j * l.je), a.conj().re().w);
    lemma_swap(a.j, l.je, a.w);
    lemma_neg_left((a.k * l.ke), a.conj().re().w);
    lemma_swap(a.k, l.ke, a.w);
    lemma_neg_left((a.ie * l.i), a.conj().re().w);
    lemma_swap(a.ie, l.i, a.w);
    lemma_neg_left((a.je * l.j), a.conj().re().w);
    lemma_swap(a.je, l.j, a.w);
    lemma_neg_left((a.ke * l.k), a.conj().re().w);
    lemma_swap(a.ke, l.k, a.w);
    lemma_sum6_times(a.conj().re().i, a.w * l.ie, a.j * l.ke, -(a.k * l.je), a.we * l.i, a.je * l.k, -(a.ke * l.j));
    lemma_neg_right((a.w * l.ie), a.i);
    lemma_swap(a.w, l.ie, a.i);
    lemma_comm(a.w, a.i);
    lemma_neg_right((a.j * l.ke), a.i);
    lemma_swap(a.j, l.ke, a.i);
    lemma_comm(a.j, a.i);
    lemma_neg_left((a.k * l.je), a.conj().re().i);
    lemma_neg_right((a.k * l.je), a.i);
    lemma_swap(a.k, l.je, a.i);
    lemma_comm(a.k, a.i);
    lemma_neg_right((a.we * l.i), a.i);
    lemma_swap(a.we, l.i, a.i);
    lemma_comm(a.we, a.i);
    lemma_neg_right((a.je * l.k), a.i);
    lemma_swap(a.je, l.k, a.i);
    lemma_comm(a.je, a.i);
    lemma_neg_left((a.ke * l.j), a.conj().re().i);
    lemma_neg_right((a.ke * l.j), a.i);
    lemma_swap(a.ke, l.j, a.i);
    lemma_comm(a.ke, a.i);
    lemma_sum6_times(a.conj().re().j, a.w * l.je, -(a.i * l.ke), a.k * l.ie, a.we * l.j, -(a.ie * l.k), a.ke * l.i);
    lemma_neg_right((a.w * l.je), a.j);
    lemma_swap(a.w, l.je, a.j);
    lemma_comm(a.w, a.j);
    lemma_neg_left((a.i * l.ke), a.conj().re().j);
    lemma_neg_right((a.i * l.ke), a.j);
    lemma_swap(a.i, l.ke, a.j);
    lemma_neg_right((a.k * l.ie), a.j);
    lemma_swap(a.k, l.ie, a.j);
    lemma_comm(a.k, a.j);
    lemma_neg_right((a.we * l.j), a.j);
    lemma_swap(a.we, l.j, a.j);
    lemma_comm(a.we, a.j);
    lemma_neg_left((a.ie * l.k), a.conj().re().j);
    lemma_neg_right((a.ie * l.k), a.j);
    lemma_swap(a.ie, l.k, a.j);
    lemma_neg_right((a.ke * l.i), a.j);
    lemma_swap(a.ke, l.i, a.j);
    lemma_comm(a.ke, a.j);
    lemma_sum6_times(a.conj().re().k, a.w * l.ke, a.i * l.je, -(a.j * l.ie), a.we * l.k, a.ie * l.j, -(a.je * l.i));
    lemma_neg_right((a.w * l.ke), a.k);
    lemma_swap(a.w, l.ke, a.k);
    lemma_comm(a.w, a.k);
    lemma_neg_right((a.i * l.je), a.k);
    lemma_swap(a.i, l.je, a.k);
    lemma_neg_left((a.j * l.ie), a.conj().re().k);
    lemma_neg_right((a.j * l.ie), a.k);
    lemma_swap(a.j, l.ie, a.k);
    lemma_neg_right((a.we * l.k), a.k);
    lemma_swap(a.we, l.k, a.k);
    lemma_comm(a.we, a.k);
    lemma_neg_right((a.ie * l.j), a.k);
    lemma_swap(a.ie, l.j, a.k);
    lemma_neg_left((a.je * l.i), a.conj().re().k);
    lemma_neg_right((a.je * l.i), a.k);
    lemma_swap(a.je, l.i, a.k);
}

/// The image of a line is a line: the sandwich `a l conj(a)` of a dual
/// quaternion without scalars has no scalars.
pub proof fn law_line_image_is_pure(a: DualQuat, l: DualQuat)
    requires
        l.is_pure(),
    ensures
        a.mul(l).mul(a.conj()).is_pure(),
{
    lemma_line_image_re(a, l);
    lemma_line_image_du(a, l);
}

/// The conjugates are not interchangeable.  For a dual quaternion `m`
/// whose rotation part is not zero and a dual quaternion `l` whose
/// rotation part is not zero, the sandwich closed with the line conjugate
/// and the sandwich closed with the point conjugate are equal only if the
/// dual part of `m` is zero.
pub proof fn law_conjugates_differ(m: DualQuat, l: DualQuat)
    requires
        m.re() != Quat::scalar(0),
        l.re() != Quat::scalar(0),
        m.du() != Quat::scalar(0),
    ensures
        m.mul(l).mul(m.conj()) != m.mul(l).mul(m.sconj()),
{
    let x = m.mul(l);
    let d = x.re().mul(m.du().conj());
    law_quat_mul_neg(x.re(), m.du().conj());
    if x.mul(m.conj()) == x.mul(m.sconj()) {
        // the dual parts differ by twice x.re() conj(m.du())
        assert(x.mul(m.conj()).du() == d.add(x.du().mul(m.re().conj())));
        assert(x.mul(m.sconj()).du() == d.neg().add(x.du().mul(m.re().conj())));
        assert(d == Quat::scalar(0));
        law_quat_no_zero_divisors(x.re(), m.du().conj());
        law_quat_no_zero_divisors(m.re(), l.re());
        assert(false);
    }
}

/// Sandwiches compose: the sandwich by a product is the sandwich by the
/// second factor followed by the sandwich by the first, for the line
/// conjugate and for the point conjugate.
pub proof fn law_sandwich_composes(a: DualQuat, b: DualQuat, x: DualQuat)
    ensures
        a.mul(b).mul(x).mul(a.mul(b).conj()) == a.mul(b.mul(x).mul(b.conj())).mul(a.conj()),
        a.mul(b).mul(x).mul(a.mul(b).sconj()) == a.mul(b.mul(x).mul(b.sconj())).mul(a.sconj()),
{
    law_dual_conj_of_product(a, b);
    law_dual_sconj_of_product(a, b);
    law_dual_mul_associative(a, b, x);
    law_dual_mul_associative(a, b.mul(x), b.conj().mul(a.conj()));
    law_dual_mul_associative(b.mul(x), b.conj(), a.conj());
    law_dual_mul_associative(a, b.mul(x).mul(b.conj()), a.conj());
    law_dual_mul_associative(a, b.mul(x), b.sconj().mul(a.sconj()));
    law_dual_mul_associative(b.mul(x), b.sconj(), a.sconj());
    law_dual_mul_associative(a, b.mul(x).mul(b.sconj()), a.sconj());
}

/// Motions compose on points: the image under a product is the image under
/// the first factor of the image under the second.  Each image comes scaled
/// by the squared norm of the motion that gave it, and the embedding of the
/// inner image carries that scale in its scalar.
pub proof fn law_point_images_compose(a: DualQuat, b: DualQuat, p: Vec3, one: int)
    ensures
        scaled_point_image(a.mul(b), p, one) == scaled_point_image(
            a,
            scaled_point_image(b, p, one),
            one * b.norm_sq(),
        ),
{
    let inner = scaled_point_image(b, p, one);
    law_sandwich_composes(a, b, DualQuat::point(p, one));
    law_point_sandwich(a.mul(b), p, one);
    law_point_sandwich(b, p, one);
    law_point_sandwich(a, inner, one * b.norm_sq());
    assert(DualQuat::point(inner, one * b.norm_sq()) == DualQuat::from_parts(
        Quat::scalar(one * b.norm_sq()),
        Quat::pure(inner),
    ));
    let whole = a.mul(b).mul(DualQuat::point(p, one)).mul(a.mul(b).sconj());
    assert(whole.du().vec() == scaled_point_image(a.mul(b), p, one));
    assert(whole.du().vec() == scaled_point_image(a, inner, one * b.norm_sq()));
}

} // verus!
