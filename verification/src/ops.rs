//! The operators of the language on the types of the algebra.
//!
//! Each operator is a named operation under its sign: the contract of the
//! operator is that of the operation.
use vstd::prelude::*;
use vstd::std_specs::ops::{
    AddSpecImpl, DivSpecImpl, MulSpecImpl, NegSpecImpl, RemSpecImpl, SubSpecImpl,
};
use crate::angle::Angle;
use crate::complex::Complex;
use crate::direction::Direction;
use crate::dual_numbers::DualNumber;
use crate::dual_quaternion::{DualQuaternion, zero, zero_vector};
use crate::point::Point;
use crate::quaternion::Quaternion;
use crate::scalar::Scalar;
use crate::vector3::Vector3;

verus! {

impl core::ops::Add for Scalar {
    type Output = Scalar;

    /// Sum.
    fn add(self, rhs: Scalar) -> (r: Scalar) {
        Scalar::add(self, rhs)
    }
}

impl AddSpecImpl for Scalar {
    open spec fn obeys_add_spec() -> bool {
        true
    }

    open spec fn add_req(self, rhs: Scalar) -> bool {
        true
    }

    open spec fn add_spec(self, rhs: Scalar) -> Scalar {
        Scalar::add_spec(self, rhs)
    }
}

impl core::ops::Sub for Scalar {
    type Output = Scalar;

    /// Difference.
    fn sub(self, rhs: Scalar) -> (r: Scalar) {
        Scalar::sub(self, rhs)
    }
}

impl SubSpecImpl for Scalar {
    open spec fn obeys_sub_spec() -> bool {
        true
    }

    open spec fn sub_req(self, rhs: Scalar) -> bool {
        true
    }

    open spec fn sub_spec(self, rhs: Scalar) -> Scalar {
        Scalar::sub_spec(self, rhs)
    }
}

impl core::ops::Mul for Scalar {
    type Output = Scalar;

    /// Product, rounded toward zero.
    fn mul(self, rhs: Scalar) -> (r: Scalar) {
        Scalar::mul(self, rhs)
    }
}

impl MulSpecImpl for Scalar {
    open spec fn obeys_mul_spec() -> bool {
        true
    }

    open spec fn mul_req(self, rhs: Scalar) -> bool {
        true
    }

    open spec fn mul_spec(self, rhs: Scalar) -> Scalar {
        Scalar::mul_spec(self, rhs)
    }
}

impl core::ops::Div for Scalar {
    type Output = Scalar;

    /// Quotient, rounded toward zero.
    fn div(self, rhs: Scalar) -> (r: Scalar) {
        Scalar::div(self, rhs)
    }
}

impl DivSpecImpl for Scalar {
    open spec fn obeys_div_spec() -> bool {
        true
    }

    open spec fn div_req(self, rhs: Scalar) -> bool {
        true
    }

    open spec fn div_spec(self, rhs: Scalar) -> Scalar {
        Scalar::div_spec(self, rhs)
    }
}

impl core::ops::Rem for Scalar {
    type Output = Scalar;

    /// Remainder, with the sign of the dividend.
    fn rem(self, rhs: Scalar) -> (r: Scalar) {
        Scalar::rem(self, rhs)
    }
}

impl RemSpecImpl for Scalar {
    open spec fn obeys_rem_spec() -> bool {
        true
    }

    open spec fn rem_req(self, rhs: Scalar) -> bool {
        true
    }

    open spec fn rem_spec(self, rhs: Scalar) -> Scalar {
        Scalar::rem_spec(self, rhs)
    }
}

impl core::ops::Neg for Scalar {
    type Output = Scalar;

    /// Negation.
    fn neg(self) -> (r: Scalar) {
        Scalar::neg(self)
    }
}

impl NegSpecImpl for Scalar {
    open spec fn obeys_neg_spec() -> bool {
        true
    }

    open spec fn neg_req(self) -> bool {
        true
    }

    open spec fn neg_spec(self) -> Scalar {
        Scalar::neg_spec(self)
    }
}

impl core::ops::Add for Angle {
    type Output = Angle;

    /// Sum of both measures.
    fn add(self, rhs: Angle) -> (r: Angle) {
        Angle::add(self, rhs)
    }
}

impl AddSpecImpl for Angle {
    open spec fn obeys_add_spec() -> bool {
        true
    }

    open spec fn add_req(self, rhs: Angle) -> bool {
        true
    }

    open spec fn add_spec(self, rhs: Angle) -> Angle {
        Angle::add_spec(self, rhs)
    }
}

impl core::ops::Sub for Angle {
    type Output = Angle;

    /// Difference of both measures.
    fn sub(self, rhs: Angle) -> (r: Angle) {
        Angle::sub(self, rhs)
    }
}

impl SubSpecImpl for Angle {
    open spec fn obeys_sub_spec() -> bool {
        true
    }

    open spec fn sub_req(self, rhs: Angle) -> bool {
        true
    }

    open spec fn sub_spec(self, rhs: Angle) -> Angle {
        Angle::sub_spec(self, rhs)
    }
}

impl core::ops::Neg for Angle {
    type Output = Angle;

    /// Both measures negated.
    fn neg(self) -> (r: Angle) {
        Angle::neg(self)
    }
}

impl NegSpecImpl for Angle {
    open spec fn obeys_neg_spec() -> bool {
        true
    }

    open spec fn neg_req(self) -> bool {
        true
    }

    open spec fn neg_spec(self) -> Angle {
        Angle::neg_spec(self)
    }
}

impl core::ops::Mul<Scalar> for Angle {
    type Output = Angle;

    /// The degrees multiplied by `rhs`, the radians derived from them.
    fn mul(self, rhs: Scalar) -> (r: Angle) {
        self.scale(&rhs)
    }
}

impl MulSpecImpl<Scalar> for Angle {
    open spec fn obeys_mul_spec() -> bool {
        true
    }

    open spec fn mul_req(self, rhs: Scalar) -> bool {
        true
    }

    open spec fn mul_spec(self, rhs: Scalar) -> Angle {
        self.scale_spec(rhs)
    }
}

impl core::ops::Mul<Angle> for Scalar {
    type Output = Angle;

    /// The degrees of `rhs` multiplied by this scalar, the radians derived from them.
    fn mul(self, rhs: Angle) -> (r: Angle) {
        rhs.scale(&self)
    }
}

impl MulSpecImpl<Angle> for Scalar {
    open spec fn obeys_mul_spec() -> bool {
        true
    }

    open spec fn mul_req(self, rhs: Angle) -> bool {
        true
    }

    open spec fn mul_spec(self, rhs: Angle) -> Angle {
        rhs.scale_spec(self)
    }
}

impl core::ops::Div<Scalar> for Angle {
    type Output = Angle;

    /// The degrees divided by `rhs`, the radians derived from them.
    fn div(self, rhs: Scalar) -> (r: Angle) {
        Angle::div(self, rhs)
    }
}

impl DivSpecImpl<Scalar> for Angle {
    open spec fn obeys_div_spec() -> bool {
        true
    }

    open spec fn div_req(self, rhs: Scalar) -> bool {
        true
    }

    open spec fn div_spec(self, rhs: Scalar) -> Angle {
        Angle::div_spec(self, rhs)
    }
}

impl core::ops::Rem<Scalar> for Angle {
    type Output = Angle;

    /// The remainder of the degrees by `rhs`, the radians derived from it.
    fn rem(self, rhs: Scalar) -> (r: Angle) {
        Angle::rem(self, rhs)
    }
}

impl RemSpecImpl<Scalar> for Angle {
    open spec fn obeys_rem_spec() -> bool {
        true
    }

    open spec fn rem_req(self, rhs: Scalar) -> bool {
        true
    }

    open spec fn rem_spec(self, rhs: Scalar) -> Angle {
        Angle::rem_spec(self, rhs)
    }
}

impl core::ops::Add for Vector3 {
    type Output = Vector3;

    /// Component-wise sum.
    fn add(self, rhs: Vector3) -> (r: Vector3) {
        Vector3::add(self, rhs)
    }
}

impl AddSpecImpl for Vector3 {
    open spec fn obeys_add_spec() -> bool {
        true
    }

    open spec fn add_req(self, rhs: Vector3) -> bool {
        true
    }

    open spec fn add_spec(self, rhs: Vector3) -> Vector3 {
        Vector3::add_spec(self, rhs)
    }
}

impl core::ops::Sub for Vector3 {
    type Output = Vector3;

    /// Component-wise difference.
    fn sub(self, rhs: Vector3) -> (r: Vector3) {
        Vector3::sub(self, rhs)
    }
}

impl SubSpecImpl for Vector3 {
    open spec fn obeys_sub_spec() -> bool {
        true
    }

    open spec fn sub_req(self, rhs: Vector3) -> bool {
        true
    }

    open spec fn sub_spec(self, rhs: Vector3) -> Vector3 {
        Vector3::sub_spec(self, rhs)
    }
}

impl core::ops::Neg for Vector3 {
    type Output = Vector3;

    /// Every component negated.
    fn neg(self) -> (r: Vector3) {
        Vector3::neg(self)
    }
}

impl NegSpecImpl for Vector3 {
    open spec fn obeys_neg_spec() -> bool {
        true
    }

    open spec fn neg_req(self) -> bool {
        true
    }

    open spec fn neg_spec(self) -> Vector3 {
        Vector3::neg_spec(self)
    }
}

impl core::ops::Mul<Scalar> for Vector3 {
    type Output = Vector3;

    /// Every component multiplied by `rhs`.
    fn mul(self, rhs: Scalar) -> (r: Vector3) {
        self.scale(&rhs)
    }
}

impl MulSpecImpl<Scalar> for Vector3 {
    open spec fn obeys_mul_spec() -> bool {
        true
    }

    open spec fn mul_req(self, rhs: Scalar) -> bool {
        true
    }

    open spec fn mul_spec(self, rhs: Scalar) -> Vector3 {
        self.scale_spec(rhs)
    }
}

impl core::ops::Mul<Vector3> for Scalar {
    type Output = Vector3;

    /// Every component of `rhs` multiplied by this scalar.
    fn mul(self, rhs: Vector3) -> (r: Vector3) {
        rhs.scale(&self)
    }
}

impl MulSpecImpl<Vector3> for Scalar {
    open spec fn obeys_mul_spec() -> bool {
        true
    }

    open spec fn mul_req(self, rhs: Vector3) -> bool {
        true
    }

    open spec fn mul_spec(self, rhs: Vector3) -> Vector3 {
        rhs.scale_spec(self)
    }
}

impl core::ops::Add for Direction {
    type Output = Direction;

    /// Component-wise sum.
    fn add(self, rhs: Direction) -> (r: Direction) {
        Direction::add(self, rhs)
    }
}

impl AddSpecImpl for Direction {
    open spec fn obeys_add_spec() -> bool {
        true
    }

    open spec fn add_req(self, rhs: Direction) -> bool {
        true
    }

    open spec fn add_spec(self, rhs: Direction) -> Direction {
        Direction::of(self.vector().add_spec(rhs.vector()))
    }
}

impl core::ops::Sub for Direction {
    type Output = Direction;

    /// Component-wise difference.
    fn sub(self, rhs: Direction) -> (r: Direction) {
        Direction::sub(self, rhs)
    }
}

impl SubSpecImpl for Direction {
    open spec fn obeys_sub_spec() -> bool {
        true
    }

    open spec fn sub_req(self, rhs: Direction) -> bool {
        true
    }

    open spec fn sub_spec(self, rhs: Direction) -> Direction {
        Direction::of(self.vector().sub_spec(rhs.vector()))
    }
}

impl core::ops::Neg for Direction {
    type Output = Direction;

    /// Every component negated.
    fn neg(self) -> (r: Direction) {
        Direction::neg(self)
    }
}

impl NegSpecImpl for Direction {
    open spec fn obeys_neg_spec() -> bool {
        true
    }

    open spec fn neg_req(self) -> bool {
        true
    }

    open spec fn neg_spec(self) -> Direction {
        Direction::of(self.vector().neg_spec())
    }
}

impl core::ops::Mul<Scalar> for Direction {
    type Output = Direction;

    /// Every component multiplied by `rhs`.
    fn mul(self, rhs: Scalar) -> (r: Direction) {
        self.scale(&rhs)
    }
}

impl MulSpecImpl<Scalar> for Direction {
    open spec fn obeys_mul_spec() -> bool {
        true
    }

    open spec fn mul_req(self, rhs: Scalar) -> bool {
        true
    }

    open spec fn mul_spec(self, rhs: Scalar) -> Direction {
        Direction::of(self.vector().scale_spec(rhs))
    }
}

impl core::ops::Mul<Direction> for Scalar {
    type Output = Direction;

    /// Every component of `rhs` multiplied by this scalar.
    fn mul(self, rhs: Direction) -> (r: Direction) {
        rhs.scale(&self)
    }
}

impl MulSpecImpl<Direction> for Scalar {
    open spec fn obeys_mul_spec() -> bool {
        true
    }

    open spec fn mul_req(self, rhs: Direction) -> bool {
        true
    }

    open spec fn mul_spec(self, rhs: Direction) -> Direction {
        Direction::of(rhs.vector().scale_spec(self))
    }
}

impl core::ops::Neg for Point {
    type Output = Point;

    /// Every coordinate negated.
    fn neg(self) -> (r: Point) {
        Point::neg(self)
    }
}

impl NegSpecImpl for Point {
    open spec fn obeys_neg_spec() -> bool {
        true
    }

    open spec fn neg_req(self) -> bool {
        true
    }

    open spec fn neg_spec(self) -> Point {
        Point::of(self.vector().neg_spec())
    }
}

impl core::ops::Mul<Scalar> for Point {
    type Output = Point;

    /// Every coordinate multiplied by `rhs`.
    fn mul(self, rhs: Scalar) -> (r: Point) {
        self.scale(&rhs)
    }
}

impl MulSpecImpl<Scalar> for Point {
    open spec fn obeys_mul_spec() -> bool {
        true
    }

    open spec fn mul_req(self, rhs: Scalar) -> bool {
        true
    }

    open spec fn mul_spec(self, rhs: Scalar) -> Point {
        Point::of(self.vector().scale_spec(rhs))
    }
}

impl core::ops::Mul<Point> for Scalar {
    type Output = Point;

    /// Every coordinate of `rhs` multiplied by this scalar.
    fn mul(self, rhs: Point) -> (r: Point) {
        rhs.scale(&self)
    }
}

impl MulSpecImpl<Point> for Scalar {
    open spec fn obeys_mul_spec() -> bool {
        true
    }

    open spec fn mul_req(self, rhs: Point) -> bool {
        true
    }

    open spec fn mul_spec(self, rhs: Point) -> Point {
        Point::of(rhs.vector().scale_spec(self))
    }
}

impl core::ops::Mul for Point {
    type Output = Direction;

    /// The displacement that leads from `rhs` to this point.
    fn mul(self, rhs: Point) -> (r: Direction) {
        self.displacement_from(&rhs)
    }
}

impl MulSpecImpl for Point {
    open spec fn obeys_mul_spec() -> bool {
        true
    }

    open spec fn mul_req(self, rhs: Point) -> bool {
        true
    }

    open spec fn mul_spec(self, rhs: Point) -> Direction {
        Direction::of(self.vector().sub_spec(rhs.vector()))
    }
}

impl core::ops::Add for Complex {
    type Output = Complex;

    /// Part-wise sum.
    fn add(self, rhs: Complex) -> (r: Complex) {
        Complex::add(self, rhs)
    }
}

impl AddSpecImpl for Complex {
    open spec fn obeys_add_spec() -> bool {
        true
    }

    open spec fn add_req(self, rhs: Complex) -> bool {
        true
    }

    open spec fn add_spec(self, rhs: Complex) -> Complex {
        (Complex { re: self.re.add_spec(rhs.re), im: self.im.add_spec(rhs.im) })
    }
}

impl core::ops::Sub for Complex {
    type Output = Complex;

    /// Part-wise difference.
    fn sub(self, rhs: Complex) -> (r: Complex) {
        Complex::sub(self, rhs)
    }
}

impl SubSpecImpl for Complex {
    open spec fn obeys_sub_spec() -> bool {
        true
    }

    open spec fn sub_req(self, rhs: Complex) -> bool {
        true
    }

    open spec fn sub_spec(self, rhs: Complex) -> Complex {
        (Complex { re: self.re.sub_spec(rhs.re), im: self.im.sub_spec(rhs.im) })
    }
}

impl core::ops::Neg for Complex {
    type Output = Complex;

    /// Both parts negated.
    fn neg(self) -> (r: Complex) {
        Complex::neg(self)
    }
}

impl NegSpecImpl for Complex {
    open spec fn obeys_neg_spec() -> bool {
        true
    }

    open spec fn neg_req(self) -> bool {
        true
    }

    open spec fn neg_spec(self) -> Complex {
        (Complex { re: self.re.neg_spec(), im: self.im.neg_spec() })
    }
}

impl core::ops::Mul for Complex {
    type Output = Complex;

    /// Product.
    fn mul(self, rhs: Complex) -> (r: Complex) {
        self.product(&rhs)
    }
}

impl MulSpecImpl for Complex {
    open spec fn obeys_mul_spec() -> bool {
        true
    }

    open spec fn mul_req(self, rhs: Complex) -> bool {
        true
    }

    open spec fn mul_spec(self, rhs: Complex) -> Complex {
        self.product_spec(rhs)
    }
}

impl core::ops::Div for Complex {
    type Output = Complex;

    /// Quotient `self conj(rhs) / |rhs|^2`.
    fn div(self, rhs: Complex) -> (r: Complex) {
        Complex::div(self, rhs)
    }
}

impl DivSpecImpl for Complex {
    open spec fn obeys_div_spec() -> bool {
        true
    }

    open spec fn div_req(self, rhs: Complex) -> bool {
        true
    }

    open spec fn div_spec(self, rhs: Complex) -> Complex {
        Complex::div_spec(self, rhs)
    }
}

impl core::ops::Mul<Scalar> for Complex {
    type Output = Complex;

    /// Both parts multiplied by `rhs`.
    fn mul(self, rhs: Scalar) -> (r: Complex) {
        self.scale(&rhs)
    }
}

impl MulSpecImpl<Scalar> for Complex {
    open spec fn obeys_mul_spec() -> bool {
        true
    }

    open spec fn mul_req(self, rhs: Scalar) -> bool {
        true
    }

    open spec fn mul_spec(self, rhs: Scalar) -> Complex {
        self.scale_spec(rhs)
    }
}

impl core::ops::Mul<Complex> for Scalar {
    type Output = Complex;

    /// Both parts of `rhs` multiplied by this scalar.
    fn mul(self, rhs: Complex) -> (r: Complex) {
        rhs.scale(&self)
    }
}

impl MulSpecImpl<Complex> for Scalar {
    open spec fn obeys_mul_spec() -> bool {
        true
    }

    open spec fn mul_req(self, rhs: Complex) -> bool {
        true
    }

    open spec fn mul_spec(self, rhs: Complex) -> Complex {
        rhs.scale_spec(self)
    }
}

impl core::ops::Div<Scalar> for Complex {
    type Output = Complex;

    /// Both parts divided by `rhs`.
    fn div(self, rhs: Scalar) -> (r: Complex) {
        self.div_scalar(&rhs)
    }
}

impl DivSpecImpl<Scalar> for Complex {
    open spec fn obeys_div_spec() -> bool {
        true
    }

    open spec fn div_req(self, rhs: Scalar) -> bool {
        true
    }

    open spec fn div_spec(self, rhs: Scalar) -> Complex {
        self.div_scalar_spec(rhs)
    }
}

impl core::ops::Add<Scalar> for Complex {
    type Output = Complex;

    /// The real number `rhs` added to the real part.
    fn add(self, rhs: Scalar) -> (r: Complex) {
        self.add_scalar(&rhs)
    }
}

impl AddSpecImpl<Scalar> for Complex {
    open spec fn obeys_add_spec() -> bool {
        true
    }

    open spec fn add_req(self, rhs: Scalar) -> bool {
        true
    }

    open spec fn add_spec(self, rhs: Scalar) -> Complex {
        (Complex { re: self.re.add_spec(rhs), im: self.im })
    }
}

impl core::ops::Add<Complex> for Scalar {
    type Output = Complex;

    /// This real number added to the real part of `rhs`.
    fn add(self, rhs: Complex) -> (r: Complex) {
        rhs.add_scalar(&self)
    }
}

impl AddSpecImpl<Complex> for Scalar {
    open spec fn obeys_add_spec() -> bool {
        true
    }

    open spec fn add_req(self, rhs: Complex) -> bool {
        true
    }

    open spec fn add_spec(self, rhs: Complex) -> Complex {
        (Complex { re: rhs.re.add_spec(self), im: rhs.im })
    }
}

impl core::ops::Sub<Scalar> for Complex {
    type Output = Complex;

    /// The real number `rhs` subtracted from the real part.
    fn sub(self, rhs: Scalar) -> (r: Complex) {
        self.sub_scalar(&rhs)
    }
}

impl SubSpecImpl<Scalar> for Complex {
    open spec fn obeys_sub_spec() -> bool {
        true
    }

    open spec fn sub_req(self, rhs: Scalar) -> bool {
        true
    }

    open spec fn sub_spec(self, rhs: Scalar) -> Complex {
        (Complex { re: self.re.sub_spec(rhs), im: self.im })
    }
}

impl core::ops::Sub<Complex> for Scalar {
    type Output = Complex;

    /// The difference of this real number and `rhs`.
    fn sub(self, rhs: Complex) -> (r: Complex) {
        rhs.sub_from_scalar(&self)
    }
}

impl SubSpecImpl<Complex> for Scalar {
    open spec fn obeys_sub_spec() -> bool {
        true
    }

    open spec fn sub_req(self, rhs: Complex) -> bool {
        true
    }

    open spec fn sub_spec(self, rhs: Complex) -> Complex {
        (Complex { re: self.sub_spec(rhs.re), im: rhs.im.neg_spec() })
    }
}

impl core::ops::Add for DualNumber {
    type Output = DualNumber;

    /// Part-wise sum.
    fn add(self, rhs: DualNumber) -> (r: DualNumber) {
        DualNumber::add(self, rhs)
    }
}

impl AddSpecImpl for DualNumber {
    open spec fn obeys_add_spec() -> bool {
        true
    }

    open spec fn add_req(self, rhs: DualNumber) -> bool {
        true
    }

    open spec fn add_spec(self, rhs: DualNumber) -> DualNumber {
        (DualNumber { re: self.re.add_spec(rhs.re), du: self.du.add_spec(rhs.du) })
    }
}

impl core::ops::Sub for DualNumber {
    type Output = DualNumber;

    /// Part-wise difference.
    fn sub(self, rhs: DualNumber) -> (r: DualNumber) {
        DualNumber::sub(self, rhs)
    }
}

impl SubSpecImpl for DualNumber {
    open spec fn obeys_sub_spec() -> bool {
        true
    }

    open spec fn sub_req(self, rhs: DualNumber) -> bool {
        true
    }

    open spec fn sub_spec(self, rhs: DualNumber) -> DualNumber {
        (DualNumber { re: self.re.sub_spec(rhs.re), du: self.du.sub_spec(rhs.du) })
    }
}

impl core::ops::Neg for DualNumber {
    type Output = DualNumber;

    /// Both parts negated.
    fn neg(self) -> (r: DualNumber) {
        DualNumber::neg(self)
    }
}

impl NegSpecImpl for DualNumber {
    open spec fn obeys_neg_spec() -> bool {
        true
    }

    open spec fn neg_req(self) -> bool {
        true
    }

    open spec fn neg_spec(self) -> DualNumber {
        (DualNumber { re: self.re.neg_spec(), du: self.du.neg_spec() })
    }
}

impl core::ops::Mul for DualNumber {
    type Output = DualNumber;

    /// Product.
    fn mul(self, rhs: DualNumber) -> (r: DualNumber) {
        self.product(&rhs)
    }
}

impl MulSpecImpl for DualNumber {
    open spec fn obeys_mul_spec() -> bool {
        true
    }

    open spec fn mul_req(self, rhs: DualNumber) -> bool {
        true
    }

    open spec fn mul_spec(self, rhs: DualNumber) -> DualNumber {
        self.product_spec(rhs)
    }
}

impl core::ops::Div for DualNumber {
    type Output = DualNumber;

    /// Quotient `self conj(rhs) / rhs.re^2`.
    fn div(self, rhs: DualNumber) -> (r: DualNumber) {
        DualNumber::div(self, rhs)
    }
}

impl DivSpecImpl for DualNumber {
    open spec fn obeys_div_spec() -> bool {
        true
    }

    open spec fn div_req(self, rhs: DualNumber) -> bool {
        true
    }

    open spec fn div_spec(self, rhs: DualNumber) -> DualNumber {
        DualNumber::div_spec(self, rhs)
    }
}

impl core::ops::Mul<Scalar> for DualNumber {
    type Output = DualNumber;

    /// Both parts multiplied by `rhs`.
    fn mul(self, rhs: Scalar) -> (r: DualNumber) {
        self.scale(&rhs)
    }
}

impl MulSpecImpl<Scalar> for DualNumber {
    open spec fn obeys_mul_spec() -> bool {
        true
    }

    open spec fn mul_req(self, rhs: Scalar) -> bool {
        true
    }

    open spec fn mul_spec(self, rhs: Scalar) -> DualNumber {
        self.scale_spec(rhs)
    }
}

impl core::ops::Mul<DualNumber> for Scalar {
    type Output = DualNumber;

    /// Both parts of `rhs` multiplied by this scalar.
    fn mul(self, rhs: DualNumber) -> (r: DualNumber) {
        rhs.scale(&self)
    }
}

impl MulSpecImpl<DualNumber> for Scalar {
    open spec fn obeys_mul_spec() -> bool {
        true
    }

    open spec fn mul_req(self, rhs: DualNumber) -> bool {
        true
    }

    open spec fn mul_spec(self, rhs: DualNumber) -> DualNumber {
        rhs.scale_spec(self)
    }
}

impl core::ops::Div<Scalar> for DualNumber {
    type Output = DualNumber;

    /// Both parts divided by `rhs`.
    fn div(self, rhs: Scalar) -> (r: DualNumber) {
        self.div_scalar(&rhs)
    }
}

impl DivSpecImpl<Scalar> for DualNumber {
    open spec fn obeys_div_spec() -> bool {
        true
    }

    open spec fn div_req(self, rhs: Scalar) -> bool {
        true
    }

    open spec fn div_spec(self, rhs: Scalar) -> DualNumber {
        self.div_scalar_spec(rhs)
    }
}

impl core::ops::Add<Scalar> for DualNumber {
    type Output = DualNumber;

    /// The real number `rhs` added to the real part.
    fn add(self, rhs: Scalar) -> (r: DualNumber) {
        self.add_scalar(&rhs)
    }
}

impl AddSpecImpl<Scalar> for DualNumber {
    open spec fn obeys_add_spec() -> bool {
        true
    }

    open spec fn add_req(self, rhs: Scalar) -> bool {
        true
    }

    open spec fn add_spec(self, rhs: Scalar) -> DualNumber {
        (DualNumber { re: self.re.add_spec(rhs), du: self.du })
    }
}

impl core::ops::Add<DualNumber> for Scalar {
    type Output = DualNumber;

    /// This real number added to the real part of `rhs`.
    fn add(self, rhs: DualNumber) -> (r: DualNumber) {
        rhs.add_scalar(&self)
    }
}

impl AddSpecImpl<DualNumber> for Scalar {
    open spec fn obeys_add_spec() -> bool {
        true
    }

    open spec fn add_req(self, rhs: DualNumber) -> bool {
        true
    }

    open spec fn add_spec(self, rhs: DualNumber) -> DualNumber {
        (DualNumber { re: rhs.re.add_spec(self), du: rhs.du })
    }
}

impl core::ops::Sub<Scalar> for DualNumber {
    type Output = DualNumber;

    /// The real number `rhs` subtracted from the real part.
    fn sub(self, rhs: Scalar) -> (r: DualNumber) {
        self.sub_scalar(&rhs)
    }
}

impl SubSpecImpl<Scalar> for DualNumber {
    open spec fn obeys_sub_spec() -> bool {
        true
    }

    open spec fn sub_req(self, rhs: Scalar) -> bool {
        true
    }

    open spec fn sub_spec(self, rhs: Scalar) -> DualNumber {
        (DualNumber { re: self.re.sub_spec(rhs), du: self.du })
    }
}

impl core::ops::Sub<DualNumber> for Scalar {
    type Output = DualNumber;

    /// The difference of this real number and `rhs`.
    fn sub(self, rhs: DualNumber) -> (r: DualNumber) {
        rhs.sub_from_scalar(&self)
    }
}

impl SubSpecImpl<DualNumber> for Scalar {
    open spec fn obeys_sub_spec() -> bool {
        true
    }

    open spec fn sub_req(self, rhs: DualNumber) -> bool {
        true
    }

    open spec fn sub_spec(self, rhs: DualNumber) -> DualNumber {
        (DualNumber { re: self.sub_spec(rhs.re), du: rhs.du.neg_spec() })
    }
}

impl core::ops::Div<Complex> for Scalar {
    type Output = Complex;

    /// The quotient of this real number by `rhs`.
    fn div(self, rhs: Complex) -> (r: Complex) {
        rhs.div_into_scalar(&self)
    }
}

impl DivSpecImpl<Complex> for Scalar {
    open spec fn obeys_div_spec() -> bool {
        true
    }

    open spec fn div_req(self, rhs: Complex) -> bool {
        true
    }

    open spec fn div_spec(self, rhs: Complex) -> Complex {
        rhs.div_into_scalar_spec(self)
    }
}

impl core::ops::Div<DualNumber> for Scalar {
    type Output = DualNumber;

    /// The quotient of this real number by `rhs`.
    fn div(self, rhs: DualNumber) -> (r: DualNumber) {
        rhs.div_into_scalar(&self)
    }
}

impl DivSpecImpl<DualNumber> for Scalar {
    open spec fn obeys_div_spec() -> bool {
        true
    }

    open spec fn div_req(self, rhs: DualNumber) -> bool {
        true
    }

    open spec fn div_spec(self, rhs: DualNumber) -> DualNumber {
        rhs.div_into_scalar_spec(self)
    }
}

impl core::ops::Add for Quaternion {
    type Output = Quaternion;

    /// Component-wise sum.
    fn add(self, rhs: Quaternion) -> (r: Quaternion) {
        Quaternion::add(self, rhs)
    }
}

impl AddSpecImpl for Quaternion {
    open spec fn obeys_add_spec() -> bool {
        true
    }

    open spec fn add_req(self, rhs: Quaternion) -> bool {
        true
    }

    open spec fn add_spec(self, rhs: Quaternion) -> Quaternion {
        Quaternion::add_spec(self, rhs)
    }
}

impl core::ops::Sub for Quaternion {
    type Output = Quaternion;

    /// Component-wise difference.
    fn sub(self, rhs: Quaternion) -> (r: Quaternion) {
        Quaternion::sub(self, rhs)
    }
}

impl SubSpecImpl for Quaternion {
    open spec fn obeys_sub_spec() -> bool {
        true
    }

    open spec fn sub_req(self, rhs: Quaternion) -> bool {
        true
    }

    open spec fn sub_spec(self, rhs: Quaternion) -> Quaternion {
        Quaternion::sub_spec(self, rhs)
    }
}

impl core::ops::Neg for Quaternion {
    type Output = Quaternion;

    /// Every component negated.
    fn neg(self) -> (r: Quaternion) {
        Quaternion::neg(self)
    }
}

impl NegSpecImpl for Quaternion {
    open spec fn obeys_neg_spec() -> bool {
        true
    }

    open spec fn neg_req(self) -> bool {
        true
    }

    open spec fn neg_spec(self) -> Quaternion {
        Quaternion::neg_spec(self)
    }
}

impl core::ops::Mul for Quaternion {
    type Output = Quaternion;

    /// Hamilton product.
    fn mul(self, rhs: Quaternion) -> (r: Quaternion) {
        self.product(&rhs)
    }
}

impl MulSpecImpl for Quaternion {
    open spec fn obeys_mul_spec() -> bool {
        true
    }

    open spec fn mul_req(self, rhs: Quaternion) -> bool {
        true
    }

    open spec fn mul_spec(self, rhs: Quaternion) -> Quaternion {
        self.product_spec(rhs)
    }
}

impl core::ops::Div for Quaternion {
    type Output = Quaternion;

    /// Quotient `self conj(rhs) / |rhs|^2`.
    fn div(self, rhs: Quaternion) -> (r: Quaternion) {
        Quaternion::div(self, rhs)
    }
}

impl DivSpecImpl for Quaternion {
    open spec fn obeys_div_spec() -> bool {
        true
    }

    open spec fn div_req(self, rhs: Quaternion) -> bool {
        true
    }

    open spec fn div_spec(self, rhs: Quaternion) -> Quaternion {
        Quaternion::div_spec(self, rhs)
    }
}

impl core::ops::Mul<Scalar> for Quaternion {
    type Output = Quaternion;

    /// Every component multiplied by `rhs`.
    fn mul(self, rhs: Scalar) -> (r: Quaternion) {
        self.scale(&rhs)
    }
}

impl MulSpecImpl<Scalar> for Quaternion {
    open spec fn obeys_mul_spec() -> bool {
        true
    }

    open spec fn mul_req(self, rhs: Scalar) -> bool {
        true
    }

    open spec fn mul_spec(self, rhs: Scalar) -> Quaternion {
        self.scale_spec(rhs)
    }
}

impl core::ops::Mul<Quaternion> for Scalar {
    type Output = Quaternion;

    /// Every component of `rhs` multiplied by this scalar.
    fn mul(self, rhs: Quaternion) -> (r: Quaternion) {
        rhs.scale(&self)
    }
}

impl MulSpecImpl<Quaternion> for Scalar {
    open spec fn obeys_mul_spec() -> bool {
        true
    }

    open spec fn mul_req(self, rhs: Quaternion) -> bool {
        true
    }

    open spec fn mul_spec(self, rhs: Quaternion) -> Quaternion {
        rhs.scale_spec(self)
    }
}

impl core::ops::Div<Scalar> for Quaternion {
    type Output = Quaternion;

    /// Every component divided by `rhs`.
    fn div(self, rhs: Scalar) -> (r: Quaternion) {
        self.div_scalar(&rhs)
    }
}

impl DivSpecImpl<Scalar> for Quaternion {
    open spec fn obeys_div_spec() -> bool {
        true
    }

    open spec fn div_req(self, rhs: Scalar) -> bool {
        true
    }

    open spec fn div_spec(self, rhs: Scalar) -> Quaternion {
        self.div_scalar_spec(rhs)
    }
}

impl core::ops::Div<Quaternion> for Scalar {
    type Output = Quaternion;

    /// The quotient of this real number by `rhs`.
    fn div(self, rhs: Quaternion) -> (r: Quaternion) {
        rhs.div_into_scalar(&self)
    }
}

impl DivSpecImpl<Quaternion> for Scalar {
    open spec fn obeys_div_spec() -> bool {
        true
    }

    open spec fn div_req(self, rhs: Quaternion) -> bool {
        true
    }

    open spec fn div_spec(self, rhs: Quaternion) -> Quaternion {
        rhs.div_into_scalar_spec(self)
    }
}

impl core::ops::Add<Complex> for Quaternion {
    type Output = Quaternion;

    /// Sum of a quaternion and a complex number.
    fn add(self, rhs: Complex) -> (r: Quaternion) {
        self.add_complex(&rhs)
    }
}

impl AddSpecImpl<Complex> for Quaternion {
    open spec fn obeys_add_spec() -> bool {
        true
    }

    open spec fn add_req(self, rhs: Complex) -> bool {
        true
    }

    open spec fn add_spec(self, rhs: Complex) -> Quaternion {
        (Quaternion { w: self.w.add_spec(rhs.re), i: self.i.add_spec(rhs.im), j: self.j, k: self.k })
    }
}

impl core::ops::Add<Quaternion> for Complex {
    type Output = Quaternion;

    /// Sum of a complex number and a quaternion.
    fn add(self, rhs: Quaternion) -> (r: Quaternion) {
        rhs.add_complex(&self)
    }
}

impl AddSpecImpl<Quaternion> for Complex {
    open spec fn obeys_add_spec() -> bool {
        true
    }

    open spec fn add_req(self, rhs: Quaternion) -> bool {
        true
    }

    open spec fn add_spec(self, rhs: Quaternion) -> Quaternion {
        (Quaternion { w: rhs.w.add_spec(self.re), i: rhs.i.add_spec(self.im), j: rhs.j, k: rhs.k })
    }
}

impl core::ops::Sub<Complex> for Quaternion {
    type Output = Quaternion;

    /// Difference of a quaternion and a complex number.
    fn sub(self, rhs: Complex) -> (r: Quaternion) {
        self.sub_complex(&rhs)
    }
}

impl SubSpecImpl<Complex> for Quaternion {
    open spec fn obeys_sub_spec() -> bool {
        true
    }

    open spec fn sub_req(self, rhs: Complex) -> bool {
        true
    }

    open spec fn sub_spec(self, rhs: Complex) -> Quaternion {
        (Quaternion { w: self.w.sub_spec(rhs.re), i: self.i.sub_spec(rhs.im), j: self.j, k: self.k })
    }
}

impl core::ops::Sub<Quaternion> for Complex {
    type Output = Quaternion;

    /// Difference of a complex number and a quaternion.
    fn sub(self, rhs: Quaternion) -> (r: Quaternion) {
        self.sub_quaternion(&rhs)
    }
}

impl SubSpecImpl<Quaternion> for Complex {
    open spec fn obeys_sub_spec() -> bool {
        true
    }

    open spec fn sub_req(self, rhs: Quaternion) -> bool {
        true
    }

    open spec fn sub_spec(self, rhs: Quaternion) -> Quaternion {
        (Quaternion { w: self.re.sub_spec(rhs.w), i: self.im.sub_spec(rhs.i), j: rhs.j.neg_spec(), k: rhs.k.neg_spec() })
    }
}

impl core::ops::Mul<Complex> for Quaternion {
    type Output = Quaternion;

    /// Product of a quaternion and a complex number.
    fn mul(self, rhs: Complex) -> (r: Quaternion) {
        self.mul_complex(&rhs)
    }
}

impl MulSpecImpl<Complex> for Quaternion {
    open spec fn obeys_mul_spec() -> bool {
        true
    }

    open spec fn mul_req(self, rhs: Complex) -> bool {
        true
    }

    open spec fn mul_spec(self, rhs: Complex) -> Quaternion {
        self.product_spec(rhs.embed())
    }
}

impl core::ops::Mul<Quaternion> for Complex {
    type Output = Quaternion;

    /// Product of a complex number and a quaternion.
    fn mul(self, rhs: Quaternion) -> (r: Quaternion) {
        self.mul_quaternion(&rhs)
    }
}

impl MulSpecImpl<Quaternion> for Complex {
    open spec fn obeys_mul_spec() -> bool {
        true
    }

    open spec fn mul_req(self, rhs: Quaternion) -> bool {
        true
    }

    open spec fn mul_spec(self, rhs: Quaternion) -> Quaternion {
        self.embed().product_spec(rhs)
    }
}

impl core::ops::Div<Complex> for Quaternion {
    type Output = Quaternion;

    /// Quotient of a quaternion by a complex number.
    fn div(self, rhs: Complex) -> (r: Quaternion) {
        self.div_complex(&rhs)
    }
}

impl DivSpecImpl<Complex> for Quaternion {
    open spec fn obeys_div_spec() -> bool {
        true
    }

    open spec fn div_req(self, rhs: Complex) -> bool {
        true
    }

    open spec fn div_spec(self, rhs: Complex) -> Quaternion {
        self.div_spec(rhs.embed())
    }
}

impl core::ops::Div<Quaternion> for Complex {
    type Output = Quaternion;

    /// Quotient of a complex number by a quaternion.
    fn div(self, rhs: Quaternion) -> (r: Quaternion) {
        self.div_quaternion(&rhs)
    }
}

impl DivSpecImpl<Quaternion> for Complex {
    open spec fn obeys_div_spec() -> bool {
        true
    }

    open spec fn div_req(self, rhs: Quaternion) -> bool {
        true
    }

    open spec fn div_spec(self, rhs: Quaternion) -> Quaternion {
        self.embed().div_spec(rhs)
    }
}

impl core::ops::Add for DualQuaternion {
    type Output = DualQuaternion;

    /// Component-wise sum.
    fn add(self, rhs: DualQuaternion) -> (r: DualQuaternion) {
        DualQuaternion::add(self, rhs)
    }
}

impl AddSpecImpl for DualQuaternion {
    open spec fn obeys_add_spec() -> bool {
        true
    }

    open spec fn add_req(self, rhs: DualQuaternion) -> bool {
        true
    }

    open spec fn add_spec(self, rhs: DualQuaternion) -> DualQuaternion {
        DualQuaternion::add_spec(self, rhs)
    }
}

impl core::ops::Sub for DualQuaternion {
    type Output = DualQuaternion;

    /// Component-wise difference.
    fn sub(self, rhs: DualQuaternion) -> (r: DualQuaternion) {
        DualQuaternion::sub(self, rhs)
    }
}

impl SubSpecImpl for DualQuaternion {
    open spec fn obeys_sub_spec() -> bool {
        true
    }

    open spec fn sub_req(self, rhs: DualQuaternion) -> bool {
        true
    }

    open spec fn sub_spec(self, rhs: DualQuaternion) -> DualQuaternion {
        DualQuaternion::sub_spec(self, rhs)
    }
}

impl core::ops::Neg for DualQuaternion {
    type Output = DualQuaternion;

    /// Every component negated.
    fn neg(self) -> (r: DualQuaternion) {
        DualQuaternion::neg(self)
    }
}

impl NegSpecImpl for DualQuaternion {
    open spec fn obeys_neg_spec() -> bool {
        true
    }

    open spec fn neg_req(self) -> bool {
        true
    }

    open spec fn neg_spec(self) -> DualQuaternion {
        DualQuaternion::neg_spec(self)
    }
}

impl core::ops::Mul for DualQuaternion {
    type Output = DualQuaternion;

    /// Product.
    fn mul(self, rhs: DualQuaternion) -> (r: DualQuaternion) {
        self.product(&rhs)
    }
}

impl MulSpecImpl for DualQuaternion {
    open spec fn obeys_mul_spec() -> bool {
        true
    }

    open spec fn mul_req(self, rhs: DualQuaternion) -> bool {
        true
    }

    open spec fn mul_spec(self, rhs: DualQuaternion) -> DualQuaternion {
        self.product_spec(rhs)
    }
}

impl core::ops::Mul<Quaternion> for DualQuaternion {
    type Output = DualQuaternion;

    /// Product with a quaternion, taken as a dual quaternion without dual part.
    fn mul(self, rhs: Quaternion) -> (r: DualQuaternion) {
        self.product(&DualQuaternion::from_quaternion(&rhs))
    }
}

impl MulSpecImpl<Quaternion> for DualQuaternion {
    open spec fn obeys_mul_spec() -> bool {
        true
    }

    open spec fn mul_req(self, rhs: Quaternion) -> bool {
        true
    }

    open spec fn mul_spec(self, rhs: Quaternion) -> DualQuaternion {
        self.product_spec(DualQuaternion::from_parts_spec(rhs, Quaternion::from_parts_spec(zero(), zero_vector())))
    }
}

impl core::ops::Mul<DualQuaternion> for Quaternion {
    type Output = DualQuaternion;

    /// Product of a quaternion, taken as a dual quaternion without dual part, with `rhs`.
    fn mul(self, rhs: DualQuaternion) -> (r: DualQuaternion) {
        DualQuaternion::from_quaternion(&self).product(&rhs)
    }
}

impl MulSpecImpl<DualQuaternion> for Quaternion {
    open spec fn obeys_mul_spec() -> bool {
        true
    }

    open spec fn mul_req(self, rhs: DualQuaternion) -> bool {
        true
    }

    open spec fn mul_spec(self, rhs: DualQuaternion) -> DualQuaternion {
        DualQuaternion::from_parts_spec(self, Quaternion::from_parts_spec(zero(), zero_vector())).product_spec(rhs)
    }
}

impl core::ops::Mul<Scalar> for DualQuaternion {
    type Output = DualQuaternion;

    /// Every component multiplied by `rhs`.
    fn mul(self, rhs: Scalar) -> (r: DualQuaternion) {
        self.scale(&rhs)
    }
}

impl MulSpecImpl<Scalar> for DualQuaternion {
    open spec fn obeys_mul_spec() -> bool {
        true
    }

    open spec fn mul_req(self, rhs: Scalar) -> bool {
        true
    }

    open spec fn mul_spec(self, rhs: Scalar) -> DualQuaternion {
        self.scale_spec(rhs)
    }
}

impl core::ops::Mul<DualQuaternion> for Scalar {
    type Output = DualQuaternion;

    /// Every component of `rhs` multiplied by this scalar.
    fn mul(self, rhs: DualQuaternion) -> (r: DualQuaternion) {
        rhs.scale(&self)
    }
}

impl MulSpecImpl<DualQuaternion> for Scalar {
    open spec fn obeys_mul_spec() -> bool {
        true
    }

    open spec fn mul_req(self, rhs: DualQuaternion) -> bool {
        true
    }

    open spec fn mul_spec(self, rhs: DualQuaternion) -> DualQuaternion {
        rhs.scale_spec(self)
    }
}

} // verus!
