//! Operations between the types: points and directions, quaternions and
//! complex numbers.
use vstd::prelude::*;
use vstd::std_specs::convert::FromSpecImpl;
use crate::complex::Complex;
use crate::direction::Direction;
use crate::point::Point;
use crate::quaternion::Quaternion;
use crate::scalar::Scalar;

verus! {

impl From<Point> for Direction {
    /// The direction that leads from the origin to the point.
    fn from(value: Point) -> (r: Direction) {
        Direction { x: value.x, y: value.y, z: value.z }
    }
}

impl FromSpecImpl<Point> for Direction {
    open spec fn obeys_from_spec() -> bool {
        true
    }

    open spec fn from_spec(value: Point) -> Direction {
        Direction { x: value.x, y: value.y, z: value.z }
    }
}

impl From<Direction> for Point {
    /// The point that the direction leads to from the origin.
    fn from(value: Direction) -> (r: Point) {
        Point { x: value.x, y: value.y, z: value.z }
    }
}

impl FromSpecImpl<Direction> for Point {
    open spec fn obeys_from_spec() -> bool {
        true
    }

    open spec fn from_spec(value: Direction) -> Point {
        Point { x: value.x, y: value.y, z: value.z }
    }
}

impl Complex {
    /// The quaternion `re + im I`.
    pub open spec fn embed(self) -> Quaternion {
        Quaternion { w: self.re, i: self.im, j: Scalar { raw: 0 }, k: Scalar { raw: 0 } }
    }

    /// This complex number as a quaternion: `I` is the imaginary unit.
    pub fn to_quaternion(&self) -> (r: Quaternion)
        ensures
            r == self.embed(),
    {
        Quaternion { w: self.re, i: self.im, j: Scalar { raw: 0 }, k: Scalar { raw: 0 } }
    }

    /// Product `self * rhs` of a complex number and a quaternion.
    pub fn mul_quaternion(&self, rhs: &Quaternion) -> (r: Quaternion)
        ensures
            r == self.embed().product_spec(*rhs),
    {
        self.to_quaternion().product(rhs)
    }

    /// Difference `self - rhs` of a complex number and a quaternion.
    pub fn sub_quaternion(&self, rhs: &Quaternion) -> (r: Quaternion)
        ensures
            r == (Quaternion {
                w: self.re.sub_spec(rhs.w),
                i: self.im.sub_spec(rhs.i),
                j: rhs.j.neg_spec(),
                k: rhs.k.neg_spec(),
            }),
    {
        Quaternion {
            w: self.re.sub(rhs.w),
            i: self.im.sub(rhs.i),
            j: rhs.j.neg(),
            k: rhs.k.neg(),
        }
    }

    /// Quotient `self / rhs` of a complex number by a quaternion.
    pub fn div_quaternion(&self, rhs: &Quaternion) -> (r: Quaternion)
        ensures
            r == self.embed().div_spec(*rhs),
    {
        self.to_quaternion().div(*rhs)
    }
}

impl Quaternion {
    /// Sum of a quaternion and a complex number.
    pub fn add_complex(&self, rhs: &Complex) -> (r: Quaternion)
        ensures
            r == (Quaternion {
                w: self.w.add_spec(rhs.re),
                i: self.i.add_spec(rhs.im),
                j: self.j,
                k: self.k,
            }),
    {
        Quaternion { w: self.w.add(rhs.re), i: self.i.add(rhs.im), j: self.j, k: self.k }
    }

    /// Difference `self - rhs` of a quaternion and a complex number.
    pub fn sub_complex(&self, rhs: &Complex) -> (r: Quaternion)
        ensures
            r == (Quaternion {
                w: self.w.sub_spec(rhs.re),
                i: self.i.sub_spec(rhs.im),
                j: self.j,
                k: self.k,
            }),
    {
        Quaternion { w: self.w.sub(rhs.re), i: self.i.sub(rhs.im), j: self.j, k: self.k }
    }

    /// Product `self * rhs` of a quaternion and a complex number.
    pub fn mul_complex(&self, rhs: &Complex) -> (r: Quaternion)
        ensures
            r == self.product_spec(rhs.embed()),
    {
        self.product(&rhs.to_quaternion())
    }

    /// Quotient `self / rhs` of a quaternion by a complex number.
    pub fn div_complex(&self, rhs: &Complex) -> (r: Quaternion)
        ensures
            r == self.div_spec(rhs.embed()),
    {
        self.div(rhs.to_quaternion())
    }
}

} // verus!
