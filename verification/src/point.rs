//! Positions in space.
use vstd::prelude::*;
use crate::algebra::Vec3;
use crate::direction::Direction;
use crate::scalar::Scalar;
use crate::vector3::Vector3;

verus! {

/// A position in space.
#[derive(Clone, Copy, Debug, PartialEq, Eq, Structural)]
pub struct Point {
    pub x: Scalar,
    pub y: Scalar,
    pub z: Scalar,
}

impl View for Point {
    type V = Vec3;

    /// The raw values of the coordinates.
    open spec fn view(&self) -> Vec3 {
        Vec3 { x: self.x.raw as int, y: self.y.raw as int, z: self.z.raw as int }
    }
}

impl Point {
    /// The same three coordinates as a vector.
    pub open spec fn vector(self) -> Vector3 {
        Vector3 { x: self.x, y: self.y, z: self.z }
    }

    /// The point with the coordinates of `v`.
    pub open spec fn of(v: Vector3) -> Point {
        Point { x: v.x, y: v.y, z: v.z }
    }

    /// Whether every component is finite.
    pub open spec fn is_finite(self) -> bool {
        self.vector().is_finite()
    }

    /// The same three components as a vector.
    pub fn to_vector(&self) -> (v: Vector3)
        ensures
            v == self.vector(),
    {
        Vector3 { x: self.x, y: self.y, z: self.z }
    }

    /// The point with the coordinates of `v`.
    pub fn from_vector(v: &Vector3) -> (p: Point)
        ensures
            p == Point::of(*v),
    {
        Point { x: v.x, y: v.y, z: v.z }
    }

    /// Distance from the origin.
    pub fn norm(&self) -> (r: Scalar)
        ensures
            r == self.vector().norm_spec(),
    {
        self.to_vector().norm()
    }

    /// The point at distance one from the origin in the same direction.
    pub fn normalize(&self) -> (r: Point)
        ensures
            r == Point::of(self.vector().normalize_spec()),
    {
        Point::from_vector(&self.to_vector().normalize())
    }

    /// Every coordinate negated.
    pub fn neg(self) -> (r: Point)
        ensures
            r == Point::of(self.vector().neg_spec()),
    {
        Point::from_vector(&self.to_vector().neg())
    }

    /// Every coordinate multiplied by `s`.
    pub fn scale(&self, s: &Scalar) -> (r: Point)
        ensures
            r == Point::of(self.vector().scale_spec(*s)),
    {
        Point::from_vector(&self.to_vector().scale(s))
    }

    /// The displacement that leads from `other` to this point.
    pub fn displacement_from(&self, other: &Point) -> (r: Direction)
        ensures
            r == Direction::of(self.vector().sub_spec(other.vector())),
    {
        Direction::from_vector(&self.to_vector().sub(other.to_vector()))
    }
}

} // verus!
