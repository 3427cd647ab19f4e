//! Free vectors: directions and displacements.
use vstd::prelude::*;
use crate::algebra::Vec3;
use crate::scalar::Scalar;
use crate::vector3::Vector3;

verus! {

/// A free vector: a direction or a displacement.  Translations do not
/// act on it.
#[derive(Clone, Copy, Debug, PartialEq, Eq, Structural)]
pub struct Direction {
    pub x: Scalar,
    pub y: Scalar,
    pub z: Scalar,
}

impl View for Direction {
    type V = Vec3;

    /// The raw values of the components.
    open spec fn view(&self) -> Vec3 {
        Vec3 { x: self.x.raw as int, y: self.y.raw as int, z: self.z.raw as int }
    }
}

impl Direction {
    /// The same three components as a vector.
    pub open spec fn vector(self) -> Vector3 {
        Vector3 { x: self.x, y: self.y, z: self.z }
    }

    /// The direction with the components of `v`.
    pub open spec fn of(v: Vector3) -> Direction {
        Direction { x: v.x, y: v.y, z: v.z }
    }

    /// Whether every component is finite.
    pub open spec fn is_finite(self) -> bool {
        self.vector().is_finite()
    }

    /// The same three components as a vector.
    pub fn to_vector(&self) -> (v: Vector3)
        ensures
            v == self.vector(),
    {
        Vector3 { x: self.x, y: self.y, z: self.z }
    }

    /// The direction with the components of `v`.
    pub fn from_vector(v: &Vector3) -> (d: Direction)
        ensures
            d == Direction::of(*v),
    {
        Direction { x: v.x, y: v.y, z: v.z }
    }

    /// Euclidean length.
    pub fn norm(&self) -> (r: Scalar)
        ensures
            r == self.vector().norm_spec(),
    {
        self.to_vector().norm()
    }

    /// The direction of length one; the zero direction gives non-finite components.
    pub fn normalize(&self) -> (r: Direction)
        ensures
            r == Direction::of(self.vector().normalize_spec()),
    {
        Direction::from_vector(&self.to_vector().normalize())
    }

    /// Cross product.
    pub fn cross(&self, other: &Direction) -> (r: Direction)
        ensures
            r == Direction::of(self.vector().cross_spec(other.vector())),
    {
        Direction::from_vector(&self.to_vector().cross(&other.to_vector()))
    }

    /// Component-wise sum.
    pub fn add(self, other: Direction) -> (r: Direction)
        ensures
            r == Direction::of(self.vector().add_spec(other.vector())),
    {
        Direction::from_vector(&self.to_vector().add(other.to_vector()))
    }

    /// Component-wise difference.
    pub fn sub(self, other: Direction) -> (r: Direction)
        ensures
            r == Direction::of(self.vector().sub_spec(other.vector())),
    {
        Direction::from_vector(&self.to_vector().sub(other.to_vector()))
    }

    /// Every component negated.
    pub fn neg(self) -> (r: Direction)
        ensures
            r == Direction::of(self.vector().neg_spec()),
    {
        Direction::from_vector(&self.to_vector().neg())
    }

    /// Every component multiplied by `s`.
    pub fn scale(&self, s: &Scalar) -> (r: Direction)
        ensures
            r == Direction::of(self.vector().scale_spec(*s)),
    {
        Direction::from_vector(&self.to_vector().scale(s))
    }
}

} // verus!
