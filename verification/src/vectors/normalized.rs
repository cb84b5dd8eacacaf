//! A vector that is known to have come out of a normalisation.

use super::vector::{cross_value, Vec3, Vector};
use crate::component::Component;
use vstd::prelude::*;

verus! {

/// A vector of unit length (or the zero vector, which normalises to itself).
///
/// There is no public constructor: a value is obtained from
/// [`Vector::normalized`], from the axis constructors of [`Vec3`], or from
/// another `Normalized` by an operation that keeps the length. Every
/// operation that may change the length hands back a plain vector.
#[derive(Clone, Copy, Debug, PartialEq)]
pub struct Normalized<V>(V);

impl<V> View for Normalized<V> {
    type V = V;

    /// The vector inside.
    closed spec fn view(&self) -> V {
        self.0
    }
}

impl<V> Normalized<V> {
    /// The unit vector whose components are those of `v`.
    pub closed spec fn wrapping(v: V) -> Self {
        Normalized(v)
    }

    /// A unit vector is known by the vector inside it.
    pub proof fn lemma_wrapping(v: V)
        ensures
            (#[trigger] Self::wrapping(v))@ == v,
    {
    }

    /// Takes `v` for a unit vector. Only the vector module may do so.
    pub(super) fn wrap(v: V) -> (r: Self)
        ensures
            r == Self::wrapping(v),
    {
        Normalized(v)
    }

    /// The vector inside, as a plain vector.
    pub fn into_inner(self) -> (r: V)
        ensures
            r == self@,
    {
        self.0
    }
}

impl<V: Vector> Normalized<V> {
    /// The opposite unit vector.
    pub fn neg(self) -> (r: Self)
        ensures
            r == Self::wrapping(self@.negation()),
    {
        Normalized(self.0.neg())
    }

    pub fn add(self, rhs: V) -> (r: V)
        ensures
            r == self@.sum(rhs),
    {
        self.0.add(rhs)
    }

    pub fn sub(self, rhs: V) -> (r: V)
        ensures
            r == self@.difference(rhs),
    {
        self.0.sub(rhs)
    }

    pub fn mul(self, factor: V::Scalar) -> (r: V)
        ensures
            r == self@.scaled(factor),
    {
        self.0.mul(factor)
    }

    pub fn div(self, divisor: V::Scalar) -> (r: V)
        ensures
            r == self@.shrunk(divisor),
    {
        self.0.div(divisor)
    }

    pub fn dot(self, rhs: V) -> (r: V::Scalar)
        ensures
            r == self@.inner(rhs),
    {
        self.0.dot(rhs)
    }
}

impl<S: Component> Normalized<Vec3<S>> {
    /// The cross product of two unit vectors, taken to be a unit vector again.
    ///
    /// That holds when the two are perpendicular, as they are where a basis is
    /// built; the caller answers for it.
    pub fn cross(self, rhs: Self) -> (r: Self)
        ensures
            r == Self::wrapping(cross_value(self@, rhs@)),
    {
        Normalized(self.0.cross(rhs.0))
    }
}

} // verus!
