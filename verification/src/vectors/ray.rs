//! Rays: an origin and a unit direction.

use super::normalized::Normalized;
use super::vector::{unit, Vector};
use vstd::prelude::*;

verus! {

/// A half-line: the points `origin + direction * t`.
#[derive(Clone, Copy, Debug)]
pub struct Ray<V: Vector> {
    pub origin: V,
    pub direction: Normalized<V>,
}

impl<V: Vector> Ray<V> {
    /// The point of the ray at parameter `t`.
    pub open spec fn point(self, t: V::Scalar) -> V {
        self.origin.sum(self.direction@.scaled(t))
    }

    /// The ray from `origin` towards `direction`, which is normalised here.
    pub fn new(origin: V, direction: V) -> (r: Self)
        ensures
            r == (Ray { origin, direction: unit(direction) }),
    {
        Ray { origin, direction: direction.normalized() }
    }

    /// The point of the ray at parameter `t`.
    pub fn at(&self, t: V::Scalar) -> (r: V)
        ensures
            r == self.point(t),
    {
        self.origin.add(self.direction.mul(t))
    }
}

} // verus!
