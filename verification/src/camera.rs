//! Cameras: from a place on the screen to a ray into the scene.

use crate::component::Component;
use crate::vectors::{cross_value, unit, Normalized, Ray, Vec2, Vec3, Vector};
use vstd::prelude::*;

verus! {

/// Something that looks into the scene.
pub trait Camera: Send + Sync {
    /// The vectors of the scene that the camera looks into.
    type V: Vector;

    /// Where the camera stands.
    spec fn place(&self) -> Self::V;

    /// The ray that the camera sends through `offset`.
    spec fn ray_through(&self, offset: Vec2<<Self::V as Vector>::Scalar>) -> Ray<Self::V>;

    fn position(&self) -> (r: Self::V)
        ensures
            r == self.place(),
    ;

    fn set_position(&mut self, position: Self::V)
        ensures
            final(self).place() == position,
    ;

    /// The ray through the point `offset` of the screen, whose centre is the
    /// origin.
    fn ray(&self, offset: Vec2<<Self::V as Vector>::Scalar>) -> (r: Ray<Self::V>)
        ensures
            r == self.ray_through(offset),
    ;
}

/// A camera in space with a screen one unit ahead of it.
pub struct Simple3DCamera<S: Component> {
    position: Vec3<S>,
    forward: Normalized<Vec3<S>>,
    up: Normalized<Vec3<S>>,
    right: Normalized<Vec3<S>>,
}

impl<S: Component> Simple3DCamera<S> {
    /// The direction the camera looks in.
    pub closed spec fn forward(self) -> Normalized<Vec3<S>> {
        self.forward
    }

    /// The direction towards the top of the screen.
    pub closed spec fn up(self) -> Normalized<Vec3<S>> {
        self.up
    }

    /// The direction towards the right of the screen.
    pub closed spec fn right(self) -> Normalized<Vec3<S>> {
        self.right
    }

    /// The camera at `position` that looks along `forward`, with `up`
    /// pointing roughly to the top of the screen.
    ///
    /// The screen's right is `up x forward`, and its top is then set
    /// square to both: `forward x right`. Both are unit vectors where `up`
    /// is perpendicular to `forward`.
    pub fn new(position: Vec3<S>, forward: Normalized<Vec3<S>>, up: Normalized<Vec3<S>>) -> (r:
        Self)
        ensures
            r.place() == position,
            r.forward() == forward,
            r.right() == Normalized::wrapping(cross_value(up@, forward@)),
            r.up() == Normalized::wrapping(cross_value(forward@, cross_value(up@, forward@))),
    {
        let right = up.cross(forward);
        proof {
            Normalized::lemma_wrapping(cross_value(up@, forward@));
        }
        Simple3DCamera { position, forward, up: forward.cross(right), right }
    }
}

impl<S: Component> Camera for Simple3DCamera<S> {
    type V = Vec3<S>;

    closed spec fn place(&self) -> Vec3<S> {
        self.position
    }

    open spec fn ray_through(&self, offset: Vec2<S>) -> Ray<Vec3<S>> {
        Ray {
            origin: self.place(),
            direction: unit(
                self.forward()@.sum(
                    self.right()@.scaled(offset.x).sum(self.up()@.scaled(offset.y)),
                ),
            ),
        }
    }

    fn position(&self) -> (r: Vec3<S>) {
        self.position
    }

    fn set_position(&mut self, position: Vec3<S>)
        ensures
            final(self).forward() == old(self).forward(),
            final(self).up() == old(self).up(),
            final(self).right() == old(self).right(),
    {
        self.position = position;
    }

    fn ray(&self, offset: Vec2<S>) -> (r: Ray<Vec3<S>>) {
        let offset = self.right.mul(offset.x).add(self.up.mul(offset.y));
        Ray::new(self.position, self.forward.add(offset))
    }
}

} // verus!
