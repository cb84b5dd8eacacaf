//! The tracer: one light path, followed from the camera for as long as the
//! budget of bounces lasts.

use crate::camera::Camera;
use crate::color::Color;
use crate::component::{zero, Component};
use crate::material::Behavior;
use crate::scene::SceneElement;
use crate::shape::Intersection;
use crate::vectors::{Ray, Vec2, Vector};
use vstd::prelude::*;

verus! {

/// What stays the same over a whole rendering.
#[derive(Clone)]
pub struct TracingOptions<S: Component> {
    /// The colour of a ray that meets nothing.
    pub background_color: Color<S>,
    /// How often a path may go on from a surface.
    pub max_bounces: usize,
    /// A hit counts only strictly beyond this distance.
    pub near_clipping: S,
}

impl<S: Component> TracingOptions<S> {
    /// The near-clipping distance is not below zero.
    pub open spec fn valid(self) -> bool {
        !self.near_clipping.less(zero())
    }

    /// Whether the options can be rendered with.
    pub fn is_valid(&self) -> (r: bool)
        ensures
            r == self.valid(),
    {
        !self.near_clipping.lt(S::from_count(0))
    }
}

impl<V: Vector> Behavior<V> {
    /// The light that leaves the surface when `incoming` arrives along the
    /// next ray: `emission + color * incoming`.
    pub open spec fn lit(self, incoming: Color<V::Scalar>) -> Color<V::Scalar> {
        self.emission.sum(self.color.product(incoming))
    }

    /// The light that leaves the surface when `incoming` arrives along the
    /// next ray.
    pub fn shade(&self, incoming: Color<V::Scalar>) -> (r: Color<V::Scalar>)
        ensures
            r == self.lit(incoming),
    {
        self.emission.add(self.color.mul(incoming))
    }
}

/// A camera and the scene that it looks into.
pub struct Raytracer<C: Camera, E: SceneElement<C::V>> {
    pub camera: C,
    pub element: E,
}

impl<C: Camera, E: SceneElement<C::V>> Raytracer<C, E> {
    /// Whether `color` may come back along `ray` when the path may go on
    /// `bounces_left` more times.
    ///
    /// A ray that meets nothing brings the background colour. A ray that
    /// meets a surface brings what the surface gives off; if the surface
    /// sends the path on and a bounce is left, the light that comes back
    /// along the next ray, traced with one bounce less, is multiplied by the
    /// surface's colour and added.
    pub open spec fn may_trace(
        &self,
        ray: Ray<C::V>,
        options: TracingOptions<<C::V as Vector>::Scalar>,
        bounces_left: nat,
        color: Color<<C::V as Vector>::Scalar>,
    ) -> bool
        decreases bounces_left, 1nat,
    {
        exists|found: Option<Intersection<<C::V as Vector>::Scalar, Behavior<C::V>>>|
            #[trigger] self.element.may_intersect(ray, options.near_clipping, found)
                && self.may_shade(found, options, bounces_left, color)
    }

    /// Whether `color` may come back along a ray for which the scene has
    /// answered `found`, when the path may go on `bounces_left` more times.
    pub open spec fn may_shade(
        &self,
        found: Option<Intersection<<C::V as Vector>::Scalar, Behavior<C::V>>>,
        options: TracingOptions<<C::V as Vector>::Scalar>,
        bounces_left: nat,
        color: Color<<C::V as Vector>::Scalar>,
    ) -> bool
        decreases bounces_left, 0nat,
    {
        match found {
            None => color == options.background_color,
            Some(hit) => if bounces_left > 0 && hit.data.next_bounce is Some {
                exists|incoming: Color<<C::V as Vector>::Scalar>|
                    self.may_trace(
                        hit.data.next_bounce->0,
                        options,
                        (bounces_left - 1) as nat,
                        incoming,
                    ) && color == #[trigger] hit.data.lit(incoming)
            } else {
                color == hit.data.emission
            },
        }
    }

    /// The colour seen through the point `offset` of the screen.
    pub fn trace(
        &self,
        offset: Vec2<<C::V as Vector>::Scalar>,
        options: &TracingOptions<<C::V as Vector>::Scalar>,
    ) -> (r: Color<<C::V as Vector>::Scalar>)
        requires
            options.valid(),
        ensures
            self.may_trace(self.camera.ray_through(offset), *options, options.max_bounces as nat, r),
    {
        let ray = self.camera.ray(offset);
        self.rec_trace(ray, options, options.max_bounces)
    }

    fn rec_trace(
        &self,
        ray: Ray<C::V>,
        options: &TracingOptions<<C::V as Vector>::Scalar>,
        bounces_left: usize,
    ) -> (r: Color<<C::V as Vector>::Scalar>)
        ensures
            self.may_trace(ray, *options, bounces_left as nat, r),
        decreases bounces_left,
    {
        let found = self.element.first_intersection(ray, options.near_clipping);
        let mut color = options.background_color;
        if let Some(intersection) = &found {
            let behavior = &intersection.data;
            color = behavior.emission;
            if bounces_left > 0 {
                if let Some(next_bounce) = behavior.next_bounce {
                    let incoming = self.rec_trace(next_bounce, options, bounces_left - 1);
                    color = behavior.shade(incoming);
                }
            }
        }
        color
    }
}

/// The colour that a ray brings when the path may not go on: the background
/// where the scene has answered with nothing, else what the surface gives
/// off by itself.
pub open spec fn direct<V: Vector>(
    found: Option<Intersection<V::Scalar, Behavior<V>>>,
    options: TracingOptions<V::Scalar>,
) -> Color<V::Scalar> {
    match found {
        None => options.background_color,
        Some(hit) => hit.data.emission,
    }
}

/// With no bounce left a ray brings exactly what the surface that it meets
/// gives off by itself, and nothing of what the surface would pass on: the
/// path goes no further than its budget, mirror or not.
pub proof fn lemma_no_bounce_left<C: Camera, E: SceneElement<C::V>>(
    raytracer: Raytracer<C, E>,
    ray: Ray<C::V>,
    options: TracingOptions<<C::V as Vector>::Scalar>,
    color: Color<<C::V as Vector>::Scalar>,
)
    requires
        raytracer.may_trace(ray, options, 0, color),
    ensures
        exists|found: Option<Intersection<<C::V as Vector>::Scalar, Behavior<C::V>>>|
            #[trigger] raytracer.element.may_intersect(ray, options.near_clipping, found) && color
                == direct(found, options),
{
    let found = choose|found: Option<Intersection<<C::V as Vector>::Scalar, Behavior<C::V>>>|
        #[trigger] raytracer.element.may_intersect(ray, options.near_clipping, found)
            && raytracer.may_shade(found, options, 0, color);
    assert(raytracer.element.may_intersect(ray, options.near_clipping, found) && color == direct(
        found,
        options,
    ));
}

/// A surface that ends the path, as a light does, brings exactly what it
/// gives off, whatever the budget.
pub proof fn lemma_path_ends<C: Camera, E: SceneElement<C::V>>(
    raytracer: Raytracer<C, E>,
    found: Option<Intersection<<C::V as Vector>::Scalar, Behavior<C::V>>>,
    options: TracingOptions<<C::V as Vector>::Scalar>,
    bounces_left: nat,
    color: Color<<C::V as Vector>::Scalar>,
)
    requires
        found matches Some(hit) ==> hit.data.next_bounce is None,
    ensures
        raytracer.may_shade(found, options, bounces_left, color) <==> color == direct(
            found,
            options,
        ),
{
}

} // verus!
