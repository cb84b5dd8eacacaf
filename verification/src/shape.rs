//! Shapes: what a ray can hit, and where.

use crate::component::{square, zero, Component};
use crate::vectors::{squared_length, unit, Normalized, Ray, Vec2, Vec3, Vec4, Vector};
use vstd::prelude::*;

verus! {

/// Something found along a ray, and how far along.
pub struct Intersection<S, Data> {
    pub distance: S,
    pub data: Data,
}

/// The geometry of a hit: where the ray came from, where it met the surface,
/// and the surface normal there.
pub struct Hit<V: Vector> {
    pub ray_direction: Normalized<V>,
    pub intersection: V,
    pub normal: Normalized<V>,
}

/// A surface that a ray can hit.
pub trait Shape: Send + Sync {
    /// The vectors the shape lives among.
    type V: Vector;

    /// The hit that [`Shape::first_intersection`] reports for `ray`.
    spec fn nearest_hit(
        &self,
        ray: Ray<Self::V>,
        near_clipping: <Self::V as Vector>::Scalar,
    ) -> Option<Intersection<<Self::V as Vector>::Scalar, Hit<Self::V>>>;

    /// The nearest hit of `ray` on the shape that lies beyond
    /// `near_clipping`, if there is one. A hit is always strictly beyond
    /// `near_clipping`, so that a ray leaving a surface does not hit that
    /// surface again at once.
    fn first_intersection(
        &self,
        ray: &Ray<Self::V>,
        near_clipping: <Self::V as Vector>::Scalar,
    ) -> (r: Option<Intersection<<Self::V as Vector>::Scalar, Hit<Self::V>>>)
        ensures
            r == self.nearest_hit(*ray, near_clipping),
            r matches Some(found) ==> near_clipping.less(found.distance),
    ;
}

/// The sphere of any dimension: the points at distance `radius` from `center`.
pub struct NSphere<V: Vector> {
    pub center: V,
    pub radius: V::Scalar,
}

pub type Circle<S> = NSphere<Vec2<S>>;

pub type Sphere<S> = NSphere<Vec3<S>>;

pub type Hypersphere<S> = NSphere<Vec4<S>>;

impl<V: Vector> NSphere<V> {
    /// From the ray's origin to the centre.
    pub open spec fn offset_center(self, ray: Ray<V>) -> V {
        self.center.difference(ray.origin)
    }

    /// How far along the ray the centre projects.
    pub open spec fn projection_length(self, ray: Ray<V>) -> V::Scalar {
        self.offset_center(ray).inner(ray.direction@)
    }

    /// The squared distance from the centre to the ray's line.
    pub open spec fn cathetus_squared(self, ray: Ray<V>) -> V::Scalar {
        squared_length(
            self.offset_center(ray).difference(
                ray.direction@.scaled(self.projection_length(ray)),
            ),
        )
    }

    /// How far along the ray the near side of the sphere lies: the
    /// projection of the centre, less half the chord.
    pub open spec fn entry_distance(self, ray: Ray<V>) -> V::Scalar {
        self.projection_length(ray).difference(
            square(self.radius).difference(self.cathetus_squared(ray)).root(),
        )
    }

    /// Whether `ray` meets the sphere beyond `near_clipping`: the centre lies
    /// ahead of the origin, the line passes within the radius, and the near
    /// side lies strictly beyond `near_clipping`.
    pub open spec fn meets(self, ray: Ray<V>, near_clipping: V::Scalar) -> bool {
        &&& zero::<V::Scalar>().less(self.projection_length(ray))
        &&& !square(self.radius).less(self.cathetus_squared(ray))
        &&& near_clipping.less(self.entry_distance(ray))
    }

    /// The hit at distance `distance` along `ray`.
    pub open spec fn hit_at(self, ray: Ray<V>, distance: V::Scalar) -> Intersection<
        V::Scalar,
        Hit<V>,
    > {
        Intersection {
            distance,
            data: Hit {
                ray_direction: ray.direction,
                intersection: ray.point(distance),
                normal: unit(ray.point(distance).difference(self.center)),
            },
        }
    }
}

impl<V: Vector> Shape for NSphere<V> {
    type V = V;

    open spec fn nearest_hit(&self, ray: Ray<V>, near_clipping: V::Scalar) -> Option<
        Intersection<V::Scalar, Hit<V>>,
    > {
        if self.meets(ray, near_clipping) {
            Some(self.hit_at(ray, self.entry_distance(ray)))
        } else {
            None
        }
    }

    /// The near root of the ray and sphere equation, by projecting the centre
    /// onto the ray and taking Pythagoras.
    ///
    /// A sphere whose centre does not lie ahead of the ray's origin is
    /// missed, also where the origin lies inside it. The normal points from
    /// the centre to the hit.
    fn first_intersection(&self, ray: &Ray<V>, near_clipping: V::Scalar) -> (r: Option<
        Intersection<V::Scalar, Hit<V>>,
    >) {
        let direction = ray.direction.into_inner();
        let offset_center = self.center.sub(ray.origin);
        let projection_length = offset_center.dot(direction);
        if !V::Scalar::from_count(0).lt(projection_length) {
            return None;
        }
        let projection = direction.mul(projection_length);
        let hypotenuse_sq = self.radius.mul(self.radius);
        let cathetus_sq = offset_center.sub(projection).squared_sum();
        if hypotenuse_sq.lt(cathetus_sq) {
            return None;
        }
        let distance = projection_length.sub(hypotenuse_sq.sub(cathetus_sq).sqrt());
        if near_clipping.lt(distance) {
            let intersection = ray.at(distance);
            Some(
                Intersection {
                    distance,
                    data: Hit {
                        ray_direction: ray.direction,
                        intersection,
                        normal: intersection.sub(self.center).normalized(),
                    },
                },
            )
        } else {
            None
        }
    }
}

} // verus!
