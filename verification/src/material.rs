//! Materials: what a surface sends back, and where the light path goes on.

use crate::color::Color;
use crate::component::{one, two, zero, Component};
use crate::random::random_word;
use crate::shape::Hit;
use crate::vectors::{cross_value, unit, Normalized, Ray, Vec3, Vector};
use vstd::prelude::*;

verus! {

/// The answer of a surface to a hit: the light it gives off by itself, the
/// colour it multiplies into light that arrives along the next ray, and that
/// ray, if the path goes on.
pub struct Behavior<V: Vector> {
    pub emission: Color<V::Scalar>,
    pub color: Color<V::Scalar>,
    pub next_bounce: Option<Ray<V>>,
}

/// The response of a surface to light.
pub trait Material<V: Vector>: Send + Sync {
    /// Whether `behavior` is an answer that the material may give to `hit`.
    /// A material that draws nothing by chance has one answer for each hit.
    spec fn responds(&self, hit: Hit<V>, behavior: Behavior<V>) -> bool;

    fn behavior(&self, hit: Hit<V>) -> (r: Behavior<V>)
        ensures
            self.responds(hit, r),
    ;
}

/// A surface that glows in one colour and ends every path that reaches it.
pub struct FlatColorMaterial<S: Component> {
    pub color: Color<S>,
}

impl<V: Vector> Material<V> for FlatColorMaterial<V::Scalar> {
    open spec fn responds(&self, hit: Hit<V>, behavior: Behavior<V>) -> bool {
        behavior == (Behavior::<V> { emission: self.color, color: self.color, next_bounce: None })
    }

    fn behavior(&self, hit: Hit<V>) -> (r: Behavior<V>) {
        Behavior { emission: self.color, color: self.color, next_bounce: None }
    }
}

/// A perfect mirror.
pub struct MirrorMaterial;

/// The direction `direction` mirrored at a surface with normal `normal`:
/// `d - n * 2 * (d . n)`.
pub open spec fn reflection<V: Vector>(direction: V, normal: V) -> V {
    direction.difference(normal.scaled(two()).scaled(direction.inner(normal)))
}

/// What a mirror answers to `hit`: no light of its own, all arriving light
/// passed on, and the mirrored ray from the point of the hit.
pub open spec fn mirrored<V: Vector>(hit: Hit<V>) -> Behavior<V> {
    Behavior {
        emission: Color::gray(zero(), one()),
        color: Color::gray(one(), one()),
        next_bounce: Some(
            Ray {
                origin: hit.intersection,
                direction: unit(reflection(hit.ray_direction@, hit.normal@)),
            },
        ),
    }
}

impl<V: Vector> Material<V> for MirrorMaterial {
    open spec fn responds(&self, hit: Hit<V>, behavior: Behavior<V>) -> bool {
        behavior == mirrored(hit)
    }

    fn behavior(&self, hit: Hit<V>) -> (r: Behavior<V>) {
        let normal = hit.normal;
        let dir = hit.ray_direction;
        let reflected = dir.sub(
            normal.mul(V::Scalar::from_count(2)).mul(dir.dot(normal.into_inner())),
        );
        Behavior {
            emission: Color::black(),
            color: Color::white(),
            next_bounce: Some(Ray::new(hit.intersection, reflected)),
        }
    }
}

/// A matt surface: light leaves it in a direction drawn by chance from the
/// hemisphere on the side the ray came from.
pub struct DiffuseMaterial<S: Component> {
    pub color: Color<S>,
}

/// The normal of `hit`, turned to the side the ray came from: where the
/// normal points along the ray the surface was hit from inside, and the
/// normal is negated.
pub open spec fn facing_normal<S: Component>(hit: Hit<Vec3<S>>) -> Normalized<Vec3<S>> {
    if zero::<S>().less(hit.normal@.inner(hit.ray_direction@)) {
        Normalized::wrapping(hit.normal@.negation())
    } else {
        hit.normal
    }
}

/// The first tangent of the basis around the unit vector `w`.
pub open spec fn tangent<S: Component>(w: Vec3<S>) -> Vec3<S> {
    unit(cross_value(Vec3 { x: one(), y: zero(), z: zero() }, w))@
}

/// The second tangent of the basis around the unit vector `w`.
pub open spec fn bitangent<S: Component>(w: Vec3<S>) -> Vec3<S> {
    unit(cross_value(w, tangent(w)))@
}

/// The direction with the coordinates `x`, `y`, `z` in the basis of the two
/// tangents and `w`.
pub open spec fn in_basis<S: Component>(w: Vec3<S>, x: S, y: S, z: S) -> Vec3<S> {
    tangent(w).scaled(x).sum(bitangent(w).scaled(y)).sum(w.scaled(z))
}

/// The direction in which light leaves the hemisphere around the unit vector
/// `w`, for a drawn cosine of elevation and the cosine and sine of a drawn
/// azimuth.
pub open spec fn scattered_direction<S: Component>(
    w: Vec3<S>,
    cos_elevation: S,
    cos_azimuth: S,
    sin_azimuth: S,
) -> Vec3<S> {
    in_basis(
        w,
        cos_elevation.product(cos_azimuth),
        cos_elevation.product(sin_azimuth),
        one::<S>().difference(cos_elevation.product(cos_elevation)).root(),
    )
}

impl<S: Component> DiffuseMaterial<S> {
    /// What the surface answers to `hit` for the drawn numbers: no light of
    /// its own, its colour, and a ray from the point of the hit in the
    /// scattered direction.
    pub open spec fn scattered(
        self,
        hit: Hit<Vec3<S>>,
        cos_elevation: S,
        cos_azimuth: S,
        sin_azimuth: S,
    ) -> Behavior<Vec3<S>> {
        Behavior {
            emission: Color::gray(zero(), one()),
            color: self.color,
            next_bounce: Some(
                Ray {
                    origin: hit.intersection,
                    direction: unit(
                        scattered_direction(
                            facing_normal(hit)@,
                            cos_elevation,
                            cos_azimuth,
                            sin_azimuth,
                        ),
                    ),
                },
            ),
        }
    }

    /// The answer to `hit` once the chance is drawn: `cos_elevation` is the
    /// cosine of the elevation, `cos_azimuth` and `sin_azimuth` belong to the
    /// azimuth.
    ///
    /// The basis is built around the normal turned towards the incoming ray.
    /// With the cosine of the elevation drawn uniformly and the azimuth drawn
    /// uniformly over the full turn, the directions are weighted by the cosine
    /// of their angle to the normal.
    pub fn scatter(
        &self,
        hit: Hit<Vec3<S>>,
        cos_elevation: S,
        cos_azimuth: S,
        sin_azimuth: S,
    ) -> (r: Behavior<Vec3<S>>)
        ensures
            r == self.scattered(hit, cos_elevation, cos_azimuth, sin_azimuth),
    {
        let w = if S::from_count(0).lt(hit.normal.dot(hit.ray_direction.into_inner())) {
            hit.normal.neg()
        } else {
            hit.normal
        };
        let u = Vec3::new(S::from_count(1), S::from_count(0), S::from_count(0)).cross(
            w.into_inner(),
        ).normalized();
        let v = w.cross(u).into_inner().normalized();
        proof {
            Normalized::lemma_wrapping(hit.normal@.negation());
            Normalized::lemma_wrapping(cross_value(w@, u@));
        }
        let sin_elevation = S::from_count(1).sub(cos_elevation.mul(cos_elevation)).sqrt();
        let x = cos_elevation.mul(cos_azimuth);
        let y = cos_elevation.mul(sin_azimuth);
        let z = sin_elevation;
        let bounce_direction = u.mul(x).add(v.mul(y)).add(w.mul(z));
        Behavior {
            emission: Color::black(),
            color: self.color,
            next_bounce: Some(Ray::new(hit.intersection, bounce_direction)),
        }
    }
}

impl<S: Component> Material<Vec3<S>> for DiffuseMaterial<S> {
    open spec fn responds(&self, hit: Hit<Vec3<S>>, behavior: Behavior<Vec3<S>>) -> bool {
        exists|word: u32, cos_azimuth: S, sin_azimuth: S|
            behavior == #[trigger] self.scattered(
                hit,
                S::unit_value(word),
                cos_azimuth,
                sin_azimuth,
            )
    }

    /// Draws an azimuth over the full turn and the cosine of an elevation in
    /// `[0, 1)`, and scatters by them.
    fn behavior(&self, hit: Hit<Vec3<S>>) -> (r: Behavior<Vec3<S>>) {
        let azimuth = S::from_random_word(random_word()).mul(S::tau());
        let word = random_word();
        let cos_elevation = S::from_random_word(word);
        let cos_azimuth = azimuth.cos();
        let sin_azimuth = azimuth.sin();
        self.scatter(hit, cos_elevation, cos_azimuth, sin_azimuth)
    }
}

} // verus!
