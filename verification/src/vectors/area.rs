//! Areas spanned by four corners.

use super::vector::{Vec2, Vector};
use crate::component::{zero, Component};
use crate::random::random_word;
use vstd::prelude::*;

verus! {

/// A patch given by its four corners, in which a point is found by two
/// coordinates that run from zero to one.
#[derive(Clone)]
pub struct VectorArea<V: Vector> {
    pub x0_y0: V,
    pub x0_y1: V,
    pub x1_y0: V,
    pub x1_y1: V,
}

/// The point at `t` on the way from `from` to `to`: `from + (to - from) * t`.
pub open spec fn between<V: Vector>(from: V, to: V, t: V::Scalar) -> V {
    from.sum(to.difference(from).scaled(t))
}

impl<S: Component> VectorArea<Vec2<S>> {
    /// The rectangle with the corner `x0_y0` and the sides `dx` and `dy`
    /// along the axes.
    pub fn new_with_corner_2d(x0_y0: Vec2<S>, dx: S, dy: S) -> (r: Self)
        ensures
            r == Self::spanned(x0_y0, Vec2 { x: dx, y: zero() }, Vec2 { x: zero(), y: dy }),
    {
        Self::new_with_corner(
            x0_y0,
            Vec2::new(dx, S::from_count(0)),
            Vec2::new(S::from_count(0), dy),
        )
    }
}

impl<V: Vector> VectorArea<V> {
    /// The parallelogram with the corner `x0_y0` and the sides `dx` and `dy`.
    pub open spec fn spanned(x0_y0: V, dx: V, dy: V) -> Self {
        VectorArea {
            x0_y0,
            x0_y1: x0_y0.sum(dy),
            x1_y0: x0_y0.sum(dx),
            x1_y1: x0_y0.sum(dx).sum(dy),
        }
    }

    /// The point with the coordinates `x` and `y`: between the two points
    /// at `x` on the sides where `y` is zero and where `y` is one.
    pub open spec fn point(self, x: V::Scalar, y: V::Scalar) -> V {
        between(between(self.x0_y0, self.x1_y0, x), between(self.x0_y1, self.x1_y1, x), y)
    }

    /// The parallelogram with the corner `x0_y0` and the sides `dx` and `dy`.
    pub fn new_with_corner(x0_y0: V, dx: V, dy: V) -> (r: Self)
        ensures
            r == Self::spanned(x0_y0, dx, dy),
    {
        VectorArea {
            x0_y0,
            x0_y1: x0_y0.add(dy),
            x1_y0: x0_y0.add(dx),
            x1_y1: x0_y0.add(dx).add(dy),
        }
    }

    /// The point of the area with the coordinates `x` and `y`.
    pub fn vector(&self, x: V::Scalar, y: V::Scalar) -> (r: V)
        ensures
            r == self.point(x, y),
    {
        let y0 = lerp(self.x0_y0, self.x1_y0, x);
        let y1 = lerp(self.x0_y1, self.x1_y1, x);
        lerp(y0, y1, y)
    }

    /// A point of the area drawn by chance: both coordinates are drawn
    /// uniformly from `[0, 1)`, the first one first.
    pub fn random_vector(&self) -> (r: V)
        ensures
            exists|first: u32, second: u32|
                r == #[trigger] self.point(
                    V::Scalar::unit_value(first),
                    V::Scalar::unit_value(second),
                ),
    {
        let first = random_word();
        let second = random_word();
        self.vector(V::Scalar::from_random_word(first), V::Scalar::from_random_word(second))
    }
}

/// The point at `t` on the way from `from` to `to`.
fn lerp<V: Vector>(from: V, to: V, t: V::Scalar) -> (r: V)
    ensures
        r == between(from, to, t),
{
    from.add(to.sub(from).mul(t))
}

} // verus!
