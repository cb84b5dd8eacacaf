//! The vector trait and the vectors of two, three and four components.

use super::normalized::Normalized;
use crate::component::{one, zero, Component};
use vstd::prelude::*;

verus! {

/// A vector over some number type, with the operations the tracer needs.
///
/// Every spec function names the result of the operation beside it.
pub trait Vector: Copy + Sized + Send + Sync {
    /// The type of one component.
    type Scalar: Component;

    /// The vector whose components are all zero.
    spec fn origin() -> Self;

    /// `-self`, component by component.
    spec fn negation(self) -> Self;

    /// `self + rhs`, component by component.
    spec fn sum(self, rhs: Self) -> Self;

    /// `self - rhs`, component by component.
    spec fn difference(self, rhs: Self) -> Self;

    /// `self` with every component multiplied by `factor`.
    spec fn scaled(self, factor: Self::Scalar) -> Self;

    /// `self` with every component divided by `divisor`.
    spec fn shrunk(self, divisor: Self::Scalar) -> Self;

    /// The dot product: zero plus the products of the components, first to last.
    spec fn inner(self, rhs: Self) -> Self::Scalar;

    fn zero() -> (r: Self)
        ensures
            r == Self::origin(),
    ;

    fn neg(self) -> (r: Self)
        ensures
            r == self.negation(),
    ;

    fn add(self, rhs: Self) -> (r: Self)
        ensures
            r == self.sum(rhs),
    ;

    fn sub(self, rhs: Self) -> (r: Self)
        ensures
            r == self.difference(rhs),
    ;

    fn mul(self, factor: Self::Scalar) -> (r: Self)
        ensures
            r == self.scaled(factor),
    ;

    fn div(self, divisor: Self::Scalar) -> (r: Self)
        ensures
            r == self.shrunk(divisor),
    ;

    fn dot(self, rhs: Self) -> (r: Self::Scalar)
        ensures
            r == self.inner(rhs),
    ;

    /// The dot product of the vector with itself.
    fn squared_sum(self) -> (r: Self::Scalar)
        ensures
            r == self.inner(self),
    {
        self.dot(self)
    }

    /// The length of the vector.
    fn norm(self) -> (r: Self::Scalar)
        ensures
            r == self.inner(self).root(),
    {
        self.squared_sum().sqrt()
    }

    /// The vector divided by its length. A vector of length zero or of length
    /// one is wrapped as it is: nothing is divided by zero, and a unit vector
    /// is not rounded a second time.
    fn normalized(self) -> (r: Normalized<Self>)
        ensures
            r == Normalized::wrapping(
                if Self::Scalar::count_value(0).less(self.inner(self).root())
                    && !self.inner(self).root().same(Self::Scalar::count_value(1)) {
                    self.shrunk(self.inner(self).root())
                } else {
                    self
                },
            ),
    {
        let length = self.norm();
        if Self::Scalar::from_count(0).lt(length) && !length.equals(Self::Scalar::from_count(1)) {
            Normalized::wrap(self.div(length))
        } else {
            Normalized::wrap(self)
        }
    }
}

/// The squared length of `v`.
pub open spec fn squared_length<V: Vector>(v: V) -> V::Scalar {
    v.inner(v)
}

/// The length of `v`.
pub open spec fn length<V: Vector>(v: V) -> V::Scalar {
    squared_length(v).root()
}

/// Whether normalising `v` divides it: its length is above zero and is not one.
pub open spec fn divides<V: Vector>(v: V) -> bool {
    zero::<V::Scalar>().less(length(v)) && !length(v).same(one::<V::Scalar>())
}

/// `v` normalised.
pub open spec fn unit<V: Vector>(v: V) -> Normalized<V> {
    Normalized::wrapping(
        if divides(v) {
            v.shrunk(length(v))
        } else {
            v
        },
    )
}

/// Normalising a second time changes nothing, for every vector `v` whose
/// normalised form is left alone by normalisation, that is, has exactly the
/// length one (or no length above zero).
///
/// Where the number type rounds, the length of a normalised vector may miss
/// one by the last digit; such a vector is divided once more, and the law
/// does not speak of it.
pub proof fn lemma_unit_idempotent<V: Vector>(v: V)
    requires
        !divides(unit(v)@),
    ensures
        unit(unit(v)@) == unit(v),
{
    let inside = if divides(v) {
        v.shrunk(length(v))
    } else {
        v
    };
    Normalized::lemma_wrapping(inside);
}

/// A vector of length zero or one is its own normalised form.
pub proof fn lemma_unit_keeps<V: Vector>(v: V)
    requires
        !divides(v),
    ensures
        unit(v)@ == v,
        unit(unit(v)@) == unit(v),
{
    Normalized::lemma_wrapping(v);
}

/// A vector of two components.
#[derive(Clone, Copy, Debug, PartialEq)]
pub struct Vec2<S: Component> {
    pub x: S,
    pub y: S,
}

/// A vector of three components.
#[derive(Clone, Copy, Debug, PartialEq)]
pub struct Vec3<S: Component> {
    pub x: S,
    pub y: S,
    pub z: S,
}

/// A vector of four components.
#[derive(Clone, Copy, Debug, PartialEq)]
pub struct Vec4<S: Component> {
    pub x: S,
    pub y: S,
    pub z: S,
    pub w: S,
}

impl<S: Component> Vec2<S> {
    pub fn new(x: S, y: S) -> (r: Self)
        ensures
            r == (Vec2 { x, y }),
    {
        Vec2 { x, y }
    }
}

impl<S: Component> Vector for Vec2<S> {
    type Scalar = S;

    open spec fn origin() -> Self {
        Vec2 { x: zero(), y: zero() }
    }

    open spec fn negation(self) -> Self {
        Vec2 { x: self.x.negation(), y: self.y.negation() }
    }

    open spec fn sum(self, rhs: Self) -> Self {
        Vec2 { x: self.x.sum(rhs.x), y: self.y.sum(rhs.y) }
    }

    open spec fn difference(self, rhs: Self) -> Self {
        Vec2 { x: self.x.difference(rhs.x), y: self.y.difference(rhs.y) }
    }

    open spec fn scaled(self, factor: S) -> Self {
        Vec2 { x: self.x.product(factor), y: self.y.product(factor) }
    }

    open spec fn shrunk(self, divisor: S) -> Self {
        Vec2 { x: self.x.quotient(divisor), y: self.y.quotient(divisor) }
    }

    open spec fn inner(self, rhs: Self) -> S {
        zero::<S>().sum(self.x.product(rhs.x)).sum(self.y.product(rhs.y))
    }

    fn zero() -> (r: Self) {
        Vec2 { x: S::from_count(0), y: S::from_count(0) }
    }

    fn neg(self) -> (r: Self) {
        Vec2 { x: self.x.neg(), y: self.y.neg() }
    }

    fn add(self, rhs: Self) -> (r: Self) {
        Vec2 { x: self.x.add(rhs.x), y: self.y.add(rhs.y) }
    }

    fn sub(self, rhs: Self) -> (r: Self) {
        Vec2 { x: self.x.sub(rhs.x), y: self.y.sub(rhs.y) }
    }

    fn mul(self, factor: S) -> (r: Self) {
        Vec2 { x: self.x.mul(factor), y: self.y.mul(factor) }
    }

    fn div(self, divisor: S) -> (r: Self) {
        Vec2 { x: self.x.div(divisor), y: self.y.div(divisor) }
    }

    fn dot(self, rhs: Self) -> (r: S) {
        S::from_count(0).add(self.x.mul(rhs.x)).add(self.y.mul(rhs.y))
    }
}

impl<S: Component> Vec3<S> {
    pub fn new(x: S, y: S, z: S) -> (r: Self)
        ensures
            r == (Vec3 { x, y, z }),
    {
        Vec3 { x, y, z }
    }

    /// The unit vector along the first axis.
    pub fn positive_x() -> (r: Normalized<Self>)
        ensures
            r == Normalized::wrapping(axis::<S>(0, false)),
    {
        Normalized::wrap(Vec3 { x: S::from_count(1), y: S::from_count(0), z: S::from_count(0) })
    }

    /// The unit vector against the first axis.
    pub fn negative_x() -> (r: Normalized<Self>)
        ensures
            r == Normalized::wrapping(axis::<S>(0, true)),
    {
        Normalized::wrap(Vec3 { x: S::from_count(1).neg(), y: S::from_count(0), z: S::from_count(0) })
    }

    /// The unit vector along the second axis.
    pub fn positive_y() -> (r: Normalized<Self>)
        ensures
            r == Normalized::wrapping(axis::<S>(1, false)),
    {
        Normalized::wrap(Vec3 { x: S::from_count(0), y: S::from_count(1), z: S::from_count(0) })
    }

    /// The unit vector against the second axis.
    pub fn negative_y() -> (r: Normalized<Self>)
        ensures
            r == Normalized::wrapping(axis::<S>(1, true)),
    {
        Normalized::wrap(Vec3 { x: S::from_count(0), y: S::from_count(1).neg(), z: S::from_count(0) })
    }

    /// The unit vector along the third axis.
    pub fn positive_z() -> (r: Normalized<Self>)
        ensures
            r == Normalized::wrapping(axis::<S>(2, false)),
    {
        Normalized::wrap(Vec3 { x: S::from_count(0), y: S::from_count(0), z: S::from_count(1) })
    }

    /// The unit vector against the third axis.
    pub fn negative_z() -> (r: Normalized<Self>)
        ensures
            r == Normalized::wrapping(axis::<S>(2, true)),
    {
        Normalized::wrap(Vec3 { x: S::from_count(0), y: S::from_count(0), z: S::from_count(1).neg() })
    }

    /// The cross product `self x rhs`.
    pub fn cross(self, rhs: Self) -> (r: Self)
        ensures
            r == cross_value(self, rhs),
    {
        Vec3 {
            x: self.y.mul(rhs.z).sub(self.z.mul(rhs.y)),
            y: self.z.mul(rhs.x).sub(self.x.mul(rhs.z)),
            z: self.x.mul(rhs.y).sub(self.y.mul(rhs.x)),
        }
    }
}

/// The vector with one (or, if `against`, minus one) at place `index` and zero
/// at the two other places.
pub open spec fn axis<S: Component>(index: int, against: bool) -> Vec3<S> {
    let unit = if against {
        one::<S>().negation()
    } else {
        one::<S>()
    };
    Vec3 {
        x: if index == 0 { unit } else { zero() },
        y: if index == 1 { unit } else { zero() },
        z: if index == 2 { unit } else { zero() },
    }
}

/// The cross product `a x b`.
pub open spec fn cross_value<S: Component>(a: Vec3<S>, b: Vec3<S>) -> Vec3<S> {
    Vec3 {
        x: a.y.product(b.z).difference(a.z.product(b.y)),
        y: a.z.product(b.x).difference(a.x.product(b.z)),
        z: a.x.product(b.y).difference(a.y.product(b.x)),
    }
}

impl<S: Component> Vector for Vec3<S> {
    type Scalar = S;

    open spec fn origin() -> Self {
        Vec3 { x: zero(), y: zero(), z: zero() }
    }

    open spec fn negation(self) -> Self {
        Vec3 { x: self.x.negation(), y: self.y.negation(), z: self.z.negation() }
    }

    open spec fn sum(self, rhs: Self) -> Self {
        Vec3 { x: self.x.sum(rhs.x), y: self.y.sum(rhs.y), z: self.z.sum(rhs.z) }
    }

    open spec fn difference(self, rhs: Self) -> Self {
        Vec3 {
            x: self.x.difference(rhs.x),
            y: self.y.difference(rhs.y),
            z: self.z.difference(rhs.z),
        }
    }

    open spec fn scaled(self, factor: S) -> Self {
        Vec3 {
            x: self.x.product(factor),
            y: self.y.product(factor),
            z: self.z.product(factor),
        }
    }

    open spec fn shrunk(self, divisor: S) -> Self {
        Vec3 {
            x: self.x.quotient(divisor),
            y: self.y.quotient(divisor),
            z: self.z.quotient(divisor),
        }
    }

    open spec fn inner(self, rhs: Self) -> S {
        zero::<S>().sum(self.x.product(rhs.x)).sum(self.y.product(rhs.y)).sum(
            self.z.product(rhs.z),
        )
    }

    fn zero() -> (r: Self) {
        Vec3 { x: S::from_count(0), y: S::from_count(0), z: S::from_count(0) }
    }

    fn neg(self) -> (r: Self) {
        Vec3 { x: self.x.neg(), y: self.y.neg(), z: self.z.neg() }
    }

    fn add(self, rhs: Self) -> (r: Self) {
        Vec3 { x: self.x.add(rhs.x), y: self.y.add(rhs.y), z: self.z.add(rhs.z) }
    }

    fn sub(self, rhs: Self) -> (r: Self) {
        Vec3 { x: self.x.sub(rhs.x), y: self.y.sub(rhs.y), z: self.z.sub(rhs.z) }
    }

    fn mul(self, factor: S) -> (r: Self) {
        Vec3 { x: self.x.mul(factor), y: self.y.mul(factor), z: self.z.mul(factor) }
    }

    fn div(self, divisor: S) -> (r: Self) {
        Vec3 { x: self.x.div(divisor), y: self.y.div(divisor), z: self.z.div(divisor) }
    }

    fn dot(self, rhs: Self) -> (r: S) {
        S::from_count(0).add(self.x.mul(rhs.x)).add(self.y.mul(rhs.y)).add(self.z.mul(rhs.z))
    }
}

impl<S: Component> Vec4<S> {
    pub fn new(x: S, y: S, z: S, w: S) -> (r: Self)
        ensures
            r == (Vec4 { x, y, z, w }),
    {
        Vec4 { x, y, z, w }
    }
}

impl<S: Component> Vector for Vec4<S> {
    type Scalar = S;

    open spec fn origin() -> Self {
        Vec4 { x: zero(), y: zero(), z: zero(), w: zero() }
    }

    open spec fn negation(self) -> Self {
        Vec4 {
            x: self.x.negation(),
            y: self.y.negation(),
            z: self.z.negation(),
            w: self.w.negation(),
        }
    }

    open spec fn sum(self, rhs: Self) -> Self {
        Vec4 {
            x: self.x.sum(rhs.x),
            y: self.y.sum(rhs.y),
            z: self.z.sum(rhs.z),
            w: self.w.sum(rhs.w),
        }
    }

    open spec fn difference(self, rhs: Self) -> Self {
        Vec4 {
            x: self.x.difference(rhs.x),
            y: self.y.difference(rhs.y),
            z: self.z.difference(rhs.z),
            w: self.w.difference(rhs.w),
        }
    }

    open spec fn scaled(self, factor: S) -> Self {
        Vec4 {
            x: self.x.product(factor),
            y: self.y.product(factor),
            z: self.z.product(factor),
            w: self.w.product(factor),
        }
    }

    open spec fn shrunk(self, divisor: S) -> Self {
        Vec4 {
            x: self.x.quotient(divisor),
            y: self.y.quotient(divisor),
            z: self.z.quotient(divisor),
            w: self.w.quotient(divisor),
        }
    }

    open spec fn inner(self, rhs: Self) -> S {
        zero::<S>().sum(self.x.product(rhs.x)).sum(self.y.product(rhs.y)).sum(
            self.z.product(rhs.z),
        ).sum(self.w.product(rhs.w))
    }

    fn zero() -> (r: Self) {
        Vec4 { x: S::from_count(0), y: S::from_count(0), z: S::from_count(0), w: S::from_count(0) }
    }

    fn neg(self) -> (r: Self) {
        Vec4 { x: self.x.neg(), y: self.y.neg(), z: self.z.neg(), w: self.w.neg() }
    }

    fn add(self, rhs: Self) -> (r: Self) {
        Vec4 {
            x: self.x.add(rhs.x),
            y: self.y.add(rhs.y),
            z: self.z.add(rhs.z),
            w: self.w.add(rhs.w),
        }
    }

    fn sub(self, rhs: Self) -> (r: Self) {
        Vec4 {
            x: self.x.sub(rhs.x),
            y: self.y.sub(rhs.y),
            z: self.z.sub(rhs.z),
            w: self.w.sub(rhs.w),
        }
    }

    fn mul(self, factor: S) -> (r: Self) {
        Vec4 {
            x: self.x.mul(factor),
            y: self.y.mul(factor),
            z: self.z.mul(factor),
            w: self.w.mul(factor),
        }
    }

    fn div(self, divisor: S) -> (r: Self) {
        Vec4 {
            x: self.x.div(divisor),
            y: self.y.div(divisor),
            z: self.z.div(divisor),
            w: self.w.div(divisor),
        }
    }

    fn dot(self, rhs: Self) -> (r: S) {
        S::from_count(0).add(self.x.mul(rhs.x)).add(self.y.mul(rhs.y)).add(
            self.z.mul(rhs.z),
        ).add(self.w.mul(rhs.w))
    }
}

} // verus!
