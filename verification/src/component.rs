//! The number type that every coordinate, distance and colour channel is made of.

use vstd::prelude::*;

verus! {

/// The arithmetic of one vector component.
///
/// The library never looks inside a component: it only combines components
/// through the operations below, and everything it proves holds for whatever
/// numbers they give. Every spec function names the result of the operation
/// beside it, and each `ensures` says no more than that the operation gives
/// the result so named: that it is a function of its operands alone, so that
/// the same operands give the same result wherever and whenever it is asked.
/// Nothing is claimed about which number comes out; in particular none of the
/// laws of exact arithmetic (associativity, exact inverses) is assumed.
/// `cos` and `sin` promise nothing at all, since on floating-point hardware
/// their last digits differ between platforms.
///
/// [`Fixed`](crate::fixed::Fixed) implements the trait inside the library,
/// where each operation is proved to give what its name says. A number type
/// from outside (IEEE singles or doubles, say) is implemented by whoever
/// brings it; for such a type the `ensures` clauses are taken on trust, and
/// they hold where its operations are deterministic.
pub trait Component: Copy + Sized + Send + Sync {
    /// The component that stands for the whole number `n`.
    spec fn count_value(n: usize) -> Self;

    /// The component in `[0, 1)` that a uniformly drawn `word` is mapped to.
    spec fn unit_value(word: u32) -> Self;

    /// The angle of a full turn.
    spec fn full_turn() -> Self;

    /// `self + rhs`.
    spec fn sum(self, rhs: Self) -> Self;

    /// `self - rhs`.
    spec fn difference(self, rhs: Self) -> Self;

    /// `self * rhs`.
    spec fn product(self, rhs: Self) -> Self;

    /// `self / rhs`.
    spec fn quotient(self, rhs: Self) -> Self;

    /// `-self`.
    spec fn negation(self) -> Self;

    /// The square root of `self`.
    spec fn root(self) -> Self;

    /// `self < rhs`.
    spec fn less(self, rhs: Self) -> bool;

    /// `self == rhs` as numbers.
    spec fn same(self, rhs: Self) -> bool;

    /// `self` cut down to a whole number and held within `0..=255`.
    spec fn truncated(self) -> u8;

    fn from_count(n: usize) -> (r: Self)
        ensures
            r == Self::count_value(n),
    ;

    fn from_random_word(word: u32) -> (r: Self)
        ensures
            r == Self::unit_value(word),
    ;

    fn tau() -> (r: Self)
        ensures
            r == Self::full_turn(),
    ;

    fn add(self, rhs: Self) -> (r: Self)
        ensures
            r == self.sum(rhs),
    ;

    fn sub(self, rhs: Self) -> (r: Self)
        ensures
            r == self.difference(rhs),
    ;

    fn mul(self, rhs: Self) -> (r: Self)
        ensures
            r == self.product(rhs),
    ;

    fn div(self, rhs: Self) -> (r: Self)
        ensures
            r == self.quotient(rhs),
    ;

    fn neg(self) -> (r: Self)
        ensures
            r == self.negation(),
    ;

    fn sqrt(self) -> (r: Self)
        ensures
            r == self.root(),
    ;

    fn lt(self, rhs: Self) -> (r: bool)
        ensures
            r == self.less(rhs),
    ;

    fn equals(self, rhs: Self) -> (r: bool)
        ensures
            r == self.same(rhs),
    ;

    fn to_byte(self) -> (r: u8)
        ensures
            r == self.truncated(),
    ;

    /// The cosine of the angle `self`.
    fn cos(self) -> Self;

    /// The sine of the angle `self`.
    fn sin(self) -> Self;
}

/// The component zero.
pub open spec fn zero<S: Component>() -> S {
    S::count_value(0)
}

/// The component one.
pub open spec fn one<S: Component>() -> S {
    S::count_value(1)
}

/// The component two.
pub open spec fn two<S: Component>() -> S {
    S::count_value(2)
}

/// `x * x`.
pub open spec fn square<S: Component>(x: S) -> S {
    x.product(x)
}

/// Whether `<` on `S` is a strict order, as it is on every ordered number
/// type: nothing is below itself, and what is below something that is below a
/// third is below the third.
pub open spec fn less_is_strict<S: Component>() -> bool {
    &&& forall|a: S| !#[trigger] a.less(a)
    &&& forall|a: S, b: S, c: S| #[trigger] a.less(b) && #[trigger] b.less(c) ==> a.less(c)
}

} // verus!
