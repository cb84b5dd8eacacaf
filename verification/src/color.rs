//! Colours: four unclamped linear channels.

use crate::component::{one, zero, Component};
use vstd::prelude::*;

verus! {

/// A colour of four linear channels. Nothing is clamped until
/// [`Color::clamped`] is asked for.
#[derive(Clone, Copy, Debug, PartialEq)]
pub struct Color<S: Component> {
    pub red: S,
    pub green: S,
    pub blue: S,
    pub alpha: S,
}

/// `value`, or one where `value` is not below one.
pub open spec fn capped<S: Component>(value: S) -> S {
    if value.less(one()) {
        value
    } else {
        one()
    }
}

impl<S: Component> Color<S> {
    /// The colour whose three colour channels are `brightness`.
    pub open spec fn gray(brightness: S, alpha: S) -> Self {
        Color { red: brightness, green: brightness, blue: brightness, alpha }
    }

    /// `self + rhs`, channel by channel.
    pub open spec fn sum(self, rhs: Self) -> Self {
        Color {
            red: self.red.sum(rhs.red),
            green: self.green.sum(rhs.green),
            blue: self.blue.sum(rhs.blue),
            alpha: self.alpha.sum(rhs.alpha),
        }
    }

    /// `self * rhs`, channel by channel.
    pub open spec fn product(self, rhs: Self) -> Self {
        Color {
            red: self.red.product(rhs.red),
            green: self.green.product(rhs.green),
            blue: self.blue.product(rhs.blue),
            alpha: self.alpha.product(rhs.alpha),
        }
    }

    /// `self` with every channel divided by `divisor`.
    pub open spec fn quotient(self, divisor: S) -> Self {
        Color {
            red: self.red.quotient(divisor),
            green: self.green.quotient(divisor),
            blue: self.blue.quotient(divisor),
            alpha: self.alpha.quotient(divisor),
        }
    }

    /// `self` with every channel held at or below one.
    pub open spec fn capped(self) -> Self {
        Color {
            red: capped(self.red),
            green: capped(self.green),
            blue: capped(self.blue),
            alpha: capped(self.alpha),
        }
    }

    /// Black without any coverage: every channel is zero.
    pub fn clear() -> (r: Self)
        ensures
            r == Self::gray(zero(), zero()),
    {
        Self::new_gray(S::from_count(0), S::from_count(0))
    }

    /// Opaque black.
    pub fn black() -> (r: Self)
        ensures
            r == Self::gray(zero(), one()),
    {
        Self::new_gray(S::from_count(0), S::from_count(1))
    }

    /// Opaque white.
    pub fn white() -> (r: Self)
        ensures
            r == Self::gray(one(), one()),
    {
        Self::new_gray(S::from_count(1), S::from_count(1))
    }

    pub fn new(red: S, green: S, blue: S, alpha: S) -> (r: Self)
        ensures
            r == (Color { red, green, blue, alpha }),
    {
        Color { red, green, blue, alpha }
    }

    pub fn new_gray(brightness: S, alpha: S) -> (r: Self)
        ensures
            r == Self::gray(brightness, alpha),
    {
        Color { red: brightness, green: brightness, blue: brightness, alpha }
    }

    /// The colour with every channel held at or below one. A channel that
    /// does not compare below one (a channel above one, or one that is not a
    /// number) becomes one.
    pub fn clamped(&self) -> (r: Self)
        ensures
            r == self.capped(),
    {
        Color {
            red: cap(self.red),
            green: cap(self.green),
            blue: cap(self.blue),
            alpha: cap(self.alpha),
        }
    }

    pub fn add(self, rhs: Self) -> (r: Self)
        ensures
            r == self.sum(rhs),
    {
        Color {
            red: self.red.add(rhs.red),
            green: self.green.add(rhs.green),
            blue: self.blue.add(rhs.blue),
            alpha: self.alpha.add(rhs.alpha),
        }
    }

    pub fn add_assign(&mut self, rhs: Self)
        ensures
            *final(self) == old(self).sum(rhs),
    {
        self.red = self.red.add(rhs.red);
        self.green = self.green.add(rhs.green);
        self.blue = self.blue.add(rhs.blue);
        self.alpha = self.alpha.add(rhs.alpha);
    }

    pub fn mul(self, rhs: Self) -> (r: Self)
        ensures
            r == self.product(rhs),
    {
        Color {
            red: self.red.mul(rhs.red),
            green: self.green.mul(rhs.green),
            blue: self.blue.mul(rhs.blue),
            alpha: self.alpha.mul(rhs.alpha),
        }
    }

    pub fn mul_assign(&mut self, rhs: Self)
        ensures
            *final(self) == old(self).product(rhs),
    {
        self.red = self.red.mul(rhs.red);
        self.green = self.green.mul(rhs.green);
        self.blue = self.blue.mul(rhs.blue);
        self.alpha = self.alpha.mul(rhs.alpha);
    }

    pub fn div(self, divisor: S) -> (r: Self)
        ensures
            r == self.quotient(divisor),
    {
        Color {
            red: self.red.div(divisor),
            green: self.green.div(divisor),
            blue: self.blue.div(divisor),
            alpha: self.alpha.div(divisor),
        }
    }

    pub fn div_assign(&mut self, divisor: S)
        ensures
            *final(self) == old(self).quotient(divisor),
    {
        self.red = self.red.div(divisor);
        self.green = self.green.div(divisor);
        self.blue = self.blue.div(divisor);
        self.alpha = self.alpha.div(divisor);
    }
}

/// `value`, or one where `value` is not below one.
fn cap<S: Component>(value: S) -> (r: S)
    ensures
        r == capped(value),
{
    let limit = S::from_count(1);
    if value.lt(limit) {
        value
    } else {
        limit
    }
}

} // verus!
