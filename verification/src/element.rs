//! What a field is made of: single numbers for density, pairs for velocity.
//!
//! Relaxation, advection and the boundary rule are written once, over
//! [`Element`], and run on both kinds of field.
use vstd::prelude::*;
use crate::scalar::{zero, Scalar};

verus! {

/// A direction of the lattice. A wall is named by the axis it is normal to.
#[derive(Clone, Copy, Debug, PartialEq, Eq)]
pub enum Axis {
    X,
    Y,
}

/// A pair of numbers: a velocity sample, or a position.
#[derive(Clone, Copy, Debug, PartialEq)]
pub struct Vec2<S> {
    pub x: S,
    pub y: S,
}

/// A value that can sit in a cell: it can be added, scaled by a number and
/// bounced off a wall.
pub trait Element: Copy {
    /// The numbers this element is made of and scaled by.
    type Number: Scalar;

    /// The element every field starts from.
    spec fn origin() -> Self;

    /// `self + rhs`.
    spec fn total(self, rhs: Self) -> Self;

    /// `self * k`.
    spec fn scaled(self, k: Self::Number) -> Self;

    /// The value an edge cell takes from its inner neighbour `self` at a wall
    /// normal to `axis`: the part along `axis` changes sign, the rest is kept.
    spec fn reflected(self, axis: Axis) -> Self;

    /// Computes [`Element::origin`].
    fn zero() -> (r: Self)
        ensures
            r == Self::origin(),
    ;

    /// Computes [`Element::total`].
    fn accumulate(self, rhs: Self) -> (r: Self)
        ensures
            r == self.total(rhs),
    ;

    /// Computes [`Element::scaled`].
    fn scale(self, k: Self::Number) -> (r: Self)
        ensures
            r == self.scaled(k),
    ;

    /// Computes [`Element::reflected`].
    fn reflect(self, axis: Axis) -> (r: Self)
        ensures
            r == self.reflected(axis),
    ;
}

/// A number is an element with nothing normal to any wall: reflection keeps it.
impl<S: Scalar> Element for S {
    type Number = S;

    open spec fn origin() -> Self {
        zero::<S>()
    }

    open spec fn total(self, rhs: Self) -> Self {
        self.sum(rhs)
    }

    open spec fn scaled(self, k: S) -> Self {
        self.product(k)
    }

    open spec fn reflected(self, axis: Axis) -> Self {
        self
    }

    fn zero() -> (r: Self) {
        S::from_count(0)
    }

    fn accumulate(self, rhs: Self) -> (r: Self) {
        self.plus(rhs)
    }

    fn scale(self, k: S) -> (r: Self) {
        self.times(k)
    }

    fn reflect(self, axis: Axis) -> (r: Self) {
        self
    }
}

/// A pair is handled part by part; a wall negates the part normal to it.
impl<S: Scalar> Element for Vec2<S> {
    type Number = S;

    open spec fn origin() -> Self {
        Vec2 { x: zero::<S>(), y: zero::<S>() }
    }

    open spec fn total(self, rhs: Self) -> Self {
        Vec2 { x: self.x.sum(rhs.x), y: self.y.sum(rhs.y) }
    }

    open spec fn scaled(self, k: S) -> Self {
        Vec2 { x: self.x.product(k), y: self.y.product(k) }
    }

    open spec fn reflected(self, axis: Axis) -> Self {
        match axis {
            Axis::X => Vec2 { x: self.x.negation(), y: self.y },
            Axis::Y => Vec2 { x: self.x, y: self.y.negation() },
        }
    }

    fn zero() -> (r: Self) {
        Vec2 { x: S::from_count(0), y: S::from_count(0) }
    }

    fn accumulate(self, rhs: Self) -> (r: Self) {
        Vec2 { x: self.x.plus(rhs.x), y: self.y.plus(rhs.y) }
    }

    fn scale(self, k: S) -> (r: Self) {
        Vec2 { x: self.x.times(k), y: self.y.times(k) }
    }

    fn reflect(self, axis: Axis) -> (r: Self) {
        match axis {
            Axis::X => Vec2 { x: self.x.negate(), y: self.y },
            Axis::Y => Vec2 { x: self.x, y: self.y.negate() },
        }
    }
}

} // verus!
