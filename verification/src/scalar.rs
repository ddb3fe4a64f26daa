//! The arithmetic a cell value must offer.
//!
//! The solver never looks inside a number. It asks for sums, products and the
//! like through [`Scalar`], and every contract in this crate is stated over
//! the results that the trait names. An implementation backed by machine
//! floating point fits, as does any other deterministic arithmetic.
use vstd::prelude::*;

verus! {

/// A number the fields can be made of.
///
/// Each operation exists twice: as a specification function that names the
/// result, and as the executable method that computes it. The contract of a
/// method says only that it returns the named result, so an implementation
/// promises that each operation is a function of its operands and nothing
/// more. No algebraic law (associativity, a neutral element, ...) is assumed
/// anywhere, since rounding arithmetic would not obey it.
pub trait Scalar: Copy {
    /// The number that stands for the count `n`.
    spec fn of_count(n: usize) -> Self;

    /// `self + rhs`.
    spec fn sum(self, rhs: Self) -> Self;

    /// `self - rhs`.
    spec fn difference(self, rhs: Self) -> Self;

    /// `self * rhs`.
    spec fn product(self, rhs: Self) -> Self;

    /// `self / rhs`.
    spec fn quotient(self, rhs: Self) -> Self;

    /// `-self`.
    spec fn negation(self) -> Self;

    /// The largest whole number not above `self`, still as a number.
    spec fn floored(self) -> Self;

    /// `self` brought into the closed range from `low` to `high`.
    spec fn clamped(self, low: Self, high: Self) -> Self;

    /// `self` cut down to a count. What a negative, huge or undefined number
    /// becomes is the implementation's choice; callers bound the result.
    spec fn truncation(self) -> usize;

    /// Computes [`Scalar::of_count`].
    fn from_count(n: usize) -> (r: Self)
        ensures
            r == Self::of_count(n),
    ;

    /// Computes [`Scalar::sum`].
    fn plus(self, rhs: Self) -> (r: Self)
        ensures
            r == self.sum(rhs),
    ;

    /// Computes [`Scalar::difference`].
    fn minus(self, rhs: Self) -> (r: Self)
        ensures
            r == self.difference(rhs),
    ;

    /// Computes [`Scalar::product`].
    fn times(self, rhs: Self) -> (r: Self)
        ensures
            r == self.product(rhs),
    ;

    /// Computes [`Scalar::quotient`].
    fn over(self, rhs: Self) -> (r: Self)
        ensures
            r == self.quotient(rhs),
    ;

    /// Computes [`Scalar::negation`].
    fn negate(self) -> (r: Self)
        ensures
            r == self.negation(),
    ;

    /// Computes [`Scalar::floored`].
    fn floor(self) -> (r: Self)
        ensures
            r == self.floored(),
    ;

    /// Computes [`Scalar::clamped`].
    fn clamp(self, low: Self, high: Self) -> (r: Self)
        ensures
            r == self.clamped(low, high),
    ;

    /// Computes [`Scalar::truncation`].
    fn truncate(self) -> (r: usize)
        ensures
            r == self.truncation(),
    ;
}

/// The number zero.
pub open spec fn zero<S: Scalar>() -> S {
    S::of_count(0)
}

/// The number one.
pub open spec fn one<S: Scalar>() -> S {
    S::of_count(1)
}

/// One half, as the quotient of one and two.
pub open spec fn half<S: Scalar>() -> S {
    one::<S>().quotient(S::of_count(2))
}

/// One quarter, as the quotient of one and four.
pub open spec fn quarter<S: Scalar>() -> S {
    one::<S>().quotient(S::of_count(4))
}

/// The reciprocal of `x`, as the quotient of one and `x`.
pub open spec fn reciprocal<S: Scalar>(x: S) -> S {
    one::<S>().quotient(x)
}

/// Computes [`zero`].
pub fn make_zero<S: Scalar>() -> (r: S)
    ensures
        r == zero::<S>(),
{
    S::from_count(0)
}

/// Computes [`one`].
pub fn make_one<S: Scalar>() -> (r: S)
    ensures
        r == one::<S>(),
{
    S::from_count(1)
}

/// Computes [`half`].
pub fn make_half<S: Scalar>() -> (r: S)
    ensures
        r == half::<S>(),
{
    S::from_count(1).over(S::from_count(2))
}

/// Computes [`quarter`].
pub fn make_quarter<S: Scalar>() -> (r: S)
    ensures
        r == quarter::<S>(),
{
    S::from_count(1).over(S::from_count(4))
}

/// Computes [`reciprocal`].
pub fn make_reciprocal<S: Scalar>(x: S) -> (r: S)
    ensures
        r == reciprocal(x),
{
    S::from_count(1).over(x)
}

} // verus!
