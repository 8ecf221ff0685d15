//! The sign of a number, known to the compiler.

use crate::numeral::Next;
use crate::numeral::Numeral;
use crate::numeral::Prev;
use crate::numeral::Ratio;
use crate::numeral::Zero;
use crate::simplify::lemma_simplified_integer;
use crate::simplify::Simplified;
use crate::simplify::Simplify;
use vstd::prelude::*;

verus! {

/// Numbers that are not written as a successor.
trait IsNotNext: Numeral {
    /// Such a number, when normal, is not above zero.
    proof fn not_next()
        requires
            Self::normal(),
        ensures
            Self::value() <= 0,
    ;
}

impl IsNotNext for Zero {
    proof fn not_next() {
    }
}

impl<T: Numeral> IsNotNext for Prev<T> {
    proof fn not_next() {
    }
}

/// Numbers that are not written as a predecessor.
trait IsNotPrev: Numeral {
    /// Such a number, when normal, is not below zero.
    proof fn not_prev()
        requires
            Self::normal(),
        ensures
            Self::value() >= 0,
    ;
}

impl IsNotPrev for Zero {
    proof fn not_prev() {
    }
}

impl<T: Numeral> IsNotPrev for Next<T> {
    proof fn not_prev() {
    }
}

/// Numbers that are not written as zero.
trait IsNotZero: Numeral {
    /// Such a number, when normal, is not zero.
    proof fn not_zero()
        requires
            Self::normal(),
        ensures
            Self::value() != 0,
    ;
}

impl<T: Numeral> IsNotZero for Next<T> {
    proof fn not_zero() {
    }
}

impl<T: Numeral> IsNotZero for Prev<T> {
    proof fn not_zero() {
    }
}

/// Positive type-level numbers.
pub trait Positive: NonNegative + NonZero {

}

/// What is neither negative nor zero is positive.
impl<T> Positive for T where T: NonNegative + NonZero {

}

/// Negative type-level numbers.
pub trait Negative: NonPositive + NonZero {

}

/// What is neither positive nor zero is negative.
impl<T> Negative for T where T: NonPositive + NonZero {

}

/// A positive number has a positive numerator over a positive denominator.
pub proof fn lemma_positive<T: Positive>()
    ensures
        T::numer() > 0,
        T::denom() > 0,
{
    T::non_negative();
    T::non_zero();
}

/// A negative number has a negative numerator over a positive denominator.
pub proof fn lemma_negative<T: Negative>()
    ensures
        T::numer() < 0,
        T::denom() > 0,
{
    T::non_positive();
    T::non_zero();
}

/// Non-negative type-level numbers.
pub trait NonNegative: Ratio {
    /// The number is zero or above.
    proof fn non_negative()
        ensures
            Self::numer() >= 0,
            Self::denom() > 0,
    ;
}

impl NonNegative for Zero {
    proof fn non_negative() {
    }
}

impl<T: Numeral> NonNegative for Next<T>
where
    Self: Simplify,
    Simplified<Self>: IsNotPrev,
{
    proof fn non_negative() {
        lemma_simplified_integer::<Self>();
        <Simplified<Self> as IsNotPrev>::not_prev();
    }
}

impl<T: Numeral> NonNegative for Prev<T>
where
    Self: Simplify,
    Simplified<Self>: IsNotPrev,
{
    proof fn non_negative() {
        lemma_simplified_integer::<Self>();
        <Simplified<Self> as IsNotPrev>::not_prev();
    }
}

/// Non-positive type-level numbers.
pub trait NonPositive: Ratio {
    /// The number is zero or below.
    proof fn non_positive()
        ensures
            Self::numer() <= 0,
            Self::denom() > 0,
    ;
}

impl NonPositive for Zero {
    proof fn non_positive() {
    }
}

impl<T: Numeral> NonPositive for Next<T>
where
    Self: Simplify,
    Simplified<Self>: IsNotNext,
{
    proof fn non_positive() {
        lemma_simplified_integer::<Self>();
        <Simplified<Self> as IsNotNext>::not_next();
    }
}

impl<T: Numeral> NonPositive for Prev<T>
where
    Self: Simplify,
    Simplified<Self>: IsNotNext,
{
    proof fn non_positive() {
        lemma_simplified_integer::<Self>();
        <Simplified<Self> as IsNotNext>::not_next();
    }
}

/// Non-zero type-level numbers.
pub trait NonZero: Ratio {
    /// The number is not zero.
    proof fn non_zero()
        ensures
            Self::numer() != 0,
            Self::denom() > 0,
    ;
}

impl<T: Numeral> NonZero for Next<T>
where
    Self: Simplify,
    Simplified<Self>: IsNotZero,
{
    proof fn non_zero() {
        lemma_simplified_integer::<Self>();
        <Simplified<Self> as IsNotZero>::not_zero();
    }
}

impl<T: Numeral> NonZero for Prev<T>
where
    Self: Simplify,
    Simplified<Self>: IsNotZero,
{
    proof fn non_zero() {
        lemma_simplified_integer::<Self>();
        <Simplified<Self> as IsNotZero>::not_zero();
    }
}

} // verus!
