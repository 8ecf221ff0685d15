//! The absolute value of an integer.

use crate::negation::NegInt;
use crate::negation::Negation;
use crate::numeral::Next;
use crate::numeral::Numeral;
use crate::numeral::Prev;
use crate::numeral::Ratio;
use crate::numeral::Zero;
use crate::sign::lemma_positive;
use crate::sign::NonNegative;
use crate::sign::Positive;
use crate::simplify::lemma_simplified_integer;
use crate::simplify::Simplified;
use crate::simplify::Simplify;
use vstd::math::abs;
use vstd::prelude::*;

verus! {

/// Type-level absolute value.
pub trait Abs: Numeral {
    /// The absolute value of `Self`.
    type Result: NonNegative + Numeral;

    /// The result stands for the absolute value, and is normal.
    proof fn absolute_value()
        ensures
            <Self::Result as Numeral>::value() == abs(Self::value()),
            <Self::Result as Ratio>::normal(),
    ;
}

/// The absolute value of `T`.
pub type Absolute<T> = <T as Abs>::Result;

impl Abs for Zero {
    type Result = Zero;

    proof fn absolute_value() {
    }
}

/// A number that is positive when simplified is its own absolute value.
impl<T: Numeral> Abs for Next<T>
where
    Self: Simplify,
    Simplified<Self>: Positive + Numeral,
{
    type Result = Simplified<Self>;

    proof fn absolute_value() {
        lemma_simplified_integer::<Self>();
        <Simplified<Self> as Numeral>::integral();
        lemma_positive::<Simplified<Self>>();
    }
}

/// A number that is negative when simplified has its negation as its
/// absolute value.
impl<T: Numeral> Abs for Prev<T>
where
    Self: Simplify,
    Simplified<Self>: NegInt,
    Negation<Simplified<Self>>: Positive + Numeral,
{
    type Result = Negation<Simplified<Self>>;

    proof fn absolute_value() {
        lemma_simplified_integer::<Self>();
        <Simplified<Self> as NegInt>::negation_value();
        <Negation<Simplified<Self>> as Numeral>::integral();
        lemma_positive::<Negation<Simplified<Self>>>();
    }
}

} // verus!
