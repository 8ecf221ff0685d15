//! Removal of redundancies from a number.

use crate::arith::lemma_integer_lowest_terms;
use crate::arith::lowest_terms;
use crate::difference::Difference;
use crate::difference::SubInt;
use crate::numeral::Next;
use crate::numeral::Numeral;
use crate::numeral::One;
use crate::numeral::Prev;
use crate::numeral::Ratio;
use crate::numeral::Zero;
use crate::sum::AddInt;
use crate::sum::Sum;
use vstd::prelude::*;

verus! {

/// Simplification of redundancies in type-level numbers.
pub trait Simplify: Ratio {
    /// The simplification of `Self`.
    type Result: Ratio;

    /// The simplification stands for the same number, is normal and is in
    /// lowest terms.
    proof fn simplified_value()
        ensures
            <Self::Result as Ratio>::numer() * Self::denom() == Self::numer()
                * <Self::Result as Ratio>::denom(),
            <Self::Result as Ratio>::normal(),
            lowest_terms(<Self::Result as Ratio>::numer(), <Self::Result as Ratio>::denom()),
    ;
}

/// The simplification of `T`.
pub type Simplified<T> = <T as Simplify>::Result;

/// The simplification of an integer, where it is an integer again, stands
/// for the same value and is normal.
pub proof fn lemma_simplified_integer<T: Numeral + Simplify>() where Simplified<T>: Numeral
    ensures
        Simplified::<T>::value() == T::value(),
        Simplified::<T>::normal(),
{
    T::simplified_value();
    T::integral();
    <Simplified<T> as Numeral>::integral();
    let n = Simplified::<T>::numer();
    let m = T::numer();
    assert(n * 1 == n && m * 1 == m) by (nonlinear_arith);
}

impl Simplify for Zero {
    type Result = Zero;

    proof fn simplified_value() {
        lemma_integer_lowest_terms(0);
    }
}

impl Simplify for Next<Zero> {
    type Result = Self;

    proof fn simplified_value() {
        lemma_integer_lowest_terms(1);
    }
}

impl Simplify for Prev<Zero> {
    type Result = Self;

    proof fn simplified_value() {
        lemma_integer_lowest_terms(-1);
    }
}

/// One more than the simplification of the number below.
impl<T> Simplify for Next<Next<T>>
where
    T: Numeral,
    Next<T>: Simplify,
    Simplified<Next<T>>: AddInt<One>,
    Sum<Simplified<Next<T>>, One>: Numeral,
{
    type Result = Sum<Simplified<Next<T>>, One>;

    proof fn simplified_value() {
        <Next<T> as Simplify>::simplified_value();
        <Simplified<Next<T>> as Numeral>::integral();
        <Simplified<Next<T>> as AddInt<One>>::sum_value();
        <Self::Result as Numeral>::integral();
        lemma_integer_lowest_terms(<Self::Result as Numeral>::value());
    }
}

/// One less than the simplification of the number above.
impl<T> Simplify for Prev<Prev<T>>
where
    T: Numeral,
    Prev<T>: Simplify,
    Simplified<Prev<T>>: SubInt<One>,
    Difference<Simplified<Prev<T>>, One>: Numeral,
{
    type Result = Difference<Simplified<Prev<T>>, One>;

    proof fn simplified_value() {
        <Prev<T> as Simplify>::simplified_value();
        <Simplified<Prev<T>> as Numeral>::integral();
        <Simplified<Prev<T>> as SubInt<One>>::difference_value();
        <Self::Result as Numeral>::integral();
        lemma_integer_lowest_terms(<Self::Result as Numeral>::value());
    }
}

/// A successor of a predecessor is the number itself, simplified.
impl<T> Simplify for Next<Prev<T>>
where
    T: Numeral + Simplify,
{
    type Result = Simplified<T>;

    proof fn simplified_value() {
        T::simplified_value();
        T::integral();
    }
}

/// A predecessor of a successor is the number itself, simplified.
impl<T> Simplify for Prev<Next<T>>
where
    T: Numeral + Simplify,
{
    type Result = Simplified<T>;

    proof fn simplified_value() {
        T::simplified_value();
        T::integral();
    }
}

} // verus!
