//! Subtraction of integers.

use crate::negation::NegInt;
use crate::negation::Negation;
use crate::numeral::marker;
use crate::numeral::make;
use crate::numeral::value_of;
use crate::numeral::Next;
use crate::numeral::Numeral;
use crate::numeral::Prev;
use crate::numeral::Ratio;
use crate::numeral::Zero;
use crate::sum::AddInt;
use crate::sum::Sum;
use core::ops::Sub;
use vstd::prelude::*;
use vstd::std_specs::ops::SubSpec;
use vstd::std_specs::ops::SubSpecImpl;

verus! {

/// The difference between `T` and `U`.
///
/// Note that this is not absolute difference. For the absolute difference
/// between `T` and `U`, use `Absolute<Difference<T, U>>`.
pub type Difference<T, U> = <T as Sub<U>>::Output;

/// An integer that `Rhs` can be subtracted from with an integer as the
/// result, with the proof that the type of the result stands for the
/// difference.
pub trait SubInt<Rhs: Numeral>: Numeral + Sub<Rhs> where Difference<Self, Rhs>: Numeral {
    /// Any two values can be subtracted. The difference stands for the
    /// difference of the values, and that of two normal numbers is normal.
    proof fn difference_value()
        ensures
            forall|a: Self, b: Rhs| #[trigger] a.sub_req(b),
            Difference::<Self, Rhs>::value() == Self::value() - Rhs::value(),
            Self::normal() && Rhs::normal() ==> Difference::<Self, Rhs>::normal(),
    ;
}

/// 0 - 0 = 0.
impl Sub<Zero> for Zero {
    type Output = Zero;

    #[inline(always)]
    fn sub(self, rhs: Zero) -> (r: Self::Output)
        ensures
            value_of(r) == value_of(self) - value_of(rhs),
    {
        Zero
    }
}

/// The type of the difference has one value only, which is the result.
impl SubSpecImpl<Zero> for Zero {
    open spec fn obeys_sub_spec() -> bool {
        true
    }

    open spec fn sub_req(self, rhs: Zero) -> bool {
        true
    }

    open spec fn sub_spec(self, rhs: Zero) -> Self::Output {
        marker()
    }
}

impl SubInt<Zero> for Zero {
    proof fn difference_value() {
    }
}

/// 0 - (t + 1) = -t - 1.
impl<T: NegInt> Sub<Next<T>> for Zero where Negation<T>: Numeral {
    type Output = Prev<Negation<T>>;

    #[inline(always)]
    fn sub(self, rhs: Next<T>) -> (r: Self::Output)
        ensures
            value_of(r) == value_of(self) - value_of(rhs),
    {
        proof {
            <Self as SubInt<Next<T>>>::difference_value();
        }
        Prev::new()
    }
}

/// The type of the difference has one value only, which is the result.
impl<T: NegInt> SubSpecImpl<Next<T>> for Zero where Negation<T>: Numeral {
    open spec fn obeys_sub_spec() -> bool {
        true
    }

    open spec fn sub_req(self, rhs: Next<T>) -> bool {
        true
    }

    open spec fn sub_spec(self, rhs: Next<T>) -> Self::Output {
        marker()
    }
}

impl<T: NegInt> SubInt<Next<T>> for Zero where Negation<T>: Numeral {
    proof fn difference_value() {
        T::negation_value();
    }
}

/// 0 - (t - 1) = -t + 1.
impl<T: NegInt> Sub<Prev<T>> for Zero where Negation<T>: Numeral {
    type Output = Next<Negation<T>>;

    #[inline(always)]
    fn sub(self, rhs: Prev<T>) -> (r: Self::Output)
        ensures
            value_of(r) == value_of(self) - value_of(rhs),
    {
        proof {
            <Self as SubInt<Prev<T>>>::difference_value();
        }
        Next::new()
    }
}

/// The type of the difference has one value only, which is the result.
impl<T: NegInt> SubSpecImpl<Prev<T>> for Zero where Negation<T>: Numeral {
    open spec fn obeys_sub_spec() -> bool {
        true
    }

    open spec fn sub_req(self, rhs: Prev<T>) -> bool {
        true
    }

    open spec fn sub_spec(self, rhs: Prev<T>) -> Self::Output {
        marker()
    }
}

impl<T: NegInt> SubInt<Prev<T>> for Zero where Negation<T>: Numeral {
    proof fn difference_value() {
        T::negation_value();
    }
}

/// (t + 1) - 0 = t + 1.
impl<T: Numeral> Sub<Zero> for Next<T> {
    type Output = Self;

    #[inline(always)]
    fn sub(self, rhs: Zero) -> (r: Self::Output)
        ensures
            value_of(r) == value_of(self) - value_of(rhs),
    {
        Next::new()
    }
}

/// The type of the difference has one value only, which is the result.
impl<T: Numeral> SubSpecImpl<Zero> for Next<T> {
    open spec fn obeys_sub_spec() -> bool {
        true
    }

    open spec fn sub_req(self, rhs: Zero) -> bool {
        true
    }

    open spec fn sub_spec(self, rhs: Zero) -> Self::Output {
        marker()
    }
}

impl<T: Numeral> SubInt<Zero> for Next<T> {
    proof fn difference_value() {
    }
}

/// (t - 1) - 0 = t - 1.
impl<T: Numeral> Sub<Zero> for Prev<T> {
    type Output = Self;

    #[inline(always)]
    fn sub(self, rhs: Zero) -> (r: Self::Output)
        ensures
            value_of(r) == value_of(self) - value_of(rhs),
    {
        Prev::new()
    }
}

/// The type of the difference has one value only, which is the result.
impl<T: Numeral> SubSpecImpl<Zero> for Prev<T> {
    open spec fn obeys_sub_spec() -> bool {
        true
    }

    open spec fn sub_req(self, rhs: Zero) -> bool {
        true
    }

    open spec fn sub_spec(self, rhs: Zero) -> Self::Output {
        marker()
    }
}

impl<T: Numeral> SubInt<Zero> for Prev<T> {
    proof fn difference_value() {
    }
}

/// (t + 1) - (u + 1) = t - u.
impl<T, U> Sub<Next<U>> for Next<T>
where
    U: Numeral,
    T: SubInt<U>,
    Difference<T, U>: Numeral + Default,
{
    type Output = Difference<T, U>;

    #[inline(always)]
    fn sub(self, rhs: Next<U>) -> (r: Self::Output)
        ensures
            value_of(r) == value_of(self) - value_of(rhs),
    {
        proof {
            <Self as SubInt<Next<U>>>::difference_value();
        }
        make()
    }
}

/// The type of the difference has one value only, which is the result.
impl<T, U> SubSpecImpl<Next<U>> for Next<T>
where
    U: Numeral,
    T: SubInt<U>,
    Difference<T, U>: Numeral + Default,
{
    open spec fn obeys_sub_spec() -> bool {
        true
    }

    open spec fn sub_req(self, rhs: Next<U>) -> bool {
        true
    }

    open spec fn sub_spec(self, rhs: Next<U>) -> Self::Output {
        marker()
    }
}

impl<T, U> SubInt<Next<U>> for Next<T>
where
    U: Numeral,
    T: SubInt<U>,
    Difference<T, U>: Numeral + Default,
{
    proof fn difference_value() {
        T::difference_value();
    }
}

/// (t + 1) - (u - 1) = (t + 1) + -(u - 1).
impl<T, U> Sub<Prev<U>> for Next<T>
where
    T: Numeral,
    U: Numeral,
    Prev<U>: NegInt,
    Negation<Prev<U>>: Numeral,
    Next<T>: AddInt<Negation<Prev<U>>>,
    Sum<Next<T>, Negation<Prev<U>>>: Numeral + Default,
{
    type Output = Sum<Next<T>, Negation<Prev<U>>>;

    #[inline(always)]
    fn sub(self, rhs: Prev<U>) -> (r: Self::Output)
        ensures
            value_of(r) == value_of(self) - value_of(rhs),
    {
        proof {
            <Self as SubInt<Prev<U>>>::difference_value();
        }
        make()
    }
}

/// The type of the difference has one value only, which is the result.
impl<T, U> SubSpecImpl<Prev<U>> for Next<T>
where
    T: Numeral,
    U: Numeral,
    Prev<U>: NegInt,
    Negation<Prev<U>>: Numeral,
    Next<T>: AddInt<Negation<Prev<U>>>,
    Sum<Next<T>, Negation<Prev<U>>>: Numeral + Default,
{
    open spec fn obeys_sub_spec() -> bool {
        true
    }

    open spec fn sub_req(self, rhs: Prev<U>) -> bool {
        true
    }

    open spec fn sub_spec(self, rhs: Prev<U>) -> Self::Output {
        marker()
    }
}

impl<T, U> SubInt<Prev<U>> for Next<T>
where
    T: Numeral,
    U: Numeral,
    Prev<U>: NegInt,
    Negation<Prev<U>>: Numeral,
    Next<T>: AddInt<Negation<Prev<U>>>,
    Sum<Next<T>, Negation<Prev<U>>>: Numeral + Default,
{
    proof fn difference_value() {
        <Prev<U> as NegInt>::negation_value();
        <Next<T> as AddInt<Negation<Prev<U>>>>::sum_value();
    }
}

/// (t - 1) - (u + 1) = t - (u + 1 + 1).
impl<T, U> Sub<Next<U>> for Prev<T>
where
    U: Numeral,
    T: SubInt<Next<Next<U>>>,
    Difference<T, Next<Next<U>>>: Numeral + Default,
{
    type Output = Difference<T, Next<Next<U>>>;

    #[inline(always)]
    fn sub(self, rhs: Next<U>) -> (r: Self::Output)
        ensures
            value_of(r) == value_of(self) - value_of(rhs),
    {
        proof {
            <Self as SubInt<Next<U>>>::difference_value();
        }
        make()
    }
}

/// The type of the difference has one value only, which is the result.
impl<T, U> SubSpecImpl<Next<U>> for Prev<T>
where
    U: Numeral,
    T: SubInt<Next<Next<U>>>,
    Difference<T, Next<Next<U>>>: Numeral + Default,
{
    open spec fn obeys_sub_spec() -> bool {
        true
    }

    open spec fn sub_req(self, rhs: Next<U>) -> bool {
        true
    }

    open spec fn sub_spec(self, rhs: Next<U>) -> Self::Output {
        marker()
    }
}

impl<T, U> SubInt<Next<U>> for Prev<T>
where
    U: Numeral,
    T: SubInt<Next<Next<U>>>,
    Difference<T, Next<Next<U>>>: Numeral + Default,
{
    proof fn difference_value() {
        <T as SubInt<Next<Next<U>>>>::difference_value();
    }
}

/// (t - 1) - (u - 1) = t - u.
impl<T, U> Sub<Prev<U>> for Prev<T>
where
    U: Numeral,
    T: SubInt<U>,
    Difference<T, U>: Numeral + Default,
{
    type Output = Difference<T, U>;

    #[inline(always)]
    fn sub(self, rhs: Prev<U>) -> (r: Self::Output)
        ensures
            value_of(r) == value_of(self) - value_of(rhs),
    {
        proof {
            <Self as SubInt<Prev<U>>>::difference_value();
        }
        make()
    }
}

/// The type of the difference has one value only, which is the result.
impl<T, U> SubSpecImpl<Prev<U>> for Prev<T>
where
    U: Numeral,
    T: SubInt<U>,
    Difference<T, U>: Numeral + Default,
{
    open spec fn obeys_sub_spec() -> bool {
        true
    }

    open spec fn sub_req(self, rhs: Prev<U>) -> bool {
        true
    }

    open spec fn sub_spec(self, rhs: Prev<U>) -> Self::Output {
        marker()
    }
}

impl<T, U> SubInt<Prev<U>> for Prev<T>
where
    U: Numeral,
    T: SubInt<U>,
    Difference<T, U>: Numeral + Default,
{
    proof fn difference_value() {
        T::difference_value();
    }
}

} // verus!
