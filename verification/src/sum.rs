//! Addition of integers.

use crate::difference::Difference;
use crate::difference::SubInt;
use crate::numeral::marker;
use crate::numeral::make;
use crate::numeral::value_of;
use crate::numeral::Next;
use crate::numeral::Numeral;
use crate::numeral::Prev;
use crate::numeral::Ratio;
use crate::numeral::Two;
use crate::numeral::Zero;
use core::ops::Add;
use vstd::prelude::*;
use vstd::std_specs::ops::AddSpec;
use vstd::std_specs::ops::AddSpecImpl;

verus! {

/// The sum of `T` and `U`.
pub type Sum<T, U> = <T as Add<U>>::Output;

/// An integer that can be added to `Rhs` with an integer as the result, with
/// the proof that the type of the result stands for the sum.
pub trait AddInt<Rhs: Numeral>: Numeral + Add<Rhs> where Sum<Self, Rhs>: Numeral {
    /// Any two values can be added. The sum stands for the sum of the
    /// values, and that of two normal numbers is normal.
    proof fn sum_value()
        ensures
            forall|a: Self, b: Rhs| #[trigger] a.add_req(b),
            Sum::<Self, Rhs>::value() == Self::value() + Rhs::value(),
            Self::normal() && Rhs::normal() ==> Sum::<Self, Rhs>::normal(),
    ;
}

/// 0 + 0 = 0.
impl Add<Zero> for Zero {
    type Output = Zero;

    #[inline(always)]
    fn add(self, rhs: Zero) -> (r: Self::Output)
        ensures
            value_of(r) == value_of(self) + value_of(rhs),
    {
        Zero
    }
}

/// The type of the sum has one value only, which is the result.
impl AddSpecImpl<Zero> for Zero {
    open spec fn obeys_add_spec() -> bool {
        true
    }

    open spec fn add_req(self, rhs: Zero) -> bool {
        true
    }

    open spec fn add_spec(self, rhs: Zero) -> Self::Output {
        marker()
    }
}

impl AddInt<Zero> for Zero {
    proof fn sum_value() {
    }
}

/// (t + 1) + 0 = t + 1.
impl<T: Numeral> Add<Zero> for Next<T> {
    type Output = Self;

    #[inline(always)]
    fn add(self, rhs: Zero) -> (r: Self::Output)
        ensures
            value_of(r) == value_of(self) + value_of(rhs),
    {
        Next::new()
    }
}

/// The type of the sum has one value only, which is the result.
impl<T: Numeral> AddSpecImpl<Zero> for Next<T> {
    open spec fn obeys_add_spec() -> bool {
        true
    }

    open spec fn add_req(self, rhs: Zero) -> bool {
        true
    }

    open spec fn add_spec(self, rhs: Zero) -> Self::Output {
        marker()
    }
}

impl<T: Numeral> AddInt<Zero> for Next<T> {
    proof fn sum_value() {
    }
}

/// (t - 1) + 0 = t - 1.
impl<T: Numeral> Add<Zero> for Prev<T> {
    type Output = Self;

    #[inline(always)]
    fn add(self, rhs: Zero) -> (r: Self::Output)
        ensures
            value_of(r) == value_of(self) + value_of(rhs),
    {
        Prev::new()
    }
}

/// The type of the sum has one value only, which is the result.
impl<T: Numeral> AddSpecImpl<Zero> for Prev<T> {
    open spec fn obeys_add_spec() -> bool {
        true
    }

    open spec fn add_req(self, rhs: Zero) -> bool {
        true
    }

    open spec fn add_spec(self, rhs: Zero) -> Self::Output {
        marker()
    }
}

impl<T: Numeral> AddInt<Zero> for Prev<T> {
    proof fn sum_value() {
    }
}

/// 0 + (t + 1) = t + 1.
impl<T: Numeral> Add<Next<T>> for Zero {
    type Output = Next<T>;

    #[inline(always)]
    fn add(self, rhs: Next<T>) -> (r: Self::Output)
        ensures
            value_of(r) == value_of(self) + value_of(rhs),
    {
        Next::new()
    }
}

/// The type of the sum has one value only, which is the result.
impl<T: Numeral> AddSpecImpl<Next<T>> for Zero {
    open spec fn obeys_add_spec() -> bool {
        true
    }

    open spec fn add_req(self, rhs: Next<T>) -> bool {
        true
    }

    open spec fn add_spec(self, rhs: Next<T>) -> Self::Output {
        marker()
    }
}

impl<T: Numeral> AddInt<Next<T>> for Zero {
    proof fn sum_value() {
    }
}

/// 0 + (t - 1) = t - 1.
impl<T: Numeral> Add<Prev<T>> for Zero {
    type Output = Prev<T>;

    #[inline(always)]
    fn add(self, rhs: Prev<T>) -> (r: Self::Output)
        ensures
            value_of(r) == value_of(self) + value_of(rhs),
    {
        Prev::new()
    }
}

/// The type of the sum has one value only, which is the result.
impl<T: Numeral> AddSpecImpl<Prev<T>> for Zero {
    open spec fn obeys_add_spec() -> bool {
        true
    }

    open spec fn add_req(self, rhs: Prev<T>) -> bool {
        true
    }

    open spec fn add_spec(self, rhs: Prev<T>) -> Self::Output {
        marker()
    }
}

impl<T: Numeral> AddInt<Prev<T>> for Zero {
    proof fn sum_value() {
    }
}

/// (t + 1) + (u + 1) = (t + u) + 1 + 1.
impl<T, U> Add<Next<U>> for Next<T>
where
    U: Numeral,
    T: AddInt<U>,
    Sum<T, U>: Numeral,
{
    type Output = Next<Next<Sum<T, U>>>;

    #[inline(always)]
    fn add(self, rhs: Next<U>) -> (r: Self::Output)
        ensures
            value_of(r) == value_of(self) + value_of(rhs),
    {
        proof {
            <Self as AddInt<Next<U>>>::sum_value();
        }
        Next::new()
    }
}

/// The type of the sum has one value only, which is the result.
impl<T, U> AddSpecImpl<Next<U>> for Next<T>
where
    U: Numeral,
    T: AddInt<U>,
    Sum<T, U>: Numeral,
{
    open spec fn obeys_add_spec() -> bool {
        true
    }

    open spec fn add_req(self, rhs: Next<U>) -> bool {
        true
    }

    open spec fn add_spec(self, rhs: Next<U>) -> Self::Output {
        marker()
    }
}

impl<T, U> AddInt<Next<U>> for Next<T>
where
    U: Numeral,
    T: AddInt<U>,
    Sum<T, U>: Numeral,
{
    proof fn sum_value() {
        T::sum_value();
    }
}

/// (t + 1) + (u - 1) = t + u.
impl<T, U> Add<Prev<U>> for Next<T>
where
    U: Numeral,
    T: AddInt<U>,
    Sum<T, U>: Numeral + Default,
{
    type Output = Sum<T, U>;

    #[inline(always)]
    fn add(self, rhs: Prev<U>) -> (r: Self::Output)
        ensures
            value_of(r) == value_of(self) + value_of(rhs),
    {
        proof {
            <Self as AddInt<Prev<U>>>::sum_value();
        }
        make()
    }
}

/// The type of the sum has one value only, which is the result.
impl<T, U> AddSpecImpl<Prev<U>> for Next<T>
where
    U: Numeral,
    T: AddInt<U>,
    Sum<T, U>: Numeral + Default,
{
    open spec fn obeys_add_spec() -> bool {
        true
    }

    open spec fn add_req(self, rhs: Prev<U>) -> bool {
        true
    }

    open spec fn add_spec(self, rhs: Prev<U>) -> Self::Output {
        marker()
    }
}

impl<T, U> AddInt<Prev<U>> for Next<T>
where
    U: Numeral,
    T: AddInt<U>,
    Sum<T, U>: Numeral + Default,
{
    proof fn sum_value() {
        T::sum_value();
    }
}

/// (t - 1) + (u + 1) = t + u.
impl<T, U> Add<Next<U>> for Prev<T>
where
    U: Numeral,
    T: AddInt<U>,
    Sum<T, U>: Numeral + Default,
{
    type Output = Sum<T, U>;

    #[inline(always)]
    fn add(self, rhs: Next<U>) -> (r: Self::Output)
        ensures
            value_of(r) == value_of(self) + value_of(rhs),
    {
        proof {
            <Self as AddInt<Next<U>>>::sum_value();
        }
        make()
    }
}

/// The type of the sum has one value only, which is the result.
impl<T, U> AddSpecImpl<Next<U>> for Prev<T>
where
    U: Numeral,
    T: AddInt<U>,
    Sum<T, U>: Numeral + Default,
{
    open spec fn obeys_add_spec() -> bool {
        true
    }

    open spec fn add_req(self, rhs: Next<U>) -> bool {
        true
    }

    open spec fn add_spec(self, rhs: Next<U>) -> Self::Output {
        marker()
    }
}

impl<T, U> AddInt<Next<U>> for Prev<T>
where
    U: Numeral,
    T: AddInt<U>,
    Sum<T, U>: Numeral + Default,
{
    proof fn sum_value() {
        T::sum_value();
    }
}

/// (t - 1) + (u - 1) = (t + u) - 2.
impl<T, U> Add<Prev<U>> for Prev<T>
where
    U: Numeral,
    T: AddInt<U>,
    Sum<T, U>: SubInt<Two>,
    Difference<Sum<T, U>, Two>: Numeral + Default,
{
    type Output = Difference<Sum<T, U>, Two>;

    #[inline(always)]
    fn add(self, rhs: Prev<U>) -> (r: Self::Output)
        ensures
            value_of(r) == value_of(self) + value_of(rhs),
    {
        proof {
            <Self as AddInt<Prev<U>>>::sum_value();
        }
        make()
    }
}

/// The type of the sum has one value only, which is the result.
impl<T, U> AddSpecImpl<Prev<U>> for Prev<T>
where
    U: Numeral,
    T: AddInt<U>,
    Sum<T, U>: SubInt<Two>,
    Difference<Sum<T, U>, Two>: Numeral + Default,
{
    open spec fn obeys_add_spec() -> bool {
        true
    }

    open spec fn add_req(self, rhs: Prev<U>) -> bool {
        true
    }

    open spec fn add_spec(self, rhs: Prev<U>) -> Self::Output {
        marker()
    }
}

impl<T, U> AddInt<Prev<U>> for Prev<T>
where
    U: Numeral,
    T: AddInt<U>,
    Sum<T, U>: SubInt<Two>,
    Difference<Sum<T, U>, Two>: Numeral + Default,
{
    proof fn sum_value() {
        T::sum_value();
        <Sum<T, U> as SubInt<Two>>::difference_value();
    }
}

} // verus!
