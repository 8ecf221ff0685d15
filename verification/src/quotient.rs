//! Division of integers, with remainder.

use crate::arith::positive_remainder;
use crate::arith::truncated_quotient;
use crate::difference::Difference;
use crate::difference::SubInt;
use crate::negation::NegInt;
use crate::negation::Negation;
use crate::numeral::marker;
use crate::numeral::make;
use crate::numeral::value_of;
use crate::numeral::Next;
use crate::numeral::Numeral;
use crate::numeral::One;
use crate::numeral::Prev;
use crate::numeral::Ratio;
use crate::numeral::Zero;
use crate::sign::Negative;
use crate::sign::Positive;
use crate::sum::AddInt;
use crate::sum::Sum;
use core::ops::Div;
use core::ops::Rem;
use vstd::arithmetic::div_mod::lemma_div_plus_one;
use vstd::arithmetic::div_mod::lemma_fundamental_div_mod;
use vstd::arithmetic::div_mod::lemma_mod_add_multiples_vanish;
use vstd::arithmetic::div_mod::lemma_mod_pos_bound;
use vstd::arithmetic::div_mod::lemma_small_mod;
use vstd::arithmetic::div_mod::lemma_basic_div;
use vstd::prelude::*;
use vstd::std_specs::ops::DivSpec;
use vstd::std_specs::ops::DivSpecImpl;
use vstd::std_specs::ops::RemSpec;
use vstd::std_specs::ops::RemSpecImpl;

verus! {

/// The quotient of `T` and `U`.
pub type Quotient<T, U> = <T as Div<U>>::Output;

/// The remainder when dividing `T` by `U`.
pub type Remainder<T, U> = <T as Rem<U>>::Output;

/// An integer that can be divided by `Rhs` with an integer as the result,
/// with the proof that the type of the result stands for the quotient.
pub trait DivInt<Rhs: Numeral>: Numeral + Div<Rhs> where Quotient<Self, Rhs>: Numeral {
    /// Any two values can be divided. The quotient of two normal numbers
    /// stands for the quotient of the values, rounded towards zero, and is
    /// normal.
    proof fn quotient_value()
        ensures
            forall|a: Self, b: Rhs| #[trigger] a.div_req(b),
            Self::normal() && Rhs::normal() ==> Quotient::<Self, Rhs>::value()
                == truncated_quotient(Self::value(), Rhs::value()) && Quotient::<
                Self,
                Rhs,
            >::normal(),
    ;
}

/// An integer that can be divided by `Rhs` with an integer as the remainder,
/// with the proof that the type of the result stands for the remainder.
pub trait RemInt<Rhs: Numeral>: Numeral + Rem<Rhs> where Remainder<Self, Rhs>: Numeral {
    /// Any two values can be divided. The remainder of two normal numbers
    /// stands for the remainder of the values where both are positive and
    /// for 0 otherwise, and is normal.
    proof fn remainder_value()
        ensures
            forall|a: Self, b: Rhs| #[trigger] a.rem_req(b),
            Self::normal() && Rhs::normal() ==> Remainder::<Self, Rhs>::value()
                == positive_remainder(Self::value(), Rhs::value()) && Remainder::<
                Self,
                Rhs,
            >::normal(),
    ;
}

/// The quotient and the remainder of two positive normal numbers make up the
/// dividend, and the remainder is below the divisor.
pub proof fn lemma_quotient_and_remainder<A, B>()
    where
        B: Numeral,
        A: DivInt<B> + RemInt<B>,
        Quotient<A, B>: Numeral,
        Remainder<A, B>: Numeral,
    requires
        A::normal(),
        B::normal(),
        A::value() > 0,
        B::value() > 0,
    ensures
        Quotient::<A, B>::value() * B::value() + Remainder::<A, B>::value() == A::value(),
        0 <= Remainder::<A, B>::value() < B::value(),
{
    <A as DivInt<B>>::quotient_value();
    <A as RemInt<B>>::remainder_value();
    lemma_fundamental_div_mod(A::value(), B::value());
    lemma_mod_pos_bound(A::value(), B::value());
    let q = A::value() / B::value();
    let b = B::value();
    assert(q * b == b * q) by (nonlinear_arith);
}

/// What is left of a dividend after the divisor has been taken from it once,
/// made ready for the rest of the division: a dividend that has gone below
/// zero is put into a `DivHelper`, which ends the division.
pub trait ToDivHelper<Divisor: Numeral>: Numeral
where
    Self::Result: Div<Divisor> + Rem<Divisor>,
    Quotient<Self::Result, Divisor>: Numeral,
    Remainder<Self::Result, Divisor>: Numeral,
{
    /// The rest of the dividend, or the `DivHelper` that stands for it.
    type Result;

    /// For a positive divisor and a dividend above its negation, both
    /// normal, the quotient and the remainder of the result stand for the
    /// floor of the quotient of the values and for the remainder that is
    /// not negative.
    proof fn helper_value()
        requires
            Self::normal(),
            Divisor::normal(),
            Divisor::value() > 0,
            Self::value() > -Divisor::value(),
        ensures
            Quotient::<Self::Result, Divisor>::value() == Self::value() / Divisor::value(),
            Remainder::<Self::Result, Divisor>::value() == Self::value() % Divisor::value(),
            Quotient::<Self::Result, Divisor>::normal(),
            Remainder::<Self::Result, Divisor>::normal(),
    ;
}

/// What is left of `T`, made ready to be divided by `Divisor`.
pub type DivHelperOf<T, Divisor> = <T as ToDivHelper<Divisor>>::Result;

/// Nothing is left: the division ends with the quotient and remainder 0.
impl<Divisor: Numeral + Positive> ToDivHelper<Divisor> for Zero
where
    Zero: DivInt<Divisor> + RemInt<Divisor>,
    Quotient<Zero, Divisor>: Numeral,
    Remainder<Zero, Divisor>: Numeral,
{
    type Result = Self;

    proof fn helper_value() {
        <Zero as DivInt<Divisor>>::quotient_value();
        <Zero as RemInt<Divisor>>::remainder_value();
    }
}

/// A positive rest is divided on.
impl<T: Numeral, Divisor: Numeral + Positive> ToDivHelper<Divisor> for Next<T>
where
    Next<T>: DivInt<Divisor> + RemInt<Divisor>,
    Quotient<Next<T>, Divisor>: Numeral,
    Remainder<Next<T>, Divisor>: Numeral,
{
    type Result = Self;

    proof fn helper_value() {
        <Next<T> as DivInt<Divisor>>::quotient_value();
        <Next<T> as RemInt<Divisor>>::remainder_value();
    }
}

/// A negative rest ends the division: the divisor is added back, which
/// gives the remainder.
impl<T: Numeral, Divisor: Numeral + Positive> ToDivHelper<Divisor> for Prev<T>
where
    Divisor: AddInt<Self>,
    Sum<Divisor, Self>: Numeral + Default,
{
    type Result = DivHelper<Sum<Divisor, Self>>;

    proof fn helper_value() {
        <Divisor as AddInt<Self>>::sum_value();
        let d = Self::value();
        let b = Divisor::value();
        lemma_small_mod((d + b) as nat, b as nat);
        lemma_mod_add_multiples_vanish(d, b);
        lemma_basic_div(d + b, b);
        lemma_div_plus_one(d, b);
    }
}

/// A dividend that has gone below zero: the sum of the divisor and the
/// negative rest, which is the remainder of the division.
pub struct DivHelper<T>(T);

/// A dividend below zero is the end of the division: the quotient is -1,
/// which takes back the one that was counted for the last subtraction.
impl<T, U> Div<U> for DivHelper<T> {
    type Output = Negation<One>;

    fn div(self, rhs: U) -> (r: Self::Output)
        ensures
            value_of(r) == -1,
    {
        Prev::new()
    }
}

/// The type of the quotient has one value only, which is the result.
impl<T, U> DivSpecImpl<U> for DivHelper<T> {
    open spec fn obeys_div_spec() -> bool {
        true
    }

    open spec fn div_req(self, rhs: U) -> bool {
        true
    }

    open spec fn div_spec(self, rhs: U) -> Self::Output {
        marker()
    }
}

/// A dividend below zero is the end of the division: the remainder is the
/// dividend before the last subtraction.
impl<T: Numeral + Default, U> Rem<U> for DivHelper<T> {
    type Output = T;

    fn rem(self, rhs: U) -> (r: Self::Output)
        ensures
            value_of(r) == T::value(),
    {
        make()
    }
}

/// The type of the remainder has one value only, which is the result.
impl<T: Numeral + Default, U> RemSpecImpl<U> for DivHelper<T> {
    open spec fn obeys_rem_spec() -> bool {
        true
    }

    open spec fn rem_req(self, rhs: U) -> bool {
        true
    }

    open spec fn rem_spec(self, rhs: U) -> Self::Output {
        marker()
    }
}

/// What is left of `Next<T>` after `Next<U>` has been taken from it once.
type Rest<T, U> = DivHelperOf<Difference<Next<T>, Next<U>>, Next<U>>;

/// 0 / (t + 1) = 0.
impl<T: Numeral> Div<Next<T>> for Zero {
    type Output = Zero;

    #[inline(always)]
    fn div(self, rhs: Next<T>) -> (r: Self::Output)
        ensures
            value_of(r) == 0,
    {
        Zero
    }
}

/// The type of the quotient has one value only, which is the result.
impl<T: Numeral> DivSpecImpl<Next<T>> for Zero {
    open spec fn obeys_div_spec() -> bool {
        true
    }

    open spec fn div_req(self, rhs: Next<T>) -> bool {
        true
    }

    open spec fn div_spec(self, rhs: Next<T>) -> Self::Output {
        marker()
    }
}

impl<T: Numeral> DivInt<Next<T>> for Zero {
    proof fn quotient_value() {
    }
}

/// 0 % (t + 1) = 0.
impl<T: Numeral> Rem<Next<T>> for Zero {
    type Output = Zero;

    #[inline(always)]
    fn rem(self, rhs: Next<T>) -> (r: Self::Output)
        ensures
            value_of(r) == 0,
    {
        Zero
    }
}

/// The type of the remainder has one value only, which is the result.
impl<T: Numeral> RemSpecImpl<Next<T>> for Zero {
    open spec fn obeys_rem_spec() -> bool {
        true
    }

    open spec fn rem_req(self, rhs: Next<T>) -> bool {
        true
    }

    open spec fn rem_spec(self, rhs: Next<T>) -> Self::Output {
        marker()
    }
}

impl<T: Numeral> RemInt<Next<T>> for Zero {
    proof fn remainder_value() {
    }
}

/// 0 / (t - 1) = 0.
impl<T: Numeral> Div<Prev<T>> for Zero {
    type Output = Zero;

    #[inline(always)]
    fn div(self, rhs: Prev<T>) -> (r: Self::Output)
        ensures
            value_of(r) == 0,
    {
        Zero
    }
}

/// The type of the quotient has one value only, which is the result.
impl<T: Numeral> DivSpecImpl<Prev<T>> for Zero {
    open spec fn obeys_div_spec() -> bool {
        true
    }

    open spec fn div_req(self, rhs: Prev<T>) -> bool {
        true
    }

    open spec fn div_spec(self, rhs: Prev<T>) -> Self::Output {
        marker()
    }
}

impl<T: Numeral> DivInt<Prev<T>> for Zero {
    proof fn quotient_value() {
    }
}

/// 0 % (t - 1) = 0.
impl<T: Numeral> Rem<Prev<T>> for Zero {
    type Output = Zero;

    #[inline(always)]
    fn rem(self, rhs: Prev<T>) -> (r: Self::Output)
        ensures
            value_of(r) == 0,
    {
        Zero
    }
}

/// The type of the remainder has one value only, which is the result.
impl<T: Numeral> RemSpecImpl<Prev<T>> for Zero {
    open spec fn obeys_rem_spec() -> bool {
        true
    }

    open spec fn rem_req(self, rhs: Prev<T>) -> bool {
        true
    }

    open spec fn rem_spec(self, rhs: Prev<T>) -> Self::Output {
        marker()
    }
}

impl<T: Numeral> RemInt<Prev<T>> for Zero {
    proof fn remainder_value() {
    }
}

/// A positive number by a positive number: one more than the quotient of
/// what is left after the divisor has been taken away once.
impl<T, U> Div<Next<U>> for Next<T>
where
    T: Numeral,
    U: Numeral,
    Next<T>: SubInt<Next<U>> + Positive,
    Difference<Next<T>, Next<U>>: ToDivHelper<Next<U>>,
    Rest<T, U>: Div<Next<U>> + Rem<Next<U>>,
    Quotient<Rest<T, U>, Next<U>>: AddInt<One>,
    Remainder<Rest<T, U>, Next<U>>: Numeral,
    Sum<Quotient<Rest<T, U>, Next<U>>, One>: Numeral + Default,
{
    type Output = Sum<Quotient<Rest<T, U>, Next<U>>, One>;

    #[inline(always)]
    fn div(self, rhs: Next<U>) -> (r: Self::Output)
        ensures
            Self::normal() && <Next<U>>::normal() ==> value_of(r) == truncated_quotient(
                value_of(self),
                value_of(rhs),
            ),
    {
        proof {
            <Self as DivInt<Next<U>>>::quotient_value();
        }
        make()
    }
}

/// The type of the quotient has one value only, which is the result.
impl<T, U> DivSpecImpl<Next<U>> for Next<T>
where
    T: Numeral,
    U: Numeral,
    Next<T>: SubInt<Next<U>> + Positive,
    Difference<Next<T>, Next<U>>: ToDivHelper<Next<U>>,
    Rest<T, U>: Div<Next<U>> + Rem<Next<U>>,
    Quotient<Rest<T, U>, Next<U>>: AddInt<One>,
    Remainder<Rest<T, U>, Next<U>>: Numeral,
    Sum<Quotient<Rest<T, U>, Next<U>>, One>: Numeral + Default,
{
    open spec fn obeys_div_spec() -> bool {
        true
    }

    open spec fn div_req(self, rhs: Next<U>) -> bool {
        true
    }

    open spec fn div_spec(self, rhs: Next<U>) -> Self::Output {
        marker()
    }
}

impl<T, U> DivInt<Next<U>> for Next<T>
where
    T: Numeral,
    U: Numeral,
    Next<T>: SubInt<Next<U>> + Positive,
    Difference<Next<T>, Next<U>>: ToDivHelper<Next<U>>,
    Rest<T, U>: Div<Next<U>> + Rem<Next<U>>,
    Quotient<Rest<T, U>, Next<U>>: AddInt<One>,
    Remainder<Rest<T, U>, Next<U>>: Numeral,
    Sum<Quotient<Rest<T, U>, Next<U>>, One>: Numeral + Default,
{
    proof fn quotient_value() {
        if Self::normal() && <Next<U>>::normal() {
            <Next<T> as SubInt<Next<U>>>::difference_value();
            <Difference<Next<T>, Next<U>> as ToDivHelper<Next<U>>>::helper_value();
            <Quotient<Rest<T, U>, Next<U>> as AddInt<One>>::sum_value();
            lemma_div_plus_one(T::value() - U::value(), U::value() + 1);
        }
    }
}

/// A positive number by a positive number: the remainder of what is left
/// after the divisor has been taken away once.
impl<T, U> Rem<Next<U>> for Next<T>
where
    T: Numeral,
    U: Numeral,
    Next<T>: SubInt<Next<U>> + Positive,
    Difference<Next<T>, Next<U>>: ToDivHelper<Next<U>>,
    Rest<T, U>: Div<Next<U>> + Rem<Next<U>>,
    Quotient<Rest<T, U>, Next<U>>: AddInt<One>,
    Remainder<Rest<T, U>, Next<U>>: Numeral,
    Sum<Quotient<Rest<T, U>, Next<U>>, One>: Numeral,
    Remainder<Rest<T, U>, Next<U>>: Default,
{
    type Output = Remainder<Rest<T, U>, Next<U>>;

    #[inline(always)]
    fn rem(self, rhs: Next<U>) -> (r: Self::Output)
        ensures
            Self::normal() && <Next<U>>::normal() ==> value_of(r) == positive_remainder(
                value_of(self),
                value_of(rhs),
            ),
    {
        proof {
            <Self as RemInt<Next<U>>>::remainder_value();
        }
        make()
    }
}

/// The type of the remainder has one value only, which is the result.
impl<T, U> RemSpecImpl<Next<U>> for Next<T>
where
    T: Numeral,
    U: Numeral,
    Next<T>: SubInt<Next<U>> + Positive,
    Difference<Next<T>, Next<U>>: ToDivHelper<Next<U>>,
    Rest<T, U>: Div<Next<U>> + Rem<Next<U>>,
    Quotient<Rest<T, U>, Next<U>>: AddInt<One>,
    Remainder<Rest<T, U>, Next<U>>: Numeral,
    Sum<Quotient<Rest<T, U>, Next<U>>, One>: Numeral,
    Remainder<Rest<T, U>, Next<U>>: Default,
{
    open spec fn obeys_rem_spec() -> bool {
        true
    }

    open spec fn rem_req(self, rhs: Next<U>) -> bool {
        true
    }

    open spec fn rem_spec(self, rhs: Next<U>) -> Self::Output {
        marker()
    }
}

impl<T, U> RemInt<Next<U>> for Next<T>
where
    T: Numeral,
    U: Numeral,
    Next<T>: SubInt<Next<U>> + Positive,
    Difference<Next<T>, Next<U>>: ToDivHelper<Next<U>>,
    Rest<T, U>: Div<Next<U>> + Rem<Next<U>>,
    Quotient<Rest<T, U>, Next<U>>: AddInt<One>,
    Remainder<Rest<T, U>, Next<U>>: Numeral,
    Sum<Quotient<Rest<T, U>, Next<U>>, One>: Numeral,
    Remainder<Rest<T, U>, Next<U>>: Default,
{
    proof fn remainder_value() {
        if Self::normal() && <Next<U>>::normal() {
            <Next<T> as SubInt<Next<U>>>::difference_value();
            <Difference<Next<T>, Next<U>> as ToDivHelper<Next<U>>>::helper_value();
            lemma_mod_add_multiples_vanish(T::value() - U::value(), U::value() + 1);
        }
    }
}

/// A positive number by a negative number: the quotient of the two
/// negations.
impl<T, U> Div<Prev<U>> for Next<T>
where
    T: Numeral,
    U: Numeral,
    Next<T>: NegInt + Positive,
    Prev<U>: NegInt,
    Negation<Prev<U>>: Numeral,
    Negation<Next<T>>: DivInt<Negation<Prev<U>>>,
    Quotient<Negation<Next<T>>, Negation<Prev<U>>>: Numeral + Default,
{
    type Output = Quotient<Negation<Next<T>>, Negation<Prev<U>>>;

    #[inline(always)]
    fn div(self, rhs: Prev<U>) -> (r: Self::Output)
        ensures
            Self::normal() && <Prev<U>>::normal() ==> value_of(r) == truncated_quotient(
                value_of(self),
                value_of(rhs),
            ),
    {
        proof {
            <Self as DivInt<Prev<U>>>::quotient_value();
        }
        make()
    }
}

/// The type of the quotient has one value only, which is the result.
impl<T, U> DivSpecImpl<Prev<U>> for Next<T>
where
    T: Numeral,
    U: Numeral,
    Next<T>: NegInt + Positive,
    Prev<U>: NegInt,
    Negation<Prev<U>>: Numeral,
    Negation<Next<T>>: DivInt<Negation<Prev<U>>>,
    Quotient<Negation<Next<T>>, Negation<Prev<U>>>: Numeral + Default,
{
    open spec fn obeys_div_spec() -> bool {
        true
    }

    open spec fn div_req(self, rhs: Prev<U>) -> bool {
        true
    }

    open spec fn div_spec(self, rhs: Prev<U>) -> Self::Output {
        marker()
    }
}

impl<T, U> DivInt<Prev<U>> for Next<T>
where
    T: Numeral,
    U: Numeral,
    Next<T>: NegInt + Positive,
    Prev<U>: NegInt,
    Negation<Prev<U>>: Numeral,
    Negation<Next<T>>: DivInt<Negation<Prev<U>>>,
    Quotient<Negation<Next<T>>, Negation<Prev<U>>>: Numeral + Default,
{
    proof fn quotient_value() {
        if Self::normal() && <Prev<U>>::normal() {
            <Next<T> as NegInt>::negation_value();
            <Prev<U> as NegInt>::negation_value();
            <Negation<Next<T>> as DivInt<Negation<Prev<U>>>>::quotient_value();
        }
    }
}

/// A positive number by a negative number: the division is taken to be
/// exact.
impl<T, U> Rem<Prev<U>> for Next<T>
where
    T: Numeral,
    U: Numeral,
    Next<T>: NegInt + Positive,
    Prev<U>: NegInt,
    Negation<Prev<U>>: Numeral,
    Negation<Next<T>>: DivInt<Negation<Prev<U>>>,
    Quotient<Negation<Next<T>>, Negation<Prev<U>>>: Numeral,
{
    type Output = Zero;

    #[inline(always)]
    fn rem(self, rhs: Prev<U>) -> (r: Self::Output)
        ensures
            value_of(r) == 0,
    {
        Zero
    }
}

/// The type of the remainder has one value only, which is the result.
impl<T, U> RemSpecImpl<Prev<U>> for Next<T>
where
    T: Numeral,
    U: Numeral,
    Next<T>: NegInt + Positive,
    Prev<U>: NegInt,
    Negation<Prev<U>>: Numeral,
    Negation<Next<T>>: DivInt<Negation<Prev<U>>>,
    Quotient<Negation<Next<T>>, Negation<Prev<U>>>: Numeral,
{
    open spec fn obeys_rem_spec() -> bool {
        true
    }

    open spec fn rem_req(self, rhs: Prev<U>) -> bool {
        true
    }

    open spec fn rem_spec(self, rhs: Prev<U>) -> Self::Output {
        marker()
    }
}

impl<T, U> RemInt<Prev<U>> for Next<T>
where
    T: Numeral,
    U: Numeral,
    Next<T>: NegInt + Positive,
    Prev<U>: NegInt,
    Negation<Prev<U>>: Numeral,
    Negation<Next<T>>: DivInt<Negation<Prev<U>>>,
    Quotient<Negation<Next<T>>, Negation<Prev<U>>>: Numeral,
{
    proof fn remainder_value() {
    }
}

/// A negative number by a positive number: the negation of the quotient of
/// the negated dividend.
impl<T, U> Div<Next<U>> for Prev<T>
where
    T: Numeral,
    U: Numeral,
    Prev<T>: NegInt + Negative,
    Negation<Prev<T>>: DivInt<Next<U>>,
    Quotient<Negation<Prev<T>>, Next<U>>: NegInt,
    Negation<Quotient<Negation<Prev<T>>, Next<U>>>: Numeral + Default,
{
    type Output = Negation<Quotient<Negation<Prev<T>>, Next<U>>>;

    #[inline(always)]
    fn div(self, rhs: Next<U>) -> (r: Self::Output)
        ensures
            Self::normal() && <Next<U>>::normal() ==> value_of(r) == truncated_quotient(
                value_of(self),
                value_of(rhs),
            ),
    {
        proof {
            <Self as DivInt<Next<U>>>::quotient_value();
        }
        make()
    }
}

/// The type of the quotient has one value only, which is the result.
impl<T, U> DivSpecImpl<Next<U>> for Prev<T>
where
    T: Numeral,
    U: Numeral,
    Prev<T>: NegInt + Negative,
    Negation<Prev<T>>: DivInt<Next<U>>,
    Quotient<Negation<Prev<T>>, Next<U>>: NegInt,
    Negation<Quotient<Negation<Prev<T>>, Next<U>>>: Numeral + Default,
{
    open spec fn obeys_div_spec() -> bool {
        true
    }

    open spec fn div_req(self, rhs: Next<U>) -> bool {
        true
    }

    open spec fn div_spec(self, rhs: Next<U>) -> Self::Output {
        marker()
    }
}

impl<T, U> DivInt<Next<U>> for Prev<T>
where
    T: Numeral,
    U: Numeral,
    Prev<T>: NegInt + Negative,
    Negation<Prev<T>>: DivInt<Next<U>>,
    Quotient<Negation<Prev<T>>, Next<U>>: NegInt,
    Negation<Quotient<Negation<Prev<T>>, Next<U>>>: Numeral + Default,
{
    proof fn quotient_value() {
        if Self::normal() && <Next<U>>::normal() {
            <Prev<T> as NegInt>::negation_value();
            <Negation<Prev<T>> as DivInt<Next<U>>>::quotient_value();
            <Quotient<Negation<Prev<T>>, Next<U>> as NegInt>::negation_value();
        }
    }
}

/// A negative number by a positive number: the division is taken to be
/// exact.
impl<T, U> Rem<Next<U>> for Prev<T>
where
    T: Numeral,
    U: Numeral,
    Prev<T>: NegInt + Negative,
    Negation<Prev<T>>: DivInt<Next<U>>,
    Quotient<Negation<Prev<T>>, Next<U>>: NegInt,
    Negation<Quotient<Negation<Prev<T>>, Next<U>>>: Numeral,
{
    type Output = Zero;

    #[inline(always)]
    fn rem(self, rhs: Next<U>) -> (r: Self::Output)
        ensures
            value_of(r) == 0,
    {
        Zero
    }
}

/// The type of the remainder has one value only, which is the result.
impl<T, U> RemSpecImpl<Next<U>> for Prev<T>
where
    T: Numeral,
    U: Numeral,
    Prev<T>: NegInt + Negative,
    Negation<Prev<T>>: DivInt<Next<U>>,
    Quotient<Negation<Prev<T>>, Next<U>>: NegInt,
    Negation<Quotient<Negation<Prev<T>>, Next<U>>>: Numeral,
{
    open spec fn obeys_rem_spec() -> bool {
        true
    }

    open spec fn rem_req(self, rhs: Next<U>) -> bool {
        true
    }

    open spec fn rem_spec(self, rhs: Next<U>) -> Self::Output {
        marker()
    }
}

impl<T, U> RemInt<Next<U>> for Prev<T>
where
    T: Numeral,
    U: Numeral,
    Prev<T>: NegInt + Negative,
    Negation<Prev<T>>: DivInt<Next<U>>,
    Quotient<Negation<Prev<T>>, Next<U>>: NegInt,
    Negation<Quotient<Negation<Prev<T>>, Next<U>>>: Numeral,
{
    proof fn remainder_value() {
    }
}

/// A negative number by a negative number: the quotient of the two
/// negations.
impl<T, U> Div<Prev<U>> for Prev<T>
where
    T: Numeral,
    U: Numeral,
    Prev<T>: NegInt + Negative,
    Prev<U>: NegInt,
    Negation<Prev<U>>: Numeral,
    Negation<Prev<T>>: DivInt<Negation<Prev<U>>>,
    Quotient<Negation<Prev<T>>, Negation<Prev<U>>>: Numeral + Default,
{
    type Output = Quotient<Negation<Prev<T>>, Negation<Prev<U>>>;

    #[inline(always)]
    fn div(self, rhs: Prev<U>) -> (r: Self::Output)
        ensures
            Self::normal() && <Prev<U>>::normal() ==> value_of(r) == truncated_quotient(
                value_of(self),
                value_of(rhs),
            ),
    {
        proof {
            <Self as DivInt<Prev<U>>>::quotient_value();
        }
        make()
    }
}

/// The type of the quotient has one value only, which is the result.
impl<T, U> DivSpecImpl<Prev<U>> for Prev<T>
where
    T: Numeral,
    U: Numeral,
    Prev<T>: NegInt + Negative,
    Prev<U>: NegInt,
    Negation<Prev<U>>: Numeral,
    Negation<Prev<T>>: DivInt<Negation<Prev<U>>>,
    Quotient<Negation<Prev<T>>, Negation<Prev<U>>>: Numeral + Default,
{
    open spec fn obeys_div_spec() -> bool {
        true
    }

    open spec fn div_req(self, rhs: Prev<U>) -> bool {
        true
    }

    open spec fn div_spec(self, rhs: Prev<U>) -> Self::Output {
        marker()
    }
}

impl<T, U> DivInt<Prev<U>> for Prev<T>
where
    T: Numeral,
    U: Numeral,
    Prev<T>: NegInt + Negative,
    Prev<U>: NegInt,
    Negation<Prev<U>>: Numeral,
    Negation<Prev<T>>: DivInt<Negation<Prev<U>>>,
    Quotient<Negation<Prev<T>>, Negation<Prev<U>>>: Numeral + Default,
{
    proof fn quotient_value() {
        if Self::normal() && <Prev<U>>::normal() {
            <Prev<T> as NegInt>::negation_value();
            <Prev<U> as NegInt>::negation_value();
            <Negation<Prev<T>> as DivInt<Negation<Prev<U>>>>::quotient_value();
        }
    }
}

/// A negative number by a negative number: the division is taken to be
/// exact.
impl<T, U> Rem<Prev<U>> for Prev<T>
where
    T: Numeral,
    U: Numeral,
    Prev<T>: NegInt + Negative,
    Prev<U>: NegInt,
    Negation<Prev<U>>: Numeral,
    Negation<Prev<T>>: DivInt<Negation<Prev<U>>>,
    Quotient<Negation<Prev<T>>, Negation<Prev<U>>>: Numeral,
{
    type Output = Zero;

    #[inline(always)]
    fn rem(self, rhs: Prev<U>) -> (r: Self::Output)
        ensures
            value_of(r) == 0,
    {
        Zero
    }
}

/// The type of the remainder has one value only, which is the result.
impl<T, U> RemSpecImpl<Prev<U>> for Prev<T>
where
    T: Numeral,
    U: Numeral,
    Prev<T>: NegInt + Negative,
    Prev<U>: NegInt,
    Negation<Prev<U>>: Numeral,
    Negation<Prev<T>>: DivInt<Negation<Prev<U>>>,
    Quotient<Negation<Prev<T>>, Negation<Prev<U>>>: Numeral,
{
    open spec fn obeys_rem_spec() -> bool {
        true
    }

    open spec fn rem_req(self, rhs: Prev<U>) -> bool {
        true
    }

    open spec fn rem_spec(self, rhs: Prev<U>) -> Self::Output {
        marker()
    }
}

impl<T, U> RemInt<Prev<U>> for Prev<T>
where
    T: Numeral,
    U: Numeral,
    Prev<T>: NegInt + Negative,
    Prev<U>: NegInt,
    Negation<Prev<U>>: Numeral,
    Negation<Prev<T>>: DivInt<Negation<Prev<U>>>,
    Quotient<Negation<Prev<T>>, Negation<Prev<U>>>: Numeral,
{
    proof fn remainder_value() {
    }
}

} // verus!
