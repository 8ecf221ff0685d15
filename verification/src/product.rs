//! Multiplication of integers.

use crate::difference::Difference;
use crate::difference::SubInt;
use crate::numeral::marker;
use crate::numeral::make;
use crate::numeral::value_of;
use crate::numeral::Next;
use crate::numeral::Numeral;
use crate::numeral::One;
use crate::numeral::Prev;
use crate::numeral::Ratio;
use crate::numeral::Zero;
use crate::sum::AddInt;
use crate::sum::Sum;
use core::ops::Mul;
use vstd::prelude::*;
use vstd::std_specs::ops::MulSpec;
use vstd::std_specs::ops::MulSpecImpl;

verus! {

/// The product of `T` and `U`.
pub type Product<T, U> = <T as Mul<U>>::Output;

/// An integer that can be multiplied by `Rhs` with an integer as the result,
/// with the proof that the type of the result stands for the product.
pub trait MulInt<Rhs: Numeral>: Numeral + Mul<Rhs> where Product<Self, Rhs>: Numeral {
    /// Any two values can be multiplied. The product stands for the
    /// product of the values, and that of two normal numbers is normal.
    proof fn product_value()
        ensures
            forall|a: Self, b: Rhs| #[trigger] a.mul_req(b),
            Product::<Self, Rhs>::value() == Self::value() * Rhs::value(),
            Self::normal() && Rhs::normal() ==> Product::<Self, Rhs>::normal(),
    ;
}

/// 0 * 0 = 0.
impl Mul<Zero> for Zero {
    type Output = Zero;

    #[inline(always)]
    fn mul(self, rhs: Zero) -> (r: Self::Output)
        ensures
            value_of(r) == value_of(self) * value_of(rhs),
    {
        Zero
    }
}

/// The type of the product has one value only, which is the result.
impl MulSpecImpl<Zero> for Zero {
    open spec fn obeys_mul_spec() -> bool {
        true
    }

    open spec fn mul_req(self, rhs: Zero) -> bool {
        true
    }

    open spec fn mul_spec(self, rhs: Zero) -> Self::Output {
        marker()
    }
}

impl MulInt<Zero> for Zero {
    proof fn product_value() {
    }
}

/// (t + 1) * 0 = 0.
impl<T: Numeral> Mul<Zero> for Next<T> {
    type Output = Zero;

    #[inline(always)]
    fn mul(self, rhs: Zero) -> (r: Self::Output)
        ensures
            value_of(r) == value_of(self) * value_of(rhs),
    {
        Zero
    }
}

/// The type of the product has one value only, which is the result.
impl<T: Numeral> MulSpecImpl<Zero> for Next<T> {
    open spec fn obeys_mul_spec() -> bool {
        true
    }

    open spec fn mul_req(self, rhs: Zero) -> bool {
        true
    }

    open spec fn mul_spec(self, rhs: Zero) -> Self::Output {
        marker()
    }
}

impl<T: Numeral> MulInt<Zero> for Next<T> {
    proof fn product_value() {
    }
}

/// (t - 1) * 0 = 0.
impl<T: Numeral> Mul<Zero> for Prev<T> {
    type Output = Zero;

    #[inline(always)]
    fn mul(self, rhs: Zero) -> (r: Self::Output)
        ensures
            value_of(r) == value_of(self) * value_of(rhs),
    {
        Zero
    }
}

/// The type of the product has one value only, which is the result.
impl<T: Numeral> MulSpecImpl<Zero> for Prev<T> {
    open spec fn obeys_mul_spec() -> bool {
        true
    }

    open spec fn mul_req(self, rhs: Zero) -> bool {
        true
    }

    open spec fn mul_spec(self, rhs: Zero) -> Self::Output {
        marker()
    }
}

impl<T: Numeral> MulInt<Zero> for Prev<T> {
    proof fn product_value() {
    }
}

/// 0 * (t + 1) = 0.
impl<T: Numeral> Mul<Next<T>> for Zero {
    type Output = Zero;

    #[inline(always)]
    fn mul(self, rhs: Next<T>) -> (r: Self::Output)
        ensures
            value_of(r) == value_of(self) * value_of(rhs),
    {
        Zero
    }
}

/// The type of the product has one value only, which is the result.
impl<T: Numeral> MulSpecImpl<Next<T>> for Zero {
    open spec fn obeys_mul_spec() -> bool {
        true
    }

    open spec fn mul_req(self, rhs: Next<T>) -> bool {
        true
    }

    open spec fn mul_spec(self, rhs: Next<T>) -> Self::Output {
        marker()
    }
}

impl<T: Numeral> MulInt<Next<T>> for Zero {
    proof fn product_value() {
    }
}

/// 0 * (t - 1) = 0.
impl<T: Numeral> Mul<Prev<T>> for Zero {
    type Output = Zero;

    #[inline(always)]
    fn mul(self, rhs: Prev<T>) -> (r: Self::Output)
        ensures
            value_of(r) == value_of(self) * value_of(rhs),
    {
        Zero
    }
}

/// The type of the product has one value only, which is the result.
impl<T: Numeral> MulSpecImpl<Prev<T>> for Zero {
    open spec fn obeys_mul_spec() -> bool {
        true
    }

    open spec fn mul_req(self, rhs: Prev<T>) -> bool {
        true
    }

    open spec fn mul_spec(self, rhs: Prev<T>) -> Self::Output {
        marker()
    }
}

impl<T: Numeral> MulInt<Prev<T>> for Zero {
    proof fn product_value() {
    }
}

/// (t + 1) * (u + 1) = (u + 1) + t * (u + 1).
impl<T, U> Mul<Next<U>> for Next<T>
where
    U: Numeral,
    T: MulInt<Next<U>>,
    Product<T, Next<U>>: Numeral,
    Next<U>: AddInt<Product<T, Next<U>>>,
    Sum<Next<U>, Product<T, Next<U>>>: Numeral + Default,
{
    type Output = Sum<Next<U>, Product<T, Next<U>>>;

    #[inline(always)]
    fn mul(self, rhs: Next<U>) -> (r: Self::Output)
        ensures
            value_of(r) == value_of(self) * value_of(rhs),
    {
        proof {
            <Self as MulInt<Next<U>>>::product_value();
        }
        make()
    }
}

/// The type of the product has one value only, which is the result.
impl<T, U> MulSpecImpl<Next<U>> for Next<T>
where
    U: Numeral,
    T: MulInt<Next<U>>,
    Product<T, Next<U>>: Numeral,
    Next<U>: AddInt<Product<T, Next<U>>>,
    Sum<Next<U>, Product<T, Next<U>>>: Numeral + Default,
{
    open spec fn obeys_mul_spec() -> bool {
        true
    }

    open spec fn mul_req(self, rhs: Next<U>) -> bool {
        true
    }

    open spec fn mul_spec(self, rhs: Next<U>) -> Self::Output {
        marker()
    }
}

impl<T, U> MulInt<Next<U>> for Next<T>
where
    U: Numeral,
    T: MulInt<Next<U>>,
    Product<T, Next<U>>: Numeral,
    Next<U>: AddInt<Product<T, Next<U>>>,
    Sum<Next<U>, Product<T, Next<U>>>: Numeral + Default,
{
    proof fn product_value() {
        <T as MulInt<Next<U>>>::product_value();
        <Next<U> as AddInt<Product<T, Next<U>>>>::sum_value();
        let t = T::value();
        let u = U::value();
        assert((u + 1) + t * (u + 1) == (t + 1) * (u + 1)) by (nonlinear_arith);
    }
}

/// (t + 1) * (u - 1) = t * u - t + u - 1.
impl<T, U> Mul<Prev<U>> for Next<T>
where
    U: Numeral,
    T: MulInt<U>,
    Product<T, U>: SubInt<T>,
    Difference<Product<T, U>, T>: AddInt<U>,
    Sum<Difference<Product<T, U>, T>, U>: SubInt<One>,
    Difference<Sum<Difference<Product<T, U>, T>, U>, One>: Numeral + Default,
{
    type Output = Difference<Sum<Difference<Product<T, U>, T>, U>, One>;

    #[inline(always)]
    fn mul(self, rhs: Prev<U>) -> (r: Self::Output)
        ensures
            value_of(r) == value_of(self) * value_of(rhs),
    {
        proof {
            <Self as MulInt<Prev<U>>>::product_value();
        }
        make()
    }
}

/// The type of the product has one value only, which is the result.
impl<T, U> MulSpecImpl<Prev<U>> for Next<T>
where
    U: Numeral,
    T: MulInt<U>,
    Product<T, U>: SubInt<T>,
    Difference<Product<T, U>, T>: AddInt<U>,
    Sum<Difference<Product<T, U>, T>, U>: SubInt<One>,
    Difference<Sum<Difference<Product<T, U>, T>, U>, One>: Numeral + Default,
{
    open spec fn obeys_mul_spec() -> bool {
        true
    }

    open spec fn mul_req(self, rhs: Prev<U>) -> bool {
        true
    }

    open spec fn mul_spec(self, rhs: Prev<U>) -> Self::Output {
        marker()
    }
}

impl<T, U> MulInt<Prev<U>> for Next<T>
where
    U: Numeral,
    T: MulInt<U>,
    Product<T, U>: SubInt<T>,
    Difference<Product<T, U>, T>: AddInt<U>,
    Sum<Difference<Product<T, U>, T>, U>: SubInt<One>,
    Difference<Sum<Difference<Product<T, U>, T>, U>, One>: Numeral + Default,
{
    proof fn product_value() {
        T::product_value();
        <Product<T, U> as SubInt<T>>::difference_value();
        <Difference<Product<T, U>, T> as AddInt<U>>::sum_value();
        <Sum<Difference<Product<T, U>, T>, U> as SubInt<One>>::difference_value();
        let t = T::value();
        let u = U::value();
        assert(t * u - t + u - 1 == (t + 1) * (u - 1)) by (nonlinear_arith);
    }
}

/// (t - 1) * (u + 1) = (u + 1) * (t - 1).
impl<T, U> Mul<Next<U>> for Prev<T>
where
    T: Numeral,
    U: Numeral,
    Next<U>: MulInt<Prev<T>>,
    Product<Next<U>, Prev<T>>: Numeral + Default,
{
    type Output = Product<Next<U>, Prev<T>>;

    #[inline(always)]
    fn mul(self, rhs: Next<U>) -> (r: Self::Output)
        ensures
            value_of(r) == value_of(self) * value_of(rhs),
    {
        proof {
            <Self as MulInt<Next<U>>>::product_value();
        }
        make()
    }
}

/// The type of the product has one value only, which is the result.
impl<T, U> MulSpecImpl<Next<U>> for Prev<T>
where
    T: Numeral,
    U: Numeral,
    Next<U>: MulInt<Prev<T>>,
    Product<Next<U>, Prev<T>>: Numeral + Default,
{
    open spec fn obeys_mul_spec() -> bool {
        true
    }

    open spec fn mul_req(self, rhs: Next<U>) -> bool {
        true
    }

    open spec fn mul_spec(self, rhs: Next<U>) -> Self::Output {
        marker()
    }
}

impl<T, U> MulInt<Next<U>> for Prev<T>
where
    T: Numeral,
    U: Numeral,
    Next<U>: MulInt<Prev<T>>,
    Product<Next<U>, Prev<T>>: Numeral + Default,
{
    proof fn product_value() {
        <Next<U> as MulInt<Prev<T>>>::product_value();
        let t = T::value();
        let u = U::value();
        assert((u + 1) * (t - 1) == (t - 1) * (u + 1)) by (nonlinear_arith);
    }
}

/// (t - 1) * (u - 1) = t * u - t - u + 1.
impl<T, U> Mul<Prev<U>> for Prev<T>
where
    U: Numeral,
    T: MulInt<U>,
    Product<T, U>: SubInt<T>,
    Difference<Product<T, U>, T>: SubInt<U>,
    Difference<Difference<Product<T, U>, T>, U>: AddInt<One>,
    Sum<Difference<Difference<Product<T, U>, T>, U>, One>: Numeral + Default,
{
    type Output = Sum<Difference<Difference<Product<T, U>, T>, U>, One>;

    #[inline(always)]
    fn mul(self, rhs: Prev<U>) -> (r: Self::Output)
        ensures
            value_of(r) == value_of(self) * value_of(rhs),
    {
        proof {
            <Self as MulInt<Prev<U>>>::product_value();
        }
        make()
    }
}

/// The type of the product has one value only, which is the result.
impl<T, U> MulSpecImpl<Prev<U>> for Prev<T>
where
    U: Numeral,
    T: MulInt<U>,
    Product<T, U>: SubInt<T>,
    Difference<Product<T, U>, T>: SubInt<U>,
    Difference<Difference<Product<T, U>, T>, U>: AddInt<One>,
    Sum<Difference<Difference<Product<T, U>, T>, U>, One>: Numeral + Default,
{
    open spec fn obeys_mul_spec() -> bool {
        true
    }

    open spec fn mul_req(self, rhs: Prev<U>) -> bool {
        true
    }

    open spec fn mul_spec(self, rhs: Prev<U>) -> Self::Output {
        marker()
    }
}

impl<T, U> MulInt<Prev<U>> for Prev<T>
where
    U: Numeral,
    T: MulInt<U>,
    Product<T, U>: SubInt<T>,
    Difference<Product<T, U>, T>: SubInt<U>,
    Difference<Difference<Product<T, U>, T>, U>: AddInt<One>,
    Sum<Difference<Difference<Product<T, U>, T>, U>, One>: Numeral + Default,
{
    proof fn product_value() {
        T::product_value();
        <Product<T, U> as SubInt<T>>::difference_value();
        <Difference<Product<T, U>, T> as SubInt<U>>::difference_value();
        <Difference<Difference<Product<T, U>, T>, U> as AddInt<One>>::sum_value();
        let t = T::value();
        let u = U::value();
        assert(t * u - t - u + 1 == (t - 1) * (u - 1)) by (nonlinear_arith);
    }
}

} // verus!
