//! The least common multiple of two integers.

use crate::absolute::Abs;
use crate::absolute::Absolute;
use crate::arith::lcm;
use crate::arith::lemma_gcd_positive;
use crate::gcd::Gcd;
use crate::gcd::GreatestCommonDivisor;
use crate::numeral::Next;
use crate::numeral::Numeral;
use crate::numeral::Prev;
use crate::numeral::Ratio;
use crate::numeral::Zero;
use crate::product::MulInt;
use crate::product::Product;
use crate::quotient::DivInt;
use crate::quotient::Quotient;
use crate::sign::lemma_positive;
use crate::sign::Positive;
use vstd::math::abs;
use vstd::prelude::*;

verus! {

/// Type-level least common multiple.
pub trait Lcm<T: Numeral>: Numeral {
    /// The least common multiple of `Self` and `T`.
    type Result: Numeral;

    /// The result stands for the least common multiple of the absolute
    /// values, and is normal.
    proof fn lcm_value()
        ensures
            <Self::Result as Numeral>::value() == lcm(abs(Self::value()), abs(T::value())),
            <Self::Result as Ratio>::normal(),
    ;
}

impl Lcm<Zero> for Zero {
    type Result = Zero;

    proof fn lcm_value() {
    }
}

impl<T: Numeral> Lcm<Next<T>> for Zero {
    type Result = Zero;

    proof fn lcm_value() {
    }
}

impl<T: Numeral> Lcm<Zero> for Next<T> {
    type Result = Zero;

    proof fn lcm_value() {
    }
}

impl<T: Numeral> Lcm<Prev<T>> for Zero {
    type Result = Zero;

    proof fn lcm_value() {
    }
}

impl<T: Numeral> Lcm<Zero> for Prev<T> {
    type Result = Zero;

    proof fn lcm_value() {
    }
}

/// The least common multiple of two numbers that are not zero: the product
/// of their absolute values, divided by the greatest common divisor of
/// these.
proof fn lemma_lcm_of_absolutes<A, B>()
    where
        A: Abs,
        B: Abs,
        Absolute<A>: Positive,
        Absolute<B>: Positive,
        Absolute<A>: MulInt<Absolute<B>>,
        Absolute<A>: Gcd<Absolute<B>>,
        Product<Absolute<A>, Absolute<B>>: DivInt<GreatestCommonDivisor<Absolute<A>, Absolute<B>>>,
        Quotient<
            Product<Absolute<A>, Absolute<B>>,
            GreatestCommonDivisor<Absolute<A>, Absolute<B>>,
        >: Numeral,
    ensures
        Quotient::<
            Product<Absolute<A>, Absolute<B>>,
            GreatestCommonDivisor<Absolute<A>, Absolute<B>>,
        >::value() == lcm(abs(A::value()), abs(B::value())),
        Quotient::<
            Product<Absolute<A>, Absolute<B>>,
            GreatestCommonDivisor<Absolute<A>, Absolute<B>>,
        >::normal(),
{
    A::absolute_value();
    B::absolute_value();
    lemma_positive::<Absolute<A>>();
    lemma_positive::<Absolute<B>>();
    <Absolute<A> as Numeral>::integral();
    <Absolute<B> as Numeral>::integral();
    <Absolute<A> as MulInt<Absolute<B>>>::product_value();
    <Absolute<A> as Gcd<Absolute<B>>>::gcd_value();
    <Product<Absolute<A>, Absolute<B>> as DivInt<
        GreatestCommonDivisor<Absolute<A>, Absolute<B>>,
    >>::quotient_value();
    let a = abs(A::value());
    let b = abs(B::value());
    lemma_gcd_positive(a, b);
    assert(a * b >= 0) by (nonlinear_arith)
        requires
            a >= 0,
            b >= 0,
    ;
}

impl<T, U> Lcm<Next<U>> for Next<T>
where
    T: Numeral,
    U: Numeral,
    Next<T>: Abs,
    Next<U>: Abs,
    Absolute<Next<T>>: Positive,
    Absolute<Next<U>>: Positive,
    Absolute<Next<T>>: MulInt<Absolute<Next<U>>>,
    Absolute<Next<T>>: Gcd<Absolute<Next<U>>>,
    Product<Absolute<Next<T>>, Absolute<Next<U>>>: DivInt<
        GreatestCommonDivisor<Absolute<Next<T>>, Absolute<Next<U>>>,
    >,
    Quotient<
        Product<Absolute<Next<T>>, Absolute<Next<U>>>,
        GreatestCommonDivisor<Absolute<Next<T>>, Absolute<Next<U>>>,
    >: Numeral,
{
    type Result = Quotient<
        Product<Absolute<Next<T>>, Absolute<Next<U>>>,
        GreatestCommonDivisor<Absolute<Next<T>>, Absolute<Next<U>>>,
    >;

    proof fn lcm_value() {
        lemma_lcm_of_absolutes::<Next<T>, Next<U>>();
    }
}

impl<T, U> Lcm<Prev<U>> for Next<T>
where
    T: Numeral,
    U: Numeral,
    Next<T>: Abs,
    Prev<U>: Abs,
    Absolute<Next<T>>: Positive,
    Absolute<Prev<U>>: Positive,
    Absolute<Next<T>>: MulInt<Absolute<Prev<U>>>,
    Absolute<Next<T>>: Gcd<Absolute<Prev<U>>>,
    Product<Absolute<Next<T>>, Absolute<Prev<U>>>: DivInt<
        GreatestCommonDivisor<Absolute<Next<T>>, Absolute<Prev<U>>>,
    >,
    Quotient<
        Product<Absolute<Next<T>>, Absolute<Prev<U>>>,
        GreatestCommonDivisor<Absolute<Next<T>>, Absolute<Prev<U>>>,
    >: Numeral,
{
    type Result = Quotient<
        Product<Absolute<Next<T>>, Absolute<Prev<U>>>,
        GreatestCommonDivisor<Absolute<Next<T>>, Absolute<Prev<U>>>,
    >;

    proof fn lcm_value() {
        lemma_lcm_of_absolutes::<Next<T>, Prev<U>>();
    }
}

impl<T, U> Lcm<Next<U>> for Prev<T>
where
    T: Numeral,
    U: Numeral,
    Prev<T>: Abs,
    Next<U>: Abs,
    Absolute<Prev<T>>: Positive,
    Absolute<Next<U>>: Positive,
    Absolute<Prev<T>>: MulInt<Absolute<Next<U>>>,
    Absolute<Prev<T>>: Gcd<Absolute<Next<U>>>,
    Product<Absolute<Prev<T>>, Absolute<Next<U>>>: DivInt<
        GreatestCommonDivisor<Absolute<Prev<T>>, Absolute<Next<U>>>,
    >,
    Quotient<
        Product<Absolute<Prev<T>>, Absolute<Next<U>>>,
        GreatestCommonDivisor<Absolute<Prev<T>>, Absolute<Next<U>>>,
    >: Numeral,
{
    type Result = Quotient<
        Product<Absolute<Prev<T>>, Absolute<Next<U>>>,
        GreatestCommonDivisor<Absolute<Prev<T>>, Absolute<Next<U>>>,
    >;

    proof fn lcm_value() {
        lemma_lcm_of_absolutes::<Prev<T>, Next<U>>();
    }
}

impl<T, U> Lcm<Prev<U>> for Prev<T>
where
    T: Numeral,
    U: Numeral,
    Prev<T>: Abs,
    Prev<U>: Abs,
    Absolute<Prev<T>>: Positive,
    Absolute<Prev<U>>: Positive,
    Absolute<Prev<T>>: MulInt<Absolute<Prev<U>>>,
    Absolute<Prev<T>>: Gcd<Absolute<Prev<U>>>,
    Product<Absolute<Prev<T>>, Absolute<Prev<U>>>: DivInt<
        GreatestCommonDivisor<Absolute<Prev<T>>, Absolute<Prev<U>>>,
    >,
    Quotient<
        Product<Absolute<Prev<T>>, Absolute<Prev<U>>>,
        GreatestCommonDivisor<Absolute<Prev<T>>, Absolute<Prev<U>>>,
    >: Numeral,
{
    type Result = Quotient<
        Product<Absolute<Prev<T>>, Absolute<Prev<U>>>,
        GreatestCommonDivisor<Absolute<Prev<T>>, Absolute<Prev<U>>>,
    >;

    proof fn lcm_value() {
        lemma_lcm_of_absolutes::<Prev<T>, Prev<U>>();
    }
}

/// The least common multiple of `T` and `U`.
pub type LeastCommonMultiple<T, U> = <T as Lcm<U>>::Result;

} // verus!
