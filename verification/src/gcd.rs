//! The greatest common divisor of two integers that are not negative.

use crate::arith::gcd;
use crate::arith::lemma_gcd_symmetric;
use crate::numeral::Next;
use crate::numeral::Numeral;
use crate::numeral::Ratio;
use crate::numeral::Zero;
use crate::quotient::RemInt;
use crate::quotient::Remainder;
use vstd::arithmetic::div_mod::lemma_mod_pos_bound;
use vstd::arithmetic::div_mod::lemma_small_mod;
use vstd::prelude::*;

verus! {

/// Takes one `Next` off `Self` and off `T` for as long as both have one.
pub trait Reduce<T: Numeral>: Numeral {
    /// What is left of `Self`.
    type This: Numeral;

    /// What is left of `T`.
    type Arg: Numeral;

    /// The two rests are as far apart as the two numbers, and one of them
    /// is zero.
    proof fn reduced()
        ensures
            <Self::This as Numeral>::value() - <Self::Arg as Numeral>::value() == Self::value()
                - T::value(),
            <Self::This as Numeral>::value() == 0 || <Self::Arg as Numeral>::value() == 0,
    ;
}

impl Reduce<Zero> for Zero {
    type This = Self;

    type Arg = Zero;

    proof fn reduced() {
    }
}

impl<T: Numeral> Reduce<Zero> for Next<T> {
    type This = Self;

    type Arg = Zero;

    proof fn reduced() {
    }
}

impl<T: Numeral> Reduce<Next<T>> for Zero {
    type This = Self;

    type Arg = Next<T>;

    proof fn reduced() {
    }
}

impl<T, U> Reduce<Next<U>> for Next<T>
where
    U: Numeral,
    T: Reduce<U>,
{
    type This = <T as Reduce<U>>::This;

    type Arg = <T as Reduce<U>>::Arg;

    proof fn reduced() {
        T::reduced();
    }
}

/// One step of Euclid's rule on `T` and `U`, chosen by `Self`: what is left
/// of `T` by `Reduce`, which is `Zero` where `T` is not above `U`.
pub trait GcdInner<T: Numeral, U: Numeral> {
    /// The greatest common divisor of `T` and `U`.
    type Result: Numeral;

    /// For two positive normal numbers the result stands for their greatest
    /// common divisor, and is normal.
    proof fn inner_value()
        requires
            T::normal(),
            U::normal(),
            T::value() > 0,
            U::value() > 0,
        ensures
            <Self::Result as Numeral>::value() == gcd(T::value() as nat, U::value() as nat),
            <Self::Result as Ratio>::normal(),
    ;
}

/// `T` is not above `U`: the greatest common divisor of `T` and the
/// remainder of `U` by `T`.
impl<T, U> GcdInner<Next<T>, Next<U>> for Zero
where
    T: Numeral,
    U: Numeral,
    Next<U>: RemInt<Next<T>>,
    Remainder<Next<U>, Next<T>>: Numeral,
    Next<T>: Gcd<Remainder<Next<U>, Next<T>>>,
{
    type Result = GreatestCommonDivisor<Next<T>, Remainder<Next<U>, Next<T>>>;

    proof fn inner_value() {
        let a = Next::<T>::value();
        let b = Next::<U>::value();
        <Next<U> as RemInt<Next<T>>>::remainder_value();
        lemma_mod_pos_bound(b, a);
        <Next<T> as Gcd<Remainder<Next<U>, Next<T>>>>::gcd_value();
        assert(gcd(b as nat, a as nat) == gcd(a as nat, (b as nat) % (a as nat)));
        lemma_gcd_symmetric(a as nat, b as nat);
    }
}

/// `T` is above `U`: the same with the two numbers exchanged.
impl<T, U, V> GcdInner<Next<T>, Next<U>> for Next<V>
where
    T: Numeral,
    U: Numeral,
    Zero: GcdInner<Next<U>, Next<T>>,
{
    type Result = <Zero as GcdInner<Next<U>, Next<T>>>::Result;

    proof fn inner_value() {
        <Zero as GcdInner<Next<U>, Next<T>>>::inner_value();
        lemma_gcd_symmetric(Next::<T>::value() as nat, Next::<U>::value() as nat);
    }
}

/// Type-level greatest common divisor.
pub trait Gcd<T: Numeral>: Numeral {
    /// The greatest common divisor of `Self` and `T`.
    type Result: Numeral;

    /// For two normal numbers the result stands for their greatest common
    /// divisor, and is normal.
    proof fn gcd_value()
        requires
            Self::normal(),
            T::normal(),
        ensures
            Self::value() >= 0,
            T::value() >= 0,
            <Self::Result as Numeral>::value() == gcd(Self::value() as nat, T::value() as nat),
            <Self::Result as Ratio>::normal(),
    ;
}

impl Gcd<Zero> for Zero {
    type Result = Zero;

    proof fn gcd_value() {
    }
}

impl<T: Numeral> Gcd<Next<T>> for Zero {
    type Result = Next<T>;

    proof fn gcd_value() {
        let b = Next::<T>::value() as nat;
        lemma_small_mod(0, b);
        assert(gcd(0, b) == gcd(b, 0nat % b));
    }
}

impl<T: Numeral> Gcd<Zero> for Next<T> {
    type Result = Next<T>;

    proof fn gcd_value() {
    }
}

impl<T, U> Gcd<Next<U>> for Next<T>
where
    T: Numeral,
    U: Numeral,
    Next<T>: Reduce<Next<U>>,
    <Next<T> as Reduce<Next<U>>>::This: GcdInner<Next<T>, Next<U>>,
{
    type Result = <<Next<T> as Reduce<Next<U>>>::This as GcdInner<Next<T>, Next<U>>>::Result;

    proof fn gcd_value() {
        <<Next<T> as Reduce<Next<U>>>::This as GcdInner<Next<T>, Next<U>>>::inner_value();
    }
}

/// The greatest common divisor of `T` and `U`.
pub type GreatestCommonDivisor<T, U> = <T as Gcd<U>>::Result;

} // verus!
