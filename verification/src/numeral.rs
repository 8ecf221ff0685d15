//! The numerals `Zero`, `Next` and `Prev`, and what they stand for.

use core::marker::PhantomData;
use vstd::prelude::*;

verus! {

/// A type that stands for one rational number.
pub trait Ratio: Sized {
    /// The numerator of the number that the type stands for.
    spec fn numer() -> int;

    /// The denominator of the number that the type stands for.
    spec fn denom() -> int;

    /// Whether every numeral in the type is free of redundancies: it is
    /// `Zero`, or built from `Zero` by `Next` alone, or by `Prev` alone.
    spec fn normal() -> bool;

    /// The type is a marker without a payload: it has one value only.
    proof fn unique(a: Self, b: Self)
        ensures
            a == b,
    ;
}

/// The one value of the type of a number.
pub open spec fn marker<Q: Ratio>() -> Q {
    arbitrary()
}

/// Makes the value of the type of a number.
pub fn make<Q: Ratio + Default>() -> (r: Q)
    ensures
        r == marker::<Q>(),
{
    let r = Q::default();
    proof {
        Q::unique(r, marker::<Q>());
    }
    r
}

/// A type that stands for one integer.
pub trait Numeral: Ratio {
    /// The integer that the type stands for.
    spec fn value() -> int;

    /// An integer is the ratio of itself and one.
    proof fn integral()
        ensures
            Self::numer() == Self::value(),
            Self::denom() == 1,
    ;
}

/// The integer that `n` stands for. It depends on the type of `n` alone.
pub open spec fn value_of<N: Numeral>(n: N) -> int {
    N::value()
}

/// The numerator of the number that `q` stands for.
pub open spec fn numer_of<Q: Ratio>(q: Q) -> int {
    Q::numer()
}

/// The denominator of the number that `q` stands for.
pub open spec fn denom_of<Q: Ratio>(q: Q) -> int {
    Q::denom()
}

/// Types which are part of a sequence.
pub trait Sequence: Numeral {
    /// The next type in the sequence.
    type Next: Numeral;

    /// The previous type in the sequence.
    type Prev: Numeral;

    /// The neighbours of a number are one above it and one below it, and
    /// those of a normal number are normal.
    proof fn neighbours()
        ensures
            <Self::Next as Numeral>::value() == Self::value() + 1,
            <Self::Prev as Numeral>::value() == Self::value() - 1,
            Self::normal() ==> <Self::Next as Ratio>::normal() && <Self::Prev as Ratio>::normal(),
    ;
}

/// The number zero.
#[derive(Debug, Clone, Copy, PartialEq, Eq, Hash, Default)]
pub struct Zero;

impl Zero {
    /// The value associated with this type, i.e. 0.
    pub fn new() -> (r: Self)
        ensures
            r == marker::<Self>(),
            value_of(r) == 0,
    {
        Zero
    }
}

impl Ratio for Zero {
    open spec fn numer() -> int {
        0
    }

    open spec fn denom() -> int {
        1
    }

    open spec fn normal() -> bool {
        true
    }

    proof fn unique(a: Self, b: Self) {
    }
}

impl Numeral for Zero {
    open spec fn value() -> int {
        0
    }

    proof fn integral() {
    }
}

impl Sequence for Zero {
    type Next = Next<Zero>;

    type Prev = Prev<Zero>;

    proof fn neighbours() {
    }
}

/// The successor to some number.
///
/// Some of the traits in this crate require that `Next<T>` is positive. If this
/// causes errors, the `Simplify` trait can be used to remove redundancies.
#[derive(Debug, PartialEq, Eq, Hash, Default)]
pub struct Next<T>(PhantomData<T>);

impl<T: Numeral> Next<T> {
    /// The value associated with this type.
    pub fn new() -> (r: Self)
        ensures
            r == marker::<Self>(),
            value_of(r) == T::value() + 1,
    {
        let r = Next(PhantomData);
        proof {
            Self::unique(r, marker::<Self>());
        }
        r
    }
}

impl<T: Clone> Clone for Next<T> {
    fn clone(&self) -> (r: Self)
        ensures
            r == *self,
    {
        Next(PhantomData)
    }
}

impl<T: Copy> Copy for Next<T> {

}

impl<T: Numeral> Ratio for Next<T> {
    open spec fn numer() -> int {
        T::value() + 1
    }

    open spec fn denom() -> int {
        1
    }

    open spec fn normal() -> bool {
        T::normal() && T::value() >= 0
    }

    proof fn unique(a: Self, b: Self) {
    }
}

impl<T: Numeral> Numeral for Next<T> {
    open spec fn value() -> int {
        T::value() + 1
    }

    proof fn integral() {
    }
}

impl<T: Numeral> Sequence for Next<T> {
    type Next = Next<Next<T>>;

    type Prev = T;

    proof fn neighbours() {
    }
}

/// The predecessor to some number.
///
/// Some of the traits in this crate require that `Prev<T>` is negative. If this
/// causes errors, the `Simplify` trait can be used to remove redundancies.
#[derive(Debug, PartialEq, Eq, Hash, Default)]
pub struct Prev<T>(PhantomData<T>);

impl<T: Numeral> Prev<T> {
    /// The value associated with this type.
    pub fn new() -> (r: Self)
        ensures
            r == marker::<Self>(),
            value_of(r) == T::value() - 1,
    {
        let r = Prev(PhantomData);
        proof {
            Self::unique(r, marker::<Self>());
        }
        r
    }
}

impl<T: Clone> Clone for Prev<T> {
    fn clone(&self) -> (r: Self)
        ensures
            r == *self,
    {
        Prev(PhantomData)
    }
}

impl<T: Copy> Copy for Prev<T> {

}

impl<T: Numeral> Ratio for Prev<T> {
    open spec fn numer() -> int {
        T::value() - 1
    }

    open spec fn denom() -> int {
        1
    }

    open spec fn normal() -> bool {
        T::normal() && T::value() <= 0
    }

    proof fn unique(a: Self, b: Self) {
    }
}

impl<T: Numeral> Numeral for Prev<T> {
    open spec fn value() -> int {
        T::value() - 1
    }

    proof fn integral() {
    }
}

impl<T: Numeral> Sequence for Prev<T> {
    type Next = T;

    type Prev = Prev<Prev<T>>;

    proof fn neighbours() {
    }
}

/// The number 1.
pub type One = Next<Zero>;

/// The number 2.
pub type Two = Next<One>;

/// The number 3.
pub type Three = Next<Two>;

/// The number 4.
pub type Four = Next<Three>;

/// The number 5.
pub type Five = Next<Four>;

/// The number 6.
pub type Six = Next<Five>;

/// The number 7.
pub type Seven = Next<Six>;

/// The number 8.
pub type Eight = Next<Seven>;

/// The number 9.
pub type Nine = Next<Eight>;

/// The number 10.
pub type Ten = Next<Nine>;

} // verus!
