//! Negation of integers.

use crate::numeral::marker;
use crate::numeral::value_of;
use crate::numeral::Next;
use crate::numeral::Numeral;
use crate::numeral::Prev;
use crate::numeral::Ratio;
use crate::numeral::Zero;
use core::ops::Neg;
use vstd::prelude::*;
use vstd::std_specs::ops::NegSpec;
use vstd::std_specs::ops::NegSpecImpl;

verus! {

/// The negation of `Self`.
pub type Negation<T> = <T as Neg>::Output;

/// An integer whose negation is an integer again, with the proof that the
/// type of the result stands for the negated value.
pub trait NegInt: Numeral + Neg where Negation<Self>: Numeral {
    /// Every value can be negated. The negation stands for the negated
    /// value, and that of a normal number is normal.
    proof fn negation_value()
        ensures
            forall|a: Self| #[trigger] a.neg_req(),
            Negation::<Self>::value() == -Self::value(),
            Self::normal() ==> Negation::<Self>::normal(),
    ;
}

/// -0 = 0.
impl Neg for Zero {
    type Output = Zero;

    #[inline(always)]
    fn neg(self) -> (r: Self::Output)
        ensures
            value_of(r) == -value_of(self),
    {
        Zero
    }
}

/// The type of the negation has one value only, which is the result.
impl NegSpecImpl for Zero {
    open spec fn obeys_neg_spec() -> bool {
        true
    }

    open spec fn neg_req(self) -> bool {
        true
    }

    open spec fn neg_spec(self) -> Self::Output {
        marker()
    }
}

impl NegInt for Zero {
    proof fn negation_value() {
    }
}

/// -(t + 1) = -t - 1.
impl<T: NegInt> Neg for Next<T> where Negation<T>: Numeral {
    type Output = Prev<Negation<T>>;

    #[inline(always)]
    fn neg(self) -> (r: Self::Output)
        ensures
            value_of(r) == -value_of(self),
    {
        proof {
            <Self as NegInt>::negation_value();
        }
        Prev::new()
    }
}

/// The type of the negation has one value only, which is the result.
impl<T: NegInt> NegSpecImpl for Next<T> where Negation<T>: Numeral {
    open spec fn obeys_neg_spec() -> bool {
        true
    }

    open spec fn neg_req(self) -> bool {
        true
    }

    open spec fn neg_spec(self) -> Self::Output {
        marker()
    }
}

impl<T: NegInt> NegInt for Next<T> where Negation<T>: Numeral {
    proof fn negation_value() {
        T::negation_value();
    }
}

/// -(t - 1) = -t + 1.
impl<T: NegInt> Neg for Prev<T> where Negation<T>: Numeral {
    type Output = Next<Negation<T>>;

    #[inline(always)]
    fn neg(self) -> (r: Self::Output)
        ensures
            value_of(r) == -value_of(self),
    {
        proof {
            <Self as NegInt>::negation_value();
        }
        Next::new()
    }
}

/// The type of the negation has one value only, which is the result.
impl<T: NegInt> NegSpecImpl for Prev<T> where Negation<T>: Numeral {
    open spec fn obeys_neg_spec() -> bool {
        true
    }

    open spec fn neg_req(self) -> bool {
        true
    }

    open spec fn neg_spec(self) -> Self::Output {
        marker()
    }
}

impl<T: NegInt> NegInt for Prev<T> where Negation<T>: Numeral {
    proof fn negation_value() {
        T::negation_value();
    }
}

} // verus!
