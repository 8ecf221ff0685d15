//! Conversion of a type-level number to a runtime value.

use crate::numeral::Next;
use crate::numeral::Numeral;
use crate::numeral::Prev;
use crate::numeral::Ratio;
use crate::numeral::Zero;
use vstd::prelude::*;
use vstd::std_specs::convert::FromSpecImpl;

verus! {

/// A machine integer type that a number can be converted to.
pub trait Primitive: Copy {
    /// The least integer of the type.
    spec fn lowest() -> int;

    /// The greatest integer of the type.
    spec fn highest() -> int;

    /// The integer that a value of the type holds.
    spec fn to_int(self) -> int;

    /// The value that holds 0.
    fn zero() -> (r: Self)
        ensures
            r.to_int() == 0,
    ;

    /// Whether there is a value one above `self`.
    fn has_succ(self) -> (b: bool)
        ensures
            b == (self.to_int() < Self::highest()),
    ;

    /// The value one above `self`.
    fn succ(self) -> (r: Self)
        requires
            self.to_int() < Self::highest(),
        ensures
            r.to_int() == self.to_int() + 1,
    ;
}

/// A machine integer type that holds negative numbers too.
pub trait Signed: Primitive {
    /// Whether there is a value one below `self`.
    fn has_pred(self) -> (b: bool)
        ensures
            b == (self.to_int() > Self::lowest()),
    ;

    /// The value one below `self`.
    fn pred(self) -> (r: Self)
        requires
            self.to_int() > Self::lowest(),
        ensures
            r.to_int() == self.to_int() - 1,
    ;
}

impl Primitive for u8 {
    open spec fn lowest() -> int {
        u8::MIN as int
    }

    open spec fn highest() -> int {
        u8::MAX as int
    }

    open spec fn to_int(self) -> int {
        self as int
    }

    fn zero() -> u8 {
        0
    }

    fn has_succ(self) -> bool {
        self < u8::MAX
    }

    fn succ(self) -> u8 {
        self + 1
    }
}

impl Primitive for u16 {
    open spec fn lowest() -> int {
        u16::MIN as int
    }

    open spec fn highest() -> int {
        u16::MAX as int
    }

    open spec fn to_int(self) -> int {
        self as int
    }

    fn zero() -> u16 {
        0
    }

    fn has_succ(self) -> bool {
        self < u16::MAX
    }

    fn succ(self) -> u16 {
        self + 1
    }
}

impl Primitive for u32 {
    open spec fn lowest() -> int {
        u32::MIN as int
    }

    open spec fn highest() -> int {
        u32::MAX as int
    }

    open spec fn to_int(self) -> int {
        self as int
    }

    fn zero() -> u32 {
        0
    }

    fn has_succ(self) -> bool {
        self < u32::MAX
    }

    fn succ(self) -> u32 {
        self + 1
    }
}

impl Primitive for u64 {
    open spec fn lowest() -> int {
        u64::MIN as int
    }

    open spec fn highest() -> int {
        u64::MAX as int
    }

    open spec fn to_int(self) -> int {
        self as int
    }

    fn zero() -> u64 {
        0
    }

    fn has_succ(self) -> bool {
        self < u64::MAX
    }

    fn succ(self) -> u64 {
        self + 1
    }
}

impl Primitive for u128 {
    open spec fn lowest() -> int {
        u128::MIN as int
    }

    open spec fn highest() -> int {
        u128::MAX as int
    }

    open spec fn to_int(self) -> int {
        self as int
    }

    fn zero() -> u128 {
        0
    }

    fn has_succ(self) -> bool {
        self < u128::MAX
    }

    fn succ(self) -> u128 {
        self + 1
    }
}

impl Primitive for usize {
    open spec fn lowest() -> int {
        usize::MIN as int
    }

    open spec fn highest() -> int {
        usize::MAX as int
    }

    open spec fn to_int(self) -> int {
        self as int
    }

    fn zero() -> usize {
        0
    }

    fn has_succ(self) -> bool {
        self < usize::MAX
    }

    fn succ(self) -> usize {
        self + 1
    }
}

impl Primitive for i8 {
    open spec fn lowest() -> int {
        i8::MIN as int
    }

    open spec fn highest() -> int {
        i8::MAX as int
    }

    open spec fn to_int(self) -> int {
        self as int
    }

    fn zero() -> i8 {
        0
    }

    fn has_succ(self) -> bool {
        self < i8::MAX
    }

    fn succ(self) -> i8 {
        self + 1
    }
}

impl Primitive for i16 {
    open spec fn lowest() -> int {
        i16::MIN as int
    }

    open spec fn highest() -> int {
        i16::MAX as int
    }

    open spec fn to_int(self) -> int {
        self as int
    }

    fn zero() -> i16 {
        0
    }

    fn has_succ(self) -> bool {
        self < i16::MAX
    }

    fn succ(self) -> i16 {
        self + 1
    }
}

impl Primitive for i32 {
    open spec fn lowest() -> int {
        i32::MIN as int
    }

    open spec fn highest() -> int {
        i32::MAX as int
    }

    open spec fn to_int(self) -> int {
        self as int
    }

    fn zero() -> i32 {
        0
    }

    fn has_succ(self) -> bool {
        self < i32::MAX
    }

    fn succ(self) -> i32 {
        self + 1
    }
}

impl Primitive for i64 {
    open spec fn lowest() -> int {
        i64::MIN as int
    }

    open spec fn highest() -> int {
        i64::MAX as int
    }

    open spec fn to_int(self) -> int {
        self as int
    }

    fn zero() -> i64 {
        0
    }

    fn has_succ(self) -> bool {
        self < i64::MAX
    }

    fn succ(self) -> i64 {
        self + 1
    }
}

impl Primitive for i128 {
    open spec fn lowest() -> int {
        i128::MIN as int
    }

    open spec fn highest() -> int {
        i128::MAX as int
    }

    open spec fn to_int(self) -> int {
        self as int
    }

    fn zero() -> i128 {
        0
    }

    fn has_succ(self) -> bool {
        self < i128::MAX
    }

    fn succ(self) -> i128 {
        self + 1
    }
}

impl Primitive for isize {
    open spec fn lowest() -> int {
        isize::MIN as int
    }

    open spec fn highest() -> int {
        isize::MAX as int
    }

    open spec fn to_int(self) -> int {
        self as int
    }

    fn zero() -> isize {
        0
    }

    fn has_succ(self) -> bool {
        self < isize::MAX
    }

    fn succ(self) -> isize {
        self + 1
    }
}

impl Signed for i8 {
    fn has_pred(self) -> bool {
        self > i8::MIN
    }

    fn pred(self) -> i8 {
        self - 1
    }
}

impl Signed for i16 {
    fn has_pred(self) -> bool {
        self > i16::MIN
    }

    fn pred(self) -> i16 {
        self - 1
    }
}

impl Signed for i32 {
    fn has_pred(self) -> bool {
        self > i32::MIN
    }

    fn pred(self) -> i32 {
        self - 1
    }
}

impl Signed for i64 {
    fn has_pred(self) -> bool {
        self > i64::MIN
    }

    fn pred(self) -> i64 {
        self - 1
    }
}

impl Signed for i128 {
    fn has_pred(self) -> bool {
        self > i128::MIN
    }

    fn pred(self) -> i128 {
        self - 1
    }
}

impl Signed for isize {
    fn has_pred(self) -> bool {
        self > isize::MIN
    }

    fn pred(self) -> isize {
        self - 1
    }
}

/// A runtime value that can stand for a number: a machine integer for an
/// integer, a pair of machine integers for a ratio.
pub trait Runtime: Sized {
    /// Whether the value holds the number `numer / denom`, part by part.
    spec fn denotes(self, numer: int, denom: int) -> bool;
}

/// A machine integer holds an integer.
impl<P: Primitive> Runtime for P {
    open spec fn denotes(self, numer: int, denom: int) -> bool {
        self.to_int() == numer && denom == 1
    }
}

/// A pair of machine integers holds a numerator and a denominator.
impl<P: Primitive> Runtime for (P, P) {
    open spec fn denotes(self, numer: int, denom: int) -> bool {
        self.0.to_int() == numer && self.1.to_int() == denom
    }
}

/// Types which can be converted to a runtime value.
pub trait Reify<T: Runtime>: Ratio {
    /// Whether the conversion stays within the bounds of the machine integer
    /// type at every step: for this number and for each number that it is
    /// built on.
    spec fn representable() -> bool;

    /// Whether the type has a runtime representation in `T`.
    fn fits() -> (b: bool)
        ensures
            b == Self::representable(),
    ;

    /// The runtime representation of this type.
    fn reified() -> (r: T)
        requires
            Self::representable(),
        ensures
            r.denotes(Self::numer(), Self::denom()),
    ;

    /// A convenience method for getting the runtime representation of this type.
    ///
    /// The default implementation should always be sufficient.
    fn reify(&self) -> (r: T)
        requires
            Self::representable(),
        ensures
            r.denotes(Self::numer(), Self::denom()),
    {
        Self::reified()
    }

    /// The runtime representation of this type, where it has one in `T`.
    fn try_reify(&self) -> (r: Option<T>)
        ensures
            Self::representable() ==> r.is_some() && r.unwrap().denotes(
                Self::numer(),
                Self::denom(),
            ),
            !Self::representable() ==> r.is_none(),
    {
        if Self::fits() {
            Some(Self::reified())
        } else {
            None
        }
    }
}

/// Zero is the zero of every machine integer type.
impl<P: Primitive> Reify<P> for Zero {
    open spec fn representable() -> bool {
        true
    }

    fn fits() -> bool {
        true
    }

    fn reified() -> P {
        P::zero()
    }
}

/// A successor is one above the number below it.
impl<P: Primitive, T: Numeral + Reify<P>> Reify<P> for Next<T> {
    open spec fn representable() -> bool {
        T::representable() && T::value() < P::highest()
    }

    fn fits() -> bool {
        proof {
            T::integral();
        }
        T::fits() && T::reified().has_succ()
    }

    fn reified() -> P {
        proof {
            T::integral();
        }
        T::reified().succ()
    }
}

/// A predecessor is one below the number above it, in a machine integer type
/// that holds negative numbers.
impl<P: Signed, T: Numeral + Reify<P>> Reify<P> for Prev<T> {
    open spec fn representable() -> bool {
        T::representable() && T::value() > P::lowest()
    }

    fn fits() -> bool {
        proof {
            T::integral();
        }
        T::fits() && T::reified().has_pred()
    }

    fn reified() -> P {
        proof {
            T::integral();
        }
        T::reified().pred()
    }
}

impl From<Zero> for u8 {
    #[inline(always)]
    fn from(v: Zero) -> (r: u8)
        ensures
            r == 0,
    {
        0
    }
}

impl FromSpecImpl<Zero> for u8 {
    open spec fn obeys_from_spec() -> bool {
        true
    }

    open spec fn from_spec(v: Zero) -> u8 {
        0
    }
}

impl From<Zero> for u16 {
    #[inline(always)]
    fn from(v: Zero) -> (r: u16)
        ensures
            r == 0,
    {
        0
    }
}

impl FromSpecImpl<Zero> for u16 {
    open spec fn obeys_from_spec() -> bool {
        true
    }

    open spec fn from_spec(v: Zero) -> u16 {
        0
    }
}

impl From<Zero> for u32 {
    #[inline(always)]
    fn from(v: Zero) -> (r: u32)
        ensures
            r == 0,
    {
        0
    }
}

impl FromSpecImpl<Zero> for u32 {
    open spec fn obeys_from_spec() -> bool {
        true
    }

    open spec fn from_spec(v: Zero) -> u32 {
        0
    }
}

impl From<Zero> for u64 {
    #[inline(always)]
    fn from(v: Zero) -> (r: u64)
        ensures
            r == 0,
    {
        0
    }
}

impl FromSpecImpl<Zero> for u64 {
    open spec fn obeys_from_spec() -> bool {
        true
    }

    open spec fn from_spec(v: Zero) -> u64 {
        0
    }
}

impl From<Zero> for u128 {
    #[inline(always)]
    fn from(v: Zero) -> (r: u128)
        ensures
            r == 0,
    {
        0
    }
}

impl FromSpecImpl<Zero> for u128 {
    open spec fn obeys_from_spec() -> bool {
        true
    }

    open spec fn from_spec(v: Zero) -> u128 {
        0
    }
}

impl From<Zero> for usize {
    #[inline(always)]
    fn from(v: Zero) -> (r: usize)
        ensures
            r == 0,
    {
        0
    }
}

impl FromSpecImpl<Zero> for usize {
    open spec fn obeys_from_spec() -> bool {
        true
    }

    open spec fn from_spec(v: Zero) -> usize {
        0
    }
}

impl From<Zero> for i8 {
    #[inline(always)]
    fn from(v: Zero) -> (r: i8)
        ensures
            r == 0,
    {
        0
    }
}

impl FromSpecImpl<Zero> for i8 {
    open spec fn obeys_from_spec() -> bool {
        true
    }

    open spec fn from_spec(v: Zero) -> i8 {
        0
    }
}

impl From<Zero> for i16 {
    #[inline(always)]
    fn from(v: Zero) -> (r: i16)
        ensures
            r == 0,
    {
        0
    }
}

impl FromSpecImpl<Zero> for i16 {
    open spec fn obeys_from_spec() -> bool {
        true
    }

    open spec fn from_spec(v: Zero) -> i16 {
        0
    }
}

impl From<Zero> for i32 {
    #[inline(always)]
    fn from(v: Zero) -> (r: i32)
        ensures
            r == 0,
    {
        0
    }
}

impl FromSpecImpl<Zero> for i32 {
    open spec fn obeys_from_spec() -> bool {
        true
    }

    open spec fn from_spec(v: Zero) -> i32 {
        0
    }
}

impl From<Zero> for i64 {
    #[inline(always)]
    fn from(v: Zero) -> (r: i64)
        ensures
            r == 0,
    {
        0
    }
}

impl FromSpecImpl<Zero> for i64 {
    open spec fn obeys_from_spec() -> bool {
        true
    }

    open spec fn from_spec(v: Zero) -> i64 {
        0
    }
}

impl From<Zero> for i128 {
    #[inline(always)]
    fn from(v: Zero) -> (r: i128)
        ensures
            r == 0,
    {
        0
    }
}

impl FromSpecImpl<Zero> for i128 {
    open spec fn obeys_from_spec() -> bool {
        true
    }

    open spec fn from_spec(v: Zero) -> i128 {
        0
    }
}

impl From<Zero> for isize {
    #[inline(always)]
    fn from(v: Zero) -> (r: isize)
        ensures
            r == 0,
    {
        0
    }
}

impl FromSpecImpl<Zero> for isize {
    open spec fn obeys_from_spec() -> bool {
        true
    }

    open spec fn from_spec(v: Zero) -> isize {
        0
    }
}

} // verus!
