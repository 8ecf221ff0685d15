//! The ratio of two integers, and its arithmetic.

use crate::absolute::Abs;
use crate::absolute::Absolute;
use crate::arith::lemma_fraction_reduced;
use crate::arith::lemma_gcd_positive;
use crate::arith::lemma_lcm_multiple;
use crate::arith::lowest_terms;
use crate::arith::same_ratio;
use crate::arith::signum;
use crate::arith::truncated_quotient;
use crate::gcd::Gcd;
use crate::gcd::GreatestCommonDivisor;
use crate::lcm::Lcm;
use crate::lcm::LeastCommonMultiple;
use crate::negation::NegInt;
use crate::negation::Negation;
use crate::numeral::denom_of;
use crate::numeral::numer_of;
use crate::numeral::marker;
use crate::numeral::make;
use crate::numeral::value_of;
use crate::numeral::Next;
use crate::numeral::Numeral;
use crate::numeral::One;
use crate::numeral::Prev;
use crate::numeral::Ratio;
use crate::numeral::Zero;
use crate::product::MulInt;
use crate::product::Product;
use crate::quotient::DivInt;
use crate::quotient::Quotient;
use crate::quotient::RemInt;
use crate::reify::Primitive;
use crate::reify::Reify;
use crate::sign::lemma_negative;
use crate::sign::lemma_positive;
use crate::sign::Negative;
use crate::sign::NonNegative;
use crate::sign::NonPositive;
use crate::sign::NonZero;
use crate::sign::Positive;
use crate::simplify::lemma_simplified_integer;
use crate::simplify::Simplified;
use crate::simplify::Simplify;
use crate::sum::AddInt;
use crate::sum::Sum;
use core::marker::PhantomData;
use core::ops::Add;
use core::ops::Div;
use core::ops::Mul;
use core::ops::Neg;
use core::ops::Rem;
use core::ops::Sub;
use vstd::arithmetic::div_mod::lemma_fundamental_div_mod;
use vstd::math::abs;
use vstd::prelude::*;
use vstd::std_specs::ops::AddSpec;
use vstd::std_specs::ops::AddSpecImpl;
use vstd::std_specs::ops::DivSpecImpl;
use vstd::std_specs::ops::MulSpec;
use vstd::std_specs::ops::MulSpecImpl;
use vstd::std_specs::ops::NegSpecImpl;
use vstd::std_specs::ops::SubSpecImpl;

verus! {

/// The sign of a normal number that is not zero, as the number 1 or -1.
pub trait Sign: Numeral {
    /// The sign of `Self`.
    type Result: Numeral;

    /// The number is normal and not zero, and the result stands for its
    /// sign.
    proof fn sign_value()
        ensures
            Self::normal(),
            Self::value() != 0,
            <Self::Result as Numeral>::value() == signum(Self::value()),
            <Self::Result as Ratio>::normal(),
    ;
}

/// The sign of 1 is 1.
impl Sign for Next<Zero> {
    type Result = Next<Zero>;

    proof fn sign_value() {
    }
}

/// A positive number above 1 has the sign of the number below it.
impl<T> Sign for Next<Next<T>>
where
    T: Numeral,
    Self: Positive,
    Next<T>: Sign,
{
    type Result = <Next<T> as Sign>::Result;

    proof fn sign_value() {
        <Next<T> as Sign>::sign_value();
    }
}

/// The sign of -1 is -1.
impl Sign for Prev<Zero> {
    type Result = Prev<Zero>;

    proof fn sign_value() {
    }
}

/// A negative number below -1 has the sign of the number above it.
impl<T> Sign for Prev<Prev<T>>
where
    T: Numeral,
    Self: Negative,
    Prev<T>: Sign,
{
    type Result = <Prev<T> as Sign>::Result;

    proof fn sign_value() {
        <Prev<T> as Sign>::sign_value();
    }
}

/// The sign of `T`.
type SignOf<T> = <T as Sign>::Result;

/// A ratio of two numbers.
#[derive(Debug, PartialEq, Eq, Hash, Default)]
pub struct Fraction<Num, Dem: Positive>(PhantomData<(Num, Dem)>);

impl<Num: Numeral, Dem: Numeral + Positive> Fraction<Num, Dem> {
    /// The value associated with this type.
    pub fn new() -> (r: Self)
        ensures
            r == marker::<Self>(),
            numer_of(r) == Num::value(),
            denom_of(r) == Dem::value(),
    {
        let r = Fraction(PhantomData);
        proof {
            Self::unique(r, marker::<Self>());
        }
        r
    }
}

impl<Num: Clone, Dem: Clone + Positive> Clone for Fraction<Num, Dem> {
    fn clone(&self) -> (r: Self)
        ensures
            r == *self,
    {
        Fraction(PhantomData)
    }
}

impl<Num: Copy, Dem: Copy + Positive> Copy for Fraction<Num, Dem> {

}

/// A fraction stands for the value of its numerator over that of its
/// denominator, and is normal where both are.
impl<Num: Numeral, Dem: Numeral + Positive> Ratio for Fraction<Num, Dem> {
    open spec fn numer() -> int {
        Num::value()
    }

    open spec fn denom() -> int {
        Dem::value()
    }

    open spec fn normal() -> bool {
        Num::normal() && Dem::normal()
    }

    proof fn unique(a: Self, b: Self) {
    }
}

/// A fraction is converted to the pair of its numerator and denominator.
impl<P, Num, Dem> Reify<(P, P)> for Fraction<Num, Dem>
where
    P: Primitive,
    Num: Numeral + Reify<P>,
    Dem: Numeral + Positive + Reify<P>,
{
    open spec fn representable() -> bool {
        <Num as Reify<P>>::representable() && <Dem as Reify<P>>::representable()
    }

    fn fits() -> bool {
        <Num as Reify<P>>::fits() && <Dem as Reify<P>>::fits()
    }

    fn reified() -> (P, P) {
        proof {
            Num::integral();
            Dem::integral();
        }
        (Num::reified(), Dem::reified())
    }
}

/// The absolute value of the simplification of `T`.
type Size<T> = Absolute<Simplified<T>>;

/// The greatest divisor that the two parts of a fraction have in common.
type Common<N, D> = GreatestCommonDivisor<Size<N>, Size<D>>;

/// The sign of a fraction, from the signs of its two parts.
type Signs<N, D> = Product<SignOf<Simplified<N>>, SignOf<Simplified<D>>>;

/// The numerator of a fraction in lowest terms.
type LowNumer<N, D> = Product<Quotient<Size<N>, Common<N, D>>, Signs<N, D>>;

/// The denominator of a fraction in lowest terms.
type LowDenom<N, D> = Quotient<Size<D>, Common<N, D>>;

/// A fraction is simplified by dividing the absolute values of its
/// simplified parts by their greatest common divisor, and by giving the
/// numerator the sign of the fraction.
impl<Num, Dem> Simplify for Fraction<Num, Dem>
where
    Num: Numeral + Simplify,
    Dem: Numeral + Simplify + Positive,
    Simplified<Num>: Abs + Sign,
    Simplified<Dem>: Abs + Sign,
    SignOf<Simplified<Num>>: MulInt<SignOf<Simplified<Dem>>>,
    Signs<Num, Dem>: Numeral,
    Size<Num>: Gcd<Size<Dem>> + DivInt<Common<Num, Dem>>,
    Size<Dem>: DivInt<Common<Num, Dem>>,
    LowDenom<Num, Dem>: Numeral + Positive,
    Quotient<Size<Num>, Common<Num, Dem>>: MulInt<Signs<Num, Dem>>,
    LowNumer<Num, Dem>: Numeral,
{
    type Result = Fraction<LowNumer<Num, Dem>, LowDenom<Num, Dem>>;

    proof fn simplified_value() {
        let n = Num::value();
        let d = Dem::value();
        lemma_simplified_integer::<Num>();
        lemma_simplified_integer::<Dem>();
        lemma_positive::<Dem>();
        Dem::integral();
        <Simplified<Num> as Sign>::sign_value();
        <Simplified<Dem> as Sign>::sign_value();
        <Simplified<Num> as Abs>::absolute_value();
        <Simplified<Dem> as Abs>::absolute_value();
        <SignOf<Simplified<Num>> as MulInt<SignOf<Simplified<Dem>>>>::product_value();
        <Size<Num> as Gcd<Size<Dem>>>::gcd_value();
        <Size<Num> as DivInt<Common<Num, Dem>>>::quotient_value();
        <Size<Dem> as DivInt<Common<Num, Dem>>>::quotient_value();
        <Quotient<Size<Num>, Common<Num, Dem>> as MulInt<Signs<Num, Dem>>>::product_value();
        lemma_gcd_positive(abs(n), d as nat);
        lemma_fraction_reduced(n, d);
        let s = signum(n);
        assert(s * 1 == s) by (nonlinear_arith);
    }
}

/// A number that can be added to `Rhs` with the sum in lowest terms, with
/// the proof that the type of the result stands for the sum.
pub trait AddRatio<Rhs: Ratio>: Ratio + Add<Rhs> where Sum<Self, Rhs>: Ratio {
    /// Any two values can be added. The sum of two normal numbers stands
    /// for the sum of the numbers, in lowest terms, and is normal.
    proof fn sum_ratio()
        ensures
            forall|a: Self, b: Rhs| #[trigger] a.add_req(b),
            Self::normal() && Rhs::normal() ==> same_ratio(
                Sum::<Self, Rhs>::numer(),
                Sum::<Self, Rhs>::denom(),
                Self::numer() * Rhs::denom() + Rhs::numer() * Self::denom(),
                Self::denom() * Rhs::denom(),
            ) && lowest_terms(Sum::<Self, Rhs>::numer(), Sum::<Self, Rhs>::denom()) && Sum::<
                Self,
                Rhs,
            >::normal(),
    ;
}

/// A number that can be multiplied by `Rhs` with the product in lowest
/// terms, with the proof that the type of the result stands for the
/// product.
pub trait MulRatio<Rhs: Ratio>: Ratio + Mul<Rhs> where Product<Self, Rhs>: Ratio {
    /// Any two values can be multiplied. The product stands for the
    /// product of the numbers, in lowest terms, and is normal.
    proof fn product_ratio()
        ensures
            forall|a: Self, b: Rhs| #[trigger] a.mul_req(b),
            same_ratio(
                Product::<Self, Rhs>::numer(),
                Product::<Self, Rhs>::denom(),
                Self::numer() * Rhs::numer(),
                Self::denom() * Rhs::denom(),
            ),
            lowest_terms(Product::<Self, Rhs>::numer(), Product::<Self, Rhs>::denom()),
            Product::<Self, Rhs>::normal(),
    ;
}

/// The least common denominator of two fractions.
type Lcd<D1, D2> = LeastCommonMultiple<D2, D1>;

/// The numerator `N` of a fraction over `D`, raised to the denominator `L`.
type Raised<N, D, L> = Product<N, Quotient<L, D>>;

/// The sum of two fractions before it is simplified.
type RawSum<N1, D1, N2, D2> = Fraction<
    Sum<Raised<N1, D1, Lcd<D1, D2>>, Raised<N2, D2, Lcd<D1, D2>>>,
    Lcd<D1, D2>,
>;

/// The sum over the least common denominator `l` of `d1` and `d2` is the
/// sum of the two fractions.
proof fn lemma_sum_over_lcd(n1: int, d1: int, n2: int, d2: int, l: int, rn: int, rd: int)
    requires
        d1 > 0,
        d2 > 0,
        l > 0,
        l % d1 == 0,
        l % d2 == 0,
        same_ratio(rn, rd, n1 * (l / d1) + n2 * (l / d2), l),
    ensures
        same_ratio(rn, rd, n1 * d2 + n2 * d1, d1 * d2),
{
    lemma_fundamental_div_mod(l, d1);
    lemma_fundamental_div_mod(l, d2);
    let q1 = l / d1;
    let q2 = l / d2;
    let raw = n1 * q1 + n2 * q2;
    let sum = n1 * d2 + n2 * d1;
    let t1 = n1 * q1;
    let t2 = n2 * q2;
    let dd = d1 * d2;
    assert(t1 * dd == (n1 * d2) * l) by (nonlinear_arith)
        requires
            t1 == n1 * q1,
            dd == d1 * d2,
            l == d1 * q1,
    ;
    assert(t2 * dd == (n2 * d1) * l) by (nonlinear_arith)
        requires
            t2 == n2 * q2,
            dd == d1 * d2,
            l == d2 * q2,
    ;
    assert(raw * dd == l * sum) by (nonlinear_arith)
        requires
            raw == t1 + t2,
            t1 * dd == (n1 * d2) * l,
            t2 * dd == (n2 * d1) * l,
            sum == n1 * d2 + n2 * d1,
    ;
    assert(l * (rn * dd) == l * (sum * rd)) by (nonlinear_arith)
        requires
            rn * l == raw * rd,
            raw * dd == l * sum,
    ;
    assert(rn * dd == sum * rd) by (nonlinear_arith)
        requires
            l * (rn * dd) == l * (sum * rd),
            l > 0,
    ;
}

/// The sum of two fractions: both are raised to their least common
/// denominator, and the sum of the numerators over it is simplified.
impl<Num1, Dem1, Num2, Dem2> Add<Fraction<Num2, Dem2>> for Fraction<Num1, Dem1>
where
    Num1: Numeral,
    Num2: Numeral,
    Dem1: Numeral + Positive,
    Dem2: Numeral + Lcm<Dem1> + Positive,
    Lcd<Dem1, Dem2>: DivInt<Dem1> + DivInt<Dem2> + Positive,
    Quotient<Lcd<Dem1, Dem2>, Dem1>: Numeral,
    Quotient<Lcd<Dem1, Dem2>, Dem2>: Numeral,
    Num1: MulInt<Quotient<Lcd<Dem1, Dem2>, Dem1>>,
    Num2: MulInt<Quotient<Lcd<Dem1, Dem2>, Dem2>>,
    Raised<Num1, Dem1, Lcd<Dem1, Dem2>>: AddInt<Raised<Num2, Dem2, Lcd<Dem1, Dem2>>>,
    Raised<Num2, Dem2, Lcd<Dem1, Dem2>>: Numeral,
    Sum<Raised<Num1, Dem1, Lcd<Dem1, Dem2>>, Raised<Num2, Dem2, Lcd<Dem1, Dem2>>>: Numeral,
    RawSum<Num1, Dem1, Num2, Dem2>: Simplify,
    Simplified<RawSum<Num1, Dem1, Num2, Dem2>>: Default,
{
    type Output = Simplified<RawSum<Num1, Dem1, Num2, Dem2>>;

    #[inline(always)]
    fn add(self, rhs: Fraction<Num2, Dem2>) -> (r: Self::Output)
        ensures
            Self::normal() && Fraction::<Num2, Dem2>::normal() ==> same_ratio(
                numer_of(r),
                denom_of(r),
                numer_of(self) * denom_of(rhs) + numer_of(rhs) * denom_of(self),
                denom_of(self) * denom_of(rhs),
            ) && lowest_terms(numer_of(r), denom_of(r)),
    {
        proof {
            <Self as AddRatio<Fraction<Num2, Dem2>>>::sum_ratio();
        }
        make()
    }
}

/// The type of the sum has one value only, which is the result.
impl<Num1, Dem1, Num2, Dem2> AddSpecImpl<Fraction<Num2, Dem2>> for Fraction<Num1, Dem1>
where
    Num1: Numeral,
    Num2: Numeral,
    Dem1: Numeral + Positive,
    Dem2: Numeral + Lcm<Dem1> + Positive,
    Lcd<Dem1, Dem2>: DivInt<Dem1> + DivInt<Dem2> + Positive,
    Quotient<Lcd<Dem1, Dem2>, Dem1>: Numeral,
    Quotient<Lcd<Dem1, Dem2>, Dem2>: Numeral,
    Num1: MulInt<Quotient<Lcd<Dem1, Dem2>, Dem1>>,
    Num2: MulInt<Quotient<Lcd<Dem1, Dem2>, Dem2>>,
    Raised<Num1, Dem1, Lcd<Dem1, Dem2>>: AddInt<Raised<Num2, Dem2, Lcd<Dem1, Dem2>>>,
    Raised<Num2, Dem2, Lcd<Dem1, Dem2>>: Numeral,
    Sum<Raised<Num1, Dem1, Lcd<Dem1, Dem2>>, Raised<Num2, Dem2, Lcd<Dem1, Dem2>>>: Numeral,
    RawSum<Num1, Dem1, Num2, Dem2>: Simplify,
    Simplified<RawSum<Num1, Dem1, Num2, Dem2>>: Default,
{
    open spec fn obeys_add_spec() -> bool {
        true
    }

    open spec fn add_req(self, rhs: Fraction<Num2, Dem2>) -> bool {
        true
    }

    open spec fn add_spec(self, rhs: Fraction<Num2, Dem2>) -> Self::Output {
        marker()
    }
}

impl<Num1, Dem1, Num2, Dem2> AddRatio<Fraction<Num2, Dem2>> for Fraction<Num1, Dem1>
where
    Num1: Numeral,
    Num2: Numeral,
    Dem1: Numeral + Positive,
    Dem2: Numeral + Lcm<Dem1> + Positive,
    Lcd<Dem1, Dem2>: DivInt<Dem1> + DivInt<Dem2> + Positive,
    Quotient<Lcd<Dem1, Dem2>, Dem1>: Numeral,
    Quotient<Lcd<Dem1, Dem2>, Dem2>: Numeral,
    Num1: MulInt<Quotient<Lcd<Dem1, Dem2>, Dem1>>,
    Num2: MulInt<Quotient<Lcd<Dem1, Dem2>, Dem2>>,
    Raised<Num1, Dem1, Lcd<Dem1, Dem2>>: AddInt<Raised<Num2, Dem2, Lcd<Dem1, Dem2>>>,
    Raised<Num2, Dem2, Lcd<Dem1, Dem2>>: Numeral,
    Sum<Raised<Num1, Dem1, Lcd<Dem1, Dem2>>, Raised<Num2, Dem2, Lcd<Dem1, Dem2>>>: Numeral,
    RawSum<Num1, Dem1, Num2, Dem2>: Simplify,
    Simplified<RawSum<Num1, Dem1, Num2, Dem2>>: Default,
{
    proof fn sum_ratio() {
        if Self::normal() && Fraction::<Num2, Dem2>::normal() {
            let d1 = Dem1::value();
            let d2 = Dem2::value();
            lemma_positive::<Dem1>();
            lemma_positive::<Dem2>();
            Dem1::integral();
            Dem2::integral();
            <Dem2 as Lcm<Dem1>>::lcm_value();
            lemma_lcm_multiple(d2 as nat, d1 as nat);
            <Lcd<Dem1, Dem2> as DivInt<Dem1>>::quotient_value();
            <Lcd<Dem1, Dem2> as DivInt<Dem2>>::quotient_value();
            <Num1 as MulInt<Quotient<Lcd<Dem1, Dem2>, Dem1>>>::product_value();
            <Num2 as MulInt<Quotient<Lcd<Dem1, Dem2>, Dem2>>>::product_value();
            <Raised<Num1, Dem1, Lcd<Dem1, Dem2>> as AddInt<
                Raised<Num2, Dem2, Lcd<Dem1, Dem2>>,
            >>::sum_value();
            <RawSum<Num1, Dem1, Num2, Dem2> as Simplify>::simplified_value();
            lemma_sum_over_lcd(
                Num1::value(),
                d1,
                Num2::value(),
                d2,
                Lcd::<Dem1, Dem2>::value(),
                Sum::<Self, Fraction<Num2, Dem2>>::numer(),
                Sum::<Self, Fraction<Num2, Dem2>>::denom(),
            );
        }
    }
}

/// The difference of two fractions: the sum of the first and the negation
/// of the second.
impl<Num1, Dem1, Num2, Dem2> Sub<Fraction<Num2, Dem2>> for Fraction<Num1, Dem1>
where
    Num1: Numeral,
    Dem1: Numeral + Positive,
    Dem2: Numeral + Positive,
    Num2: NegInt,
    Negation<Num2>: Numeral,
    Fraction<Num1, Dem1>: AddRatio<Fraction<Negation<Num2>, Dem2>>,
    Sum<Fraction<Num1, Dem1>, Fraction<Negation<Num2>, Dem2>>: Ratio + Default,
{
    type Output = Sum<Fraction<Num1, Dem1>, Fraction<Negation<Num2>, Dem2>>;

    #[inline(always)]
    fn sub(self, rhs: Fraction<Num2, Dem2>) -> (r: Self::Output)
        ensures
            Self::normal() && Fraction::<Num2, Dem2>::normal() ==> same_ratio(
                numer_of(r),
                denom_of(r),
                numer_of(self) * denom_of(rhs) - numer_of(rhs) * denom_of(self),
                denom_of(self) * denom_of(rhs),
            ) && lowest_terms(numer_of(r), denom_of(r)),
    {
        proof {
            if Self::normal() && Fraction::<Num2, Dem2>::normal() {
                Num2::negation_value();
                <Self as AddRatio<Fraction<Negation<Num2>, Dem2>>>::sum_ratio();
                let n2 = Num2::value();
                let d1 = Dem1::value();
                assert((-n2) * d1 == -(n2 * d1)) by (nonlinear_arith);
            }
        }
        make()
    }
}

/// The type of the difference has one value only, which is the result.
impl<Num1, Dem1, Num2, Dem2> SubSpecImpl<Fraction<Num2, Dem2>> for Fraction<Num1, Dem1>
where
    Num1: Numeral,
    Dem1: Numeral + Positive,
    Dem2: Numeral + Positive,
    Num2: NegInt,
    Negation<Num2>: Numeral,
    Fraction<Num1, Dem1>: AddRatio<Fraction<Negation<Num2>, Dem2>>,
    Sum<Fraction<Num1, Dem1>, Fraction<Negation<Num2>, Dem2>>: Ratio + Default,
{
    open spec fn obeys_sub_spec() -> bool {
        true
    }

    open spec fn sub_req(self, rhs: Fraction<Num2, Dem2>) -> bool {
        true
    }

    open spec fn sub_spec(self, rhs: Fraction<Num2, Dem2>) -> Self::Output {
        marker()
    }
}

/// The product of two fractions: the product of the numerators over that
/// of the denominators, simplified.
impl<Num1, Dem1, Num2, Dem2> Mul<Fraction<Num2, Dem2>> for Fraction<Num1, Dem1>
where
    Num2: Numeral,
    Num1: MulInt<Num2>,
    Dem1: Numeral + MulInt<Dem2> + Positive,
    Dem2: Numeral + Positive,
    Product<Num1, Num2>: Numeral,
    Product<Dem1, Dem2>: Numeral + Positive,
    Fraction<Product<Num1, Num2>, Product<Dem1, Dem2>>: Simplify,
    Simplified<Fraction<Product<Num1, Num2>, Product<Dem1, Dem2>>>: Default,
{
    type Output = Simplified<Fraction<Product<Num1, Num2>, Product<Dem1, Dem2>>>;

    #[inline(always)]
    fn mul(self, rhs: Fraction<Num2, Dem2>) -> (r: Self::Output)
        ensures
            same_ratio(
                numer_of(r),
                denom_of(r),
                numer_of(self) * numer_of(rhs),
                denom_of(self) * denom_of(rhs),
            ),
            lowest_terms(numer_of(r), denom_of(r)),
    {
        proof {
            <Self as MulRatio<Fraction<Num2, Dem2>>>::product_ratio();
        }
        make()
    }
}

/// The type of the product has one value only, which is the result.
impl<Num1, Dem1, Num2, Dem2> MulSpecImpl<Fraction<Num2, Dem2>> for Fraction<Num1, Dem1>
where
    Num2: Numeral,
    Num1: MulInt<Num2>,
    Dem1: Numeral + MulInt<Dem2> + Positive,
    Dem2: Numeral + Positive,
    Product<Num1, Num2>: Numeral,
    Product<Dem1, Dem2>: Numeral + Positive,
    Fraction<Product<Num1, Num2>, Product<Dem1, Dem2>>: Simplify,
    Simplified<Fraction<Product<Num1, Num2>, Product<Dem1, Dem2>>>: Default,
{
    open spec fn obeys_mul_spec() -> bool {
        true
    }

    open spec fn mul_req(self, rhs: Fraction<Num2, Dem2>) -> bool {
        true
    }

    open spec fn mul_spec(self, rhs: Fraction<Num2, Dem2>) -> Self::Output {
        marker()
    }
}

impl<Num1, Dem1, Num2, Dem2> MulRatio<Fraction<Num2, Dem2>> for Fraction<Num1, Dem1>
where
    Num2: Numeral,
    Num1: MulInt<Num2>,
    Dem1: Numeral + MulInt<Dem2> + Positive,
    Dem2: Numeral + Positive,
    Product<Num1, Num2>: Numeral,
    Product<Dem1, Dem2>: Numeral + Positive,
    Fraction<Product<Num1, Num2>, Product<Dem1, Dem2>>: Simplify,
    Simplified<Fraction<Product<Num1, Num2>, Product<Dem1, Dem2>>>: Default,
{
    proof fn product_ratio() {
        <Num1 as MulInt<Num2>>::product_value();
        <Dem1 as MulInt<Dem2>>::product_value();
        <Fraction<Product<Num1, Num2>, Product<Dem1, Dem2>> as Simplify>::simplified_value();
    }
}

/// The quotient of two fractions: the product of the first and the
/// reciprocal of the second, which is not zero.
impl<Num1, Dem1, Num2, Dem2> Div<Fraction<Num2, Dem2>> for Fraction<Num1, Dem1>
where
    Num1: Numeral,
    Num2: Numeral,
    Dem1: Numeral + Positive,
    Dem2: Numeral + Positive,
    Fraction<Num2, Dem2>: Inverse,
    Fraction<Num1, Dem1>: MulRatio<Reciprocal<Fraction<Num2, Dem2>>>,
    Product<Fraction<Num1, Dem1>, Reciprocal<Fraction<Num2, Dem2>>>: Ratio + Default,
{
    type Output = Product<Fraction<Num1, Dem1>, Reciprocal<Fraction<Num2, Dem2>>>;

    #[inline(always)]
    fn div(self, rhs: Fraction<Num2, Dem2>) -> (r: Self::Output)
        ensures
            numer_of(rhs) != 0,
            same_ratio(
                numer_of(r),
                denom_of(r),
                numer_of(self) * denom_of(rhs),
                denom_of(self) * numer_of(rhs),
            ),
            lowest_terms(numer_of(r), denom_of(r)),
    {
        proof {
            <Fraction<Num2, Dem2> as Inverse>::reciprocal_value();
            <Self as MulRatio<Reciprocal<Fraction<Num2, Dem2>>>>::product_ratio();
            let n1 = Num1::value();
            let d1 = Dem1::value();
            let n2 = Num2::value();
            let d2 = Dem2::value();
            let rn = Self::Output::numer();
            let rd = Self::Output::denom();
            if n2 > 0 {
                assert(d2 * 1 == d2) by (nonlinear_arith);
            } else {
                assert(rn * (d1 * n2) == (n1 * d2) * rd) by (nonlinear_arith)
                    requires
                        rn * (d1 * (-n2)) == (n1 * (d2 * -1)) * rd,
                ;
            }
        }
        make()
    }
}

/// The type of the quotient has one value only, which is the result.
impl<Num1, Dem1, Num2, Dem2> DivSpecImpl<Fraction<Num2, Dem2>> for Fraction<Num1, Dem1>
where
    Num1: Numeral,
    Num2: Numeral,
    Dem1: Numeral + Positive,
    Dem2: Numeral + Positive,
    Fraction<Num2, Dem2>: Inverse,
    Fraction<Num1, Dem1>: MulRatio<Reciprocal<Fraction<Num2, Dem2>>>,
    Product<Fraction<Num1, Dem1>, Reciprocal<Fraction<Num2, Dem2>>>: Ratio + Default,
{
    open spec fn obeys_div_spec() -> bool {
        true
    }

    open spec fn div_req(self, rhs: Fraction<Num2, Dem2>) -> bool {
        true
    }

    open spec fn div_spec(self, rhs: Fraction<Num2, Dem2>) -> Self::Output {
        marker()
    }
}

/// Adding zero leaves a fraction as it is.
impl<Num: Numeral, Dem: Numeral + Positive> Add<Zero> for Fraction<Num, Dem> {
    type Output = Self;

    #[inline(always)]
    fn add(self, rhs: Zero) -> (r: Self::Output)
        ensures
            numer_of(r) == numer_of(self),
            denom_of(r) == denom_of(self),
    {
        Fraction::new()
    }
}

/// The type of the sum has one value only, which is the result.
impl<Num: Numeral, Dem: Numeral + Positive> AddSpecImpl<Zero> for Fraction<Num, Dem> {
    open spec fn obeys_add_spec() -> bool {
        true
    }

    open spec fn add_req(self, rhs: Zero) -> bool {
        true
    }

    open spec fn add_spec(self, rhs: Zero) -> Self::Output {
        marker()
    }
}

/// Adding a fraction to zero gives the fraction.
impl<Num: Numeral, Dem: Numeral + Positive> Add<Fraction<Num, Dem>> for Zero {
    type Output = Fraction<Num, Dem>;

    #[inline(always)]
    fn add(self, rhs: Fraction<Num, Dem>) -> (r: Self::Output)
        ensures
            numer_of(r) == numer_of(rhs),
            denom_of(r) == denom_of(rhs),
    {
        Fraction::new()
    }
}

/// The type of the sum has one value only, which is the result.
impl<Num: Numeral, Dem: Numeral + Positive> AddSpecImpl<Fraction<Num, Dem>> for Zero {
    open spec fn obeys_add_spec() -> bool {
        true
    }

    open spec fn add_req(self, rhs: Fraction<Num, Dem>) -> bool {
        true
    }

    open spec fn add_spec(self, rhs: Fraction<Num, Dem>) -> Self::Output {
        marker()
    }
}

/// Subtracting zero leaves a fraction as it is.
impl<Num: Numeral, Dem: Numeral + Positive> Sub<Zero> for Fraction<Num, Dem> {
    type Output = Self;

    #[inline(always)]
    fn sub(self, rhs: Zero) -> (r: Self::Output)
        ensures
            numer_of(r) == numer_of(self),
            denom_of(r) == denom_of(self),
    {
        Fraction::new()
    }
}

/// The type of the difference has one value only, which is the result.
impl<Num: Numeral, Dem: Numeral + Positive> SubSpecImpl<Zero> for Fraction<Num, Dem> {
    open spec fn obeys_sub_spec() -> bool {
        true
    }

    open spec fn sub_req(self, rhs: Zero) -> bool {
        true
    }

    open spec fn sub_spec(self, rhs: Zero) -> Self::Output {
        marker()
    }
}

/// Subtracting a fraction from zero gives its negation.
impl<Num: NegInt, Dem: Numeral + Positive> Sub<Fraction<Num, Dem>> for Zero
where
    Negation<Num>: Numeral,
{
    type Output = Fraction<Negation<Num>, Dem>;

    #[inline(always)]
    fn sub(self, rhs: Fraction<Num, Dem>) -> (r: Self::Output)
        ensures
            numer_of(r) == -numer_of(rhs),
            denom_of(r) == denom_of(rhs),
    {
        proof {
            Num::negation_value();
        }
        Fraction::new()
    }
}

/// The type of the difference has one value only, which is the result.
impl<Num: NegInt, Dem: Numeral + Positive> SubSpecImpl<Fraction<Num, Dem>> for Zero
where
    Negation<Num>: Numeral,
{
    open spec fn obeys_sub_spec() -> bool {
        true
    }

    open spec fn sub_req(self, rhs: Fraction<Num, Dem>) -> bool {
        true
    }

    open spec fn sub_spec(self, rhs: Fraction<Num, Dem>) -> Self::Output {
        marker()
    }
}

/// A fraction times zero is zero.
impl<Num: Numeral, Dem: Numeral + Positive> Mul<Zero> for Fraction<Num, Dem> {
    type Output = Zero;

    #[inline(always)]
    fn mul(self, rhs: Zero) -> (r: Self::Output)
        ensures
            value_of(r) == 0,
    {
        Zero
    }
}

/// The type of the product has one value only, which is the result.
impl<Num: Numeral, Dem: Numeral + Positive> MulSpecImpl<Zero> for Fraction<Num, Dem> {
    open spec fn obeys_mul_spec() -> bool {
        true
    }

    open spec fn mul_req(self, rhs: Zero) -> bool {
        true
    }

    open spec fn mul_spec(self, rhs: Zero) -> Self::Output {
        marker()
    }
}

/// Zero times a fraction is zero.
impl<Num: Numeral, Dem: Numeral + Positive> Mul<Fraction<Num, Dem>> for Zero {
    type Output = Zero;

    #[inline(always)]
    fn mul(self, rhs: Fraction<Num, Dem>) -> (r: Self::Output)
        ensures
            value_of(r) == 0,
    {
        Zero
    }
}

/// The type of the product has one value only, which is the result.
impl<Num: Numeral, Dem: Numeral + Positive> MulSpecImpl<Fraction<Num, Dem>> for Zero {
    open spec fn obeys_mul_spec() -> bool {
        true
    }

    open spec fn mul_req(self, rhs: Fraction<Num, Dem>) -> bool {
        true
    }

    open spec fn mul_spec(self, rhs: Fraction<Num, Dem>) -> Self::Output {
        marker()
    }
}

/// Zero divided by a fraction is zero.
impl<Num: Numeral, Dem: Numeral + Positive> Div<Fraction<Num, Dem>> for Zero {
    type Output = Zero;

    #[inline(always)]
    fn div(self, rhs: Fraction<Num, Dem>) -> (r: Self::Output)
        ensures
            value_of(r) == 0,
    {
        Zero
    }
}

/// The type of the quotient has one value only, which is the result.
impl<Num: Numeral, Dem: Numeral + Positive> DivSpecImpl<Fraction<Num, Dem>> for Zero {
    open spec fn obeys_div_spec() -> bool {
        true
    }

    open spec fn div_req(self, rhs: Fraction<Num, Dem>) -> bool {
        true
    }

    open spec fn div_spec(self, rhs: Fraction<Num, Dem>) -> Self::Output {
        marker()
    }
}

/// The negation of a fraction has the negated numerator.
impl<Num: NegInt, Dem: Numeral + Positive> Neg for Fraction<Num, Dem>
where
    Negation<Num>: Numeral,
{
    type Output = Fraction<Negation<Num>, Dem>;

    #[inline(always)]
    fn neg(self) -> (r: Self::Output)
        ensures
            numer_of(r) == -numer_of(self),
            denom_of(r) == denom_of(self),
    {
        proof {
            Num::negation_value();
        }
        Fraction::new()
    }
}

/// The type of the negation has one value only, which is the result.
impl<Num: NegInt, Dem: Numeral + Positive> NegSpecImpl for Fraction<Num, Dem>
where
    Negation<Num>: Numeral,
{
    open spec fn obeys_neg_spec() -> bool {
        true
    }

    open spec fn neg_req(self) -> bool {
        true
    }

    open spec fn neg_spec(self) -> Self::Output {
        marker()
    }
}

impl<Num: Numeral + NonZero, Dem: Numeral + Positive> NonZero for Fraction<Num, Dem> {
    proof fn non_zero() {
        Num::non_zero();
        Num::integral();
        lemma_positive::<Dem>();
        Dem::integral();
    }
}

impl<Num: Numeral + NonNegative, Dem: Numeral + Positive> NonNegative for Fraction<Num, Dem> {
    proof fn non_negative() {
        Num::non_negative();
        Num::integral();
        lemma_positive::<Dem>();
        Dem::integral();
    }
}

impl<Num: Numeral + NonPositive, Dem: Numeral + Positive> NonPositive for Fraction<Num, Dem> {
    proof fn non_positive() {
        Num::non_positive();
        Num::integral();
        lemma_positive::<Dem>();
        Dem::integral();
    }
}

/// Type level fraction-to-integer conversion.
///
/// Also implemented from integers to themselves for convenience.
pub trait ToInt: Ratio {
    /// `Self` as an integer.
    type Result: Numeral;

    /// The result of a normal number stands for the quotient of its
    /// numerator and denominator, rounded towards zero, and is normal. For a
    /// positive number the division is exact.
    proof fn integer_value()
        requires
            Self::normal(),
        ensures
            <Self::Result as Numeral>::value() == truncated_quotient(Self::numer(), Self::denom()),
            <Self::Result as Ratio>::normal(),
            Self::numer() > 0 ==> <Self::Result as Numeral>::value() * Self::denom()
                == Self::numer(),
    ;
}

impl ToInt for Zero {
    type Result = Zero;

    proof fn integer_value() {
    }
}

impl<T: Numeral> ToInt for Next<T>
where
    Self: Simplify,
    Simplified<Self>: Numeral,
{
    type Result = Simplified<Self>;

    proof fn integer_value() {
        lemma_simplified_integer::<Self>();
        let v = Self::value();
        assert(v * 1 == v) by (nonlinear_arith);
    }
}

impl<T: Numeral> ToInt for Prev<T>
where
    Self: Simplify,
    Simplified<Self>: Numeral,
{
    type Result = Simplified<Self>;

    proof fn integer_value() {
        lemma_simplified_integer::<Self>();
        let v = Self::value();
        assert(v * 1 == v) by (nonlinear_arith);
    }
}

/// A fraction is converted by dividing its numerator by its denominator.
/// Where both are positive, there must be no remainder.
impl<Num, Dem> ToInt for Fraction<Num, Dem>
where
    Dem: Numeral + Positive,
    Num: DivInt<Dem> + RemInt<Dem> + Rem<Dem, Output = Zero>,
    Quotient<Num, Dem>: Numeral,
{
    type Result = Quotient<Num, Dem>;

    proof fn integer_value() {
        <Num as DivInt<Dem>>::quotient_value();
        <Num as RemInt<Dem>>::remainder_value();
        lemma_positive::<Dem>();
        Dem::integral();
        lemma_fundamental_div_mod(Num::value(), Dem::value());
        let q = Num::value() / Dem::value();
        let d = Dem::value();
        assert(q * d == d * q) by (nonlinear_arith);
    }
}

/// Type-level inverse.
pub trait Inverse: Ratio {
    /// The reciprocal of `Self`.
    type Result: Ratio;

    /// The number is not zero. The result has the sign in its numerator and
    /// a positive denominator, and that of a normal number is normal.
    proof fn reciprocal_value()
        ensures
            Self::numer() != 0,
            <Self::Result as Ratio>::numer() == Self::denom() * signum(Self::numer()),
            <Self::Result as Ratio>::denom() == abs(Self::numer()),
            Self::normal() ==> <Self::Result as Ratio>::normal(),
    ;
}

/// The reciprocal of a positive integer is 1 over it.
impl<T: Numeral> Inverse for Next<T>
where
    Self: Positive,
{
    type Result = Fraction<One, Self>;

    proof fn reciprocal_value() {
        lemma_positive::<Self>();
    }
}

/// The reciprocal of a negative integer is -1 over its absolute value.
impl<T: Numeral> Inverse for Prev<T>
where
    Self: Negative + Abs,
    Absolute<Self>: Positive,
{
    type Result = Fraction<Negation<One>, Absolute<Self>>;

    proof fn reciprocal_value() {
        lemma_negative::<Self>();
        <Self as Abs>::absolute_value();
    }
}

/// The reciprocal of a fraction is its denominator, with the sign of the
/// numerator, over the absolute value of its numerator.
impl<Num, Dem> Inverse for Fraction<Num, Dem>
where
    Num: Numeral + Simplify + NonZero,
    Simplified<Num>: Abs + Sign,
    Dem: Numeral + MulInt<SignOf<Simplified<Num>>> + Positive,
    Product<Dem, SignOf<Simplified<Num>>>: Numeral,
    Size<Num>: Positive,
{
    type Result = Fraction<Product<Dem, SignOf<Simplified<Num>>>, Size<Num>>;

    proof fn reciprocal_value() {
        Num::non_zero();
        Num::integral();
        lemma_simplified_integer::<Num>();
        <Simplified<Num> as Sign>::sign_value();
        <Simplified<Num> as Abs>::absolute_value();
        <Dem as MulInt<SignOf<Simplified<Num>>>>::product_value();
    }
}

/// The reciprocal of `T`.
pub type Reciprocal<T> = <T as Inverse>::Result;

} // verus!
