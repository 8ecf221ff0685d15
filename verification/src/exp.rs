//! Exponentiation of a number by an integer.

use crate::absolute::Abs;
use crate::absolute::Absolute;
use crate::arith::lemma_gcd_symmetric;
use crate::arith::lemma_integer_lowest_terms;
use crate::arith::lemma_lowest_terms_integer;
use crate::arith::lowest_terms;
use crate::arith::power_denom;
use crate::arith::power_numer;
use crate::arith::same_ratio;
use crate::arith::signum;
use crate::fraction::Fraction;
use crate::fraction::Inverse;
use crate::fraction::MulRatio;
use crate::fraction::Reciprocal;
use crate::numeral::Next;
use crate::numeral::Numeral;
use crate::numeral::One;
use crate::numeral::Prev;
use crate::numeral::Ratio;
use crate::numeral::Zero;
use crate::product::MulInt;
use crate::product::Product;
use crate::sign::lemma_positive;
use crate::sign::Negative;
use crate::sign::Positive;
use vstd::arithmetic::power::lemma0_pow;
use vstd::arithmetic::power::lemma1_pow;
use vstd::arithmetic::power::lemma_pow0;
use vstd::arithmetic::power::lemma_pow1;
use vstd::arithmetic::power::lemma_pow_adds;
use vstd::arithmetic::power::lemma_pow_positive;
use vstd::arithmetic::power::pow;
use vstd::math::abs;
use vstd::prelude::*;

verus! {

/// Type-level exponentiation.
pub trait Exp<T: Numeral>: Ratio {
    /// `Self` raised to the power of `T`.
    type Result: Ratio;

    /// For a normal exponent the result stands for the power, in lowest
    /// terms.
    proof fn exponent_value()
        requires
            T::normal(),
        ensures
            same_ratio(
                <Self::Result as Ratio>::numer(),
                <Self::Result as Ratio>::denom(),
                power_numer(Self::numer(), Self::denom(), T::value()),
                power_denom(Self::numer(), Self::denom(), T::value()),
            ),
            lowest_terms(<Self::Result as Ratio>::numer(), <Self::Result as Ratio>::denom()),
    ;
}

/// `T` raised to the power of `U`.
pub type Exponent<T, U> = <T as Exp<U>>::Result;

/// Any number to the power of 0 is 1.
proof fn lemma_power_zero(n: int, d: int)
    ensures
        same_ratio(1, 1, power_numer(n, d, 0), power_denom(n, d, 0)),
        lowest_terms(1, 1),
{
    lemma_pow0(n);
    lemma_pow0(d);
    lemma_integer_lowest_terms(1);
}

/// Zero to any power but 0 is zero.
proof fn lemma_power_of_zero(k: int)
    requires
        k != 0,
    ensures
        same_ratio(0, 1, power_numer(0, 1, k), power_denom(0, 1, k)),
        lowest_terms(0, 1),
{
    if k > 0 {
        lemma0_pow(k as nat);
        lemma1_pow(k as nat);
    }
    lemma_integer_lowest_terms(0);
}

/// One more factor: where `E` is the integer `B` to the power of `U`, the
/// product of `E` and `B` is `B` to the power of the successor of `U`.
proof fn lemma_integer_power_step<B, U>()
    where
        U: Numeral,
        B: Numeral + Exp<U>,
        Exponent<B, U>: MulInt<B>,
        Product<Exponent<B, U>, B>: Numeral,
    requires
        U::normal(),
        U::value() >= 0,
    ensures
        same_ratio(
            Product::<Exponent<B, U>, B>::numer(),
            Product::<Exponent<B, U>, B>::denom(),
            power_numer(B::numer(), B::denom(), U::value() + 1),
            power_denom(B::numer(), B::denom(), U::value() + 1),
        ),
        lowest_terms(
            Product::<Exponent<B, U>, B>::numer(),
            Product::<Exponent<B, U>, B>::denom(),
        ),
{
    let b = B::value();
    let u = U::value() as nat;
    B::integral();
    <B as Exp<U>>::exponent_value();
    <Exponent<B, U> as Numeral>::integral();
    <Exponent<B, U> as MulInt<B>>::product_value();
    <Product<Exponent<B, U>, B> as Numeral>::integral();
    lemma1_pow(u);
    lemma1_pow(u + 1);
    lemma_pow_adds(b, u, 1);
    lemma_pow1(b);
    let e = Exponent::<B, U>::value();
    let p = pow(b, u);
    assert(e == p) by (nonlinear_arith)
        requires
            e * 1 == p * 1,
    ;
    let r = Product::<Exponent<B, U>, B>::value();
    assert(r * 1 == pow(b, u + 1) * 1);
    lemma_integer_lowest_terms(r);
}

/// The reciprocal: where `E` is the integer `B` to the power of the positive
/// `K`, the reciprocal of `E` is `B` to the power of the negation of `K`.
proof fn lemma_integer_power_inverse<B, K>()
    where
        K: Numeral,
        B: Numeral + Exp<K>,
        Exponent<B, K>: Inverse,
    requires
        K::normal(),
        K::value() > 0,
    ensures
        same_ratio(
            Reciprocal::<Exponent<B, K>>::numer(),
            Reciprocal::<Exponent<B, K>>::denom(),
            power_numer(B::numer(), B::denom(), -K::value()),
            power_denom(B::numer(), B::denom(), -K::value()),
        ),
        lowest_terms(
            Reciprocal::<Exponent<B, K>>::numer(),
            Reciprocal::<Exponent<B, K>>::denom(),
        ),
{
    let b = B::value();
    let k = K::value() as nat;
    B::integral();
    <B as Exp<K>>::exponent_value();
    <Exponent<B, K> as Inverse>::reciprocal_value();
    lemma1_pow(k);
    let p = pow(b, k);
    let en = Exponent::<B, K>::numer();
    let ed = Exponent::<B, K>::denom();
    assert(en == p * ed) by (nonlinear_arith)
        requires
            en * 1 == p * ed,
    ;
    lemma_lowest_terms_integer(en, ed, p);
    if b == 0 {
        lemma0_pow(k);
    }
    let s = signum(p);
    assert(1 * s == s) by (nonlinear_arith);
    // the reciprocal is 1 or -1 over the absolute value of the power
    lemma_integer_lowest_terms(p);
    lemma_gcd_symmetric(abs(p), 1);
}

impl Exp<Zero> for Zero {
    type Result = One;

    proof fn exponent_value() {
        lemma_power_zero(0, 1);
    }
}

impl<T: Numeral> Exp<Zero> for Next<T> {
    type Result = One;

    proof fn exponent_value() {
        lemma_power_zero(Self::numer(), 1);
    }
}

impl<T: Numeral> Exp<Next<T>> for Zero {
    type Result = Zero;

    proof fn exponent_value() {
        lemma_power_of_zero(Next::<T>::value());
    }
}

impl<T: Numeral> Exp<Zero> for Prev<T> {
    type Result = One;

    proof fn exponent_value() {
        lemma_power_zero(Self::numer(), 1);
    }
}

impl<T: Numeral> Exp<Prev<T>> for Zero {
    type Result = Zero;

    proof fn exponent_value() {
        lemma_power_of_zero(Prev::<T>::value());
    }
}

/// A positive power of a positive integer: one more factor.
impl<T, U> Exp<Next<U>> for Next<T>
where
    T: Numeral,
    U: Numeral,
    Next<U>: Positive,
    Next<T>: Exp<U>,
    Exponent<Next<T>, U>: MulInt<Next<T>>,
    Product<Exponent<Next<T>, U>, Next<T>>: Numeral,
{
    type Result = Product<Exponent<Next<T>, U>, Next<T>>;

    proof fn exponent_value() {
        lemma_integer_power_step::<Next<T>, U>();
    }
}

/// A negative power of a positive integer: the reciprocal of the positive
/// power.
impl<T, U> Exp<Prev<U>> for Next<T>
where
    T: Numeral,
    U: Numeral,
    Prev<U>: Negative + Abs,
    Next<T>: Exp<Absolute<Prev<U>>>,
    Exponent<Next<T>, Absolute<Prev<U>>>: Inverse,
{
    type Result = Reciprocal<Exponent<Next<T>, Absolute<Prev<U>>>>;

    proof fn exponent_value() {
        <Prev<U> as Abs>::absolute_value();
        lemma_integer_power_inverse::<Next<T>, Absolute<Prev<U>>>();
    }
}

/// A positive power of a negative integer: one more factor.
impl<T, U> Exp<Next<U>> for Prev<T>
where
    T: Numeral,
    U: Numeral,
    Next<U>: Positive,
    Prev<T>: Exp<U>,
    Exponent<Prev<T>, U>: MulInt<Prev<T>>,
    Product<Exponent<Prev<T>, U>, Prev<T>>: Numeral,
{
    type Result = Product<Exponent<Prev<T>, U>, Prev<T>>;

    proof fn exponent_value() {
        lemma_integer_power_step::<Prev<T>, U>();
    }
}

/// A negative power of a negative integer: the reciprocal of the positive
/// power.
impl<T, U> Exp<Prev<U>> for Prev<T>
where
    T: Numeral,
    U: Numeral,
    Prev<U>: Negative + Abs,
    Prev<T>: Exp<Absolute<Prev<U>>>,
    Exponent<Prev<T>, Absolute<Prev<U>>>: Inverse,
{
    type Result = Reciprocal<Exponent<Prev<T>, Absolute<Prev<U>>>>;

    proof fn exponent_value() {
        <Prev<U> as Abs>::absolute_value();
        lemma_integer_power_inverse::<Prev<T>, Absolute<Prev<U>>>();
    }
}

impl<Num: Numeral, Dem: Numeral + Positive> Exp<Zero> for Fraction<Num, Dem> {
    type Result = One;

    proof fn exponent_value() {
        lemma_power_zero(Self::numer(), Self::denom());
    }
}

/// One more factor of a ratio: from `en / ed`, which is `n / d` to the power
/// of `t`, and from `rn / rd`, which is the product of `en / ed` and
/// `n / d`, to the power of `t + 1`.
proof fn lemma_ratio_power_step(n: int, d: int, t: nat, en: int, ed: int, rn: int, rd: int)
    requires
        ed > 0,
        same_ratio(en, ed, pow(n, t), pow(d, t)),
        same_ratio(rn, rd, en * n, ed * d),
    ensures
        same_ratio(rn, rd, pow(n, t + 1), pow(d, t + 1)),
{
    let pn = pow(n, t);
    let pd = pow(d, t);
    lemma_pow_adds(n, t, 1);
    lemma_pow_adds(d, t, 1);
    lemma_pow1(n);
    lemma_pow1(d);
    let qn = pn * n;
    let qd = pd * d;
    let x = rn * (ed * d);
    let y = (en * n) * rd;
    assert(x * pd == ed * (rn * qd)) by (nonlinear_arith)
        requires
            x == rn * (ed * d),
            qd == pd * d,
    ;
    assert(y * pd == ed * (qn * rd)) by (nonlinear_arith)
        requires
            y == (en * n) * rd,
            en * pd == pn * ed,
            qn == pn * n,
    ;
    assert(rn * qd == qn * rd) by (nonlinear_arith)
        requires
            ed * (rn * qd) == ed * (qn * rd),
            ed > 0,
    ;
}

/// The reciprocal of a ratio: from `en / ed`, which is `n / d` to the power
/// of the positive `k` in lowest terms and is not zero, to the power of
/// `-k`.
proof fn lemma_ratio_power_inverse(n: int, d: int, k: nat, en: int, ed: int)
    requires
        d > 0,
        k > 0,
        en != 0,
        lowest_terms(en, ed),
        same_ratio(en, ed, pow(n, k), pow(d, k)),
    ensures
        same_ratio(
            ed * signum(en),
            abs(en) as int,
            power_numer(n, d, -(k as int)),
            power_denom(n, d, -(k as int)),
        ),
        lowest_terms(ed * signum(en), abs(en) as int),
{
    let p = pow(n, k);
    let q = pow(d, k);
    lemma_pow_positive(d, k);
    if n == 0 {
        lemma0_pow(k);
        assert(false) by (nonlinear_arith)
            requires
                en * q == 0 * ed,
                q > 0,
                en != 0,
        ;
    }
    assert(signum(en) == signum(p)) by (nonlinear_arith)
        requires
            en * q == p * ed,
            q > 0,
            ed > 0,
    ;
    let s = signum(en);
    let a = abs(en) as int;
    let b = abs(p) as int;
    assert((ed * s) * b == (q * s) * a) by (nonlinear_arith)
        requires
            en * q == p * ed,
            s == 1 && a == en && b == p || s == -1 && a == -en && b == -p,
    ;
    assert(abs(ed * s) == ed) by (nonlinear_arith)
        requires
            s == 1 || s == -1,
            ed > 0,
    ;
    lemma_gcd_symmetric(abs(en), ed as nat);
}

/// A positive power of a fraction: one more factor.
impl<Num, Dem, T> Exp<Next<T>> for Fraction<Num, Dem>
where
    Num: Numeral,
    Dem: Numeral + Positive,
    T: Numeral,
    Fraction<Num, Dem>: Exp<T>,
    Exponent<Fraction<Num, Dem>, T>: MulRatio<Fraction<Num, Dem>>,
    Product<Exponent<Fraction<Num, Dem>, T>, Fraction<Num, Dem>>: Ratio,
{
    type Result = Product<Exponent<Fraction<Num, Dem>, T>, Fraction<Num, Dem>>;

    proof fn exponent_value() {
        <Self as Exp<T>>::exponent_value();
        <Exponent<Self, T> as MulRatio<Self>>::product_ratio();
        lemma_ratio_power_step(
            Num::value(),
            Dem::value(),
            T::value() as nat,
            Exponent::<Self, T>::numer(),
            Exponent::<Self, T>::denom(),
            <Self::Result as Ratio>::numer(),
            <Self::Result as Ratio>::denom(),
        );
    }
}

/// A negative power of a fraction: the reciprocal of the positive power.
impl<Num, Dem, T> Exp<Prev<T>> for Fraction<Num, Dem>
where
    Num: Numeral,
    Dem: Numeral + Positive,
    T: Numeral,
    Prev<T>: Negative + Abs,
    Fraction<Num, Dem>: Exp<Absolute<Prev<T>>>,
    Exponent<Fraction<Num, Dem>, Absolute<Prev<T>>>: Inverse,
{
    type Result = Reciprocal<Exponent<Fraction<Num, Dem>, Absolute<Prev<T>>>>;

    proof fn exponent_value() {
        <Prev<T> as Abs>::absolute_value();
        lemma_positive::<Dem>();
        Dem::integral();
        <Self as Exp<Absolute<Prev<T>>>>::exponent_value();
        <Exponent<Self, Absolute<Prev<T>>> as Inverse>::reciprocal_value();
        lemma_ratio_power_inverse(
            Num::value(),
            Dem::value(),
            Absolute::<Prev<T>>::value() as nat,
            Exponent::<Self, Absolute<Prev<T>>>::numer(),
            Exponent::<Self, Absolute<Prev<T>>>::denom(),
        );
    }
}

} // verus!
