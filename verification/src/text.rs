//! The text of a number, in decimal digits.

use crate::fraction::Fraction;
use crate::numeral::Next;
use crate::numeral::Numeral;
use crate::numeral::Prev;
use crate::numeral::Zero;
use crate::reify::Reify;
use crate::sign::Positive;
use vstd::prelude::*;
use vstd::string::StringExecFns;

verus! {

/// The character of one decimal digit.
pub open spec fn digit_char(d: nat) -> char {
    if d == 0 {
        '0'
    } else if d == 1 {
        '1'
    } else if d == 2 {
        '2'
    } else if d == 3 {
        '3'
    } else if d == 4 {
        '4'
    } else if d == 5 {
        '5'
    } else if d == 6 {
        '6'
    } else if d == 7 {
        '7'
    } else if d == 8 {
        '8'
    } else {
        '9'
    }
}

/// The decimal digits of a natural number, without leading zeros.
pub open spec fn decimal_digits(n: nat) -> Seq<char>
    decreases n,
{
    if n < 10 {
        seq![digit_char(n)]
    } else {
        decimal_digits(n / 10).push(digit_char(n % 10))
    }
}

/// The decimal text of an integer: its digits, after a minus sign where it
/// is negative.
pub open spec fn decimal(i: int) -> Seq<char> {
    if i < 0 {
        seq!['-'] + decimal_digits((-i) as nat)
    } else {
        decimal_digits(i as nat)
    }
}

/// The text of one decimal digit.
fn digit_text(d: u8) -> (r: &'static str)
    requires
        d < 10,
    ensures
        r@ == seq![digit_char(d as nat)],
{
    proof {
        reveal_strlit("0");
        reveal_strlit("1");
        reveal_strlit("2");
        reveal_strlit("3");
        reveal_strlit("4");
        reveal_strlit("5");
        reveal_strlit("6");
        reveal_strlit("7");
        reveal_strlit("8");
        reveal_strlit("9");
    }
    let r = if d == 0 {
        "0"
    } else if d == 1 {
        "1"
    } else if d == 2 {
        "2"
    } else if d == 3 {
        "3"
    } else if d == 4 {
        "4"
    } else if d == 5 {
        "5"
    } else if d == 6 {
        "6"
    } else if d == 7 {
        "7"
    } else if d == 8 {
        "8"
    } else {
        "9"
    };
    assert(r@ =~= seq![digit_char(d as nat)]);
    r
}

/// Appends the decimal digits of `n` to `text`.
fn append_digits(n: u128, text: &mut String)
    ensures
        final(text)@ == old(text)@ + decimal_digits(n as nat),
    decreases n,
{
    if n >= 10 {
        append_digits(n / 10, text);
    }
    let ghost before = text@;
    let d: u8 = (n % 10) as u8;
    text.append(digit_text(d));
    proof {
        if n >= 10 {
            assert(before + seq![digit_char(d as nat)] =~= old(text)@ + decimal_digits(
                (n / 10) as nat,
            ).push(digit_char((n % 10) as nat)));
        }
    }
}

/// The decimal text of a number that is not negative.
pub fn decimal_of_u128(n: u128) -> (text: String)
    ensures
        text@ == decimal(n as int),
{
    let mut text = String::new();
    append_digits(n, &mut text);
    assert(Seq::<char>::empty() + decimal_digits(n as nat) =~= decimal_digits(n as nat));
    text
}

/// The decimal text of an integer.
pub fn decimal_of_i128(n: i128) -> (text: String)
    ensures
        text@ == decimal(n as int),
{
    if n >= 0 {
        decimal_of_u128(n as u128)
    } else {
        proof {
            reveal_strlit("-");
        }
        let mut text = String::from_str("-");
        let size: u128 = (-(n + 1)) as u128 + 1;
        append_digits(size, &mut text);
        assert(text@ =~= seq!['-'] + decimal_digits((-n) as nat));
        text
    }
}

impl Zero {
    /// The text of the number: `0`.
    pub fn to_string(&self) -> (text: String)
        ensures
            text@ == decimal(0),
    {
        decimal_of_u128(0)
    }
}

impl<T: Numeral> Next<T> where Self: Reify<u128> {
    /// The text of the number in decimal digits.
    pub fn to_string(&self) -> (text: String)
        requires
            <Self as Reify<u128>>::representable(),
        ensures
            text@ == decimal(Self::value()),
    {
        decimal_of_u128(<Self as Reify<u128>>::reified())
    }
}

impl<T: Numeral> Prev<T> where Self: Reify<i128> {
    /// The text of the number in decimal digits, after a minus sign where it
    /// is negative.
    pub fn to_string(&self) -> (text: String)
        requires
            <Self as Reify<i128>>::representable(),
        ensures
            text@ == decimal(Self::value()),
    {
        decimal_of_i128(<Self as Reify<i128>>::reified())
    }
}

impl<Num: Numeral, Dem: Numeral + Positive> Fraction<Num, Dem> where Self: Reify<(i128, i128)> {
    /// The text of the ratio: the numerator, a stroke and the denominator.
    pub fn to_string(&self) -> (text: String)
        requires
            <Self as Reify<(i128, i128)>>::representable(),
        ensures
            text@ == decimal(Num::value()) + seq!['/'] + decimal(Dem::value()),
    {
        let (num, dem) = <Self as Reify<(i128, i128)>>::reified();
        let mut text = decimal_of_i128(num);
        proof {
            reveal_strlit("/");
        }
        text.append("/");
        let denominator = decimal_of_i128(dem);
        text.append(denominator.as_str());
        text
    }
}

} // verus!
