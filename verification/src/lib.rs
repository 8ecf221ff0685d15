//! Type-level numbers based on an extension of the Peano axioms.
//!
//! Every number is a type of its own: [`Zero`], the successor [`Next`] of a
//! number and the predecessor [`Prev`] of a number, and [`Fraction`] for the
//! ratio of two of them. Arithmetic is done by the compiler, which resolves
//! the result type of an operation from the types of its operands. What each
//! type stands for is given by [`Numeral::value`] and by [`Ratio::numer`] and
//! [`Ratio::denom`], and every operation carries a proof that its result type
//! stands for the right number.
//!
//! A number can be written with redundancies, as `Next<Prev<Zero>>` for zero.
//! [`Simplify`] removes them, and a number without them is called normal
//! ([`Ratio::normal`]). Negation, addition, subtraction and multiplication
//! are right for every number; division, the greatest common divisor and
//! what is built on them take the form of a number for its sign, and are
//! right for normal numbers.
//!
//! A value of such a type holds nothing. [`Reify`] converts a type to the
//! machine integer, or the pair of machine integers, that it stands for.

mod absolute;
mod arith;
mod difference;
mod exp;
mod fraction;
mod gcd;
mod lcm;
mod negation;
mod numeral;
mod product;
mod quotient;
mod reify;
mod sign;
mod simplify;
mod sum;
mod text;

pub use absolute::Abs;
pub use absolute::Absolute;
pub use arith::divides;
pub use arith::gcd;
pub use arith::lcm;
pub use arith::lemma_fraction_reduced;
pub use arith::lemma_gcd_divides;
pub use arith::lemma_gcd_greatest;
pub use arith::lemma_gcd_positive;
pub use arith::lemma_gcd_reduced;
pub use arith::lemma_gcd_scaled;
pub use arith::lemma_gcd_symmetric;
pub use arith::lemma_integer_lowest_terms;
pub use arith::lemma_lcm_least;
pub use arith::lemma_lcm_multiple;
pub use arith::lemma_lowest_terms_integer;
pub use arith::lowest_terms;
pub use arith::positive_remainder;
pub use arith::power_denom;
pub use arith::power_numer;
pub use arith::same_ratio;
pub use arith::signum;
pub use arith::truncated_quotient;
pub use difference::Difference;
pub use difference::SubInt;
pub use exp::Exp;
pub use exp::Exponent;
pub use fraction::AddRatio;
pub use fraction::Fraction;
pub use fraction::Inverse;
pub use fraction::MulRatio;
pub use fraction::Reciprocal;
pub use fraction::Sign;
pub use fraction::ToInt;
pub use gcd::Gcd;
pub use gcd::GcdInner;
pub use gcd::GreatestCommonDivisor;
pub use gcd::Reduce;
pub use lcm::Lcm;
pub use lcm::LeastCommonMultiple;
pub use negation::Negation;
pub use negation::NegInt;
pub use numeral::denom_of;
pub use numeral::Eight;
pub use numeral::Five;
pub use numeral::Four;
pub use numeral::Next;
pub use numeral::Nine;
pub use numeral::make;
pub use numeral::marker;
pub use numeral::numer_of;
pub use numeral::Numeral;
pub use numeral::One;
pub use numeral::Prev;
pub use numeral::Ratio;
pub use numeral::Sequence;
pub use numeral::Seven;
pub use numeral::Six;
pub use numeral::Ten;
pub use numeral::Three;
pub use numeral::Two;
pub use numeral::value_of;
pub use numeral::Zero;
pub use product::MulInt;
pub use product::Product;
pub use quotient::lemma_quotient_and_remainder;
pub use quotient::DivHelper;
pub use quotient::DivHelperOf;
pub use quotient::DivInt;
pub use quotient::Quotient;
pub use quotient::Remainder;
pub use quotient::RemInt;
pub use quotient::ToDivHelper;
pub use reify::Primitive;
pub use reify::Reify;
pub use reify::Runtime;
pub use reify::Signed;
pub use sign::lemma_negative;
pub use sign::lemma_positive;
pub use sign::Negative;
pub use sign::NonNegative;
pub use sign::NonPositive;
pub use sign::NonZero;
pub use sign::Positive;
pub use simplify::lemma_simplified_integer;
pub use simplify::Simplified;
pub use simplify::Simplify;
pub use sum::AddInt;
pub use sum::Sum;
pub use text::decimal;
pub use text::decimal_digits;
pub use text::decimal_of_i128;
pub use text::decimal_of_u128;
pub use text::digit_char;
