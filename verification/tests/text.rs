use peano::decimal_of_i128;
use peano::decimal_of_u128;
use peano::Five;
use peano::Fraction;
use peano::Negation;
use peano::One;
use peano::Product;
use peano::Ten;
use peano::Three;
use peano::Two;
use peano::Zero;

#[test]
fn text_of_machine_integers() {
    assert_eq!(decimal_of_u128(0), "0");
    assert_eq!(decimal_of_u128(7), "7");
    assert_eq!(decimal_of_u128(10), "10");
    assert_eq!(decimal_of_u128(1234567890), "1234567890");
    assert_eq!(decimal_of_u128(u128::MAX), u128::MAX.to_string());
    assert_eq!(decimal_of_i128(0), "0");
    assert_eq!(decimal_of_i128(42), "42");
    assert_eq!(decimal_of_i128(-1), "-1");
    assert_eq!(decimal_of_i128(-907), "-907");
    assert_eq!(decimal_of_i128(i128::MAX), i128::MAX.to_string());
    assert_eq!(decimal_of_i128(i128::MIN), i128::MIN.to_string());
}

#[test]
fn text_of_numerals() {
    assert_eq!(Zero.to_string(), "0");
    assert_eq!(One::new().to_string(), "1");
    assert_eq!(Ten::new().to_string(), "10");
    assert_eq!(Product::<Ten, Ten>::new().to_string(), "100");
    assert_eq!(Negation::<One>::new().to_string(), "-1");
    assert_eq!(Negation::<Ten>::new().to_string(), "-10");
}

#[test]
fn text_of_fractions() {
    assert_eq!(Fraction::<Three, Two>::new().to_string(), "3/2");
    assert_eq!(Fraction::<Negation<Five>, Ten>::new().to_string(), "-5/10");
    assert_eq!(Fraction::<Zero, One>::new().to_string(), "0/1");
}
