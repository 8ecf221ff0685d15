use peano::Difference;
use peano::Eight;
use peano::Five;
use peano::Four;
use peano::Fraction;
use peano::GreatestCommonDivisor;
use peano::LeastCommonMultiple;
use peano::Negation;
use peano::Next;
use peano::One;
use peano::Product;
use peano::Quotient;
use peano::Reify;
use peano::Remainder;
use peano::Seven;
use peano::Six;
use peano::Sum;
use peano::Ten;
use peano::Three;
use peano::Two;

fn reify_i32<T: Reify<i32>>(_: T) -> i32 {
    T::reified()
}

fn reify_i32_i32<T: Reify<(i32, i32)>>(_: T) -> (i32, i32) {
    T::reified()
}

#[test]
fn neg() {
    assert_eq!(reify_i32(Negation::<Five>::new()), -5);
    assert_eq!(reify_i32(Negation::<Negation<Four>>::new()), 4);
}

#[test]
fn add() {
    assert_eq!(reify_i32(Sum::<One, Three>::new()), 4);
    assert_eq!(reify_i32(Sum::<Three, Negation<One>>::new()), 2);
    assert_eq!(reify_i32(Sum::<Three, Negation<Four>>::new()), -1);
    assert_eq!(reify_i32(Sum::<Negation<Two>, Four>::new()), 2);
    assert_eq!(reify_i32(Sum::<Negation<Five>, Three>::new()), -2);
    assert_eq!(
        reify_i32(Sum::<Negation<Seven>, Negation<Eight>>::new()),
        -15
    );
}

#[test]
fn mul() {
    assert_eq!(reify_i32(Product::<Seven, Eight>::new()), 56);
    assert_eq!(reify_i32(Product::<Three, Negation<Four>>::new()), -12);
    assert_eq!(reify_i32(Product::<Negation<Six>, Seven>::new()), -42);
    assert_eq!(
        reify_i32(Product::<Negation<Four>, Negation<Five>>::new()),
        20
    );
}

#[test]
fn sub() {
    assert_eq!(reify_i32(Difference::<Five, Two>::new()), 3);
    assert_eq!(reify_i32(Difference::<Three, Seven>::new()), -4);
}

#[test]
fn div() {
    assert_eq!(reify_i32(Quotient::<Six, Two>::new()), 3);
    assert_eq!(reify_i32(Remainder::<Six, Two>::new()), 0);
    assert_eq!(reify_i32(Quotient::<Six, Negation<Two>>::new()), -3);
    assert_eq!(reify_i32(Quotient::<Negation<Ten>, Two>::new()), -5);
    assert_eq!(
        reify_i32(Quotient::<Negation<Three>, Negation<One>>::new()),
        3
    );
    assert_eq!(reify_i32(Quotient::<Four, Three>::new()), 1);
    assert_eq!(reify_i32(Remainder::<Four, Three>::new()), 1);
    assert_eq!(reify_i32(Quotient::<Next<Ten>, Four>::new()), 2);
    assert_eq!(reify_i32(Remainder::<Next<Ten>, Four>::new()), 3);
    assert_eq!(reify_i32(Quotient::<Four, Four>::new()), 1);
    assert_eq!(reify_i32(Remainder::<Four, Four>::new()), 0);
}

#[test]
fn gcd() {
    assert_eq!(reify_i32(GreatestCommonDivisor::<Six, Three>::new()), 3);
    assert_eq!(reify_i32(GreatestCommonDivisor::<Ten, Three>::new()), 1);
    assert_eq!(reify_i32(GreatestCommonDivisor::<Five, Five>::new()), 5);
}

#[test]
fn lcm() {
    type TwentyOne = Sum<Product<Ten, Two>, One>;

    assert_eq!(reify_i32(LeastCommonMultiple::<TwentyOne, Six>::new()), 42);
    assert_eq!(reify_i32(LeastCommonMultiple::<Four, Four>::new()), 4);
}

#[test]
fn fraction() {
    assert_eq!(reify_i32_i32(Fraction::<Three, Two>::new()), (3, 2));
    assert_eq!(
        reify_i32_i32(Sum::<Fraction<One, Two>, Fraction<One, Three>>::new()),
        (5, 6)
    );
    assert_eq!(
        reify_i32_i32(Quotient::<Fraction<Two, Three>, Fraction<One, Three>>::new()),
        (2, 1)
    );
}

#[test]
fn rpn() {
    assert_eq!(reify_i32(Product::<Three, Sum<Four, Five>>::new()), 27);
}
