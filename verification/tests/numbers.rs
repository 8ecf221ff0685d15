use peano::Absolute;
use peano::Difference;
use peano::Eight;
use peano::Exponent;
use peano::Five;
use peano::Four;
use peano::Fraction;
use peano::GreatestCommonDivisor;
use peano::Inverse;
use peano::LeastCommonMultiple;
use peano::Negation;
use peano::Next;
use peano::Nine;
use peano::One;
use peano::Prev;
use peano::Product;
use peano::Reciprocal;
use peano::Reify;
use peano::Sequence;
use peano::Seven;
use peano::Sign;
use peano::Simplified;
use peano::Six;
use peano::Sum;
use peano::Ten;
use peano::Three;
use peano::ToInt;
use peano::Two;
use peano::Zero;
use std::collections::hash_map::DefaultHasher;
use std::hash::Hash;
use std::hash::Hasher;

fn whole<T: Reify<i32>>(_: T) -> i32 {
    T::reified()
}

fn pair<T: Reify<(i32, i32)>>(_: T) -> (i32, i32) {
    T::reified()
}

fn hash_of<T: Hash>(value: &T) -> u64 {
    let mut hasher = DefaultHasher::new();
    value.hash(&mut hasher);
    hasher.finish()
}

#[test]
fn numerals_from_zero_to_ten() {
    assert_eq!(whole(Zero::new()), 0);
    assert_eq!(whole(One::new()), 1);
    assert_eq!(whole(Two::new()), 2);
    assert_eq!(whole(Three::new()), 3);
    assert_eq!(whole(Four::new()), 4);
    assert_eq!(whole(Five::new()), 5);
    assert_eq!(whole(Six::new()), 6);
    assert_eq!(whole(Seven::new()), 7);
    assert_eq!(whole(Eight::new()), 8);
    assert_eq!(whole(Nine::new()), 9);
    assert_eq!(whole(Ten::new()), 10);
}

#[test]
fn reify_into_each_machine_type() {
    assert_eq!(<Three as Reify<u8>>::reified(), 3u8);
    assert_eq!(<Three as Reify<u16>>::reified(), 3u16);
    assert_eq!(<Three as Reify<u32>>::reified(), 3u32);
    assert_eq!(<Three as Reify<u64>>::reified(), 3u64);
    assert_eq!(<Three as Reify<u128>>::reified(), 3u128);
    assert_eq!(<Three as Reify<usize>>::reified(), 3usize);
    assert_eq!(<Negation<Three> as Reify<i8>>::reified(), -3i8);
    assert_eq!(<Negation<Three> as Reify<i16>>::reified(), -3i16);
    assert_eq!(<Negation<Three> as Reify<i32>>::reified(), -3i32);
    assert_eq!(<Negation<Three> as Reify<i64>>::reified(), -3i64);
    assert_eq!(<Negation<Three> as Reify<i128>>::reified(), -3i128);
    assert_eq!(<Negation<Three> as Reify<isize>>::reified(), -3isize);
    assert_eq!(<Zero as Reify<u8>>::reified(), 0u8);
    assert_eq!(<Zero as Reify<i128>>::reified(), 0i128);
}

#[test]
fn reify_by_method() {
    let seven: i16 = Seven::new().reify();
    assert_eq!(seven, 7);
    let ratio: (u8, u8) = Fraction::<Seven, Two>::new().reify();
    assert_eq!(ratio, (7, 2));
    let ratio: (i64, i64) = Fraction::<Negation<Seven>, Two>::new().reify();
    assert_eq!(ratio, (-7, 2));
}

#[test]
fn numbers_beyond_a_machine_type() {
    type TopOfI8 = Sum<Product<Ten, Product<Six, Two>>, Seven>;
    assert_eq!(<TopOfI8 as Reify<i8>>::reified(), i8::MAX);
    assert_eq!(<TopOfI8 as Reify<i16>>::reified(), 127);
    assert_eq!(<TopOfI8 as Reify<u8>>::reified(), 127);
    assert_eq!(<Negation<TopOfI8> as Reify<i8>>::reified(), -127);
    assert_eq!(<Negation<TopOfI8> as Reify<i16>>::reified(), -127);
    assert_eq!(<Prev<Negation<TopOfI8>> as Reify<i8>>::reified(), i8::MIN);
    assert!(<Zero as Reify<u8>>::fits());
    assert!(<TopOfI8 as Reify<i8>>::fits());
    assert!(<TopOfI8 as Reify<u8>>::fits());
    assert!(!<Next<TopOfI8> as Reify<i8>>::fits());
    assert!(<Next<TopOfI8> as Reify<u8>>::fits());
    assert!(<Next<TopOfI8> as Reify<i16>>::fits());
    assert!(<Prev<Negation<TopOfI8>> as Reify<i8>>::fits());
    assert!(<Prev<Negation<TopOfI8>> as Reify<i16>>::fits());
    assert!(<Fraction<TopOfI8, Two> as Reify<(i8, i8)>>::fits());
    assert!(!<Fraction<Next<TopOfI8>, Two> as Reify<(i8, i8)>>::fits());
    let beyond = Next::<TopOfI8>::new();
    assert_eq!(<Next<TopOfI8> as Reify<i8>>::try_reify(&beyond), None);
    assert_eq!(<Next<TopOfI8> as Reify<i16>>::try_reify(&beyond), Some(128));
    assert_eq!(<Next<TopOfI8> as Reify<u8>>::try_reify(&beyond), Some(128));
    let ratio = Fraction::<Next<TopOfI8>, Two>::new();
    assert_eq!(
        <Fraction<Next<TopOfI8>, Two> as Reify<(i8, i8)>>::try_reify(&ratio),
        None
    );
    assert_eq!(
        <Fraction<Next<TopOfI8>, Two> as Reify<(i16, i16)>>::try_reify(&ratio),
        Some((128, 2))
    );
    let seven: Option<u8> = Seven::new().try_reify();
    assert_eq!(seven, Some(7));
}

#[test]
fn zero_into_each_machine_type() {
    assert_eq!(u8::from(Zero), 0);
    assert_eq!(u16::from(Zero), 0);
    assert_eq!(u32::from(Zero), 0);
    assert_eq!(u64::from(Zero), 0);
    assert_eq!(u128::from(Zero), 0);
    assert_eq!(usize::from(Zero), 0);
    assert_eq!(i8::from(Zero), 0);
    assert_eq!(i16::from(Zero), 0);
    assert_eq!(i32::from(Zero), 0);
    assert_eq!(i64::from(Zero), 0);
    assert_eq!(i128::from(Zero), 0);
    assert_eq!(isize::from(Zero), 0);
}

#[test]
fn neighbours_in_the_sequence() {
    assert_eq!(whole(<Zero as Sequence>::Next::new()), 1);
    assert_eq!(whole(<Zero as Sequence>::Prev::new()), -1);
    assert_eq!(whole(<Three as Sequence>::Next::new()), 4);
    assert_eq!(whole(<Three as Sequence>::Prev::new()), 2);
    assert_eq!(whole(<Negation<Three> as Sequence>::Next::new()), -2);
    assert_eq!(whole(<Negation<Three> as Sequence>::Prev::new()), -4);
}

#[test]
fn markers_are_plain_values() {
    assert_eq!(Zero::default(), Zero);
    assert_eq!(Three::default(), Three::new());
    assert_eq!(Negation::<Three>::default(), Negation::<Three>::new());
    assert_eq!(Fraction::<One, Two>::default(), Fraction::<One, Two>::new());
    let three = Three::new();
    let copy = three;
    assert_eq!(three.clone(), copy);
    assert_eq!(hash_of(&three), hash_of(&copy));
    assert_eq!(format!("{:?}", Zero), "Zero");
}

#[test]
fn simplification_of_numerals() {
    assert_eq!(whole(Simplified::<Zero>::new()), 0);
    assert_eq!(whole(Simplified::<One>::new()), 1);
    assert_eq!(whole(Simplified::<Negation<One>>::new()), -1);
    assert_eq!(whole(Simplified::<Five>::new()), 5);
    assert_eq!(whole(Simplified::<Negation<Five>>::new()), -5);
    assert_eq!(whole(Simplified::<Next<Prev<Zero>>>::new()), 0);
    assert_eq!(whole(Simplified::<Prev<Next<Zero>>>::new()), 0);
    assert_eq!(whole(Simplified::<Next<Prev<Next<Zero>>>>::new()), 1);
    assert_eq!(whole(Simplified::<Prev<Prev<Next<Zero>>>>::new()), -1);
    assert_eq!(Simplified::<Next<Next<Prev<Next<Zero>>>>>::new(), Two::new());
}

#[test]
fn simplification_of_fractions() {
    assert_eq!(pair(Simplified::<Fraction<Four, Six>>::new()), (2, 3));
    assert_eq!(pair(Simplified::<Fraction<Negation<Four>, Six>>::new()), (-2, 3));
    assert_eq!(pair(Simplified::<Fraction<Six, Three>>::new()), (2, 1));
    assert_eq!(pair(Simplified::<Fraction<Three, Seven>>::new()), (3, 7));
    assert_eq!(
        pair(Simplified::<Fraction<Next<Prev<Four>>, Next<Prev<Six>>>>::new()),
        (2, 3)
    );
}

#[test]
fn absolute_values() {
    assert_eq!(whole(Absolute::<Zero>::new()), 0);
    assert_eq!(whole(Absolute::<Three>::new()), 3);
    assert_eq!(whole(Absolute::<Negation<Three>>::new()), 3);
    assert_eq!(whole(Absolute::<Difference<Three, Seven>>::new()), 4);
    assert_eq!(whole(Absolute::<Prev<Prev<Next<Zero>>>>::new()), 1);
}

#[test]
fn signs() {
    assert_eq!(whole(<Five as Sign>::Result::new()), 1);
    assert_eq!(whole(<One as Sign>::Result::new()), 1);
    assert_eq!(whole(<Negation<Five> as Sign>::Result::new()), -1);
    assert_eq!(whole(<Negation<One> as Sign>::Result::new()), -1);
}

#[test]
fn greatest_common_divisors() {
    assert_eq!(whole(GreatestCommonDivisor::<Zero, Zero>::new()), 0);
    assert_eq!(whole(GreatestCommonDivisor::<Zero, Four>::new()), 4);
    assert_eq!(whole(GreatestCommonDivisor::<Four, Zero>::new()), 4);
    assert_eq!(whole(GreatestCommonDivisor::<One, One>::new()), 1);
    assert_eq!(whole(GreatestCommonDivisor::<Four, Six>::new()), 2);
    assert_eq!(whole(GreatestCommonDivisor::<Six, Four>::new()), 2);
    assert_eq!(whole(GreatestCommonDivisor::<Nine, Six>::new()), 3);
    assert_eq!(whole(GreatestCommonDivisor::<Seven, Ten>::new()), 1);
}

#[test]
fn least_common_multiples() {
    assert_eq!(whole(LeastCommonMultiple::<Zero, Zero>::new()), 0);
    assert_eq!(whole(LeastCommonMultiple::<Zero, Four>::new()), 0);
    assert_eq!(whole(LeastCommonMultiple::<Four, Zero>::new()), 0);
    assert_eq!(whole(LeastCommonMultiple::<Zero, Negation<Four>>::new()), 0);
    assert_eq!(whole(LeastCommonMultiple::<Negation<Four>, Zero>::new()), 0);
    assert_eq!(whole(LeastCommonMultiple::<Four, Six>::new()), 12);
    assert_eq!(whole(LeastCommonMultiple::<Four, Negation<Six>>::new()), 12);
    assert_eq!(whole(LeastCommonMultiple::<Negation<Four>, Six>::new()), 12);
    assert_eq!(
        whole(LeastCommonMultiple::<Negation<Four>, Negation<Six>>::new()),
        12
    );
    assert_eq!(whole(LeastCommonMultiple::<Three, Five>::new()), 15);
}

#[test]
fn powers_of_integers() {
    assert_eq!(whole(Exponent::<Zero, Zero>::new()), 1);
    assert_eq!(whole(Exponent::<Five, Zero>::new()), 1);
    assert_eq!(whole(Exponent::<Negation<Five>, Zero>::new()), 1);
    assert_eq!(whole(Exponent::<Zero, Three>::new()), 0);
    assert_eq!(whole(Exponent::<Zero, Negation<Three>>::new()), 0);
    assert_eq!(whole(Exponent::<Two, One>::new()), 2);
    assert_eq!(whole(Exponent::<Two, Three>::new()), 8);
    assert_eq!(whole(Exponent::<Three, Two>::new()), 9);
    assert_eq!(whole(Exponent::<Negation<Two>, Three>::new()), -8);
    assert_eq!(whole(Exponent::<Negation<Two>, Two>::new()), 4);
}

#[test]
fn negative_powers_of_integers() {
    assert_eq!(pair(Exponent::<Two, Negation<One>>::new()), (1, 2));
    assert_eq!(pair(Exponent::<Two, Negation<Two>>::new()), (1, 4));
    assert_eq!(pair(Exponent::<Negation<Two>, Negation<Two>>::new()), (1, 4));
    assert_eq!(pair(Exponent::<Negation<Two>, Negation<Three>>::new()), (-1, 8));
    assert_eq!(pair(Exponent::<One, Negation<Three>>::new()), (1, 1));
}

#[test]
fn powers_of_fractions() {
    assert_eq!(whole(Exponent::<Fraction<Two, Three>, Zero>::new()), 1);
}

#[test]
fn reciprocals() {
    assert_eq!(pair(Reciprocal::<Three>::new()), (1, 3));
    assert_eq!(pair(Reciprocal::<One>::new()), (1, 1));
    assert_eq!(pair(Reciprocal::<Negation<Three>>::new()), (-1, 3));
    assert_eq!(pair(Reciprocal::<Fraction<Two, Three>>::new()), (3, 2));
    assert_eq!(pair(Reciprocal::<Fraction<Negation<Two>, Three>>::new()), (-3, 2));
    assert_eq!(pair(Reciprocal::<Fraction<Two, Four>>::new()), (4, 2));
    assert_eq!(pair(<Five as Inverse>::Result::new()), (1, 5));
}

#[test]
fn fractions_to_integers() {
    assert_eq!(whole(<Zero as ToInt>::Result::new()), 0);
    assert_eq!(whole(<Three as ToInt>::Result::new()), 3);
    assert_eq!(whole(<Negation<Three> as ToInt>::Result::new()), -3);
    assert_eq!(whole(<Next<Prev<Three>> as ToInt>::Result::new()), 3);
    assert_eq!(whole(<Fraction<Six, Three> as ToInt>::Result::new()), 2);
    assert_eq!(whole(<Fraction<Six, One> as ToInt>::Result::new()), 6);
    assert_eq!(whole(<Fraction<Zero, Three> as ToInt>::Result::new()), 0);
    assert_eq!(whole(<Fraction<Negation<Six>, Three> as ToInt>::Result::new()), -2);
}
