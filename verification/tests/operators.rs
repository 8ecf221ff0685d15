use peano::Eight;
use peano::Five;
use peano::Four;
use peano::Fraction;
use peano::Next;
use peano::One;
use peano::Prev;
use peano::Reify;
use peano::Seven;
use peano::Six;
use peano::Ten;
use peano::Three;
use peano::Two;
use peano::Zero;

fn whole<T: Reify<i64>>(n: T) -> i64 {
    n.reify()
}

fn pair<T: Reify<(i64, i64)>>(q: T) -> (i64, i64) {
    q.reify()
}

#[test]
fn negation_of_values() {
    assert_eq!(whole(-Zero::new()), 0);
    assert_eq!(whole(-Five::new()), -5);
    assert_eq!(whole(-(-Four::new())), 4);
}

#[test]
fn sums_of_values() {
    assert_eq!(whole(Zero::new() + Zero::new()), 0);
    assert_eq!(whole(Three::new() + Zero::new()), 3);
    assert_eq!(whole(Zero::new() + Three::new()), 3);
    assert_eq!(whole(-Three::new() + Zero::new()), -3);
    assert_eq!(whole(Zero::new() + -Three::new()), -3);
    assert_eq!(whole(Three::new() + Four::new()), 7);
    assert_eq!(whole(Three::new() + -Four::new()), -1);
    assert_eq!(whole(-Three::new() + Four::new()), 1);
    assert_eq!(whole(-Three::new() + -Four::new()), -7);
}

#[test]
fn differences_of_values() {
    assert_eq!(whole(Zero::new() - Zero::new()), 0);
    assert_eq!(whole(Zero::new() - Three::new()), -3);
    assert_eq!(whole(Zero::new() - -Three::new()), 3);
    assert_eq!(whole(Three::new() - Zero::new()), 3);
    assert_eq!(whole(-Three::new() - Zero::new()), -3);
    assert_eq!(whole(Seven::new() - Four::new()), 3);
    assert_eq!(whole(Four::new() - Seven::new()), -3);
    assert_eq!(whole(Seven::new() - -Four::new()), 11);
    assert_eq!(whole(-Seven::new() - Four::new()), -11);
    assert_eq!(whole(-Seven::new() - -Four::new()), -3);
    assert_eq!(whole(-Four::new() - -Seven::new()), 3);
}

#[test]
fn products_of_values() {
    assert_eq!(whole(Zero::new() * Zero::new()), 0);
    assert_eq!(whole(Three::new() * Zero::new()), 0);
    assert_eq!(whole(Zero::new() * Three::new()), 0);
    assert_eq!(whole(-Three::new() * Zero::new()), 0);
    assert_eq!(whole(Zero::new() * -Three::new()), 0);
    assert_eq!(whole(One::new() * One::new()), 1);
    assert_eq!(whole(Six::new() * Seven::new()), 42);
    assert_eq!(whole(Six::new() * -Seven::new()), -42);
    assert_eq!(whole(-Six::new() * Seven::new()), -42);
    assert_eq!(whole(-Six::new() * -Seven::new()), 42);
    assert_eq!(whole(-One::new() * -One::new()), 1);
}

#[test]
fn quotients_of_values() {
    assert_eq!(whole(Zero::new() / Three::new()), 0);
    assert_eq!(whole(Zero::new() / -Three::new()), 0);
    assert_eq!(whole(Eight::new() / Two::new()), 4);
    assert_eq!(whole(Seven::new() / Two::new()), 3);
    assert_eq!(whole(Two::new() / Seven::new()), 0);
    assert_eq!(whole(Seven::new() / Seven::new()), 1);
    assert_eq!(whole(Eight::new() / -Two::new()), -4);
    assert_eq!(whole(-Eight::new() / Two::new()), -4);
    assert_eq!(whole(-Eight::new() / -Two::new()), 4);
    assert_eq!(whole(Seven::new() / -Two::new()), -3);
    assert_eq!(whole(-Seven::new() / Two::new()), -3);
    assert_eq!(whole(-Seven::new() / -Two::new()), 3);
}

#[test]
fn remainders_of_values() {
    assert_eq!(whole(Zero::new() % Three::new()), 0);
    assert_eq!(whole(Zero::new() % -Three::new()), 0);
    assert_eq!(whole(Eight::new() % Two::new()), 0);
    assert_eq!(whole(Seven::new() % Two::new()), 1);
    assert_eq!(whole(Two::new() % Seven::new()), 2);
    assert_eq!(whole(Ten::new() % Four::new()), 2);
    assert_eq!(whole(Eight::new() % -Two::new()), 0);
    assert_eq!(whole(-Eight::new() % Two::new()), 0);
    assert_eq!(whole(-Eight::new() % -Two::new()), 0);
    assert_eq!(whole(Seven::new() % -Two::new()), 0);
}

#[test]
fn numerals_with_redundancies() {
    let zero: Next<Prev<Zero>> = Next::new();
    assert_eq!(whole(zero), 0);
    let one: Prev<Next<Next<Zero>>> = Prev::new();
    assert_eq!(whole(one + Two::new()), 3);
    assert_eq!(whole(one * Two::new()), 2);
    assert_eq!(whole(-one), -1);
}

#[test]
fn sums_of_fractions() {
    let half: Fraction<One, Two> = Fraction::new();
    let third: Fraction<One, Three> = Fraction::new();
    let sixth: Fraction<One, Six> = Fraction::new();
    assert_eq!(pair(half + third), (5, 6));
    assert_eq!(pair(half + sixth), (2, 3));
    assert_eq!(pair(third + sixth), (1, 2));
    assert_eq!(pair(half + half), (1, 1));
    assert_eq!(pair(half + -third), (1, 6));
    assert_eq!(pair(-half + third), (-1, 6));
    assert_eq!(pair(half + Zero::new()), (1, 2));
    assert_eq!(pair(Zero::new() + half), (1, 2));
}

#[test]
fn differences_of_fractions() {
    let half: Fraction<One, Two> = Fraction::new();
    let third: Fraction<One, Three> = Fraction::new();
    assert_eq!(pair(half - third), (1, 6));
    assert_eq!(pair(third - half), (-1, 6));
    assert_eq!(pair(half - -third), (5, 6));
    assert_eq!(pair(half - Zero::new()), (1, 2));
    assert_eq!(pair(Zero::new() - half), (-1, 2));
}

#[test]
fn products_of_fractions() {
    let two_thirds: Fraction<Two, Three> = Fraction::new();
    let three_quarters: Fraction<Three, Four> = Fraction::new();
    assert_eq!(pair(two_thirds * three_quarters), (1, 2));
    assert_eq!(pair(two_thirds * two_thirds), (4, 9));
    assert_eq!(pair(-two_thirds * three_quarters), (-1, 2));
    assert_eq!(pair(-two_thirds * -three_quarters), (1, 2));
    assert_eq!(whole(two_thirds * Zero::new()), 0);
    assert_eq!(whole(Zero::new() * two_thirds), 0);
}

#[test]
fn quotients_of_fractions() {
    let two_thirds: Fraction<Two, Three> = Fraction::new();
    let third: Fraction<One, Three> = Fraction::new();
    let four_sixths: Fraction<Four, Six> = Fraction::new();
    assert_eq!(pair(two_thirds / third), (2, 1));
    assert_eq!(pair(third / two_thirds), (1, 2));
    assert_eq!(pair(third / -two_thirds), (-1, 2));
    assert_eq!(pair(-third / -two_thirds), (1, 2));
    assert_eq!(pair(two_thirds / four_sixths), (1, 1));
    assert_eq!(whole(Zero::new() / two_thirds), 0);
}

#[test]
fn negation_of_fractions() {
    let two_thirds: Fraction<Two, Three> = Fraction::new();
    let none: Fraction<Zero, Five> = Fraction::new();
    assert_eq!(pair(-two_thirds), (-2, 3));
    assert_eq!(pair(-(-two_thirds)), (2, 3));
    assert_eq!(pair(-none), (0, 5));
}
