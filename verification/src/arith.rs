//! The integer functions that the laws of the numbers are stated with.

use vstd::arithmetic::div_mod::lemma_add_mod_noop;
use vstd::arithmetic::div_mod::lemma_div_multiples_vanish;
use vstd::arithmetic::div_mod::lemma_fundamental_div_mod;
use vstd::arithmetic::div_mod::lemma_mod_multiples_basic;
use vstd::arithmetic::div_mod::lemma_mod_self_0;
use vstd::arithmetic::div_mod::lemma_small_mod;
use vstd::arithmetic::div_mod::lemma_truncate_middle;
use vstd::arithmetic::power::pow;
use vstd::prelude::*;

verus! {

/// The greatest common divisor of two natural numbers, by Euclid's rule.
/// It is 0 only where both numbers are.
pub open spec fn gcd(a: nat, b: nat) -> nat
    decreases b,
{
    if b == 0 {
        a
    } else {
        gcd(b, a % b)
    }
}

/// The least common multiple of two natural numbers. It is 0 where one of
/// the numbers is.
pub open spec fn lcm(a: nat, b: nat) -> nat {
    if a == 0 || b == 0 {
        0
    } else {
        a * b / gcd(a, b)
    }
}

/// Whether `d` is positive and divides `n`.
pub open spec fn divides(d: nat, n: nat) -> bool {
    d > 0 && n % d == 0
}

/// Whether `numer / denom` is a fraction in lowest terms: the denominator is
/// positive and has no divisor in common with the numerator but 1.
pub open spec fn lowest_terms(numer: int, denom: int) -> bool {
    denom > 0 && gcd(vstd::math::abs(numer), denom as nat) == 1
}

/// Whether `n1 / d1` and `n2 / d2` are the same number.
pub open spec fn same_ratio(n1: int, d1: int, n2: int, d2: int) -> bool {
    n1 * d2 == n2 * d1
}

/// The sign of an integer: -1, 0 or 1.
pub open spec fn signum(i: int) -> int {
    if i > 0 {
        1
    } else if i < 0 {
        -1
    } else {
        0
    }
}

/// The quotient of `a` and `b` rounded towards zero.
pub open spec fn truncated_quotient(a: int, b: int) -> int {
    if a >= 0 {
        if b >= 0 {
            a / b
        } else {
            -(a / (-b))
        }
    } else {
        if b >= 0 {
            -((-a) / b)
        } else {
            (-a) / (-b)
        }
    }
}

/// The remainder that a division of numbers yields: that of `a` by `b` where
/// both are positive, and 0 where one of them is not, as such a division is
/// taken to be exact.
pub open spec fn positive_remainder(a: int, b: int) -> int {
    if a > 0 && b > 0 {
        a % b
    } else {
        0
    }
}

/// The numerator of `n / d` to the power of `k`. For a negative `k` it is
/// that of the reciprocal of `n / d` to the power of `-k`, which carries the
/// sign; that of 0 is taken to be 0.
pub open spec fn power_numer(n: int, d: int, k: int) -> int {
    if k >= 0 {
        pow(n, k as nat)
    } else if n == 0 {
        0
    } else {
        pow(d, (-k) as nat) * signum(pow(n, (-k) as nat))
    }
}

/// The denominator of `n / d` to the power of `k`. For a negative `k` it is
/// that of the reciprocal of `n / d` to the power of `-k`, which is
/// positive; that of 0 is taken to be 0 over 1.
pub open spec fn power_denom(n: int, d: int, k: int) -> int {
    if k >= 0 {
        pow(d, k as nat)
    } else if n == 0 {
        1
    } else {
        vstd::math::abs(pow(n, (-k) as nat)) as int
    }
}

/// Every integer over 1 is in lowest terms.
pub proof fn lemma_integer_lowest_terms(n: int)
    ensures
        lowest_terms(n, 1),
{
    let a = vstd::math::abs(n);
    assert(a % 1 == 0);
    assert(gcd(1, 0) == 1);
    assert(gcd(a, 1) == gcd(1, a % 1));
}

/// The greatest common divisor does not depend on the order of the numbers.
pub proof fn lemma_gcd_symmetric(a: nat, b: nat)
    ensures
        gcd(a, b) == gcd(b, a),
{
    if a == 0 && b == 0 {
    } else if b == 0 {
        assert(0nat % a == 0);
        assert(gcd(0, a) == gcd(a, 0));
    } else if a == 0 {
        assert(0nat % b == 0);
        assert(gcd(0, b) == gcd(b, 0));
    } else if a < b {
        lemma_small_mod(a, b);
        assert(gcd(a, b) == gcd(b, a % b));
    } else if b < a {
        lemma_small_mod(b, a);
        assert(gcd(b, a) == gcd(a, b % a));
    }
}

/// The greatest common divisor is positive unless both numbers are 0.
pub proof fn lemma_gcd_positive(a: nat, b: nat)
    requires
        a > 0 || b > 0,
    ensures
        gcd(a, b) > 0,
    decreases b,
{
    if b != 0 {
        lemma_gcd_positive(b, a % b);
    }
}

/// The greatest common divisor divides both numbers.
pub proof fn lemma_gcd_divides(a: nat, b: nat)
    requires
        a > 0 || b > 0,
    ensures
        divides(gcd(a, b), a),
        divides(gcd(a, b), b),
    decreases b,
{
    lemma_gcd_positive(a, b);
    let g = gcd(a, b);
    if b == 0 {
        lemma_mod_self_0(a as int);
        assert(0nat % g == 0);
    } else {
        lemma_gcd_divides(b, a % b);
        // g divides b and a % b, and a == b * (a / b) + a % b
        lemma_fundamental_div_mod(a as int, b as int);
        lemma_multiple_divisible(g, b, (a / b) as int);
        lemma_sum_divisible(g, (b * (a / b)) as int, (a % b) as int);
    }
}

/// Every common divisor of two numbers divides their greatest common
/// divisor.
pub proof fn lemma_gcd_greatest(a: nat, b: nat, d: nat)
    requires
        divides(d, a),
        divides(d, b),
    ensures
        gcd(a, b) % d == 0,
    decreases b,
{
    if b != 0 {
        // a % b == a - b * (a / b)
        lemma_fundamental_div_mod(a as int, b as int);
        lemma_multiple_divisible(d, b, -((a / b) as int));
        assert(b * (-((a / b) as int)) == -(b * (a / b))) by (nonlinear_arith);
        lemma_sum_divisible(d, a as int, -(b * (a / b)));
        lemma_gcd_greatest(b, a % b, d);
    }
}

/// Two numbers divided by their greatest common divisor have no divisor in
/// common but 1.
pub proof fn lemma_gcd_reduced(a: nat, b: nat)
    requires
        a > 0 || b > 0,
    ensures
        gcd(a / gcd(a, b), b / gcd(a, b)) == 1,
{
    let g = gcd(a, b);
    lemma_gcd_positive(a, b);
    lemma_gcd_divides(a, b);
    let x = a / g;
    let y = b / g;
    lemma_fundamental_div_mod(a as int, g as int);
    lemma_fundamental_div_mod(b as int, g as int);
    assert(a == g * x);
    assert(b == g * y);
    assert(x > 0 || y > 0) by (nonlinear_arith)
        requires
            a == g * x,
            b == g * y,
            a > 0 || b > 0,
    ;
    let h = gcd(x, y);
    lemma_gcd_positive(x, y);
    lemma_gcd_divides(x, y);
    lemma_fundamental_div_mod(x as int, h as int);
    lemma_fundamental_div_mod(y as int, h as int);
    let hg = h * g;
    assert(a == hg * (x / h) && b == hg * (y / h) && hg > 0) by (nonlinear_arith)
        requires
            a == g * x,
            b == g * y,
            x == h * (x / h),
            y == h * (y / h),
            hg == h * g,
            h > 0,
            g > 0,
    ;
    lemma_mod_multiples_basic((x / h) as int, hg as int);
    lemma_mod_multiples_basic((y / h) as int, hg as int);
    assert(hg * (x / h) == (x / h) * hg) by (nonlinear_arith);
    assert(hg * (y / h) == (y / h) * hg) by (nonlinear_arith);
    lemma_gcd_greatest(a, b, hg);
    // g is a positive multiple of h * g, so h is 1
    lemma_fundamental_div_mod(g as int, hg as int);
    let k = g / hg;
    assert(h == 1) by (nonlinear_arith)
        requires
            g == hg * k,
            hg == h * g,
            h > 0,
            g > 0,
    ;
}

/// The least common multiple of two positive numbers is a positive multiple
/// of both.
pub proof fn lemma_lcm_multiple(a: nat, b: nat)
    requires
        a > 0,
        b > 0,
    ensures
        lcm(a, b) > 0,
        divides(a, lcm(a, b)),
        divides(b, lcm(a, b)),
        lcm(a, b) == a * (b / gcd(a, b)),
        lcm(a, b) == b * (a / gcd(a, b)),
{
    let g = gcd(a, b);
    lemma_gcd_positive(a, b);
    lemma_gcd_divides(a, b);
    lemma_fundamental_div_mod(a as int, g as int);
    lemma_fundamental_div_mod(b as int, g as int);
    let x = a / g;
    let y = b / g;
    let ay = a * y;
    let bx = b * x;
    assert(a * b == g * ay && a * b == g * bx && ay > 0 && ay == y * a && bx == x * b) by (nonlinear_arith)
        requires
            a == g * x,
            b == g * y,
            ay == a * y,
            bx == b * x,
            a > 0,
            b > 0,
            g > 0,
    ;
    lemma_div_multiples_vanish(ay as int, g as int);
    lemma_div_multiples_vanish(bx as int, g as int);
    assert(lcm(a, b) == ay);
    assert(lcm(a, b) == bx);
    lemma_mod_multiples_basic(y as int, a as int);
    lemma_mod_multiples_basic(x as int, b as int);
}

/// Every common multiple of two positive numbers is a multiple of their
/// least common multiple.
pub proof fn lemma_lcm_least(a: nat, b: nat, m: nat)
    requires
        divides(a, m),
        divides(b, m),
    ensures
        m % lcm(a, b) == 0,
{
    let g = gcd(a, b);
    let l = lcm(a, b);
    lemma_lcm_multiple(a, b);
    lemma_gcd_positive(a, b);
    // a * b divides both m * a and m * b, so it divides their greatest
    // common divisor, which is m * g
    lemma_multiple_divisible(a, m, b as int);
    lemma_multiple_divisible(b, m, a as int);
    lemma_fundamental_div_mod(m as int, a as int);
    lemma_fundamental_div_mod(m as int, b as int);
    let ab = a * b;
    assert(ab > 0 && m * b == (m / a) * ab && m * a == (m / b) * ab) by (nonlinear_arith)
        requires
            m == a * (m / a),
            m == b * (m / b),
            ab == a * b,
            a > 0,
            b > 0,
    ;
    lemma_mod_multiples_basic((m / a) as int, ab as int);
    lemma_mod_multiples_basic((m / b) as int, ab as int);
    lemma_gcd_greatest(m * a, m * b, ab);
    lemma_gcd_scaled(a, b, m);
    // m * g == k * (a * b), and a * b == l * g
    lemma_gcd_divides(a, b);
    lemma_fundamental_div_mod(b as int, g as int);
    lemma_fundamental_div_mod((m * g) as int, ab as int);
    let k = (m * g) / ab;
    assert(m == k * l) by (nonlinear_arith)
        requires
            m * g == ab * k,
            ab == a * b,
            b == g * (b / g),
            l == a * (b / g),
            g > 0,
    ;
    lemma_mod_multiples_basic(k as int, l as int);
}

/// Scaling two numbers scales their greatest common divisor.
pub proof fn lemma_gcd_scaled(a: nat, b: nat, m: nat)
    ensures
        gcd(m * a, m * b) == m * gcd(a, b),
    decreases b,
{
    if b == 0 {
        assert(m * b == 0) by (nonlinear_arith)
            requires
                b == 0,
        ;
    } else if m == 0 {
        assert(m * a == 0 && m * b == 0 && m * gcd(a, b) == 0) by (nonlinear_arith)
            requires
                m == 0,
        ;
    } else {
        assert(m * b > 0) by (nonlinear_arith)
            requires
                m > 0,
                b > 0,
        ;
        lemma_truncate_middle(a as int, m as int, b as int);
        lemma_gcd_scaled(b, a % b, m);
    }
}

/// A fraction in lowest terms that stands for an integer has the
/// denominator 1.
pub proof fn lemma_lowest_terms_integer(n: int, d: int, p: int)
    requires
        lowest_terms(n, d),
        n == p * d,
    ensures
        d == 1,
        n == p,
{
    let a = vstd::math::abs(n);
    let q = vstd::math::abs(p);
    assert(a == q * d) by (nonlinear_arith)
        requires
            n == p * d,
            d > 0,
            a == if n >= 0 { n } else { -n },
            q == if p >= 0 { p } else { -p },
    ;
    lemma_mod_multiples_basic(q as int, d);
    lemma_mod_self_0(d);
    lemma_gcd_greatest(a, d as nat, d as nat);
    if d > 1 {
        lemma_small_mod(1, d as nat);
    }
    assert(p * 1 == p) by (nonlinear_arith);
}

/// What is left of a fraction `n / d` when both parts are divided by their
/// greatest common divisor is the same number in lowest terms.
pub proof fn lemma_fraction_reduced(n: int, d: int)
    requires
        d > 0,
    ensures
        ({
            let g = gcd(vstd::math::abs(n), d as nat) as int;
            let numer = (vstd::math::abs(n) as int / g) * signum(n);
            let denom = d / g;
            same_ratio(numer, denom, n, d) && lowest_terms(numer, denom)
        }),
{
    let a = vstd::math::abs(n);
    let g = gcd(a, d as nat);
    lemma_gcd_positive(a, d as nat);
    lemma_gcd_divides(a, d as nat);
    lemma_gcd_reduced(a, d as nat);
    lemma_fundamental_div_mod(a as int, g as int);
    lemma_fundamental_div_mod(d, g as int);
    let x = a / g;
    let y = (d as nat) / g;
    let s = signum(n);
    assert(y > 0 && (x * s) * d == n * y) by (nonlinear_arith)
        requires
            a == g * x,
            d == g * y,
            d > 0,
            g > 0,
            a == if n >= 0 { n } else { -n },
            s == if n > 0 { 1int } else if n < 0 { -1int } else { 0int },
    ;
    assert(vstd::math::abs(x * s) == x) by (nonlinear_arith)
        requires
            x >= 0,
            a == g * x,
            g > 0,
            a == if n >= 0 { n } else { -n },
            s == if n > 0 { 1int } else if n < 0 { -1int } else { 0int },
    ;
}

/// A multiple of a number that `d` divides is divisible by `d`.
pub proof fn lemma_multiple_divisible(d: nat, n: nat, k: int)
    requires
        divides(d, n),
    ensures
        (n * k) % (d as int) == 0,
{
    lemma_fundamental_div_mod(n as int, d as int);
    let q = n / d;
    assert(n * k == (q * k) * d) by (nonlinear_arith)
        requires
            n == d * q,
    ;
    lemma_mod_multiples_basic(q * k, d as int);
}

/// The sum of two integers that are divisible by `d` is divisible by `d`.
pub proof fn lemma_sum_divisible(d: nat, x: int, y: int)
    requires
        d > 0,
        x % (d as int) == 0,
        y % (d as int) == 0,
    ensures
        (x + y) % (d as int) == 0,
{
    lemma_add_mod_noop(x, y, d as int);
    assert(0int % (d as int) == 0) by {
        lemma_small_mod(0, d);
    }
}

} // verus!
