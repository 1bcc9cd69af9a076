//! Rounded integer division, the arithmetic under every converted amount and share.

use vstd::prelude::*;

verus! {

/// The quotient of `m` by `d`, rounded to the nearest integer; a remainder of
/// exactly half the divisor rounds upwards.
pub open spec fn round_nat(m: nat, d: nat) -> nat
    recommends
        d > 0,
{
    if 2 * (m % d) >= d {
        m / d + 1
    } else {
        m / d
    }
}

/// The absolute value of `n`.
pub open spec fn magnitude(n: int) -> nat {
    if n >= 0 {
        n as nat
    } else {
        (-n) as nat
    }
}

/// Whether the quotient of `n` by `d` is below zero.
pub open spec fn ratio_is_negative(n: int, d: int) -> bool {
    (n < 0 && d > 0) || (n > 0 && d < 0)
}

/// The quotient of `n` by `d`, rounded to the nearest integer, halves away
/// from zero.
pub open spec fn round_ratio(n: int, d: int) -> int
    recommends
        d != 0,
{
    if ratio_is_negative(n, d) {
        -(round_nat(magnitude(n), magnitude(d)) as int)
    } else {
        round_nat(magnitude(n), magnitude(d)) as int
    }
}

/// The absolute value of `n` as an unsigned number.
pub fn magnitude_of(n: i128) -> (m: u128)
    ensures
        m == magnitude(n as int),
{
    if n >= 0 {
        n as u128
    } else {
        let below: i128 = -(n + 1);
        (below as u128) + 1
    }
}

/// Rounded division of unsigned numbers.
pub fn round_div(m: u128, d: u128) -> (q: u128)
    requires
        d > 0,
    ensures
        q == round_nat(m as nat, d as nat),
        q <= m,
{
    let whole: u128 = m / d;
    let rest: u128 = m % d;
    assert(m == d * whole + rest) by (nonlinear_arith)
        requires
            whole == m / d,
            rest == m % d,
            d > 0,
    ;
    if rest >= d - rest {
        assert(whole < m) by (nonlinear_arith)
            requires
                m == d * whole + rest,
                rest >= d - rest,
                rest < d,
                d > 0,
        ;
        whole + 1
    } else {
        assert(whole <= m) by (nonlinear_arith)
            requires
                m == d * whole + rest,
                d > 0,
        ;
        whole
    }
}

} // verus!
