//! Writing whole numbers as decimal text.

use crate::rounding::{magnitude, magnitude_of};
use vstd::prelude::*;

verus! {

/// The character of a digit from 0 to 9.
pub open spec fn digit_char(d: int) -> char {
    if d == 0 {
        '0'
    } else if d == 1 {
        '1'
    } else if d == 2 {
        '2'
    } else if d == 3 {
        '3'
    } else if d == 4 {
        '4'
    } else if d == 5 {
        '5'
    } else if d == 6 {
        '6'
    } else if d == 7 {
        '7'
    } else if d == 8 {
        '8'
    } else {
        '9'
    }
}

/// The decimal digits of a number, without leading zeros; one zero for 0.
pub open spec fn digits_of(n: nat) -> Seq<char>
    decreases n,
{
    if n < 10 {
        seq![digit_char(n as int)]
    } else {
        digits_of(n / 10).push(digit_char((n % 10) as int))
    }
}

/// The decimal text of a number, with a minus sign where it is below zero.
pub open spec fn decimal_text(n: int) -> Seq<char> {
    if n < 0 {
        seq!['-'] + digits_of(magnitude(n))
    } else {
        digits_of(magnitude(n))
    }
}

/// The decimal text of a number with a zero in front where it would be a
/// single digit.
pub open spec fn two_digit_text(n: int) -> Seq<char> {
    if 0 <= n < 10 {
        seq!['0'] + decimal_text(n)
    } else {
        decimal_text(n)
    }
}

/// The character of a digit.
pub fn digit_to_char(d: u8) -> (r: char)
    requires
        d <= 9,
    ensures
        r == digit_char(d as int),
{
    if d == 0 {
        '0'
    } else if d == 1 {
        '1'
    } else if d == 2 {
        '2'
    } else if d == 3 {
        '3'
    } else if d == 4 {
        '4'
    } else if d == 5 {
        '5'
    } else if d == 6 {
        '6'
    } else if d == 7 {
        '7'
    } else if d == 8 {
        '8'
    } else {
        '9'
    }
}

/// The decimal digits of a number.
pub fn digits(n: u128) -> (r: Vec<char>)
    ensures
        r@ == digits_of(n as nat),
    decreases n,
{
    if n < 10 {
        let mut v: Vec<char> = Vec::new();
        v.push(digit_to_char(n as u8));
        v
    } else {
        let mut v = digits(n / 10);
        v.push(digit_to_char((n % 10) as u8));
        v
    }
}

/// The decimal text of a number.
pub fn write_number(n: i128) -> (r: Vec<char>)
    ensures
        r@ == decimal_text(n as int),
{
    let mut v: Vec<char> = Vec::new();
    if n < 0 {
        v.push('-');
    }
    let mut tail = digits(magnitude_of(n));
    let ghost head = v@;
    v.append(&mut tail);
    v
}

/// The decimal text of a number, two characters wide at least.
pub fn write_two_digits(n: i128) -> (r: Vec<char>)
    ensures
        r@ == two_digit_text(n as int),
{
    let mut v: Vec<char> = Vec::new();
    if 0 <= n && n < 10 {
        v.push('0');
    }
    let mut tail = write_number(n);
    v.append(&mut tail);
    v
}

} // verus!
