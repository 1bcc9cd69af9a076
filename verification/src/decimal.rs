//! Reading an amount of money from its decimal text.

use vstd::prelude::*;

verus! {

/// Whether the character is one of the ten digits.
pub open spec fn is_digit(c: char) -> bool {
    '0' <= c && c <= '9'
}

/// Whether the character parts the units from their fraction.
pub open spec fn is_point(c: char) -> bool {
    c == '.' || c == ','
}

/// The value of a digit.
pub open spec fn digit_of(c: char) -> int {
    c as int - '0' as int
}

/// The number that a text of digits stands for; 0 for the empty text.
pub open spec fn digits_value(s: Seq<char>) -> int
    decreases s.len(),
{
    if s.len() == 0 {
        0
    } else {
        digits_value(s.drop_last()) * 10 + digit_of(s.last())
    }
}

/// Whether every character is a digit.
pub open spec fn all_digits(s: Seq<char>) -> bool {
    forall|i: int| 0 <= i < s.len() ==> is_digit(#[trigger] s[i])
}

/// How many digits the text begins with.
pub open spec fn digit_count(s: Seq<char>) -> int
    decreases s.len(),
{
    if s.len() > 0 && is_digit(s[0]) {
        1 + digit_count(s.drop_first())
    } else {
        0
    }
}

/// The digit at a place of the fraction, 0 behind its end.
pub open spec fn fraction_digit(fraction: Seq<char>, place: int) -> int {
    if 0 <= place < fraction.len() {
        digit_of(fraction[place])
    } else {
        0
    }
}

/// The hundredths that a fraction stands for: its first two digits, and one
/// more where the third digit is 5 or above.
pub open spec fn hundredths(fraction: Seq<char>) -> int {
    fraction_digit(fraction, 0) * 10 + fraction_digit(fraction, 1) + if fraction_digit(
        fraction,
        2,
    ) >= 5 {
        1int
    } else {
        0int
    }
}

/// Whether the text begins with a sign.
pub open spec fn is_signed(s: Seq<char>) -> bool {
    s.len() > 0 && (s[0] == '-' || s[0] == '+')
}

/// The hundredths that an unsigned decimal text stands for: digits, then
/// perhaps a point and more digits, with one digit at least.
pub open spec fn unsigned_units(body: Seq<char>) -> Option<int> {
    let whole = body.take(digit_count(body));
    let rest = body.skip(digit_count(body));
    if rest.len() == 0 {
        if whole.len() > 0 {
            Some(digits_value(whole) * 100)
        } else {
            None
        }
    } else if is_point(rest[0]) && all_digits(rest.drop_first()) && whole.len() + rest.len() > 1 {
        Some(digits_value(whole) * 100 + hundredths(rest.drop_first()))
    } else {
        None
    }
}

/// The hundredths that a decimal text stands for, with its sign.
pub open spec fn decimal_units(s: Seq<char>) -> Option<int> {
    if is_signed(s) {
        match unsigned_units(s.drop_first()) {
            Some(v) => Some(
                if s[0] == '-' {
                    -v
                } else {
                    v
                },
            ),
            None => None,
        }
    } else {
        unsigned_units(s)
    }
}

/// The amount that a decimal text stands for, where it is one that an
/// amount and its opposite can hold.
pub open spec fn decimal_amount(s: Seq<char>) -> Option<i64> {
    match decimal_units(s) {
        Some(v) => if -i64::MAX <= v <= i64::MAX {
            Some(v as i64)
        } else {
            None
        },
        None => None,
    }
}

/// A text that begins with `n` digits and goes on with none has a digit
/// count of `n`.
proof fn digit_count_is(s: Seq<char>, n: int)
    requires
        0 <= n <= s.len(),
        forall|j: int| 0 <= j < n ==> is_digit(#[trigger] s[j]),
        n < s.len() ==> !is_digit(s[n]),
    ensures
        digit_count(s) == n,
    decreases n,
{
    if n > 0 {
        let rest = s.drop_first();
        assert(is_digit(s[0]));
        assert forall|j: int| 0 <= j < n - 1 implies is_digit(#[trigger] rest[j]) by {
            assert(rest[j] == s[j + 1]);
        }
        if n < s.len() {
            assert(rest[n - 1] == s[n]);
        }
        digit_count_is(rest, n - 1);
    }
}

/// Whether the character is one of the ten digits.
pub fn digit(c: char) -> (r: bool)
    ensures
        r == is_digit(c),
{
    '0' <= c && c <= '9'
}

/// The value of a digit.
pub fn digit_value(c: char) -> (r: u8)
    requires
        is_digit(c),
    ensures
        r == digit_of(c),
        r <= 9,
{
    (c as u32 - '0' as u32) as u8
}

/// The most that the units of an amount can be.
pub const MOST_UNITS: i128 = 92233720368547758;

/// The hundredths that an unsigned decimal text from `start` on stands for,
/// where they are within what an amount can hold.
fn read_unsigned(text: &Vec<char>, start: usize) -> (r: Option<i64>)
    requires
        start <= text.len(),
    ensures
        r == match unsigned_units(text@.skip(start as int)) {
            Some(v) => if v <= i64::MAX {
                Some(v as i64)
            } else {
                None
            },
            None => None,
        },
        r matches Some(v) ==> v >= 0,
        unsigned_units(text@.skip(start as int)) matches Some(v) ==> v >= 0,
{
    let ghost body = text@.skip(start as int);
    let mut units: i128 = 0;
    let mut too_large: bool = false;
    let mut k: usize = start;
    while k < text.len() && digit(text[k])
        invariant
            start <= k <= text.len(),
            body == text@.skip(start as int),
            forall|j: int| 0 <= j < k - start ==> is_digit(#[trigger] body[j]),
            !too_large ==> units == digits_value(body.take(k - start)) && 0 <= units <= MOST_UNITS,
            too_large ==> digits_value(body.take(k - start)) > MOST_UNITS,
        decreases text.len() - k,
    {
        let d: u8 = digit_value(text[k]);
        proof {
            assert(body[k - start] == text@[k as int]);
            assert(body.take(k - start + 1).drop_last() =~= body.take(k - start));
            assert(body.take(k - start + 1).last() == body[k - start]);
        }
        if !too_large {
            let next: i128 = units * 10 + d as i128;
            if next > MOST_UNITS {
                too_large = true;
            } else {
                units = next;
            }
        }
        k += 1;
    }
    let whole_len: usize = k - start;
    proof {
        if k < text.len() {
            assert(body[k - start] == text@[k as int]);
        }
        digit_count_is(body, k - start);
        assert(body.take(k - start).len() == k - start);
    }
    let ghost whole = body.take(k - start);
    let ghost rest = body.skip(k - start);
    if k == text.len() {
        if whole_len == 0 {
            return None;
        }
        if too_large {
            return None;
        }
        return Some((units * 100) as i64);
    }
    let point: char = text[k];
    proof {
        assert(rest[0] == text@[k as int]);
    }
    if !(point == '.' || point == ',') {
        return None;
    }
    let ghost fraction = rest.drop_first();
    proof {
        assert(fraction =~= text@.skip(k + 1));
    }
    let mut part: i128 = 0;
    let mut f: usize = k + 1;
    while f < text.len()
        invariant
            k + 1 <= f <= text.len(),
            start <= k < text.len(),
            body == text@.skip(start as int),
            digit_count(body) == k - start,
            rest == body.skip(k - start),
            fraction == rest.drop_first(),
            is_point(rest[0]),
            fraction == text@.skip(k + 1),
            forall|j: int| 0 <= j < f - (k + 1) ==> is_digit(#[trigger] fraction[j]),
            f - (k + 1) == 0 ==> part == 0,
            f - (k + 1) == 1 ==> part == fraction_digit(fraction, 0) * 10,
            f - (k + 1) == 2 ==> part == fraction_digit(fraction, 0) * 10 + fraction_digit(
                fraction,
                1,
            ),
            f - (k + 1) >= 3 ==> part == hundredths(fraction),
            0 <= part <= 100,
        decreases text.len() - f,
    {
        let c: char = text[f];
        proof {
            assert(fraction[f - (k + 1)] == text@[f as int]);
        }
        if !digit(c) {
            proof {
                assert(!is_digit(fraction[f - (k + 1)]));
                assert(!all_digits(fraction));
            }
            return None;
        }
        let d: u8 = digit_value(c);
        let place: usize = f - (k + 1);
        if place == 0 {
            part = d as i128 * 10;
        } else if place == 1 {
            part = part + d as i128;
        } else if place == 2 {
            if d >= 5 {
                part = part + 1;
            }
        }
        f += 1;
    }
    proof {
        assert(all_digits(fraction));
        assert(part == hundredths(fraction));
    }
    if whole_len + (text.len() - k) <= 1 {
        return None;
    }
    if too_large {
        return None;
    }
    let total: i128 = units * 100 + part;
    if total > i64::MAX as i128 {
        None
    } else {
        Some(total as i64)
    }
}

/// The amount that a decimal text stands for: an optional sign, digits, and
/// perhaps a point or a comma and more digits. The third digit behind the
/// point rounds the second; further digits are ignored.
pub fn parse_decimal(text: &Vec<char>) -> (r: Option<i64>)
    ensures
        r == decimal_amount(text@),
{
    if text.len() > 0 && (text[0] == '-' || text[0] == '+') {
        proof {
            assert(text@.skip(1) =~= text@.drop_first());
        }
        match read_unsigned(text, 1) {
            Some(v) => if text[0] == '-' {
                Some(-v)
            } else {
                Some(v)
            },
            None => None,
        }
    } else {
        proof {
            assert(text@.skip(0) =~= text@);
        }
        read_unsigned(text, 0)
    }
}

} // verus!
