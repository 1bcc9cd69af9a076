//! Amounts of money in hundredths of a currency's unit.

use crate::currency::Currency;
use crate::numbers::{digits, digits_of, two_digit_text, write_two_digits};
use crate::rounding::{magnitude, magnitude_of};
use crate::text::{chars_of, text_of};
use std::cmp::Ordering;
use vstd::prelude::*;
use vstd::std_specs::cmp::PartialOrdSpecImpl;

verus! {

/// A sum of money. Income is positive, an expense negative.
#[derive(Debug, Clone, PartialEq)]
pub struct Amount {
    pub currency: Currency,
    pub value: i64,
}

/// Amounts are ordered by their values, whatever their currencies.
impl PartialOrd for Amount {
    fn partial_cmp(&self, other: &Self) -> (r: Option<Ordering>) {
        if self.value < other.value {
            Some(Ordering::Less)
        } else if self.value > other.value {
            Some(Ordering::Greater)
        } else {
            Some(Ordering::Equal)
        }
    }
}

impl PartialOrdSpecImpl for Amount {
    open spec fn obeys_partial_cmp_spec() -> bool {
        true
    }

    open spec fn partial_cmp_spec(&self, other: &Self) -> Option<Ordering> {
        if self.value < other.value {
            Some(Ordering::Less)
        } else if self.value > other.value {
            Some(Ordering::Greater)
        } else {
            Some(Ordering::Equal)
        }
    }
}

/// A value in hundredths as text: the units, a point and two digits, with a
/// minus sign in front where the value is below zero.
pub open spec fn money_text(value: int) -> Seq<char> {
    (if value < 0 {
        seq!['-']
    } else {
        Seq::<char>::empty()
    }) + digits_of(magnitude(value) / 100) + seq!['.'] + two_digit_text(
        (magnitude(value) % 100) as int,
    )
}

/// A value in hundredths as text.
pub fn write_money(value: i128) -> (r: Vec<char>)
    ensures
        r@ == money_text(value as int),
{
    let size: u128 = magnitude_of(value);
    let mut out: Vec<char> = Vec::new();
    if value < 0 {
        out.push('-');
    }
    let mut units = digits(size / 100);
    out.append(&mut units);
    out.push('.');
    let mut rest = write_two_digits((size % 100) as i128);
    out.append(&mut rest);
    out
}

impl Amount {
    /// The amount as it is printed: the symbol of the currency, a blank and
    /// the value with two digits behind the point.
    pub open spec fn text(&self) -> Seq<char> {
        self.currency.symbol@ + seq![' '] + money_text(self.value as int)
    }

    /// The amount as it is printed.
    pub fn to_text(&self) -> (r: String)
        ensures
            r@ == self.text(),
    {
        let mut out = chars_of(self.currency.symbol.as_str());
        out.push(' ');
        let mut value = write_money(self.value as i128);
        out.append(&mut value);
        text_of(&out)
    }

    pub fn new(value: i64, currency: Currency) -> (r: Self)
        ensures
            r == (Amount { currency, value }),
    {
        Amount { currency, value }
    }

    pub fn currency(&self) -> (r: Currency)
        ensures
            r == self.currency,
    {
        self.currency.duplicate()
    }

    pub fn currency_ref(&self) -> (r: &Currency)
        ensures
            *r == self.currency,
    {
        &self.currency
    }

    pub fn value(&self) -> (r: i64)
        ensures
            r == self.value,
    {
        self.value
    }

    /// A copy of the amount.
    pub fn duplicate(&self) -> (r: Amount)
        ensures
            r == *self,
    {
        Amount { currency: self.currency.duplicate(), value: self.value }
    }

    /// Whether both amounts have the same value in the same currency.
    pub fn same_as(&self, other: &Amount) -> (r: bool)
        ensures
            r == (self.value == other.value && self.currency.iso@ == other.currency.iso@),
    {
        self.value == other.value && self.currency.same_as(&other.currency)
    }
}

} // verus!
