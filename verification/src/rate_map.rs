//! Restating invoices with one rate for every day, as a service hands them
//! out: the price of one unit of the base currency on that day.

use crate::amount::Amount;
use crate::amount_converter::{converted_value, AmountConverter as DirectConverter};
use crate::calendar::{format_date, formatted_date};
use crate::currency::Currency;
use crate::date::Date;
use crate::error::Error;
use crate::exchange_rate::RATE_SCALE;
use crate::invoice::Invoice;
use crate::rate_provider::Rate;
use crate::rounding::{magnitude_of, round_div, round_ratio};
use vstd::prelude::*;
use vstd::string::StringExecFns;

verus! {

/// The base currency and the rates, one for a day.
pub struct AmountConverter {
    pub base_currency: Currency,
    pub rate_map: Vec<Rate>,
}

/// The place of the first rate of the day.
pub open spec fn first_rate_of_day(rates: Seq<Rate>, date: Date) -> Option<int>
    decreases rates.len(),
{
    if rates.len() == 0 {
        None
    } else if rates[0].date == date {
        Some(0)
    } else {
        match first_rate_of_day(rates.drop_first(), date) {
            Some(i) => Some(i + 1),
            None => None,
        }
    }
}

/// The value of `value` at the inverse of `rate`: the value divided by the
/// rate, rounded to the nearest hundredth, where the rate is not nothing
/// and an amount can hold the result.
pub open spec fn inverse_value(value: int, rate: int) -> Option<i64> {
    if rate != 0 && i64::MIN <= round_ratio(value * RATE_SCALE, rate) <= i64::MAX {
        Some(round_ratio(value * RATE_SCALE, rate) as i64)
    } else {
        None
    }
}

/// The value of an amount in the currency `to`. An amount in that currency
/// keeps its value. Any other is taken at the rate of the day where it is
/// stated in the base currency, and at the inverse of that rate where it is
/// not.
pub open spec fn value_in(
    amount: Amount,
    base_code: Seq<char>,
    to_code: Seq<char>,
    rate: Option<i64>,
) -> Option<i64> {
    if amount.currency.iso@ == to_code {
        Some(amount.value)
    } else {
        match rate {
            Some(r) => if amount.currency.iso@ == base_code {
                converted_value(amount.value as int, r as int)
            } else {
                inverse_value(amount.value as int, r as int)
            },
            None => None,
        }
    }
}

/// What `first_rate_of_day` finds is a rate of the day, and the first one.
pub proof fn first_rate_of_day_is_first(rates: Seq<Rate>, date: Date)
    ensures
        match first_rate_of_day(rates, date) {
            Some(i) => 0 <= i < rates.len() && rates[i].date == date && forall|j: int|
                0 <= j < i ==> rates[j].date != date,
            None => forall|j: int| 0 <= j < rates.len() ==> rates[j].date != date,
        },
    decreases rates.len(),
{
    if rates.len() != 0 && rates[0].date != date {
        let rest = rates.drop_first();
        first_rate_of_day_is_first(rest, date);
        match first_rate_of_day(rest, date) {
            Some(i) => {
                assert forall|j: int| 0 <= j < i + 1 implies rates[j].date != date by {
                    if j > 0 {
                        assert(rates[j] == rest[j - 1]);
                    }
                }
            },
            None => {
                assert forall|j: int| 0 <= j < rates.len() implies rates[j].date != date by {
                    if j > 0 {
                        assert(rates[j] == rest[j - 1]);
                    }
                }
            },
        }
    }
}

/// The text of the error for an amount that no stored amount can hold, or
/// for a rate of nothing.
pub open spec fn no_value_text() -> Seq<char> {
    "The converted amount cannot be told"@
}

/// The text of the error for a day without a rate.
pub open spec fn no_rate_text(symbol: Seq<char>, date: Date) -> Seq<char> {
    "Currency '"@ + symbol + "' not found in map for date "@ + formatted_date(date, "%Y-%m-%d"@)
}

impl AmountConverter {
    pub fn new(base_currency: Currency, rate_map: Vec<Rate>) -> (r: AmountConverter)
        ensures
            r.base_currency == base_currency,
            r.rate_map == rate_map,
    {
        AmountConverter { base_currency, rate_map }
    }

    /// The rate of a day, where there is one.
    pub fn rate_of_day(&self, date: &Date) -> (r: Option<i64>)
        ensures
            r == match first_rate_of_day(self.rate_map@, *date) {
                Some(i) => Some(self.rate_map@[i].rate),
                None => None,
            },
    {
        let mut i: usize = 0;
        while i < self.rate_map.len()
            invariant
                i <= self.rate_map.len(),
                forall|j: int| 0 <= j < i ==> self.rate_map@[j].date != *date,
            decreases self.rate_map.len() - i,
        {
            if self.rate_map[i].date == *date {
                proof {
                    first_rate_of_day_is_first(self.rate_map@, *date);
                }
                return Some(self.rate_map[i].rate);
            }
            i += 1;
        }
        proof {
            first_rate_of_day_is_first(self.rate_map@, *date);
        }
        None
    }

    /// The value of `value` at the inverse of `rate`.
    pub fn convert_value_inverse(value: i64, rate: i64) -> (r: Option<i64>)
        ensures
            r == inverse_value(value as int, rate as int),
    {
        if rate == 0 {
            return None;
        }
        let scaled: i128 = value as i128 * 1_000_000;
        let size: u128 = magnitude_of(scaled);
        let divisor: u128 = magnitude_of(rate as i128);
        let rounded: u128 = round_div(size, divisor);
        let negative: bool = (scaled < 0 && rate > 0) || (scaled > 0 && rate < 0);
        if negative {
            if rounded <= 0x8000_0000_0000_0000 {
                let below: i128 = -(rounded as i128);
                Some(below as i64)
            } else {
                None
            }
        } else {
            if rounded <= 0x7fff_ffff_ffff_ffff {
                Some(rounded as i64)
            } else {
                None
            }
        }
    }

    /// The amount in the currency `to`, at the rate of the invoice's day.
    pub fn convert(&self, invoice: &Invoice, amount: &Amount, to: &Currency) -> (r: Result<
        Amount,
        Error,
    >)
        requires
            invoice.date.well_formed(),
        ensures
            match value_in(
                *amount,
                self.base_currency.iso@,
                to.iso@,
                match first_rate_of_day(self.rate_map@, invoice.date) {
                    Some(i) => Some(self.rate_map@[i].rate),
                    None => None,
                },
            ) {
                Some(v) => r matches Ok(a) && a.value == v && a.currency == *to,
                None => r matches Err(Error::Rate(m)) && m@ == (if first_rate_of_day(
                    self.rate_map@,
                    invoice.date,
                ) is None {
                    no_rate_text(amount.currency.symbol@, invoice.date)
                } else {
                    no_value_text()
                }),
            },
    {
        if amount.currency.same_as(to) {
            return Ok(Amount::new(amount.value, to.duplicate()));
        }
        let rate = match self.rate_of_day(&invoice.date) {
            Some(f) => f,
            None => {
                let text = String::from_str("Currency '").concat(
                    amount.currency.symbol.as_str(),
                ).concat("' not found in map for date ").concat(
                    format_date(&invoice.date, "%Y-%m-%d").as_str(),
                );
                return Err(Error::Rate(text));
            },
        };
        let value = if amount.currency.same_as(&self.base_currency) {
            DirectConverter::convert_value(amount.value, rate)
        } else {
            AmountConverter::convert_value_inverse(amount.value, rate)
        };
        match value {
            Some(v) => Ok(Amount::new(v, to.duplicate())),
            None => Err(Error::Rate("The converted amount cannot be told".to_owned())),
        }
    }

    /// The amount in the base currency, at the rate of the invoice's day.
    pub fn convert_to_base(&self, invoice: &Invoice, amount: &Amount) -> (r: Result<Amount, Error>)
        requires
            invoice.date.well_formed(),
        ensures
            match value_in(
                *amount,
                self.base_currency.iso@,
                self.base_currency.iso@,
                match first_rate_of_day(self.rate_map@, invoice.date) {
                    Some(i) => Some(self.rate_map@[i].rate),
                    None => None,
                },
            ) {
                Some(v) => r matches Ok(a) && a.value == v && a.currency == self.base_currency,
                None => r is Err,
            },
    {
        self.convert(invoice, amount, &self.base_currency)
    }

    /// The invoice with its amount in the base currency as its base amount;
    /// a copy of the invoice as it is where that amount cannot be told.
    pub fn invoice_with_base_amount(&self, invoice: &Invoice) -> (r: Invoice)
        requires
            invoice.date.well_formed(),
        ensures
            match value_in(
                invoice.amount,
                self.base_currency.iso@,
                self.base_currency.iso@,
                match first_rate_of_day(self.rate_map@, invoice.date) {
                    Some(i) => Some(self.rate_map@[i].rate),
                    None => None,
                },
            ) {
                Some(v) => r.base_amount matches Some(a) && a.value == v && a.currency
                    == self.base_currency && r == (Invoice { base_amount: Some(a), ..*invoice }),
                None => r == *invoice,
            },
    {
        match self.convert_to_base(invoice, &invoice.amount) {
            Ok(a) => invoice.with_base_amount(a),
            Err(_) => invoice.duplicate(),
        }
    }
}

} // verus!
