//! Rates from a service that answers with one rate for every day and
//! currency: the address to ask, and the rates in an answer.

use crate::calendar::{format_date, formatted_date, parse_date, parsed_date};
use crate::date::Date;
use crate::text::{chars_of, text_of};
use vstd::prelude::*;

verus! {

pub struct RateProvider {}

/// The rate of a currency on a day, in millionths.
#[derive(Debug)]
pub struct Rate {
    pub date: Date,
    pub currency: String,
    pub rate: i64,
}

/// The texts with commas between them.
pub open spec fn joined(symbols: Seq<&str>) -> Seq<char>
    decreases symbols.len(),
{
    if symbols.len() == 0 {
        Seq::empty()
    } else if symbols.len() == 1 {
        symbols[0]@
    } else {
        joined(symbols.drop_last()) + seq![','] + symbols.last()@
    }
}

/// The address that answers with the rates of the currencies from the
/// first day to the last.
pub open spec fn request_url(start: Date, end: Date, symbols: Seq<&str>) -> Seq<char> {
    "https://api.exchangerate.host/timeseries?start_date="@ + formatted_date(start, "%Y-%m-%d"@)
        + "&end_date="@ + formatted_date(end, "%Y-%m-%d"@) + "&symbols="@ + joined(symbols)
}

/// The rates of a day: for every currency with a rate, in the order of the
/// currencies.
pub open spec fn rates_of_day(date: Date, symbols: Seq<&str>, rates: Seq<Option<i64>>) -> Seq<
    (Date, Seq<char>, i64),
>
    decreases symbols.len(),
{
    if symbols.len() == 0 || symbols.len() != rates.len() {
        Seq::empty()
    } else {
        match rates.last() {
            Some(rate) => rates_of_day(date, symbols.drop_last(), rates.drop_last()).push(
                (date, symbols.last()@, rate),
            ),
            None => rates_of_day(date, symbols.drop_last(), rates.drop_last()),
        }
    }
}

/// The rates as plain values: the day, the currency and the rate of each.
pub open spec fn rate_views(rates: Seq<Rate>) -> Seq<(Date, Seq<char>, i64)> {
    rates.map_values(|r: Rate| (r.date, r.currency@, r.rate))
}

impl Rate {
    pub fn new(date: Date, currency: &str, rate: i64) -> (r: Self)
        ensures
            r.date == date,
            r.currency@ == currency@,
            r.rate == rate,
    {
        Rate { currency: currency.to_owned(), rate, date }
    }
}

impl RateProvider {
    /// The address to ask for the rates.
    pub fn build_request_url(start: &Date, end: &Date, symbols: &[&str]) -> (r: String)
        requires
            start.well_formed(),
            end.well_formed(),
        ensures
            r@ == request_url(*start, *end, symbols@),
    {
        let mut out = chars_of("https://api.exchangerate.host/timeseries?start_date=");
        let mut first = chars_of(format_date(start, "%Y-%m-%d").as_str());
        out.append(&mut first);
        let mut middle = chars_of("&end_date=");
        out.append(&mut middle);
        let mut last = chars_of(format_date(end, "%Y-%m-%d").as_str());
        out.append(&mut last);
        let mut tail = chars_of("&symbols=");
        out.append(&mut tail);
        let ghost head = out@;
        let mut i: usize = 0;
        proof {
            assert(symbols@.take(0) =~= Seq::<&str>::empty());
            assert(head + joined(symbols@.take(0)) =~= head);
        }
        while i < symbols.len()
            invariant
                i <= symbols.len(),
                out@ == head + joined(symbols@.take(i as int)),
            decreases symbols.len() - i,
        {
            let ghost before = joined(symbols@.take(i as int));
            proof {
                assert(symbols@.take(i + 1).drop_last() =~= symbols@.take(i as int));
                assert(symbols@.take(i + 1).last() == symbols@[i as int]);
            }
            if i > 0 {
                out.push(',');
            }
            let mut symbol = chars_of(symbols[i]);
            out.append(&mut symbol);
            proof {
                if i > 0 {
                    assert(out@ =~= head + (before + seq![','] + symbols@[i as int]@));
                } else {
                    assert(before =~= Seq::<char>::empty());
                    assert(out@ =~= head + symbols@[i as int]@);
                }
            }
            i += 1;
        }
        proof {
            assert(symbols@.take(i as int) =~= symbols@);
        }
        text_of(&out)
    }

    /// The rates of one day of an answer: one for every currency that the
    /// answer has a rate for; none where the text of the day is no date.
    /// `rates` holds what the answer says of each currency, in the order of
    /// `symbols`.
    pub fn build_rate(symbols: &[&str], raw_date: &str, rates: &Vec<Option<i64>>) -> (r: Vec<Rate>)
        requires
            symbols.len() == rates.len(),
        ensures
            match parsed_date(raw_date@, "%Y-%m-%d"@) {
                Some(date) => rate_views(r@) == rates_of_day(date, symbols@, rates@),
                None => r.len() == 0,
            },
    {
        let date = match parse_date(raw_date, "%Y-%m-%d") {
            Ok(d) => d,
            Err(_) => return Vec::new(),
        };
        let mut found: Vec<Rate> = Vec::new();
        let mut i: usize = 0;
        proof {
            assert(symbols@.take(0) =~= Seq::<&str>::empty());
            assert(rate_views(found@) =~= rates_of_day(date, symbols@.take(0), rates@.take(0)));
        }
        while i < symbols.len()
            invariant
                i <= symbols.len(),
                symbols.len() == rates.len(),
                rate_views(found@) == rates_of_day(
                    date,
                    symbols@.take(i as int),
                    rates@.take(i as int),
                ),
            decreases symbols.len() - i,
        {
            let ghost before = found@;
            proof {
                assert(symbols@.take(i + 1).drop_last() =~= symbols@.take(i as int));
                assert(rates@.take(i + 1).drop_last() =~= rates@.take(i as int));
                assert(symbols@.take(i + 1).last() == symbols@[i as int]);
                assert(rates@.take(i + 1).last() == rates@[i as int]);
            }
            if let Some(rate) = rates[i] {
                found.push(Rate::new(date, symbols[i], rate));
                proof {
                    assert(rate_views(found@) =~= rate_views(before).push(
                        (date, symbols@[i as int]@, rate),
                    ));
                }
            }
            i += 1;
        }
        proof {
            assert(symbols@.take(i as int) =~= symbols@);
            assert(rates@.take(i as int) =~= rates@);
        }
        found
    }
}

} // verus!
