//! Exchange rates by year, month and day, and the choice of the rate that
//! fits a date best.

use crate::currency::Currency;
use crate::text::same_text;
use crate::transaction::Transaction;
use vstd::prelude::*;

verus! {

/// In the month or the day of a rate: the rate holds for every month, or for
/// every day.
pub const ANY: i64 = -1;

/// How many parts of `rate` make a rate of one.
pub const RATE_SCALE: i64 = 1_000_000;

/// The price of one unit of `currency` in units of `base_currency`, in
/// millionths, for a day, for a month (`day` is `ANY`) or for a year (`month`
/// and `day` are `ANY`).
#[derive(Clone, Debug, PartialEq)]
pub struct ExchangeRate {
    pub year: i32,
    pub month: i64,
    pub day: i64,
    pub base_currency: Currency,
    pub currency: Currency,
    pub rate: i64,
}

/// The rates that are known.
pub struct ExchangeRateProvider {
    pub exchange_rates: Vec<ExchangeRate>,
}

/// Whether a rate is stated for exactly this currency, year, month and day.
pub open spec fn is_rate_for(rate: ExchangeRate, code: Seq<char>, year: int, month: int, day: int)
    -> bool {
    rate.currency.iso@ == code && rate.year == year && rate.month == month && rate.day == day
}

/// The place of the first rate that is stated for exactly this currency,
/// year, month and day.
pub open spec fn first_rate_for(
    rates: Seq<ExchangeRate>,
    code: Seq<char>,
    year: int,
    month: int,
    day: int,
) -> Option<int>
    decreases rates.len(),
{
    if rates.len() == 0 {
        None
    } else if is_rate_for(rates[0], code, year, month, day) {
        Some(0)
    } else {
        match first_rate_for(rates.drop_first(), code, year, month, day) {
            Some(i) => Some(i + 1),
            None => None,
        }
    }
}

/// The place of the rate that fits a date best: the rate of the day; where
/// there is none, the rate of the month; where there is none either, the rate
/// of the year.
pub open spec fn best_rate_for(
    rates: Seq<ExchangeRate>,
    code: Seq<char>,
    year: int,
    month: int,
    day: int,
) -> Option<int> {
    if first_rate_for(rates, code, year, month, day) is Some {
        first_rate_for(rates, code, year, month, day)
    } else if first_rate_for(rates, code, year, month, ANY as int) is Some {
        first_rate_for(rates, code, year, month, ANY as int)
    } else {
        first_rate_for(rates, code, year, ANY as int, ANY as int)
    }
}

/// What `first_rate_for` finds is a rate for the date, and the first one.
pub proof fn first_rate_is_first(
    rates: Seq<ExchangeRate>,
    code: Seq<char>,
    year: int,
    month: int,
    day: int,
)
    ensures
        match first_rate_for(rates, code, year, month, day) {
            Some(i) => 0 <= i < rates.len() && is_rate_for(rates[i], code, year, month, day)
                && forall|j: int| 0 <= j < i ==> !is_rate_for(rates[j], code, year, month, day),
            None => forall|j: int|
                0 <= j < rates.len() ==> !is_rate_for(rates[j], code, year, month, day),
        },
    decreases rates.len(),
{
    if rates.len() != 0 && !is_rate_for(rates[0], code, year, month, day) {
        let rest = rates.drop_first();
        first_rate_is_first(rest, code, year, month, day);
        match first_rate_for(rest, code, year, month, day) {
            Some(i) => {
                assert forall|j: int| 0 <= j < i + 1 implies !is_rate_for(
                    rates[j],
                    code,
                    year,
                    month,
                    day,
                ) by {
                    if j > 0 {
                        assert(rates[j] == rest[j - 1]);
                    }
                }
            },
            None => {
                assert forall|j: int| 0 <= j < rates.len() implies !is_rate_for(
                    rates[j],
                    code,
                    year,
                    month,
                    day,
                ) by {
                    if j > 0 {
                        assert(rates[j] == rest[j - 1]);
                    }
                }
            },
        }
    }
}

/// Where there are rates of the day, of the month and of the year for one
/// currency, the rate of the day is chosen.
pub proof fn best_rate_prefers_the_day(
    rates: Seq<ExchangeRate>,
    code: Seq<char>,
    year: int,
    month: int,
    day: int,
    of_day: int,
)
    requires
        month != ANY,
        day != ANY,
        0 <= of_day < rates.len(),
        is_rate_for(rates[of_day], code, year, month, day),
    ensures
        best_rate_for(rates, code, year, month, day) matches Some(i) && 0 <= i <= of_day
            && is_rate_for(rates[i], code, year, month, day),
{
    first_rate_is_first(rates, code, year, month, day);
    if first_rate_for(rates, code, year, month, day) is None {
        assert(!is_rate_for(rates[of_day], code, year, month, day));
    }
    let i = first_rate_for(rates, code, year, month, day).unwrap();
    if i > of_day {
        assert(!is_rate_for(rates[of_day], code, year, month, day));
    }
}

/// Where there is no rate of the day, the rate of the month is chosen before
/// the rate of the year.
pub proof fn best_rate_prefers_the_month(
    rates: Seq<ExchangeRate>,
    code: Seq<char>,
    year: int,
    month: int,
    day: int,
    of_month: int,
)
    requires
        month != ANY,
        day != ANY,
        forall|j: int| 0 <= j < rates.len() ==> !is_rate_for(rates[j], code, year, month, day),
        0 <= of_month < rates.len(),
        is_rate_for(rates[of_month], code, year, month, ANY as int),
    ensures
        best_rate_for(rates, code, year, month, day) matches Some(i) && 0 <= i <= of_month
            && is_rate_for(rates[i], code, year, month, ANY as int),
{
    first_rate_is_first(rates, code, year, month, day);
    first_rate_is_first(rates, code, year, month, ANY as int);
    match first_rate_for(rates, code, year, month, day) {
        Some(k) => {
            assert(!is_rate_for(rates[k], code, year, month, day));
        },
        None => {},
    }
    if first_rate_for(rates, code, year, month, ANY as int) is None {
        assert(!is_rate_for(rates[of_month], code, year, month, ANY as int));
    }
    let i = first_rate_for(rates, code, year, month, ANY as int).unwrap();
    if i > of_month {
        assert(!is_rate_for(rates[of_month], code, year, month, ANY as int));
    }
}

/// Without a rate of the day the rate of the month is chosen, and without
/// either the rate of the year.
pub proof fn best_rate_falls_back(
    rates: Seq<ExchangeRate>,
    code: Seq<char>,
    year: int,
    month: int,
    day: int,
)
    ensures
        ({
            let exact = first_rate_for(rates, code, year, month, day);
            let monthly = first_rate_for(rates, code, year, month, ANY as int);
            let yearly = first_rate_for(rates, code, year, ANY as int, ANY as int);
            let best = best_rate_for(rates, code, year, month, day);
            &&& exact is Some ==> best == exact
            &&& exact is None && monthly is Some ==> best == monthly
            &&& exact is None && monthly is None ==> best == yearly
            &&& best matches Some(i) ==> 0 <= i < rates.len() && rates[i].currency.iso@ == code
                && rates[i].year == year
        }),
{
    first_rate_is_first(rates, code, year, month, day);
    first_rate_is_first(rates, code, year, month, ANY as int);
    first_rate_is_first(rates, code, year, ANY as int, ANY as int);
}

impl ExchangeRate {
    /// A copy of the rate.
    pub fn duplicate(&self) -> (r: ExchangeRate)
        ensures
            r == *self,
    {
        ExchangeRate {
            year: self.year,
            month: self.month,
            day: self.day,
            base_currency: self.base_currency.duplicate(),
            currency: self.currency.duplicate(),
            rate: self.rate,
        }
    }
}

impl ExchangeRateProvider {
    pub fn new(exchange_rates: Vec<ExchangeRate>) -> (r: Self)
        ensures
            r.exchange_rates == exchange_rates,
    {
        Self { exchange_rates }
    }

    /// The rate that fits the transaction's date and currency best: the rate
    /// of the day, else the rate of the month, else the rate of the year.
    pub fn find_exchange_rate(&self, transaction: &Transaction) -> (r: Option<ExchangeRate>)
        ensures
            r == match best_rate_for(
                self.exchange_rates@,
                transaction.amount.currency.iso@,
                transaction.date.year as int,
                transaction.date.month as int,
                transaction.date.day as int,
            ) {
                Some(i) => Some(self.exchange_rates@[i]),
                None => None,
            },
    {
        let date = transaction.date;
        let currency = transaction.amount.currency.iso.as_str();
        let exchange_rate = self.find_by_date_configuration(
            currency,
            date.year,
            date.month as i64,
            date.day as i64,
        );
        if exchange_rate.is_some() {
            return exchange_rate;
        }
        let exchange_rate = self.find_by_date_configuration(
            currency,
            date.year,
            date.month as i64,
            ANY,
        );
        if exchange_rate.is_some() {
            return exchange_rate;
        }
        self.find_by_date_configuration(currency, date.year, ANY, ANY)
    }

    /// The first rate that is stated for exactly this currency, year, month
    /// and day.
    pub fn find_by_date_configuration(&self, currency: &str, year: i32, month: i64, day: i64) -> (r:
        Option<ExchangeRate>)
        ensures
            r == match first_rate_for(
                self.exchange_rates@,
                currency@,
                year as int,
                month as int,
                day as int,
            ) {
                Some(i) => Some(self.exchange_rates@[i]),
                None => None,
            },
    {
        let mut i: usize = 0;
        while i < self.exchange_rates.len()
            invariant
                i <= self.exchange_rates.len(),
                forall|j: int|
                    0 <= j < i ==> !is_rate_for(
                        self.exchange_rates@[j],
                        currency@,
                        year as int,
                        month as int,
                        day as int,
                    ),
            decreases self.exchange_rates.len() - i,
        {
            let rate = &self.exchange_rates[i];
            if same_text(rate.currency.iso.as_str(), currency) && rate.year == year && rate.month
                == month && rate.day == day {
                proof {
                    let ghost rates = self.exchange_rates@;
                    first_rate_is_first(rates, currency@, year as int, month as int, day as int);
                    assert(is_rate_for(rates[i as int], currency@, year as int, month as int, day as int));
                    match first_rate_for(rates, currency@, year as int, month as int, day as int) {
                        Some(k) => {
                            if k < i {
                                assert(!is_rate_for(
                                    rates[k],
                                    currency@,
                                    year as int,
                                    month as int,
                                    day as int,
                                ));
                            }
                        },
                        None => {},
                    }
                }
                return Some(rate.duplicate());
            }
            i += 1;
        }
        proof {
            first_rate_is_first(
                self.exchange_rates@,
                currency@,
                year as int,
                month as int,
                day as int,
            );
        }
        None
    }
}

} // verus!
