//! Restating a transaction's amount in the base currency.

use crate::amount::Amount;
use crate::currency::Currency;
use crate::exchange_rate::{best_rate_for, ExchangeRate, ExchangeRateProvider, RATE_SCALE};
use crate::rounding::{magnitude_of, round_div, round_ratio};
use crate::transaction::Transaction;
use vstd::prelude::*;

verus! {

pub struct AmountConverter {}

/// The value of `value` at `rate`: their product in millionths, rounded to
/// the nearest hundredth of a unit, halves away from zero.
pub open spec fn value_at_rate(value: int, rate: int) -> int {
    round_ratio(value * rate, RATE_SCALE as int)
}

/// The converted value, where a stored amount can hold it.
pub open spec fn converted_value(value: int, rate: int) -> Option<i64> {
    if i64::MIN <= value_at_rate(value, rate) <= i64::MAX {
        Some(value_at_rate(value, rate) as i64)
    } else {
        None
    }
}

/// The base amount of `value` at `rate`: the converted value in the base
/// currency, and none where no stored amount can hold it.
pub open spec fn is_converted(base_amount: Option<Amount>, value: int, rate: int) -> bool {
    match converted_value(value, rate) {
        Some(v) => base_amount matches Some(a) && a.value == v && a.currency.is_base()
            && a.currency.symbol@ == "€"@,
        None => base_amount is None,
    }
}

/// What restating does to a transaction, given the rates: an amount in the
/// base currency is its own base amount; any other is converted at the rate
/// that fits its date best; without such a rate the transaction stays as it
/// is.
pub open spec fn is_restated(
    rates: Seq<ExchangeRate>,
    before: Transaction,
    after: Transaction,
) -> bool {
    &&& after.date == before.date
    &&& after.amount == before.amount
    &&& after.transaction_type == before.transaction_type
    &&& after.note == before.note
    &&& if before.amount.currency.is_base() {
        after.base_amount == Some(before.amount)
    } else {
        match best_rate_for(
            rates,
            before.amount.currency.iso@,
            before.date.year as int,
            before.date.month as int,
            before.date.day as int,
        ) {
            Some(i) => is_converted(
                after.base_amount,
                before.amount.value as int,
                rates[i].rate as int,
            ),
            None => after.base_amount == before.base_amount,
        }
    }
}

/// The product of two stored values leaves room to spare in 128 bits.
proof fn product_fits(value: int, rate: int)
    requires
        i64::MIN <= value <= i64::MAX,
        i64::MIN <= rate <= i64::MAX,
    ensures
        -0x4000_0000_0000_0000_0000_0000_0000_0000 <= value * rate
            <= 0x4000_0000_0000_0000_0000_0000_0000_0000,
{
    let limit: int = 0x8000_0000_0000_0000;
    assert(-limit * limit <= value * rate <= limit * limit) by (nonlinear_arith)
        requires
            -limit <= value <= limit,
            -limit <= rate <= limit,
            limit > 0,
    ;
    assert(limit * limit == 0x4000_0000_0000_0000_0000_0000_0000_0000) by (nonlinear_arith)
        requires
            limit == 0x8000_0000_0000_0000,
    ;
}

impl AmountConverter {
    /// The value of `value` at `rate`, where a stored amount can hold it.
    pub fn convert_value(value: i64, rate: i64) -> (r: Option<i64>)
        ensures
            r == converted_value(value as int, rate as int),
    {
        proof {
            product_fits(value as int, rate as int);
        }
        let product: i128 = (value as i128) * (rate as i128);
        let size: u128 = magnitude_of(product);
        let rounded: u128 = round_div(size, 1_000_000);
        if product < 0 {
            if rounded <= 0x8000_0000_0000_0000 {
                let below: i128 = -(rounded as i128);
                Some(below as i64)
            } else {
                None
            }
        } else {
            if rounded <= 0x7fff_ffff_ffff_ffff {
                Some(rounded as i64)
            } else {
                None
            }
        }
    }

    /// The transaction with its amount converted at the given rate as its
    /// base amount; without a base amount where the converted value is
    /// beyond what an amount can hold.
    pub fn convert_to_base(transaction: Transaction, exchange_rate: ExchangeRate) -> (r:
        Transaction)
        ensures
            r.date == transaction.date,
            r.amount == transaction.amount,
            r.transaction_type == transaction.transaction_type,
            r.note == transaction.note,
            is_converted(r.base_amount, transaction.amount.value as int, exchange_rate.rate as int),
    {
        match AmountConverter::convert_value(transaction.amount.value(), exchange_rate.rate) {
            Some(converted) => transaction.with_base_amount(
                Amount::new(converted, Currency::base()),
            ),
            None => Transaction {
                date: transaction.date,
                amount: transaction.amount,
                base_amount: None,
                transaction_type: transaction.transaction_type,
                note: transaction.note,
            },
        }
    }

    /// The transaction with its base amount: an amount in the base currency
    /// is its own base amount; any other is converted at the rate that fits
    /// its date best; without such a rate the transaction is returned as it
    /// is.
    pub fn prepare_base_amount(provider: &ExchangeRateProvider, transaction: Transaction) -> (r:
        Transaction)
        ensures
            is_restated(provider.exchange_rates@, transaction, r),
    {
        if transaction.amount.currency.same_as(&Currency::base()) {
            let own = transaction.amount.duplicate();
            return transaction.with_base_amount(own);
        }
        match provider.find_exchange_rate(&transaction) {
            Some(exchange_rate) => AmountConverter::convert_to_base(transaction, exchange_rate),
            None => transaction,
        }
    }

    /// Every transaction with its base amount, in the same order.
    pub fn prepare_all(provider: &ExchangeRateProvider, transactions: Vec<Transaction>) -> (r: Vec<
        Transaction,
    >)
        ensures
            r.len() == transactions.len(),
            forall|i: int|
                0 <= i < r.len() ==> is_restated(
                    provider.exchange_rates@,
                    transactions@[i],
                    #[trigger] r@[i],
                ),
    {
        let mut prepared: Vec<Transaction> = Vec::new();
        let mut i: usize = 0;
        while i < transactions.len()
            invariant
                i <= transactions.len(),
                prepared.len() == i,
                forall|k: int|
                    0 <= k < i ==> is_restated(
                        provider.exchange_rates@,
                        transactions@[k],
                        #[trigger] prepared@[k],
                    ),
            decreases transactions.len() - i,
        {
            let next = AmountConverter::prepare_base_amount(provider, transactions[i].duplicate());
            prepared.push(next);
            i += 1;
        }
        prepared
    }
}

/// A transaction in the base currency is restated as itself: its base
/// amount is its amount.
pub proof fn base_currency_needs_no_rate(
    rates: Seq<ExchangeRate>,
    before: Transaction,
    after: Transaction,
)
    requires
        before.amount.currency.is_base(),
        is_restated(rates, before, after),
    ensures
        after.base_amount == Some(before.amount),
        after.well_formed(),
{
}

/// Restating a transaction in the base currency twice gives what restating
/// it once gives.
pub proof fn restating_twice_changes_nothing(
    rates: Seq<ExchangeRate>,
    before: Transaction,
    once: Transaction,
    twice: Transaction,
)
    requires
        before.amount.currency.is_base(),
        is_restated(rates, before, once),
        is_restated(rates, once, twice),
    ensures
        twice == once,
{
}

/// A restated transaction has its base amount in the base currency,
/// provided that it had none before or had it there.
pub proof fn restating_keeps_well_formed(
    rates: Seq<ExchangeRate>,
    before: Transaction,
    after: Transaction,
)
    requires
        before.well_formed(),
        is_restated(rates, before, after),
    ensures
        after.well_formed(),
{
}

/// Without a rate for a transaction in another currency its base amount
/// stays absent.
pub proof fn no_rate_leaves_base_amount_absent(
    rates: Seq<ExchangeRate>,
    before: Transaction,
    after: Transaction,
)
    requires
        !before.amount.currency.is_base(),
        before.base_amount is None,
        best_rate_for(
            rates,
            before.amount.currency.iso@,
            before.date.year as int,
            before.date.month as int,
            before.date.day as int,
        ) is None,
        is_restated(rates, before, after),
    ensures
        after == before,
{
}

} // verus!
