//! What an import hands back, and the records of a JSON import.

use crate::amount::Amount;
use crate::currency::{known_currencies, named_in, not_found_text, Currency};
use crate::date::Date;
use crate::error::Error;
use crate::transaction::Transaction;
use crate::transaction_type::TransactionType;
use vstd::prelude::*;

verus! {

/// The transactions that were read and the errors of what could not be read.
pub struct ImportResult {
    pub transactions: Vec<Transaction>,
    pub errors: Vec<Error>,
}

/// One record of a JSON import.
#[derive(Debug)]
pub struct TransactionJson {
    pub amount: i64,
    pub date: Date,
    pub currency: String,
    pub note: String,
}

/// The values of the results that are no errors, in their order.
pub open spec fn successes<T, E>(results: Seq<Result<T, E>>) -> Seq<T>
    decreases results.len(),
{
    if results.len() == 0 {
        Seq::empty()
    } else {
        match results.last() {
            Ok(value) => successes(results.drop_last()).push(value),
            Err(_) => successes(results.drop_last()),
        }
    }
}

/// The errors among the results, in their order.
pub open spec fn failures<T, E>(results: Seq<Result<T, E>>) -> Seq<E>
    decreases results.len(),
{
    if results.len() == 0 {
        Seq::empty()
    } else {
        match results.last() {
            Ok(_) => failures(results.drop_last()),
            Err(error) => failures(results.drop_last()).push(error),
        }
    }
}

/// The values that are there among the values that may be missing, in their
/// order.
pub open spec fn present<T>(values: Seq<Option<T>>) -> Seq<T>
    decreases values.len(),
{
    if values.len() == 0 {
        Seq::empty()
    } else {
        match values.last() {
            Some(value) => present(values.drop_last()).push(value),
            None => present(values.drop_last()),
        }
    }
}

/// Parts the results into the values that are there and the errors, each in
/// the order of the results. A result without an error and without a value
/// adds to neither.
pub fn partition_and_unpack<T, E>(input: Vec<Result<Option<T>, E>>) -> (r: (Vec<T>, Vec<E>))
    ensures
        r.0@ == present(successes(input@)),
        r.1@ == failures(input@),
{
    let mut values: Vec<T> = Vec::new();
    let mut errors: Vec<E> = Vec::new();
    for result in it: input.into_iter()
        invariant
            it.seq() == input@,
            values@ == present(successes(input@.take(it.index()))),
            errors@ == failures(input@.take(it.index())),
    {
        proof {
            let n = it.index();
            assert(input@.take(n + 1).drop_last() =~= input@.take(n));
            assert(input@.take(n + 1).last() == input@[n]);
            let before = successes(input@.take(n));
            if input@[n] is Ok {
                assert(before.push(input@[n]->Ok_0).drop_last() =~= before);
            }
        }
        match result {
            Ok(Some(value)) => values.push(value),
            Ok(None) => {},
            Err(error) => errors.push(error),
        }
    }
    proof {
        assert(input@.take(input@.len() as int) =~= input@);
    }
    (values, errors)
}

impl TransactionJson {
    /// The transaction of the record: of the unknown category, without a
    /// base amount, in the currency that the record names.
    pub fn into_transaction(self) -> (r: Result<Transaction, Error>)
        ensures
            match named_in(known_currencies(), self.currency@) {
                Some(i) => r matches Ok(t) && t.date == self.date && t.amount.value == self.amount
                    && t.amount.currency@ == known_currencies()[i] && t.base_amount is None
                    && t.transaction_type == TransactionType::Unknown && t.note == Some(self.note),
                None => r matches Err(Error::Parse(m)) && m@ == not_found_text(self.currency@),
            },
    {
        match Currency::from_str(self.currency.as_str()) {
            Ok(currency) => Ok(
                Transaction::new(
                    self.date,
                    Amount::new(self.amount, currency),
                    None,
                    TransactionType::Unknown,
                    Some(self.note),
                ),
            ),
            Err(error) => Err(error),
        }
    }
}

} // verus!
