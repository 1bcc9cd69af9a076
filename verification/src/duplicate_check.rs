//! Finding records that may have been entered before.

use crate::calendar::{days_apart, days_between};
use crate::transaction::{MainTransactionData, Transaction};
use vstd::prelude::*;

verus! {

pub struct DuplicateChecker {}

/// How many days two records of one payment may lie apart.
pub const DAYS_OF_TOLERANCE: i64 = 3;

/// Whether two records may be of the same payment: the amounts are the same
/// in value and currency, and the dates are the same or no more than three
/// days apart.
pub open spec fn may_be_duplicates<A: MainTransactionData, B: MainTransactionData>(
    a: A,
    b: B,
) -> bool {
    &&& a.amount_of().value == b.amount_of().value
    &&& a.amount_of().currency.iso@ == b.amount_of().currency.iso@
    &&& (a.date_of() == b.date_of() || -DAYS_OF_TOLERANCE <= days_apart(b.date_of(), a.date_of())
        <= DAYS_OF_TOLERANCE)
}

/// Whether a transaction may be a duplicate of `record`.
pub open spec fn duplicates_of<T: MainTransactionData>(record: T) -> spec_fn(Transaction) -> bool {
    |t: Transaction| may_be_duplicates(t, record)
}

/// Whether two records may be of the same payment.
pub fn is_possible_duplicate<A: MainTransactionData, B: MainTransactionData>(a: &A, b: &B) -> (r:
    bool)
    requires
        a.date_of().well_formed(),
        b.date_of().well_formed(),
    ensures
        r == may_be_duplicates(*a, *b),
{
    if !a.amount().same_as(b.amount()) {
        return false;
    }
    let first = a.date();
    let second = b.date();
    if first == second {
        return true;
    }
    let days: i64 = days_between(&second, &first);
    -DAYS_OF_TOLERANCE <= days && days <= DAYS_OF_TOLERANCE
}

impl DuplicateChecker {
    /// The transactions that may be duplicates of `transaction`, in their
    /// order.
    pub fn get_possible_duplicates<'a, T: MainTransactionData>(
        transaction: &T,
        transactions: &'a [Transaction],
    ) -> (r: Vec<&'a Transaction>)
        requires
            transaction.date_of().well_formed(),
            forall|i: int| 0 <= i < transactions.len() ==> transactions@[i].date.well_formed(),
        ensures
            r@.map_values(|t: &Transaction| *t) == transactions@.filter(duplicates_of(*transaction)),
    {
        let ghost keep = duplicates_of(*transaction);
        let mut found: Vec<&'a Transaction> = Vec::new();
        let mut i: usize = 0;
        proof {
            assert(transactions@.take(0) =~= Seq::<Transaction>::empty());
            Seq::<Transaction>::empty().lemma_filter_len(keep);
            assert(found@.map_values(|t: &Transaction| *t) =~= Seq::<Transaction>::empty());
        }
        while i < transactions.len()
            invariant
                i <= transactions.len(),
                keep == duplicates_of(*transaction),
                transaction.date_of().well_formed(),
                forall|i: int| 0 <= i < transactions.len() ==> transactions@[i].date.well_formed(),
                found@.map_values(|t: &Transaction| *t) == transactions@.take(i as int).filter(
                    keep,
                ),
            decreases transactions.len() - i,
        {
            proof {
                transactions@.lemma_take_succ_push(i as int);
                transactions@.take(i as int).lemma_filter_push(transactions@[i as int], keep);
            }
            let item = &transactions[i];
            let ghost before = found@;
            if is_possible_duplicate(item, transaction) {
                found.push(item);
                proof {
                    assert(found@.map_values(|t: &Transaction| *t) =~= before.map_values(
                        |t: &Transaction| *t,
                    ).push(*item));
                }
            }
            i += 1;
        }
        proof {
            assert(transactions@.take(i as int) =~= transactions@);
        }
        found
    }
}

} // verus!
