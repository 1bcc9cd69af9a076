//! Ordering transactions by their value in the base currency.

use crate::calculator::Calculator;
use crate::stable_sort::{insertion_keeps_sorted, is_ranking, is_stable_sort, sorts_prefix};
use crate::transaction::Transaction;
use vstd::prelude::*;

verus! {

/// Whether the first transaction ranks strictly above the second: it has a
/// base amount and the second has none or a smaller one.
pub open spec fn ranks_above(a: Transaction, b: Transaction) -> bool {
    match a.base_amount {
        Some(x) => match b.base_amount {
            Some(y) => x.value > y.value,
            None => true,
        },
        None => false,
    }
}

/// The order from the largest base value down, with the transactions
/// without a base amount last.
pub open spec fn by_rank() -> spec_fn(Transaction, Transaction) -> bool {
    |a: Transaction, b: Transaction| ranks_above(a, b)
}

/// Whether `output` is `input` from the largest base value down, the
/// transactions without a base amount last and transactions of equal rank
/// in the order of the input; `origin[i]` is the place in `input` of the
/// transaction at place `i` of `output`.
pub open spec fn is_stable_ranking(
    input: Seq<Transaction>,
    output: Seq<Transaction>,
    origin: Seq<int>,
) -> bool {
    is_stable_sort(input, output, origin, by_rank())
}

/// Whether the first transaction ranks strictly above the second, by the
/// order of transactions.
pub fn ranks_higher(a: &Transaction, b: &Transaction) -> (r: bool)
    ensures
        r == ranks_above(*a, *b),
{
    *a > *b
}

impl Calculator {
    /// The transactions from the largest base value down. Those without a
    /// base amount come last, and transactions that rank alike keep the
    /// order in which they came.
    pub fn sort(transactions: &[Transaction]) -> (r: Vec<Transaction>)
        ensures
            exists|origin: Seq<int>| is_stable_ranking(transactions@, r@, origin),
    {
        let mut ranked: Vec<Transaction> = Vec::new();
        let ghost mut origin: Seq<int> = Seq::empty();
        let mut i: usize = 0;
        while i < transactions.len()
            invariant
                i <= transactions.len(),
                sorts_prefix(transactions@, ranked@, origin, by_rank(), i as int),
            decreases transactions.len() - i,
        {
            let mut place: usize = 0;
            while place < ranked.len() && !ranks_higher(&transactions[i], &ranked[place])
                invariant
                    i < transactions.len(),
                    ranked.len() == i,
                    place <= ranked.len(),
                    forall|k: int|
                        0 <= k < place ==> !ranks_above(
                            transactions@[i as int],
                            #[trigger] ranked@[k],
                        ),
                decreases ranked.len() - place,
            {
                place += 1;
            }
            proof {
                assert(is_ranking(by_rank()));
                insertion_keeps_sorted(
                    transactions@,
                    ranked@,
                    origin,
                    by_rank(),
                    i as int,
                    place as int,
                );
                origin = origin.insert(place as int, i as int);
            }
            ranked.insert(place, transactions[i].duplicate());
            i += 1;
        }
        proof {
            assert(is_stable_ranking(transactions@, ranked@, origin));
        }
        ranked
    }
}

} // verus!
