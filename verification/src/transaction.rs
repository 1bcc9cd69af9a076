//! A transaction: when, how much, what for.

use crate::amount::Amount;
use crate::currency::Currency;
use crate::date::Date;
use crate::transaction_type::TransactionType;
use std::cmp::Ordering;
use vstd::prelude::*;
use vstd::std_specs::cmp::{PartialOrdSpec, PartialOrdSpecImpl};

verus! {

/// One payment or receipt. `base_amount` is the amount restated in the base
/// currency, once it has been computed.
#[derive(Clone, Debug, PartialEq)]
pub struct Transaction {
    pub date: Date,
    pub amount: Amount,
    pub base_amount: Option<Amount>,
    pub transaction_type: TransactionType,
    pub note: Option<String>,
}

/// What the duplicate check reads of a record.
pub trait MainTransactionData {
    spec fn amount_of(&self) -> Amount;

    spec fn date_of(&self) -> Date;

    fn amount(&self) -> (r: &Amount)
        ensures
            *r == self.amount_of(),
    ;

    fn date(&self) -> (r: Date)
        ensures
            r == self.date_of(),
    ;
}

impl Transaction {
    pub fn new(
        date: Date,
        amount: Amount,
        base_amount: Option<Amount>,
        transaction_type: TransactionType,
        note: Option<String>,
    ) -> (r: Self)
        ensures
            r == (Transaction { date, amount, base_amount, transaction_type, note }),
    {
        Transaction { date, amount, base_amount, transaction_type, note }
    }

    /// The value in the base currency, 0 while there is none.
    pub open spec fn base_value(&self) -> int {
        match self.base_amount {
            Some(a) => a.value as int,
            None => 0,
        }
    }

    /// Whether the base amount, where there is one, is stated in the base
    /// currency.
    pub open spec fn well_formed(&self) -> bool {
        match self.base_amount {
            Some(a) => a.currency.is_base(),
            None => true,
        }
    }

    pub fn date(&self) -> (r: Date)
        ensures
            r == self.date,
    {
        self.date
    }

    pub fn amount(&self) -> (r: Amount)
        ensures
            r == self.amount,
    {
        self.amount.duplicate()
    }

    pub fn amount_ref(&self) -> (r: &Amount)
        ensures
            *r == self.amount,
    {
        &self.amount
    }

    pub fn base_amount(&self) -> (r: Option<Amount>)
        ensures
            r == self.base_amount,
    {
        match &self.base_amount {
            Some(a) => Some(a.duplicate()),
            None => None,
        }
    }

    pub fn transaction_type(&self) -> (r: TransactionType)
        ensures
            r == self.transaction_type,
    {
        self.transaction_type
    }

    pub fn note(&self) -> (r: Option<String>)
        ensures
            r == self.note,
    {
        match &self.note {
            Some(n) => Some(n.clone()),
            None => None,
        }
    }

    /// A copy of the transaction.
    pub fn duplicate(&self) -> (r: Transaction)
        ensures
            r == *self,
    {
        Transaction {
            date: self.date,
            amount: self.amount.duplicate(),
            base_amount: self.base_amount(),
            transaction_type: self.transaction_type,
            note: self.note(),
        }
    }

    /// A copy of the transaction with the given base amount.
    pub fn with_base_amount(&self, base_amount: Amount) -> (r: Transaction)
        ensures
            r == (Transaction { base_amount: Some(base_amount), ..*self }),
    {
        Transaction {
            date: self.date,
            amount: self.amount.duplicate(),
            base_amount: Some(base_amount),
            transaction_type: self.transaction_type,
            note: self.note(),
        }
    }
}

/// Transactions are ordered by their base amounts; one without a base
/// amount stands below every one that has one.
impl PartialOrd for Transaction {
    fn partial_cmp(&self, other: &Self) -> (r: Option<Ordering>) {
        match &self.base_amount {
            Some(a_amount) => match &other.base_amount {
                Some(b_amount) => a_amount.partial_cmp(b_amount),
                None => Some(Ordering::Greater),
            },
            None => {
                if other.base_amount.is_some() {
                    Some(Ordering::Less)
                } else {
                    Some(Ordering::Equal)
                }
            },
        }
    }
}

impl PartialOrdSpecImpl for Transaction {
    open spec fn obeys_partial_cmp_spec() -> bool {
        true
    }

    open spec fn partial_cmp_spec(&self, other: &Self) -> Option<Ordering> {
        match self.base_amount {
            Some(a_amount) => match other.base_amount {
                Some(b_amount) => PartialOrdSpec::partial_cmp_spec(&a_amount, &b_amount),
                None => Some(Ordering::Greater),
            },
            None => {
                if other.base_amount is Some {
                    Some(Ordering::Less)
                } else {
                    Some(Ordering::Equal)
                }
            },
        }
    }
}

impl MainTransactionData for Transaction {
    open spec fn amount_of(&self) -> Amount {
        self.amount
    }

    open spec fn date_of(&self) -> Date {
        self.date
    }

    fn amount(&self) -> (r: &Amount) {
        &self.amount
    }

    fn date(&self) -> (r: Date) {
        self.date
    }
}

/// Whether an amount of some transaction is stated in the given currency.
pub open spec fn some_in_currency(transactions: Seq<Transaction>, code: Seq<char>) -> bool {
    exists|i: int| 0 <= i < transactions.len() && transactions[i].amount.currency.iso@ == code
}

/// Whether any of the transactions was paid in the given currency.
pub fn contains_transaction_in_currency(transactions: &[Transaction], currency: &Currency) -> (r:
    bool)
    ensures
        r == some_in_currency(transactions@, currency.iso@),
{
    let mut i: usize = 0;
    while i < transactions.len()
        invariant
            i <= transactions.len(),
            forall|j: int| 0 <= j < i ==> transactions@[j].amount.currency.iso@ != currency.iso@,
        decreases transactions.len() - i,
    {
        if transactions[i].amount_ref().currency_ref().same_as(currency) {
            return true;
        }
        i += 1;
    }
    false
}

} // verus!
