//! Sums over transactions: totals, sums by category and currency, and the
//! categories with the largest and smallest totals.

use crate::amount::Amount;
use crate::currency::Currency;
use crate::transaction::Transaction;
use crate::transaction_type::{all_types, TransactionType, NUMBER_OF_TYPES};
use vstd::prelude::*;

verus! {

pub struct Calculator {}

/// The income, the expenses and their sum, in hundredths of the base
/// currency's unit.
#[derive(Debug)]
pub struct Totals {
    pub total: i128,
    pub income: i128,
    pub expenses: i128,
}

/// A category and the total that made it stand out.
#[derive(Debug, Clone, Copy)]
pub struct MajorTypeEntry {
    pub transaction_type: TransactionType,
    pub value: i128,
}

/// The categories with the extreme totals of income and of expenses.
#[derive(Debug, Clone, Copy)]
pub struct MajorTypes {
    pub min_income: MajorTypeEntry,
    pub min_expenses: MajorTypeEntry,
    pub max_income: MajorTypeEntry,
    pub max_expenses: MajorTypeEntry,
}

/// The income and the expenses of one category.
#[derive(Debug, Clone, Copy)]
struct IncomeAndExpenses {
    income: i128,
    expenses: i128,
}

/// The income and the expenses of every category, in the order of
/// `all_types`.
#[derive(Debug)]
struct TransactionTypeScore {
    entries: Vec<IncomeAndExpenses>,
}

/// The sum of `weight` over the transactions.
pub open spec fn weighted_sum(ts: Seq<Transaction>, weight: spec_fn(Transaction) -> int) -> int
    decreases ts.len(),
{
    if ts.len() == 0 {
        0
    } else {
        weighted_sum(ts.drop_last(), weight) + weight(ts.last())
    }
}

/// A transaction counts with its base value, and with 0 while it has none.
pub open spec fn by_base_value() -> spec_fn(Transaction) -> int {
    |t: Transaction| t.base_value()
}

/// A transaction counts with its base value where that is above zero.
pub open spec fn by_income() -> spec_fn(Transaction) -> int {
    |t: Transaction|
        if t.base_value() > 0 {
            t.base_value()
        } else {
            0
        }
}

/// A transaction counts with its base value where that is below zero.
pub open spec fn by_expense() -> spec_fn(Transaction) -> int {
    |t: Transaction|
        if t.base_value() < 0 {
            t.base_value()
        } else {
            0
        }
}

/// A transaction counts with its amount as it was paid.
pub open spec fn by_paid_value() -> spec_fn(Transaction) -> int {
    |t: Transaction| t.amount.value as int
}

/// A transaction counts with its amount as it was paid where that is above
/// zero.
pub open spec fn by_paid_income() -> spec_fn(Transaction) -> int {
    |t: Transaction|
        if t.amount.value > 0 {
            t.amount.value as int
        } else {
            0
        }
}

/// A transaction counts with its amount as it was paid where that is below
/// zero.
pub open spec fn by_paid_expense() -> spec_fn(Transaction) -> int {
    |t: Transaction|
        if t.amount.value < 0 {
            t.amount.value as int
        } else {
            0
        }
}

/// Whether a transaction belongs to the category.
pub open spec fn of_type(transaction_type: TransactionType) -> spec_fn(Transaction) -> bool {
    |t: Transaction| t.transaction_type == transaction_type
}

/// Whether a transaction belongs to the category and was paid in the currency
/// with the given code.
pub open spec fn of_type_and_currency(transaction_type: TransactionType, code: Seq<char>)
    -> spec_fn(Transaction) -> bool {
    |t: Transaction| t.transaction_type == transaction_type && t.amount.currency.iso@ == code
}

/// The sum of the base values.
pub open spec fn sum_of(ts: Seq<Transaction>) -> int {
    weighted_sum(ts, by_base_value())
}

/// The sum of the base values above zero.
pub open spec fn income_of(ts: Seq<Transaction>) -> int {
    weighted_sum(ts, by_income())
}

/// The sum of the base values below zero.
pub open spec fn expenses_of(ts: Seq<Transaction>) -> int {
    weighted_sum(ts, by_expense())
}

/// The largest magnitude of a single value.
pub open spec fn value_limit() -> int {
    0x8000_0000_0000_0000
}

/// A sum grows by one weight with each transaction.
pub proof fn weighted_sum_step(ts: Seq<Transaction>, weight: spec_fn(Transaction) -> int, i: int)
    requires
        0 <= i < ts.len(),
    ensures
        weighted_sum(ts.take(i + 1), weight) == weighted_sum(ts.take(i), weight) + weight(ts[i]),
{
    assert(ts.take(i + 1).drop_last() =~= ts.take(i));
}

/// The income and the expenses of a set of transactions add up to its sum.
pub proof fn income_and_expenses_make_the_sum(ts: Seq<Transaction>)
    ensures
        income_of(ts) + expenses_of(ts) == sum_of(ts),
    decreases ts.len(),
{
    if ts.len() > 0 {
        income_and_expenses_make_the_sum(ts.drop_last());
    }
}

/// The amounts paid above zero and those below zero add up to the sum of
/// the amounts paid.
pub proof fn paid_income_and_expenses_make_the_sum(ts: Seq<Transaction>)
    ensures
        weighted_sum(ts, by_paid_income()) + weighted_sum(ts, by_paid_expense()) == weighted_sum(
            ts,
            by_paid_value(),
        ),
    decreases ts.len(),
{
    if ts.len() > 0 {
        paid_income_and_expenses_make_the_sum(ts.drop_last());
    }
}

/// Transactions without a base amount add nothing to a sum, an income or an
/// expense.
pub proof fn sum_without_base_amounts_is_zero(ts: Seq<Transaction>)
    requires
        forall|i: int| 0 <= i < ts.len() ==> ts[i].base_amount is None,
    ensures
        sum_of(ts) == 0,
        income_of(ts) == 0,
        expenses_of(ts) == 0,
    decreases ts.len(),
{
    if ts.len() > 0 {
        let rest = ts.drop_last();
        assert forall|i: int| 0 <= i < rest.len() implies rest[i].base_amount is None by {
            assert(rest[i] == ts[i]);
        }
        sum_without_base_amounts_is_zero(rest);
    }
}

/// A transaction without a base amount leaves every sum over base values as
/// it was.
pub proof fn sum_skips_missing_base_amount(ts: Seq<Transaction>, t: Transaction)
    requires
        t.base_amount is None,
    ensures
        sum_of(ts.push(t)) == sum_of(ts),
        income_of(ts.push(t)) == income_of(ts),
        expenses_of(ts.push(t)) == expenses_of(ts),
{
    assert(ts.push(t).drop_last() =~= ts);
}

/// A transaction of the category counts with its base value where that is
/// not below zero.
pub open spec fn by_income_of(transaction_type: TransactionType) -> spec_fn(Transaction) -> int {
    |t: Transaction|
        if t.transaction_type == transaction_type && t.base_value() >= 0 {
            t.base_value()
        } else {
            0
        }
}

/// A transaction of the category counts with its base value where that is
/// below zero.
pub open spec fn by_expense_of(transaction_type: TransactionType) -> spec_fn(Transaction) -> int {
    |t: Transaction|
        if t.transaction_type == transaction_type && t.base_value() < 0 {
            t.base_value()
        } else {
            0
        }
}

/// The income of one category: the sum of its base values above zero.
pub open spec fn type_income(ts: Seq<Transaction>, transaction_type: TransactionType) -> int {
    weighted_sum(ts, by_income_of(transaction_type))
}

/// The expenses of one category: the sum of its base values below zero.
pub open spec fn type_expenses(ts: Seq<Transaction>, transaction_type: TransactionType) -> int {
    weighted_sum(ts, by_expense_of(transaction_type))
}

/// The income of every category, in the order of `all_types`.
pub open spec fn incomes(ts: Seq<Transaction>) -> Seq<int> {
    Seq::new(all_types().len(), |k: int| type_income(ts, all_types()[k]))
}

/// The expenses of every category, in the order of `all_types`.
pub open spec fn expenses(ts: Seq<Transaction>) -> Seq<int> {
    Seq::new(all_types().len(), |k: int| type_expenses(ts, all_types()[k]))
}

/// Whether `values[i]` is the largest value and no earlier one is as large.
pub open spec fn is_first_largest(values: Seq<int>, i: int) -> bool {
    &&& 0 <= i < values.len()
    &&& forall|j: int| 0 <= j < values.len() ==> values[j] <= values[i]
    &&& forall|j: int| 0 <= j < i ==> values[j] < values[i]
}

/// Whether `values[i]` is the smallest value and no earlier one is as small.
pub open spec fn is_first_smallest(values: Seq<int>, i: int) -> bool {
    &&& 0 <= i < values.len()
    &&& forall|j: int| 0 <= j < values.len() ==> values[j] >= values[i]
    &&& forall|j: int| 0 <= j < i ==> values[j] > values[i]
}

/// Of two places with equal values the later one is never the first largest
/// nor the first smallest: among categories with equal totals the one that
/// comes first in the fixed order is chosen.
pub proof fn earlier_place_wins_ties(values: Seq<int>, chosen: int, a: int, b: int)
    requires
        0 <= a < b < values.len(),
        values[a] == values[b],
        is_first_largest(values, chosen) || is_first_smallest(values, chosen),
    ensures
        chosen != b,
{
}

/// There is one first largest and one first smallest place at most.
pub proof fn first_places_are_unique(values: Seq<int>, i: int, j: int)
    ensures
        is_first_largest(values, i) && is_first_largest(values, j) ==> i == j,
        is_first_smallest(values, i) && is_first_smallest(values, j) ==> i == j,
{
    if is_first_largest(values, i) && is_first_largest(values, j) {
        if i < j {
            assert(values[i] < values[j]);
            assert(values[j] <= values[i]);
        } else if j < i {
            assert(values[j] < values[i]);
            assert(values[i] <= values[j]);
        }
    }
    if is_first_smallest(values, i) && is_first_smallest(values, j) {
        if i < j {
            assert(values[i] > values[j]);
            assert(values[j] >= values[i]);
        } else if j < i {
            assert(values[j] > values[i]);
            assert(values[i] >= values[j]);
        }
    }
}

/// The values of one column of the score.
spec fn column(entries: Seq<IncomeAndExpenses>, income: bool) -> Seq<int> {
    Seq::new(
        entries.len(),
        |k: int|
            if income {
                entries[k].income as int
            } else {
                entries[k].expenses as int
            },
    )
}

/// A sum of fewer values than a `usize` can count leaves room for one more.
proof fn room_for_one_more(i: int)
    requires
        0 <= i < usize::MAX,
    ensures
        value_limit() * (i + 1) == value_limit() * i + value_limit(),
        value_limit() * (i + 1) <= i128::MAX,
        -value_limit() * (i + 1) == -value_limit() * i - value_limit(),
        -value_limit() * (i + 1) >= i128::MIN,
{
    let limit: int = 0x8000_0000_0000_0000;
    assert(limit * (i + 1) == limit * i + limit) by (nonlinear_arith);
    assert(limit * (i + 1) <= limit * 0xffff_ffff_ffff_ffff) by (nonlinear_arith)
        requires
            0 <= i + 1 <= 0xffff_ffff_ffff_ffff,
            limit > 0,
    ;
    assert((-limit) * (i + 1) == (-limit) * i - limit) by (nonlinear_arith);
}

/// The value of a transaction in the base currency, 0 while it has none.
fn base_value_of(t: &Transaction) -> (r: i64)
    ensures
        r == t.base_value(),
{
    match &t.base_amount {
        Some(a) => a.value,
        None => 0,
    }
}

impl Calculator {
    /// The income, the expenses and the total of the transactions, over
    /// their base values.
    pub fn totals(transactions: &[Transaction]) -> (r: Totals)
        ensures
            r.income == income_of(transactions@),
            r.expenses == expenses_of(transactions@),
            r.total == r.income + r.expenses,
            r.total == sum_of(transactions@),
    {
        let mut income: i128 = 0;
        let mut expenses: i128 = 0;
        let mut i: usize = 0;
        while i < transactions.len()
            invariant
                i <= transactions.len(),
                income == income_of(transactions@.take(i as int)),
                expenses == expenses_of(transactions@.take(i as int)),
                0 <= income <= value_limit() * i,
                -value_limit() * i <= expenses <= 0,
            decreases transactions.len() - i,
        {
            let value: i64 = base_value_of(&transactions[i]);
            proof {
                weighted_sum_step(transactions@, by_income(), i as int);
                weighted_sum_step(transactions@, by_expense(), i as int);
                room_for_one_more(i as int);
            }
            if value > 0 {
                income = income + value as i128;
            } else {
                expenses = expenses + value as i128;
            }
            i += 1;
        }
        proof {
            assert(transactions@.take(i as int) =~= transactions@);
            income_and_expenses_make_the_sum(transactions@);
        }
        Totals { total: income + expenses, income, expenses }
    }

    /// The sum of the base values; a transaction without one adds nothing.
    pub fn sum(transactions: &[Transaction]) -> (r: i128)
        ensures
            r == sum_of(transactions@),
    {
        let mut sum: i128 = 0;
        let mut i: usize = 0;
        while i < transactions.len()
            invariant
                i <= transactions.len(),
                sum == sum_of(transactions@.take(i as int)),
                -value_limit() * i <= sum <= value_limit() * i,
            decreases transactions.len() - i,
        {
            let value: i64 = base_value_of(&transactions[i]);
            proof {
                weighted_sum_step(transactions@, by_base_value(), i as int);
                room_for_one_more(i as int);
            }
            sum = sum + value as i128;
            i += 1;
        }
        proof {
            assert(transactions@.take(i as int) =~= transactions@);
        }
        sum
    }

    /// The transactions of one category, in their order.
    pub fn only_type(transactions: &[Transaction], transaction_type: TransactionType) -> (r: Vec<
        Transaction,
    >)
        ensures
            r@ == transactions@.filter(of_type(transaction_type)),
    {
        let mut kept: Vec<Transaction> = Vec::new();
        let mut i: usize = 0;
        proof {
            assert(transactions@.take(0) =~= Seq::<Transaction>::empty());
            Seq::<Transaction>::empty().lemma_filter_len(of_type(transaction_type));
        }
        while i < transactions.len()
            invariant
                i <= transactions.len(),
                kept@ == transactions@.take(i as int).filter(of_type(transaction_type)),
            decreases transactions.len() - i,
        {
            proof {
                transactions@.lemma_take_succ_push(i as int);
                transactions@.take(i as int).lemma_filter_push(
                    transactions@[i as int],
                    of_type(transaction_type),
                );
            }
            if transactions[i].transaction_type == transaction_type {
                kept.push(transactions[i].duplicate());
            }
            i += 1;
        }
        proof {
            assert(transactions@.take(i as int) =~= transactions@);
        }
        kept
    }

    /// The transactions of one category that were paid in one currency, in
    /// their order.
    pub fn only_type_and_currency(
        transactions: &[Transaction],
        transaction_type: TransactionType,
        currency: &Currency,
    ) -> (r: Vec<Transaction>)
        ensures
            r@ == transactions@.filter(of_type_and_currency(transaction_type, currency.iso@)),
    {
        let ghost keep = of_type_and_currency(transaction_type, currency.iso@);
        let mut kept: Vec<Transaction> = Vec::new();
        let mut i: usize = 0;
        proof {
            assert(transactions@.take(0) =~= Seq::<Transaction>::empty());
            Seq::<Transaction>::empty().lemma_filter_len(keep);
        }
        while i < transactions.len()
            invariant
                i <= transactions.len(),
                keep == of_type_and_currency(transaction_type, currency.iso@),
                kept@ == transactions@.take(i as int).filter(keep),
            decreases transactions.len() - i,
        {
            proof {
                transactions@.lemma_take_succ_push(i as int);
                transactions@.take(i as int).lemma_filter_push(transactions@[i as int], keep);
            }
            if transactions[i].transaction_type == transaction_type
                && transactions[i].amount_ref().currency_ref().same_as(currency) {
                kept.push(transactions[i].duplicate());
            }
            i += 1;
        }
        proof {
            assert(transactions@.take(i as int) =~= transactions@);
        }
        kept
    }

    /// The totals of the transactions of one category.
    pub fn totals_for_type(transactions: &[Transaction], transaction_type: TransactionType) -> (r:
        Totals)
        ensures
            r.income == income_of(transactions@.filter(of_type(transaction_type))),
            r.expenses == expenses_of(transactions@.filter(of_type(transaction_type))),
            r.total == r.income + r.expenses,
    {
        let kept = Calculator::only_type(transactions, transaction_type);
        Calculator::totals(kept.as_slice())
    }

    /// The totals of the transactions of one category that were paid in one
    /// currency, over the amounts as they were paid: the income is the sum of
    /// the amounts above zero, the expenses the sum of those below. The
    /// result is in that currency's own units, not in the base currency.
    pub fn totals_for_type_and_currency(
        transactions: &[Transaction],
        transaction_type: TransactionType,
        currency: &Currency,
    ) -> (r: Totals)
        ensures
            r.income == weighted_sum(
                transactions@.filter(of_type_and_currency(transaction_type, currency.iso@)),
                by_paid_income(),
            ),
            r.expenses == weighted_sum(
                transactions@.filter(of_type_and_currency(transaction_type, currency.iso@)),
                by_paid_expense(),
            ),
            r.total == r.income + r.expenses,
            r.total == weighted_sum(
                transactions@.filter(of_type_and_currency(transaction_type, currency.iso@)),
                by_paid_value(),
            ),
    {
        let kept = Calculator::only_type_and_currency(transactions, transaction_type, currency);
        let mut income: i128 = 0;
        let mut expenses: i128 = 0;
        let mut i: usize = 0;
        while i < kept.len()
            invariant
                i <= kept.len(),
                income == weighted_sum(kept@.take(i as int), by_paid_income()),
                expenses == weighted_sum(kept@.take(i as int), by_paid_expense()),
                0 <= income <= value_limit() * i,
                -value_limit() * i <= expenses <= 0,
            decreases kept.len() - i,
        {
            let value: i64 = kept[i].amount.value;
            proof {
                weighted_sum_step(kept@, by_paid_income(), i as int);
                weighted_sum_step(kept@, by_paid_expense(), i as int);
                room_for_one_more(i as int);
            }
            if value > 0 {
                income = income + value as i128;
            } else {
                expenses = expenses + value as i128;
            }
            i += 1;
        }
        proof {
            assert(kept@.take(i as int) =~= kept@);
            paid_income_and_expenses_make_the_sum(kept@);
        }
        Totals { total: income + expenses, income, expenses }
    }

    /// The sum of the base values of the transactions of one category.
    pub fn sum_for_type(transactions: &[Transaction], transaction_type: TransactionType) -> (r:
        i128)
        ensures
            r == sum_of(transactions@.filter(of_type(transaction_type))),
    {
        let kept = Calculator::only_type(transactions, transaction_type);
        Calculator::sum(kept.as_slice())
    }

    /// The sum of the amounts as they were paid, over the transactions of
    /// one category that were paid in one currency. The result is in that
    /// currency's own units, not in the base currency.
    pub fn sum_for_type_and_currency(
        transactions: &[Transaction],
        transaction_type: TransactionType,
        currency: &Currency,
    ) -> (r: i128)
        ensures
            r == weighted_sum(
                transactions@.filter(of_type_and_currency(transaction_type, currency.iso@)),
                by_paid_value(),
            ),
    {
        let kept = Calculator::only_type_and_currency(transactions, transaction_type, currency);
        let mut sum: i128 = 0;
        let mut i: usize = 0;
        while i < kept.len()
            invariant
                i <= kept.len(),
                sum == weighted_sum(kept@.take(i as int), by_paid_value()),
                -value_limit() * i <= sum <= value_limit() * i,
            decreases kept.len() - i,
        {
            let value: i64 = kept[i].amount.value;
            proof {
                weighted_sum_step(kept@, by_paid_value(), i as int);
                room_for_one_more(i as int);
            }
            sum = sum + value as i128;
            i += 1;
        }
        proof {
            assert(kept@.take(i as int) =~= kept@);
        }
        sum
    }
}

impl IncomeAndExpenses {
    /// Adds the value to the income where it is not below zero, and to the
    /// expenses where it is.
    fn push(&mut self, amount: &Amount)
        requires
            i128::MIN - i64::MIN <= old(self).expenses <= 0,
            0 <= old(self).income <= i128::MAX - i64::MAX,
        ensures
            amount.value < 0 ==> final(self).expenses == old(self).expenses + amount.value
                && final(self).income == old(self).income,
            amount.value >= 0 ==> final(self).income == old(self).income + amount.value
                && final(self).expenses == old(self).expenses,
    {
        let value: i64 = amount.value;
        if value < 0 {
            self.expenses = self.expenses + value as i128;
        } else {
            self.income = self.income + value as i128;
        }
    }
}

impl TransactionTypeScore {
    /// Whether there is one entry for every category.
    spec fn well_formed(&self) -> bool {
        self.entries.len() == NUMBER_OF_TYPES
    }

    /// Whether the entries hold the totals of the transactions.
    spec fn holds_totals_of(&self, ts: Seq<Transaction>) -> bool {
        &&& self.well_formed()
        &&& forall|k: int|
            0 <= k < NUMBER_OF_TYPES ==> (#[trigger] self.entries[k]).income == type_income(
                ts,
                all_types()[k],
            )
        &&& forall|k: int|
            0 <= k < NUMBER_OF_TYPES ==> (#[trigger] self.entries[k]).expenses == type_expenses(
                ts,
                all_types()[k],
            )
    }

    /// Whether every entry leaves room for `count` more values.
    spec fn within(&self, count: int) -> bool {
        forall|k: int|
            0 <= k < self.entries.len() ==> 0 <= (#[trigger] self.entries[k]).income
                <= value_limit() * count && -value_limit() * count <= self.entries[k].expenses
                <= 0
    }

    /// A score without any transaction.
    fn new() -> (r: Self)
        ensures
            r.holds_totals_of(Seq::empty()),
            r.within(0),
    {
        let mut entries: Vec<IncomeAndExpenses> = Vec::new();
        let mut k: usize = 0;
        while k < NUMBER_OF_TYPES
            invariant
                k <= NUMBER_OF_TYPES,
                entries.len() == k,
                forall|j: int|
                    0 <= j < k ==> (#[trigger] entries[j]).income == 0 && entries[j].expenses == 0,
            decreases NUMBER_OF_TYPES - k,
        {
            entries.push(IncomeAndExpenses { income: 0, expenses: 0 });
            k += 1;
        }
        TransactionTypeScore { entries }
    }

    /// Adds the amount, where there is one, to the entry of the category.
    fn push(&mut self, transaction_type: TransactionType, amount: Option<Amount>)
        requires
            old(self).well_formed(),
            forall|k: int|
                0 <= k < NUMBER_OF_TYPES ==> 0 <= (#[trigger] old(self).entries[k]).income
                    <= i128::MAX - i64::MAX && i128::MIN - i64::MIN <= old(self).entries[k].expenses <= 0,
        ensures
            final(self).well_formed(),
            forall|k: int|
                0 <= k < NUMBER_OF_TYPES && k != transaction_type.position() ==> final(self).entries[k] == old(self).entries[k],
            amount is None ==> final(self).entries == old(self).entries,
            match amount {
                Some(a) => {
                    let before = old(self).entries[transaction_type.position()];
                    let after = final(self).entries[transaction_type.position()];
                    if a.value < 0 {
                        after.expenses == before.expenses + a.value && after.income
                            == before.income
                    } else {
                        after.income == before.income + a.value && after.expenses
                            == before.expenses
                    }
                },
                None => true,
            },
    {
        let amount = match amount {
            Some(a) => a,
            None => return ,
        };
        let place: usize = transaction_type.index();
        let mut entry: IncomeAndExpenses = self.entries[place];
        entry.push(&amount);
        self.entries.set(place, entry);
    }

    /// The first place with the largest, or the smallest, value of a column.
    fn first_extreme(&self, income: bool, largest: bool) -> (r: usize)
        requires
            self.well_formed(),
        ensures
            largest ==> is_first_largest(column(self.entries@, income), r as int),
            !largest ==> is_first_smallest(column(self.entries@, income), r as int),
    {
        let ghost values = column(self.entries@, income);
        let mut best: usize = 0;
        let mut k: usize = 1;
        while k < NUMBER_OF_TYPES
            invariant
                1 <= k <= NUMBER_OF_TYPES,
                self.well_formed(),
                values == column(self.entries@, income),
                0 <= best < k,
                largest ==> forall|j: int| 0 <= j < k ==> values[j] <= values[best as int],
                largest ==> forall|j: int| 0 <= j < best ==> values[j] < values[best as int],
                !largest ==> forall|j: int| 0 <= j < k ==> values[j] >= values[best as int],
                !largest ==> forall|j: int| 0 <= j < best ==> values[j] > values[best as int],
            decreases NUMBER_OF_TYPES - k,
        {
            let candidate: i128 = if income {
                self.entries[k].income
            } else {
                self.entries[k].expenses
            };
            let held: i128 = if income {
                self.entries[best].income
            } else {
                self.entries[best].expenses
            };
            assert(candidate == values[k as int]);
            assert(held == values[best as int]);
            if (largest && candidate > held) || (!largest && candidate < held) {
                best = k;
            }
            k += 1;
        }
        best
    }

    /// The category at a place, with its income or its expenses.
    fn entry_at(&self, place: usize, income: bool) -> (r: MajorTypeEntry)
        requires
            self.well_formed(),
            place < NUMBER_OF_TYPES,
        ensures
            r.transaction_type == all_types()[place as int],
            r.value == column(self.entries@, income)[place as int],
    {
        let all = TransactionType::all();
        let value: i128 = if income {
            self.entries[place].income
        } else {
            self.entries[place].expenses
        };
        MajorTypeEntry::new(all[place], value)
    }
}

impl MajorTypeEntry {
    fn new(transaction_type: TransactionType, value: i128) -> (r: Self)
        ensures
            r.transaction_type == transaction_type,
            r.value == value,
    {
        Self { transaction_type, value }
    }
}

impl Calculator {
    /// The income and the expenses of every category.
    fn rate(transactions: &[Transaction]) -> (r: TransactionTypeScore)
        ensures
            r.holds_totals_of(transactions@),
    {
        let mut score = TransactionTypeScore::new();
        let mut i: usize = 0;
        proof {
            assert(transactions@.take(0) =~= Seq::<Transaction>::empty());
        }
        while i < transactions.len()
            invariant
                i <= transactions.len(),
                score.holds_totals_of(transactions@.take(i as int)),
                score.within(i as int),
            decreases transactions.len() - i,
        {
            let transaction = &transactions[i];
            let ghost before = score;
            proof {
                room_for_one_more(i as int);
                assert forall|k: int| 0 <= k < NUMBER_OF_TYPES implies 0 <= (
                #[trigger] score.entries[k]).income <= i128::MAX - i64::MAX && i128::MIN
                    - i64::MIN <= score.entries[k].expenses <= 0 by {
                    assert(value_limit() * i <= value_limit() * (usize::MAX - 1))
                        by (nonlinear_arith)
                        requires
                            0 <= i <= usize::MAX - 1,
                    ;
                }
            }
            score.push(transaction.transaction_type(), transaction.base_amount());
            proof {
                let place = transaction.transaction_type.position();
                crate::transaction_type::all_types_is_complete(transaction.transaction_type);
                assert forall|k: int| 0 <= k < NUMBER_OF_TYPES implies (
                #[trigger] score.entries[k]).income == type_income(
                    transactions@.take(i + 1),
                    all_types()[k],
                ) && score.entries[k].expenses == type_expenses(
                    transactions@.take(i + 1),
                    all_types()[k],
                ) && 0 <= score.entries[k].income <= value_limit() * (i + 1) && -value_limit() * (i
                    + 1) <= score.entries[k].expenses <= 0 by {
                    weighted_sum_step(transactions@, by_income_of(all_types()[k]), i as int);
                    weighted_sum_step(transactions@, by_expense_of(all_types()[k]), i as int);
                    assert(before.entries[k].income == type_income(
                        transactions@.take(i as int),
                        all_types()[k],
                    ));
                    assert(before.entries[k].expenses == type_expenses(
                        transactions@.take(i as int),
                        all_types()[k],
                    ));
                    if k != place {
                        assert(all_types()[k] != transaction.transaction_type);
                    }
                }
            }
            i += 1;
        }
        proof {
            assert(transactions@.take(i as int) =~= transactions@);
        }
        score
    }

    /// The categories with the largest and the smallest income, and with
    /// the largest and the smallest expenses. Among categories with equal
    /// totals the first in the fixed order of the categories is chosen;
    /// every category takes part, also with a total of zero.
    pub fn major_types(transactions: &[Transaction]) -> (r: MajorTypes)
        ensures
            is_first_largest(incomes(transactions@), r.max_income.transaction_type.position()),
            r.max_income.value == type_income(transactions@, r.max_income.transaction_type),
            is_first_smallest(expenses(transactions@), r.max_expenses.transaction_type.position()),
            r.max_expenses.value == type_expenses(transactions@, r.max_expenses.transaction_type),
            is_first_smallest(incomes(transactions@), r.min_income.transaction_type.position()),
            r.min_income.value == type_income(transactions@, r.min_income.transaction_type),
            is_first_largest(expenses(transactions@), r.min_expenses.transaction_type.position()),
            r.min_expenses.value == type_expenses(transactions@, r.min_expenses.transaction_type),
    {
        let score = Calculator::rate(transactions);
        proof {
            assert(column(score.entries@, true) =~= incomes(transactions@));
            assert(column(score.entries@, false) =~= expenses(transactions@));
        }
        let max_income = score.entry_at(score.first_extreme(true, true), true);
        let max_expenses = score.entry_at(score.first_extreme(false, false), false);
        let min_income = score.entry_at(score.first_extreme(true, false), true);
        let min_expenses = score.entry_at(score.first_extreme(false, true), false);
        proof {
            crate::transaction_type::all_types_is_complete(max_income.transaction_type);
        }
        MajorTypes { min_income, min_expenses, max_income, max_expenses }
    }
}

} // verus!
