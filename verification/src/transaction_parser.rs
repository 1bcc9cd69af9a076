//! Reading transactions from the rows of a table: the date, the currency,
//! the amount, the category and the note, in that order.

use crate::amount::Amount;
use crate::calendar::{parse_date, parse_error_text, parsed_date};
use crate::currency::{known_currencies, named_in, not_found_text, Currency};
use crate::date::{earlier, Date};
use crate::decimal::{decimal_amount, parse_decimal};
use crate::error::Error;
use crate::file_reader::{cells_view, LineParts};
use crate::import::{failures, successes, ImportResult};
use crate::stable_sort::{insertion_keeps_sorted, is_ranking, is_stable_sort, sorts_prefix};
use crate::text::{begins_with, chars_of, strip, text_of, trimmed, uppercase_of, Strip};
use crate::transaction::Transaction;
use crate::transaction_type::{category_of, TransactionType};
use vstd::prelude::*;
use vstd::string::StringExecFns;

verus! {

pub struct TransactionParser {}

/// What a row holds.
pub enum Reading {
    /// No cell for the date.
    NoDate,
    /// A date that is none, with its text.
    BadDate(Seq<char>),
    /// No cell for the currency.
    NoCurrency,
    /// A currency that is not known, with its text.
    UnknownCurrency(Seq<char>),
    /// No cell for the amount.
    NoAmount,
    /// An amount that is no decimal number, with its text.
    BadAmount(Seq<char>),
    /// A transaction: its date, the place of its currency among the known
    /// ones, its value, its category and its note.
    Row {
        date: Date,
        currency: int,
        value: i64,
        transaction_type: TransactionType,
        note: Option<Seq<char>>,
    },
}

/// The category of a row: what its fourth cell names, and what the empty
/// text names where there is no such cell.
pub open spec fn category_cell(parts: Seq<Seq<char>>) -> TransactionType {
    if parts.len() > 3 {
        category_of(uppercase_of(parts[3]))
    } else {
        category_of(uppercase_of(Seq::empty()))
    }
}

/// The note of a row: its fifth cell, where there is one.
pub open spec fn note_cell(parts: Seq<Seq<char>>) -> Option<Seq<char>> {
    if parts.len() > 4 {
        Some(parts[4])
    } else {
        None
    }
}

/// What a row holds. The amount of a row is what was paid, so the value of
/// the transaction is its opposite.
pub open spec fn reading_of(parts: Seq<Seq<char>>) -> Reading {
    if parts.len() < 1 {
        Reading::NoDate
    } else {
        match parsed_date(trimmed(parts[0]), "%d.%m.%Y"@) {
            None => Reading::BadDate(trimmed(parts[0])),
            Some(date) => if parts.len() < 2 {
                Reading::NoCurrency
            } else {
                match named_in(known_currencies(), trimmed(parts[1])) {
                    None => Reading::UnknownCurrency(trimmed(parts[1])),
                    Some(currency) => if parts.len() < 3 {
                        Reading::NoAmount
                    } else {
                        match decimal_amount(trimmed(parts[2])) {
                            None => Reading::BadAmount(trimmed(parts[2])),
                            Some(paid) => Reading::Row {
                                date,
                                currency,
                                value: (-paid) as i64,
                                transaction_type: category_cell(parts),
                                note: note_cell(parts),
                            },
                        }
                    },
                }
            },
        }
    }
}

/// The text of the error for a date that is none, up to what `chrono` says
/// of it.
pub open spec fn bad_date_text(date: Seq<char>) -> Seq<char> {
    "Could not parse date '"@ + date + "': "@
}

/// The text of the error for an amount that is no decimal number.
pub open spec fn bad_amount_text(amount: Seq<char>) -> Seq<char> {
    "Could not parse amount '"@ + amount + "': no decimal number"@
}

/// The note of a transaction as text.
pub open spec fn note_view(note: Option<String>) -> Option<Seq<char>> {
    match note {
        Some(n) => Some(n@),
        None => None,
    }
}

/// Whether the result is what the reading of a row asks for.
pub open spec fn answers(r: Result<Transaction, Error>, reading: Reading) -> bool {
    match reading {
        Reading::NoDate => r matches Err(Error::Parse(m)) && m@
            == "Could not read date from line"@,
        Reading::BadDate(date) => r matches Err(Error::Parse(m)) && begins_with(
            m@,
            bad_date_text(date),
        ),
        Reading::NoCurrency => r matches Err(Error::Parse(m)) && m@
            == "Could not read currency from line"@,
        Reading::UnknownCurrency(currency) => r matches Err(Error::Parse(m)) && m@
            == not_found_text(currency),
        Reading::NoAmount => r matches Err(Error::Parse(m)) && m@
            == "Could not read amount from line"@,
        Reading::BadAmount(amount) => r matches Err(Error::Parse(m)) && m@ == bad_amount_text(
            amount,
        ),
        Reading::Row { date, currency, value, transaction_type, note } => r matches Ok(t) && t.date
            == date && t.amount.value == value && t.amount.currency@ == known_currencies()[currency]
            && t.base_amount is None && t.transaction_type == transaction_type && note_view(t.note)
            == note,
    }
}

/// Whether the first transaction is to stand before the second: it is of
/// an earlier day, or of the same day with a smaller value.
pub open spec fn dated_before(a: Transaction, b: Transaction) -> bool {
    earlier(a.date, b.date) || (a.date == b.date && a.amount.value < b.amount.value)
}

/// The order by day and then by value.
pub open spec fn by_date_and_value() -> spec_fn(Transaction, Transaction) -> bool {
    |a: Transaction, b: Transaction| dated_before(a, b)
}

/// Whether `imported` is what the rows hold, where `results` are the
/// results of the rows one by one and `origin` tells where each transaction
/// stood before the sort.
pub open spec fn is_import_of(
    imported: ImportResult,
    lines: Seq<LineParts>,
    results: Seq<Result<Transaction, Error>>,
    origin: Seq<int>,
) -> bool {
    &&& results.len() == lines.len()
    &&& forall|i: int|
        0 <= i < results.len() ==> answers(#[trigger] results[i], reading_of(cells_view(lines[i]@)))
    &&& imported.errors@ == failures(results)
    &&& is_stable_sort(successes(results), imported.transactions@, origin, by_date_and_value())
}

/// The texts of the cells.
pub open spec fn texts_of(parts: Seq<&str>) -> Seq<Seq<char>> {
    parts.map_values(|p: &str| p@)
}

/// The text without white space at its ends.
pub fn trim(text: &str) -> (r: String)
    ensures
        r@ == trimmed(text@),
{
    text_of(&strip(&chars_of(text), Strip::Whitespace))
}

/// Whether the first transaction is to stand before the second.
pub fn stands_before(a: &Transaction, b: &Transaction) -> (r: bool)
    ensures
        r == dated_before(*a, *b),
{
    a.date.is_before(&b.date) || (a.date == b.date && a.amount.value < b.amount.value)
}

/// The transactions by day and then by value; transactions of one day with
/// one value keep the order in which they came.
pub fn sort_by_date(transactions: &Vec<Transaction>) -> (r: Vec<Transaction>)
    ensures
        exists|origin: Seq<int>| is_stable_sort(transactions@, r@, origin, by_date_and_value()),
{
    let mut sorted: Vec<Transaction> = Vec::new();
    let ghost mut origin: Seq<int> = Seq::empty();
    let mut i: usize = 0;
    while i < transactions.len()
        invariant
            i <= transactions.len(),
            sorts_prefix(transactions@, sorted@, origin, by_date_and_value(), i as int),
        decreases transactions.len() - i,
    {
        let mut place: usize = 0;
        while place < sorted.len() && !stands_before(&transactions[i], &sorted[place])
            invariant
                i < transactions.len(),
                sorted.len() == i,
                place <= sorted.len(),
                forall|k: int|
                    0 <= k < place ==> !dated_before(transactions@[i as int], #[trigger] sorted@[k]),
            decreases sorted.len() - place,
        {
            place += 1;
        }
        proof {
            assert(is_ranking(by_date_and_value()));
            insertion_keeps_sorted(
                transactions@,
                sorted@,
                origin,
                by_date_and_value(),
                i as int,
                place as int,
            );
            origin = origin.insert(place as int, i as int);
        }
        sorted.insert(place, transactions[i].duplicate());
        i += 1;
    }
    proof {
        assert(is_stable_sort(transactions@, sorted@, origin, by_date_and_value()));
    }
    sorted
}

impl TransactionParser {
    pub fn new() -> (r: Self) {
        TransactionParser {  }
    }

    /// The transactions of the rows, by day and then by value, and the
    /// errors of the rows that hold no transaction, in the order of the
    /// rows.
    pub fn parse_lines(&self, lines: Vec<LineParts>) -> (r: ImportResult)
        ensures
            exists|results: Seq<Result<Transaction, Error>>, origin: Seq<int>|
                is_import_of(r, lines@, results, origin),
    {
        let mut transactions: Vec<Transaction> = Vec::new();
        let mut errors: Vec<Error> = Vec::new();
        let ghost mut results: Seq<Result<Transaction, Error>> = Seq::empty();
        let mut i: usize = 0;
        while i < lines.len()
            invariant
                i <= lines.len(),
                results.len() == i,
                forall|k: int|
                    0 <= k < i ==> answers(
                        #[trigger] results[k],
                        reading_of(cells_view(lines@[k]@)),
                    ),
                transactions@ == successes(results),
                errors@ == failures(results),
            decreases lines.len() - i,
        {
            let parts = &lines[i];
            let mut cells: Vec<&str> = Vec::new();
            let mut k: usize = 0;
            while k < parts.len()
                invariant
                    k <= parts.len(),
                    cells.len() == k,
                    forall|j: int| 0 <= j < k ==> (#[trigger] cells@[j])@ == parts@[j]@,
                decreases parts.len() - k,
            {
                cells.push(parts[k].as_str());
                k += 1;
            }
            proof {
                assert(texts_of(cells@) =~= cells_view(parts@));
            }
            let built = self.build_from_vec(cells);
            proof {
                let ghost before = results;
                results = results.push(built);
                assert(results.drop_last() =~= before);
            }
            match built {
                Ok(transaction) => transactions.push(transaction),
                Err(error) => errors.push(error),
            }
            i += 1;
        }
        let sorted = sort_by_date(&transactions);
        let imported = ImportResult { transactions: sorted, errors };
        proof {
            let origin = choose|origin: Seq<int>|
                is_stable_sort(transactions@, sorted@, origin, by_date_and_value());
            assert(is_import_of(imported, lines@, results, origin));
        }
        imported
    }

    /// The transaction of a row, or the error of the first cell that cannot
    /// be read.
    pub fn build_from_vec(&self, parts: Vec<&str>) -> (r: Result<Transaction, Error>)
        ensures
            answers(r, reading_of(texts_of(parts@))),
    {
        let mut string_vec: Vec<String> = Vec::new();
        let mut k: usize = 0;
        while k < parts.len()
            invariant
                k <= parts.len(),
                string_vec.len() == k,
                forall|j: int| 0 <= j < k ==> (#[trigger] string_vec@[j])@ == parts@[j]@,
            decreases parts.len() - k,
        {
            string_vec.push(parts[k].to_owned());
            k += 1;
        }
        proof {
            assert(cells_view(string_vec@) =~= texts_of(parts@));
        }
        let date = match self.parse_date(string_vec.as_slice()) {
            Ok(d) => d,
            Err(e) => return Err(e),
        };
        let raw_currency = match self.get_vec_part_or_error(
            string_vec.as_slice(),
            1,
            "Could not read currency from line",
        ) {
            Ok(c) => c,
            Err(e) => return Err(e),
        };
        let currency = match Currency::from_str(raw_currency.as_str()) {
            Ok(c) => c,
            Err(e) => return Err(e),
        };
        let paid = match self.parse_amount(string_vec.as_slice()) {
            Ok(v) => v,
            Err(e) => return Err(e),
        };
        let amount = Amount::new(-paid, currency);
        let transaction_type = if string_vec.len() > 3 {
            TransactionType::from_str(string_vec[3].as_str())
        } else {
            TransactionType::from_str("")
        };
        proof {
            reveal_strlit("");
            assert(""@ =~= Seq::<char>::empty());
        }
        let note = self.get_vec_part(string_vec.as_slice(), 4);
        Ok(Transaction::new(date, amount, None, transaction_type, note))
    }

    /// The date of a row, from its first cell.
    pub fn parse_date(&self, string_vec: &[String]) -> (r: Result<Date, Error>)
        ensures
            string_vec.len() < 1 ==> (r matches Err(Error::Parse(m)) && m@
                == "Could not read date from line"@),
            string_vec.len() >= 1 ==> match parsed_date(trimmed(string_vec@[0]@), "%d.%m.%Y"@) {
                Some(date) => r == Ok::<Date, Error>(date),
                None => r matches Err(Error::Parse(m)) && begins_with(
                    m@,
                    bad_date_text(trimmed(string_vec@[0]@)),
                ),
            },
    {
        match self.get_vec_part_or_error(string_vec, 0, "Could not read date from line") {
            Ok(s) => match parse_date(s.as_str(), "%d.%m.%Y") {
                Ok(d) => Ok(d),
                Err(e) => {
                    let start = String::from_str("Could not parse date '").concat(
                        s.as_str(),
                    ).concat("': ");
                    let ghost prefix = start@;
                    let text = start.concat(parse_error_text(&e).as_str());
                    proof {
                        assert(text@.subrange(0, prefix.len() as int) =~= prefix);
                    }
                    Err(Error::Parse(text))
                },
            },
            Err(e) => Err(e),
        }
    }

    /// The amount of a row in hundredths, from its third cell.
    pub fn parse_amount(&self, string_vec: &[String]) -> (r: Result<i64, Error>)
        ensures
            string_vec.len() < 3 ==> (r matches Err(Error::Parse(m)) && m@
                == "Could not read amount from line"@),
            string_vec.len() >= 3 ==> match decimal_amount(trimmed(string_vec@[2]@)) {
                Some(v) => r == Ok::<i64, Error>(v) && -i64::MAX <= v,
                None => r matches Err(Error::Parse(m)) && m@ == bad_amount_text(
                    trimmed(string_vec@[2]@),
                ),
            },
    {
        let amount_string = match self.get_vec_part_or_error(
            string_vec,
            2,
            "Could not read amount from line",
        ) {
            Ok(s) => s,
            Err(e) => return Err(e),
        };
        match parse_decimal(&chars_of(amount_string.as_str())) {
            Some(v) => Ok(v),
            None => Err(
                Error::Parse(
                    String::from_str("Could not parse amount '").concat(
                        amount_string.as_str(),
                    ).concat("': no decimal number"),
                ),
            ),
        }
    }

    /// The cell at a place, where there is one.
    pub fn get_vec_part(&self, string_vec: &[String], index: usize) -> (r: Option<String>)
        ensures
            index < string_vec.len() ==> r == Some(string_vec@[index as int]),
            index >= string_vec.len() ==> r is None,
    {
        if index < string_vec.len() {
            Some(string_vec[index].clone())
        } else {
            None
        }
    }

    /// The cell at a place without white space at its ends, or an error
    /// with the given text where there is no such cell.
    pub fn get_vec_part_or_error(&self, string_vec: &[String], index: usize, msg: &str) -> (r:
        Result<String, Error>)
        ensures
            index < string_vec.len() ==> (r matches Ok(s) && s@ == trimmed(
                string_vec@[index as int]@,
            )),
            index >= string_vec.len() ==> (r matches Err(Error::Parse(m)) && m@ == msg@),
    {
        if index < string_vec.len() {
            Ok(trim(string_vec[index].as_str()))
        } else {
            Err(Error::Parse(msg.to_owned()))
        }
    }
}

} // verus!
