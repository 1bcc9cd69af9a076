//! Invoices: payments with the smaller set of categories, read from the
//! same rows as transactions.

use crate::amount::Amount;
use crate::currency::{known_currencies, Currency};
use crate::date::{earlier, Date};
use crate::error::Error;
use crate::file_reader::{cells_view, LineParts};
use crate::import::{failures, successes};
use crate::invoice_type::{invoice_category_of, InvoiceType};
use crate::stable_sort::{insertion_keeps_sorted, is_ranking, is_stable_sort, sorts_prefix};
use crate::text::uppercase_of;
use crate::transaction::MainTransactionData;
use crate::transaction_parser::{
    answers, note_view, reading_of, texts_of, Reading, TransactionParser,
};
use vstd::prelude::*;

verus! {

/// One invoice. `base_amount` is the amount restated in the base currency,
/// once it has been computed.
#[derive(Clone, Debug, PartialEq)]
pub struct Invoice {
    pub date: Date,
    pub amount: Amount,
    pub base_amount: Option<Amount>,
    pub invoice_type: InvoiceType,
    pub note: Option<String>,
}

/// The invoices that were read and the errors of the rows that hold none.
pub struct ParserResult {
    pub invoices: Vec<Invoice>,
    pub errors: Vec<Error>,
}

pub struct InvoiceParser {}

impl Invoice {
    pub fn new(
        date: Date,
        amount: Amount,
        base_amount: Option<Amount>,
        invoice_type: InvoiceType,
        note: Option<String>,
    ) -> (r: Self)
        ensures
            r == (Invoice { date, amount, base_amount, invoice_type, note }),
    {
        Invoice { date, amount, base_amount, invoice_type, note }
    }

    pub fn date(&self) -> (r: Date)
        ensures
            r == self.date,
    {
        self.date
    }

    pub fn amount(&self) -> (r: Amount)
        ensures
            r == self.amount,
    {
        self.amount.duplicate()
    }

    pub fn amount_ref(&self) -> (r: &Amount)
        ensures
            *r == self.amount,
    {
        &self.amount
    }

    pub fn base_amount(&self) -> (r: Option<Amount>)
        ensures
            r == self.base_amount,
    {
        match &self.base_amount {
            Some(a) => Some(a.duplicate()),
            None => None,
        }
    }

    pub fn invoice_type(&self) -> (r: InvoiceType)
        ensures
            r == self.invoice_type,
    {
        self.invoice_type
    }

    pub fn note(&self) -> (r: Option<String>)
        ensures
            r == self.note,
    {
        match &self.note {
            Some(n) => Some(n.clone()),
            None => None,
        }
    }

    /// A copy of the invoice.
    pub fn duplicate(&self) -> (r: Invoice)
        ensures
            r == *self,
    {
        Invoice {
            date: self.date,
            amount: self.amount.duplicate(),
            base_amount: self.base_amount(),
            invoice_type: self.invoice_type,
            note: self.note(),
        }
    }

    /// A copy of the invoice with the given base amount.
    pub fn with_base_amount(&self, base_amount: Amount) -> (r: Invoice)
        ensures
            r == (Invoice { base_amount: Some(base_amount), ..*self }),
    {
        Invoice {
            date: self.date,
            amount: self.amount.duplicate(),
            base_amount: Some(base_amount),
            invoice_type: self.invoice_type,
            note: self.note(),
        }
    }
}

impl MainTransactionData for Invoice {
    open spec fn amount_of(&self) -> Amount {
        self.amount
    }

    open spec fn date_of(&self) -> Date {
        self.date
    }

    fn amount(&self) -> (r: &Amount) {
        &self.amount
    }

    fn date(&self) -> (r: Date) {
        self.date
    }
}

/// Whether an amount of some invoice is stated in the given currency.
pub open spec fn some_invoice_in_currency(invoices: Seq<Invoice>, code: Seq<char>) -> bool {
    exists|i: int| 0 <= i < invoices.len() && invoices[i].amount.currency.iso@ == code
}

/// Whether any of the invoices was paid in the given currency.
pub fn contains_invoice_in_currency(invoices: &[Invoice], currency: &Currency) -> (r: bool)
    ensures
        r == some_invoice_in_currency(invoices@, currency.iso@),
{
    let mut i: usize = 0;
    while i < invoices.len()
        invariant
            i <= invoices.len(),
            forall|j: int| 0 <= j < i ==> invoices@[j].amount.currency.iso@ != currency.iso@,
        decreases invoices.len() - i,
    {
        if invoices[i].amount_ref().currency_ref().same_as(currency) {
            return true;
        }
        i += 1;
    }
    false
}

/// The category of a row of invoices: what its fourth cell names, and what
/// the empty text names where there is no such cell.
pub open spec fn invoice_category_cell(parts: Seq<Seq<char>>) -> InvoiceType {
    if parts.len() > 3 {
        invoice_category_of(uppercase_of(parts[3]))
    } else {
        invoice_category_of(uppercase_of(Seq::empty()))
    }
}

/// The error of a row that holds no invoice: that of the same row read as a
/// transaction.
pub open spec fn row_error(error: Error, parts: Seq<Seq<char>>) -> bool {
    answers(Err(error), reading_of(parts))
}

/// Whether the result is what a row holds, read as an invoice: the date,
/// the currency and the note of the transaction that the row holds, the
/// amount as it stands in the row, and the category among those of
/// invoices; or the error of the row.
pub open spec fn answers_invoice(r: Result<Invoice, Error>, parts: Seq<Seq<char>>) -> bool {
    match reading_of(parts) {
        Reading::Row { date, currency, value, transaction_type, note } => r matches Ok(i) && i.date
            == date && i.amount.value == -value && i.amount.currency@ == known_currencies()[currency]
            && i.base_amount is None && i.invoice_type == invoice_category_cell(parts) && note_view(
            i.note,
        ) == note,
        _ => r matches Err(error) && row_error(error, parts),
    }
}

/// Whether the first invoice is to stand before the second: it is of an
/// earlier day, or of the same day with a smaller value.
pub open spec fn invoice_dated_before(a: Invoice, b: Invoice) -> bool {
    earlier(a.date, b.date) || (a.date == b.date && a.amount.value < b.amount.value)
}

/// The order of invoices by day and then by value.
pub open spec fn invoices_by_date_and_value() -> spec_fn(Invoice, Invoice) -> bool {
    |a: Invoice, b: Invoice| invoice_dated_before(a, b)
}

/// Whether `parsed` is what the rows hold, where `results` are the results
/// of the rows one by one and `origin` tells where each invoice stood before
/// the sort.
pub open spec fn is_parse_of(
    parsed: ParserResult,
    lines: Seq<LineParts>,
    results: Seq<Result<Invoice, Error>>,
    origin: Seq<int>,
) -> bool {
    &&& results.len() == lines.len()
    &&& forall|i: int|
        0 <= i < results.len() ==> answers_invoice(#[trigger] results[i], cells_view(lines[i]@))
    &&& parsed.errors@ == failures(results)
    &&& is_stable_sort(successes(results), parsed.invoices@, origin, invoices_by_date_and_value())
}

/// Whether the first invoice is to stand before the second.
pub fn invoice_stands_before(a: &Invoice, b: &Invoice) -> (r: bool)
    ensures
        r == invoice_dated_before(*a, *b),
{
    a.date.is_before(&b.date) || (a.date == b.date && a.amount.value < b.amount.value)
}

/// The invoices by day and then by value; invoices of one day with one
/// value keep the order in which they came.
pub fn sort_invoices(invoices: &Vec<Invoice>) -> (r: Vec<Invoice>)
    ensures
        exists|origin: Seq<int>| is_stable_sort(invoices@, r@, origin, invoices_by_date_and_value()),
{
    let mut sorted: Vec<Invoice> = Vec::new();
    let ghost mut origin: Seq<int> = Seq::empty();
    let mut i: usize = 0;
    while i < invoices.len()
        invariant
            i <= invoices.len(),
            sorts_prefix(invoices@, sorted@, origin, invoices_by_date_and_value(), i as int),
        decreases invoices.len() - i,
    {
        let mut place: usize = 0;
        while place < sorted.len() && !invoice_stands_before(&invoices[i], &sorted[place])
            invariant
                i < invoices.len(),
                sorted.len() == i,
                place <= sorted.len(),
                forall|k: int|
                    0 <= k < place ==> !invoice_dated_before(
                        invoices@[i as int],
                        #[trigger] sorted@[k],
                    ),
            decreases sorted.len() - place,
        {
            place += 1;
        }
        proof {
            assert(is_ranking(invoices_by_date_and_value()));
            insertion_keeps_sorted(
                invoices@,
                sorted@,
                origin,
                invoices_by_date_and_value(),
                i as int,
                place as int,
            );
            origin = origin.insert(place as int, i as int);
        }
        sorted.insert(place, invoices[i].duplicate());
        i += 1;
    }
    proof {
        assert(is_stable_sort(invoices@, sorted@, origin, invoices_by_date_and_value()));
    }
    sorted
}

impl InvoiceParser {
    pub fn new() -> (r: Self) {
        InvoiceParser {  }
    }

    /// The invoices of the rows, by day and then by value, and the errors of
    /// the rows that hold no invoice, in the order of the rows.
    pub fn parse_lines(&self, lines: Vec<LineParts>) -> (r: ParserResult)
        ensures
            exists|results: Seq<Result<Invoice, Error>>, origin: Seq<int>|
                is_parse_of(r, lines@, results, origin),
    {
        let mut invoices: Vec<Invoice> = Vec::new();
        let mut errors: Vec<Error> = Vec::new();
        let ghost mut results: Seq<Result<Invoice, Error>> = Seq::empty();
        let mut i: usize = 0;
        while i < lines.len()
            invariant
                i <= lines.len(),
                results.len() == i,
                forall|k: int|
                    0 <= k < i ==> answers_invoice(#[trigger] results[k], cells_view(lines@[k]@)),
                invoices@ == successes(results),
                errors@ == failures(results),
            decreases lines.len() - i,
        {
            let parts = &lines[i];
            let mut cells: Vec<&str> = Vec::new();
            let mut k: usize = 0;
            while k < parts.len()
                invariant
                    k <= parts.len(),
                    cells.len() == k,
                    forall|j: int| 0 <= j < k ==> (#[trigger] cells@[j])@ == parts@[j]@,
                decreases parts.len() - k,
            {
                cells.push(parts[k].as_str());
                k += 1;
            }
            proof {
                assert(texts_of(cells@) =~= cells_view(parts@));
            }
            let built = self.build_from_vec(cells);
            proof {
                let ghost before = results;
                results = results.push(built);
                assert(results.drop_last() =~= before);
            }
            match built {
                Ok(invoice) => invoices.push(invoice),
                Err(error) => errors.push(error),
            }
            i += 1;
        }
        let sorted = sort_invoices(&invoices);
        let parsed = ParserResult { invoices: sorted, errors };
        proof {
            let origin = choose|origin: Seq<int>|
                is_stable_sort(invoices@, sorted@, origin, invoices_by_date_and_value());
            assert(is_parse_of(parsed, lines@, results, origin));
        }
        parsed
    }

    /// The invoice of a row, or the error of the first cell that cannot be
    /// read.
    pub fn build_from_vec(&self, parts: Vec<&str>) -> (r: Result<Invoice, Error>)
        ensures
            answers_invoice(r, texts_of(parts@)),
    {
        let reader = TransactionParser::new();
        let mut string_vec: Vec<String> = Vec::new();
        let mut k: usize = 0;
        while k < parts.len()
            invariant
                k <= parts.len(),
                string_vec.len() == k,
                forall|j: int| 0 <= j < k ==> (#[trigger] string_vec@[j])@ == parts@[j]@,
            decreases parts.len() - k,
        {
            string_vec.push(parts[k].to_owned());
            k += 1;
        }
        proof {
            assert(cells_view(string_vec@) =~= texts_of(parts@));
        }
        let date = match reader.parse_date(string_vec.as_slice()) {
            Ok(d) => d,
            Err(e) => return Err(e),
        };
        let raw_currency = match reader.get_vec_part_or_error(
            string_vec.as_slice(),
            1,
            "Could not read currency from line",
        ) {
            Ok(c) => c,
            Err(e) => return Err(e),
        };
        let currency = match Currency::from_str(raw_currency.as_str()) {
            Ok(c) => c,
            Err(e) => return Err(e),
        };
        let paid = match reader.parse_amount(string_vec.as_slice()) {
            Ok(v) => v,
            Err(e) => return Err(e),
        };
        let amount = Amount::new(paid, currency);
        let invoice_type = if string_vec.len() > 3 {
            InvoiceType::from_str(string_vec[3].as_str())
        } else {
            InvoiceType::from_str("")
        };
        proof {
            reveal_strlit("");
            assert(""@ =~= Seq::<char>::empty());
        }
        let note = self.get_vec_part(string_vec.as_slice(), 4);
        Ok(Invoice::new(date, amount, None, invoice_type, note))
    }

    /// The cell at a place, where there is one.
    pub fn get_vec_part(&self, string_vec: &[String], index: usize) -> (r: Option<String>)
        ensures
            index < string_vec.len() ==> r == Some(string_vec@[index as int]),
            index >= string_vec.len() ==> r is None,
    {
        TransactionParser::new().get_vec_part(string_vec, index)
    }

    /// The cell at a place without white space at its ends, or an error
    /// with the given text where there is no such cell.
    pub fn get_vec_part_or_error(&self, string_vec: &[String], index: usize, msg: &str) -> (r:
        Result<String, Error>)
        ensures
            index < string_vec.len() ==> (r matches Ok(s) && s@ == crate::text::trimmed(
                string_vec@[index as int]@,
            )),
            index >= string_vec.len() ==> (r matches Err(Error::Parse(m)) && m@ == msg@),
    {
        TransactionParser::new().get_vec_part_or_error(string_vec, index, msg)
    }
}

} // verus!
