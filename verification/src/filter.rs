//! Choosing transactions by date, category and note.

use crate::calendar::{date_text, parse_date, parse_error_text, parsed_date, write_date};
use crate::date::{days_in_month, earlier, Date};
use crate::error::Error;
use crate::patterns::{matches_pattern, pattern_matches};
use crate::text::{begins_with, chars_of, contains, contains_text};
use crate::transaction::Transaction;
use crate::transaction_type::TransactionType;
use vstd::prelude::*;
use vstd::string::StringExecFns;

verus! {

/// What to keep: transactions after `from` and up to `to`, of one category,
/// with `search` in the note and without `exclude` in it. A field that is
/// absent keeps everything.
#[derive(Clone, Debug)]
pub struct Request {
    pub from: Option<Date>,
    pub to: Option<Date>,
    pub transaction_type: Option<TransactionType>,
    pub search: Option<String>,
    pub exclude: Option<String>,
}

pub struct Filter {}

/// Whether the transaction has a note and the text stands in it, letter
/// for letter. A transaction without a note holds no text, not even the
/// empty one.
pub open spec fn note_holds(t: Transaction, text: Seq<char>) -> bool {
    t.note matches Some(n) && contains_text(n@, text)
}

/// Whether the request keeps the transaction. The range of dates is open
/// below and closed above.
pub open spec fn passes(t: Transaction, request: Request) -> bool {
    &&& request.from matches Some(from) ==> earlier(from, t.date)
    &&& request.to matches Some(to) ==> !earlier(to, t.date)
    &&& request.transaction_type matches Some(wanted) ==> t.transaction_type == wanted
    &&& request.search matches Some(search) ==> note_holds(t, search@)
    &&& request.exclude matches Some(exclude) ==> !note_holds(t, exclude@)
}

/// The transactions that the request keeps.
pub open spec fn kept_by(request: Request) -> spec_fn(Transaction) -> bool {
    |t: Transaction| passes(t, request)
}

/// A test that keeps everything leaves a sequence as it is.
pub proof fn filter_that_keeps_all<A>(s: Seq<A>, keep: spec_fn(A) -> bool)
    requires
        forall|i: int| 0 <= i < s.len() ==> keep(#[trigger] s[i]),
    ensures
        s.filter(keep) == s,
    decreases s.len(),
{
    reveal(Seq::filter);
    if s.len() > 0 {
        let rest = s.drop_last();
        assert forall|i: int| 0 <= i < rest.len() implies keep(#[trigger] rest[i]) by {
            assert(rest[i] == s[i]);
        }
        filter_that_keeps_all(rest, keep);
        assert(keep(s.last()));
        assert(rest.push(s.last()) =~= s);
    }
}

impl Request {
    /// A request without a test on the note's exclusion.
    pub fn new(
        from: Option<Date>,
        to: Option<Date>,
        transaction_type: Option<TransactionType>,
        search: Option<String>,
    ) -> (r: Self)
        ensures
            r == (Request { from, to, transaction_type, search, exclude: None }),
    {
        Request { from, to, transaction_type, search, exclude: None }
    }

    /// Whether every field is absent.
    pub open spec fn is_empty(&self) -> bool {
        self.from is None && self.to is None && self.transaction_type is None && self.search
            is None && self.exclude is None
    }

    /// Whether every field is absent.
    pub fn empty(&self) -> (r: bool)
        ensures
            r == self.is_empty(),
    {
        self.from.is_none() && self.to.is_none() && self.transaction_type.is_none()
            && self.search.is_none() && self.exclude.is_none()
    }

    /// The date after which a store looks for transactions: `from`, and the
    /// first day of 1900 where it is absent.
    pub fn from_or_default(&self) -> (r: Date)
        ensures
            r == match self.from {
                Some(d) => d,
                None => Date { year: 1900, month: 1, day: 1 },
            },
    {
        match self.from {
            Some(d) => d,
            None => Date { year: 1900, month: 1, day: 1 },
        }
    }

    /// The date up to which a store looks for transactions: `to`, and today
    /// where it is absent.
    pub fn to_or_default(&self, today: Date) -> (r: Date)
        ensures
            r == match self.to {
                Some(d) => d,
                None => today,
            },
    {
        match self.to {
            Some(d) => d,
            None => today,
        }
    }

    /// The request as a store looks it up: an empty request as it is, and
    /// any other with both ends of its range of dates set, the first day of
    /// 1900 and today standing for what is absent.
    pub open spec fn bounded_by(&self, today: Date) -> Request {
        if self.is_empty() {
            *self
        } else {
            Request {
                from: Some(
                    match self.from {
                        Some(d) => d,
                        None => Date { year: 1900, month: 1, day: 1 },
                    },
                ),
                to: Some(
                    match self.to {
                        Some(d) => d,
                        None => today,
                    },
                ),
                ..*self
            }
        }
    }

    /// The request as a store looks it up.
    pub fn bounded(&self, today: Date) -> (r: Request)
        ensures
            r == self.bounded_by(today),
    {
        let search = match &self.search {
            Some(s) => Some(s.clone()),
            None => None,
        };
        let exclude = match &self.exclude {
            Some(s) => Some(s.clone()),
            None => None,
        };
        if self.empty() {
            Request {
                from: self.from,
                to: self.to,
                transaction_type: self.transaction_type,
                search,
                exclude,
            }
        } else {
            Request {
                from: Some(self.from_or_default()),
                to: Some(self.to_or_default(today)),
                transaction_type: self.transaction_type,
                search,
                exclude,
            }
        }
    }

    /// Whether the request keeps the transaction.
    pub fn keeps(&self, transaction: &Transaction) -> (r: bool)
        ensures
            r == passes(*transaction, *self),
    {
        if let Some(from) = &self.from {
            if !from.is_before(&transaction.date) {
                return false;
            }
        }
        if let Some(to) = &self.to {
            if to.is_before(&transaction.date) {
                return false;
            }
        }
        if let Some(wanted) = &self.transaction_type {
            if transaction.transaction_type != *wanted {
                return false;
            }
        }
        if self.search.is_none() && self.exclude.is_none() {
            return true;
        }
        let note: Vec<char> = match &transaction.note {
            Some(n) => chars_of(n.as_str()),
            None => return self.search.is_none(),
        };
        if let Some(search) = &self.search {
            let wanted = chars_of(search.as_str());
            if !contains(&note, &wanted) {
                return false;
            }
        }
        if let Some(exclude) = &self.exclude {
            let unwanted = chars_of(exclude.as_str());
            if contains(&note, &unwanted) {
                return false;
            }
        }
        true
    }
}

impl Filter {
    /// The transactions that the request keeps, in their order. An empty
    /// request hands the transactions back as they came.
    pub fn apply(transactions: Vec<Transaction>, request: &Request) -> (r: Vec<Transaction>)
        ensures
            r@ == transactions@.filter(kept_by(*request)),
            request.is_empty() ==> r == transactions,
    {
        if request.empty() {
            proof {
                filter_that_keeps_all(transactions@, kept_by(*request));
            }
            return transactions;
        }
        let ghost keep = kept_by(*request);
        let mut kept: Vec<Transaction> = Vec::new();
        let mut i: usize = 0;
        proof {
            assert(transactions@.take(0) =~= Seq::<Transaction>::empty());
            Seq::<Transaction>::empty().lemma_filter_len(keep);
        }
        while i < transactions.len()
            invariant
                i <= transactions.len(),
                keep == kept_by(*request),
                kept@ == transactions@.take(i as int).filter(keep),
            decreases transactions.len() - i,
        {
            proof {
                transactions@.lemma_take_succ_push(i as int);
                transactions@.take(i as int).lemma_filter_push(transactions@[i as int], keep);
            }
            if request.keeps(&transactions[i]) {
                kept.push(transactions[i].duplicate());
            }
            i += 1;
        }
        proof {
            assert(transactions@.take(i as int) =~= transactions@);
        }
        kept
    }
}

/// An empty request keeps every transaction: what comes out is what went
/// in, in the same order.
pub proof fn empty_request_keeps_everything(transactions: Seq<Transaction>, request: Request)
    requires
        request.is_empty(),
    ensures
        transactions.filter(kept_by(request)) == transactions,
{
    filter_that_keeps_all(transactions, kept_by(request));
}

/// The range of dates is open below and closed above: a transaction of the
/// day `from` is left out, and the day `to` sets no bound on a transaction of
/// that day.
pub proof fn date_range_is_open_below_and_closed_above(t: Transaction, request: Request)
    ensures
        request.from == Some(t.date) ==> !passes(t, request),
        request.to == Some(t.date) ==> (passes(t, request) <==> passes(
            t,
            Request { to: None, ..request },
        )),
{
}

/// What a store looks up for a request is what the request keeps among the
/// transactions after the first day of 1900 and up to today; for an empty
/// request it is everything.
pub proof fn bounded_request_keeps_within_bounds(t: Transaction, request: Request, today: Date)
    ensures
        request.is_empty() ==> passes(t, request.bounded_by(today)),
        !request.is_empty() ==> (passes(t, request.bounded_by(today)) <==> (passes(t, request) && (
        request.from is None ==> earlier(Date { year: 1900, month: 1, day: 1 }, t.date)) && (
        request.to is None ==> !earlier(today, t.date)))),
{
}

/// A transaction without a note is kept by no search and dropped by no
/// exclusion, whatever the text.
pub proof fn absent_note_holds_nothing(t: Transaction, request: Request)
    requires
        t.note is None,
    ensures
        request.search is Some ==> !passes(t, request),
        passes(t, request) <==> passes(t, Request { exclude: None, ..request }),
{
}

/// A filter keeps nothing that the request does not pass, and nothing that
/// was not in the input.
pub proof fn kept_transactions_pass(transactions: Seq<Transaction>, request: Request, i: int)
    requires
        0 <= i < transactions.filter(kept_by(request)).len(),
    ensures
        passes(transactions.filter(kept_by(request))[i], request),
        transactions.contains(transactions.filter(kept_by(request))[i]),
{
    let kept = transactions.filter(kept_by(request));
    transactions.lemma_filter_pred(kept_by(request), i);
    assert(kept.contains(kept[i]));
    transactions.lemma_filter_contains_rev(kept_by(request), kept[i]);
}

/// How exactly a text names a date.
#[derive(Clone, Copy, Debug, PartialEq, Eq, Structural)]
pub enum DateShape {
    /// A year, a month and a day.
    Day,
    /// A year and a month.
    Month,
    /// A year.
    Year,
}

/// The shape of a text: that of the first of the three patterns that it
/// matches.
pub open spec fn shape_of(input: Seq<char>) -> Option<DateShape> {
    if pattern_matches("^\\d{4}-\\d{2}-\\d{2}$"@, input) == Some(true) {
        Some(DateShape::Day)
    } else if pattern_matches("^\\d{4}-\\d{2}$"@, input) == Some(true) {
        Some(DateShape::Month)
    } else if pattern_matches("^\\d{4}$"@, input) == Some(true) {
        Some(DateShape::Year)
    } else {
        None
    }
}

/// The text of the first day that a text of a shape names.
pub open spec fn first_day_text(input: Seq<char>, shape: DateShape) -> Seq<char> {
    match shape {
        DateShape::Day => input,
        DateShape::Month => input + "-01"@,
        DateShape::Year => input + "-01-01"@,
    }
}

/// The text of a day of the last month that a text of a shape names: the
/// day itself, the first day of the month, or the last day of the year.
pub open spec fn last_month_text(input: Seq<char>, shape: DateShape) -> Seq<char> {
    match shape {
        DateShape::Day => input,
        DateShape::Month => input + "-01"@,
        DateShape::Year => input + "-12-31"@,
    }
}

/// The first day that a text of a shape names, where it names one.
pub open spec fn first_day(input: Seq<char>, shape: DateShape) -> Option<Date> {
    parsed_date(first_day_text(input, shape), "%Y-%m-%d"@)
}

/// The last day that a text of a shape names, where it names one.
pub open spec fn last_day(input: Seq<char>, shape: DateShape) -> Option<Date> {
    match parsed_date(last_month_text(input, shape), "%Y-%m-%d"@) {
        Some(date) => if shape == DateShape::Month {
            Some(
                Date {
                    year: date.year,
                    month: date.month,
                    day: days_in_month(date.year as int, date.month as int) as u32,
                },
            )
        } else {
            Some(date)
        },
        None => None,
    }
}

/// The text of the error for a text of no shape.
pub open spec fn no_shape_text(input: Seq<char>) -> Seq<char> {
    "Could not parse date "@ + input + ". Please use format 'YYYY-MM-DD'"@
}

/// The text of the error for a text that names no date, up to what `chrono`
/// says of it.
pub open spec fn no_date_text(input: Seq<char>) -> Seq<char> {
    "Could not parse date "@ + input + ": "@
}

/// Whether the result is the date, or the error of a text that names none.
pub open spec fn reports_date(r: Result<Date, Error>, date: Option<Date>, input: Seq<char>) -> bool {
    match date {
        Some(d) => r == Ok::<Date, Error>(d),
        None => r matches Err(Error::Argument(m)) && begins_with(m@, no_date_text(input)),
    }
}

/// Whether the result is what the text asks for: the date that it names,
/// or the error of an empty text, of a text of no shape, or of one that
/// names no date.
pub open spec fn reports_bound(
    r: Result<Date, Error>,
    input: Seq<char>,
    date: spec_fn(DateShape) -> Option<Date>,
) -> bool {
    if input.len() == 0 {
        r matches Err(Error::Argument(m)) && m@ == "Date input must not be empty"@
    } else {
        match shape_of(input) {
            Some(shape) => reports_date(r, date(shape), input),
            None => r matches Err(Error::Argument(m)) && m@ == no_shape_text(input),
        }
    }
}

/// The error for a text that names no date.
fn no_date_error(input: &str, error: &chrono::ParseError) -> (r: Error)
    ensures
        r matches Error::Argument(m) && begins_with(m@, no_date_text(input@)),
{
    let start = String::from_str("Could not parse date ").concat(input).concat(": ");
    let ghost prefix = start@;
    let text = start.concat(parse_error_text(error).as_str());
    proof {
        assert(text@.subrange(0, prefix.len() as int) =~= prefix);
    }
    Error::Argument(text)
}

impl Request {
    /// The shape of a text: that of the first of the three patterns that it
    /// matches.
    pub fn date_shape(input: &str) -> (r: Option<DateShape>)
        ensures
            r == shape_of(input@),
    {
        if let Some(true) = matches_pattern("^\\d{4}-\\d{2}-\\d{2}$", input) {
            Some(DateShape::Day)
        } else if let Some(true) = matches_pattern("^\\d{4}-\\d{2}$", input) {
            Some(DateShape::Month)
        } else if let Some(true) = matches_pattern("^\\d{4}$", input) {
            Some(DateShape::Year)
        } else {
            None
        }
    }

    /// The first day that a text of the given shape names.
    pub fn first_day_of(input: &str, shape: DateShape) -> (r: Result<Date, Error>)
        ensures
            reports_date(r, first_day(input@, shape), input@),
            r matches Ok(d) ==> d.well_formed(),
    {
        let prepared = match shape {
            DateShape::Day => input.to_owned(),
            DateShape::Month => String::from_str(input).concat("-01"),
            DateShape::Year => String::from_str(input).concat("-01-01"),
        };
        match parse_date(prepared.as_str(), "%Y-%m-%d") {
            Ok(date) => Ok(date),
            Err(error) => Err(no_date_error(input, &error)),
        }
    }

    /// The last day that a text of the given shape names.
    pub fn last_day_of(input: &str, shape: DateShape) -> (r: Result<Date, Error>)
        ensures
            reports_date(r, last_day(input@, shape), input@),
            r matches Ok(d) ==> d.well_formed(),
    {
        let prepared = match shape {
            DateShape::Day => input.to_owned(),
            DateShape::Month => String::from_str(input).concat("-01"),
            DateShape::Year => String::from_str(input).concat("-12-31"),
        };
        match parse_date(prepared.as_str(), "%Y-%m-%d") {
            Ok(date) => match shape {
                DateShape::Month => Ok(date.last_day_of_month()),
                _ => Ok(date),
            },
            Err(error) => Err(no_date_error(input, &error)),
        }
    }

    /// The day after which to look, from a text that names a day, a month
    /// or a year: the day itself, or the first day of the month or year.
    pub fn parse_from_date(input: &str) -> (r: Result<Date, Error>)
        ensures
            reports_bound(r, input@, |shape: DateShape| first_day(input@, shape)),
            r matches Ok(d) ==> d.well_formed(),
    {
        if input.unicode_len() == 0 {
            return Err(Error::Argument("Date input must not be empty".to_owned()));
        }
        match Request::date_shape(input) {
            Some(shape) => Request::first_day_of(input, shape),
            None => Err(
                Error::Argument(
                    String::from_str("Could not parse date ").concat(input).concat(
                        ". Please use format 'YYYY-MM-DD'",
                    ),
                ),
            ),
        }
    }

    /// The day up to which to look, from a text that names a day, a month
    /// or a year: the day itself, or the last day of the month or year.
    pub fn parse_to_date(input: &str) -> (r: Result<Date, Error>)
        ensures
            reports_bound(r, input@, |shape: DateShape| last_day(input@, shape)),
            r matches Ok(d) ==> d.well_formed(),
    {
        if input.unicode_len() == 0 {
            return Err(Error::Argument("Date input must not be empty".to_owned()));
        }
        match Request::date_shape(input) {
            Some(shape) => Request::last_day_of(input, shape),
            None => Err(
                Error::Argument(
                    String::from_str("Could not parse date ").concat(input).concat(
                        ". Please use format 'YYYY-MM-DD'",
                    ),
                ),
            ),
        }
    }

    /// The request that the arguments of a command describe. A text for a
    /// date that names none is an error, that of `from` before that of `to`.
    pub fn from_arguments(
        from: Option<String>,
        to: Option<String>,
        transaction_type: Option<TransactionType>,
        search: Option<String>,
        exclude: Option<String>,
    ) -> (r: Result<Request, Error>)
        ensures
            match r {
                Ok(request) => {
                    &&& request.transaction_type == transaction_type
                    &&& request.search == search
                    &&& request.exclude == exclude
                    &&& match from {
                        Some(text) => request.from matches Some(d) && reports_bound(
                            Ok(d),
                            text@,
                            |shape: DateShape| first_day(text@, shape),
                        ),
                        None => request.from is None,
                    }
                    &&& match to {
                        Some(text) => request.to matches Some(d) && reports_bound(
                            Ok(d),
                            text@,
                            |shape: DateShape| last_day(text@, shape),
                        ),
                        None => request.to is None,
                    }
                    &&& request.dates_well_formed()
                },
                Err(error) => {
                    ||| from matches Some(text) && reports_bound(
                        Err(error),
                        text@,
                        |shape: DateShape| first_day(text@, shape),
                    )
                    ||| to matches Some(text) && reports_bound(
                        Err(error),
                        text@,
                        |shape: DateShape| last_day(text@, shape),
                    )
                },
            },
    {
        let from_date = match &from {
            Some(text) => match Request::parse_from_date(text.as_str()) {
                Ok(d) => Some(d),
                Err(e) => return Err(e),
            },
            None => None,
        };
        let to_date = match &to {
            Some(text) => match Request::parse_to_date(text.as_str()) {
                Ok(d) => Some(d),
                Err(e) => return Err(e),
            },
            None => None,
        };
        Ok(Request { from: from_date, to: to_date, transaction_type, search, exclude })
    }

    /// Whether the dates of the request are days of the calendar.
    pub open spec fn dates_well_formed(&self) -> bool {
        &&& self.from matches Some(d) ==> d.well_formed()
        &&& self.to matches Some(d) ==> d.well_formed()
    }

    /// The request in words: the category, the dates and the text to look
    /// for, as far as they are there.
    pub open spec fn description(&self) -> Seq<char> {
        (match self.transaction_type {
            Some(wanted) => "Typ:"@ + wanted.label() + (if self.from is Some || self.to is Some {
                ", "@
            } else {
                Seq::<char>::empty()
            }),
            None => Seq::<char>::empty(),
        }) + (match self.from {
            Some(from) => "Von:"@ + date_text(from) + ", "@,
            None => Seq::<char>::empty(),
        }) + (match self.to {
            Some(to) => "Bis:"@ + date_text(to),
            None => Seq::<char>::empty(),
        }) + (match self.search {
            Some(search) => "Enthält:"@ + search@,
            None => Seq::<char>::empty(),
        })
    }

    /// The request in words.
    pub fn describe(&self) -> (r: String)
        requires
            self.dates_well_formed(),
        ensures
            r@ == self.description(),
    {
        let mut s = String::new();
        if let Some(wanted) = self.transaction_type {
            s.append("Typ:");
            s.append(wanted.to_str());
            if self.from.is_some() || self.to.is_some() {
                s.append(", ");
            }
        }
        if let Some(from) = &self.from {
            s.append("Von:");
            s.append(write_date(from).as_str());
            s.append(", ");
        }
        if let Some(to) = &self.to {
            s.append("Bis:");
            s.append(write_date(to).as_str());
        }
        if let Some(search) = &self.search {
            s.append("Enthält:");
            s.append(search.as_str());
        }
        proof {
            assert(s@ =~= self.description());
        }
        s
    }
}

} // verus!
