//! What the library takes from the `chrono` crate: reading a date from text,
//! writing one, and counting the days between two.

use crate::date::Date;
use crate::numbers::{digits_of, two_digit_text};
use crate::rounding::magnitude;
use chrono::{Datelike, NaiveDate};
use vstd::prelude::*;

verus! {

/// The error that `chrono` reports for a text that is no date.
#[verifier::external_type_specification]
#[verifier::external_body]
pub struct ExParseError(chrono::ParseError);

/// The date that `chrono::NaiveDate::parse_from_str` reads from `text` in
/// the given format; none where it reports an error.
pub uninterp spec fn parsed_date(text: Seq<char>, format: Seq<char>) -> Option<Date>;

/// The number of days from the first date to the second as
/// `chrono::NaiveDate::signed_duration_since` counts them, below zero where
/// the second date is the earlier one.
pub uninterp spec fn days_apart(from: Date, to: Date) -> int;

/// The digits with zeros in front, four characters wide at least.
pub open spec fn four_wide(digits: Seq<char>) -> Seq<char> {
    if digits.len() == 1 {
        seq!['0', '0', '0'] + digits
    } else if digits.len() == 2 {
        seq!['0', '0'] + digits
    } else if digits.len() == 3 {
        seq!['0'] + digits
    } else {
        digits
    }
}

/// The year as `chrono` writes it: four digits at least, with a sign in
/// front for a year below 0 or above 9999.
pub open spec fn year_text(year: int) -> Seq<char> {
    (if year < 0 {
        seq!['-']
    } else if year > 9999 {
        seq!['+']
    } else {
        Seq::<char>::empty()
    }) + four_wide(digits_of(magnitude(year)))
}

/// The text that `chrono` writes for a date: the year, the month and the day,
/// with hyphens between them and two digits each for month and day.
pub open spec fn date_text(date: Date) -> Seq<char> {
    year_text(date.year as int) + seq!['-'] + two_digit_text(date.month as int) + seq!['-']
        + two_digit_text(date.day as int)
}

/// The day, the month and the year with points between them, two digits
/// each for day and month.
pub open spec fn dotted_date_text(date: Date) -> Seq<char> {
    two_digit_text(date.day as int) + seq!['.'] + two_digit_text(date.month as int) + seq!['.']
        + year_text(date.year as int)
}

/// The text that `chrono::NaiveDate::format` writes for a date in the format
/// `%Y-%m-%d`, which is `date_text`, and in the format `%d.%m.%Y`.
pub open spec fn formatted_date(date: Date, format: Seq<char>) -> Seq<char> {
    if format == "%Y-%m-%d"@ {
        date_text(date)
    } else {
        dotted_date_text(date)
    }
}

/// Calls `chrono::NaiveDate::format` and writes what it returns. The
/// contract claims what `chrono` documents of the items `%Y`, `%m` and `%d`:
/// the year zero-padded to four digits, with a sign for a year below 0 or
/// above 9999, and month and day zero-padded to two digits.
/// `NaiveDate::from_ymd_opt` has every well-formed date, and both formats
/// are ones that `chrono` knows.
#[verifier::external_body]
pub(crate) fn format_date(date: &Date, format: &str) -> (r: String)
    requires
        date.well_formed(),
        format@ == "%d.%m.%Y"@ || format@ == "%Y-%m-%d"@,
    ensures
        r@ == formatted_date(*date, format@),
{
    NaiveDate::from_ymd_opt(date.year, date.month, date.day).unwrap().format(format).to_string()
}

/// Calls `chrono::NaiveDate::parse_from_str` and hands the year, the month
/// and the day of its result on. The contract names the result; of a date
/// that was read it claims that the calendar has it, which holds of every
/// `NaiveDate`.
#[verifier::external_body]
pub(crate) fn parse_date(text: &str, format: &str) -> (r: Result<Date, chrono::ParseError>)
    ensures
        match r {
            Ok(date) => parsed_date(text@, format@) == Some(date) && date.well_formed(),
            Err(_) => parsed_date(text@, format@) is None,
        },
{
    match NaiveDate::parse_from_str(text, format) {
        Ok(date) => Ok(Date { year: date.year(), month: date.month(), day: date.day() }),
        Err(error) => Err(error),
    }
}

/// Calls the `Display` impl of `chrono::ParseError`. Nothing is claimed of
/// the text.
#[verifier::external_body]
pub(crate) fn parse_error_text(error: &chrono::ParseError) -> (r: String) {
    error.to_string()
}

/// Calls `chrono::NaiveDate::signed_duration_since` on the two dates and
/// `TimeDelta::num_days` on what it returns. The contract names the result.
/// `NaiveDate::from_ymd_opt` has every well-formed date.
#[verifier::external_body]
pub(crate) fn days_between(from: &Date, to: &Date) -> (r: i64)
    requires
        from.well_formed(),
        to.well_formed(),
    ensures
        r == days_apart(*from, *to),
{
    let first = NaiveDate::from_ymd_opt(from.year, from.month, from.day).unwrap();
    let second = NaiveDate::from_ymd_opt(to.year, to.month, to.day).unwrap();
    second.signed_duration_since(first).num_days()
}

/// Calls the `Display` impl of `chrono::NaiveDate`, which `chrono` documents
/// to write what the format `%Y-%m-%d` writes. The contract claims that text.
/// `NaiveDate::from_ymd_opt` has every well-formed date.
#[verifier::external_body]
pub(crate) fn write_date(date: &Date) -> (r: String)
    requires
        date.well_formed(),
    ensures
        r@ == date_text(*date),
{
    NaiveDate::from_ymd_opt(date.year, date.month, date.day).unwrap().to_string()
}

} // verus!
