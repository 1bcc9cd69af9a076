//! Calendar dates as year, month and day.

use vstd::prelude::*;

verus! {

/// A day of the Gregorian calendar.
#[derive(Debug, Clone, Copy, PartialEq, Eq, Structural)]
pub struct Date {
    pub year: i32,
    pub month: u32,
    pub day: u32,
}

/// Whether `year` is a leap year.
pub open spec fn is_leap_year(year: int) -> bool {
    year % 4 == 0 && (year % 100 != 0 || year % 400 == 0)
}

/// The number of days of a month, 0 for a month that does not exist.
pub open spec fn days_in_month(year: int, month: int) -> int {
    if month == 2 {
        if is_leap_year(year) {
            29
        } else {
            28
        }
    } else if month == 4 || month == 6 || month == 9 || month == 11 {
        30
    } else if 1 <= month <= 12 {
        31
    } else {
        0
    }
}

/// The first year that a date can have.
pub const MIN_YEAR: i32 = -262143;

/// The last year that a date can have.
pub const MAX_YEAR: i32 = 262142;

/// Whether the first date lies strictly before the second: by year, then by
/// month, then by day.
pub open spec fn earlier(a: Date, b: Date) -> bool {
    a.year < b.year || (a.year == b.year && (a.month < b.month || (a.month == b.month && a.day
        < b.day)))
}

/// Whether `year` is a leap year.
pub fn leap_year(year: i32) -> (r: bool)
    ensures
        r == is_leap_year(year as int),
{
    // A multiple of 400 that lifts every year above zero without changing
    // any of the three remainders.
    let lifted: i64 = year as i64 + 2147484000;
    assert(lifted as int % 4 == year as int % 4);
    assert(lifted as int % 100 == year as int % 100);
    assert(lifted as int % 400 == year as int % 400);
    lifted % 4 == 0 && (lifted % 100 != 0 || lifted % 400 == 0)
}

impl Date {
    /// Whether the month exists and the day lies within it.
    pub open spec fn is_calendar_date(&self) -> bool {
        1 <= self.month <= 12 && 1 <= self.day <= days_in_month(
            self.year as int,
            self.month as int,
        )
    }

    /// Whether the calendar has such a day and the year is one that a date
    /// can have.
    pub open spec fn well_formed(&self) -> bool {
        self.is_calendar_date() && MIN_YEAR <= self.year <= MAX_YEAR
    }

    /// The date with these parts, where the calendar has such a day in a
    /// year that a date can have.
    pub fn new(year: i32, month: u32, day: u32) -> (r: Option<Date>)
        ensures
            r == if (Date { year, month, day }).well_formed() {
                Some(Date { year, month, day })
            } else {
                None
            },
    {
        if year < MIN_YEAR || year > MAX_YEAR || month < 1 || month > 12 || day < 1 {
            return None;
        }
        if day <= Date::month_length(year, month) {
            Some(Date { year, month, day })
        } else {
            None
        }
    }

    /// The number of days of a month.
    pub fn month_length(year: i32, month: u32) -> (r: u32)
        ensures
            r == days_in_month(year as int, month as int),
    {
        if month == 2 {
            if leap_year(year) {
                29
            } else {
                28
            }
        } else if month == 4 || month == 6 || month == 9 || month == 11 {
            30
        } else if 1 <= month && month <= 12 {
            31
        } else {
            0
        }
    }

    /// Whether this date lies strictly before `other`.
    pub fn is_before(&self, other: &Date) -> (r: bool)
        ensures
            r == earlier(*self, *other),
    {
        self.year < other.year || (self.year == other.year && (self.month < other.month || (
        self.month == other.month && self.day < other.day)))
    }

    /// Whether this date lies strictly after `other`.
    pub fn is_after(&self, other: &Date) -> (r: bool)
        ensures
            r == earlier(*other, *self),
    {
        other.is_before(self)
    }

    /// The last day of this date's month.
    pub fn last_day_of_month(&self) -> (r: Date)
        requires
            self.well_formed(),
        ensures
            r == (Date {
                year: self.year,
                month: self.month,
                day: days_in_month(self.year as int, self.month as int) as u32,
            }),
            r.well_formed(),
    {
        Date { year: self.year, month: self.month, day: Date::month_length(self.year, self.month) }
    }
}

} // verus!
