//! The months of the year and their names.

use vstd::prelude::*;

verus! {

#[derive(Clone, Copy, Debug, PartialEq, Eq, Structural)]
pub enum Month {
    January,
    February,
    March,
    April,
    May,
    June,
    July,
    August,
    September,
    October,
    November,
    December,
}

impl Month {
    /// The number of the month, from 1 for January to 12 for December.
    pub open spec fn number(self) -> int {
        match self {
            Month::January => 1,
            Month::February => 2,
            Month::March => 3,
            Month::April => 4,
            Month::May => 5,
            Month::June => 6,
            Month::July => 7,
            Month::August => 8,
            Month::September => 9,
            Month::October => 10,
            Month::November => 11,
            Month::December => 12,
        }
    }

    /// The name of the month as it is printed.
    pub open spec fn name(self) -> Seq<char> {
        match self {
            Month::January => "Jänner"@,
            Month::February => "Februar"@,
            Month::March => "März"@,
            Month::April => "April"@,
            Month::May => "Mai"@,
            Month::June => "Juni"@,
            Month::July => "Juli"@,
            Month::August => "August"@,
            Month::September => "September"@,
            Month::October => "Oktober"@,
            Month::November => "November"@,
            Month::December => "Dezember"@,
        }
    }

    pub fn name_translate(&self) -> (r: &'static str)
        ensures
            r@ == self.name(),
    {
        match self {
            Month::January => "Jänner",
            Month::February => "Februar",
            Month::March => "März",
            Month::April => "April",
            Month::May => "Mai",
            Month::June => "Juni",
            Month::July => "Juli",
            Month::August => "August",
            Month::September => "September",
            Month::October => "Oktober",
            Month::November => "November",
            Month::December => "Dezember",
        }
    }

    /// The month with the given number.
    pub fn from_int(i: u64) -> (r: Self)
        requires
            1 <= i <= 12,
        ensures
            r.number() == i,
    {
        match Month::try_from_int(i) {
            Some(month) => month,
            None => Month::December,
        }
    }

    /// The month with the given number, where there is one.
    pub fn try_from_int(i: u64) -> (r: Option<Self>)
        ensures
            1 <= i <= 12 ==> (r matches Some(month) && month.number() == i),
            !(1 <= i <= 12) ==> r is None,
    {
        if i == 1 {
            Some(Month::January)
        } else if i == 2 {
            Some(Month::February)
        } else if i == 3 {
            Some(Month::March)
        } else if i == 4 {
            Some(Month::April)
        } else if i == 5 {
            Some(Month::May)
        } else if i == 6 {
            Some(Month::June)
        } else if i == 7 {
            Some(Month::July)
        } else if i == 8 {
            Some(Month::August)
        } else if i == 9 {
            Some(Month::September)
        } else if i == 10 {
            Some(Month::October)
        } else if i == 11 {
            Some(Month::November)
        } else if i == 12 {
            Some(Month::December)
        } else {
            None
        }
    }

    /// The number of the month.
    pub fn to_int(&self) -> (r: u32)
        ensures
            r == self.number(),
    {
        match self {
            Month::January => 1,
            Month::February => 2,
            Month::March => 3,
            Month::April => 4,
            Month::May => 5,
            Month::June => 6,
            Month::July => 7,
            Month::August => 8,
            Month::September => 9,
            Month::October => 10,
            Month::November => 11,
            Month::December => 12,
        }
    }
}

} // verus!
