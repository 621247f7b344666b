//! Days of the calendar, as the year, month and day that a date string
//! spells.

use chrono::Datelike;
use vstd::prelude::*;

verus! {

/// The first year that a date can lie in.
pub const MIN_YEAR: i32 = -262143;

/// The last year that a date can lie in.
pub const MAX_YEAR: i32 = 262142;

/// Whether `year` has a 29th of February. Years before year 1 are counted on
/// as if the calendar had always been in use; year 0 is a leap year.
pub open spec fn is_leap_year(year: int) -> bool {
    year % 4 == 0 && (year % 100 != 0 || year % 400 == 0)
}

/// The number of days of the given month of the given year.
pub open spec fn days_in_month(year: int, month: int) -> int {
    if month == 2 {
        if is_leap_year(year) {
            29
        } else {
            28
        }
    } else if month == 4 || month == 6 || month == 9 || month == 11 {
        30
    } else {
        31
    }
}

/// The three numbers name a day of the calendar.
pub open spec fn is_calendar_day(year: int, month: int, day: int) -> bool {
    &&& MIN_YEAR <= year <= MAX_YEAR
    &&& 1 <= month <= 12
    &&& 1 <= day <= days_in_month(year, month)
}

/// A day of the calendar.
///
/// The account rules never read a date; it is carried with the record it
/// belongs to and handed back unchanged. Every `Date` names a day that
/// exists: there is no way to make one that does not.
#[derive(PartialEq, Eq, Clone, Copy, Debug, Structural)]
pub struct Date {
    year: i32,
    month: u32,
    day: u32,
}

/// The mathematical content of a `Date`.
pub struct DateView {
    pub year: int,
    pub month: int,
    pub day: int,
}

impl View for Date {
    type V = DateView;

    closed spec fn view(&self) -> DateView {
        DateView { year: self.year as int, month: self.month as int, day: self.day as int }
    }
}

/// The date that `chrono` reads from `text` under the format `%Y-%m-%d`, or
/// `None` where `chrono` rejects the text.
pub uninterp spec fn parsed_date(text: Seq<char>) -> Option<Date>;

/// Calls `chrono::NaiveDate::parse_from_str` with the format `%Y-%m-%d` and
/// splits the date it returns into year, month and day.
///
/// Nothing is proved of this function. Its contract claims two things of
/// `chrono`. The outcome is a function of the text alone, which `parsed_date`
/// names: the parser reads no clock, locale or environment. And a date that
/// `chrono` hands out is a day of the calendar within its range of years.
#[verifier::external_body]
pub(crate) fn parse_date(text: &str) -> (date: Option<Date>)
    ensures
        date == parsed_date(text@),
        date matches Some(d) ==> is_calendar_day(d@.year, d@.month, d@.day),
{
    match chrono::NaiveDate::parse_from_str(text, "%Y-%m-%d") {
        Ok(d) => Some(Date { year: d.year(), month: d.month(), day: d.day() }),
        Err(_) => None,
    }
}

fn leap_year(year: i32) -> (leap: bool)
    requires
        MIN_YEAR <= year <= MAX_YEAR,
    ensures
        leap == is_leap_year(year as int),
{
    // 400 000 is a multiple of 400, so adding it changes no remainder.
    let shifted: u32 = (year + 400_000) as u32;
    shifted % 4 == 0 && (shifted % 100 != 0 || shifted % 400 == 0)
}

impl Date {
    #[verifier::type_invariant]
    spec fn names_a_day(self) -> bool {
        is_calendar_day(self.year as int, self.month as int, self.day as int)
    }

    /// The date with the given year, month and day, or `None` when there is
    /// no such day.
    pub fn new(year: i32, month: u32, day: u32) -> (date: Option<Date>)
        ensures
            date is Some <==> is_calendar_day(year as int, month as int, day as int),
            date matches Some(d) ==> d@ == (DateView {
                year: year as int,
                month: month as int,
                day: day as int,
            }),
    {
        if year < MIN_YEAR || year > MAX_YEAR || month < 1 || month > 12 || day < 1 {
            return None;
        }
        let last: u32 = if month == 2 {
            if leap_year(year) {
                29
            } else {
                28
            }
        } else if month == 4 || month == 6 || month == 9 || month == 11 {
            30
        } else {
            31
        };
        if day > last {
            None
        } else {
            Some(Date { year, month, day })
        }
    }

    /// The year.
    pub fn year(&self) -> (year: i32)
        ensures
            year == self@.year,
            MIN_YEAR <= year <= MAX_YEAR,
    {
        proof {
            use_type_invariant(self);
        }
        self.year
    }

    /// The month, from 1 for January to 12 for December.
    pub fn month(&self) -> (month: u32)
        ensures
            month == self@.month,
            1 <= month <= 12,
    {
        proof {
            use_type_invariant(self);
        }
        self.month
    }

    /// The day of the month, from 1.
    pub fn day(&self) -> (day: u32)
        ensures
            day == self@.day,
            1 <= day <= days_in_month(self@.year, self@.month),
    {
        proof {
            use_type_invariant(self);
        }
        self.day
    }
}

} // verus!
