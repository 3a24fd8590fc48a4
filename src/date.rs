//! Calendar dates in the proleptic Gregorian calendar.

use vstd::prelude::*;
use chrono::Datelike;
use crate::text::text_eq;

verus! {

/// The earliest year a date can carry.
pub const MIN_YEAR: i32 = -262143;

/// The latest year a date can carry.
pub const MAX_YEAR: i32 = 262142;

pub open spec fn is_leap_year(y: int) -> bool {
    y % 4 == 0 && (y % 100 != 0 || y % 400 == 0)
}

pub open spec fn days_in_month(y: int, m: int) -> int {
    if m == 2 {
        if is_leap_year(y) {
            29
        } else {
            28
        }
    } else if m == 4 || m == 6 || m == 9 || m == 11 {
        30
    } else {
        31
    }
}

/// Whether year, month and day name an existing day within the supported years.
pub open spec fn valid_ymd(y: int, m: int, d: int) -> bool {
    &&& MIN_YEAR <= y <= MAX_YEAR
    &&& 1 <= m <= 12
    &&& 1 <= d <= days_in_month(y, m)
}

/// A calendar day.
#[derive(Clone, Copy, Debug, PartialEq, Eq, Structural, Hash, PartialOrd, Ord)]
pub struct CalendarDate {
    pub year: i32,
    pub month: u32,
    pub day: u32,
}

impl CalendarDate {
    /// Whether the date exists.
    pub open spec fn wf(self) -> bool {
        valid_ymd(self.year as int, self.month as int, self.day as int)
    }
}

/// Whether `a` is earlier than `b`.
pub open spec fn date_lt(a: CalendarDate, b: CalendarDate) -> bool {
    a.year < b.year || (a.year == b.year && (a.month < b.month || (a.month == b.month && a.day
        < b.day)))
}

/// Whether `a` is earlier than or the same as `b`.
pub open spec fn date_le(a: CalendarDate, b: CalendarDate) -> bool {
    date_lt(a, b) || a == b
}

/// Whether `a` is earlier than `b`.
pub fn earlier(a: &CalendarDate, b: &CalendarDate) -> (r: bool)
    ensures
        r == date_lt(*a, *b),
{
    a.year < b.year || (a.year == b.year && (a.month < b.month || (a.month == b.month && a.day
        < b.day)))
}

/// Relies on chrono's `NaiveDate::from_ymd_opt`: a date exactly when the year lies within
/// chrono's range and the month and day exist in the proleptic Gregorian calendar.
#[verifier::external_body]
pub(crate) fn ymd_date(year: i32, month: u32, day: u32) -> (r: Option<CalendarDate>)
    ensures
        r == (if valid_ymd(year as int, month as int, day as int) {
            Some(CalendarDate { year, month, day })
        } else {
            None
        }),
{
    match chrono::NaiveDate::from_ymd_opt(year, month, day) {
        Some(d) => Some(CalendarDate { year: d.year(), month: d.month(), day: d.day() }),
        None => None,
    }
}

/// What chrono's `NaiveDate::parse_from_str` reads from a text with the format
/// `%Y-%m-%d`, as year, month and day.
pub uninterp spec fn iso_date_text(s: Seq<char>) -> Option<(i32, u32, u32)>;

/// The date that year, month and day make, if any.
pub open spec fn date_from_parts(p: Option<(i32, u32, u32)>) -> Option<CalendarDate> {
    match p {
        Some((y, m, d)) => Some(CalendarDate { year: y, month: m, day: d }),
        None => None,
    }
}

/// The date an ISO calendar-date text denotes, if any.
pub open spec fn iso_date(s: Seq<char>) -> Option<CalendarDate> {
    date_from_parts(iso_date_text(s))
}

/// Relies on chrono's `NaiveDate::parse_from_str` with the format `%Y-%m-%d`; every date
/// chrono yields exists.
#[verifier::external_body]
pub(crate) fn parse_iso_date(s: &str) -> (r: Option<CalendarDate>)
    ensures
        r == date_from_parts(iso_date_text(s@)),
        r matches Some(d) ==> d.wf(),
{
    match chrono::NaiveDate::parse_from_str(s, "%Y-%m-%d") {
        Ok(d) => Some(CalendarDate { year: d.year(), month: d.month(), day: d.day() }),
        Err(_) => None,
    }
}

/// Relies on chrono's `Local::now`: the current year in the machine's time zone.
#[verifier::external_body]
pub(crate) fn current_year() -> (r: i32) {
    chrono::Local::now().year()
}

/// The number of the month a calendar displays under this name.
pub open spec fn month_of(name: Seq<char>) -> Option<u32> {
    if name == "January"@ {
        Some(1)
    } else if name == "February"@ {
        Some(2)
    } else if name == "March"@ {
        Some(3)
    } else if name == "April"@ {
        Some(4)
    } else if name == "May"@ {
        Some(5)
    } else if name == "June"@ {
        Some(6)
    } else if name == "July"@ {
        Some(7)
    } else if name == "August"@ {
        Some(8)
    } else if name == "September"@ {
        Some(9)
    } else if name == "October"@ {
        Some(10)
    } else if name == "November"@ {
        Some(11)
    } else if name == "December"@ {
        Some(12)
    } else {
        None
    }
}

/// Maps an English month name to its number, `1` for January.
pub fn month_number(name: &str) -> (r: Option<u32>)
    ensures
        r == month_of(name@),
{
    if text_eq(name, "January") {
        Some(1)
    } else if text_eq(name, "February") {
        Some(2)
    } else if text_eq(name, "March") {
        Some(3)
    } else if text_eq(name, "April") {
        Some(4)
    } else if text_eq(name, "May") {
        Some(5)
    } else if text_eq(name, "June") {
        Some(6)
    } else if text_eq(name, "July") {
        Some(7)
    } else if text_eq(name, "August") {
        Some(8)
    } else if text_eq(name, "September") {
        Some(9)
    } else if text_eq(name, "October") {
        Some(10)
    } else if text_eq(name, "November") {
        Some(11)
    } else if text_eq(name, "December") {
        Some(12)
    } else {
        None
    }
}

} // verus!
