//! Turning what the portal shows for an office into an availability record.

use vstd::prelude::*;
use crate::date::{CalendarDate, valid_ymd, month_of, month_number, ymd_date, current_year};
use crate::models::{OfficeAvailability, texts_view};
use crate::parse::{rounded_distance, u32_text, i32_text, parse_u32, parse_i32, parse_distance};
use crate::text::{
    chars_of,
    string_from,
    trim_chars,
    remove_all,
    strip_trailing_char,
    contains_chars,
    contains_seq,
    trimmed,
    without,
    strip_trailing,
};

verus! {

/// The class that marks an office the portal shows as reservable.
pub const ACTIVE_UNIT_CLASS: &'static str = "Active-Unit";

/// The units suffix of a distance text.
pub const MILES_SUFFIX: &'static str = " Miles";

/// A markup artefact that can precede a distance text.
pub const TEXT_PREFIX: &'static str = "text=";

/// What the results page shows for one office.
pub struct OfficeListing {
    /// The office element's class attribute.
    pub classes: String,
    /// The texts of the element's `div` blocks, in document order.
    pub div_texts: Vec<String>,
    /// The text of the element's address block.
    pub address: String,
}

/// What an office's calendar shows.
pub struct CalendarView {
    pub month_text: String,
    pub year_text: String,
    /// The texts of the day cells marked available.
    pub day_texts: Vec<String>,
}

/// The first run of five digits that stands as a word of its own.
pub uninterp spec fn zip_match(address: Seq<char>) -> Option<Seq<char>>;

/// Relies on regex's `Regex::find` with the pattern `\b\d{5}\b`: the leftmost run of
/// five digits bounded by word boundaries, five characters of the address.
#[verifier::external_body]
fn find_zip(address: &str) -> (r: Option<String>)
    ensures
        match zip_match(address@) {
            Some(z) => r matches Some(s) && s@ == z,
            None => r is None,
        },
        r matches Some(s) ==> s@.len() == 5 && contains_seq(address@, s@),
{
    let re = regex::Regex::new(r"\b\d{5}\b").unwrap();
    re.find(address).map(|m| m.as_str().to_string())
}

/// The zip code of an address text: the matched digits, or empty.
pub open spec fn zip_of(address: Seq<char>) -> Seq<char> {
    match zip_match(address) {
        Some(z) => z,
        None => Seq::empty(),
    }
}

/// The street part of an address text once its zip code is removed.
pub open spec fn street_of(address: Seq<char>) -> Seq<char> {
    strip_trailing(trimmed(without(address, zip_of(address))), ',')
}

/// The office name: the trimmed text of the second `div`, or empty.
pub open spec fn name_of(divs: Seq<Seq<char>>) -> Seq<char> {
    if divs.len() > 1 {
        trimmed(divs[1])
    } else {
        Seq::empty()
    }
}

/// The distance of a listing: read from the last `div`, `0` when there is none.
pub open spec fn distance_of(divs: Seq<Seq<char>>) -> Option<u16> {
    if divs.len() == 0 {
        Some(0)
    } else {
        rounded_distance(without(without(divs.last(), MILES_SUFFIX@), TEXT_PREFIX@))
    }
}

/// The record a listing yields at a given distance, before any calendar is read.
pub open spec fn listing_record(l: OfficeListing, distance: u16) -> crate::models::OfficeView {
    crate::models::OfficeView {
        is_reservable: contains_seq(l.classes@, ACTIVE_UNIT_CLASS@),
        office_name: name_of(texts_view(l.div_texts@)),
        street_address: street_of(trimmed(l.address@)),
        distance,
        zip_code: zip_of(trimmed(l.address@)),
        available_dates: Seq::empty(),
        selected_date: None,
    }
}

/// What extraction makes of one listing.
pub enum Extracted {
    /// The office's record.
    Record(OfficeAvailability),
    /// The office lies beyond the session's maximum distance.
    TooFar,
    /// The distance text is not a number.
    BadDistance,
}

/// Reads one office listing; offices beyond `max_distance` and unreadable distances
/// yield no record.
pub fn extract_office(listing: &OfficeListing, max_distance: u16) -> (r: Extracted)
    ensures
        match distance_of(texts_view(listing.div_texts@)) {
            None => r is BadDistance,
            Some(d) => if d > max_distance {
                r is TooFar
            } else {
                r matches Extracted::Record(rec) && rec@ == listing_record(*listing, d)
            },
        },
        r matches Extracted::Record(rec) ==> rec.distance <= max_distance,
{
    let ghost divs = texts_view(listing.div_texts@);
    let n = listing.div_texts.len();
    let distance = if n == 0 {
        0u16
    } else {
        let t = remove_all(&chars_of(listing.div_texts[n - 1].as_str()), &chars_of(MILES_SUFFIX));
        let t = remove_all(&t, &chars_of(TEXT_PREFIX));
        match parse_distance(&t) {
            Some(d) => d,
            None => {
                return Extracted::BadDistance;
            },
        }
    };
    if distance > max_distance {
        return Extracted::TooFar;
    }
    let is_reservable = contains_chars(&chars_of(listing.classes.as_str()), &chars_of(ACTIVE_UNIT_CLASS));
    let office_name = if n > 1 {
        string_from(trim_chars(&chars_of(listing.div_texts[1].as_str())).as_slice())
    } else {
        String::new()
    };
    let address = string_from(trim_chars(&chars_of(listing.address.as_str())).as_slice());
    let zip_code = match find_zip(address.as_str()) {
        Some(z) => z,
        None => String::new(),
    };
    let street = remove_all(&chars_of(address.as_str()), &chars_of(zip_code.as_str()));
    let street = strip_trailing_char(&trim_chars(&street), ',');
    let rec = OfficeAvailability {
        is_reservable,
        office_name,
        street_address: string_from(street.as_slice()),
        distance,
        zip_code,
        available_dates: Vec::new(),
        selected_date: None,
    };
    Extracted::Record(rec)
}

/// The date one available-day cell yields in the given month and year, if any.
pub open spec fn day_date(month: Seq<char>, year: i32, day: Seq<char>) -> Option<CalendarDate> {
    match (month_of(month), u32_text(day)) {
        (Some(m), Some(d)) => if valid_ymd(year as int, m as int, d as int) {
            Some(CalendarDate { year, month: m, day: d })
        } else {
            None
        },
        _ => None,
    }
}

/// The dates the available-day cells yield, in order; cells that yield none are left out.
pub open spec fn calendar_days(month: Seq<char>, year: i32, days: Seq<Seq<char>>) -> Seq<CalendarDate>
    decreases days.len(),
{
    if days.len() == 0 {
        Seq::empty()
    } else {
        let prev = calendar_days(month, year, days.drop_last());
        match day_date(month, year, days.last()) {
            Some(d) => prev.push(d),
            None => prev,
        }
    }
}

/// Reads the available dates of a calendar showing `month_text` of `year`.
pub fn calendar_dates_in_year(month_text: &str, year: i32, day_texts: &Vec<String>) -> (r: Vec<CalendarDate>)
    ensures
        r@ == calendar_days(month_text@, year, texts_view(day_texts@)),
{
    let ghost days = texts_view(day_texts@);
    let month = month_number(month_text);
    let mut out: Vec<CalendarDate> = Vec::new();
    let mut k: usize = 0;
    assert(days.subrange(0, 0) =~= Seq::<Seq<char>>::empty());
    while k < day_texts.len()
        invariant
            k <= day_texts@.len(),
            days == texts_view(day_texts@),
            month == month_of(month_text@),
            out@ == calendar_days(month_text@, year, days.subrange(0, k as int)),
        decreases day_texts.len() - k,
    {
        assert(days.subrange(0, k + 1).drop_last() =~= days.subrange(0, k as int));
        assert(days.subrange(0, k + 1).last() == day_texts@[k as int]@);
        let day = parse_u32(&chars_of(day_texts[k].as_str()));
        match (month, day) {
            (Some(m), Some(d)) => {
                match ymd_date(year, m, d) {
                    Some(date) => out.push(date),
                    None => {},
                }
            },
            _ => {},
        }
        k = k + 1;
    }
    assert(days.subrange(0, day_texts@.len() as int) =~= days);
    out
}

/// Reads the available dates of a calendar; a year text that is not a number stands for
/// the current year.
pub fn calendar_dates(view: &CalendarView) -> (r: Vec<CalendarDate>)
    ensures
        i32_text(view.year_text@) matches Some(y) ==> r@ == calendar_days(
            view.month_text@,
            y,
            texts_view(view.day_texts@),
        ),
        exists|y: i32| r@ == calendar_days(view.month_text@, y, texts_view(view.day_texts@)),
{
    let year = match parse_i32(&chars_of(view.year_text.as_str())) {
        Some(y) => y,
        None => current_year(),
    };
    calendar_dates_in_year(view.month_text.as_str(), year, &view.day_texts)
}

} // verus!
