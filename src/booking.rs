//! Decisions of the booking flow for one office.

use vstd::prelude::*;
use crate::date::{CalendarDate, date_lt, date_le, earlier, iso_date, parse_iso_date};
use crate::models::texts_view;
use crate::text::{chars_of, string_from, split_chars, split_on, contains_text, contains_seq, lemma_split_on_nonempty};

verus! {

/// The portal's message for an office with nothing bookable in its window.
pub const NO_APPOINTMENTS_TEXT: &'static str = "This office does not currently have any appointments available in the next 90 days. Please try scheduling an appointment at another office or try again tomorrow when a new day's appointments will be available.";

/// The portal's message when no date and time were taken.
pub const SELECT_DATE_TEXT: &'static str = "Please select a date and time to continue.";

/// The start of the portal's generic rejection message.
pub const REJECTED_TEXT: &'static str = "We were unable";

/// Whether `d` is among the available dates that the caller accepts.
pub open spec fn in_both(available: Seq<CalendarDate>, acceptable: Seq<CalendarDate>, d: CalendarDate) -> bool {
    available.contains(d) && acceptable.contains(d)
}

/// Chooses the earliest available date that the caller accepts.
pub fn select_date(available: &Vec<CalendarDate>, acceptable: &Vec<CalendarDate>) -> (r: Option<CalendarDate>)
    ensures
        r is None <==> forall|d: CalendarDate| !#[trigger] in_both(available@, acceptable@, d),
        r matches Some(d) ==> in_both(available@, acceptable@, d),
        r matches Some(d) ==> forall|e: CalendarDate| #[trigger] in_both(available@, acceptable@, e) ==> date_le(d, e),
{
    let mut best: Option<CalendarDate> = None;
    let mut k: usize = 0;
    while k < available.len()
        invariant
            k <= available@.len(),
            best is None <==> forall|i: int| 0 <= i < k ==> !acceptable@.contains(#[trigger] available@[i]),
            best matches Some(d) ==> in_both(available@, acceptable@, d),
            best matches Some(d) ==> forall|i: int| 0 <= i < k && acceptable@.contains(#[trigger] available@[i]) ==> date_le(d, available@[i]),
        decreases available.len() - k,
    {
        let cand = available[k];
        let mut accepted = false;
        let mut j: usize = 0;
        while j < acceptable.len()
            invariant
                j <= acceptable@.len(),
                accepted <==> exists|i: int| 0 <= i < j && acceptable@[i] == cand,
            decreases acceptable.len() - j,
        {
            if acceptable[j] == cand {
                accepted = true;
            }
            j = j + 1;
        }
        assert(accepted <==> acceptable@.contains(cand));
        if accepted {
            match best {
                Some(b) => {
                    if earlier(&cand, &b) {
                        best = Some(cand);
                    }
                },
                None => {
                    best = Some(cand);
                },
            }
        }
        k = k + 1;
    }
    proof {
        assert forall|e: CalendarDate| #[trigger] in_both(available@, acceptable@, e) implies best is Some && date_le(best->0, e) by {
            let i = choose|i: int| 0 <= i < available@.len() && available@[i] == e;
            assert(acceptable@.contains(available@[i]));
        }
    }
    best
}

/// The dates of those texts that are ISO calendar dates, in order.
pub open spec fn parsed_dates(texts: Seq<Seq<char>>) -> Seq<CalendarDate>
    decreases texts.len(),
{
    if texts.len() == 0 {
        Seq::empty()
    } else {
        let prev = parsed_dates(texts.drop_last());
        match iso_date(texts.last()) {
            Some(d) => prev.push(d),
            None => prev,
        }
    }
}

/// The caller's acceptable dates: those of the texts that are ISO calendar dates.
pub fn acceptable_dates(dates: &Vec<String>) -> (r: Vec<CalendarDate>)
    ensures
        r@ == parsed_dates(texts_view(dates@)),
{
    let ghost texts = texts_view(dates@);
    let mut out: Vec<CalendarDate> = Vec::new();
    let mut k: usize = 0;
    assert(texts.subrange(0, 0) =~= Seq::<Seq<char>>::empty());
    while k < dates.len()
        invariant
            k <= dates@.len(),
            texts == texts_view(dates@),
            out@ == parsed_dates(texts.subrange(0, k as int)),
        decreases dates.len() - k,
    {
        assert(texts.subrange(0, k + 1).drop_last() =~= texts.subrange(0, k as int));
        assert(texts.subrange(0, k + 1).last() == dates@[k as int]@);
        match parse_iso_date(dates[k].as_str()) {
            Some(d) => out.push(d),
            None => {},
        }
        k = k + 1;
    }
    assert(texts.subrange(0, dates@.len() as int) =~= texts);
    out
}

/// Whether position `i` holds the latest date among the texts, and no later position holds
/// one as late.
pub open spec fn is_latest_at(texts: Seq<Seq<char>>, i: int) -> bool {
    &&& 0 <= i < texts.len()
    &&& iso_date(texts[i]) is Some
    &&& forall|j: int| 0 <= j < texts.len() && #[trigger] iso_date(texts[j]) is Some ==> date_le(iso_date(texts[j])->0, iso_date(texts[i])->0)
    &&& forall|j: int| i < j < texts.len() && #[trigger] iso_date(texts[j]) is Some ==> date_lt(iso_date(texts[j])->0, iso_date(texts[i])->0)
}

/// The text of the latest date among `dates`, as the caller wrote it; of several texts
/// for that day, the last.
pub fn latest_date(dates: &Vec<String>) -> (r: Option<String>)
    ensures
        r is None <==> forall|j: int| 0 <= j < dates@.len() ==> #[trigger] iso_date(dates@[j]@) is None,
        r matches Some(s) ==> exists|i: int| is_latest_at(texts_view(dates@), i) && s@ == dates@[i]@,
{
    let ghost texts = texts_view(dates@);
    let mut best: Option<(usize, CalendarDate)> = None;
    let mut k: usize = 0;
    while k < dates.len()
        invariant
            k <= dates@.len(),
            texts == texts_view(dates@),
            best is None <==> forall|j: int| 0 <= j < k ==> #[trigger] iso_date(texts[j]) is None,
            best matches Some((i, d)) ==> {
                &&& i < k
                &&& iso_date(texts[i as int]) == Some(d)
                &&& forall|j: int| 0 <= j < k && #[trigger] iso_date(texts[j]) is Some ==> date_le(iso_date(texts[j])->0, d)
                &&& forall|j: int| i < j < k && #[trigger] iso_date(texts[j]) is Some ==> date_lt(iso_date(texts[j])->0, d)
            },
        decreases dates.len() - k,
    {
        assert(texts[k as int] == dates@[k as int]@);
        match parse_iso_date(dates[k].as_str()) {
            Some(d) => {
                match best {
                    Some((_, b)) => {
                        if !earlier(&d, &b) {
                            best = Some((k, d));
                        }
                    },
                    None => {
                        best = Some((k, d));
                    },
                }
            },
            None => {},
        }
        k = k + 1;
    }
    match best {
        Some((i, _)) => {
            assert(is_latest_at(texts, i as int));
            assert(texts[i as int] == dates@[i as int]@);
            Some(dates[i].clone())
        },
        None => {
            assert forall|j: int| 0 <= j < dates@.len() implies #[trigger] iso_date(dates@[j]@) is None by {
                assert(texts[j] == dates@[j]@);
            }
            None
        },
    }
}

/// The first name: the part of a `_`-separated name before the first `_`.
pub open spec fn first_name_of(name: Seq<char>) -> Seq<char> {
    split_on(name, '_')[0]
}

/// The last name: the part between the first and second `_`, or empty.
pub open spec fn last_name_of(name: Seq<char>) -> Seq<char> {
    if split_on(name, '_').len() > 1 {
        split_on(name, '_')[1]
    } else {
        Seq::empty()
    }
}

/// Splits a `_`-separated name into first and last name.
pub fn split_name(name: &str) -> (r: (String, String))
    ensures
        r.0@ == first_name_of(name@),
        r.1@ == last_name_of(name@),
{
    proof {
        lemma_split_on_nonempty(name@, '_');
    }
    let parts = split_chars(&chars_of(name), '_');
    let first = string_from(parts[0].as_slice());
    let last = if parts.len() > 1 {
        string_from(parts[1].as_slice())
    } else {
        String::new()
    };
    (first, last)
}

/// What the page after choosing a date says about the office.
#[derive(Debug, Clone, Copy, PartialEq, Eq, Structural)]
pub enum PageVerdict {
    /// The flow can go on to the requester's details.
    Proceed,
    /// The office has nothing bookable in its window.
    NoAppointments,
    /// The portal did not take a date and time.
    DateNotTaken,
    /// The portal rejected the attempt.
    Rejected,
}

/// The verdict a page text carries; the messages are tested in this order.
pub open spec fn verdict_of(body: Seq<char>) -> PageVerdict {
    if contains_seq(body, NO_APPOINTMENTS_TEXT@) {
        PageVerdict::NoAppointments
    } else if contains_seq(body, SELECT_DATE_TEXT@) {
        PageVerdict::DateNotTaken
    } else if contains_seq(body, REJECTED_TEXT@) {
        PageVerdict::Rejected
    } else {
        PageVerdict::Proceed
    }
}

/// Reads the verdict of the page shown after a date was chosen.
pub fn classify_page(body: &str) -> (r: PageVerdict)
    ensures
        r == verdict_of(body@),
{
    if contains_text(body, NO_APPOINTMENTS_TEXT) {
        PageVerdict::NoAppointments
    } else if contains_text(body, SELECT_DATE_TEXT) {
        PageVerdict::DateNotTaken
    } else if contains_text(body, REJECTED_TEXT) {
        PageVerdict::Rejected
    } else {
        PageVerdict::Proceed
    }
}

} // verus!
