//! A validated monitoring request, and the scan over one pass's office listings.

use vstd::prelude::*;
use crate::booking::in_both;
use crate::date::{CalendarDate, date_le};
use crate::extract::{OfficeListing, Extracted, extract_office, distance_of, listing_record};
use crate::models::{OfficeAvailability, OfficeView, texts_view};
use crate::parse::all_digits;
use crate::registry::{FalsePositiveRegistry, RemovalPolicy, without_name};

verus! {

/// Whether a text is a US postal code.
pub uninterp spec fn us_postal_code(s: Seq<char>) -> bool;

/// Relies on postal-code's `PostalCode::new` with `Country::USA`, which accepts the codes
/// matching `^\d{5}(-\d{4})?$`: five ASCII digits pass, and a passing code has five or
/// ten characters.
#[verifier::external_body]
fn validate(zip_code: &str) -> (r: bool)
    ensures
        r == us_postal_code(zip_code@),
        zip_code@.len() == 5 && all_digits(zip_code@) ==> r,
        r ==> zip_code@.len() == 5 || zip_code@.len() == 10,
{
    postal_code::PostalCode::new(country::Country::USA, zip_code).is_ok()
}

/// Why a session could not be set up.
#[derive(Debug, Clone, Copy, PartialEq, Eq, Structural)]
pub enum SessionError {
    /// The zip code is not a US postal code.
    InvalidZipCode,
}

/// A caller's monitoring request whose zip code has been validated.
pub struct NCDMVScraper {
    name: String,
    phone_number: String,
    email: String,
    zipcode: String,
    max_distance: u16,
}

/// The content of an `NCDMVScraper`.
pub struct ScraperView {
    pub name: Seq<char>,
    pub phone_number: Seq<char>,
    pub email: Seq<char>,
    pub zipcode: Seq<char>,
    pub max_distance: u16,
}

impl View for NCDMVScraper {
    type V = ScraperView;

    closed spec fn view(&self) -> ScraperView {
        ScraperView {
            name: self.name@,
            phone_number: self.phone_number@,
            email: self.email@,
            zipcode: self.zipcode@,
            max_distance: self.max_distance,
        }
    }
}

impl NCDMVScraper {
    /// Accepts a request whose zip code is a US postal code.
    pub fn new(
        zipcode: String,
        max_distance: u16,
        name: String,
        phone_number: String,
        email: String,
    ) -> (r: Result<Self, SessionError>)
        ensures
            us_postal_code(zipcode@) <==> r is Ok,
            r matches Ok(s) ==> s@ == (ScraperView {
                name: name@,
                phone_number: phone_number@,
                email: email@,
                zipcode: zipcode@,
                max_distance,
            }),
            r matches Err(e) ==> e == SessionError::InvalidZipCode,
    {
        if validate(zipcode.as_str()) {
            Ok(NCDMVScraper { name, phone_number, email, zipcode, max_distance })
        } else {
            Err(SessionError::InvalidZipCode)
        }
    }

    pub fn name(&self) -> (r: &String)
        ensures
            r@ == self@.name,
    {
        &self.name
    }

    pub fn phone_number(&self) -> (r: &String)
        ensures
            r@ == self@.phone_number,
    {
        &self.phone_number
    }

    pub fn email(&self) -> (r: &String)
        ensures
            r@ == self@.email,
    {
        &self.email
    }

    pub fn zipcode(&self) -> (r: &String)
        ensures
            r@ == self@.zipcode,
    {
        &self.zipcode
    }

    pub fn max_distance(&self) -> (r: u16)
        ensures
            r == self@.max_distance,
    {
        self.max_distance
    }
}

/// Whether a record's selected date is the earliest of its available dates that the caller
/// accepts, and absent when there is none.
pub open spec fn selection_ok(v: OfficeView, acceptable: Seq<CalendarDate>) -> bool {
    match v.selected_date {
        None => forall|d: CalendarDate| !#[trigger] in_both(v.available_dates, acceptable, d),
        Some(d) => in_both(v.available_dates, acceptable, d) && forall|e: CalendarDate|
            #[trigger] in_both(v.available_dates, acceptable, e) ==> date_le(d, e),
    }
}

/// What a listing yields once extracted and filtered by distance.
pub open spec fn listing_outcome(l: OfficeListing, max_distance: u16) -> Option<OfficeView> {
    match distance_of(texts_view(l.div_texts@)) {
        Some(d) => if d <= max_distance {
            Some(listing_record(l, d))
        } else {
            None
        },
        None => None,
    }
}

/// The registry after an office is seen: an office seen without its reservable marker
/// is forgotten by the policy.
pub open spec fn registry_after(reg: Seq<Seq<char>>, v: OfficeView, policy: RemovalPolicy) -> Seq<Seq<char>> {
    if !v.is_reservable && reg.contains(v.office_name) {
        match policy {
            RemovalPolicy::RemoveOne => without_name(reg, v.office_name),
            RemovalPolicy::ClearAll => Seq::empty(),
        }
    } else {
        reg
    }
}

/// Scans the listings from position `i`: the position of the first office to inspect
/// (or the number of listings), the registry after the scan, and the records of the
/// offices passed over, in order. An office is inspected when it is within distance,
/// reservable, and not registered as a false positive.
pub open spec fn scan(
    ls: Seq<OfficeListing>,
    i: int,
    max_distance: u16,
    reg: Seq<Seq<char>>,
    policy: RemovalPolicy,
) -> (int, Seq<Seq<char>>, Seq<OfficeView>)
    decreases ls.len() - i,
{
    if i < 0 || i >= ls.len() {
        (i, reg, Seq::empty())
    } else {
        match listing_outcome(ls[i], max_distance) {
            None => scan(ls, i + 1, max_distance, reg, policy),
            Some(v) => if v.is_reservable && !reg.contains(v.office_name) {
                (i, reg, Seq::empty())
            } else {
                let rest = scan(ls, i + 1, max_distance, registry_after(reg, v, policy), policy);
                (rest.0, rest.1, seq![v] + rest.2)
            },
        }
    }
}

/// The views of a sequence of records.
pub open spec fn records_view(s: Seq<OfficeAvailability>) -> Seq<OfficeView> {
    s.map_values(|r: OfficeAvailability| r@)
}

pub proof fn lemma_scan_stops(ls: Seq<OfficeListing>, i: int, max_distance: u16, reg: Seq<Seq<char>>, policy: RemovalPolicy)
    requires
        0 <= i <= ls.len(),
    ensures
        i <= scan(ls, i, max_distance, reg, policy).0 <= ls.len(),
        scan(ls, i, max_distance, reg, policy).0 < ls.len() ==> ({
            let j = scan(ls, i, max_distance, reg, policy).0;
            let reg_j = scan(ls, i, max_distance, reg, policy).1;
            listing_outcome(ls[j], max_distance) matches Some(v) && v.is_reservable
                && !reg_j.contains(v.office_name)
        }),
    decreases ls.len() - i,
{
    if i < ls.len() {
        match listing_outcome(ls[i], max_distance) {
            None => lemma_scan_stops(ls, i + 1, max_distance, reg, policy),
            Some(v) => {
                if !(v.is_reservable && !reg.contains(v.office_name)) {
                    lemma_scan_stops(ls, i + 1, max_distance, registry_after(reg, v, policy), policy);
                }
            },
        }
    }
}

/// Every record a scan passes over lies within the maximum distance and carries no
/// selected date.
pub proof fn law_scan_within_distance(
    ls: Seq<OfficeListing>,
    i: int,
    max_distance: u16,
    reg: Seq<Seq<char>>,
    policy: RemovalPolicy,
    acceptable: Seq<CalendarDate>,
)
    ensures
        forall|k: int| 0 <= k < scan(ls, i, max_distance, reg, policy).2.len() ==> {
            let v = #[trigger] scan(ls, i, max_distance, reg, policy).2[k];
            &&& v.distance <= max_distance
            &&& v.selected_date is None
            &&& v.available_dates.len() == 0
            &&& selection_ok(v, acceptable)
        },
    decreases ls.len() - i,
{
    if 0 <= i < ls.len() {
        match listing_outcome(ls[i], max_distance) {
            None => law_scan_within_distance(ls, i + 1, max_distance, reg, policy, acceptable),
            Some(v) => {
                if !(v.is_reservable && !reg.contains(v.office_name)) {
                    let reg2 = registry_after(reg, v, policy);
                    law_scan_within_distance(ls, i + 1, max_distance, reg2, policy, acceptable);
                    let rest = scan(ls, i + 1, max_distance, reg2, policy);
                    assert forall|k: int| 0 <= k < rest.2.len() + 1 implies {
                        let w = #[trigger] (seq![v] + rest.2)[k];
                        &&& w.distance <= max_distance
                        &&& w.selected_date is None
                        &&& w.available_dates.len() == 0
                        &&& selection_ok(w, acceptable)
                    } by {
                        if k > 0 {
                            assert((seq![v] + rest.2)[k] == rest.2[k - 1]);
                        }
                    }
                }
            },
        }
    }
}

/// An office registered as a false positive is passed over with its listing's record,
/// without a selected date, even when it is marked reservable.
pub proof fn law_flagged_office_skipped(
    ls: Seq<OfficeListing>,
    i: int,
    max_distance: u16,
    reg: Seq<Seq<char>>,
    policy: RemovalPolicy,
)
    requires
        0 <= i < ls.len(),
        listing_outcome(ls[i], max_distance) matches Some(v) && reg.contains(v.office_name),
    ensures
        ({
            let v = listing_outcome(ls[i], max_distance)->0;
            let s = scan(ls, i, max_distance, reg, policy);
            &&& s.0 != i
            &&& s.2.len() > 0 && s.2[0] == v
            &&& v.selected_date is None
        }),
{
    let v = listing_outcome(ls[i], max_distance)->0;
    let reg2 = registry_after(reg, v, policy);
    lemma_scan_stops(ls, i + 1, max_distance, reg2, policy);
}

/// Runs a scan from position `start` over the listings, applying its registry updates and
/// appending the records it passes over to `batch`; returns where it stopped.
pub fn scan_listings(
    ls: &Vec<OfficeListing>,
    start: usize,
    max_distance: u16,
    registry: &mut FalsePositiveRegistry,
    policy: RemovalPolicy,
    batch: &mut Vec<OfficeAvailability>,
) -> (r: (usize, Option<OfficeAvailability>))
    requires
        start <= ls@.len(),
    ensures
        ({
            let s = scan(ls@, start as int, max_distance, old(registry)@, policy);
            &&& r.0 == s.0
            &&& final(registry)@ == s.1
            &&& records_view(final(batch)@) == records_view(old(batch)@) + s.2
            &&& r.0 < ls@.len() <==> r.1 is Some
            &&& r.1 matches Some(rec) ==> listing_outcome(ls@[r.0 as int], max_distance) == Some(rec@)
                && rec@.is_reservable && !s.1.contains(rec@.office_name)
        }),
{
    let ghost total = scan(ls@, start as int, max_distance, registry@, policy);
    let ghost batch0 = records_view(batch@);
    let mut k: usize = start;
    proof {
        lemma_scan_stops(ls@, start as int, max_distance, registry@, policy);
    }
    while k < ls.len()
        invariant
            start <= k <= ls@.len(),
            total == scan(ls@, start as int, max_distance, old(registry)@, policy),
            batch0 == records_view(old(batch)@),
            ({
                let cur = scan(ls@, k as int, max_distance, registry@, policy);
                &&& total.0 == cur.0
                &&& total.1 == cur.1
                &&& batch0 + total.2 == records_view(batch@) + cur.2
            }),
        decreases ls.len() - k,
    {
        let ghost reg_k = registry@;
        let ghost view_k = records_view(batch@);
        match extract_office(&ls[k], max_distance) {
            Extracted::Record(rec) => {
                let flagged = registry.contains(rec.office_name.as_str());
                assert(listing_outcome(ls@[k as int], max_distance) == Some(rec@));
                if rec.is_reservable && !flagged {
                    assert(scan(ls@, k as int, max_distance, registry@, policy) == (
                        k as int,
                        registry@,
                        Seq::<OfficeView>::empty(),
                    ));
                    assert(records_view(batch@) + Seq::<OfficeView>::empty() =~= records_view(batch@));
                    return (k, Some(rec));
                }
                if !rec.is_reservable && flagged {
                    registry.reobserved(rec.office_name.as_str(), policy);
                }
                let ghost v = rec@;
                batch.push(rec);
                assert(records_view(batch@) =~= view_k.push(v));
                let ghost rest = scan(ls@, k + 1, max_distance, registry@, policy);
                assert(view_k + (seq![v] + rest.2) =~= view_k.push(v) + rest.2);
            },
            _ => {},
        }
        k = k + 1;
    }
    assert(records_view(batch@) + Seq::<OfficeView>::empty() =~= records_view(batch@));
    (k, None)
}

} // verus!
