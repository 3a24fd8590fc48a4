//! The records a session produces and the requests that start and support it.

use vstd::prelude::*;
use crate::date::CalendarDate;
use crate::service::{DMVService, get_service_by_title, ServiceNotFoundError, catalog_entry};
use crate::text::{chars_of, string_from, split_chars, trim_chars, split_on, trimmed};

verus! {

/// One office's observed state at one point in time.
#[derive(Debug, Clone)]
pub struct OfficeAvailability {
    pub is_reservable: bool,
    pub office_name: String,
    pub street_address: String,
    pub distance: u16,
    pub zip_code: String,
    pub available_dates: Vec<CalendarDate>,
    pub selected_date: Option<CalendarDate>,
}

/// The content of an `OfficeAvailability`.
pub struct OfficeView {
    pub is_reservable: bool,
    pub office_name: Seq<char>,
    pub street_address: Seq<char>,
    pub distance: u16,
    pub zip_code: Seq<char>,
    pub available_dates: Seq<CalendarDate>,
    pub selected_date: Option<CalendarDate>,
}

impl View for OfficeAvailability {
    type V = OfficeView;

    open spec fn view(&self) -> OfficeView {
        OfficeView {
            is_reservable: self.is_reservable,
            office_name: self.office_name@,
            street_address: self.street_address@,
            distance: self.distance,
            zip_code: self.zip_code@,
            available_dates: self.available_dates@,
            selected_date: self.selected_date,
        }
    }
}

/// The body of a proxy-email registration: the real address and the day the proxy expires.
pub struct RegisterRequest<'a> {
    pub real_email: &'a str,
    pub expire_date: &'a str,
}

/// The answer to a proxy-email registration.
#[derive(Debug)]
pub struct RegisterResponse {
    pub proxy_email: String,
}

/// A caller's request to watch and book appointments, as it is stored.
#[derive(Debug)]
pub struct AppointmentRequest {
    pub zipcode: String,
    pub max_distance: u16,
    pub name: String,
    pub phone_number: String,
    pub email: String,
    pub service_title: String,
    pub selector: String,
    pub dates: Vec<String>,
}

/// The views of a list of texts.
pub open spec fn texts_view(v: Seq<String>) -> Seq<Seq<char>> {
    v.map_values(|s: String| s@)
}

/// Splits a comma-separated list and trims each entry.
pub fn parse_date_list(list: &str) -> (r: Vec<String>)
    ensures
        r@.len() == split_on(list@, ',').len(),
        forall|i: int| 0 <= i < r@.len() ==> #[trigger] r@[i]@ == trimmed(split_on(list@, ',')[i]),
{
    let fields = split_chars(&chars_of(list), ',');
    let mut out: Vec<String> = Vec::new();
    let mut k: usize = 0;
    while k < fields.len()
        invariant
            k <= fields@.len(),
            out@.len() == k,
            forall|i: int| 0 <= i < k ==> #[trigger] out@[i]@ == trimmed(fields@[i]@),
        decreases fields.len() - k,
    {
        let t = trim_chars(&fields[k]);
        out.push(string_from(t.as_slice()));
        k = k + 1;
    }
    out
}

/// Builds the stored form of a request to watch `service_title` for the dates in the
/// comma-separated `dates`, and the service it names.
pub fn build_appointment_request(
    zipcode: String,
    max_distance: u16,
    name: String,
    phone_number: String,
    email: String,
    service_title: String,
    dates: &str,
) -> (r: Result<(AppointmentRequest, DMVService), ServiceNotFoundError>)
    ensures
        match r {
            Ok((req, service)) => {
                &&& catalog_entry(service_title@) == Some(
                    (service.variant_index(), service.selector_view()),
                )
                &&& req.zipcode@ == zipcode@ && req.max_distance == max_distance
                &&& req.name@ == name@ && req.phone_number@ == phone_number@
                &&& req.email@ == email@ && req.service_title@ == service_title@
                &&& req.selector@ == service.selector_view()
                &&& req.dates@.len() == split_on(dates@, ',').len()
                &&& forall|i: int|
                    0 <= i < req.dates@.len() ==> #[trigger] req.dates@[i]@ == trimmed(
                        split_on(dates@, ',')[i],
                    )
            },
            Err(e) => catalog_entry(service_title@) is None && e.title@ == service_title@,
        },
{
    let service = get_service_by_title(service_title.as_str())?;
    let req = AppointmentRequest {
        zipcode,
        max_distance,
        name,
        phone_number,
        email,
        service_title,
        selector: String::from_str(service.selector()),
        dates: parse_date_list(dates),
    };
    Ok((req, service))
}

} // verus!
