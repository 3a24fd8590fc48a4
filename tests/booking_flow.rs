use instant_dmv::booking::{acceptable_dates, classify_page, latest_date, select_date, split_name, PageVerdict};
use instant_dmv::date::CalendarDate;

fn date(year: i32, month: u32, day: u32) -> CalendarDate {
    CalendarDate { year, month, day }
}

#[test]
fn earliest_common_date_is_selected() {
    let available = vec![date(2025, 3, 21), date(2025, 3, 14), date(2025, 3, 12), date(2025, 3, 20)];
    let acceptable = vec![date(2025, 3, 20), date(2025, 3, 14)];
    assert_eq!(select_date(&available, &acceptable), Some(date(2025, 3, 14)));
}

#[test]
fn no_common_date_selects_nothing() {
    let available = vec![date(2025, 3, 12)];
    let acceptable = vec![date(2025, 3, 14)];
    assert_eq!(select_date(&available, &acceptable), None);
    assert_eq!(select_date(&Vec::new(), &acceptable), None);
}

#[test]
fn selection_orders_by_year_first() {
    let available = vec![date(2026, 1, 1), date(2025, 12, 31)];
    assert_eq!(select_date(&available, &available.clone()), Some(date(2025, 12, 31)));
}

#[test]
fn acceptable_dates_skip_unparsable_entries() {
    let texts = vec!["2025-03-14".to_string(), "soon".to_string(), "2025-03-20".to_string()];
    assert_eq!(acceptable_dates(&texts), vec![date(2025, 3, 14), date(2025, 3, 20)]);
}

#[test]
fn latest_date_keeps_the_callers_text() {
    let texts = vec!["2025-03-20".to_string(), "bad".to_string(), "2025-03-14".to_string()];
    assert_eq!(latest_date(&texts), Some("2025-03-20".to_string()));
    assert_eq!(latest_date(&vec!["x".to_string()]), None);
    assert_eq!(latest_date(&Vec::new()), None);
}

#[test]
fn names_split_on_underscore() {
    assert_eq!(split_name("Ada_Lovelace"), ("Ada".to_string(), "Lovelace".to_string()));
    assert_eq!(split_name("Ada"), ("Ada".to_string(), String::new()));
    assert_eq!(split_name("a_b_c"), ("a".to_string(), "b".to_string()));
}

#[test]
fn page_messages_are_recognised() {
    let none = "x This office does not currently have any appointments available in the next 90 days. Please try scheduling an appointment at another office or try again tomorrow when a new day's appointments will be available. y";
    assert_eq!(classify_page(none), PageVerdict::NoAppointments);
    assert_eq!(classify_page("Please select a date and time to continue."), PageVerdict::DateNotTaken);
    assert_eq!(classify_page("We were unable to book"), PageVerdict::Rejected);
    assert_eq!(classify_page("Enter your details"), PageVerdict::Proceed);
}
