use instant_dmv::booking::acceptable_dates;
use instant_dmv::date::{month_number, CalendarDate};
use instant_dmv::extract::{calendar_dates, calendar_dates_in_year, extract_office, CalendarView, Extracted, OfficeListing};

fn listing(classes: &str, divs: &[&str], address: &str) -> OfficeListing {
    OfficeListing {
        classes: classes.to_string(),
        div_texts: divs.iter().map(|s| s.to_string()).collect(),
        address: address.to_string(),
    }
}

fn date(year: i32, month: u32, day: u32) -> CalendarDate {
    CalendarDate { year, month, day }
}

#[test]
fn reservable_office_is_read_whole() {
    let l = listing(
        "QflowObjectItem Active-Unit",
        &["", "  Raleigh East ", "3.4 Miles"],
        " 1234 New Bern Ave, Raleigh, NC 27601 ",
    );
    match extract_office(&l, 10) {
        Extracted::Record(r) => {
            assert!(r.is_reservable);
            assert_eq!(r.office_name, "Raleigh East");
            assert_eq!(r.zip_code, "27601");
            assert_eq!(r.street_address, "1234 New Bern Ave, Raleigh, NC");
            assert_eq!(r.distance, 3);
            assert!(r.available_dates.is_empty());
            assert_eq!(r.selected_date, None);
        }
        _ => panic!("expected a record"),
    }
}

#[test]
fn trailing_comma_and_missing_zip() {
    let l = listing("QflowObjectItem", &["x", "Cary", "text=12.6 Miles"], "100 Main St, 2760,");
    match extract_office(&l, 20) {
        Extracted::Record(r) => {
            assert!(!r.is_reservable);
            assert_eq!(r.zip_code, "");
            assert_eq!(r.street_address, "100 Main St, 2760");
            assert_eq!(r.distance, 13);
        }
        _ => panic!("expected a record"),
    }
}

#[test]
fn office_without_name_block_has_empty_name() {
    let l = listing("QflowObjectItem", &["1 Miles"], "Zip 27511, Cary");
    match extract_office(&l, 5) {
        Extracted::Record(r) => {
            assert_eq!(r.office_name, "");
            assert_eq!(r.zip_code, "27511");
            assert_eq!(r.street_address, "Zip , Cary");
            assert_eq!(r.distance, 1);
        }
        _ => panic!("expected a record"),
    }
    let none = listing("QflowObjectItem", &[], "");
    assert!(matches!(extract_office(&none, 0), Extracted::Record(_)));
}

#[test]
fn far_office_is_dropped() {
    let l = listing("QflowObjectItem Active-Unit", &["", "Durham South", "25 Miles"], "Durham, NC 27701");
    assert!(matches!(extract_office(&l, 10), Extracted::TooFar));
    assert!(matches!(extract_office(&l, 25), Extracted::Record(_)));
}

#[test]
fn unreadable_distance_skips_the_office() {
    let l = listing("QflowObjectItem", &["", "Apex", "far away"], "Apex, NC 27502");
    assert!(matches!(extract_office(&l, 100), Extracted::BadDistance));
}

#[test]
fn month_name_maps_to_date() {
    let days = vec!["14".to_string()];
    assert_eq!(calendar_dates_in_year("March", 2025, &days), vec![date(2025, 3, 14)]);
    assert_eq!(month_number("March"), Some(3));
    assert_eq!(month_number("December"), Some(12));
    assert_eq!(month_number("march"), None);
}

#[test]
fn unknown_month_omits_dates() {
    let days = vec!["14".to_string(), "15".to_string()];
    assert_eq!(calendar_dates_in_year("Marzo", 2025, &days), Vec::<CalendarDate>::new());
}

#[test]
fn calendar_skips_cells_that_are_not_days() {
    let days = vec!["28".to_string(), "29".to_string(), "x".to_string(), "1".to_string()];
    assert_eq!(
        calendar_dates_in_year("February", 2025, &days),
        vec![date(2025, 2, 28), date(2025, 2, 1)]
    );
    assert_eq!(
        calendar_dates_in_year("February", 2024, &days),
        vec![date(2024, 2, 28), date(2024, 2, 29), date(2024, 2, 1)]
    );
}

#[test]
fn calendar_reads_its_year() {
    let view = CalendarView {
        month_text: "March".to_string(),
        year_text: "2025".to_string(),
        day_texts: vec!["12".to_string(), "14".to_string(), "21".to_string()],
    };
    assert_eq!(calendar_dates(&view), vec![date(2025, 3, 12), date(2025, 3, 14), date(2025, 3, 21)]);
}

#[test]
fn calendar_without_year_uses_a_year() {
    let view = CalendarView {
        month_text: "March".to_string(),
        year_text: String::new(),
        day_texts: vec!["14".to_string()],
    };
    let got = calendar_dates(&view);
    assert_eq!(got.len(), 1);
    assert_eq!((got[0].month, got[0].day), (3, 14));
}

#[test]
fn iso_dates_parse() {
    let texts = vec!["2025-03-14".to_string(), "2025-02-30".to_string(), "March 14".to_string()];
    assert_eq!(acceptable_dates(&texts), vec![date(2025, 3, 14)]);
}
