use instant_dmv::service::{get_service_by_title, DMVService};
use instant_dmv::models::{build_appointment_request, parse_date_list};

#[test]
fn known_title_gives_its_service() {
    let s = get_service_by_title("Fees").unwrap();
    assert_eq!(s._title(), "Fees");
    assert_eq!(s.selector(), "License reinstatement appointment");
    assert!(matches!(s, DMVService::Fees { .. }));
}

#[test]
fn every_title_round_trips() {
    let titles = [
        "Driver License - First Time",
        "Driver License Duplicate",
        "Driver License Renewal",
        "Fees",
        "ID Card",
        "Knowledge/Computer Test",
        "Legal Presence",
        "Motorcycle Skills Test",
        "Non-CDL Road Test",
        "Permits",
        "Teen Driver Level 1",
        "Teen Driver Level 2",
        "Teen Driver Level 3",
    ];
    for t in titles {
        let s = get_service_by_title(t).unwrap();
        assert_eq!(s._title(), t);
    }
    assert_eq!(
        get_service_by_title("Teen Driver Level 2").unwrap().selector(),
        "Limited provisional license"
    );
}

#[test]
fn unknown_title_is_an_error() {
    let e = get_service_by_title("fees").unwrap_err();
    assert_eq!(e.title, "fees");
    assert_eq!(e.message(), "Service with title 'fees' not found");
}

#[test]
fn date_list_is_split_and_trimmed() {
    let v = parse_date_list("2025-03-14, 2025-03-20 ,");
    assert_eq!(v, vec!["2025-03-14".to_string(), "2025-03-20".to_string(), String::new()]);
    assert_eq!(parse_date_list(""), vec![String::new()]);
}

#[test]
fn appointment_request_is_built_from_route_values() {
    let (req, service) = build_appointment_request(
        "27601".to_string(),
        10,
        "Ada_Lovelace".to_string(),
        "5551234567".to_string(),
        "ada@example.com".to_string(),
        "ID Card".to_string(),
        "2025-03-14,2025-03-20",
    )
    .unwrap();
    assert_eq!(req.selector, "State ID card");
    assert_eq!(service.selector(), "State ID card");
    assert_eq!(req.dates, vec!["2025-03-14".to_string(), "2025-03-20".to_string()]);
    assert_eq!(req.max_distance, 10);
    let err = build_appointment_request(
        "27601".to_string(),
        10,
        "Ada".to_string(),
        "1".to_string(),
        "a@b.c".to_string(),
        "Boat License".to_string(),
        "2025-03-14",
    )
    .unwrap_err();
    assert_eq!(err.title, "Boat License");
}
