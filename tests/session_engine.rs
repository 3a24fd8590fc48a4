use instant_dmv::date::CalendarDate;
use instant_dmv::engine::{find_service_control, Action, Event, Phase, ServiceControl, SessionEngine, Stage};
use instant_dmv::extract::{CalendarView, OfficeListing};
use instant_dmv::registry::{FalsePositiveRegistry, RemovalPolicy};
use instant_dmv::session::{NCDMVScraper, SessionError};

fn listing(classes: &str, name: &str, distance: &str) -> OfficeListing {
    OfficeListing {
        classes: classes.to_string(),
        div_texts: vec![String::new(), name.to_string(), distance.to_string()],
        address: format!("{} Office Rd, NC 27601", name),
    }
}

fn scraper(max_distance: u16) -> NCDMVScraper {
    NCDMVScraper::new(
        "27601".to_string(),
        max_distance,
        "Ada_Lovelace".to_string(),
        "5551234567".to_string(),
        "ada@example.com".to_string(),
    )
    .unwrap()
}

fn engine_at_listing(max_distance: u16, dates: &[&str], policy: RemovalPolicy) -> (SessionEngine, FalsePositiveRegistry) {
    let s = scraper(max_distance);
    let (mut e, a) = SessionEngine::new(&s, "State ID card", dates.iter().map(|d| d.to_string()).collect(), policy);
    assert!(matches!(a, Action::Start));
    let mut reg = FalsePositiveRegistry::new();
    assert!(matches!(e.step(&mut reg, Event::Ready), Action::ScanServiceControls));
    let controls = vec![
        ServiceControl { text: "State ID card".to_string(), clickable: false },
        ServiceControl { text: "Renew an existing license".to_string(), clickable: true },
        ServiceControl { text: "Get a State ID card".to_string(), clickable: true },
    ];
    assert!(matches!(e.step(&mut reg, Event::ServiceControls(controls)), Action::ClickServiceControl(2)));
    assert!(matches!(e.step(&mut reg, Event::Ready), Action::ReadListing));
    (e, reg)
}

fn date(year: i32, month: u32, day: u32) -> CalendarDate {
    CalendarDate { year, month, day }
}

#[test]
fn zip_code_is_validated() {
    assert!(NCDMVScraper::new("27601".into(), 10, "a".into(), "b".into(), "c".into()).is_ok());
    assert!(NCDMVScraper::new("27601-1234".into(), 10, "a".into(), "b".into(), "c".into()).is_ok());
    let bad = NCDMVScraper::new("2760".into(), 10, "a".into(), "b".into(), "c".into());
    assert!(matches!(bad, Err(SessionError::InvalidZipCode)));
    assert!(NCDMVScraper::new("ABCDE".into(), 10, "a".into(), "b".into(), "c".into()).is_err());
}

#[test]
fn service_control_search_needs_a_clickable_match() {
    let cs = vec![ServiceControl { text: "Adult permit".to_string(), clickable: false }];
    assert_eq!(find_service_control(&cs, "Adult permit"), None);
    assert_eq!(find_service_control(&Vec::new(), "Adult permit"), None);
}

#[test]
fn unmatched_menu_is_scanned_again() {
    let s = scraper(10);
    let (mut e, _) = SessionEngine::new(&s, "Adult permit", vec![], RemovalPolicy::RemoveOne);
    let mut reg = FalsePositiveRegistry::new();
    e.step(&mut reg, Event::Ready);
    let cs = vec![ServiceControl { text: "Fees".to_string(), clickable: true }];
    assert!(matches!(e.step(&mut reg, Event::ServiceControls(cs)), Action::ScanServiceControls));
    assert_eq!(e.phase, Phase::SelectingService);
}

#[test]
fn end_to_end_booking_of_the_earliest_match() {
    let (mut e, mut reg) = engine_at_listing(10, &["2025-03-14", "2025-03-20"], RemovalPolicy::RemoveOne);
    let ls = vec![
        listing("QflowObjectItem Active-Unit", "Raleigh East", "3 Miles"),
        listing("QflowObjectItem Active-Unit", "Durham South", "25 Miles"),
    ];
    assert!(matches!(e.step(&mut reg, Event::Listing(ls)), Action::OpenOffice(0)));
    let cal = CalendarView {
        month_text: "March".to_string(),
        year_text: "2025".to_string(),
        day_texts: vec!["12".to_string(), "14".to_string(), "21".to_string()],
    };
    match e.step(&mut reg, Event::Calendar(cal)) {
        Action::ChooseDate(d) => assert_eq!(d, date(2025, 3, 14)),
        other => panic!("unexpected {:?}", other),
    }
    match e.step(&mut reg, Event::PageText("Enter your details".to_string())) {
        Action::FillIdentity { first_name, last_name, phone_number } => {
            assert_eq!((first_name.as_str(), last_name.as_str()), ("Ada", "Lovelace"));
            assert_eq!(phone_number, "5551234567");
        }
        other => panic!("unexpected {:?}", other),
    }
    match e.step(&mut reg, Event::Ready) {
        Action::RequestProxyEmail { real_email, expire_date } => {
            assert_eq!(real_email, "ada@example.com");
            assert_eq!(expire_date, "2025-03-20");
        }
        other => panic!("unexpected {:?}", other),
    }
    match e.step(&mut reg, Event::ProxyEmail("p@proxy.test".to_string())) {
        Action::FillEmail(m) => assert_eq!(m, "p@proxy.test"),
        other => panic!("unexpected {:?}", other),
    }
    assert!(matches!(e.step(&mut reg, Event::Ready), Action::SolveCaptcha));
    match e.step(&mut reg, Event::CaptchaToken("tok".to_string())) {
        Action::Submit(t) => assert_eq!(t, "tok"),
        other => panic!("unexpected {:?}", other),
    }
    assert!(matches!(e.step(&mut reg, Event::Ready), Action::ReturnToListing));
    match e.step(&mut reg, Event::Ready) {
        Action::Emit(batch) => {
            assert_eq!(batch.len(), 1);
            assert_eq!(batch[0].office_name, "Raleigh East");
            assert_eq!(batch[0].distance, 3);
            assert_eq!(batch[0].available_dates, vec![date(2025, 3, 12), date(2025, 3, 14), date(2025, 3, 21)]);
            assert_eq!(batch[0].selected_date, Some(date(2025, 3, 14)));
        }
        other => panic!("unexpected {:?}", other),
    }
    assert!(!reg.contains("Raleigh East"));
    assert!(matches!(e.step(&mut reg, Event::Ready), Action::Reload));
    assert!(matches!(e.step(&mut reg, Event::Ready), Action::ReadListing));
}

#[test]
fn flagged_office_is_not_inspected() {
    let (mut e, mut reg) = engine_at_listing(10, &["2025-03-14"], RemovalPolicy::RemoveOne);
    reg.flag("Raleigh East");
    let ls = vec![listing("QflowObjectItem Active-Unit", "Raleigh East", "3 Miles")];
    match e.step(&mut reg, Event::Listing(ls)) {
        Action::Emit(batch) => {
            assert_eq!(batch.len(), 1);
            assert_eq!(batch[0].office_name, "Raleigh East");
            assert!(batch[0].is_reservable);
            assert_eq!(batch[0].selected_date, None);
        }
        other => panic!("unexpected {:?}", other),
    }
    assert!(reg.contains("Raleigh East"));
}

#[test]
fn no_acceptable_date_registers_a_false_positive() {
    let (mut e, mut reg) = engine_at_listing(10, &["2025-04-01"], RemovalPolicy::RemoveOne);
    let ls = vec![
        listing("QflowObjectItem Active-Unit", "Raleigh East", "3 Miles"),
        listing("QflowObjectItem Active-Unit", "Cary", "8 Miles"),
    ];
    assert!(matches!(e.step(&mut reg, Event::Listing(ls)), Action::OpenOffice(0)));
    let cal = CalendarView {
        month_text: "March".to_string(),
        year_text: "2025".to_string(),
        day_texts: vec!["12".to_string()],
    };
    assert!(matches!(e.step(&mut reg, Event::Calendar(cal)), Action::ReturnToListing));
    assert!(reg.contains("Raleigh East"));
    assert!(matches!(e.step(&mut reg, Event::Ready), Action::OpenOffice(1)));
    assert!(matches!(e.step(&mut reg, Event::OfficeFault), Action::ReturnToListing));
    match e.step(&mut reg, Event::Ready) {
        Action::Emit(batch) => {
            assert_eq!(batch.len(), 2);
            assert_eq!(batch[0].available_dates, vec![date(2025, 3, 12)]);
            assert_eq!(batch[0].selected_date, None);
            assert_eq!(batch[1].office_name, "Cary");
        }
        other => panic!("unexpected {:?}", other),
    }
}

#[test]
fn rejection_page_registers_and_moves_on() {
    let (mut e, mut reg) = engine_at_listing(10, &["2025-03-14"], RemovalPolicy::RemoveOne);
    let ls = vec![listing("QflowObjectItem Active-Unit", "Raleigh East", "3 Miles")];
    e.step(&mut reg, Event::Listing(ls));
    let cal = CalendarView {
        month_text: "March".to_string(),
        year_text: "2025".to_string(),
        day_texts: vec!["14".to_string()],
    };
    assert!(matches!(e.step(&mut reg, Event::Calendar(cal)), Action::ChooseDate(_)));
    let page = "Please select a date and time to continue.".to_string();
    assert!(matches!(e.step(&mut reg, Event::PageText(page)), Action::ReturnToListing));
    assert!(reg.contains("Raleigh East"));
    assert_eq!(e.phase, Phase::Returning);
}

#[test]
fn reobserved_office_leaves_the_registry() {
    let (mut e, mut reg) = engine_at_listing(10, &[], RemovalPolicy::RemoveOne);
    reg.flag("Cary");
    reg.flag("Apex");
    let ls = vec![listing("QflowObjectItem", "Cary", "4 Miles")];
    assert!(matches!(e.step(&mut reg, Event::Listing(ls)), Action::Emit(_)));
    assert!(!reg.contains("Cary"));
    assert!(reg.contains("Apex"));
}

#[test]
fn dropped_receiver_closes_the_session() {
    let (mut e, mut reg) = engine_at_listing(10, &[], RemovalPolicy::ClearAll);
    assert!(matches!(e.step(&mut reg, Event::Listing(Vec::new())), Action::Emit(_)));
    assert!(matches!(e.step(&mut reg, Event::ReceiverDropped), Action::Stop));
    assert_eq!(e.phase, Phase::Closed);
    assert!(matches!(e.step(&mut reg, Event::Ready), Action::Stop));
}

#[test]
fn transport_fault_is_fatal() {
    let (mut e, mut reg) = engine_at_listing(10, &[], RemovalPolicy::RemoveOne);
    assert!(matches!(e.step(&mut reg, Event::TransportFault), Action::Stop));
    assert_eq!(e.phase, Phase::Failed);
}

#[test]
fn unreadable_listing_reloads() {
    let (mut e, mut reg) = engine_at_listing(10, &[], RemovalPolicy::RemoveOne);
    assert!(matches!(e.step(&mut reg, Event::OfficeFault), Action::Reload));
    assert_eq!(e.phase, Phase::Reloading);
    assert!(matches!(e.step(&mut reg, Event::PageText(String::new())), Action::Stop));
    assert_eq!(e.phase, Phase::Failed);
}

#[test]
fn inspection_stage_is_tracked() {
    let (mut e, mut reg) = engine_at_listing(10, &["2025-03-14"], RemovalPolicy::RemoveOne);
    let ls = vec![listing("QflowObjectItem Active-Unit", "Raleigh East", "3 Miles")];
    e.step(&mut reg, Event::Listing(ls));
    assert_eq!(e.phase, Phase::Inspecting(Stage::Calendar));
}
