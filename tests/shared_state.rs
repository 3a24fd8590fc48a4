use instant_dmv::cache::{get_available_appointments, AvailabilityCache, OFFICE_COUNT};
use instant_dmv::date::CalendarDate;
use instant_dmv::models::OfficeAvailability;
use instant_dmv::registry::{FalsePositiveRegistry, RemovalPolicy};

fn record(name: &str, distance: u16) -> OfficeAvailability {
    OfficeAvailability {
        is_reservable: true,
        office_name: name.to_string(),
        street_address: "1 Main St".to_string(),
        distance,
        zip_code: "27601".to_string(),
        available_dates: vec![CalendarDate { year: 2025, month: 3, day: 14 }],
        selected_date: None,
    }
}

#[test]
fn registry_flags_once_and_forgets() {
    let mut r = FalsePositiveRegistry::new();
    assert!(!r.contains("Raleigh East"));
    r.flag("Raleigh East");
    r.flag("Raleigh East");
    r.flag("Cary");
    assert!(r.contains("Raleigh East"));
    r.unflag("Raleigh East");
    assert!(!r.contains("Raleigh East"));
    assert!(r.contains("Cary"));
    r.clear();
    assert!(!r.contains("Cary"));
}

#[test]
fn registry_policies_differ() {
    let mut one = FalsePositiveRegistry::new();
    one.flag("A");
    one.flag("B");
    one.reobserved("A", RemovalPolicy::RemoveOne);
    assert!(!one.contains("A") && one.contains("B"));
    let mut all = FalsePositiveRegistry::new();
    all.flag("A");
    all.flag("B");
    all.reobserved("A", RemovalPolicy::ClearAll);
    assert!(!all.contains("A") && !all.contains("B"));
}

#[test]
fn upsert_twice_keeps_one_entry() {
    let mut c = AvailabilityCache::new(OFFICE_COUNT);
    c.upsert(record("Raleigh East", 3));
    c.upsert(record("Raleigh East", 3));
    let snap = get_available_appointments(&c);
    assert_eq!(snap.len(), 1);
    assert_eq!(snap[0].office_name, "Raleigh East");
    assert_eq!(snap[0].distance, 3);
}

#[test]
fn last_write_wins_per_office() {
    let mut c = AvailabilityCache::new(OFFICE_COUNT);
    c.upsert(record("Raleigh East", 3));
    c.upsert(record("Raleigh East", 4));
    let snap = c.snapshot();
    assert_eq!(snap.len(), 1);
    assert_eq!(snap[0].distance, 4);
}

#[test]
fn batch_upsert_merges_by_name() {
    let mut c = AvailabilityCache::new(OFFICE_COUNT);
    c.upsert_batch(vec![record("A", 1), record("B", 2), record("A", 5)]);
    let mut snap = c.snapshot();
    snap.sort_by(|x, y| x.office_name.cmp(&y.office_name));
    assert_eq!(snap.len(), 2);
    assert_eq!((snap[0].office_name.as_str(), snap[0].distance), ("A", 5));
    assert_eq!((snap[1].office_name.as_str(), snap[1].distance), ("B", 2));
}

#[test]
fn empty_cache_has_empty_snapshot() {
    let c = AvailabilityCache::new(OFFICE_COUNT);
    assert!(c.snapshot().is_empty());
}
