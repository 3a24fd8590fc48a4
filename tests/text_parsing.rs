use instant_dmv::parse::{parse_distance, parse_i32, parse_u32};
use instant_dmv::text::{contains_text, remove_all, split_chars, strip_trailing_char, text_eq, trim_chars};

fn cs(s: &str) -> Vec<char> {
    s.chars().collect()
}

#[test]
fn trims_unicode_white_space() {
    assert_eq!(trim_chars(&cs(" \t Raleigh East\u{a0}\n")), cs("Raleigh East"));
    assert_eq!(trim_chars(&cs("   ")), cs(""));
}

#[test]
fn removes_every_occurrence() {
    assert_eq!(remove_all(&cs("3.2 Miles"), &cs(" Miles")), cs("3.2"));
    assert_eq!(remove_all(&cs("aaa"), &cs("aa")), cs("a"));
    assert_eq!(remove_all(&cs("abc"), &cs("")), cs("abc"));
}

#[test]
fn strips_trailing_commas_only() {
    assert_eq!(strip_trailing_char(&cs(",a,b,,"), ','), cs(",a,b"));
}

#[test]
fn finds_substrings() {
    assert!(contains_text("QflowObjectItem Active-Unit", "Active-Unit"));
    assert!(!contains_text("QflowObjectItem", "Active-Unit"));
    assert!(contains_text("", ""));
    assert!(text_eq("May", "May"));
    assert!(!text_eq("May", "Mayo"));
}

#[test]
fn splits_on_separator() {
    let parts = split_chars(&cs("a__b"), '_');
    assert_eq!(parts, vec![cs("a"), cs(""), cs("b")]);
}

#[test]
fn parses_integers_like_std() {
    assert_eq!(parse_u32(&cs("14")), Some(14));
    assert_eq!(parse_u32(&cs("+7")), Some(7));
    assert_eq!(parse_u32(&cs("4294967295")), Some(u32::MAX));
    assert_eq!(parse_u32(&cs("4294967296")), None);
    assert_eq!(parse_u32(&cs("-1")), None);
    assert_eq!(parse_u32(&cs("")), None);
    assert_eq!(parse_u32(&cs(" 1")), None);
    assert_eq!(parse_i32(&cs("2025")), Some(2025));
    assert_eq!(parse_i32(&cs("-2147483648")), Some(i32::MIN));
    assert_eq!(parse_i32(&cs("2147483648")), None);
    assert_eq!(parse_i32(&cs("-")), None);
}

#[test]
fn distances_round_to_nearest_mile() {
    assert_eq!(parse_distance(&cs("3.4")), Some(3));
    assert_eq!(parse_distance(&cs("2.5")), Some(3));
    assert_eq!(parse_distance(&cs("10")), Some(10));
    assert_eq!(parse_distance(&cs(".5")), Some(1));
    assert_eq!(parse_distance(&cs("7.")), Some(7));
    assert_eq!(parse_distance(&cs("-3.2")), Some(0));
    assert_eq!(parse_distance(&cs("99999")), Some(65535));
    assert_eq!(parse_distance(&cs("abc")), None);
    assert_eq!(parse_distance(&cs(".")), None);
    assert_eq!(parse_distance(&cs("")), None);
}
