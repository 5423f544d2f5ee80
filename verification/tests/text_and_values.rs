use component_slot_extractor::dates::{
    find_date_substring, iso_date, parse_date_any_format, CalendarDate,
};
use component_slot_extractor::extract::coerce_default;
use component_slot_extractor::pattern::capture_with;
use component_slot_extractor::text::whole_word_match;
use component_slot_extractor::{SlotType, SlotValue};

#[test]
fn whole_word_found_between_spaces_and_punctuation() {
    assert!(whole_word_match("hello world", "world"));
    assert!(whole_word_match("well, yes!", "yes"));
    assert!(whole_word_match("a-b", "b"));
    assert!(whole_word_match("ça va", "ça"));
}

#[test]
fn whole_word_not_found_inside_a_word() {
    assert!(!whole_word_match("please redirect me", "red"));
    assert!(!whole_word_match("yacht", "ya"));
    assert!(!whole_word_match("sunny", "sun"));
    assert!(!whole_word_match("42x", "42"));
}

#[test]
fn whole_word_empty_needle_and_short_haystack() {
    assert!(!whole_word_match("anything", ""));
    assert!(!whole_word_match("", ""));
    assert!(!whole_word_match("", "a"));
    assert!(!whole_word_match("ab", "abc"));
}

#[test]
fn whole_word_survives_space_padding() {
    for (h, n) in [("yes", "yes"), ("a red car", "red"), ("nein, danke", "nein")] {
        assert!(whole_word_match(h, n));
        let padded = format!("well {h} then");
        assert!(whole_word_match(&padded, n));
    }
}

#[test]
fn whole_word_matches_itself() {
    for w in ["blue", "да", "x", "two words"] {
        assert!(whole_word_match(w, w));
    }
}

#[test]
fn iso_date_pads_and_signs_like_chrono() {
    let cases = [(2026, 6, 15), (5, 1, 2), (0, 12, 31), (999, 3, 4), (-1, 1, 2), (10000, 7, 8), (-262000, 1, 1)];
    for (y, m, d) in cases {
        let ours = iso_date(CalendarDate { year: y, month: m, day: d });
        let theirs = chrono::NaiveDate::from_ymd_opt(y, m, d)
            .unwrap()
            .format("%Y-%m-%d")
            .to_string();
        assert_eq!(ours, theirs);
    }
    assert_eq!(iso_date(CalendarDate { year: 2026, month: 6, day: 15 }), "2026-06-15");
    assert_eq!(iso_date(CalendarDate { year: -1, month: 1, day: 2 }), "-0001-01-02");
    assert_eq!(iso_date(CalendarDate { year: 10000, month: 7, day: 8 }), "+10000-07-08");
}

#[test]
fn date_formats_tried_in_order() {
    let iso = parse_date_any_format("2026-06-15").unwrap();
    assert_eq!((iso.year, iso.month, iso.day), (2026, 6, 15));
    let us = parse_date_any_format("06/15/2026").unwrap();
    assert_eq!((us.year, us.month, us.day), (2026, 6, 15));
    // Not a valid month/day/year, so the day/month/year reading applies.
    let eu = parse_date_any_format("15/06/2026").unwrap();
    assert_eq!((eu.year, eu.month, eu.day), (2026, 6, 15));
    // Both readings are valid: the US one comes first.
    let ambiguous = parse_date_any_format("03/04/2026").unwrap();
    assert_eq!((ambiguous.month, ambiguous.day), (3, 4));
    assert!(parse_date_any_format("31/31/2026").is_none());
    assert!(parse_date_any_format("tomorrow").is_none());
}

#[test]
fn date_substring_found_and_absent() {
    assert_eq!(find_date_substring("meet on 2026-06-15 ok").as_deref(), Some("2026-06-15"));
    assert_eq!(find_date_substring("on 6/15/2026").as_deref(), Some("6/15/2026"));
    assert_eq!(find_date_substring("no date here"), None);
}

#[test]
fn capture_prefers_group_one_then_whole_match() {
    assert_eq!(capture_with(r"order (\d+)", "refund order 42 now").as_deref(), Some("42"));
    assert_eq!(capture_with(r"\d+", "refund order 42 now").as_deref(), Some("42"));
    assert_eq!(capture_with(r"a(b)?", "xac").as_deref(), Some("a"));
    assert_eq!(capture_with(r"order (\d+)", "nothing"), None);
    assert_eq!(capture_with("[unterminated", "anything"), None);
}

fn reads_as_number(text: &str) -> bool {
    matches!(coerce_default(SlotType::Number, text), SlotValue::Number(_))
}

#[test]
fn finite_numbers_only() {
    assert!(reads_as_number("42.5"));
    assert!(reads_as_number("-7"));
    assert!(reads_as_number("1e3"));
    assert!(!reads_as_number("1e400"));
    assert!(!reads_as_number("inf"));
    assert!(!reads_as_number("NaN"));
    assert!(!reads_as_number("abc"));
    assert!(!reads_as_number(""));
}

#[test]
fn defaults_coerced_by_slot_type() {
    assert_eq!(coerce_default(SlotType::String, "Paris"), SlotValue::Text("Paris".into()));
    assert_eq!(coerce_default(SlotType::Enum, "Red"), SlotValue::Text("Red".into()));
    assert_eq!(coerce_default(SlotType::Number, "12"), SlotValue::Number("12".into()));
    assert_eq!(coerce_default(SlotType::Number, "twelve"), SlotValue::Text("twelve".into()));
    assert_eq!(coerce_default(SlotType::Date, "06/15/2026"), SlotValue::Text("2026-06-15".into()));
    assert_eq!(coerce_default(SlotType::Date, "soon"), SlotValue::Text("soon".into()));
    assert_eq!(coerce_default(SlotType::Boolean, "OUI"), SlotValue::Bool(true));
    assert_eq!(coerce_default(SlotType::Boolean, "Nein"), SlotValue::Bool(false));
    assert_eq!(coerce_default(SlotType::Boolean, "maybe"), SlotValue::Text("maybe".into()));
    // A token must be the whole default, not a word inside it.
    assert_eq!(coerce_default(SlotType::Boolean, "yes please"), SlotValue::Text("yes please".into()));
}
