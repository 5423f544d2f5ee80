use component_slot_extractor::extract::extract;
use component_slot_extractor::{
    ExtractedSlot, SlotDefinition, SlotExtractionInput, SlotExtractionOutput, SlotType, SlotValue,
};

fn def(name: &str, slot_type: SlotType) -> SlotDefinition {
    SlotDefinition {
        name: name.to_string(),
        slot_type,
        pattern: None,
        required: true,
        enum_values: None,
        default_value: None,
    }
}

fn run(utterance: &str, defs: Vec<SlotDefinition>) -> SlotExtractionOutput {
    extract(&SlotExtractionInput {
        utterance: utterance.to_string(),
        slot_definitions: defs,
    })
}

fn text(s: &str) -> Option<SlotValue> {
    Some(SlotValue::Text(s.to_string()))
}

fn number_of(slot: &ExtractedSlot) -> Option<f64> {
    match &slot.value {
        Some(SlotValue::Number(t)) => t.parse().ok(),
        _ => None,
    }
}

#[test]
fn string_with_pattern_extracts_capture_group() {
    let mut d = def("city", SlotType::String);
    d.pattern = Some(r"in ([A-Z][a-z]+)".to_string());
    let out = run("I live in Paris with my dog", vec![d]);
    assert_eq!(out.slots.len(), 1);
    assert_eq!(out.slots[0].value, text("Paris"));
    assert_eq!(out.slots[0].source, "regex");
    assert!(out.all_required_filled);
}

#[test]
fn string_without_pattern_is_missing() {
    let out = run("hello world", vec![def("city", SlotType::String)]);
    assert!(out.missing.contains(&"city".to_string()));
    assert!(!out.all_required_filled);
}

#[test]
fn enum_case_insensitive_whole_word_match() {
    let mut d = def("color", SlotType::Enum);
    d.enum_values = Some(vec!["Red".into(), "Blue".into(), "Green".into()]);
    let out = run("I prefer the BLUE one", vec![d]);
    assert_eq!(out.slots[0].value, text("Blue"));
}

#[test]
fn enum_no_substring_inside_word_match() {
    let mut d = def("color", SlotType::Enum);
    d.enum_values = Some(vec!["red".into()]);
    // "redirect" contains "red" but should not match as a whole word.
    let out = run("please redirect me", vec![d]);
    assert!(out.missing.contains(&"color".to_string()));
}

#[test]
fn number_default_pattern_extracts_decimal() {
    let out = run(
        "the price is 42.5 dollars",
        vec![def("price", SlotType::Number)],
    );
    assert_eq!(number_of(&out.slots[0]), Some(42.5));
}

#[test]
fn number_negative_integer() {
    let out = run("temperature -7 today", vec![def("temp", SlotType::Number)]);
    assert_eq!(number_of(&out.slots[0]), Some(-7.0));
}

#[test]
fn date_iso_8601() {
    let out = run("meeting on 2026-06-15", vec![def("when", SlotType::Date)]);
    assert_eq!(out.slots[0].value, text("2026-06-15"));
}

#[test]
fn date_us_format_normalised_to_iso() {
    let out = run("on 06/15/2026", vec![def("when", SlotType::Date)]);
    assert_eq!(out.slots[0].value, text("2026-06-15"));
}

#[test]
fn boolean_affirmative_english() {
    let out = run("Yes please", vec![def("confirm", SlotType::Boolean)]);
    assert_eq!(out.slots[0].value, Some(SlotValue::Bool(true)));
}

#[test]
fn boolean_negative_german() {
    let out = run("Nein, danke", vec![def("confirm", SlotType::Boolean)]);
    assert_eq!(out.slots[0].value, Some(SlotValue::Bool(false)));
}

#[test]
fn boolean_negative_french() {
    let out = run("non merci", vec![def("confirm", SlotType::Boolean)]);
    assert_eq!(out.slots[0].value, Some(SlotValue::Bool(false)));
}

#[test]
fn boolean_inside_word_does_not_match() {
    // "ya" should not match — only whole-word tokens count.
    let out = run("yacht trip", vec![def("confirm", SlotType::Boolean)]);
    assert!(out.missing.contains(&"confirm".to_string()));
}

#[test]
fn default_value_fills_when_no_match() {
    let mut d = def("confirm", SlotType::Boolean);
    d.default_value = Some("true".to_string());
    let out = run("hello world", vec![d]);
    assert_eq!(out.slots.len(), 1);
    assert_eq!(out.slots[0].value, Some(SlotValue::Bool(true)));
    assert_eq!(out.slots[0].source, "default");
    assert_eq!(out.slots[0].confidence_percent as f32 / 100.0, 0.5);
    assert!(out.all_required_filled);
}

#[test]
fn optional_unmatched_is_neither_filled_nor_missing() {
    let mut d = def("city", SlotType::String);
    d.required = false;
    d.pattern = Some(r"in ([A-Z][a-z]+)".to_string());
    let out = run("nothing matches here", vec![d]);
    assert!(out.filled.is_empty());
    assert!(out.missing.is_empty());
    assert!(out.slots.is_empty());
    assert!(out.all_required_filled);
}

#[test]
fn invalid_pattern_is_treated_as_no_match() {
    let mut d = def("x", SlotType::String);
    d.pattern = Some("[unterminated".to_string());
    let out = run("anything", vec![d]);
    assert!(out.missing.contains(&"x".to_string()));
}

#[test]
fn multiple_slots_preserve_definition_order() {
    let mut city = def("city", SlotType::String);
    city.pattern = Some(r"in (\w+)".to_string());
    let out = run(
        "stay in Rome for 3 days yes please",
        vec![
            city,
            def("days", SlotType::Number),
            def("confirm", SlotType::Boolean),
        ],
    );
    assert_eq!(
        out.filled,
        vec![
            "city".to_string(),
            "days".to_string(),
            "confirm".to_string()
        ]
    );
    assert_eq!(out.slots[0].value, text("Rome"));
    assert_eq!(number_of(&out.slots[1]), Some(3.0));
    assert_eq!(out.slots[2].value, Some(SlotValue::Bool(true)));
}
