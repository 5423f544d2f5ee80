use component_slot_extractor::extract::extract;
use component_slot_extractor::{
    SlotDefinition, SlotExtractionInput, SlotExtractionOutput, SlotType, SlotValue,
};

fn def(name: &str, slot_type: SlotType) -> SlotDefinition {
    SlotDefinition {
        name: name.to_string(),
        slot_type,
        pattern: None,
        required: true,
        enum_values: None,
        default_value: None,
    }
}

fn run(utterance: &str, defs: Vec<SlotDefinition>) -> SlotExtractionOutput {
    extract(&SlotExtractionInput {
        utterance: utterance.to_string(),
        slot_definitions: defs,
    })
}

fn sample_definitions() -> Vec<SlotDefinition> {
    let mut city = def("city", SlotType::String);
    city.pattern = Some(r"in (\w+)".into());
    let mut color = def("color", SlotType::Enum);
    color.enum_values = Some(vec!["red".into(), "blue".into()]);
    let mut when = def("when", SlotType::Date);
    when.required = false;
    let mut size = def("size", SlotType::Number);
    size.pattern = Some(r"size (\d+)".into());
    size.default_value = Some("10".into());
    vec![city, color, def("days", SlotType::Number), when, size, def("confirm", SlotType::Boolean)]
}

#[test]
fn definitions_are_processed_independently() {
    let utterance = "stay in Rome 3 days, blue room, yes";
    let defs = sample_definitions();
    let whole = run(utterance, defs.clone());
    let first = run(utterance, defs[..3].to_vec());
    let second = run(utterance, defs[3..].to_vec());
    let mut slots = first.slots.clone();
    slots.extend(second.slots.clone());
    let mut filled = first.filled.clone();
    filled.extend(second.filled.clone());
    let mut missing = first.missing.clone();
    missing.extend(second.missing.clone());
    assert_eq!(whole.slots, slots);
    assert_eq!(whole.filled, filled);
    assert_eq!(whole.missing, missing);
}

#[test]
fn filled_names_the_slots_in_order() {
    let out = run("stay in Rome 3 days, blue room, yes", sample_definitions());
    let names: Vec<String> = out.slots.iter().map(|s| s.name.clone()).collect();
    assert_eq!(out.filled, names);
    assert_eq!(out.filled, vec!["city", "color", "days", "size", "confirm"]);
    assert!(out.missing.is_empty());
    assert!(out.all_required_filled);
}

#[test]
fn every_definition_is_filled_missing_or_ignored() {
    let out = run("nothing useful", sample_definitions());
    // size falls back to its default; the optional date is ignored.
    assert_eq!(out.filled, vec!["size"]);
    assert_eq!(out.missing, vec!["city", "color", "days", "confirm"]);
    assert_eq!(out.filled.len() + out.missing.len() + 1, 6);
    assert!(!out.all_required_filled);
}

#[test]
fn confidence_and_source_follow_where_the_value_came_from() {
    let out = run("size 12 and yes", sample_definitions());
    for slot in &out.slots {
        if slot.source == "default" {
            assert_eq!(slot.confidence_percent, 50);
        } else {
            assert_eq!(slot.confidence_percent, 100);
        }
    }
    let size = out.slots.iter().find(|s| s.name == "size").unwrap();
    assert_eq!(size.value, Some(SlotValue::Number("12".into())));
    assert_eq!(size.source, "regex");
    let confirm = out.slots.iter().find(|s| s.name == "confirm").unwrap();
    assert_eq!(confirm.source, "regex");
    let defaulted = run("nothing", sample_definitions());
    let size = defaulted.slots.iter().find(|s| s.name == "size").unwrap();
    assert_eq!(size.value, Some(SlotValue::Number("10".into())));
    assert_eq!(size.source, "default");
    assert_eq!(size.confidence_percent, 50);
}

#[test]
fn affirmative_wins_over_negative() {
    let out = run("no wait, yes", vec![def("confirm", SlotType::Boolean)]);
    assert_eq!(out.slots[0].value, Some(SlotValue::Bool(true)));
}

#[test]
fn enum_picks_first_listed_value_named() {
    let mut d = def("color", SlotType::Enum);
    d.enum_values = Some(vec!["Green".into(), "Red".into()]);
    let out = run("red or green", vec![d]);
    assert_eq!(out.slots[0].value, Some(SlotValue::Text("Green".into())));
}

#[test]
fn number_that_is_not_finite_falls_back_to_default() {
    let mut d = def("big", SlotType::Number);
    d.pattern = Some(r"big (\S+)".into());
    d.default_value = Some("nan-ish".into());
    let out = run("big 1e400", vec![d]);
    assert_eq!(out.slots[0].value, Some(SlotValue::Text("nan-ish".into())));
    assert_eq!(out.slots[0].source, "default");
}

#[test]
fn invalid_number_pattern_is_missing() {
    let mut d = def("n", SlotType::Number);
    d.pattern = Some("(".into());
    let out = run("42", vec![d]);
    assert_eq!(out.missing, vec!["n"]);
}

#[test]
fn date_with_pattern_and_impossible_date() {
    let mut d = def("when", SlotType::Date);
    d.pattern = Some(r"on (\S+)".into());
    let out = run("on 15/06/2026", vec![d]);
    assert_eq!(out.slots[0].value, Some(SlotValue::Text("2026-06-15".into())));
    let out = run("meeting 2026-13-45", vec![def("when", SlotType::Date)]);
    assert_eq!(out.missing, vec!["when"]);
}

#[test]
fn empty_definitions_give_empty_output() {
    let out = run("anything", vec![]);
    assert!(out.slots.is_empty() && out.filled.is_empty() && out.missing.is_empty());
    assert!(out.all_required_filled);
}

#[test]
fn required_flag_only_decides_missing() {
    let utterance = "stay in Rome";
    for k in 0..sample_definitions().len() {
        let mut optional = sample_definitions();
        optional[k].required = false;
        let mut required = sample_definitions();
        required[k].required = true;
        let a = run(utterance, optional);
        let b = run(utterance, required.clone());
        assert_eq!(a.slots, b.slots);
        assert_eq!(a.filled, b.filled);
        let name = required[k].name.clone();
        let mut expected = b.missing.clone();
        expected.retain(|m| m != &name);
        assert_eq!(a.missing, expected);
        assert!(!b.all_required_filled || a.all_required_filled);
    }
}

#[test]
fn boolean_match_has_source_regex() {
    let out = run("Yes please", vec![def("confirm", SlotType::Boolean)]);
    assert_eq!(out.slots.len(), 1);
    assert_eq!(out.slots[0].value, Some(SlotValue::Bool(true)));
    assert_eq!(out.slots[0].source, "regex");
    assert_eq!(out.slots[0].confidence_percent, 100);
    assert_eq!(out.filled, vec!["confirm"]);
    let out = run("nein", vec![def("confirm", SlotType::Boolean)]);
    assert_eq!(out.slots[0].source, "regex");
}
