use component_slot_extractor::component::{
    component_describe_cbor, component_info_cbor, config_schema_cbor, input_schema_cbor,
    output_schema_cbor,
};
use greentic_types::cbor::canonical;
use greentic_types::schemas::common::schema_ir::{AdditionalProperties, SchemaIr};
use greentic_types::schemas::component::v0_6_0::{schema_hash, ComponentDescribe, ComponentInfo};
use std::collections::BTreeMap;

fn text(min_len: Option<u64>) -> SchemaIr {
    SchemaIr::String { min_len, max_len: None, regex: None, format: None }
}

fn expected_input() -> SchemaIr {
    let definition = SchemaIr::Object {
        properties: BTreeMap::from([
            ("name".to_string(), text(Some(1))),
            ("slot_type".to_string(), text(Some(1))),
        ]),
        required: vec!["name".to_string(), "slot_type".to_string()],
        additional: AdditionalProperties::Allow,
    };
    SchemaIr::Object {
        properties: BTreeMap::from([
            ("utterance".to_string(), text(Some(0))),
            (
                "slot_definitions".to_string(),
                SchemaIr::Array { items: Box::new(definition), min_items: None, max_items: None },
            ),
        ]),
        required: vec!["utterance".to_string(), "slot_definitions".to_string()],
        additional: AdditionalProperties::Allow,
    }
}

fn expected_output() -> SchemaIr {
    let strings = || SchemaIr::Array { items: Box::new(text(None)), min_items: None, max_items: None };
    SchemaIr::Object {
        properties: BTreeMap::from([
            (
                "slots".to_string(),
                SchemaIr::Array {
                    items: Box::new(SchemaIr::Object {
                        properties: BTreeMap::new(),
                        required: Vec::new(),
                        additional: AdditionalProperties::Allow,
                    }),
                    min_items: None,
                    max_items: None,
                },
            ),
            ("filled".to_string(), strings()),
            ("missing".to_string(), strings()),
            ("all_required_filled".to_string(), SchemaIr::Bool),
        ]),
        required: vec![
            "slots".to_string(),
            "filled".to_string(),
            "missing".to_string(),
            "all_required_filled".to_string(),
        ],
        additional: AdditionalProperties::Forbid,
    }
}

fn expected_config() -> SchemaIr {
    SchemaIr::Object {
        properties: BTreeMap::new(),
        required: Vec::new(),
        additional: AdditionalProperties::Forbid,
    }
}

#[test]
fn schema_cbor_matches_the_runtime_encoding() {
    let cases = [
        (input_schema_cbor(), expected_input()),
        (output_schema_cbor(), expected_output()),
        (config_schema_cbor(), expected_config()),
    ];
    for (ours, schema) in cases {
        let theirs = canonical::to_canonical_cbor_allow_floats(&schema).unwrap();
        assert_eq!(ours.unwrap(), theirs);
    }
}

#[test]
fn info_cbor_decodes_to_component_metadata() {
    let bytes = component_info_cbor().unwrap();
    let info: ComponentInfo = canonical::from_cbor(&bytes).unwrap();
    assert_eq!(info.id, "ai.greentic.component-slot-extractor");
    assert_eq!(info.version, "0.1.0");
    assert_eq!(info.role, "tool");
    let display = info.display_name.unwrap();
    assert_eq!(display.key, "component.name");
    assert_eq!(display.fallback.as_deref(), Some("component-slot-extractor"));
}

#[test]
fn describe_cbor_holds_the_single_operation() {
    let bytes = component_describe_cbor().unwrap();
    let describe: ComponentDescribe = canonical::from_cbor(&bytes).unwrap();
    assert_eq!(describe.info.id, "ai.greentic.component-slot-extractor");
    assert!(describe.provided_capabilities.is_empty());
    assert!(describe.required_capabilities.is_empty());
    assert_eq!(describe.operations.len(), 1);
    let op = &describe.operations[0];
    assert_eq!(op.id, "extract_slots");
    assert_eq!(op.display_name.as_ref().unwrap().key, "operation.extract_slots.label");
    assert_eq!(op.input.schema, expected_input());
    assert_eq!(op.output.schema, expected_output());
    assert_eq!(describe.config_schema, expected_config());
    let hash = schema_hash(&expected_input(), &expected_output(), &expected_config()).unwrap();
    assert!(!hash.is_empty());
    assert_eq!(op.schema_hash, hash);
    assert!(op.defaults.is_empty());
    assert!(op.redactions.is_empty());
    assert!(op.constraints.is_empty());
    assert!(describe.metadata.is_empty());
    assert!(describe.outcomes.is_empty());
}

#[test]
fn describe_payload_is_json() {
    let payload = component_slot_extractor::payload::describe_payload();
    let json: serde_json::Value = serde_json::from_str(&payload).expect("valid json");
    assert_eq!(json["component"]["name"], "component-slot-extractor");
}

#[test]
fn describe_payload_lists_version_world_and_schemas() {
    let payload = component_slot_extractor::payload::describe_payload();
    let json: serde_json::Value = serde_json::from_str(&payload).unwrap();
    let component = &json["component"];
    assert_eq!(component["org"], "ai.greentic");
    assert_eq!(component["version"], "0.1.0");
    assert_eq!(component["world"], "greentic:component/component@0.6.0");
    assert_eq!(component["schemas"]["component"], "schemas/component.schema.json");
    assert_eq!(component["schemas"]["input"], "schemas/io/input.schema.json");
    assert_eq!(component["schemas"]["output"], "schemas/io/output.schema.json");
}

#[test]
fn schema_cbor_decodes_back_and_is_stable() {
    let input = input_schema_cbor().unwrap();
    let output = output_schema_cbor().unwrap();
    let config = config_schema_cbor().unwrap();
    assert_eq!(canonical::from_cbor::<SchemaIr>(&input).unwrap(), expected_input());
    assert_eq!(canonical::from_cbor::<SchemaIr>(&output).unwrap(), expected_output());
    assert_eq!(canonical::from_cbor::<SchemaIr>(&config).unwrap(), expected_config());
    assert_eq!(input_schema_cbor().unwrap(), input);
    assert_eq!(component_describe_cbor(), component_describe_cbor());
    assert_ne!(output, input);
}
