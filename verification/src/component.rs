//! The component descriptor: the input, output and config schemas, the
//! component info and description, and their canonical CBOR encodings.
use vstd::prelude::*;

use crate::texts;
use greentic_types::cbor::canonical;
use greentic_types::schemas::common::schema_ir::{AdditionalProperties, SchemaIr};
use greentic_types::schemas::component::v0_6_0 as descriptor;

verus! {

/// Whether an object schema admits properties it does not list.
#[derive(Debug, Clone, Copy, PartialEq, Eq)]
pub enum ExtraProperties {
    Allow,
    Forbid,
}

/// A typed schema, as the component runtime describes payloads.
pub enum Schema {
    Object { properties: Vec<(String, Schema)>, required: Vec<String>, additional: ExtraProperties },
    Array { items: Box<Schema>, min_items: Option<u64>, max_items: Option<u64> },
    String { min_len: Option<u64>, max_len: Option<u64>, regex: Option<String>, format: Option<String> },
    Bool,
}

/// The mathematical content of a [`Schema`].
pub enum SchemaModel {
    Object {
        properties: Seq<(Seq<char>, SchemaModel)>,
        required: Seq<Seq<char>>,
        additional: ExtraProperties,
    },
    Array { items: Box<SchemaModel>, min_items: Option<u64>, max_items: Option<u64> },
    String {
        min_len: Option<u64>,
        max_len: Option<u64>,
        regex: Option<Seq<char>>,
        format: Option<Seq<char>>,
    },
    Bool,
}

/// The model of a schema.
pub open spec fn schema_model(s: Schema) -> SchemaModel
    decreases s, 1nat,
{
    match s {
        Schema::Object { properties, required, additional } => {
            proof {
                assert(decreases_to!(properties => properties@));
            }
            SchemaModel::Object {
                properties: property_models(properties@),
                required: texts(required@),
                additional,
            }
        },
        Schema::Array { items, min_items, max_items } => SchemaModel::Array {
            items: Box::new(schema_model(*items)),
            min_items,
            max_items,
        },
        Schema::String { min_len, max_len, regex, format } => SchemaModel::String {
            min_len,
            max_len,
            regex: regex.deep_view(),
            format: format.deep_view(),
        },
        Schema::Bool => SchemaModel::Bool,
    }
}

/// The models of a list of named properties.
pub open spec fn property_models(ps: Seq<(String, Schema)>) -> Seq<(Seq<char>, SchemaModel)>
    decreases ps, 0nat,
{
    if ps.len() == 0 {
        seq![]
    } else {
        proof {
            assert(decreases_to!(ps => ps[0]));
            assert(decreases_to!(ps => ps.subrange(1, ps.len() as int)));
        }
        seq![(ps[0].0@, schema_model(ps[0].1))] + property_models(ps.subrange(1, ps.len() as int))
    }
}


impl View for Schema {
    type V = SchemaModel;

    open spec fn view(&self) -> SchemaModel {
        schema_model(*self)
    }
}

/// Unfolds the models of a property list one entry at a time.
pub proof fn lemma_property_models_cons(p: (String, Schema), rest: Seq<(String, Schema)>)
    ensures
        property_models(seq![p] + rest) == seq![(p.0@, schema_model(p.1))] + property_models(rest),
{
    let ps = seq![p] + rest;
    assert(ps.subrange(1, ps.len() as int) =~= rest);
    assert(ps[0] == p);
}

/// No two entries share a key.
pub open spec fn keys_distinct<V>(entries: Seq<(Seq<char>, V)>) -> bool {
    forall|i: int, j: int| 0 <= i < j < entries.len() ==> entries[i].0 != entries[j].0
}

/// No object anywhere in the schema lists a property name twice, so the
/// runtime's property maps hold every property.
pub open spec fn schema_keys_distinct(m: SchemaModel) -> bool
    decreases m, 1nat,
{
    match m {
        SchemaModel::Object { properties, required, additional } => keys_distinct(properties)
            && properties_keys_distinct(properties),
        SchemaModel::Array { items, min_items, max_items } => schema_keys_distinct(*items),
        _ => true,
    }
}

/// Every property's schema has distinct property names.
pub open spec fn properties_keys_distinct(ps: Seq<(Seq<char>, SchemaModel)>) -> bool
    decreases ps, 0nat,
{
    if ps.len() == 0 {
        true
    } else {
        proof {
            assert(decreases_to!(ps => ps[0]));
            assert(decreases_to!(ps => ps.subrange(1, ps.len() as int)));
        }
        schema_keys_distinct(ps[0].1) && properties_keys_distinct(ps.subrange(1, ps.len() as int))
    }
}

/// Unfolds `properties_keys_distinct` one entry at a time.
pub proof fn lemma_properties_keys_distinct_cons(
    p: (Seq<char>, SchemaModel),
    rest: Seq<(Seq<char>, SchemaModel)>,
)
    ensures
        properties_keys_distinct(seq![p] + rest) == (schema_keys_distinct(p.1)
            && properties_keys_distinct(rest)),
{
    let ps = seq![p] + rest;
    assert(ps.subrange(1, ps.len() as int) =~= rest);
    assert(ps[0] == p);
}

/// A property list of two entries with distinct names.
proof fn lemma_two_properties(a: (Seq<char>, SchemaModel), b: (Seq<char>, SchemaModel))
    requires
        a.0 != b.0,
        schema_keys_distinct(a.1),
        schema_keys_distinct(b.1),
    ensures
        keys_distinct(seq![a, b]),
        properties_keys_distinct(seq![a, b]),
{
    let empty = Seq::<(Seq<char>, SchemaModel)>::empty();
    assert(seq![a, b] =~= seq![a] + (seq![b] + empty));
    lemma_properties_keys_distinct_cons(b, empty);
    lemma_properties_keys_distinct_cons(a, seq![b] + empty);
}

/// The component's schemas list each property name once.
pub proof fn lemma_component_schemas_keys_distinct()
    ensures
        schema_keys_distinct(input_schema_model()),
        schema_keys_distinct(output_schema_model()),
        schema_keys_distinct(config_schema_model()),
{
    reveal_strlit("name");
    reveal_strlit("slot_type");
    reveal_strlit("utterance");
    reveal_strlit("slot_definitions");
    reveal_strlit("slots");
    reveal_strlit("filled");
    reveal_strlit("missing");
    reveal_strlit("all_required_filled");
    let empty = Seq::<(Seq<char>, SchemaModel)>::empty();
    assert(properties_keys_distinct(empty));
    assert(schema_keys_distinct(config_schema_model()));
    let t0 = text_schema_model(Some(0));
    let t1 = text_schema_model(Some(1));
    let tn = text_schema_model(None);
    assert(schema_keys_distinct(t1) && schema_keys_distinct(t0) && schema_keys_distinct(tn));
    assert("name"@.len() != "slot_type"@.len());
    lemma_two_properties(("name"@, t1), ("slot_type"@, t1));
    let input = input_schema_model()->Object_properties;
    let definition = input[1].1->Array_items;
    assert(schema_keys_distinct(*definition));
    assert(schema_keys_distinct(input[1].1));
    assert("utterance"@.len() != "slot_definitions"@.len());
    lemma_two_properties(input[0], input[1]);
    assert(input =~= seq![input[0], input[1]]);
    let output = output_schema_model()->Object_properties;
    let slot = SchemaModel::Object {
        properties: empty,
        required: seq![],
        additional: ExtraProperties::Allow,
    };
    assert(schema_keys_distinct(slot));
    assert(schema_keys_distinct(output[0].1));
    assert(schema_keys_distinct(output[1].1));
    assert(schema_keys_distinct(output[2].1));
    assert(schema_keys_distinct(output[3].1));
    assert(output =~= seq![output[0]] + (seq![output[1]] + (seq![output[2]] + (seq![output[3]]
        + empty))));
    lemma_properties_keys_distinct_cons(output[3], empty);
    lemma_properties_keys_distinct_cons(output[2], seq![output[3]] + empty);
    lemma_properties_keys_distinct_cons(output[1], seq![output[2]] + (seq![output[3]] + empty));
    lemma_properties_keys_distinct_cons(
        output[0],
        seq![output[1]] + (seq![output[2]] + (seq![output[3]] + empty)),
    );
    assert(output[0].0.len() == 5 && output[1].0.len() == 6 && output[2].0.len() == 7
        && output[3].0.len() == 19);
    assert(keys_distinct(output));
}

/// The model of a string schema with only a minimum length.
pub open spec fn text_schema_model(min_len: Option<u64>) -> SchemaModel {
    SchemaModel::String { min_len, max_len: None, regex: None, format: None }
}

/// The schema of the component's input: an utterance and a list of slot
/// definitions, each with a name and a slot type.
pub open spec fn input_schema_model() -> SchemaModel {
    SchemaModel::Object {
        properties: seq![
            ("utterance"@, text_schema_model(Some(0))),
            (
                "slot_definitions"@,
                SchemaModel::Array {
                    items: Box::new(
                        SchemaModel::Object {
                            properties: seq![
                                ("name"@, text_schema_model(Some(1))),
                                ("slot_type"@, text_schema_model(Some(1))),
                            ],
                            required: seq!["name"@, "slot_type"@],
                            additional: ExtraProperties::Allow,
                        },
                    ),
                    min_items: None,
                    max_items: None,
                },
            ),
        ],
        required: seq!["utterance"@, "slot_definitions"@],
        additional: ExtraProperties::Allow,
    }
}

/// The schema of the component's output: the slots, the filled and missing
/// names and whether every required slot was filled; nothing else.
pub open spec fn output_schema_model() -> SchemaModel {
    SchemaModel::Object {
        properties: seq![
            (
                "slots"@,
                SchemaModel::Array {
                    items: Box::new(
                        SchemaModel::Object {
                            properties: seq![],
                            required: seq![],
                            additional: ExtraProperties::Allow,
                        },
                    ),
                    min_items: None,
                    max_items: None,
                },
            ),
            (
                "filled"@,
                SchemaModel::Array {
                    items: Box::new(text_schema_model(None)),
                    min_items: None,
                    max_items: None,
                },
            ),
            (
                "missing"@,
                SchemaModel::Array {
                    items: Box::new(text_schema_model(None)),
                    min_items: None,
                    max_items: None,
                },
            ),
            ("all_required_filled"@, SchemaModel::Bool),
        ],
        required: seq!["slots"@, "filled"@, "missing"@, "all_required_filled"@],
        additional: ExtraProperties::Forbid,
    }
}

/// The component takes no configuration.
pub open spec fn config_schema_model() -> SchemaModel {
    SchemaModel::Object { properties: seq![], required: seq![], additional: ExtraProperties::Forbid }
}

/// A string schema with only a minimum length.
fn text_schema(min_len: Option<u64>) -> (s: Schema)
    ensures
        schema_model(s) == text_schema_model(min_len),
{
    Schema::String { min_len, max_len: None, regex: None, format: None }
}

/// An array schema with unbounded length.
fn array_schema(items: Schema) -> (s: Schema)
    ensures
        schema_model(s) == (SchemaModel::Array {
            items: Box::new(schema_model(items)),
            min_items: None,
            max_items: None,
        }),
{
    Schema::Array { items: Box::new(items), min_items: None, max_items: None }
}

/// A list of names.
fn names2(a: &str, b: &str) -> (v: Vec<String>)
    ensures
        v@.len() == 2,
        texts(v@) == seq![a@, b@],
{
    let mut v: Vec<String> = Vec::new();
    v.push(String::from_str(a));
    v.push(String::from_str(b));
    assert(texts(v@) =~= seq![a@, b@]);
    v
}

/// A two-property list.
fn properties2(a: &str, sa: Schema, b: &str, sb: Schema) -> (v: Vec<(String, Schema)>)
    ensures
        v@.len() == 2,
        property_models(v@) == seq![(a@, schema_model(sa)), (b@, schema_model(sb))],
{
    let mut v: Vec<(String, Schema)> = Vec::new();
    let ghost ga = sa;
    let ghost gb = sb;
    v.push((String::from_str(a), sa));
    v.push((String::from_str(b), sb));
    proof {
        let pa = v@[0];
        let pb = v@[1];
        assert(v@ =~= seq![pa] + (seq![pb] + Seq::<(String, Schema)>::empty()));
        lemma_property_models_cons(pa, seq![pb] + Seq::<(String, Schema)>::empty());
        lemma_property_models_cons(pb, Seq::<(String, Schema)>::empty());
        assert(property_models(Seq::<(String, Schema)>::empty()) =~= seq![]);
        assert(property_models(v@) =~= seq![(a@, schema_model(ga)), (b@, schema_model(gb))]);
    }
    v
}

/// The schema of the component's input.
pub fn input_schema() -> (s: Schema)
    ensures
        schema_model(s) == input_schema_model(),
        schema_keys_distinct(s@),
{
    let definition = Schema::Object {
        properties: properties2("name", text_schema(Some(1)), "slot_type", text_schema(Some(1))),
        required: names2("name", "slot_type"),
        additional: ExtraProperties::Allow,
    };
    let s = Schema::Object {
        properties: properties2(
            "utterance",
            text_schema(Some(0)),
            "slot_definitions",
            array_schema(definition),
        ),
        required: names2("utterance", "slot_definitions"),
        additional: ExtraProperties::Allow,
    };
    assert(schema_model(s) =~~= input_schema_model());
    proof { lemma_component_schemas_keys_distinct(); }
    s
}

/// The schema of the component's output.
pub fn output_schema() -> (s: Schema)
    ensures
        schema_model(s) == output_schema_model(),
        schema_keys_distinct(s@),
{
    let slot = Schema::Object {
        properties: Vec::new(),
        required: Vec::new(),
        additional: ExtraProperties::Allow,
    };
    assert(property_models(Seq::<(String, Schema)>::empty()) =~= seq![]);
    assert(texts(Seq::<String>::empty()) =~= seq![]);
    assert(schema_model(slot) =~~= (SchemaModel::Object {
        properties: seq![],
        required: seq![],
        additional: ExtraProperties::Allow,
    }));
    let first = properties2(
        "slots",
        array_schema(slot),
        "filled",
        array_schema(text_schema(None)),
    );
    let second = properties2(
        "missing",
        array_schema(text_schema(None)),
        "all_required_filled",
        Schema::Bool,
    );
    let ghost m1 = property_models(first@);
    let ghost m2 = property_models(second@);
    let mut properties = first;
    let mut rest = second;
    let ghost f = properties@;
    let ghost r = rest@;
    properties.append(&mut rest);
    proof {
        assert(properties@ =~= seq![f[0]] + (seq![f[1]] + (seq![r[0]] + (seq![r[1]]
            + Seq::<(String, Schema)>::empty()))));
        lemma_property_models_cons(r[1], Seq::<(String, Schema)>::empty());
        lemma_property_models_cons(r[0], seq![r[1]] + Seq::<(String, Schema)>::empty());
        lemma_property_models_cons(
            f[1],
            seq![r[0]] + (seq![r[1]] + Seq::<(String, Schema)>::empty()),
        );
        lemma_property_models_cons(
            f[0],
            seq![f[1]] + (seq![r[0]] + (seq![r[1]] + Seq::<(String, Schema)>::empty())),
        );
        assert(property_models(Seq::<(String, Schema)>::empty()) =~= seq![]);
        assert(f =~= seq![f[0]] + (seq![f[1]] + Seq::<(String, Schema)>::empty()));
        lemma_property_models_cons(f[1], Seq::<(String, Schema)>::empty());
        lemma_property_models_cons(f[0], seq![f[1]] + Seq::<(String, Schema)>::empty());
        assert(r =~= seq![r[0]] + (seq![r[1]] + Seq::<(String, Schema)>::empty()));
        assert(property_models(properties@) =~= m1 + m2);
    }
    let mut required = names2("slots", "filled");
    let mut required_rest = names2("missing", "all_required_filled");
    let ghost q1 = required@;
    let ghost q2 = required_rest@;
    required.append(&mut required_rest);
    assert(texts(required@) =~= texts(q1) + texts(q2));
    assert(texts(required@) =~= seq!["slots"@, "filled"@, "missing"@, "all_required_filled"@]);
    let ghost pm = property_models(properties@);
    assert(pm.len() == 4);
    assert(pm[0] =~~= output_schema_model()->Object_properties[0]);
    assert(pm[1] =~~= output_schema_model()->Object_properties[1]);
    assert(pm[2] =~~= output_schema_model()->Object_properties[2]);
    assert(pm[3] =~~= output_schema_model()->Object_properties[3]);
    assert(pm =~= output_schema_model()->Object_properties);
    let s = Schema::Object { properties, required, additional: ExtraProperties::Forbid };
    assert(schema_model(s) =~~= output_schema_model());
    proof { lemma_component_schemas_keys_distinct(); }
    s
}

/// The schema of the component's configuration.
pub fn config_schema() -> (s: Schema)
    ensures
        schema_model(s) == config_schema_model(),
        schema_keys_distinct(s@),
{
    let s = Schema::Object {
        properties: Vec::new(),
        required: Vec::new(),
        additional: ExtraProperties::Forbid,
    };
    assert(property_models(Seq::<(String, Schema)>::empty()) =~= seq![]);
    assert(texts(Seq::<String>::empty()) =~= seq![]);
    assert(schema_model(s) =~~= config_schema_model());
    proof { lemma_component_schemas_keys_distinct(); }
    s
}

/// The name of the component.
pub const COMPONENT_NAME: &'static str = "component-slot-extractor";

/// The organisation that publishes the component.
pub const COMPONENT_ORG: &'static str = "ai.greentic";

/// The version of the component.
pub const COMPONENT_VERSION: &'static str = "0.1.0";

/// A text shown to users: an i18n key and an optional fallback.
pub struct DisplayText {
    pub key: String,
    pub fallback: Option<String>,
}

/// Component metadata.
pub struct ComponentMetadata {
    pub id: String,
    pub version: String,
    pub role: String,
    pub display_name: Option<DisplayText>,
}

/// What a redaction rule does with a field.
#[derive(Debug, Clone, Copy, PartialEq, Eq)]
pub enum RedactionKind {
    Secret,
    Mask,
    Drop,
}

/// A redaction rule: the JSON Pointer of a field and what to do with it.
pub struct Redaction {
    pub json_pointer: String,
    pub kind: RedactionKind,
}

/// One operation of the component, with its input and output schemas, its
/// default values, redactions and validation constraints, and the hash of
/// its schemas. Default and constraint values are text.
pub struct OperationDescriptor {
    pub id: String,
    pub display_name: Option<DisplayText>,
    pub input: Schema,
    pub output: Schema,
    pub defaults: Vec<(String, String)>,
    pub redactions: Vec<Redaction>,
    pub constraints: Vec<(String, String)>,
    pub schema_hash: String,
}

/// The full description of the component: its metadata, capabilities,
/// text metadata entries, operations, config schema and the outcomes it can
/// emit.
pub struct ComponentDescription {
    pub info: ComponentMetadata,
    pub provided_capabilities: Vec<String>,
    pub required_capabilities: Vec<String>,
    pub metadata: Vec<(String, String)>,
    pub operations: Vec<OperationDescriptor>,
    pub config_schema: Schema,
    pub outcomes: Vec<String>,
}

/// A document the component encodes as canonical CBOR.
pub enum Document {
    Schema(Schema),
    Info(ComponentMetadata),
    Describe(ComponentDescription),
}

/// The mathematical content of a [`DisplayText`].
pub struct TextModel {
    pub key: Seq<char>,
    pub fallback: Option<Seq<char>>,
}

/// The mathematical content of a [`ComponentMetadata`].
pub struct InfoModel {
    pub id: Seq<char>,
    pub version: Seq<char>,
    pub role: Seq<char>,
    pub display_name: Option<TextModel>,
}

/// The mathematical content of a [`Redaction`].
pub struct RedactionModel {
    pub json_pointer: Seq<char>,
    pub kind: RedactionKind,
}

/// The mathematical content of an [`OperationDescriptor`].
pub struct OperationModel {
    pub id: Seq<char>,
    pub display_name: Option<TextModel>,
    pub input: SchemaModel,
    pub output: SchemaModel,
    pub defaults: Seq<(Seq<char>, Seq<char>)>,
    pub redactions: Seq<RedactionModel>,
    pub constraints: Seq<(Seq<char>, Seq<char>)>,
    pub schema_hash: Seq<char>,
}

/// The mathematical content of a [`ComponentDescription`].
pub struct DescribeModel {
    pub info: InfoModel,
    pub provided_capabilities: Seq<Seq<char>>,
    pub required_capabilities: Seq<Seq<char>>,
    pub metadata: Seq<(Seq<char>, Seq<char>)>,
    pub operations: Seq<OperationModel>,
    pub config_schema: SchemaModel,
    pub outcomes: Seq<Seq<char>>,
}

/// The mathematical content of a [`Document`].
pub enum DocumentModel {
    Schema(SchemaModel),
    Info(InfoModel),
    Describe(DescribeModel),
}

/// The model of an optional display text.
pub open spec fn text_model(t: Option<DisplayText>) -> Option<TextModel> {
    match t {
        Some(t) => Some(TextModel { key: t.key@, fallback: t.fallback.deep_view() }),
        None => None,
    }
}

/// The model of component metadata.
pub open spec fn info_model(i: ComponentMetadata) -> InfoModel {
    InfoModel {
        id: i.id@,
        version: i.version@,
        role: i.role@,
        display_name: text_model(i.display_name),
    }
}

/// The model of a list of text entries.
pub open spec fn entries_model(v: Seq<(String, String)>) -> Seq<(Seq<char>, Seq<char>)> {
    v.map_values(|e: (String, String)| (e.0@, e.1@))
}

/// The model of a list of redaction rules.
pub open spec fn redactions_model(v: Seq<Redaction>) -> Seq<RedactionModel> {
    v.map_values(|r: Redaction| RedactionModel { json_pointer: r.json_pointer@, kind: r.kind })
}

/// The model of an operation.
pub open spec fn operation_model(o: OperationDescriptor) -> OperationModel {
    OperationModel {
        id: o.id@,
        display_name: text_model(o.display_name),
        input: schema_model(o.input),
        output: schema_model(o.output),
        defaults: entries_model(o.defaults@),
        redactions: redactions_model(o.redactions@),
        constraints: entries_model(o.constraints@),
        schema_hash: o.schema_hash@,
    }
}

/// The model of a component description.
pub open spec fn describe_model(d: ComponentDescription) -> DescribeModel {
    DescribeModel {
        info: info_model(d.info),
        provided_capabilities: texts(d.provided_capabilities@),
        required_capabilities: texts(d.required_capabilities@),
        metadata: entries_model(d.metadata@),
        operations: d.operations@.map_values(|o: OperationDescriptor| operation_model(o)),
        config_schema: schema_model(d.config_schema),
        outcomes: texts(d.outcomes@),
    }
}

impl View for Document {
    type V = DocumentModel;

    open spec fn view(&self) -> DocumentModel {
        match *self {
            Document::Schema(s) => DocumentModel::Schema(schema_model(s)),
            Document::Info(i) => DocumentModel::Info(info_model(i)),
            Document::Describe(d) => DocumentModel::Describe(describe_model(d)),
        }
    }
}

/// No entry list of an operation repeats a key, and its schemas list each
/// property name once.
pub open spec fn operation_keys_distinct(o: OperationModel) -> bool {
    &&& schema_keys_distinct(o.input)
    &&& schema_keys_distinct(o.output)
    &&& keys_distinct(o.defaults)
    &&& keys_distinct(o.constraints)
}

/// No map the runtime builds from the document would merge two entries:
/// property names, metadata keys, defaults and constraints are distinct.
pub open spec fn document_keys_distinct(d: DocumentModel) -> bool {
    match d {
        DocumentModel::Schema(s) => schema_keys_distinct(s),
        DocumentModel::Info(i) => true,
        DocumentModel::Describe(d) => {
            &&& schema_keys_distinct(d.config_schema)
            &&& keys_distinct(d.metadata)
            &&& forall|i: int| 0 <= i < d.operations.len() ==> operation_keys_distinct(
                #[trigger] d.operations[i],
            )
        },
    }
}

#[verifier::external_type_specification]
#[verifier::external_body]
pub struct ExSchemaIr(SchemaIr);

#[verifier::external_type_specification]
#[verifier::external_body]
pub struct ExAdditionalProperties(AdditionalProperties);

#[verifier::external_type_specification]
#[verifier::external_body]
pub struct ExComponentInfo(descriptor::ComponentInfo);

#[verifier::external_type_specification]
#[verifier::external_body]
pub struct ExI18nText(descriptor::I18nText);

#[verifier::external_type_specification]
#[verifier::external_body]
pub struct ExRedactionRule(descriptor::RedactionRule);

#[verifier::external_type_specification]
#[verifier::external_body]
pub struct ExComponentOperation(descriptor::ComponentOperation);

#[verifier::external_type_specification]
#[verifier::external_body]
pub struct ExComponentDescribe(descriptor::ComponentDescribe);

/// What `greentic_types::cbor::canonical::to_canonical_cbor_allow_floats`
/// returns for the runtime's form of a document: its canonical CBOR bytes,
/// or `None` when encoding fails.
pub uninterp spec fn canonical_cbor(doc: DocumentModel) -> Option<Seq<u8>>;

/// What `greentic_types::schemas::component::v0_6_0::schema_hash` returns
/// for an operation's input, output and config schemas, or `None` when it
/// fails.
pub uninterp spec fn schema_hash_text(input: SchemaModel, output: SchemaModel, config: SchemaModel) -> Option<Seq<char>>;

/// Converts an object schema's policy for unlisted properties to the
/// runtime's `AdditionalProperties`. Nothing is stated of the result.
#[verifier::external_body]
fn additional_ir(a: ExtraProperties) -> AdditionalProperties {
    match a {
        ExtraProperties::Allow => AdditionalProperties::Allow,
        ExtraProperties::Forbid => AdditionalProperties::Forbid,
    }
}

/// Converts a schema, field for field, to the runtime's `SchemaIr`.
/// Nothing is stated of the result.
#[verifier::external_body]
fn schema_ir(s: &Schema) -> SchemaIr {
    match s {
        Schema::Object { properties, required, additional } => SchemaIr::Object {
            properties: properties.iter().map(|(k, v)| (k.clone(), schema_ir(v))).collect(),
            required: required.clone(),
            additional: additional_ir(*additional),
        },
        Schema::Array { items, min_items, max_items } =>
            SchemaIr::Array { items: Box::new(schema_ir(items)), min_items: *min_items, max_items: *max_items },
        Schema::String { min_len, max_len, regex, format } =>
            SchemaIr::String { min_len: *min_len, max_len: *max_len, regex: regex.clone(), format: format.clone() },
        Schema::Bool => SchemaIr::Bool,
    }
}

/// Converts an optional display text to the runtime's `I18nText` with
/// `I18nText::new`. Nothing is stated of the result.
#[verifier::external_body]
fn display_ir(t: &Option<DisplayText>) -> Option<descriptor::I18nText> {
    t.as_ref().map(|t| descriptor::I18nText::new(t.key.clone(), t.fallback.clone()))
}

/// Converts component metadata, field for field, to the runtime's
/// `ComponentInfo`. Nothing is stated of the result.
#[verifier::external_body]
fn info_ir(i: &ComponentMetadata) -> descriptor::ComponentInfo {
    descriptor::ComponentInfo {
        id: i.id.clone(),
        version: i.version.clone(),
        role: i.role.clone(),
        display_name: display_ir(&i.display_name),
    }
}

/// Converts a redaction rule, field for field, to the runtime's
/// `RedactionRule`. Nothing is stated of the result.
#[verifier::external_body]
fn redaction_ir(r: &Redaction) -> descriptor::RedactionRule {
    let kind = match r.kind {
        RedactionKind::Secret => descriptor::RedactionKind::Secret,
        RedactionKind::Mask => descriptor::RedactionKind::Mask,
        RedactionKind::Drop => descriptor::RedactionKind::Drop,
    };
    descriptor::RedactionRule { json_pointer: r.json_pointer.clone(), kind }
}

/// Converts an operation, field for field, to the runtime's
/// `ComponentOperation` (each default and constraint value as a CBOR
/// text). Nothing is stated of the result.
#[verifier::external_body]
fn operation_ir(o: &OperationDescriptor) -> descriptor::ComponentOperation {
    descriptor::ComponentOperation {
        id: o.id.clone(),
        display_name: display_ir(&o.display_name),
        input: descriptor::ComponentRunInput { schema: schema_ir(&o.input) },
        output: descriptor::ComponentRunOutput { schema: schema_ir(&o.output) },
        defaults: o.defaults.iter().map(|(k, v)| (k.clone(), v.clone().into())).collect(),
        redactions: o.redactions.iter().map(redaction_ir).collect(),
        constraints: o.constraints.iter().map(|(k, v)| (k.clone(), v.clone().into())).collect(),
        schema_hash: o.schema_hash.clone(),
    }
}

/// Converts a description, field for field, to the runtime's
/// `ComponentDescribe` (each metadata value as a CBOR text). Nothing is
/// stated of the result.
#[verifier::external_body]
fn describe_ir(d: &ComponentDescription) -> descriptor::ComponentDescribe {
    descriptor::ComponentDescribe {
        info: info_ir(&d.info),
        provided_capabilities: d.provided_capabilities.clone(),
        required_capabilities: d.required_capabilities.clone(),
        metadata: d.metadata.iter().map(|(k, v)| (k.clone(), v.clone().into())).collect(),
        operations: d.operations.iter().map(operation_ir).collect(),
        config_schema: schema_ir(&d.config_schema),
        outcomes: d.outcomes.clone(),
    }
}

/// Encodes a document with
/// `greentic_types::cbor::canonical::to_canonical_cbor_allow_floats`. The
/// claim: the bytes (or the failure) are `canonical_cbor` of the document.
/// The document repeats no key, so the runtime's maps keep every entry.
#[verifier::external_body]
pub(crate) fn encode_cbor(doc: &Document) -> (r: Option<Vec<u8>>)
    requires
        document_keys_distinct(doc@),
    ensures
        r.deep_view() == canonical_cbor(doc@),
{
    match doc {
        Document::Schema(s) => canonical::to_canonical_cbor_allow_floats(&schema_ir(s)).ok(),
        Document::Info(i) => canonical::to_canonical_cbor_allow_floats(&info_ir(i)).ok(),
        Document::Describe(d) => canonical::to_canonical_cbor_allow_floats(&describe_ir(d)).ok(),
    }
}

/// Calls `greentic_types::schemas::component::v0_6_0::schema_hash`. The
/// claim: the result is `schema_hash_text` of the three schemas, none of
/// which repeats a property name.
#[verifier::external_body]
pub(crate) fn schema_hash(input: &Schema, output: &Schema, config: &Schema) -> (r: Option<String>)
    requires
        schema_keys_distinct(input@),
        schema_keys_distinct(output@),
        schema_keys_distinct(config@),
    ensures
        r.deep_view() == schema_hash_text(input@, output@, config@),
{
    descriptor::schema_hash(&schema_ir(input), &schema_ir(output), &schema_ir(config)).ok()
}

/// The component's metadata: its id (organisation and name), version, the
/// role `tool` and its display name.
pub open spec fn component_info_model() -> InfoModel {
    InfoModel {
        id: COMPONENT_ORG@ + "."@ + COMPONENT_NAME@,
        version: COMPONENT_VERSION@,
        role: "tool"@,
        display_name: Some(TextModel { key: "component.name"@, fallback: Some(COMPONENT_NAME@) }),
    }
}

/// The component's metadata.
pub fn component_info() -> (i: ComponentMetadata)
    ensures
        info_model(i) == component_info_model(),
{
    let id = String::from_str(COMPONENT_ORG).concat(".").concat(COMPONENT_NAME);
    ComponentMetadata {
        id,
        version: String::from_str(COMPONENT_VERSION),
        role: String::from_str("tool"),
        display_name: Some(
            DisplayText {
                key: String::from_str("component.name"),
                fallback: Some(String::from_str(COMPONENT_NAME)),
            },
        ),
    }
}

/// The hash recorded for the operation: the schemas' hash, or the empty
/// text when hashing fails.
pub open spec fn operation_hash() -> Seq<char> {
    match schema_hash_text(input_schema_model(), output_schema_model(), config_schema_model()) {
        Some(h) => h,
        None => seq![],
    }
}

/// The component's description: its metadata, no capabilities, no metadata
/// entries, the single operation `extract_slots` with the input and output
/// schemas, no defaults, redactions or constraints and the schemas' hash,
/// the config schema, and no outcomes.
pub open spec fn component_describe_model() -> DescribeModel {
    DescribeModel {
        info: component_info_model(),
        provided_capabilities: seq![],
        required_capabilities: seq![],
        operations: seq![
            OperationModel {
                id: "extract_slots"@,
                display_name: Some(TextModel { key: "operation.extract_slots.label"@, fallback: None }),
                input: input_schema_model(),
                output: output_schema_model(),
                defaults: seq![],
                redactions: seq![],
                constraints: seq![],
                schema_hash: operation_hash(),
            },
        ],
        config_schema: config_schema_model(),
        metadata: seq![],
        outcomes: seq![],
    }
}

/// The component's description.
pub fn component_describe() -> (d: ComponentDescription)
    ensures
        describe_model(d) == component_describe_model(),
        document_keys_distinct(DocumentModel::Describe(describe_model(d))),
{
    let input = input_schema();
    let output = output_schema();
    let config = config_schema();
    let op_schema_hash = match schema_hash(&input, &output, &config) {
        Some(h) => h,
        None => String::new(),
    };
    let operation = OperationDescriptor {
        id: String::from_str("extract_slots"),
        display_name: Some(
            DisplayText { key: String::from_str("operation.extract_slots.label"), fallback: None },
        ),
        input,
        output,
        defaults: Vec::new(),
        redactions: Vec::new(),
        constraints: Vec::new(),
        schema_hash: op_schema_hash,
    };
    let mut operations: Vec<OperationDescriptor> = Vec::new();
    operations.push(operation);
    let d = ComponentDescription {
        info: component_info(),
        provided_capabilities: Vec::new(),
        required_capabilities: Vec::new(),
        metadata: Vec::new(),
        operations,
        config_schema: config,
        outcomes: Vec::new(),
    };
    assert(texts(Seq::<String>::empty()) =~= seq![]);
    assert(entries_model(Seq::<(String, String)>::empty()) =~= seq![]);
    assert(redactions_model(Seq::<Redaction>::empty()) =~= seq![]);
    assert(describe_model(d).operations =~~= component_describe_model().operations);
    assert(describe_model(d) =~~= component_describe_model());
    proof {
        lemma_component_schemas_keys_distinct();
        let m = component_describe_model();
        assert(operation_keys_distinct(m.operations[0]));
        assert(document_keys_distinct(DocumentModel::Describe(m)));
    }
    d
}

/// The canonical CBOR of the component's metadata, or `None` when encoding
/// fails.
pub fn component_info_cbor() -> (r: Option<Vec<u8>>)
    ensures
        r.deep_view() == canonical_cbor(DocumentModel::Info(component_info_model())),
{
    encode_cbor(&Document::Info(component_info()))
}

/// The canonical CBOR of the component's description, or `None` when
/// encoding fails.
pub fn component_describe_cbor() -> (r: Option<Vec<u8>>)
    ensures
        r.deep_view() == canonical_cbor(DocumentModel::Describe(component_describe_model())),
{
    encode_cbor(&Document::Describe(component_describe()))
}

/// The canonical CBOR of the input schema, or `None` when encoding fails.
pub fn input_schema_cbor() -> (r: Option<Vec<u8>>)
    ensures
        r.deep_view() == canonical_cbor(DocumentModel::Schema(input_schema_model())),
{
    encode_cbor(&Document::Schema(input_schema()))
}

/// The canonical CBOR of the output schema, or `None` when encoding fails.
pub fn output_schema_cbor() -> (r: Option<Vec<u8>>)
    ensures
        r.deep_view() == canonical_cbor(DocumentModel::Schema(output_schema_model())),
{
    encode_cbor(&Document::Schema(output_schema()))
}

/// The canonical CBOR of the config schema, or `None` when encoding fails.
pub fn config_schema_cbor() -> (r: Option<Vec<u8>>)
    ensures
        r.deep_view() == canonical_cbor(DocumentModel::Schema(config_schema_model())),
{
    encode_cbor(&Document::Schema(config_schema()))
}

} // verus!
