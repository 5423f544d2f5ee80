//! The JSON description payload of the component.
use vstd::prelude::*;

use crate::component::{keys_distinct, COMPONENT_NAME, COMPONENT_ORG, COMPONENT_VERSION};

verus! {

/// A JSON value made of text and objects.
pub enum Json {
    Text(String),
    Object(Vec<(String, Json)>),
}

/// The mathematical content of a [`Json`] value.
pub enum JsonModel {
    Text(Seq<char>),
    Object(Seq<(Seq<char>, JsonModel)>),
}

/// The model of a JSON value.
pub open spec fn json_model(v: Json) -> JsonModel
    decreases v, 1nat,
{
    match v {
        Json::Text(t) => JsonModel::Text(t@),
        Json::Object(entries) => {
            proof {
                assert(decreases_to!(entries => entries@));
            }
            JsonModel::Object(entries_model(entries@))
        },
    }
}

/// The models of the entries of an object, in order.
pub open spec fn entries_model(es: Seq<(String, Json)>) -> Seq<(Seq<char>, JsonModel)>
    decreases es, 0nat,
{
    if es.len() == 0 {
        seq![]
    } else {
        proof {
            assert(decreases_to!(es => es[es.len() - 1]));
            assert(decreases_to!(es => es.subrange(0, es.len() - 1)));
        }
        entries_model(es.subrange(0, es.len() - 1)).push(
            (es[es.len() - 1].0@, json_model(es[es.len() - 1].1)),
        )
    }
}

impl View for Json {
    type V = JsonModel;

    open spec fn view(&self) -> JsonModel {
        json_model(*self)
    }
}

/// No object anywhere in the value lists a key twice, so the runtime's
/// object maps hold every entry.
pub open spec fn json_keys_distinct(m: JsonModel) -> bool
    decreases m, 1nat,
{
    match m {
        JsonModel::Text(t) => true,
        JsonModel::Object(es) => keys_distinct(es) && entries_keys_distinct(es),
    }
}

/// Every entry's value has distinct keys.
pub open spec fn entries_keys_distinct(es: Seq<(Seq<char>, JsonModel)>) -> bool
    decreases es, 0nat,
{
    if es.len() == 0 {
        true
    } else {
        proof {
            assert(decreases_to!(es => es[0]));
            assert(decreases_to!(es => es.subrange(1, es.len() as int)));
        }
        json_keys_distinct(es[0].1) && entries_keys_distinct(es.subrange(1, es.len() as int))
    }
}

/// Unfolds `entries_keys_distinct` one entry at a time.
pub proof fn lemma_entries_keys_distinct_cons(
    e: (Seq<char>, JsonModel),
    rest: Seq<(Seq<char>, JsonModel)>,
)
    ensures
        entries_keys_distinct(seq![e] + rest) == (json_keys_distinct(e.1)
            && entries_keys_distinct(rest)),
{
    let es = seq![e] + rest;
    assert(es.subrange(1, es.len() as int) =~= rest);
    assert(es[0] == e);
}

/// The description payload lists each key once in every object.
pub proof fn lemma_describe_payload_keys_distinct()
    ensures
        json_keys_distinct(describe_payload_model()),
{
    reveal_strlit("component");
    reveal_strlit("input");
    reveal_strlit("output");
    reveal_strlit("name");
    reveal_strlit("org");
    reveal_strlit("version");
    reveal_strlit("world");
    reveal_strlit("schemas");
    let empty = Seq::<(Seq<char>, JsonModel)>::empty();
    assert(entries_keys_distinct(empty));
    let top = describe_payload_model()->Object_0;
    let component = top[0].1->Object_0;
    let schemas = component[4].1->Object_0;
    assert(schemas =~= seq![schemas[0]] + (seq![schemas[1]] + (seq![schemas[2]] + empty)));
    lemma_entries_keys_distinct_cons(schemas[2], empty);
    lemma_entries_keys_distinct_cons(schemas[1], seq![schemas[2]] + empty);
    lemma_entries_keys_distinct_cons(schemas[0], seq![schemas[1]] + (seq![schemas[2]] + empty));
    assert(schemas[0].0.len() == 9 && schemas[1].0.len() == 5 && schemas[2].0.len() == 6);
    assert(keys_distinct(schemas));
    assert(json_keys_distinct(component[4].1));
    let c4 = seq![component[4]] + empty;
    let c3 = seq![component[3]] + c4;
    let c2 = seq![component[2]] + c3;
    let c1 = seq![component[1]] + c2;
    assert(component =~= seq![component[0]] + c1);
    lemma_entries_keys_distinct_cons(component[4], empty);
    lemma_entries_keys_distinct_cons(component[3], c4);
    lemma_entries_keys_distinct_cons(component[2], c3);
    lemma_entries_keys_distinct_cons(component[1], c2);
    lemma_entries_keys_distinct_cons(component[0], c1);
    assert(component[0].0.len() == 4 && component[1].0.len() == 3 && component[2].0.len() == 7
        && component[3].0.len() == 5 && component[4].0.len() == 7);
    assert(component[2].0[0] == 'v' && component[4].0[0] == 's');
    assert(keys_distinct(component));
    assert(json_keys_distinct(top[0].1));
    assert(top =~= seq![top[0]] + empty);
    lemma_entries_keys_distinct_cons(top[0], empty);
    assert(keys_distinct(top));
}

#[verifier::external_type_specification]
#[verifier::external_body]
pub struct ExJsonValue(serde_json::Value);

/// The text that `serde_json::Value`'s `to_string` gives for the runtime's
/// form of a JSON value.
pub uninterp spec fn json_text(v: JsonModel) -> Seq<char>;

/// Converts a JSON value, entry for entry, to a `serde_json::Value`.
/// Nothing is stated of the result.
#[verifier::external_body]
fn json_value(v: &Json) -> serde_json::Value {
    match v {
        Json::Text(t) => serde_json::Value::String(t.clone()),
        Json::Object(entries) => serde_json::Value::Object(
            entries.iter().map(|(k, v)| (k.clone(), json_value(v))).collect(),
        ),
    }
}

/// Renders a JSON value with `serde_json::Value`'s `to_string`. The claim:
/// the text is `json_text` of the value, which repeats no key in any
/// object, so the runtime's maps keep every entry.
#[verifier::external_body]
pub(crate) fn json_to_string(v: &Json) -> (s: String)
    requires
        json_keys_distinct(v@),
    ensures
        s@ == json_text(v@),
{
    json_value(v).to_string()
}

/// Appends an entry to an object's entries.
fn push_entry(entries: &mut Vec<(String, Json)>, key: &str, value: Json)
    ensures
        entries_model(final(entries)@) == entries_model(old(entries)@).push(
            (key@, json_model(value)),
        ),
{
    let ghost before = entries@;
    let ghost v = value;
    entries.push((String::from_str(key), value));
    assert(entries@.subrange(0, entries@.len() - 1) =~= before);
}

/// A text value.
fn text(t: &str) -> (v: Json)
    ensures
        json_model(v) == JsonModel::Text(t@),
{
    Json::Text(String::from_str(t))
}

/// The description payload: the component's name, organisation, version,
/// world, and the paths of its component, input and output schemas.
pub open spec fn describe_payload_model() -> JsonModel {
    JsonModel::Object(
        seq![
            (
                "component"@,
                JsonModel::Object(
                    seq![
                        ("name"@, JsonModel::Text(COMPONENT_NAME@)),
                        ("org"@, JsonModel::Text(COMPONENT_ORG@)),
                        ("version"@, JsonModel::Text(COMPONENT_VERSION@)),
                        ("world"@, JsonModel::Text("greentic:component/component@0.6.0"@)),
                        (
                            "schemas"@,
                            JsonModel::Object(
                                seq![
                                    ("component"@, JsonModel::Text("schemas/component.schema.json"@)),
                                    ("input"@, JsonModel::Text("schemas/io/input.schema.json"@)),
                                    ("output"@, JsonModel::Text("schemas/io/output.schema.json"@)),
                                ],
                            ),
                        ),
                    ],
                ),
            ),
        ],
    )
}

/// The description payload as a JSON value.
pub fn describe_payload_value() -> (v: Json)
    ensures
        json_model(v) == describe_payload_model(),
        json_keys_distinct(json_model(v)),
{
    let mut schemas: Vec<(String, Json)> = Vec::new();
    assert(entries_model(schemas@) =~= seq![]);
    push_entry(&mut schemas, "component", text("schemas/component.schema.json"));
    push_entry(&mut schemas, "input", text("schemas/io/input.schema.json"));
    push_entry(&mut schemas, "output", text("schemas/io/output.schema.json"));
    let ghost schemas_model = describe_payload_model()->Object_0[0].1->Object_0[4].1;
    assert(entries_model(schemas@) =~~= schemas_model->Object_0);
    let mut component: Vec<(String, Json)> = Vec::new();
    assert(entries_model(component@) =~= seq![]);
    push_entry(&mut component, "name", text(COMPONENT_NAME));
    push_entry(&mut component, "org", text(COMPONENT_ORG));
    push_entry(&mut component, "version", text(COMPONENT_VERSION));
    push_entry(&mut component, "world", text("greentic:component/component@0.6.0"));
    push_entry(&mut component, "schemas", Json::Object(schemas));
    let ghost component_model = describe_payload_model()->Object_0[0].1;
    assert(entries_model(component@) =~~= component_model->Object_0);
    let mut top: Vec<(String, Json)> = Vec::new();
    assert(entries_model(top@) =~= seq![]);
    push_entry(&mut top, "component", Json::Object(component));
    assert(entries_model(top@) =~~= describe_payload_model()->Object_0);
    let v = Json::Object(top);
    proof { lemma_describe_payload_keys_distinct(); }
    v
}

/// The description payload as JSON text.
pub fn describe_payload() -> (s: String)
    ensures
        s@ == json_text(describe_payload_model()),
{
    json_to_string(&describe_payload_value())
}

} // verus!
