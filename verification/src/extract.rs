//! Regex-based slot extraction for all five slot types.
//!
//! Each slot definition is processed independently. A definition either
//! matches and yields a slot with confidence 100 and source `regex` (for
//! every slot type), or falls back to its default value with confidence 50
//! (source `default`), or, when it is required, is reported missing; an
//! optional definition that does not match is left out. An invalid pattern
//! counts as no match.
use vstd::prelude::*;

use crate::dates::{
    date_substring, find_date_substring, iso_date, iso_date_text, parse_any_date,
    parse_date_any_format,
};
use crate::pattern::{capture_text, capture_with};
use crate::text::{contains_whole_word, to_lowercase, unicode_lowercase, whole_word_match};
use crate::{
    definitions, slot_views, texts, DefinitionView, ExtractedSlot, SlotDefinition,
    SlotExtractionInput, SlotExtractionOutput, SlotType, SlotValue, SlotView, ValueView,
};

verus! {

/// Whether std's `str::parse` reads `text` as a 64-bit float that
/// `serde_json::Number::from_f64` accepts (a finite number).
pub uninterp spec fn parses_as_finite_number(text: Seq<char>) -> bool;

/// Parses `text` with std's float `str::parse` and hands the result to
/// `serde_json::Number::from_f64`. The claim: it answers
/// `parses_as_finite_number(text@)`.
#[verifier::external_body]
pub(crate) fn is_finite_number(text: &str) -> (r: bool)
    ensures
        r == parses_as_finite_number(text@),
{
    text.parse().ok().and_then(serde_json::Number::from_f64).is_some()
}

/// The number pattern used when a `Number` slot has none of its own.
pub open spec fn default_number_pattern() -> Seq<char> {
    r"-?\d+(?:\.\d+)?"@
}

/// Lowercased affirmative tokens (en, es, fr, de, ru, pt, it, nl).
pub open spec fn affirmatives() -> Seq<Seq<char>> {
    seq![
        "yes"@, "y"@, "true"@, "ok"@, "okay"@, "sure"@,
        "si"@, "sí"@, "verdadero"@,
        "oui"@, "vrai"@,
        "ja"@, "wahr"@,
        "да"@, "истина"@,
        "sim"@, "verdadeiro"@,
        "sì"@, "vero"@,
        "waar"@,
    ]
}

/// Lowercased negative tokens (en, es, fr, de, ru, pt, nl).
pub open spec fn negatives() -> Seq<Seq<char>> {
    seq![
        "no"@, "n"@, "false"@, "nope"@, "nah"@,
        "falso"@,
        "non"@, "faux"@,
        "nein"@, "falsch"@,
        "нет"@, "ложь"@,
        "não"@,
        "nee"@, "onwaar"@,
    ]
}

/// Token strings, by their views.
pub open spec fn token_texts(tokens: Seq<&str>) -> Seq<Seq<char>> {
    tokens.map_values(|t: &str| t@)
}

/// The affirmative tokens, in table order.
pub fn affirmative_tokens() -> (v: Vec<&'static str>)
    ensures
        token_texts(v@) == affirmatives(),
{
    let mut v: Vec<&'static str> = Vec::new();
    v.push("yes");
    v.push("y");
    v.push("true");
    v.push("ok");
    v.push("okay");
    v.push("sure");
    v.push("si");
    v.push("sí");
    v.push("verdadero");
    v.push("oui");
    v.push("vrai");
    v.push("ja");
    v.push("wahr");
    v.push("да");
    v.push("истина");
    v.push("sim");
    v.push("verdadeiro");
    v.push("sì");
    v.push("vero");
    v.push("waar");
    assert(token_texts(v@) =~= affirmatives());
    v
}

/// The negative tokens, in table order.
pub fn negative_tokens() -> (v: Vec<&'static str>)
    ensures
        token_texts(v@) == negatives(),
{
    let mut v: Vec<&'static str> = Vec::new();
    v.push("no");
    v.push("n");
    v.push("false");
    v.push("nope");
    v.push("nah");
    v.push("falso");
    v.push("non");
    v.push("faux");
    v.push("nein");
    v.push("falsch");
    v.push("нет");
    v.push("ложь");
    v.push("não");
    v.push("nee");
    v.push("onwaar");
    assert(token_texts(v@) =~= negatives());
    v
}

/// The value a `String` slot takes from the utterance: what its pattern
/// extracts.
pub open spec fn string_value(utterance: Seq<char>, def: DefinitionView) -> Option<ValueView> {
    match def.pattern {
        Some(p) => match capture_text(p, utterance) {
            Some(t) => Some(ValueView::Text(t)),
            None => None,
        },
        None => None,
    }
}

/// The first of `values` that occurs as a whole word in the lowercased
/// utterance, compared in lowercase.
pub open spec fn first_enum_value(lowered: Seq<char>, values: Seq<Seq<char>>) -> Option<Seq<char>>
    decreases values.len(),
{
    if values.len() == 0 {
        None
    } else if contains_whole_word(lowered, unicode_lowercase(values[0])) {
        Some(values[0])
    } else {
        first_enum_value(lowered, values.drop_first())
    }
}

/// The value an `Enum` slot takes: the first allowed value named in the
/// utterance, case-insensitively and as a whole word, as it is written in
/// the definition.
pub open spec fn enum_value(utterance: Seq<char>, def: DefinitionView) -> Option<ValueView> {
    match def.enum_values {
        Some(values) => match first_enum_value(unicode_lowercase(utterance), values) {
            Some(v) => Some(ValueView::Text(v)),
            None => None,
        },
        None => None,
    }
}

/// The pattern a `Number` slot is read with.
pub open spec fn number_pattern(def: DefinitionView) -> Seq<char> {
    match def.pattern {
        Some(p) => p,
        None => default_number_pattern(),
    }
}

/// The value a `Number` slot takes: the extracted text, when it reads as a
/// finite number.
pub open spec fn number_value(utterance: Seq<char>, def: DefinitionView) -> Option<ValueView> {
    match capture_text(number_pattern(def), utterance) {
        Some(t) => if parses_as_finite_number(t) {
            Some(ValueView::Number(t))
        } else {
            None
        },
        None => None,
    }
}

/// The text a `Date` slot is read from: what its pattern extracts, or the
/// first date-like substring when it has no pattern.
pub open spec fn date_candidate(utterance: Seq<char>, def: DefinitionView) -> Option<Seq<char>> {
    match def.pattern {
        Some(p) => capture_text(p, utterance),
        None => date_substring(utterance),
    }
}

/// The value a `Date` slot takes: the candidate's date in ISO 8601 form.
pub open spec fn date_value(utterance: Seq<char>, def: DefinitionView) -> Option<ValueView> {
    match date_candidate(utterance, def) {
        Some(c) => match parse_any_date(c) {
            Some(d) => Some(ValueView::Text(iso_date_text(d.0 as int, d.1 as int, d.2 as int))),
            None => None,
        },
        None => None,
    }
}

/// Some token occurs as a whole word in `lowered`.
pub open spec fn mentions_any(lowered: Seq<char>, tokens: Seq<Seq<char>>) -> bool {
    exists|i: int| 0 <= i < tokens.len() && contains_whole_word(lowered, #[trigger] tokens[i])
}

/// The value a `Boolean` slot takes: true when an affirmative token occurs
/// as a whole word in the lowercased utterance, else false when a negative
/// one does.
pub open spec fn boolean_value(utterance: Seq<char>) -> Option<ValueView> {
    let lowered = unicode_lowercase(utterance);
    if mentions_any(lowered, affirmatives()) {
        Some(ValueView::Bool(true))
    } else if mentions_any(lowered, negatives()) {
        Some(ValueView::Bool(false))
    } else {
        None
    }
}

/// The value the utterance gives a definition, by its slot type.
pub open spec fn found_value(utterance: Seq<char>, def: DefinitionView) -> Option<ValueView> {
    match def.slot_type {
        SlotType::String => string_value(utterance, def),
        SlotType::Enum => enum_value(utterance, def),
        SlotType::Number => number_value(utterance, def),
        SlotType::Date => date_value(utterance, def),
        SlotType::Boolean => boolean_value(utterance),
    }
}

/// The slot made from a found value: full confidence and the given source.
pub open spec fn found_slot(def: DefinitionView, value: Option<ValueView>, source: Seq<char>) -> Option<
    SlotView,
> {
    match value {
        Some(v) => Some(SlotView { name: def.name, value: Some(v), confidence_percent: 100, source }),
        None => None,
    }
}

/// A default value coerced to the slot type: a number when it reads as one,
/// an ISO date when it parses as a date, a boolean when it is a listed
/// token, and otherwise the default text itself.
pub open spec fn coerced_default(slot_type: SlotType, raw: Seq<char>) -> ValueView {
    match slot_type {
        SlotType::String => ValueView::Text(raw),
        SlotType::Enum => ValueView::Text(raw),
        SlotType::Number => if parses_as_finite_number(raw) {
            ValueView::Number(raw)
        } else {
            ValueView::Text(raw)
        },
        SlotType::Date => match parse_any_date(raw) {
            Some(d) => ValueView::Text(iso_date_text(d.0 as int, d.1 as int, d.2 as int)),
            None => ValueView::Text(raw),
        },
        SlotType::Boolean => if affirmatives().contains(unicode_lowercase(raw)) {
            ValueView::Bool(true)
        } else if negatives().contains(unicode_lowercase(raw)) {
            ValueView::Bool(false)
        } else {
            ValueView::Text(raw)
        },
    }
}

/// The slot a definition yields: the found value, else its default value,
/// else none.
pub open spec fn slot_for(utterance: Seq<char>, def: DefinitionView) -> Option<SlotView> {
    match found_value(utterance, def) {
        Some(v) => Some(
            SlotView {
                name: def.name,
                value: Some(v),
                confidence_percent: 100,
                source: "regex"@,
            },
        ),
        None => match def.default_value {
            Some(d) => Some(
                SlotView {
                    name: def.name,
                    value: Some(coerced_default(def.slot_type, d)),
                    confidence_percent: 50,
                    source: "default"@,
                },
            ),
            None => None,
        },
    }
}

/// The slots that a sequence of definitions yields, in order.
pub open spec fn extracted_slots(utterance: Seq<char>, defs: Seq<DefinitionView>) -> Seq<SlotView>
    decreases defs.len(),
{
    if defs.len() == 0 {
        seq![]
    } else {
        extracted_slots(utterance, defs.drop_last()) + match slot_for(utterance, defs.last()) {
            Some(s) => seq![s],
            None => seq![],
        }
    }
}

/// The names of the definitions that yield a slot, in order.
pub open spec fn filled_names(utterance: Seq<char>, defs: Seq<DefinitionView>) -> Seq<Seq<char>>
    decreases defs.len(),
{
    if defs.len() == 0 {
        seq![]
    } else if slot_for(utterance, defs.last()) is Some {
        filled_names(utterance, defs.drop_last()).push(defs.last().name)
    } else {
        filled_names(utterance, defs.drop_last())
    }
}

/// The names of the required definitions that yield no slot, in order.
pub open spec fn missing_names(utterance: Seq<char>, defs: Seq<DefinitionView>) -> Seq<Seq<char>>
    decreases defs.len(),
{
    if defs.len() == 0 {
        seq![]
    } else if slot_for(utterance, defs.last()) is None && defs.last().required {
        missing_names(utterance, defs.drop_last()).push(defs.last().name)
    } else {
        missing_names(utterance, defs.drop_last())
    }
}

/// An optional slot, by its view.
pub open spec fn opt_slot_view(slot: Option<ExtractedSlot>) -> Option<SlotView> {
    match slot {
        Some(s) => Some(s@),
        None => None,
    }
}

/// A slot for `def` with full confidence.
pub fn make_slot(def: &SlotDefinition, value: SlotValue, source: &str) -> (slot: ExtractedSlot)
    ensures
        slot@ == (SlotView {
            name: def.name@,
            value: Some(value@),
            confidence_percent: 100,
            source: source@,
        }),
{
    ExtractedSlot {
        name: def.name.clone(),
        value: Some(value),
        confidence_percent: 100,
        source: String::from_str(source),
    }
}

/// Fills a `String` slot with what its pattern extracts.
pub fn extract_string(utterance: &str, def: &SlotDefinition) -> (r: Option<ExtractedSlot>)
    ensures
        opt_slot_view(r) == found_slot(def@, string_value(utterance@, def@), "regex"@),
{
    match &def.pattern {
        None => None,
        Some(pattern) => match capture_with(pattern.as_str(), utterance) {
            Some(value) => Some(make_slot(def, SlotValue::Text(value), "regex")),
            None => None,
        },
    }
}

/// Fills an `Enum` slot with the first allowed value named in the utterance.
pub fn extract_enum(utterance: &str, def: &SlotDefinition) -> (r: Option<ExtractedSlot>)
    ensures
        opt_slot_view(r) == found_slot(def@, enum_value(utterance@, def@), "regex"@),
{
    match &def.enum_values {
        None => None,
        Some(values) => {
            let lowered = to_lowercase(utterance);
            let ghost vs = values.deep_view();
            let n = values.len();
            let mut i: usize = 0;
            assert(vs.skip(0) =~= vs);
            while i < n
                invariant
                    i <= n,
                    n == values@.len(),
                    vs == values.deep_view(),
                    vs.len() == n,
                    def.enum_values == Some(*values),
                    lowered@ == unicode_lowercase(utterance@),
                    first_enum_value(lowered@, vs) == first_enum_value(lowered@, vs.skip(i as int)),
                decreases n - i,
            {
                let candidate = to_lowercase(values[i].as_str());
                assert(vs.skip(i as int)[0] == values@[i as int]@);
                if whole_word_match(lowered.as_str(), candidate.as_str()) {
                    return Some(make_slot(def, SlotValue::Text(values[i].clone()), "regex"));
                }
                assert(vs.skip(i as int).drop_first() =~= vs.skip(i + 1));
                i += 1;
            }
            assert(vs.skip(n as int).len() == 0);
            None
        },
    }
}

/// Fills a `Number` slot with the extracted text when it reads as a finite
/// number.
pub fn extract_number(utterance: &str, def: &SlotDefinition) -> (r: Option<ExtractedSlot>)
    ensures
        opt_slot_view(r) == found_slot(def@, number_value(utterance@, def@), "regex"@),
{
    let pattern: &str = match &def.pattern {
        Some(p) => p.as_str(),
        None => r"-?\d+(?:\.\d+)?",
    };
    match capture_with(pattern, utterance) {
        Some(text) => {
            if is_finite_number(text.as_str()) {
                Some(make_slot(def, SlotValue::Number(text), "regex"))
            } else {
                None
            }
        },
        None => None,
    }
}

/// Fills a `Date` slot with the candidate's date in ISO 8601 form.
pub fn extract_date(utterance: &str, def: &SlotDefinition) -> (r: Option<ExtractedSlot>)
    ensures
        opt_slot_view(r) == found_slot(def@, date_value(utterance@, def@), "regex"@),
{
    let candidate = match &def.pattern {
        Some(pattern) => capture_with(pattern.as_str(), utterance),
        None => find_date_substring(utterance),
    };
    match candidate {
        None => None,
        Some(text) => match parse_date_any_format(text.as_str()) {
            Some(date) => Some(make_slot(def, SlotValue::Text(iso_date(date)), "regex")),
            None => None,
        },
    }
}

/// Whether some token occurs as a whole word in `lowered`.
fn mentions_token(lowered: &str, tokens: &Vec<&'static str>) -> (r: bool)
    ensures
        r == mentions_any(lowered@, token_texts(tokens@)),
{
    let n = tokens.len();
    let ghost ts = token_texts(tokens@);
    let mut i: usize = 0;
    while i < n
        invariant
            i <= n,
            n == tokens@.len(),
            ts == token_texts(tokens@),
            forall|j: int| 0 <= j < i ==> !contains_whole_word(lowered@, #[trigger] ts[j]),
        decreases n - i,
    {
        if whole_word_match(lowered, tokens[i]) {
            assert(contains_whole_word(lowered@, ts[i as int]));
            return true;
        }
        i += 1;
    }
    false
}

/// Whether `word` equals one of the tokens.
fn is_listed(word: &String, tokens: &Vec<&'static str>) -> (r: bool)
    ensures
        r == token_texts(tokens@).contains(word@),
{
    let n = tokens.len();
    let ghost ts = token_texts(tokens@);
    let mut i: usize = 0;
    while i < n
        invariant
            i <= n,
            n == tokens@.len(),
            ts == token_texts(tokens@),
            forall|j: int| 0 <= j < i ==> #[trigger] ts[j] != word@,
        decreases n - i,
    {
        let token = String::from_str(tokens[i]);
        if token == *word {
            assert(ts[i as int] == word@);
            return true;
        }
        i += 1;
    }
    false
}

/// Fills a `Boolean` slot: true when an affirmative token occurs as a whole
/// word in the lowercased utterance, else false when a negative one does.
pub fn extract_boolean(utterance: &str, def: &SlotDefinition) -> (r: Option<ExtractedSlot>)
    ensures
        opt_slot_view(r) == found_slot(def@, boolean_value(utterance@), "regex"@),
{
    let lowered = to_lowercase(utterance);
    if mentions_token(lowered.as_str(), &affirmative_tokens()) {
        return Some(make_slot(def, SlotValue::Bool(true), "regex"));
    }
    if mentions_token(lowered.as_str(), &negative_tokens()) {
        return Some(make_slot(def, SlotValue::Bool(false), "regex"));
    }
    None
}

/// Coerces a default value to the slot type; when it does not read as that
/// type the default text itself is kept.
pub fn coerce_default(slot_type: SlotType, raw: &str) -> (v: SlotValue)
    ensures
        v@ == coerced_default(slot_type, raw@),
{
    match slot_type {
        SlotType::String => SlotValue::Text(String::from_str(raw)),
        SlotType::Enum => SlotValue::Text(String::from_str(raw)),
        SlotType::Number => {
            if is_finite_number(raw) {
                SlotValue::Number(String::from_str(raw))
            } else {
                SlotValue::Text(String::from_str(raw))
            }
        },
        SlotType::Date => match parse_date_any_format(raw) {
            Some(date) => SlotValue::Text(iso_date(date)),
            None => SlotValue::Text(String::from_str(raw)),
        },
        SlotType::Boolean => {
            let lowered = to_lowercase(raw);
            if is_listed(&lowered, &affirmative_tokens()) {
                SlotValue::Bool(true)
            } else if is_listed(&lowered, &negative_tokens()) {
                SlotValue::Bool(false)
            } else {
                SlotValue::Text(String::from_str(raw))
            }
        },
    }
}

/// Extracts every defined slot from the utterance. `filled` and `missing`
/// keep the order of the definitions.
pub fn extract(input: &SlotExtractionInput) -> (out: SlotExtractionOutput)
    ensures
        slot_views(out.slots@) == extracted_slots(input.utterance@, definitions(input)),
        texts(out.filled@) == filled_names(input.utterance@, definitions(input)),
        texts(out.missing@) == missing_names(input.utterance@, definitions(input)),
        out.all_required_filled == (missing_names(input.utterance@, definitions(input)).len() == 0),
{
    let utterance = input.utterance.as_str();
    let ghost u = input.utterance@;
    let ghost defs = definitions(input);
    let mut slots: Vec<ExtractedSlot> = Vec::new();
    let mut filled: Vec<String> = Vec::new();
    let mut missing: Vec<String> = Vec::new();
    let n = input.slot_definitions.len();
    let mut i: usize = 0;
    while i < n
        invariant
            i <= n,
            n == input.slot_definitions@.len(),
            u == input.utterance@,
            utterance@ == u,
            defs == definitions(input),
            slot_views(slots@) == extracted_slots(u, defs.take(i as int)),
            texts(filled@) == filled_names(u, defs.take(i as int)),
            texts(missing@) == missing_names(u, defs.take(i as int)),
        decreases n - i,
    {
        let def = &input.slot_definitions[i];
        assert(defs[i as int] == def@);
        let matched = match def.slot_type {
            SlotType::String => extract_string(utterance, def),
            SlotType::Enum => extract_enum(utterance, def),
            SlotType::Number => extract_number(utterance, def),
            SlotType::Date => extract_date(utterance, def),
            SlotType::Boolean => extract_boolean(utterance, def),
        };
        let ghost before_slots = slots@;
        let ghost before_filled = filled@;
        let ghost before_missing = missing@;
        match matched {
            Some(slot) => {
                filled.push(def.name.clone());
                slots.push(slot);
            },
            None => match &def.default_value {
                Some(default) => {
                    filled.push(def.name.clone());
                    slots.push(
                        ExtractedSlot {
                            name: def.name.clone(),
                            value: Some(coerce_default(def.slot_type, default.as_str())),
                            confidence_percent: 50,
                            source: String::from_str("default"),
                        },
                    );
                },
                None => {
                    if def.required {
                        missing.push(def.name.clone());
                    }
                },
            },
        }
        proof {
            let next = defs.take(i + 1);
            assert(next.drop_last() =~= defs.take(i as int));
            assert(next.last() == def@);
            assert(slot_views(slots@) =~= extracted_slots(u, next));
            assert(texts(filled@) =~= filled_names(u, next));
            assert(texts(missing@) =~= missing_names(u, next));
        }
        i += 1;
    }
    assert(defs.take(n as int) =~= defs);
    let all_required_filled = missing.len() == 0;
    SlotExtractionOutput { slots, filled, missing, all_required_filled }
}

} // verus!
