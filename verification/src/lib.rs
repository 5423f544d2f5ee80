//! Typed slot extraction from a user utterance.
//!
//! A caller describes the slots it wants (`SlotDefinition`) and hands over an
//! utterance; extraction fills each slot from the utterance with the rule of
//! its `SlotType`, falls back to the slot's default value, or reports a
//! required slot as missing.
use vstd::prelude::*;

pub mod component;
pub mod dates;
pub mod extract;
pub mod laws;
pub mod pattern;
pub mod rules;
pub mod payload;
pub mod text;

verus! {

/// The kind of value a slot holds, which decides how it is extracted.
#[derive(Debug, Clone, Copy, PartialEq, Eq)]
pub enum SlotType {
    String,
    Enum,
    Number,
    Date,
    Boolean,
}

/// One slot to fill from the utterance.
#[derive(Debug, Clone)]
pub struct SlotDefinition {
    pub name: String,
    pub slot_type: SlotType,
    /// A regex whose first capture group (or whole match) is the value.
    pub pattern: Option<String>,
    pub required: bool,
    /// The allowed values of an `Enum` slot.
    pub enum_values: Option<Vec<String>>,
    /// The value used when nothing in the utterance fills the slot.
    pub default_value: Option<String>,
}

/// An utterance and the slots to fill from it.
#[derive(Debug, Clone)]
pub struct SlotExtractionInput {
    pub utterance: String,
    pub slot_definitions: Vec<SlotDefinition>,
}

/// The value of a filled slot. A number is held as the decimal text it was
/// read from, which always parses as a finite floating-point number.
#[derive(Debug, Clone, PartialEq)]
pub enum SlotValue {
    Text(String),
    Number(String),
    Bool(bool),
}

/// A filled slot. The confidence is held in percent: 100 for a value found
/// in the utterance, 50 for a default value.
#[derive(Debug, Clone, PartialEq)]
pub struct ExtractedSlot {
    pub name: String,
    pub value: Option<SlotValue>,
    pub confidence_percent: u32,
    pub source: String,
}

/// The result of extraction: the filled slots, the names of the filled slots
/// and of the required slots left empty, in definition order.
#[derive(Debug, Clone, PartialEq)]
pub struct SlotExtractionOutput {
    pub slots: Vec<ExtractedSlot>,
    pub filled: Vec<String>,
    pub missing: Vec<String>,
    pub all_required_filled: bool,
}

/// The mathematical content of a [`SlotDefinition`].
pub struct DefinitionView {
    pub name: Seq<char>,
    pub slot_type: SlotType,
    pub pattern: Option<Seq<char>>,
    pub required: bool,
    pub enum_values: Option<Seq<Seq<char>>>,
    pub default_value: Option<Seq<char>>,
}

/// The mathematical content of a [`SlotValue`].
pub enum ValueView {
    Text(Seq<char>),
    Number(Seq<char>),
    Bool(bool),
}

/// The mathematical content of an [`ExtractedSlot`].
pub struct SlotView {
    pub name: Seq<char>,
    pub value: Option<ValueView>,
    pub confidence_percent: u32,
    pub source: Seq<char>,
}

impl View for SlotDefinition {
    type V = DefinitionView;

    open spec fn view(&self) -> DefinitionView {
        DefinitionView {
            name: self.name@,
            slot_type: self.slot_type,
            pattern: self.pattern.deep_view(),
            required: self.required,
            enum_values: self.enum_values.deep_view(),
            default_value: self.default_value.deep_view(),
        }
    }
}

impl View for SlotValue {
    type V = ValueView;

    open spec fn view(&self) -> ValueView {
        match self {
            SlotValue::Text(t) => ValueView::Text(t@),
            SlotValue::Number(t) => ValueView::Number(t@),
            SlotValue::Bool(b) => ValueView::Bool(*b),
        }
    }
}

impl View for ExtractedSlot {
    type V = SlotView;

    open spec fn view(&self) -> SlotView {
        SlotView {
            name: self.name@,
            value: match self.value {
                Some(v) => Some(v@),
                None => None,
            },
            confidence_percent: self.confidence_percent,
            source: self.source@,
        }
    }
}

/// The definitions of an input, by their views.
pub open spec fn definitions(input: &SlotExtractionInput) -> Seq<DefinitionView> {
    input.slot_definitions@.map_values(|d: SlotDefinition| d@)
}

/// A sequence of strings, by their views.
pub open spec fn texts(v: Seq<String>) -> Seq<Seq<char>> {
    v.map_values(|s: String| s@)
}

/// A sequence of slots, by their views.
pub open spec fn slot_views(v: Seq<ExtractedSlot>) -> Seq<SlotView> {
    v.map_values(|s: ExtractedSlot| s@)
}

/// The names of the required definitions, in order.
pub open spec fn required_names(defs: Seq<DefinitionView>) -> Seq<Seq<char>>
    decreases defs.len(),
{
    if defs.len() == 0 {
        seq![]
    } else if defs.last().required {
        required_names(defs.drop_last()).push(defs.last().name)
    } else {
        required_names(defs.drop_last())
    }
}

/// Fills no slot: every required slot is reported missing, in definition
/// order, and `all_required_filled` is false.
pub fn extract_slots(input: &SlotExtractionInput) -> (out: SlotExtractionOutput)
    ensures
        out.slots@.len() == 0,
        out.filled@.len() == 0,
        texts(out.missing@) == required_names(definitions(input)),
        !out.all_required_filled,
{
    let ghost defs = definitions(input);
    let n = input.slot_definitions.len();
    let mut missing: Vec<String> = Vec::new();
    let mut i: usize = 0;
    while i < n
        invariant
            i <= n,
            n == input.slot_definitions@.len(),
            defs == definitions(input),
            texts(missing@) == required_names(defs.take(i as int)),
        decreases n - i,
    {
        let def = &input.slot_definitions[i];
        if def.required {
            missing.push(def.name.clone());
        }
        proof {
            assert(defs.take(i + 1).drop_last() =~= defs.take(i as int));
            assert(texts(missing@) =~= required_names(defs.take(i + 1)));
        }
        i += 1;
    }
    assert(defs.take(n as int) =~= defs);
    SlotExtractionOutput {
        slots: Vec::new(),
        filled: Vec::new(),
        missing,
        all_required_filled: false,
    }
}

} // verus!
