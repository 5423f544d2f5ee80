//! Properties of extraction that span several definitions or calls.
use vstd::prelude::*;

use crate::dates::{decimal_text, iso_date_text};
use crate::extract::{
    extracted_slots, filled_names, first_enum_value, found_value, missing_names,
    parses_as_finite_number, slot_for,
};
use crate::pattern::regex_compiles;
use crate::text::{contains_whole_word, unicode_alphanumeric, word_at};
use crate::{DefinitionView, SlotType, SlotView, ValueView};

verus! {

/// The names of a sequence of slots.
pub open spec fn slot_names(slots: Seq<SlotView>) -> Seq<Seq<char>> {
    slots.map_values(|s: SlotView| s.name)
}

/// The number of optional definitions that yield no slot.
pub open spec fn ignored_count(utterance: Seq<char>, defs: Seq<DefinitionView>) -> nat
    decreases defs.len(),
{
    if defs.len() == 0 {
        0
    } else if slot_for(utterance, defs.last()) is None && !defs.last().required {
        ignored_count(utterance, defs.drop_last()) + 1
    } else {
        ignored_count(utterance, defs.drop_last())
    }
}

/// `filled` names exactly the extracted slots, one for one and in order.
pub proof fn lemma_filled_names_the_slots(utterance: Seq<char>, defs: Seq<DefinitionView>)
    ensures
        filled_names(utterance, defs) == slot_names(extracted_slots(utterance, defs)),
    decreases defs.len(),
{
    if defs.len() > 0 {
        lemma_filled_names_the_slots(utterance, defs.drop_last());
        assert(filled_names(utterance, defs) =~= slot_names(extracted_slots(utterance, defs)));
    }
}

/// Each definition is processed independently: extracting from two lists of
/// definitions one after the other gives the same slots, filled names and
/// missing names as extracting from their concatenation.
pub proof fn lemma_definitions_are_independent(
    utterance: Seq<char>,
    first: Seq<DefinitionView>,
    second: Seq<DefinitionView>,
)
    ensures
        extracted_slots(utterance, first + second) == extracted_slots(utterance, first)
            + extracted_slots(utterance, second),
        filled_names(utterance, first + second) == filled_names(utterance, first) + filled_names(
            utterance,
            second,
        ),
        missing_names(utterance, first + second) == missing_names(utterance, first)
            + missing_names(utterance, second),
    decreases second.len(),
{
    if second.len() == 0 {
        assert(first + second =~= first);
        assert(extracted_slots(utterance, first) + extracted_slots(utterance, second)
            =~= extracted_slots(utterance, first));
        assert(filled_names(utterance, first) + filled_names(utterance, second) =~= filled_names(
            utterance,
            first,
        ));
        assert(missing_names(utterance, first) + missing_names(utterance, second)
            =~= missing_names(utterance, first));
    } else {
        lemma_definitions_are_independent(utterance, first, second.drop_last());
        assert((first + second).drop_last() =~= first + second.drop_last());
        assert((first + second).last() == second.last());
        assert(extracted_slots(utterance, first + second) =~= extracted_slots(utterance, first)
            + extracted_slots(utterance, second));
        assert(filled_names(utterance, first + second) =~= filled_names(utterance, first)
            + filled_names(utterance, second));
        assert(missing_names(utterance, first + second) =~= missing_names(utterance, first)
            + missing_names(utterance, second));
    }
}

/// No required slot is missing exactly when every required definition
/// yields a slot.
pub proof fn lemma_all_required_filled(utterance: Seq<char>, defs: Seq<DefinitionView>)
    ensures
        missing_names(utterance, defs).len() == 0 <==> (forall|i: int|
            0 <= i < defs.len() && #[trigger] defs[i].required ==> slot_for(utterance, defs[i]) is Some),
    decreases defs.len(),
{
    if defs.len() > 0 {
        let rest = defs.drop_last();
        lemma_all_required_filled(utterance, rest);
        if missing_names(utterance, defs).len() == 0 {
            assert forall|i: int|
                0 <= i < defs.len() && #[trigger] defs[i].required implies slot_for(
                utterance,
                defs[i],
            ) is Some by {
                if i < defs.len() - 1 {
                    assert(rest[i] == defs[i]);
                }
            }
        } else {
            if !(slot_for(utterance, defs.last()) is None && defs.last().required) {
                let j = choose|j: int|
                    0 <= j < rest.len() && #[trigger] rest[j].required && slot_for(
                        utterance,
                        rest[j],
                    ) is None;
                assert(defs[j] == rest[j]);
            } else {
                assert(defs[defs.len() - 1] == defs.last());
            }
        }
    }
}

/// Every definition is filled, reported missing, or (when optional and
/// unmatched) ignored: the three counts add up to the number of definitions.
pub proof fn lemma_every_definition_accounted_for(utterance: Seq<char>, defs: Seq<DefinitionView>)
    ensures
        filled_names(utterance, defs).len() + missing_names(utterance, defs).len() + ignored_count(
            utterance,
            defs,
        ) == defs.len(),
    decreases defs.len(),
{
    if defs.len() > 0 {
        lemma_every_definition_accounted_for(utterance, defs.drop_last());
    }
}

/// A definition with a default value always yields a slot, so it is never
/// reported missing.
pub proof fn lemma_default_value_always_fills(utterance: Seq<char>, def: DefinitionView)
    requires
        def.default_value is Some,
    ensures
        slot_for(utterance, def) is Some,
        missing_names(utterance, seq![def]).len() == 0,
{
    let single = seq![def];
    assert(single.drop_last() =~= Seq::<DefinitionView>::empty());
    assert(single.last() == def);
    assert(missing_names(utterance, single.drop_last()).len() == 0);
}

/// A slot has confidence 50 and source `default` exactly when it came from
/// the default value, and confidence 100 and source `regex` otherwise.
pub proof fn lemma_confidence_follows_source(utterance: Seq<char>, def: DefinitionView)
    requires
        slot_for(utterance, def) is Some,
    ensures
        ({
            let s = slot_for(utterance, def)->0;
            &&& s.name == def.name
            &&& s.value is Some
            &&& (s.confidence_percent == 50 || s.confidence_percent == 100)
            &&& (s.confidence_percent == 50 <==> s.source == "default"@)
            &&& (s.confidence_percent == 100 <==> s.source == "regex"@)
            &&& (s.confidence_percent == 50 <==> found_value(utterance, def) is None)
        }),
{
    reveal_strlit("default");
    reveal_strlit("regex");
    assert("default"@.len() == 7);
    assert("regex"@.len() == 5);
    assert("default"@ != "regex"@);
}

/// A `String` definition whose pattern does not compile finds nothing in
/// any utterance: it yields its default value or nothing.
pub proof fn lemma_invalid_pattern_finds_nothing(utterance: Seq<char>, def: DefinitionView)
    requires
        def.slot_type == SlotType::String || def.slot_type == SlotType::Number
            || def.slot_type == SlotType::Date,
        def.pattern matches Some(p) && !regex_compiles(p),
    ensures
        found_value(utterance, def) is None,
        slot_for(utterance, def) is Some <==> def.default_value is Some,
{
}

/// A non-empty word occurs as a whole word in itself.
pub proof fn lemma_word_matches_itself(word: Seq<char>)
    requires
        word.len() > 0,
    ensures
        contains_whole_word(word, word),
{
    assert(word.subrange(0, word.len() as int) =~= word);
    assert(word_at(word, word, 0));
}

/// The empty needle matches nowhere, and a whole-word occurrence is an
/// occurrence.
pub proof fn lemma_whole_word_is_occurrence(haystack: Seq<char>, needle: Seq<char>)
    ensures
        needle.len() == 0 ==> !contains_whole_word(haystack, needle),
        contains_whole_word(haystack, needle) ==> exists|start: int|
            0 <= start && start + needle.len() <= haystack.len() && #[trigger] haystack.subrange(
                start,
                start + needle.len(),
            ) == needle,
{
}

/// A number value always reads as a finite number, whether it was found in
/// the utterance or came from a default value.
pub proof fn lemma_numbers_are_finite(utterance: Seq<char>, def: DefinitionView)
    ensures
        slot_for(utterance, def) matches Some(s) ==> (s.value matches Some(ValueView::Number(t))
            ==> parses_as_finite_number(t)),
{
}

/// The number of decimal digits of numbers below 10000.
pub proof fn lemma_decimal_text_len(n: nat)
    ensures
        n < 10 ==> decimal_text(n).len() == 1,
        10 <= n < 100 ==> decimal_text(n).len() == 2,
        100 <= n < 1000 ==> decimal_text(n).len() == 3,
        1000 <= n < 10000 ==> decimal_text(n).len() == 4,
    decreases n,
{
    if n >= 10 {
        lemma_decimal_text_len(n / 10);
    }
}

/// Dates of the years 0 to 9999 are normalised to the ten-character form
/// `YYYY-MM-DD`.
pub proof fn lemma_iso_date_shape(year: int, month: int, day: int)
    requires
        0 <= year <= 9999,
        1 <= month <= 12,
        1 <= day <= 31,
    ensures
        iso_date_text(year, month, day).len() == 10,
        iso_date_text(year, month, day)[4] == '-',
        iso_date_text(year, month, day)[7] == '-',
{
    lemma_decimal_text_len(year as nat);
}

/// An enum slot only ever takes one of its allowed values.
pub proof fn lemma_enum_value_is_allowed(lowered: Seq<char>, values: Seq<Seq<char>>)
    ensures
        first_enum_value(lowered, values) matches Some(v) ==> values.contains(v),
    decreases values.len(),
{
    if values.len() > 0 {
        lemma_enum_value_is_allowed(lowered, values.drop_first());
        if let Some(v) = first_enum_value(lowered, values.drop_first()) {
            if first_enum_value(lowered, values) == Some(v) && values[0] != v {
                let i = choose|i: int| 0 <= i < values.drop_first().len() && values.drop_first()[i] == v;
                assert(values[i + 1] == v);
            }
        }
    }
}

/// A value found in the utterance has the form of its slot type: text for
/// string, enum and date slots, a number for number slots and a boolean for
/// boolean slots.
pub proof fn lemma_found_value_matches_type(utterance: Seq<char>, def: DefinitionView)
    ensures
        found_value(utterance, def) matches Some(v) ==> match def.slot_type {
            SlotType::Number => v is Number,
            SlotType::Boolean => v is Bool,
            _ => v is Text,
        },
{
}

/// A definition with the required flag set as given.
pub open spec fn with_required(def: DefinitionView, required: bool) -> DefinitionView {
    DefinitionView {
        name: def.name,
        slot_type: def.slot_type,
        pattern: def.pattern,
        required,
        enum_values: def.enum_values,
        default_value: def.default_value,
    }
}

/// Extraction from a single definition.
proof fn lemma_single_definition(utterance: Seq<char>, def: DefinitionView)
    ensures
        extracted_slots(utterance, seq![def]) == (match slot_for(utterance, def) {
            Some(s) => seq![s],
            None => seq![],
        }),
        filled_names(utterance, seq![def]) == (if slot_for(utterance, def) is Some {
            seq![def.name]
        } else {
            seq![]
        }),
        missing_names(utterance, seq![def]) == (if slot_for(utterance, def) is None
            && def.required {
            seq![def.name]
        } else {
            seq![]
        }),
{
    let single = seq![def];
    assert(single.drop_last() =~= Seq::<DefinitionView>::empty());
    assert(single.last() == def);
    assert(extracted_slots(utterance, single.drop_last()) =~= seq![]);
    assert(filled_names(utterance, single.drop_last()) =~= seq![]);
    assert(missing_names(utterance, single.drop_last()) =~= seq![]);
    assert(extracted_slots(utterance, single) =~= (match slot_for(utterance, def) {
        Some(s) => seq![s],
        None => seq![],
    }));
    assert(filled_names(utterance, single) =~= (if slot_for(utterance, def) is Some {
        seq![def.name]
    } else {
        seq![]
    }));
    assert(missing_names(utterance, single) =~= (if slot_for(utterance, def) is None
        && def.required {
        seq![def.name]
    } else {
        seq![]
    }));
}

/// Whether a definition is required decides only whether it is reported
/// missing when it yields no slot: the slots and the filled names are the
/// same either way, an optional definition is never missing, and a required
/// one is missing exactly when it yields no slot.
pub proof fn lemma_required_only_decides_missing(
    utterance: Seq<char>,
    before: Seq<DefinitionView>,
    def: DefinitionView,
    after: Seq<DefinitionView>,
)
    ensures
        extracted_slots(utterance, before + seq![with_required(def, false)] + after)
            == extracted_slots(utterance, before + seq![with_required(def, true)] + after),
        filled_names(utterance, before + seq![with_required(def, false)] + after) == filled_names(
            utterance,
            before + seq![with_required(def, true)] + after,
        ),
        missing_names(utterance, before + seq![with_required(def, false)] + after)
            == missing_names(utterance, before) + missing_names(utterance, after),
        missing_names(utterance, before + seq![with_required(def, true)] + after)
            == missing_names(utterance, before) + (if slot_for(utterance, def) is None {
            seq![def.name]
        } else {
            seq![]
        }) + missing_names(utterance, after),
{
    let optional = with_required(def, false);
    let required = with_required(def, true);
    assert(slot_for(utterance, optional) == slot_for(utterance, def));
    assert(slot_for(utterance, required) == slot_for(utterance, def));
    lemma_single_definition(utterance, optional);
    lemma_single_definition(utterance, required);
    lemma_definitions_are_independent(utterance, before, seq![optional]);
    lemma_definitions_are_independent(utterance, before + seq![optional], after);
    lemma_definitions_are_independent(utterance, before, seq![required]);
    lemma_definitions_are_independent(utterance, before + seq![required], after);
    assert(missing_names(utterance, seq![optional]) =~= seq![]);
    assert(missing_names(utterance, before) + missing_names(utterance, seq![optional])
        =~= missing_names(utterance, before));
}

/// A whole-word occurrence survives surrounding the haystack with more
/// text, as long as the characters placed right next to it are not
/// alphanumeric (a space, for one).
pub proof fn lemma_separated_word_still_found(
    haystack: Seq<char>,
    needle: Seq<char>,
    before: Seq<char>,
    left: char,
    right: char,
    after: Seq<char>,
)
    requires
        contains_whole_word(haystack, needle),
        !unicode_alphanumeric(left),
        !unicode_alphanumeric(right),
    ensures
        contains_whole_word(before + seq![left] + haystack + seq![right] + after, needle),
{
    let padded = before + seq![left] + haystack + seq![right] + after;
    let i = choose|start: int| word_at(haystack, needle, start);
    let j = before.len() + 1 + i;
    assert(padded.subrange(j, j + needle.len()) =~= haystack.subrange(i, i + needle.len()));
    if i == 0 {
        assert(padded[j - 1] == left);
    } else {
        assert(padded[j - 1] == haystack[i - 1]);
    }
    if i + needle.len() == haystack.len() {
        assert(padded[j + needle.len()] == right);
    } else {
        assert(padded[j + needle.len()] == haystack[i + needle.len()]);
    }
    assert(word_at(padded, needle, j));
}

} // verus!
