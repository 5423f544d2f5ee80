//! Laws of the per-slot rules: what each slot type extracts, stated
//! directly over the utterance, the pattern and the outside results.
use vstd::prelude::*;

use crate::dates::{
    chrono_parse_date, date_formats, date_substring, decimal_text, digit_char, four_digit_text,
    iso_date_text, parse_any_date, parse_with_formats,
};
use crate::pattern::first_group;
use crate::extract::{
    affirmatives, coerced_default, first_enum_value, found_value, mentions_any, negatives, parses_as_finite_number,
    slot_for,
};
use crate::laws::lemma_word_matches_itself;
use crate::pattern::{capture_text, regex_captures, regex_compiles};
use crate::text::{contains_whole_word, unicode_alphanumeric, unicode_lowercase, word_at};
use crate::{DefinitionView, SlotType, SlotView, ValueView};

verus! {

// ---------------------------------------------------------------------------
// Whole words

/// A whole-word hit has a real word boundary on each side: some occurrence
/// of the word is at the start of the haystack or right after a character
/// that is not alphanumeric, and at its end or right before one.
pub proof fn lemma_whole_word_has_boundaries(haystack: Seq<char>, word: Seq<char>)
    requires
        contains_whole_word(haystack, word),
    ensures
        word.len() > 0,
        exists|s: int|
            0 <= s && s + word.len() <= haystack.len() && #[trigger] haystack.subrange(
                s,
                s + word.len(),
            ) == word && (s == 0 || !unicode_alphanumeric(haystack[s - 1])) && (s + word.len()
                == haystack.len() || !unicode_alphanumeric(haystack[s + word.len()])),
{
    let s = choose|s: int| word_at(haystack, word, s);
    assert(haystack.subrange(s, s + word.len()) == word);
}

/// A word whose every occurrence is glued to a letter or digit on its left
/// (as "l" is in "xl") is no whole-word hit.
pub proof fn lemma_left_glued_word_not_found(haystack: Seq<char>, word: Seq<char>)
    requires
        forall|s: int|
            0 <= s && s + word.len() <= haystack.len() && #[trigger] haystack.subrange(
                s,
                s + word.len(),
            ) == word ==> s > 0 && unicode_alphanumeric(haystack[s - 1]),
    ensures
        !contains_whole_word(haystack, word),
{
    if contains_whole_word(haystack, word) {
        let s = choose|s: int| word_at(haystack, word, s);
        assert(haystack.subrange(s, s + word.len()) == word);
    }
}

/// A word whose every occurrence is glued to a letter or digit on its right
/// (as "x" is in "xl") is no whole-word hit.
pub proof fn lemma_right_glued_word_not_found(haystack: Seq<char>, word: Seq<char>)
    requires
        forall|s: int|
            0 <= s && s + word.len() <= haystack.len() && #[trigger] haystack.subrange(
                s,
                s + word.len(),
            ) == word ==> s + word.len() < haystack.len() && unicode_alphanumeric(
                haystack[s + word.len()],
            ),
    ensures
        !contains_whole_word(haystack, word),
{
    if contains_whole_word(haystack, word) {
        let s = choose|s: int| word_at(haystack, word, s);
        assert(haystack.subrange(s, s + word.len()) == word);
    }
}

/// Inside a haystack made only of letters and digits, nothing shorter than
/// the whole haystack is a whole word.
pub proof fn lemma_nothing_whole_inside_a_word(haystack: Seq<char>, word: Seq<char>)
    requires
        word.len() < haystack.len(),
        forall|i: int| 0 <= i < haystack.len() ==> unicode_alphanumeric(#[trigger] haystack[i]),
    ensures
        !contains_whole_word(haystack, word),
{
    if contains_whole_word(haystack, word) {
        let s = choose|s: int| word_at(haystack, word, s);
        if s > 0 {
            assert(unicode_alphanumeric(haystack[s - 1]));
        } else {
            assert(unicode_alphanumeric(haystack[s + word.len()]));
        }
    }
}

/// A word whose first two characters never line up with the haystack at a
/// position where the word would fit does not occur in it at all.
pub proof fn lemma_never_occurs(haystack: Seq<char>, word: Seq<char>)
    requires
        word.len() > 0,
        forall|s: int|
            0 <= s && s + word.len() <= haystack.len() ==> #[trigger] haystack[s] != word[0] || (
            word.len() > 1 && haystack[s + 1] != word[1]),
    ensures
        !contains_whole_word(haystack, word),
{
    if contains_whole_word(haystack, word) {
        let s = choose|s: int| word_at(haystack, word, s);
        assert(haystack.subrange(s, s + word.len())[0] == haystack[s]);
        if word.len() > 1 {
            assert(haystack.subrange(s, s + word.len())[1] == haystack[s + 1]);
        }
    }
}

// ---------------------------------------------------------------------------
// Boolean slots

/// Each of these lowercased negative words holds no affirmative token as a
/// whole word, and is itself a negative token.
proof fn lemma_negative_word_is_only_negative(t: Seq<char>)
    requires
        t == "no"@
            || t == "n"@
            || t == "false"@
            || t == "nope"@
            || t == "nah"@
            || t == "falso"@
            || t == "non"@
            || t == "faux"@
            || t == "nein"@
            || t == "falsch"@
            || t == "нет"@
            || t == "ложь"@
            || t == "não"@
            || t == "nee"@,
    ensures
        !mentions_any(t, affirmatives()),
        mentions_any(t, negatives()),
{
    reveal_strlit("yes");
    reveal_strlit("y");
    reveal_strlit("true");
    reveal_strlit("ok");
    reveal_strlit("okay");
    reveal_strlit("sure");
    reveal_strlit("si");
    reveal_strlit("sí");
    reveal_strlit("verdadero");
    reveal_strlit("oui");
    reveal_strlit("vrai");
    reveal_strlit("ja");
    reveal_strlit("wahr");
    reveal_strlit("да");
    reveal_strlit("истина");
    reveal_strlit("sim");
    reveal_strlit("verdadeiro");
    reveal_strlit("sì");
    reveal_strlit("vero");
    reveal_strlit("waar");
    reveal_strlit("no");
    reveal_strlit("n");
    reveal_strlit("false");
    reveal_strlit("nope");
    reveal_strlit("nah");
    reveal_strlit("falso");
    reveal_strlit("non");
    reveal_strlit("faux");
    reveal_strlit("nein");
    reveal_strlit("falsch");
    reveal_strlit("нет");
    reveal_strlit("ложь");
    reveal_strlit("não");
    reveal_strlit("nee");
    reveal_strlit("onwaar");
    let a = affirmatives();
    if t == "no"@ {
        assert forall|i: int| 0 <= i < a.len() implies !contains_whole_word(t, #[trigger] a[i]) by {
            lemma_never_occurs(t, a[i]);
        }
        assert(negatives()[0] == t);
    } else if t == "n"@ {
        assert forall|i: int| 0 <= i < a.len() implies !contains_whole_word(t, #[trigger] a[i]) by {
            lemma_never_occurs(t, a[i]);
        }
        assert(negatives()[1] == t);
    } else if t == "false"@ {
        assert forall|i: int| 0 <= i < a.len() implies !contains_whole_word(t, #[trigger] a[i]) by {
            lemma_never_occurs(t, a[i]);
        }
        assert(negatives()[2] == t);
    } else if t == "nope"@ {
        assert forall|i: int| 0 <= i < a.len() implies !contains_whole_word(t, #[trigger] a[i]) by {
            lemma_never_occurs(t, a[i]);
        }
        assert(negatives()[3] == t);
    } else if t == "nah"@ {
        assert forall|i: int| 0 <= i < a.len() implies !contains_whole_word(t, #[trigger] a[i]) by {
            lemma_never_occurs(t, a[i]);
        }
        assert(negatives()[4] == t);
    } else if t == "falso"@ {
        assert forall|i: int| 0 <= i < a.len() implies !contains_whole_word(t, #[trigger] a[i]) by {
            lemma_never_occurs(t, a[i]);
        }
        assert(negatives()[5] == t);
    } else if t == "non"@ {
        assert forall|i: int| 0 <= i < a.len() implies !contains_whole_word(t, #[trigger] a[i]) by {
            lemma_never_occurs(t, a[i]);
        }
        assert(negatives()[6] == t);
    } else if t == "faux"@ {
        assert forall|i: int| 0 <= i < a.len() implies !contains_whole_word(t, #[trigger] a[i]) by {
            lemma_never_occurs(t, a[i]);
        }
        assert(negatives()[7] == t);
    } else if t == "nein"@ {
        assert forall|i: int| 0 <= i < a.len() implies !contains_whole_word(t, #[trigger] a[i]) by {
            lemma_never_occurs(t, a[i]);
        }
        assert(negatives()[8] == t);
    } else if t == "falsch"@ {
        assert forall|i: int| 0 <= i < a.len() implies !contains_whole_word(t, #[trigger] a[i]) by {
            lemma_never_occurs(t, a[i]);
        }
        assert(negatives()[9] == t);
    } else if t == "нет"@ {
        assert forall|i: int| 0 <= i < a.len() implies !contains_whole_word(t, #[trigger] a[i]) by {
            lemma_never_occurs(t, a[i]);
        }
        assert(negatives()[10] == t);
    } else if t == "ложь"@ {
        assert forall|i: int| 0 <= i < a.len() implies !contains_whole_word(t, #[trigger] a[i]) by {
            lemma_never_occurs(t, a[i]);
        }
        assert(negatives()[11] == t);
    } else if t == "não"@ {
        assert forall|i: int| 0 <= i < a.len() implies !contains_whole_word(t, #[trigger] a[i]) by {
            lemma_never_occurs(t, a[i]);
        }
        assert(negatives()[12] == t);
    } else if t == "nee"@ {
        assert forall|i: int| 0 <= i < a.len() implies !contains_whole_word(t, #[trigger] a[i]) by {
            lemma_never_occurs(t, a[i]);
        }
        assert(negatives()[13] == t);
    }
    lemma_word_matches_itself(t);
}

/// A boolean slot whose utterance, lowercased, is one of the negative words
/// "no", "n", "false", "nope", "nah", "falso", "non", "faux", "nein",
/// "falsch", "нет", "ложь", "não" or "nee" is filled with false.
pub proof fn lemma_negative_word_alone_gives_false(utterance: Seq<char>, def: DefinitionView)
    requires
        def.slot_type == SlotType::Boolean,
        unicode_lowercase(utterance) == "no"@
            || unicode_lowercase(utterance) == "n"@
            || unicode_lowercase(utterance) == "false"@
            || unicode_lowercase(utterance) == "nope"@
            || unicode_lowercase(utterance) == "nah"@
            || unicode_lowercase(utterance) == "falso"@
            || unicode_lowercase(utterance) == "non"@
            || unicode_lowercase(utterance) == "faux"@
            || unicode_lowercase(utterance) == "nein"@
            || unicode_lowercase(utterance) == "falsch"@
            || unicode_lowercase(utterance) == "нет"@
            || unicode_lowercase(utterance) == "ложь"@
            || unicode_lowercase(utterance) == "não"@
            || unicode_lowercase(utterance) == "nee"@,
    ensures
        found_value(utterance, def) == Some(ValueView::Bool(false)),
        slot_for(utterance, def) == Some(
            SlotView {
                name: def.name,
                value: Some(ValueView::Bool(false)),
                confidence_percent: 100,
                source: "regex"@,
            },
        ),
{
    lemma_negative_word_is_only_negative(unicode_lowercase(utterance));
}

/// A boolean slot whose utterance, lowercased, is the Dutch negative word
/// "onwaar" is filled with false: the affirmative "waar" inside it is glued
/// to the letter before it (lowercase ASCII letters being alphanumeric, as
/// std documents).
pub proof fn lemma_onwaar_alone_gives_false(utterance: Seq<char>, def: DefinitionView)
    requires
        def.slot_type == SlotType::Boolean,
        unicode_lowercase(utterance) == "onwaar"@,
        forall|c: char| 'a' <= c <= 'z' ==> #[trigger] unicode_alphanumeric(c),
    ensures
        found_value(utterance, def) == Some(ValueView::Bool(false)),
{
    reveal_strlit("yes");
    reveal_strlit("y");
    reveal_strlit("true");
    reveal_strlit("ok");
    reveal_strlit("okay");
    reveal_strlit("sure");
    reveal_strlit("si");
    reveal_strlit("sí");
    reveal_strlit("verdadero");
    reveal_strlit("oui");
    reveal_strlit("vrai");
    reveal_strlit("ja");
    reveal_strlit("wahr");
    reveal_strlit("да");
    reveal_strlit("истина");
    reveal_strlit("sim");
    reveal_strlit("verdadeiro");
    reveal_strlit("sì");
    reveal_strlit("vero");
    reveal_strlit("waar");
    reveal_strlit("no");
    reveal_strlit("n");
    reveal_strlit("false");
    reveal_strlit("nope");
    reveal_strlit("nah");
    reveal_strlit("falso");
    reveal_strlit("non");
    reveal_strlit("faux");
    reveal_strlit("nein");
    reveal_strlit("falsch");
    reveal_strlit("нет");
    reveal_strlit("ложь");
    reveal_strlit("não");
    reveal_strlit("nee");
    reveal_strlit("onwaar");
    let t = unicode_lowercase(utterance);
    let a = affirmatives();
    assert forall|i: int| 0 <= i < t.len() implies unicode_alphanumeric(#[trigger] t[i]) by {
        assert('a' <= t[i] <= 'z');
    }
    assert forall|i: int| 0 <= i < a.len() implies !contains_whole_word(t, #[trigger] a[i]) by {
        if a[i].len() < t.len() {
            lemma_nothing_whole_inside_a_word(t, a[i]);
        } else {
            lemma_never_occurs(t, a[i]);
        }
    }
    assert(negatives()[14] == t);
    lemma_word_matches_itself(t);
}

// ---------------------------------------------------------------------------
// Enum slots

/// The enum value chosen is one of the allowed values, and its lowercase
/// form occurs in the lowercased utterance with a real word boundary on
/// each side; a value that only occurs glued to a letter or digit (as "l"
/// does in "xl") is never chosen.
pub proof fn lemma_enum_choice_is_a_bounded_word(lowered: Seq<char>, values: Seq<Seq<char>>)
    ensures
        first_enum_value(lowered, values) matches Some(v) ==> {
            let w = unicode_lowercase(v);
            &&& values.contains(v)
            &&& w.len() > 0
            &&& exists|s: int|
                0 <= s && s + w.len() <= lowered.len() && #[trigger] lowered.subrange(
                    s,
                    s + w.len(),
                ) == w && (s == 0 || !unicode_alphanumeric(lowered[s - 1])) && (s + w.len()
                    == lowered.len() || !unicode_alphanumeric(lowered[s + w.len()]))
        },
    decreases values.len(),
{
    if values.len() > 0 {
        lemma_enum_choice_is_a_bounded_word(lowered, values.drop_first());
        if contains_whole_word(lowered, unicode_lowercase(values[0])) {
            lemma_whole_word_has_boundaries(lowered, unicode_lowercase(values[0]));
            assert(values.contains(values[0]));
        } else if let Some(v) = first_enum_value(lowered, values.drop_first()) {
            let i = choose|i: int| 0 <= i < values.drop_first().len() && values.drop_first()[i] == v;
            assert(values[i + 1] == v);
        }
    }
}

/// The enum value chosen comes first: no allowed value listed before it is
/// named in the utterance as a whole word.
pub proof fn lemma_enum_choice_is_first_listed(lowered: Seq<char>, values: Seq<Seq<char>>, k: int)
    requires
        0 <= k < values.len(),
        contains_whole_word(lowered, unicode_lowercase(values[k])),
    ensures
        first_enum_value(lowered, values) is Some,
        first_enum_value(lowered, values) matches Some(v) ==> exists|j: int|
            0 <= j <= k && values[j] == v,
    decreases values.len(),
{
    if k > 0 && !contains_whole_word(lowered, unicode_lowercase(values[0])) {
        assert(values.drop_first()[k - 1] == values[k]);
        lemma_enum_choice_is_first_listed(lowered, values.drop_first(), k - 1);
        let v = first_enum_value(lowered, values)->0;
        let j = choose|j: int| 0 <= j <= k - 1 && values.drop_first()[j] == v;
        assert(values[j + 1] == v);
    } else if k == 0 {
        assert(values[0] == values[k]);
    }
}

// ---------------------------------------------------------------------------
// String slots

/// When the regex matches and capture group 1 exists and took part, the
/// extracted text is group 1, however many groups the pattern has.
pub proof fn lemma_group_one_wins(groups: Seq<Option<Seq<char>>>)
    ensures
        groups.len() > 1 && groups[1] is Some ==> first_group(groups) == groups[1],
        groups.len() >= 1 && !(groups.len() > 1 && groups[1] is Some) ==> first_group(groups)
            == groups[0],
{
}

/// A string slot with pattern `p` takes capture group 1 of `p` when the
/// group exists and took part in the match, whatever the number of groups,
/// and the whole match otherwise; without a match it takes nothing.
pub proof fn lemma_string_slot_reads_group_one(
    utterance: Seq<char>,
    def: DefinitionView,
    p: Seq<char>,
)
    requires
        def.slot_type == SlotType::String,
        def.pattern == Some(p),
    ensures
        ({
            let groups = regex_captures(p, utterance)->0;
            regex_compiles(p) && regex_captures(p, utterance) is Some && groups.len() > 1
                && groups[1] is Some ==> found_value(utterance, def) == Some(
                ValueView::Text(groups[1]->0),
            )
        }),
        ({
            let groups = regex_captures(p, utterance)->0;
            regex_compiles(p) && regex_captures(p, utterance) is Some && groups.len() >= 1 && (
                groups.len() == 1 || groups[1] is None) && groups[0] is Some ==> found_value(utterance, def) == Some(
                ValueView::Text(groups[0]->0),
            )
        }),
        !regex_compiles(p) || regex_captures(p, utterance) is None ==> found_value(
            utterance,
            def,
        ) is None,
{
}

// ---------------------------------------------------------------------------
// Date slots

/// A date slot with pattern `p` is read from exactly what `p` captures: it
/// is filled only when the capture parses as a date, and then with that
/// date in ISO form; no other date in the utterance is used.
pub proof fn lemma_date_slot_reads_its_capture(utterance: Seq<char>, def: DefinitionView, p: Seq<char>)
    requires
        def.slot_type == SlotType::Date,
        def.pattern == Some(p),
    ensures
        capture_text(p, utterance) is None ==> found_value(utterance, def) is None,
        capture_text(p, utterance) matches Some(c) ==> (match parse_any_date(c) {
            Some(d) => found_value(utterance, def) == Some(
                ValueView::Text(iso_date_text(d.0 as int, d.1 as int, d.2 as int)),
            ),
            None => found_value(utterance, def) is None,
        }),
{
}

/// A date slot without a pattern is read from the first date-like
/// substring of the utterance.
pub proof fn lemma_date_slot_without_pattern_scans(utterance: Seq<char>, def: DefinitionView)
    requires
        def.slot_type == SlotType::Date,
        def.pattern is None,
    ensures
        date_substring(utterance) is None ==> found_value(utterance, def) is None,
        date_substring(utterance) matches Some(c) ==> (match parse_any_date(c) {
            Some(d) => found_value(utterance, def) == Some(
                ValueView::Text(iso_date_text(d.0 as int, d.1 as int, d.2 as int)),
            ),
            None => found_value(utterance, def) is None,
        }),
{
}

// ---------------------------------------------------------------------------
// Number slots

/// A number slot with its own pattern `p` is read only through `p`: it finds
/// a value exactly when `p` extracts a text that reads as a finite number,
/// and that text is the value. When `p` extracts nothing, the slot takes its
/// default value (confidence 50, source "default") or stays empty; the
/// default number pattern is not tried.
pub proof fn lemma_number_slot_reads_its_own_pattern(
    utterance: Seq<char>,
    def: DefinitionView,
    p: Seq<char>,
)
    requires
        def.slot_type == SlotType::Number,
        def.pattern == Some(p),
    ensures
        found_value(utterance, def) is Some <==> (capture_text(p, utterance) matches Some(t)
            && parses_as_finite_number(t)),
        capture_text(p, utterance) is Some && parses_as_finite_number(
            capture_text(p, utterance)->0,
        ) ==> found_value(utterance, def) == Some(
            ValueView::Number(capture_text(p, utterance)->0),
        ),
        capture_text(p, utterance) is None ==> (slot_for(utterance, def) matches Some(s) ==> (
        s.source == "default"@ && s.confidence_percent == 50)),
        capture_text(p, utterance) is None ==> (slot_for(utterance, def) is Some
            <==> def.default_value is Some),
{
}

/// A number slot without a pattern is read with the pattern
/// `-?\d+(?:\.\d+)?`.
pub proof fn lemma_number_slot_default_pattern(utterance: Seq<char>, def: DefinitionView)
    requires
        def.slot_type == SlotType::Number,
        def.pattern is None,
    ensures
        found_value(utterance, def) is Some <==> (capture_text(r"-?\d+(?:\.\d+)?"@, utterance) matches Some(t)
            && parses_as_finite_number(t)),
        capture_text(r"-?\d+(?:\.\d+)?"@, utterance) is Some && parses_as_finite_number(
            capture_text(r"-?\d+(?:\.\d+)?"@, utterance)->0,
        ) ==> found_value(utterance, def) == Some(
            ValueView::Number(capture_text(r"-?\d+(?:\.\d+)?"@, utterance)->0),
        ),
{
}

// ---------------------------------------------------------------------------
// Boolean slots: the affirmative table

/// A boolean slot whose lowercased utterance mentions any of the
/// affirmative words "yes", "y", "true", "ok", "okay", "sure", "si", "sí",
/// "verdadero", "oui", "vrai", "ja", "wahr", "да", "истина", "sim",
/// "verdadeiro", "sì", "vero" or "waar" on its own is filled with true.
pub proof fn lemma_affirmative_word_alone_gives_true(utterance: Seq<char>, def: DefinitionView)
    requires
        def.slot_type == SlotType::Boolean,
        unicode_lowercase(utterance) == "yes"@
            || unicode_lowercase(utterance) == "y"@
            || unicode_lowercase(utterance) == "true"@
            || unicode_lowercase(utterance) == "ok"@
            || unicode_lowercase(utterance) == "okay"@
            || unicode_lowercase(utterance) == "sure"@
            || unicode_lowercase(utterance) == "si"@
            || unicode_lowercase(utterance) == "sí"@
            || unicode_lowercase(utterance) == "verdadero"@
            || unicode_lowercase(utterance) == "oui"@
            || unicode_lowercase(utterance) == "vrai"@
            || unicode_lowercase(utterance) == "ja"@
            || unicode_lowercase(utterance) == "wahr"@
            || unicode_lowercase(utterance) == "да"@
            || unicode_lowercase(utterance) == "истина"@
            || unicode_lowercase(utterance) == "sim"@
            || unicode_lowercase(utterance) == "verdadeiro"@
            || unicode_lowercase(utterance) == "sì"@
            || unicode_lowercase(utterance) == "vero"@
            || unicode_lowercase(utterance) == "waar"@,
    ensures
        found_value(utterance, def) == Some(ValueView::Bool(true)),
{
    reveal_strlit("yes");
    reveal_strlit("y");
    reveal_strlit("true");
    reveal_strlit("ok");
    reveal_strlit("okay");
    reveal_strlit("sure");
    reveal_strlit("si");
    reveal_strlit("sí");
    reveal_strlit("verdadero");
    reveal_strlit("oui");
    reveal_strlit("vrai");
    reveal_strlit("ja");
    reveal_strlit("wahr");
    reveal_strlit("да");
    reveal_strlit("истина");
    reveal_strlit("sim");
    reveal_strlit("verdadeiro");
    reveal_strlit("sì");
    reveal_strlit("vero");
    reveal_strlit("waar");
    reveal_strlit("no");
    reveal_strlit("n");
    reveal_strlit("false");
    reveal_strlit("nope");
    reveal_strlit("nah");
    reveal_strlit("falso");
    reveal_strlit("non");
    reveal_strlit("faux");
    reveal_strlit("nein");
    reveal_strlit("falsch");
    reveal_strlit("нет");
    reveal_strlit("ложь");
    reveal_strlit("não");
    reveal_strlit("nee");
    reveal_strlit("onwaar");
    let t = unicode_lowercase(utterance);
    if t == "yes"@ {
        assert(affirmatives()[0] == t);
    } else if t == "y"@ {
        assert(affirmatives()[1] == t);
    } else if t == "true"@ {
        assert(affirmatives()[2] == t);
    } else if t == "ok"@ {
        assert(affirmatives()[3] == t);
    } else if t == "okay"@ {
        assert(affirmatives()[4] == t);
    } else if t == "sure"@ {
        assert(affirmatives()[5] == t);
    } else if t == "si"@ {
        assert(affirmatives()[6] == t);
    } else if t == "sí"@ {
        assert(affirmatives()[7] == t);
    } else if t == "verdadero"@ {
        assert(affirmatives()[8] == t);
    } else if t == "oui"@ {
        assert(affirmatives()[9] == t);
    } else if t == "vrai"@ {
        assert(affirmatives()[10] == t);
    } else if t == "ja"@ {
        assert(affirmatives()[11] == t);
    } else if t == "wahr"@ {
        assert(affirmatives()[12] == t);
    } else if t == "да"@ {
        assert(affirmatives()[13] == t);
    } else if t == "истина"@ {
        assert(affirmatives()[14] == t);
    } else if t == "sim"@ {
        assert(affirmatives()[15] == t);
    } else if t == "verdadeiro"@ {
        assert(affirmatives()[16] == t);
    } else if t == "sì"@ {
        assert(affirmatives()[17] == t);
    } else if t == "vero"@ {
        assert(affirmatives()[18] == t);
    } else if t == "waar"@ {
        assert(affirmatives()[19] == t);
    }
    lemma_word_matches_itself(t);
}

/// An affirmative word anywhere in the lowercased utterance, as a whole
/// word, makes a boolean slot true, whatever negative words occur too.
pub proof fn lemma_affirmative_wins(utterance: Seq<char>, def: DefinitionView, k: int)
    requires
        def.slot_type == SlotType::Boolean,
        0 <= k < affirmatives().len(),
        contains_whole_word(unicode_lowercase(utterance), affirmatives()[k]),
    ensures
        found_value(utterance, def) == Some(ValueView::Bool(true)),
{
}

// ---------------------------------------------------------------------------
// Default values

/// A boolean default that is, lowercased, one of the affirmative words is
/// coerced to true.
pub proof fn lemma_affirmative_default_is_true(raw: Seq<char>)
    requires
        unicode_lowercase(raw) == "yes"@
            || unicode_lowercase(raw) == "y"@
            || unicode_lowercase(raw) == "true"@
            || unicode_lowercase(raw) == "ok"@
            || unicode_lowercase(raw) == "okay"@
            || unicode_lowercase(raw) == "sure"@
            || unicode_lowercase(raw) == "si"@
            || unicode_lowercase(raw) == "sí"@
            || unicode_lowercase(raw) == "verdadero"@
            || unicode_lowercase(raw) == "oui"@
            || unicode_lowercase(raw) == "vrai"@
            || unicode_lowercase(raw) == "ja"@
            || unicode_lowercase(raw) == "wahr"@
            || unicode_lowercase(raw) == "да"@
            || unicode_lowercase(raw) == "истина"@
            || unicode_lowercase(raw) == "sim"@
            || unicode_lowercase(raw) == "verdadeiro"@
            || unicode_lowercase(raw) == "sì"@
            || unicode_lowercase(raw) == "vero"@
            || unicode_lowercase(raw) == "waar"@,
    ensures
        coerced_default(SlotType::Boolean, raw) == ValueView::Bool(true),
{
    reveal_strlit("yes");
    reveal_strlit("y");
    reveal_strlit("true");
    reveal_strlit("ok");
    reveal_strlit("okay");
    reveal_strlit("sure");
    reveal_strlit("si");
    reveal_strlit("sí");
    reveal_strlit("verdadero");
    reveal_strlit("oui");
    reveal_strlit("vrai");
    reveal_strlit("ja");
    reveal_strlit("wahr");
    reveal_strlit("да");
    reveal_strlit("истина");
    reveal_strlit("sim");
    reveal_strlit("verdadeiro");
    reveal_strlit("sì");
    reveal_strlit("vero");
    reveal_strlit("waar");
    reveal_strlit("no");
    reveal_strlit("n");
    reveal_strlit("false");
    reveal_strlit("nope");
    reveal_strlit("nah");
    reveal_strlit("falso");
    reveal_strlit("non");
    reveal_strlit("faux");
    reveal_strlit("nein");
    reveal_strlit("falsch");
    reveal_strlit("нет");
    reveal_strlit("ложь");
    reveal_strlit("não");
    reveal_strlit("nee");
    reveal_strlit("onwaar");
    let l = unicode_lowercase(raw);
    if l == "yes"@ {
        assert(affirmatives()[0] == l);
    } else if l == "y"@ {
        assert(affirmatives()[1] == l);
    } else if l == "true"@ {
        assert(affirmatives()[2] == l);
    } else if l == "ok"@ {
        assert(affirmatives()[3] == l);
    } else if l == "okay"@ {
        assert(affirmatives()[4] == l);
    } else if l == "sure"@ {
        assert(affirmatives()[5] == l);
    } else if l == "si"@ {
        assert(affirmatives()[6] == l);
    } else if l == "sí"@ {
        assert(affirmatives()[7] == l);
    } else if l == "verdadero"@ {
        assert(affirmatives()[8] == l);
    } else if l == "oui"@ {
        assert(affirmatives()[9] == l);
    } else if l == "vrai"@ {
        assert(affirmatives()[10] == l);
    } else if l == "ja"@ {
        assert(affirmatives()[11] == l);
    } else if l == "wahr"@ {
        assert(affirmatives()[12] == l);
    } else if l == "да"@ {
        assert(affirmatives()[13] == l);
    } else if l == "истина"@ {
        assert(affirmatives()[14] == l);
    } else if l == "sim"@ {
        assert(affirmatives()[15] == l);
    } else if l == "verdadeiro"@ {
        assert(affirmatives()[16] == l);
    } else if l == "sì"@ {
        assert(affirmatives()[17] == l);
    } else if l == "vero"@ {
        assert(affirmatives()[18] == l);
    } else if l == "waar"@ {
        assert(affirmatives()[19] == l);
    }
}

/// A boolean default that is, lowercased, one of the negative words is
/// coerced to false.
pub proof fn lemma_negative_default_is_false(raw: Seq<char>)
    requires
        unicode_lowercase(raw) == "no"@
            || unicode_lowercase(raw) == "n"@
            || unicode_lowercase(raw) == "false"@
            || unicode_lowercase(raw) == "nope"@
            || unicode_lowercase(raw) == "nah"@
            || unicode_lowercase(raw) == "falso"@
            || unicode_lowercase(raw) == "non"@
            || unicode_lowercase(raw) == "faux"@
            || unicode_lowercase(raw) == "nein"@
            || unicode_lowercase(raw) == "falsch"@
            || unicode_lowercase(raw) == "нет"@
            || unicode_lowercase(raw) == "ложь"@
            || unicode_lowercase(raw) == "não"@
            || unicode_lowercase(raw) == "nee"@
            || unicode_lowercase(raw) == "onwaar"@,
    ensures
        coerced_default(SlotType::Boolean, raw) == ValueView::Bool(false),
{
    reveal_strlit("yes");
    reveal_strlit("y");
    reveal_strlit("true");
    reveal_strlit("ok");
    reveal_strlit("okay");
    reveal_strlit("sure");
    reveal_strlit("si");
    reveal_strlit("sí");
    reveal_strlit("verdadero");
    reveal_strlit("oui");
    reveal_strlit("vrai");
    reveal_strlit("ja");
    reveal_strlit("wahr");
    reveal_strlit("да");
    reveal_strlit("истина");
    reveal_strlit("sim");
    reveal_strlit("verdadeiro");
    reveal_strlit("sì");
    reveal_strlit("vero");
    reveal_strlit("waar");
    reveal_strlit("no");
    reveal_strlit("n");
    reveal_strlit("false");
    reveal_strlit("nope");
    reveal_strlit("nah");
    reveal_strlit("falso");
    reveal_strlit("non");
    reveal_strlit("faux");
    reveal_strlit("nein");
    reveal_strlit("falsch");
    reveal_strlit("нет");
    reveal_strlit("ложь");
    reveal_strlit("não");
    reveal_strlit("nee");
    reveal_strlit("onwaar");
    let l = unicode_lowercase(raw);
    if l == "no"@ {
        assert(negatives()[0] == l);
        assert forall|i: int| 0 <= i < affirmatives().len() implies #[trigger] affirmatives()[i] != l by {
            if affirmatives()[i].len() == l.len() {
                assert(affirmatives()[i][0] != l[0] || affirmatives()[i][1] != l[1]
                    || affirmatives()[i] != l);
            }
        }
    } else if l == "n"@ {
        assert(negatives()[1] == l);
        assert forall|i: int| 0 <= i < affirmatives().len() implies #[trigger] affirmatives()[i] != l by {
            if affirmatives()[i].len() == l.len() {
                assert(affirmatives()[i][0] != l[0] || affirmatives()[i][1] != l[1]
                    || affirmatives()[i] != l);
            }
        }
    } else if l == "false"@ {
        assert(negatives()[2] == l);
        assert forall|i: int| 0 <= i < affirmatives().len() implies #[trigger] affirmatives()[i] != l by {
            if affirmatives()[i].len() == l.len() {
                assert(affirmatives()[i][0] != l[0] || affirmatives()[i][1] != l[1]
                    || affirmatives()[i] != l);
            }
        }
    } else if l == "nope"@ {
        assert(negatives()[3] == l);
        assert forall|i: int| 0 <= i < affirmatives().len() implies #[trigger] affirmatives()[i] != l by {
            if affirmatives()[i].len() == l.len() {
                assert(affirmatives()[i][0] != l[0] || affirmatives()[i][1] != l[1]
                    || affirmatives()[i] != l);
            }
        }
    } else if l == "nah"@ {
        assert(negatives()[4] == l);
        assert forall|i: int| 0 <= i < affirmatives().len() implies #[trigger] affirmatives()[i] != l by {
            if affirmatives()[i].len() == l.len() {
                assert(affirmatives()[i][0] != l[0] || affirmatives()[i][1] != l[1]
                    || affirmatives()[i] != l);
            }
        }
    } else if l == "falso"@ {
        assert(negatives()[5] == l);
        assert forall|i: int| 0 <= i < affirmatives().len() implies #[trigger] affirmatives()[i] != l by {
            if affirmatives()[i].len() == l.len() {
                assert(affirmatives()[i][0] != l[0] || affirmatives()[i][1] != l[1]
                    || affirmatives()[i] != l);
            }
        }
    } else if l == "non"@ {
        assert(negatives()[6] == l);
        assert forall|i: int| 0 <= i < affirmatives().len() implies #[trigger] affirmatives()[i] != l by {
            if affirmatives()[i].len() == l.len() {
                assert(affirmatives()[i][0] != l[0] || affirmatives()[i][1] != l[1]
                    || affirmatives()[i] != l);
            }
        }
    } else if l == "faux"@ {
        assert(negatives()[7] == l);
        assert forall|i: int| 0 <= i < affirmatives().len() implies #[trigger] affirmatives()[i] != l by {
            if affirmatives()[i].len() == l.len() {
                assert(affirmatives()[i][0] != l[0] || affirmatives()[i][1] != l[1]
                    || affirmatives()[i] != l);
            }
        }
    } else if l == "nein"@ {
        assert(negatives()[8] == l);
        assert forall|i: int| 0 <= i < affirmatives().len() implies #[trigger] affirmatives()[i] != l by {
            if affirmatives()[i].len() == l.len() {
                assert(affirmatives()[i][0] != l[0] || affirmatives()[i][1] != l[1]
                    || affirmatives()[i] != l);
            }
        }
    } else if l == "falsch"@ {
        assert(negatives()[9] == l);
        assert forall|i: int| 0 <= i < affirmatives().len() implies #[trigger] affirmatives()[i] != l by {
            if affirmatives()[i].len() == l.len() {
                assert(affirmatives()[i][0] != l[0] || affirmatives()[i][1] != l[1]
                    || affirmatives()[i] != l);
            }
        }
    } else if l == "нет"@ {
        assert(negatives()[10] == l);
        assert forall|i: int| 0 <= i < affirmatives().len() implies #[trigger] affirmatives()[i] != l by {
            if affirmatives()[i].len() == l.len() {
                assert(affirmatives()[i][0] != l[0] || affirmatives()[i][1] != l[1]
                    || affirmatives()[i] != l);
            }
        }
    } else if l == "ложь"@ {
        assert(negatives()[11] == l);
        assert forall|i: int| 0 <= i < affirmatives().len() implies #[trigger] affirmatives()[i] != l by {
            if affirmatives()[i].len() == l.len() {
                assert(affirmatives()[i][0] != l[0] || affirmatives()[i][1] != l[1]
                    || affirmatives()[i] != l);
            }
        }
    } else if l == "não"@ {
        assert(negatives()[12] == l);
        assert forall|i: int| 0 <= i < affirmatives().len() implies #[trigger] affirmatives()[i] != l by {
            if affirmatives()[i].len() == l.len() {
                assert(affirmatives()[i][0] != l[0] || affirmatives()[i][1] != l[1]
                    || affirmatives()[i] != l);
            }
        }
    } else if l == "nee"@ {
        assert(negatives()[13] == l);
        assert forall|i: int| 0 <= i < affirmatives().len() implies #[trigger] affirmatives()[i] != l by {
            if affirmatives()[i].len() == l.len() {
                assert(affirmatives()[i][0] != l[0] || affirmatives()[i][1] != l[1]
                    || affirmatives()[i] != l);
            }
        }
    } else if l == "onwaar"@ {
        assert(negatives()[14] == l);
        assert forall|i: int| 0 <= i < affirmatives().len() implies #[trigger] affirmatives()[i] != l by {
            if affirmatives()[i].len() == l.len() {
                assert(affirmatives()[i][0] != l[0] || affirmatives()[i][1] != l[1]
                    || affirmatives()[i] != l);
            }
        }
    }
}

/// Defaults of string and enum slots are kept as written; a number default
/// becomes a number exactly when it reads as a finite number, and is kept
/// as text otherwise.
pub proof fn lemma_text_and_number_defaults(raw: Seq<char>)
    ensures
        coerced_default(SlotType::String, raw) == ValueView::Text(raw),
        coerced_default(SlotType::Enum, raw) == ValueView::Text(raw),
        parses_as_finite_number(raw) ==> coerced_default(SlotType::Number, raw)
            == ValueView::Number(raw),
        !parses_as_finite_number(raw) ==> coerced_default(SlotType::Number, raw)
            == ValueView::Text(raw),
{
}

// ---------------------------------------------------------------------------
// Dates

/// Dates are read as ISO `%Y-%m-%d` first, then as US `%m/%d/%Y`, then as
/// EU `%d/%m/%Y`: the first format that parses decides.
pub proof fn lemma_date_formats_in_order(text: Seq<char>)
    ensures
        chrono_parse_date(text, "%Y-%m-%d"@) is Some ==> parse_any_date(text) == chrono_parse_date(
            text,
            "%Y-%m-%d"@,
        ),
        chrono_parse_date(text, "%Y-%m-%d"@) is None && chrono_parse_date(text, "%m/%d/%Y"@) is Some
            ==> parse_any_date(text) == chrono_parse_date(text, "%m/%d/%Y"@),
        chrono_parse_date(text, "%Y-%m-%d"@) is None && chrono_parse_date(text, "%m/%d/%Y"@) is None
            ==> parse_any_date(text) == chrono_parse_date(text, "%d/%m/%Y"@),
{
    let fs = date_formats();
    assert(fs.drop_first() =~= seq!["%m/%d/%Y"@, "%d/%m/%Y"@]);
    assert(fs.drop_first().drop_first() =~= seq!["%d/%m/%Y"@]);
    assert(fs.drop_first().drop_first().drop_first() =~= Seq::<Seq<char>>::empty());
    reveal_with_fuel(parse_with_formats, 4);
}

/// The digit character for `d` stands for `d`.
pub proof fn lemma_digit_char_value(d: int)
    requires
        0 <= d < 10,
    ensures
        digit_char(d) as int - '0' as int == d,
{
}

/// A number below 10000 padded to four digits is its thousands, hundreds,
/// tens and units digit, in that order.
pub proof fn lemma_four_digit_text(n: int)
    requires
        0 <= n < 10000,
    ensures
        four_digit_text(n as nat) == seq![
            digit_char(n / 1000),
            digit_char((n / 100) % 10),
            digit_char((n / 10) % 10),
            digit_char(n % 10),
        ],
{
    reveal_with_fuel(decimal_text, 4);
    assert(four_digit_text(n as nat) =~= seq![
        digit_char(n / 1000),
        digit_char((n / 100) % 10),
        digit_char((n / 10) % 10),
        digit_char(n % 10),
    ]);
}

/// A date of the years 0 to 9999 is rendered digit by digit: four digits of
/// the year, a dash, two digits of the month, a dash, two digits of the day.
pub proof fn lemma_iso_date_digits(year: int, month: int, day: int)
    requires
        0 <= year <= 9999,
        1 <= month <= 12,
        1 <= day <= 31,
    ensures
        ({
            let t = iso_date_text(year, month, day);
            &&& t.len() == 10
            &&& t[0] as int - '0' as int == year / 1000
            &&& t[1] as int - '0' as int == (year / 100) % 10
            &&& t[2] as int - '0' as int == (year / 10) % 10
            &&& t[3] as int - '0' as int == year % 10
            &&& t[4] == '-'
            &&& t[5] as int - '0' as int == month / 10
            &&& t[6] as int - '0' as int == month % 10
            &&& t[7] == '-'
            &&& t[8] as int - '0' as int == day / 10
            &&& t[9] as int - '0' as int == day % 10
        }),
{
    lemma_four_digit_text(year);
    lemma_digit_char_value(year / 1000);
    lemma_digit_char_value((year / 100) % 10);
    lemma_digit_char_value((year / 10) % 10);
    lemma_digit_char_value(year % 10);
    lemma_digit_char_value(month / 10);
    lemma_digit_char_value(month % 10);
    lemma_digit_char_value(day / 10);
    lemma_digit_char_value(day % 10);
}

} // verus!
