//! Regular-expression matching through the `regex` crate.
use vstd::prelude::*;

verus! {

#[verifier::external_type_specification]
#[verifier::external_body]
pub struct ExRegex(regex::Regex);

/// Whether `regex::Regex::new` accepts `pattern`.
pub uninterp spec fn regex_compiles(pattern: Seq<char>) -> bool;

/// What `regex::Regex::captures` finds for the regex built from `pattern` in
/// `haystack`: `None` when there is no match, otherwise the text of each
/// capture group in group order (`None` for a group that did not take part).
pub uninterp spec fn regex_captures(pattern: Seq<char>, haystack: Seq<char>) -> Option<
    Seq<Option<Seq<char>>>,
>;

/// What `regex::Regex::find` returns for the regex built from `pattern` in
/// `haystack`: the text of the first match, if any.
pub uninterp spec fn regex_find(pattern: Seq<char>, haystack: Seq<char>) -> Option<Seq<char>>;

/// A regex together with the pattern it was compiled from.
pub struct CompiledPattern {
    regex: regex::Regex,
    source: Ghost<Seq<char>>,
}

impl View for CompiledPattern {
    type V = Seq<char>;

    /// The pattern the regex was compiled from.
    closed spec fn view(&self) -> Seq<char> {
        self.source@
    }
}

/// Calls `regex::Regex::new`. The claim: it succeeds exactly when
/// `regex_compiles(pattern@)`, and the compiled regex remembers `pattern`.
#[verifier::external_body]
pub(crate) fn compile(pattern: &str) -> (r: Option<CompiledPattern>)
    ensures
        r is Some <==> regex_compiles(pattern@),
        r matches Some(c) ==> c@ == pattern@,
{
    match regex::Regex::new(pattern) {
        Ok(regex) => Some(CompiledPattern { regex, source: Ghost(pattern@) }),
        Err(_) => None,
    }
}

/// Calls `regex::Regex::captures` and hands out the text of every group.
/// The claim: the result is `regex_captures` of the pattern and haystack, and,
/// as the crate documents, a match always has group 0 (the whole match).
#[verifier::external_body]
pub(crate) fn captures(re: &CompiledPattern, haystack: &str) -> (r: Option<Vec<Option<String>>>)
    ensures
        r.deep_view() == regex_captures(re@, haystack@),
        r matches Some(groups) ==> groups@.len() >= 1 && groups@[0] is Some,
{
    re.regex.captures(haystack).map(
        |caps| caps.iter().map(|m| m.map(|m| m.as_str().to_string())).collect(),
    )
}

/// Calls `regex::Regex::find`. The claim: the text of the match it returns
/// is `regex_find` of the pattern and haystack.
#[verifier::external_body]
pub(crate) fn find(re: &CompiledPattern, haystack: &str) -> (r: Option<String>)
    ensures
        r.deep_view() == regex_find(re@, haystack@),
{
    re.regex.find(haystack).map(|m| m.as_str().to_string())
}

/// Capture group 1 when the regex has it and it took part in the match,
/// otherwise the whole match (group 0).
pub open spec fn first_group(groups: Seq<Option<Seq<char>>>) -> Option<Seq<char>> {
    if groups.len() > 1 && groups[1] is Some {
        groups[1]
    } else if groups.len() > 0 {
        groups[0]
    } else {
        None
    }
}

/// The text that a pattern extracts from a haystack: nothing when the pattern
/// does not compile or does not match, otherwise its first capture group, or
/// the whole match when there is no such group.
pub open spec fn capture_text(pattern: Seq<char>, haystack: Seq<char>) -> Option<Seq<char>> {
    if regex_compiles(pattern) {
        match regex_captures(pattern, haystack) {
            Some(groups) => first_group(groups),
            None => None,
        }
    } else {
        None
    }
}

/// Returns the first capture group if present, else the full match, so that
/// a pattern like `order (\d+)` extracts just the number.
pub fn first_capture_or_match(re: &CompiledPattern, haystack: &str) -> (r: Option<String>)
    ensures
        r.deep_view() == (match regex_captures(re@, haystack@) {
            Some(groups) => first_group(groups),
            None => None,
        }),
        r is Some <==> regex_captures(re@, haystack@) is Some,
{
    match captures(re, haystack) {
        None => None,
        Some(groups) => {
            if groups.len() > 1 {
                match &groups[1] {
                    Some(text) => {
                        return Some(text.clone());
                    },
                    None => {},
                }
            }
            match &groups[0] {
                Some(text) => Some(text.clone()),
                None => None,
            }
        },
    }
}

/// Compiles `pattern` and extracts from `haystack` with it; an invalid
/// pattern is treated as no match.
pub fn capture_with(pattern: &str, haystack: &str) -> (r: Option<String>)
    ensures
        r.deep_view() == capture_text(pattern@, haystack@),
{
    match compile(pattern) {
        Some(re) => first_capture_or_match(&re, haystack),
        None => None,
    }
}

} // verus!
