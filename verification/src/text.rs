//! Character-level text helpers: whole-word search and Unicode wrappers.
use vstd::prelude::*;

verus! {

/// What `char::is_alphanumeric` answers for a character (Unicode
/// `Alphabetic` or `Numeric`).
pub uninterp spec fn unicode_alphanumeric(c: char) -> bool;

/// What `str::to_lowercase` returns for a string (Unicode lowercase mapping).
pub uninterp spec fn unicode_lowercase(s: Seq<char>) -> Seq<char>;

/// Calls `char::is_alphanumeric`; its result is `unicode_alphanumeric(c)`.
/// The claim also holds the ASCII case of std's documented definition
/// (Unicode `Alphabetic` property or a numeric general category): among
/// ASCII characters exactly the letters and digits are alphanumeric.
#[verifier::external_body]
pub(crate) fn is_alphanumeric(c: char) -> (r: bool)
    ensures
        r == unicode_alphanumeric(c),
        (c as u32) < 128 ==> (r <==> ('a' <= c <= 'z' || 'A' <= c <= 'Z' || '0' <= c <= '9')),
{
    c.is_alphanumeric()
}

/// Calls `str::to_lowercase`; its result is `unicode_lowercase(s@)`.
#[verifier::external_body]
pub(crate) fn to_lowercase(s: &str) -> (r: String)
    ensures
        r@ == unicode_lowercase(s@),
{
    s.to_lowercase()
}

/// `needle` occurs in `haystack` at `start`, and neither the character before
/// nor the character after the occurrence is alphanumeric.
pub open spec fn word_at(haystack: Seq<char>, needle: Seq<char>, start: int) -> bool {
    &&& 0 <= start
    &&& start + needle.len() <= haystack.len()
    &&& haystack.subrange(start, start + needle.len()) == needle
    &&& (start == 0 || !unicode_alphanumeric(haystack[start - 1]))
    &&& (start + needle.len() == haystack.len() || !unicode_alphanumeric(
        haystack[start + needle.len()],
    ))
}

/// A non-empty `needle` occurs in `haystack` as a whole word.
pub open spec fn contains_whole_word(haystack: Seq<char>, needle: Seq<char>) -> bool {
    needle.len() > 0 && exists|start: int| word_at(haystack, needle, start)
}

/// The characters of `s`, in order.
pub fn chars_of(s: &str) -> (v: Vec<char>)
    ensures
        v@ == s@,
{
    let mut v: Vec<char> = Vec::new();
    for c in it: s.chars()
        invariant
            it.seq() == s@,
            v@ == it.seq().take(it.index() as int),
    {
        v.push(c);
        assert(v@ =~= it.seq().take(it.index() + 1));
    }
    assert(v@ =~= s@);
    v
}

/// Whether `needle` equals `haystack[start .. start + needle.len()]`.
fn occurs_at(haystack: &Vec<char>, needle: &Vec<char>, start: usize) -> (r: bool)
    requires
        start + needle@.len() <= haystack@.len(),
    ensures
        r == (haystack@.subrange(start as int, start + needle@.len()) == needle@),
{
    let n = needle.len();
    let hl = haystack.len();
    let mut j: usize = 0;
    while j < n
        invariant
            j <= n,
            hl == haystack@.len(),
            n == needle@.len(),
            start + n <= haystack@.len(),
            forall|k: int| 0 <= k < j ==> haystack@[start + k] == needle@[k],
        decreases n - j,
    {
        if haystack[start + j] != needle[j] {
            assert(haystack@.subrange(start as int, start + n)[j as int] != needle@[j as int]);
            return false;
        }
        j += 1;
    }
    assert(haystack@.subrange(start as int, start + n) =~= needle@);
    true
}

/// Whether `needle` occurs in `haystack` as a whole word: the occurrence is
/// neither preceded nor followed by an alphanumeric character. An empty
/// needle never matches. Callers lowercase both sides for a case-insensitive
/// search.
pub fn whole_word_match(haystack: &str, needle: &str) -> (found: bool)
    ensures
        found == contains_whole_word(haystack@, needle@),
{
    let nchars = chars_of(needle);
    if nchars.len() == 0 {
        return false;
    }
    let hchars = chars_of(haystack);
    let nlen = nchars.len();
    let hlen = hchars.len();
    if nlen > hlen {
        return false;
    }
    let ghost h = haystack@;
    let ghost w = needle@;
    let mut start: usize = 0;
    while start <= hlen - nlen
        invariant
            h == haystack@,
            w == needle@,
            hchars@ == h,
            nchars@ == w,
            nlen == w.len(),
            hlen == h.len(),
            0 < nlen <= hlen,
            start <= hlen - nlen + 1,
            forall|s: int| 0 <= s < start ==> !word_at(h, w, s),
        decreases hlen - nlen + 1 - start,
    {
        if occurs_at(&hchars, &nchars, start) {
            let left_ok = start == 0 || !is_alphanumeric(hchars[start - 1]);
            let right_ok = start + nlen == hlen || !is_alphanumeric(hchars[start + nlen]);
            if left_ok && right_ok {
                assert(word_at(h, w, start as int));
                assert(contains_whole_word(h, w));
                return true;
            }
        }
        start += 1;
    }
    assert forall|s: int| !word_at(h, w, s) by {
        if 0 <= s < start {
        }
    }
    false
}

} // verus!
