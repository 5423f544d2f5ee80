//! Calendar dates: parsing through `chrono` and ISO 8601 rendering.
use chrono::Datelike;
use vstd::prelude::*;

use crate::pattern::{compile, find, regex_compiles, regex_find};

verus! {

/// A calendar date as `chrono::NaiveDate` reports it.
#[derive(Debug, Clone, Copy, PartialEq, Eq)]
pub struct CalendarDate {
    pub year: i32,
    pub month: u32,
    pub day: u32,
}

/// What `chrono::NaiveDate::parse_from_str(text, format)` yields, as
/// `(year, month, day)`, or `None` when it fails.
pub uninterp spec fn chrono_parse_date(text: Seq<char>, format: Seq<char>) -> Option<(i32, u32, u32)>;

/// Calls `chrono::NaiveDate::parse_from_str` and reads the date's year, month
/// and day. The claim: the result is `chrono_parse_date(text@, format@)`, and
/// (as `Datelike::month` and `Datelike::day` document) the month lies in
/// 1..=12 and the day in 1..=31.
#[verifier::external_body]
pub(crate) fn parse_date(text: &str, format: &str) -> (r: Option<CalendarDate>)
    ensures
        chrono_parse_date(text@, format@) == (match r {
            Some(d) => Some((d.year, d.month, d.day)),
            None => None,
        }),
        r matches Some(d) ==> 1 <= d.month <= 12 && 1 <= d.day <= 31,
{
    chrono::NaiveDate::parse_from_str(text, format).ok().map(
        |d| CalendarDate { year: d.year(), month: d.month(), day: d.day() },
    )
}

/// The date formats tried in order: ISO 8601 first (unambiguous), then US
/// (`m/d/Y`), then EU (`d/m/Y`).
pub open spec fn date_formats() -> Seq<Seq<char>> {
    seq!["%Y-%m-%d"@, "%m/%d/%Y"@, "%d/%m/%Y"@]
}

/// The first successful parse of `text` with the formats in order.
pub open spec fn parse_with_formats(text: Seq<char>, formats: Seq<Seq<char>>) -> Option<
    (i32, u32, u32),
>
    decreases formats.len(),
{
    if formats.len() == 0 {
        None
    } else {
        match chrono_parse_date(text, formats[0]) {
            Some(d) => Some(d),
            None => parse_with_formats(text, formats.drop_first()),
        }
    }
}

/// The date that `text` denotes in the first of [`date_formats`] that fits.
pub open spec fn parse_any_date(text: Seq<char>) -> Option<(i32, u32, u32)> {
    parse_with_formats(text, date_formats())
}

/// Parses `text` with each of the supported date formats in order and
/// returns the first date that parses.
pub fn parse_date_any_format(text: &str) -> (r: Option<CalendarDate>)
    ensures
        parse_any_date(text@) == (match r {
            Some(d) => Some((d.year, d.month, d.day)),
            None => None,
        }),
        r matches Some(d) ==> 1 <= d.month <= 12 && 1 <= d.day <= 31,
{
    let ghost fs = date_formats();
    assert(fs.drop_first() =~= seq!["%m/%d/%Y"@, "%d/%m/%Y"@]);
    assert(fs.drop_first().drop_first() =~= seq!["%d/%m/%Y"@]);
    assert(fs.drop_first().drop_first().drop_first() =~= Seq::<Seq<char>>::empty());
    reveal_with_fuel(parse_with_formats, 4);
    if let Some(d) = parse_date(text, "%Y-%m-%d") {
        return Some(d);
    }
    if let Some(d) = parse_date(text, "%m/%d/%Y") {
        return Some(d);
    }
    parse_date(text, "%d/%m/%Y")
}

/// The decimal digit character for `d` in `0..10`.
pub open spec fn digit_char(d: int) -> char {
    if d == 0 {
        '0'
    } else if d == 1 {
        '1'
    } else if d == 2 {
        '2'
    } else if d == 3 {
        '3'
    } else if d == 4 {
        '4'
    } else if d == 5 {
        '5'
    } else if d == 6 {
        '6'
    } else if d == 7 {
        '7'
    } else if d == 8 {
        '8'
    } else {
        '9'
    }
}

/// The decimal digits of `n`, without leading zeros.
pub open spec fn decimal_text(n: nat) -> Seq<char>
    decreases n,
{
    if n < 10 {
        seq![digit_char(n as int)]
    } else {
        decimal_text(n / 10).push(digit_char((n % 10) as int))
    }
}

/// `n` in decimal, zero-padded on the left to at least four digits.
pub open spec fn four_digit_text(n: nat) -> Seq<char> {
    if n < 10 {
        seq!['0', '0', '0'] + decimal_text(n)
    } else if n < 100 {
        seq!['0', '0'] + decimal_text(n)
    } else if n < 1000 {
        seq!['0'] + decimal_text(n)
    } else {
        decimal_text(n)
    }
}

/// A year as `%Y` renders it: four digits for years 0 to 9999, otherwise an
/// explicit sign followed by at least four digits.
pub open spec fn year_text(year: int) -> Seq<char> {
    if 0 <= year <= 9999 {
        four_digit_text(year as nat)
    } else if year < 0 {
        seq!['-'] + four_digit_text((-year) as nat)
    } else {
        seq!['+'] + four_digit_text(year as nat)
    }
}

/// A number below 100 as two digits.
pub open spec fn two_digit_text(n: int) -> Seq<char> {
    seq![digit_char(n / 10), digit_char(n % 10)]
}

/// The `%Y-%m-%d` rendering of a date.
pub open spec fn iso_date_text(year: int, month: int, day: int) -> Seq<char> {
    year_text(year) + seq!['-'] + two_digit_text(month) + seq!['-'] + two_digit_text(day)
}

/// The one-character string of the digit `d`.
fn digit_str(d: u64) -> (s: &'static str)
    requires
        d < 10,
    ensures
        s@ == seq![digit_char(d as int)],
{
    if d == 0 {
        proof { reveal_strlit("0"); }
        "0"
    } else if d == 1 {
        proof { reveal_strlit("1"); }
        "1"
    } else if d == 2 {
        proof { reveal_strlit("2"); }
        "2"
    } else if d == 3 {
        proof { reveal_strlit("3"); }
        "3"
    } else if d == 4 {
        proof { reveal_strlit("4"); }
        "4"
    } else if d == 5 {
        proof { reveal_strlit("5"); }
        "5"
    } else if d == 6 {
        proof { reveal_strlit("6"); }
        "6"
    } else if d == 7 {
        proof { reveal_strlit("7"); }
        "7"
    } else if d == 8 {
        proof { reveal_strlit("8"); }
        "8"
    } else {
        proof { reveal_strlit("9"); }
        "9"
    }
}

/// Appends the decimal digits of `n` to `out`.
fn push_decimal(out: &mut String, n: u64)
    ensures
        final(out)@ == old(out)@ + decimal_text(n as nat),
    decreases n,
{
    if n < 10 {
        out.append(digit_str(n));
    } else {
        push_decimal(out, n / 10);
        out.append(digit_str(n % 10));
        assert(decimal_text(n as nat) == decimal_text((n / 10) as nat).push(digit_char((n % 10) as int)));
    }
}

/// Appends `n` zero-padded to four digits.
fn push_four_digits(out: &mut String, n: u64)
    ensures
        final(out)@ == old(out)@ + four_digit_text(n as nat),
{
    let ghost start = out@;
    if n < 10 {
        proof { reveal_strlit("000"); }
        out.append("000");
    } else if n < 100 {
        proof { reveal_strlit("00"); }
        out.append("00");
    } else if n < 1000 {
        proof { reveal_strlit("0"); }
        out.append("0");
    }
    push_decimal(out, n);
    assert(out@ =~= start + four_digit_text(n as nat));
}

/// Appends a number below 100 as two digits.
fn push_two_digits(out: &mut String, n: u32)
    requires
        n < 100,
    ensures
        final(out)@ == old(out)@ + two_digit_text(n as int),
{
    let ghost start = out@;
    out.append(digit_str((n / 10) as u64));
    out.append(digit_str((n % 10) as u64));
    assert(out@ =~= start + two_digit_text(n as int));
}

/// Renders a date as `chrono` does with the format `%Y-%m-%d`.
pub fn iso_date(date: CalendarDate) -> (s: String)
    requires
        date.month < 100,
        date.day < 100,
    ensures
        s@ == iso_date_text(date.year as int, date.month as int, date.day as int),
{
    let mut out = String::new();
    let year = date.year;
    if 0 <= year && year <= 9999 {
        push_four_digits(&mut out, year as u64);
    } else if year < 0 {
        proof { reveal_strlit("-"); }
        out.append("-");
        let magnitude: u64 = (0i64 - year as i64) as u64;
        push_four_digits(&mut out, magnitude);
    } else {
        proof { reveal_strlit("+"); }
        out.append("+");
        push_four_digits(&mut out, year as u64);
    }
    let ghost ytext = out@;
    assert(ytext =~= year_text(year as int));
    proof { reveal_strlit("-"); }
    out.append("-");
    push_two_digits(&mut out, date.month);
    out.append("-");
    push_two_digits(&mut out, date.day);
    assert(out@ =~= iso_date_text(date.year as int, date.month as int, date.day as int));
    out
}

/// The pattern that picks out likely numeric dates in an utterance (slash
/// and dash forms; `chrono` validates the candidate afterwards).
pub open spec fn date_scan_pattern() -> Seq<char> {
    r"\d{1,4}[-/]\d{1,2}[-/]\d{1,4}"@
}

/// The first substring of `utterance` that looks like a numeric date.
pub open spec fn date_substring(utterance: Seq<char>) -> Option<Seq<char>> {
    if regex_compiles(date_scan_pattern()) {
        regex_find(date_scan_pattern(), utterance)
    } else {
        None
    }
}

/// Finds the first substring of `utterance` that looks like a numeric date.
pub fn find_date_substring(utterance: &str) -> (r: Option<String>)
    ensures
        r.deep_view() == date_substring(utterance@),
{
    match compile(r"\d{1,4}[-/]\d{1,2}[-/]\d{1,4}") {
        Some(re) => find(&re, utterance),
        None => None,
    }
}

} // verus!
