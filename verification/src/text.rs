//! Text as sequences of characters: the vocabulary in which the contracts of
//! this crate speak of strings, and the string operations of the standard
//! library that the rest of the crate builds on.

use vstd::prelude::*;

verus! {

/// The views of a list of strings.
pub open spec fn string_views(strings: Seq<String>) -> Seq<Seq<char>> {
    strings.map_values(|s: String| s@)
}

/// The view of a string that may be absent.
pub open spec fn optional_view(text: Option<String>) -> Option<Seq<char>> {
    match text {
        Some(s) => Some(s@),
        None => None,
    }
}

/// Whether `c` has the Unicode property White_Space.
pub open spec fn is_white_space(c: char) -> bool {
    let n = c as u32;
    ||| 0x09 <= n <= 0x0D
    ||| n == 0x20
    ||| n == 0x85
    ||| n == 0xA0
    ||| n == 0x1680
    ||| 0x2000 <= n <= 0x200A
    ||| n == 0x2028
    ||| n == 0x2029
    ||| n == 0x202F
    ||| n == 0x205F
    ||| n == 0x3000
}

/// Whether `c` is ASCII whitespace: space, tab, line feed, form feed or
/// carriage return.
pub open spec fn is_ascii_white_space(c: char) -> bool {
    let n = c as u32;
    n == 0x20 || n == 0x09 || n == 0x0A || n == 0x0C || n == 0x0D
}

/// Whether trimming removes `c`: ASCII whitespace where `ascii_only`,
/// else any character with the property White_Space.
pub open spec fn is_blank(c: char, ascii_only: bool) -> bool {
    if ascii_only {
        is_ascii_white_space(c)
    } else {
        is_white_space(c)
    }
}

/// `s` without its leading blanks.
pub open spec fn skip_leading(s: Seq<char>, ascii_only: bool) -> Seq<char>
    decreases s.len(),
{
    if s.len() > 0 && is_blank(s.first(), ascii_only) {
        skip_leading(s.drop_first(), ascii_only)
    } else {
        s
    }
}

/// `s` without its trailing blanks.
pub open spec fn skip_trailing(s: Seq<char>, ascii_only: bool) -> Seq<char>
    decreases s.len(),
{
    if s.len() > 0 && is_blank(s.last(), ascii_only) {
        skip_trailing(s.drop_last(), ascii_only)
    } else {
        s
    }
}

/// `s` without leading and trailing whitespace.
pub open spec fn trimmed(s: Seq<char>) -> Seq<char> {
    skip_trailing(skip_leading(s, false), false)
}

/// `s` without leading and trailing ASCII whitespace.
pub open spec fn trimmed_ascii(s: Seq<char>) -> Seq<char> {
    skip_trailing(skip_leading(s, true), true)
}

/// Whether `pattern` stands in `text` at index `at`.
pub open spec fn occurs_at(text: Seq<char>, pattern: Seq<char>, at: int) -> bool {
    &&& 0 <= at
    &&& at + pattern.len() <= text.len()
    &&& text.subrange(at, at + pattern.len()) == pattern
}

/// Whether `pattern` is a substring of `text`.
pub open spec fn contains(text: Seq<char>, pattern: Seq<char>) -> bool {
    exists|at: int| occurs_at(text, pattern, at)
}

/// `text` with every occurrence of `from` replaced by `to`, found from left
/// to right without overlap.
pub open spec fn replaced(text: Seq<char>, from: Seq<char>, to: Seq<char>) -> Seq<char>
    recommends
        from.len() > 0,
    decreases text.len(),
{
    if from.len() == 0 || text.len() < from.len() {
        text
    } else if occurs_at(text, from, 0) {
        to + replaced(text.skip(from.len() as int), from, to)
    } else {
        seq![text.first()] + replaced(text.drop_first(), from, to)
    }
}

/// The code of `c`, with the ASCII capitals mapped onto the small letters.
pub open spec fn ascii_folded(c: char) -> int {
    let n = c as int;
    if 0x41 <= n <= 0x5A {
        n + 0x20
    } else {
        n
    }
}

/// Whether `a` and `b` are equal up to the case of ASCII letters.
pub open spec fn eq_ignoring_ascii_case(a: Seq<char>, b: Seq<char>) -> bool {
    &&& a.len() == b.len()
    &&& forall|i: int| 0 <= i < a.len() ==> ascii_folded(#[trigger] a[i]) == ascii_folded(b[i])
}

/// `parts` in a row, with `separator` between neighbours.
pub open spec fn joined(parts: Seq<Seq<char>>, separator: Seq<char>) -> Seq<char>
    decreases parts.len(),
{
    if parts.len() == 0 {
        Seq::empty()
    } else if parts.len() == 1 {
        parts[0]
    } else {
        joined(parts.drop_last(), separator) + separator + parts.last()
    }
}

/// The predicate that holds of the strings that are not empty.
pub open spec fn not_empty() -> spec_fn(Seq<char>) -> bool {
    |piece: Seq<char>| piece.len() > 0
}

/// The pieces of `text` between its line feeds: one more than it has line
/// feeds.
pub open spec fn split_at_line_feeds(text: Seq<char>) -> Seq<Seq<char>>
    decreases text.len(),
{
    if text.len() == 0 {
        seq![Seq::empty()]
    } else {
        let later = split_at_line_feeds(text.drop_first());
        if text.first() == '\n' {
            seq![Seq::empty()] + later
        } else {
            seq![seq![text.first()] + later.first()] + later.drop_first()
        }
    }
}

/// `line` without one carriage return at its end, if it has one there.
pub open spec fn without_carriage_return(line: Seq<char>) -> Seq<char> {
    if line.len() > 0 && line.last() == '\r' {
        line.drop_last()
    } else {
        line
    }
}

/// The function that takes the carriage return off the end of a line.
pub open spec fn ending_removed() -> spec_fn(Seq<char>) -> Seq<char> {
    |line: Seq<char>| without_carriage_return(line)
}

/// The lines of `text`. A line ends at a line feed; the line feed, and a
/// carriage return just before it, do not belong to the line. What follows
/// the last line feed is a line as it stands, unless it is empty.
pub open spec fn lines_of(text: Seq<char>) -> Seq<Seq<char>> {
    let pieces = split_at_line_feeds(text);
    let ended = pieces.drop_last().map_values(ending_removed());
    if pieces.last().len() == 0 {
        ended
    } else {
        ended.push(pieces.last())
    }
}

/// The decimal digit for `d`.
pub open spec fn digit(d: nat) -> char
    recommends
        d < 10,
{
    ('0' as nat + d) as char
}

/// `n` written in decimal digits.
pub open spec fn decimal(n: nat) -> Seq<char>
    decreases n,
{
    if n < 10 {
        seq![digit(n)]
    } else {
        decimal(n / 10).push(digit(n % 10))
    }
}

/// The lowercase form of `text` under Unicode's case mapping, as
/// `str::to_lowercase` computes it.
pub uninterp spec fn lowercased(text: Seq<char>) -> Seq<char>;

/// `str::trim`: the slice between the leading and the trailing run of
/// characters with the property White_Space.
#[verifier::external_body]
pub(crate) fn trim(text: &str) -> (inner: &str)
    ensures
        inner@ == trimmed(text@),
{
    text.trim()
}

/// `str::trim_ascii`: the slice between the leading and the trailing run of
/// ASCII whitespace.
#[verifier::external_body]
pub(crate) fn trim_ascii(text: &str) -> (inner: &str)
    ensures
        inner@ == trimmed_ascii(text@),
{
    text.trim_ascii()
}

/// `str::contains` with a string pattern: whether the pattern is a substring.
#[verifier::external_body]
pub(crate) fn str_contains(text: &str, pattern: &str) -> (found: bool)
    ensures
        found == contains(text@, pattern@),
{
    text.contains(pattern)
}

/// `str::replace` with a string pattern that is not empty: a new string in
/// which each match, taken from left to right without overlap, has given way
/// to `to`.
#[verifier::external_body]
pub(crate) fn str_replace(text: &str, from: &str, to: &str) -> (out: String)
    requires
        from@.len() > 0,
    ensures
        out@ == replaced(text@, from@, to@),
{
    text.replace(from, to)
}

/// `str::eq_ignore_ascii_case`: equality up to the case of ASCII letters.
#[verifier::external_body]
pub(crate) fn str_eq_ignore_ascii_case(a: &str, b: &str) -> (same: bool)
    ensures
        same == eq_ignoring_ascii_case(a@, b@),
{
    a.eq_ignore_ascii_case(b)
}

/// `str::to_lowercase`: the lowercase form as a new string. Unicode's case
/// mapping is not written out here; the result goes by the name `lowercased`.
#[verifier::external_body]
pub(crate) fn to_lowercase(text: &str) -> (lower: String)
    ensures
        lower@ == lowercased(text@),
{
    text.to_lowercase()
}

/// `str::lines`: the lines of `text`, each copied into a string, collected
/// from the iterator.
#[verifier::external_body]
pub(crate) fn lines(text: &str) -> (found: Vec<String>)
    ensures
        string_views(found@) == lines_of(text@),
{
    text.lines().map(|line| line.to_string()).collect()
}

/// `usize::to_string`: `n` written in decimal digits.
#[verifier::external_body]
pub(crate) fn decimal_string(n: usize) -> (digits: String)
    ensures
        digits@ == decimal(n as nat),
{
    n.to_string()
}

} // verus!
