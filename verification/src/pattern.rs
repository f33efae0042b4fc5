//! Regular expressions of the `regex` crate, compiled from patterns held as
//! text, and the lossy UTF-8 decoding of command output.
use vstd::prelude::*;

use vstd::utf8::{decode_utf8, encode_utf8, valid_utf8};

verus! {

/// Whether `regex::Regex::new` accepts a pattern.
pub uninterp spec fn regex_accepts(pattern: Seq<char>) -> bool;

/// What `Regex::replace_all` gives for a pattern, a text and a replacement.
pub uninterp spec fn regex_replaced(
    pattern: Seq<char>,
    text: Seq<char>,
    replacement: Seq<char>,
) -> Seq<char>;

/// The byte range of the leftmost-first match of a pattern, as `Regex::find`
/// reports it.
pub uninterp spec fn regex_first_match(pattern: Seq<char>, text: Seq<char>) -> Option<(usize, usize)>;

/// The text of a capture group in the first match, as `Regex::captures`
/// followed by `Captures::get` reports it.
pub uninterp spec fn regex_group(pattern: Seq<char>, text: Seq<char>, group: usize) -> Option<Seq<char>>;

/// The capture groups `0..=groups` of every match, in order, as
/// `Regex::captures_iter` and `Captures::get` report them.
pub uninterp spec fn regex_all_groups(pattern: Seq<char>, text: Seq<char>, groups: usize) -> Seq<
    Seq<Option<Seq<char>>>,
>;

/// What `String::from_utf8_lossy` makes of a byte string.
pub uninterp spec fn utf8_lossy(bytes: Seq<u8>) -> Seq<char>;

/// Calls `regex::Regex::new(pattern)` and reports whether it compiled.
#[verifier::external_body]
pub(crate) fn regex_compiles(pattern: &str) -> (r: bool)
    ensures
        r == regex_accepts(pattern@),
{
    regex::Regex::new(pattern).is_ok()
}

/// Calls `regex::Regex::new(pattern)` and then `replace_all(text,
/// replacement)`. The replaced text is taken to depend on the three texts
/// alone; what the expression matches is not stated.
#[verifier::external_body]
pub(crate) fn regex_replace_all(pattern: &str, text: &str, replacement: &str) -> (r: Option<String>)
    ensures
        r is Some == regex_accepts(pattern@),
        r matches Some(s) ==> s@ == regex_replaced(pattern@, text@, replacement@),
{
    match regex::Regex::new(pattern) {
        Ok(re) => Some(re.replace_all(text, replacement).into_owned()),
        Err(_) => None,
    }
}

/// Calls `regex::Regex::new(pattern)` and then `find(text)`, giving the
/// match's start and end. The crate reports byte offsets into the text,
/// start not after end and end not past the text; which match is found is
/// not stated beyond its name.
#[verifier::external_body]
pub(crate) fn regex_find(pattern: &str, text: &str) -> (r: Option<(usize, usize)>)
    ensures
        regex_accepts(pattern@) ==> r == regex_first_match(pattern@, text@),
        !regex_accepts(pattern@) ==> r is None,
        r matches Some(m) ==> m.0 <= m.1 && m.1 <= encode_utf8(text@).len(),
{
    match regex::Regex::new(pattern) {
        Ok(re) => re.find(text).map(|m| (m.start(), m.end())),
        Err(_) => None,
    }
}

/// Calls `regex::Regex::new(pattern)`, `captures(text)` and `get(group)`,
/// giving the group's text in the first match.
#[verifier::external_body]
pub(crate) fn regex_capture(pattern: &str, text: &str, group: usize) -> (r: Option<String>)
    ensures
        regex_accepts(pattern@) ==> match r {
            Some(s) => regex_group(pattern@, text@, group) == Some(s@),
            None => regex_group(pattern@, text@, group) is None,
        },
        !regex_accepts(pattern@) ==> r is None,
{
    match regex::Regex::new(pattern) {
        Ok(re) => re.captures(text).and_then(|c| c.get(group)).map(|m| m.as_str().to_string()),
        Err(_) => None,
    }
}

/// The groups of one match by their views.
pub open spec fn groups_view(m: Vec<Option<String>>) -> Seq<Option<Seq<char>>> {
    m@.map_values(|g: Option<String>| match g {
        Some(t) => Some(t@),
        None => None,
    })
}

/// Calls `regex::Regex::new(pattern)`, then `captures_iter(text)`, and
/// `get(i)` for each group `i` in `0..=groups` of each match. When the
/// pattern does not compile, the error's text is given; that text is not
/// stated.
#[verifier::external_body]
pub(crate) fn regex_captures_all(pattern: &str, text: &str, groups: usize) -> (r: Result<
    Vec<Vec<Option<String>>>,
    String,
>)
    ensures
        r is Ok == regex_accepts(pattern@),
        r matches Ok(ms) ==> ms@.map_values(|m: Vec<Option<String>>| groups_view(m)) == regex_all_groups(
            pattern@,
            text@,
            groups,
        ),
{
    match regex::Regex::new(pattern) {
        Ok(re) => Ok(
            re.captures_iter(text).map(
                |c| (0..=groups).map(|i| c.get(i).map(|m| m.as_str().to_string())).collect(),
            ).collect(),
        ),
        Err(err) => Err(err.to_string()),
    }
}

/// Calls `String::from_utf8_lossy`: bytes that are valid UTF-8 decode as
/// they are; what replaces invalid sequences is not stated.
#[verifier::external_body]
pub(crate) fn from_utf8_lossy(bytes: &[u8]) -> (r: String)
    ensures
        r@ == utf8_lossy(bytes@),
        valid_utf8(bytes@) ==> r@ == decode_utf8(bytes@),
{
    String::from_utf8_lossy(bytes).into_owned()
}

} // verus!
