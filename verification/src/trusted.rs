//! The calls into other crates, each behind a contract that is believed, not
//! proved.
//!
//! Two calls leave the verified code: the test whether a text can stand as a
//! header value, which `reqwest` (through `http`) decides, and the search
//! for a regular expression, which `regex` performs. The first has a short
//! exact statement. The second has none, so its outcome only gets a name.
use vstd::prelude::*;

verus! {

/// A character that a header value may hold: a tab, or anything from the
/// space upwards but the delete character.
pub open spec fn is_header_char(c: char) -> bool {
    c as u32 == 0x09 || (c as u32 >= 0x20 && c as u32 != 0x7f)
}

/// Every character of the text may stand in a header value.
pub open spec fn is_header_text(text: Seq<char>) -> bool {
    forall|i: int| 0 <= i < text.len() ==> is_header_char(#[trigger] text[i])
}

/// Whether the text can be sent as a header value.
///
/// Calls `reqwest::header::HeaderValue::from_str`. That function walks the
/// bytes of the text and refuses it at the first byte that is below 32 and
/// not a tab, or that is 127. The bytes that encode a character beyond ASCII
/// are all above 127, so the test on bytes is the test on characters that
/// the contract states.
#[verifier::external_body]
pub(crate) fn header_value_accepts(text: &str) -> (accepted: bool)
    ensures
        accepted == is_header_text(text@),
{
    reqwest::header::HeaderValue::from_str(text).is_ok()
}

/// `part` is a run of consecutive characters of `whole`.
pub open spec fn occurs_in(part: Seq<char>, whole: Seq<char>) -> bool {
    exists|from: int, to: int|
        0 <= from <= to <= whole.len() && part == #[trigger] whole.subrange(from, to)
}

/// The characters of a text that may be absent.
pub open spec fn text_of(found: Option<String>) -> Option<Seq<char>> {
    match found {
        Some(text) => Some(text@),
        None => None,
    }
}

/// What a group of a regular expression captures in a text: the characters
/// that the group with index `group` holds in the leftmost match of
/// `pattern` in `haystack`, as the `regex` crate finds it. `None` where the
/// pattern is no valid expression, where it matches nowhere, and where the
/// match has no such group or leaves it out.
pub uninterp spec fn regex_group(pattern: Seq<char>, haystack: Seq<char>, group: int) -> Option<
    Seq<char>,
>;

/// Searches `haystack` for `pattern` and copies what one group captured.
///
/// Calls `regex::Regex::new`, `Regex::captures`, `Captures::get` and
/// `Match::as_str`. The search depends on its three arguments alone, so its
/// outcome has a name, [`regex_group`]; nothing more is claimed of it but
/// that a captured text is a slice of the haystack, as `Match::as_str`
/// returns one.
#[verifier::external_body]
pub(crate) fn capture_group(pattern: &str, haystack: &str, group: usize) -> (found: Option<String>)
    ensures
        text_of(found) == regex_group(pattern@, haystack@, group as int),
        found matches Some(text) ==> occurs_in(text@, haystack@),
{
    let expression = regex::Regex::new(pattern).ok()?;
    let captures = expression.captures(haystack)?;
    let found = captures.get(group)?;
    Some(found.as_str().to_string())
}

} // verus!
