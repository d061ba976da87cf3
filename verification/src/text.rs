//! Facts about text that the other modules build on.

use vstd::prelude::*;
use vstd::utf8::{decode_utf8, valid_utf8};

verus! {

/// Whether `pattern` occurs in `text`, at any position.
pub open spec fn occurs_in(pattern: Seq<char>, text: Seq<char>) -> bool {
    exists|i: int|
        0 <= i && i + pattern.len() <= text.len() && #[trigger] text.subrange(
            i,
            i + pattern.len(),
        ) == pattern
}

/// The views of optional text.
pub open spec fn text_of(text: Option<String>) -> Option<Seq<char>> {
    match text {
        Some(s) => Some(s@),
        None => None,
    }
}

/// A copy of optional text.
pub(crate) fn copy_text(text: &Option<String>) -> (copy: Option<String>)
    ensures
        copy == *text,
{
    match text {
        Some(s) => Some(s.clone()),
        None => None,
    }
}

/// Calls `str::contains` with a string pattern.
///
/// Trusted: the call answers whether the pattern matches a part of the text.
#[verifier::external_body]
pub(crate) fn contains(text: &str, pattern: &str) -> (found: bool)
    ensures
        found == occurs_in(pattern@, text@),
{
    text.contains(pattern)
}

/// Calls `core::str::from_utf8`.
///
/// Trusted: the call succeeds exactly on well-formed UTF-8, and then gives the text that the
/// bytes encode.
#[verifier::external_body]
pub(crate) fn from_utf8(bytes: &[u8]) -> (text: Option<&str>)
    ensures
        text is Some <==> valid_utf8(bytes@),
        text matches Some(s) ==> s@ == decode_utf8(bytes@),
{
    core::str::from_utf8(bytes).ok()
}

/// A pattern occurs in a text exactly where the text is something, the pattern, and something more.
pub proof fn law_occurrences_are_parts(pattern: Seq<char>, text: Seq<char>)
    ensures
        occurs_in(pattern, text) <==> exists|before: Seq<char>, after: Seq<char>|
            text == #[trigger] (before + pattern + after),
{
    if occurs_in(pattern, text) {
        let i = choose|i: int|
            0 <= i && i + pattern.len() <= text.len() && #[trigger] text.subrange(
                i,
                i + pattern.len(),
            ) == pattern;
        let before = text.take(i);
        let after = text.skip(i + pattern.len());
        assert(text =~= before + text.subrange(i, i + pattern.len()) + after);
    }
    if exists|before: Seq<char>, after: Seq<char>|
        text == #[trigger] (before + pattern + after) {
        let (before, after) = choose|before: Seq<char>, after: Seq<char>|
            text == #[trigger] (before + pattern + after);
        let i = before.len() as int;
        assert(text.subrange(i, i + pattern.len()) =~= pattern);
    }
}

} // verus!
