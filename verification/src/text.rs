//! Substring matching and lower-casing, the two text operations that keyword
//! triggering is built from.

use vstd::prelude::*;

verus! {

/// `pat` occurs in `text` starting at position `i`.
pub open spec fn matches_at(text: Seq<char>, pat: Seq<char>, i: int) -> bool {
    0 <= i && i + pat.len() <= text.len() && text.subrange(i, i + pat.len()) == pat
}

/// `pat` occurs somewhere in `text` as a contiguous run of characters.
pub open spec fn contains_sub(text: Seq<char>, pat: Seq<char>) -> bool {
    exists|i: int| matches_at(text, pat, i)
}

/// The lower-cased form of a character sequence, as `str::to_lowercase`
/// produces it: a function of the characters alone.
pub uninterp spec fn lower_of(s: Seq<char>) -> Seq<char>;

/// Relies on `str::to_lowercase`: the result depends on the characters of
/// `s` alone.
#[verifier::external_body]
pub(crate) fn lowercase(s: &str) -> (r: String)
    ensures
        r@ == lower_of(s@),
{
    s.to_lowercase()
}

/// Relies on `str::contains`: true exactly when `pat` occurs in `text` as a
/// contiguous substring of its characters.
#[verifier::external_body]
pub(crate) fn str_contains(text: &str, pat: &str) -> (r: bool)
    ensures
        r == contains_sub(text@, pat@),
{
    text.contains(pat)
}

} // verus!
