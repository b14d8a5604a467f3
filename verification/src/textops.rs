//! Trusted bindings to std's text functions.
//!
//! Whitespace trimming and Unicode lowercasing are functions of the input
//! characters alone, but their full definitions live in std; each result is
//! given a name here and callers' contracts speak of that name.

use vstd::prelude::*;

verus! {

/// What str::trim returns: the input with leading and trailing whitespace
/// removed.
pub uninterp spec fn trim_of(s: Seq<char>) -> Seq<char>;

/// What str::to_lowercase returns: the lowercase mapping of the input.
pub uninterp spec fn lower_of(s: Seq<char>) -> Seq<char>;

/// Relies on str::trim: returns a contiguous substring of the input, so
/// never longer; the result depends on the characters alone.
#[verifier::external_body]
pub(crate) fn trim_str(s: &str) -> (r: &str)
    ensures
        r@ == trim_of(s@),
        r@.len() <= s@.len(),
{
    s.trim()
}

/// Relies on str::to_lowercase: the result depends on the characters alone.
#[verifier::external_body]
pub(crate) fn lower_str(s: &str) -> (r: String)
    ensures
        r@ == lower_of(s@),
{
    s.to_lowercase()
}

} // verus!
