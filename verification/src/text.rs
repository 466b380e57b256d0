//! Trusted bridges to std's string routines.

use vstd::prelude::*;

verus! {

/// The lowercase form of a character sequence, as `str::to_lowercase`
/// computes it. Unicode case folding takes pages to state, so the result is
/// only named here; contracts go through this name.
pub uninterp spec fn lower_of(s: Seq<char>) -> Seq<char>;

/// Relies on `str::to_lowercase`: the result depends on the characters alone.
#[verifier::external_body]
pub(crate) fn to_lowercase_str(s: &str) -> (r: String)
    ensures
        r@ == lower_of(s@),
{
    s.to_lowercase()
}

/// `sub` occurs as a contiguous run of characters inside `s`.
pub open spec fn spec_contains(s: Seq<char>, sub: Seq<char>) -> bool {
    exists|i: int| 0 <= i && i + sub.len() <= s.len() && #[trigger] s.subrange(i, i + sub.len()) == sub
}

/// Relies on `str::contains` with a `&str` pattern: true exactly when the
/// pattern matches a sub-slice of the string.
#[verifier::external_body]
pub(crate) fn str_contains(s: &str, sub: &str) -> (r: bool)
    ensures
        r == spec_contains(s@, sub@),
{
    s.contains(sub)
}

/// Relies on `str`'s `PartialEq`: two string slices are equal exactly when
/// their character sequences are.
#[verifier::external_body]
pub(crate) fn str_eq(a: &str, b: &str) -> (r: bool)
    ensures
        r == (a@ == b@),
{
    a == b
}

} // verus!
