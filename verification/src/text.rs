//! Thin text helpers over std's string operations, relied on by the token
//! parsers.

use vstd::prelude::*;

verus! {

/// What `str::trim` returns for a given character sequence.
pub uninterp spec fn trim_of(text: Seq<char>) -> Seq<char>;

/// Relies on `str::eq` (the `PartialEq` impl for `str`): two string slices
/// compare equal exactly when their character sequences are equal.
#[verifier::external_body]
pub(crate) fn str_eq(a: &str, b: &str) -> (r: bool)
    ensures
        r == (a@ == b@),
{
    a == b
}

/// Relies on `str::trim`: removes leading and trailing whitespace; the result
/// depends on the input characters alone, and an empty input stays empty.
#[verifier::external_body]
pub(crate) fn trim(text: &str) -> (r: &str)
    ensures
        r@ == trim_of(text@),
        text@.len() == 0 ==> r@.len() == 0,
{
    text.trim()
}

} // verus!
