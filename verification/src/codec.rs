//! Text transformations that come from outside code: Unicode lowercasing
//! and percent-decoding of locator path segments.

use vstd::prelude::*;

verus! {

/// The Unicode lowercase form of a character sequence, as
/// `str::to_lowercase` computes it.
pub uninterp spec fn lower_of(s: Seq<char>) -> Seq<char>;

/// Relies on `str::to_lowercase`: the lowercase mapping depends on the
/// characters of the input alone.
#[verifier::external_body]
pub(crate) fn to_lowercase(s: &str) -> (r: String)
    ensures
        r@ == lower_of(s@),
{
    s.to_lowercase()
}

/// The percent-decoded form of a character sequence, as
/// `urlencoding::decode` computes it, with the input kept unchanged when
/// the decoded bytes are not valid UTF-8.
pub uninterp spec fn decoded_of(s: Seq<char>) -> Seq<char>;

/// Relies on `urlencoding::decode`: percent-decoding depends on the
/// characters of the input alone, and an input without `%` passes
/// through unchanged.
#[verifier::external_body]
pub(crate) fn percent_decode(s: &String) -> (r: String)
    ensures
        r@ == decoded_of(s@),
        !s@.contains('%') ==> r@ == s@,
{
    match urlencoding::decode(s) {
        Ok(c) => String::from(c.into_owned()),
        Err(_) => s.clone(),
    }
}

} // verus!
