//! Percent-decoding of storage object keys.
//!
//! Keys arrive percent-encoded from the transport; decoding is applied
//! exactly once, here, before a key takes part in any comparison.

use vstd::prelude::*;

verus! {

/// What percent-decoding returns for a given key: `Some` of the decoded
/// characters, or `None` when the decoded bytes are not valid UTF-8. The
/// result depends on the input characters alone.
pub uninterp spec fn percent_decoded(s: Seq<char>) -> Option<Seq<char>>;

/// Relies on `urlencoding::decode`: rewrites each well-formed `%XX` escape,
/// leaves every other character (and malformed escapes) as it is, and fails
/// exactly when the decoded bytes are not valid UTF-8; in particular an input
/// without `'%'` comes back unchanged.
#[verifier::external_body]
pub(crate) fn decode_key(s: &str) -> (r: Option<String>)
    ensures
        r matches Some(d) ==> percent_decoded(s@) == Some(d@),
        r is None ==> percent_decoded(s@) is None,
        r is None ==> exists|i: int| 0 <= i < s@.len() && s@[i] == '%',
        r matches Some(d) ==> ((forall|i: int| 0 <= i < s@.len() ==> s@[i] != '%') ==> d@ == s@),
{
    match urlencoding::decode(s) {
        Ok(decoded) => Some(decoded.into_owned()),
        Err(_) => None,
    }
}

} // verus!
