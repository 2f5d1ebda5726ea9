//! The authority of a URI.

use std::str::FromStr;
use vstd::prelude::*;

verus! {

/// Whether `text` is the authority of a URI.
pub uninterp spec fn is_authority(text: Seq<char>) -> bool;

/// The authority that `text` is, if it is one.
pub open spec fn authority(text: Seq<char>) -> Option<Seq<char>> {
    if is_authority(text) {
        Some(text)
    } else {
        None
    }
}

/// `http::uri::Authority::from_str` accepts authorities and keeps their text. Which texts are
/// authorities is not stated beyond the name.
#[verifier::external_body]
pub(crate) fn parse_authority(text: &String) -> (parsed: Option<String>)
    ensures
        parsed is Some == is_authority(text@),
        parsed matches Some(parsed) ==> parsed@ == text@,
{
    http::uri::Authority::from_str(text).ok().map(|authority| authority.as_str().to_owned())
}

} // verus!
