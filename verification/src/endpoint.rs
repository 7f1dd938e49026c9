//! Endpoint addresses of the remote daemon.

use url::Url;
use vstd::prelude::*;

verus! {

/// The normal form of an endpoint address: the absolute URL that
/// `url::Url::parse` reads from the text, written out again, or `None` where
/// it reads none.
pub uninterp spec fn endpoint_of(input: Seq<char>) -> Option<Seq<char>>;

/// The text of an optional string.
pub open spec fn text_of(value: Option<String>) -> Option<Seq<char>> {
    match value {
        Some(text) => Some(text@),
        None => None,
    }
}

/// Reads an endpoint address.
///
/// Calls `Url::parse` of `url` and, where it returns a URL, writes the URL
/// out as a string.
#[verifier::external_body]
pub(crate) fn parse_endpoint(input: &str) -> (parsed: Option<String>)
    ensures
        text_of(parsed) == endpoint_of(input@),
{
    match Url::parse(input) {
        Ok(url) => Some(url.to_string()),
        Err(_) => None,
    }
}

} // verus!
