//! URL handling, delegated to the `url` crate.
//!
//! The library keeps a URL as the text of its serialization. Parsing and
//! resolving are done by `url`; nothing in this module is proved about what
//! those calls return, only named.

use vstd::prelude::*;

verus! {

/// `url::ParseError`, the error of `url::Url::parse` and `url::Url::join`.
/// The library hands it on and never looks inside.
#[verifier::external_type_specification]
#[verifier::external_body]
pub struct ExParseError(url::ParseError);

/// The serialization of the URL that `url::Url::parse` reads from `input`,
/// or `None` where it rejects `input`.
pub uninterp spec fn parsed_url(input: Seq<char>) -> Option<Seq<char>>;

/// The serialization of the URL that `url::Url::join` gives for `reference`
/// on the URL parsed from `base`, or `None` where `base` is no URL or the
/// join is rejected.
pub uninterp spec fn joined_url(base: Seq<char>, reference: Seq<char>) -> Option<Seq<char>>;

/// Calls `url::Url::parse` and hands back the serialization of the parsed
/// URL. Trusted: the result is `parsed_url` of the input, and an error is
/// returned exactly where `parsed_url` is `None`.
#[verifier::external_body]
pub(crate) fn parse_url(input: &str) -> (r: Result<String, url::ParseError>)
    ensures
        r matches Ok(text) ==> parsed_url(input@) == Some(text@),
        r is Err ==> parsed_url(input@) is None,
{
    url::Url::parse(input).map(String::from)
}

/// Calls `url::Url::join` on the URL that `base` serializes, with
/// `reference` as the input, and hands back the serialization of the result.
/// Trusted: the result is `joined_url` of both texts, and an error is
/// returned exactly where `joined_url` is `None`.
#[verifier::external_body]
pub(crate) fn join_url(base: &str, reference: &str) -> (r: Result<String, url::ParseError>)
    ensures
        r matches Ok(text) ==> joined_url(base@, reference@) == Some(text@),
        r is Err ==> joined_url(base@, reference@) is None,
{
    match url::Url::parse(base) {
        Ok(parsed) => parsed.join(reference).map(String::from),
        Err(e) => Err(e),
    }
}

} // verus!
