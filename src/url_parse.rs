//! What this library assumes of the `url` crate.

use vstd::prelude::*;

verus! {

/// A parsed absolute URL of the `url` crate, carried through unopened.
#[verifier::external_type_specification]
#[verifier::external_body]
pub struct ExUrl(url::Url);

/// The `url` crate's reason for refusing a URL text.
#[verifier::external_type_specification]
#[verifier::external_body]
pub struct ExParseError(url::ParseError);

/// What `url::Url::parse` gives for a text: the parsed URL, or why it is not
/// an absolute URL.
pub uninterp spec fn parse_of(text: Seq<char>) -> Result<url::Url, url::ParseError>;

/// Relies on `url::Url::parse`: it runs the URL parser with default options
/// over the text and nothing else, so its result depends on the text alone.
pub assume_specification[ url::Url::parse ](input: &str) -> (r: Result<url::Url, url::ParseError>)
    ensures
        r == parse_of(input@),
;

/// Relies on `url::Url`'s derived `Clone`, which [`crate::ApiInfo`]'s derived
/// `Clone` calls: it clones each field and returns. Nothing more is assumed.
pub assume_specification[ <url::Url as Clone>::clone ](u: &url::Url) -> url::Url;

} // verus!
