//! The parts of a parsed URL that provider validation reads.

use vstd::prelude::*;
use crate::text::opt_text;

verus! {

/// The components of a URL after parsing.
pub struct UrlParts {
    pub scheme: String,
    pub host: Option<String>,
    pub path: String,
    pub query: Option<String>,
    pub fragment: Option<String>,
}

pub struct UrlPartsView {
    pub scheme: Seq<char>,
    pub host: Option<Seq<char>>,
    pub path: Seq<char>,
    pub query: Option<Seq<char>>,
    pub fragment: Option<Seq<char>>,
}

impl View for UrlParts {
    type V = UrlPartsView;

    open spec fn view(&self) -> UrlPartsView {
        UrlPartsView {
            scheme: self.scheme@,
            host: opt_text(self.host),
            path: self.path@,
            query: opt_text(self.query),
            fragment: opt_text(self.fragment),
        }
    }
}

/// What `reqwest::Url::parse` (the `url` crate's WHATWG parser) makes of a
/// text: its components, or the text of the parse error.
pub uninterp spec fn url_parse(text: Seq<char>) -> Result<UrlPartsView, Seq<char>>;

/// Calls `reqwest::Url::parse` and hands out `scheme()`, `host_str()`,
/// `path()`, `query()` and `fragment()` of the result, or the error's
/// `Display` text. The contract claims only that the outcome is the parser's
/// deterministic function of the input text.
#[verifier::external_body]
pub(crate) fn parse_url(text: &str) -> (out: Result<UrlParts, String>)
    ensures
        match out {
            Ok(parts) => url_parse(text@) == Ok::<UrlPartsView, Seq<char>>(parts@),
            Err(e) => url_parse(text@) == Err::<UrlPartsView, Seq<char>>(e@),
        },
{
    match reqwest::Url::parse(text) {
        Ok(url) => Ok(UrlParts {
            scheme: url.scheme().to_string(),
            host: url.host_str().map(|host| host.to_string()),
            path: url.path().to_string(),
            query: url.query().map(|query| query.to_string()),
            fragment: url.fragment().map(|fragment| fragment.to_string()),
        }),
        Err(error) => Err(error.to_string()),
    }
}

/// The serialisation (`Display`) of the URL that `reqwest::Url::parse` makes
/// of a text, or `None` when the text does not parse.
pub uninterp spec fn url_serialization(text: Seq<char>) -> Option<Seq<char>>;

/// `reqwest::Url::parse(text)` followed by `to_string()`.
#[verifier::external_body]
pub(crate) fn serialize_url(text: &str) -> (out: Option<String>)
    ensures
        match out {
            Some(s) => url_serialization(text@) == Some(s@),
            None => url_serialization(text@) is None,
        },
{
    reqwest::Url::parse(text).ok().map(|url| url.to_string())
}

/// The canonical reason phrase of an HTTP status code, as
/// `http::StatusCode::canonical_reason` knows it.
pub uninterp spec fn http_reason(code: u16) -> Option<Seq<char>>;

/// `reqwest::StatusCode::from_u16(code)` and its `canonical_reason()`; the
/// code must be one that `from_u16` accepts (100 to 999).
#[verifier::external_body]
pub(crate) fn canonical_reason(code: u16) -> (out: Option<String>)
    requires
        100 <= code <= 999,
    ensures
        match out {
            Some(s) => http_reason(code) == Some(s@),
            None => http_reason(code) is None,
        },
{
    reqwest::StatusCode::from_u16(code).ok().and_then(|status| status.canonical_reason()).map(
        |reason| reason.to_string(),
    )
}

} // verus!
