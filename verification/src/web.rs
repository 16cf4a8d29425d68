//! Web addresses: which base URL an extraction accepts, and which input
//! names a page to fetch.

use vstd::prelude::*;
use vstd::string::StringExecFns;
use crate::error::{ErrorView, ReadabilityError};
use crate::text::{
    contains_char, contains_double_dot, has_double_dot, starts_with, str_eq, text_view,
};

verus! {

/// What the URL parser makes of a text, as far as this crate looks at it.
#[derive(Debug, Clone)]
pub struct UrlParts {
    /// The scheme, in lower case and without the colon.
    pub scheme: String,
    /// The host, where the URL has one.
    pub host: Option<String>,
    /// The whole URL as the parser writes it out again.
    pub text: String,
}

/// [`UrlParts`] with its texts as sequences of characters.
pub struct UrlPartsView {
    pub scheme: Seq<char>,
    pub host: Option<Seq<char>>,
    pub text: Seq<char>,
}

impl View for UrlParts {
    type V = UrlPartsView;

    open spec fn view(&self) -> UrlPartsView {
        UrlPartsView { scheme: self.scheme@, host: text_view(self.host), text: self.text@ }
    }
}

/// The parts of a parse that may have failed, by their view.
pub open spec fn parts_view(parts: Option<UrlParts>) -> Option<UrlPartsView> {
    match parts {
        Some(p) => Some(p@),
        None => None,
    }
}

/// What `url::Url::parse` makes of `input`: nothing where it refuses the
/// text, else the scheme, the host and the serialization of the URL it
/// returns.
pub uninterp spec fn parsed_url(input: Seq<char>) -> Option<UrlPartsView>;

/// Calls `url::Url::parse` and copies out of the URL what `scheme`,
/// `host_str` and `as_str` return. The contract only gives the outcome its
/// name, [`parsed_url`]: the parser works on the text alone.
#[verifier::external_body]
pub(crate) fn parse_url(input: &str) -> (r: Option<UrlParts>)
    ensures
        parts_view(r) == parsed_url(input@),
{
    match url::Url::parse(input) {
        Ok(url) => Some(
            UrlParts {
                scheme: url.scheme().to_string(),
                host: url.host_str().map(String::from),
                text: url.as_str().to_string(),
            },
        ),
        Err(_) => None,
    }
}

/// The scheme is `http` or `https`.
pub open spec fn is_http(scheme: Seq<char>) -> bool {
    scheme == "http"@ || scheme == "https"@
}

/// The verdict on a base URL, given what the parser made of it: script and
/// data URLs are refused outright, and of the rest only what parses as an
/// absolute URL with scheme `http` or `https` is accepted, unchanged.
pub open spec fn base_url_verdict(url: Seq<char>, parsed: Option<UrlPartsView>) -> Result<
    Seq<char>,
    ErrorView,
> {
    if "javascript:"@.is_prefix_of(url) || "data:"@.is_prefix_of(url) {
        Err(ErrorView::InvalidOptions("Invalid base URL scheme"@))
    } else if parsed is Some && is_http(parsed->0.scheme) {
        Ok(url)
    } else {
        Err(ErrorView::InvalidOptions("Base URL must be HTTP(S)"@))
    }
}

/// A result that holds a text, with its texts as sequences of characters.
pub open spec fn text_outcome_view(r: Result<String, ReadabilityError>) -> Result<
    Seq<char>,
    ErrorView,
> {
    match r {
        Ok(text) => Ok(text@),
        Err(e) => Err(e@),
    }
}

/// Whether a scheme is `http` or `https`.
fn scheme_is_http(scheme: &str) -> (r: bool)
    ensures
        r == is_http(scheme@),
{
    str_eq(scheme, "http") || str_eq(scheme, "https")
}

/// Judges a base URL, given what the parser made of it.
pub fn judge_base_url(url: &str, parsed: &Option<UrlParts>) -> (r: Result<
    String,
    ReadabilityError,
>)
    ensures
        text_outcome_view(r) == base_url_verdict(url@, parts_view(*parsed)),
{
    if starts_with(url, "javascript:") || starts_with(url, "data:") {
        return Err(ReadabilityError::InvalidOptions(String::from_str("Invalid base URL scheme")));
    }
    match parsed {
        Some(parts) => {
            if scheme_is_http(parts.scheme.as_str()) {
                return Ok(String::from_str(url));
            }
        },
        None => {},
    }
    Err(ReadabilityError::InvalidOptions(String::from_str("Base URL must be HTTP(S)")))
}

/// Checks a base URL: accepted, and returned unchanged, if and only if it
/// starts with neither `javascript:` nor `data:` and parses as an absolute
/// URL with scheme `http` or `https`. Everything else is refused as an
/// invalid option, with one of two reasons.
pub fn validate_base_url(url: &str) -> (r: Result<String, ReadabilityError>)
    ensures
        text_outcome_view(r) == base_url_verdict(url@, parsed_url(url@)),
{
    let parsed = parse_url(url);
    judge_base_url(url, &parsed)
}

/// A base URL is accepted only as it stands, and only with scheme `http`
/// or `https`; whatever is not accepted is refused as an invalid option.
pub proof fn lemma_base_url_verdict(url: Seq<char>, parsed: Option<UrlPartsView>)
    ensures
        match base_url_verdict(url, parsed) {
            Ok(accepted) => {
                &&& accepted == url
                &&& parsed is Some && is_http(parsed->0.scheme)
                &&& !"javascript:"@.is_prefix_of(url)
                &&& !"data:"@.is_prefix_of(url)
            },
            Err(e) => e is InvalidOptions,
        },
{
}

/// A parsed URL names a page on the web: its scheme is `http` or `https`,
/// and its host is there, not empty, holds a dot and no two dots in a row.
pub open spec fn names_a_page(parts: UrlPartsView) -> bool {
    &&& is_http(parts.scheme)
    &&& parts.host matches Some(host)
    &&& host.len() > 0
    &&& !has_double_dot(host)
    &&& host.contains('.')
}

/// The address that an input stands for, given what the parser made of the
/// input itself and of the input behind `https://`: the first of the two
/// that names a page, written out as the parser has it.
pub open spec fn remote_address(
    direct: Option<UrlPartsView>,
    with_scheme: Option<UrlPartsView>,
) -> Option<Seq<char>> {
    if direct is Some && names_a_page(direct->0) {
        Some(direct->0.text)
    } else if with_scheme is Some && names_a_page(with_scheme->0) {
        Some(with_scheme->0.text)
    } else {
        None
    }
}

/// Whether a parsed URL names a page on the web.
pub fn is_valid_http_url(parts: &UrlParts) -> (r: bool)
    ensures
        r == names_a_page(parts@),
{
    if !scheme_is_http(parts.scheme.as_str()) {
        return false;
    }
    match &parts.host {
        None => false,
        Some(host) => {
            let host = host.as_str();
            !host.is_empty() && !contains_double_dot(host) && contains_char(host, '.')
        },
    }
}

/// The web address that an input stands for, if it stands for one: the
/// input itself where it parses and names a page, else the input behind
/// `https://` where that does.
pub fn try_parse_url(input: &str) -> (r: Option<String>)
    ensures
        text_view(r) == remote_address(parsed_url(input@), parsed_url("https://"@ + input@)),
{
    if let Some(parts) = parse_url(input) {
        if is_valid_http_url(&parts) {
            return Some(parts.text);
        }
    }
    let https_attempt = String::from_str("https://").concat(input);
    if let Some(parts) = parse_url(https_attempt.as_str()) {
        if is_valid_http_url(&parts) {
            return Some(parts.text);
        }
    }
    None
}

} // verus!
