//! URL structure, as the `url` crate parses it, and the endpoints derived from it.

use vstd::prelude::*;
use vstd::string::*;
use crate::text::{opt_view, concat2, concat3};
use crate::errors::FeederError;

verus! {

/// The parts of a parsed URL that the sources read.
pub struct UrlParts {
    pub scheme: String,
    pub host: Option<String>,
    pub path: String,
}

pub struct UrlView {
    pub scheme: Seq<char>,
    pub host: Option<Seq<char>>,
    pub path: Seq<char>,
}

impl View for UrlParts {
    type V = UrlView;

    open spec fn view(&self) -> UrlView {
        UrlView { scheme: self.scheme@, host: opt_view(self.host), path: self.path@ }
    }
}

/// What `url::Url::parse` makes of a string: its scheme, host and path, or the
/// text of its parse error.
pub uninterp spec fn parsed_url(s: Seq<char>) -> Result<UrlView, Seq<char>>;

/// Relies on `url::Url::parse` (WHATWG URL parsing) and on the `scheme`,
/// `host_str` and `path` accessors of its result; the error is its message.
#[verifier::external_body]
pub(crate) fn parse_url(s: &str) -> (r: Result<UrlParts, String>)
    ensures
        match r {
            Ok(p) => parsed_url(s@) == Ok::<UrlView, Seq<char>>(p@),
            Err(e) => parsed_url(s@) == Err::<UrlView, Seq<char>>(e@),
        },
{
    match url::Url::parse(s) {
        Ok(u) => Ok(UrlParts {
            scheme: u.scheme().to_string(),
            host: u.host_str().map(|h| h.to_string()),
            path: u.path().to_string(),
        }),
        Err(e) => Err(e.to_string()),
    }
}

/// An invalid-URL error carrying `detail`.
pub open spec fn is_invalid_url(e: FeederError, detail: Seq<char>) -> bool {
    e matches FeederError::InvalidUrl(m) && m@ == detail
}

/// `scheme://host` of parsed URL parts; an invalid-URL error ("Missing
/// host") when they have no host.
pub fn origin_of_parts(p: &UrlParts) -> (r: Result<String, FeederError>)
    ensures
        match p.host {
            None => r matches Err(x) && is_invalid_url(x, "Missing host"@),
            Some(h) => r matches Ok(o) && o@ == p.scheme@ + "://"@ + h@,
        },
{
    match &p.host {
        None => Err(FeederError::InvalidUrl(String::from_str("Missing host"))),
        Some(h) => Ok(concat3(p.scheme.as_str(), "://", h.as_str())),
    }
}

/// `scheme://host` of `url`. Fails with an invalid-URL error when `url` does
/// not parse (with the parser's message) or has no host ("Missing host").
pub fn origin(url: &str) -> (r: Result<String, FeederError>)
    ensures
        match parsed_url(url@) {
            Err(e) => r matches Err(x) && is_invalid_url(x, e),
            Ok(p) => match p.host {
                None => r matches Err(x) && is_invalid_url(x, "Missing host"@),
                Some(h) => r matches Ok(o) && o@ == p.scheme + "://"@ + h,
            },
        },
{
    match parse_url(url) {
        Err(e) => Err(FeederError::InvalidUrl(e)),
        Ok(p) => origin_of_parts(&p),
    }
}

/// The host of `url`. Fails like [`origin`].
pub fn host_of(url: &str) -> (r: Result<String, FeederError>)
    ensures
        match parsed_url(url@) {
            Err(e) => r matches Err(x) && is_invalid_url(x, e),
            Ok(p) => match p.host {
                None => r matches Err(x) && is_invalid_url(x, "Missing host"@),
                Some(h) => r matches Ok(o) && o@ == h,
            },
        },
{
    match parse_url(url) {
        Err(e) => Err(FeederError::InvalidUrl(e)),
        Ok(p) => match p.host {
            None => Err(FeederError::InvalidUrl(String::from_str("Missing host"))),
            Some(h) => Ok(h),
        },
    }
}

/// `scheme://host/wp-json/` of a parsed URL, with an empty host when it has none.
pub open spec fn wp_json_of(p: UrlView) -> Seq<char> {
    p.scheme + "://"@ + (match p.host {
        Some(h) => h,
        None => Seq::<char>::empty(),
    }) + "/wp-json/"@
}

/// The WordPress REST API root of a site, `scheme://host/wp-json/`, with an
/// empty host when the URL has none; none when the URL does not parse.
pub fn wp_json_url(url: &str) -> (r: Option<String>)
    ensures
        match parsed_url(url@) {
            Err(_) => r is None,
            Ok(p) => r matches Some(s) && s@ == wp_json_of(p),
        },
{
    match parse_url(url) {
        Err(_) => None,
        Ok(p) => {
            let host = match p.host {
                Some(h) => h,
                None => String::new(),
            };
            let base = concat3(p.scheme.as_str(), "://", host.as_str());
            Some(concat2(base.as_str(), "/wp-json/"))
        },
    }
}

} // verus!
