//! URLs as the engine holds them: read once, then carried with the parts that
//! its rules look at.

use vstd::prelude::*;
use crate::error::{AppError, AppErrorView, ParseFault};

verus! {

/// `url::Url`, carried as it is. What the engine reads of a URL it holds beside
/// it, as plain values.
#[verifier::external_type_specification]
#[verifier::external_body]
pub struct ExUrl(url::Url);

/// `url::ParseError`, the error of `url::Url::parse`. Only its presence is
/// looked at.
#[verifier::external_type_specification]
#[verifier::external_body]
pub struct ExUrlParseError(url::ParseError);

/// `activitypub_federation::error::Error`, the error of the federation
/// crate's functions. Only its presence is looked at.
#[verifier::external_type_specification]
#[verifier::external_body]
pub struct ExFederationError(activitypub_federation::error::Error);

/// The parts of a URL that the engine reads: its serialisation, and its domain
/// where the host is a domain name.
pub struct UrlView {
    pub text: Seq<char>,
    pub domain: Option<Seq<char>>,
}

/// What `url::Url::parse` reads in a text: the serialisation and the domain of
/// the URL, or `None` where the text is no absolute URL.
pub uninterp spec fn url_parts(text: Seq<char>) -> Option<UrlView>;

/// A URL that has been read from a text: the URL itself, and beside it its
/// serialisation and its domain as they were read from it. A value is made by
/// `WebUrl::parse` or as a copy of another, so the three always belong together.
#[derive(Debug)]
pub struct WebUrl {
    url: url::Url,
    text: String,
    domain: Option<String>,
}

impl View for WebUrl {
    type V = UrlView;

    closed spec fn view(&self) -> UrlView {
        UrlView {
            text: self.text@,
            domain: match self.domain {
                Some(d) => Some(d@),
                None => None,
            },
        }
    }
}

impl DeepView for WebUrl {
    type V = UrlView;

    open spec fn deep_view(&self) -> UrlView {
        self@
    }
}

/// Calls `url::Url::parse` and keeps the URL together with its serialisation
/// (`Url::as_str`) and its domain (`Url::domain`). The contract names these parts
/// `url_parts` of the text, and says that an error comes exactly where
/// `url_parts` is `None`.
#[verifier::external_body]
fn read_url(text: &str) -> (read: Result<WebUrl, url::ParseError>)
    ensures
        match read {
            Ok(u) => url_parts(text@) == Some(u@),
            Err(_) => url_parts(text@) is None,
        },
{
    match url::Url::parse(text) {
        Ok(url) => Ok(
            WebUrl {
                text: url.as_str().to_string(),
                domain: url.domain().map(|d| d.to_string()),
                url,
            },
        ),
        Err(e) => Err(e),
    }
}

/// Calls `Clone::clone` of `url::Url`. The copy is carried beside the parts that
/// were read from the one copied, so nothing is stated of it.
#[verifier::external_body]
fn copy_url(url: &url::Url) -> url::Url {
    url.clone()
}

/// Calls `activitypub_federation::protocol::verification::verify_domains_match`
/// on the two URLs. It compares what `Url::domain` gives for each, which is what
/// a `WebUrl` holds as its domain: the contract says that the call succeeds
/// exactly where the two domains are equal, two absent domains included.
#[verifier::external_body]
fn match_domains(a: &WebUrl, b: &WebUrl) -> (matched: Result<
    (),
    activitypub_federation::error::Error,
>)
    ensures
        matched is Ok <==> a@.domain == b@.domain,
{
    activitypub_federation::protocol::verification::verify_domains_match(&a.url, &b.url)
}

/// A copy of an optional URL.
pub fn clone_url(url: &Option<WebUrl>) -> (copy: Option<WebUrl>)
    ensures
        copy.deep_view() == url.deep_view(),
{
    match url {
        Some(u) => Some(u.clone()),
        None => None,
    }
}

/// Whether two optional URLs are both absent or the same URL.
pub fn same_url(a: &Option<WebUrl>, b: &Option<WebUrl>) -> (same: bool)
    ensures
        same == (a.deep_view() == b.deep_view()),
{
    match (a, b) {
        (Some(x), Some(y)) => x.same(y),
        (None, None) => true,
        _ => false,
    }
}

/// Reads a URL from an optional text: nothing from nothing, and `Parse(Url)`
/// where a text is present and is no URL.
pub fn parse_optional(text: &Option<String>) -> (read: Result<Option<WebUrl>, AppError>)
    ensures
        match read {
            Ok(u) => u.deep_view() == optional_parts(text.deep_view()) && !unreadable(
                text.deep_view(),
            ),
            Err(e) => unreadable(text.deep_view()) && e@ == AppErrorView::Parse(ParseFault::Url),
        },
{
    match text {
        None => Ok(None),
        Some(t) => match WebUrl::parse(t.as_str()) {
            Ok(u) => Ok(Some(u)),
            Err(e) => Err(e),
        },
    }
}

/// Whether an optional text is present and is no URL.
pub open spec fn unreadable(text: Option<Seq<char>>) -> bool {
    match text {
        Some(t) => url_parts(t) is None,
        None => false,
    }
}

/// The URL that an optional text holds, if it is present and is one.
pub open spec fn optional_parts(text: Option<Seq<char>>) -> Option<UrlView> {
    match text {
        Some(t) => url_parts(t),
        None => None,
    }
}

impl WebUrl {
    /// Reads a URL from a text, or reports `Parse(Url)` where the text is none.
    pub fn parse(text: &str) -> (read: Result<WebUrl, AppError>)
        ensures
            match read {
                Ok(u) => url_parts(text@) == Some(u@),
                Err(e) => url_parts(text@) is None && e@ == AppErrorView::Parse(ParseFault::Url),
            },
    {
        match read_url(text) {
            Ok(u) => Ok(u),
            Err(_) => Err(AppError::Parse(ParseFault::Url)),
        }
    }

    /// The serialisation of the URL.
    pub fn as_str(&self) -> (text: &str)
        ensures
            text@ == self@.text,
    {
        self.text.as_str()
    }

    /// The domain of the URL, where its host is a domain name.
    pub fn domain(&self) -> (domain: Option<&str>)
        ensures
            match domain {
                Some(d) => self@.domain == Some(d@),
                None => self@.domain is None,
            },
    {
        match &self.domain {
            Some(d) => Some(d.as_str()),
            None => None,
        }
    }

    /// Checks that the URL has the domain of another one, and reports
    /// `DomainVerification` where it has not.
    pub fn verify_domain(&self, expected: &WebUrl) -> (verified: Result<(), AppError>)
        ensures
            self@.domain == expected@.domain <==> verified is Ok,
            verified matches Err(e) ==> e@ == AppErrorView::DomainVerification,
    {
        match match_domains(self, expected) {
            Ok(()) => Ok(()),
            Err(_) => Err(AppError::DomainVerification),
        }
    }

    /// The URL as the `url` crate holds it: the one that was read by
    /// `WebUrl::parse`, or its copy, and that the value has carried since.
    pub fn as_url(&self) -> (url: &url::Url)
        ensures
            *url == self.carried(),
    {
        &self.url
    }

    /// The URL that the value carries beside its serialisation and its domain.
    pub closed spec fn carried(&self) -> url::Url {
        self.url
    }

    /// Whether two URLs have the same serialisation and the same domain.
    pub fn same(&self, other: &WebUrl) -> (same: bool)
        ensures
            same == (self@ == other@),
    {
        let texts = self.text == other.text;
        let domains = match (&self.domain, &other.domain) {
            (Some(a), Some(b)) => *a == *b,
            (None, None) => true,
            _ => false,
        };
        texts && domains
    }
}

impl Clone for WebUrl {
    fn clone(&self) -> (copy: WebUrl)
        ensures
            copy@ == self@,
    {
        let domain = match &self.domain {
            Some(d) => Some(d.clone()),
            None => None,
        };
        WebUrl { url: copy_url(&self.url), text: self.text.clone(), domain }
    }
}

} // verus!
