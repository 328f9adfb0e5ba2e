//! The parts of a URL that this library inspects, as the `url` crate (through
//! `reqwest::Url`) parses them.
use vstd::prelude::*;

verus! {

/// Components of a parsed URL, each as `url::Url` reports it.
#[derive(Clone, Debug, PartialEq, Eq)]
pub struct UrlParts {
    pub scheme: String,
    pub username: String,
    pub password: Option<String>,
    pub host: Option<String>,
    pub query: Option<String>,
    pub fragment: Option<String>,
    /// ASCII serialization of the origin (`scheme://host[:port]`, or `null`).
    pub origin: String,
    pub path: String,
}

/// Mathematical view of [`UrlParts`].
pub ghost struct UrlPartsView {
    pub scheme: Seq<char>,
    pub username: Seq<char>,
    pub password: Option<Seq<char>>,
    pub host: Option<Seq<char>>,
    pub query: Option<Seq<char>>,
    pub fragment: Option<Seq<char>>,
    pub origin: Seq<char>,
    pub path: Seq<char>,
}

impl DeepView for UrlParts {
    type V = UrlPartsView;

    open spec fn deep_view(&self) -> UrlPartsView {
        UrlPartsView {
            scheme: self.scheme@,
            username: self.username@,
            password: self.password.deep_view(),
            host: self.host.deep_view(),
            query: self.query.deep_view(),
            fragment: self.fragment.deep_view(),
            origin: self.origin@,
            path: self.path@,
        }
    }
}

/// What `url::Url::parse` makes of a text: `None` where it refuses the text,
/// otherwise the components its accessors report.
pub uninterp spec fn url_parse(text: Seq<char>) -> Option<UrlPartsView>;

/// `reqwest::Url::parse` (the `url` crate's `Url::parse`) followed by the
/// accessors `scheme`, `username`, `password`, `host_str`, `query`,
/// `fragment`, `origin().ascii_serialization()` and `path`. The contract
/// claims only that the outcome is a function of the text.
#[verifier::external_body]
pub(crate) fn parse_url(text: &str) -> (r: Option<UrlParts>)
    ensures
        r.deep_view() == url_parse(text@),
{
    let url = match reqwest::Url::parse(text) {
        Ok(url) => url,
        Err(_) => return None,
    };
    Some(UrlParts {
        scheme: url.scheme().to_owned(),
        username: url.username().to_owned(),
        password: url.password().map(str::to_owned),
        host: url.host_str().map(str::to_owned),
        query: url.query().map(str::to_owned),
        fragment: url.fragment().map(str::to_owned),
        origin: url.origin().ascii_serialization(),
        path: url.path().to_owned(),
    })
}

} // verus!
