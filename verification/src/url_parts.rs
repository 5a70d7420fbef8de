//! A parsed URL and the parts of it that the library reads, through the `url` crate.
//!
//! A [`ParsedUrl`] is only made by [`ParsedUrl::parse`]; its view is the text it was parsed
//! from, and every query on it is stated as a function of that text.

use vstd::prelude::*;

verus! {

#[verifier::external_type_specification]
#[verifier::external_body]
pub struct ExUrl(url::Url);

/// An IP address: IPv4 as its 32 bits, IPv6 as its 128 bits (most significant first).
#[derive(Debug, Clone, Copy, PartialEq, Eq, Hash, Structural)]
pub enum IpAddress {
    V4(u32),
    V6(u128),
}

/// The host of a URL.
#[derive(Debug)]
pub enum UrlHost {
    Domain(String),
    Ipv4(u32),
    Ipv6(u128),
}

/// Mathematical view of a [`UrlHost`].
pub enum UrlHostView {
    Domain(Seq<char>),
    Ipv4(u32),
    Ipv6(u128),
}

impl View for UrlHost {
    type V = UrlHostView;

    open spec fn view(&self) -> UrlHostView {
        match self {
            UrlHost::Domain(d) => UrlHostView::Domain(d@),
            UrlHost::Ipv4(a) => UrlHostView::Ipv4(*a),
            UrlHost::Ipv6(a) => UrlHostView::Ipv6(*a),
        }
    }
}

/// The `Debug` and `Display` texts of a URL parse error.
#[derive(Debug)]
pub struct UrlParseFailure {
    pub debug: String,
    pub display: String,
}

/// Outcome of `url::Url::parse` on `input`: `Ok` when it parses as an absolute URL, otherwise
/// the `Debug` and `Display` texts of the error.
pub uninterp spec fn url_parse(input: Seq<char>) -> Result<(), (Seq<char>, Seq<char>)>;

/// `url::Url::scheme` of the URL parsed from `input`.
pub uninterp spec fn url_scheme(input: Seq<char>) -> Seq<char>;

/// `url::Url::port` of the URL parsed from `input`.
pub uninterp spec fn url_port(input: Seq<char>) -> Option<u16>;

/// `url::Url::host` of the URL parsed from `input`.
pub uninterp spec fn url_host(input: Seq<char>) -> Option<UrlHostView>;

/// `url::Url::host_str` of the URL parsed from `input`.
pub uninterp spec fn url_host_str(input: Seq<char>) -> Option<Seq<char>>;

/// The serialization (`Display`) of the URL parsed from `input`.
pub uninterp spec fn url_serialization(input: Seq<char>) -> Seq<char>;

/// The serialization of the URL parsed from `input` after `url::Url::set_port(Some(port))`,
/// or `None` where `set_port` refuses.
pub uninterp spec fn url_with_port(input: Seq<char>, port: u16) -> Option<Seq<char>>;

/// A URL parsed from a text.
#[derive(Debug)]
pub struct ParsedUrl {
    url: url::Url,
    source: String,
}

impl View for ParsedUrl {
    type V = Seq<char>;

    closed spec fn view(&self) -> Seq<char> {
        self.source@
    }
}

impl ParsedUrl {
    /// Parses `input` as an absolute URL (`url::Url::parse`). The contract names the outcome
    /// as a function of the text; the URL grammar itself is not stated.
    #[verifier::external_body]
    pub(crate) fn parse(input: &str) -> (r: Result<ParsedUrl, UrlParseFailure>)
        ensures
            match r {
                Ok(u) => url_parse(input@) is Ok && u@ == input@,
                Err(e) => url_parse(input@) == Err::<(), (Seq<char>, Seq<char>)>(
                    (e.debug@, e.display@),
                ),
            },
    {
        match url::Url::parse(input) {
            Ok(url) => Ok(ParsedUrl { url, source: input.to_string() }),
            Err(e) => Err(UrlParseFailure { debug: format!("{:?}", e), display: format!("{}", e) }),
        }
    }

    /// The scheme (`url::Url::scheme`): lower-cased, without the `:`.
    #[verifier::external_body]
    pub(crate) fn scheme(&self) -> (r: String)
        ensures
            r@ == url_scheme(self@),
    {
        self.url.scheme().to_string()
    }

    /// The explicit port (`url::Url::port`); the scheme's default port is never reported.
    #[verifier::external_body]
    pub(crate) fn port(&self) -> (r: Option<u16>)
        ensures
            r == url_port(self@),
    {
        self.url.port()
    }

    /// The host (`url::Url::host`), an IP address or a domain.
    #[verifier::external_body]
    pub(crate) fn host(&self) -> (r: Option<UrlHost>)
        ensures
            match r {
                Some(h) => url_host(self@) == Some(h@),
                None => url_host(self@) is None,
            },
    {
        match self.url.host() {
            Some(url::Host::Domain(d)) => Some(UrlHost::Domain(d.to_string())),
            Some(url::Host::Ipv4(a)) => Some(UrlHost::Ipv4(a.to_bits())),
            Some(url::Host::Ipv6(a)) => Some(UrlHost::Ipv6(a.to_bits())),
            None => None,
        }
    }

    /// The host as text (`url::Url::host_str`).
    #[verifier::external_body]
    pub(crate) fn host_str(&self) -> (r: Option<String>)
        ensures
            match r {
                Some(h) => url_host_str(self@) == Some(h@),
                None => url_host_str(self@) is None,
            },
    {
        self.url.host_str().map(|h| h.to_string())
    }

    /// The URL's serialization (`Display` of `url::Url`).
    #[verifier::external_body]
    pub(crate) fn serialization(&self) -> (r: String)
        ensures
            r@ == url_serialization(self@),
    {
        self.url.to_string()
    }

    /// The serialization of this URL with its port set to `port` (`url::Url::set_port` on a
    /// copy), or `None` where `set_port` refuses (no host, an empty host, or a `file` URL).
    #[verifier::external_body]
    pub(crate) fn serialization_with_port(&self, port: u16) -> (r: Option<String>)
        ensures
            match r {
                Some(s) => url_with_port(self@, port) == Some(s@),
                None => url_with_port(self@, port) is None,
            },
    {
        let mut url = self.url.clone();
        match url.set_port(Some(port)) {
            Ok(()) => Some(url.to_string()),
            Err(()) => None,
        }
    }
}

} // verus!
