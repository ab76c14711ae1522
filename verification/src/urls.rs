//! The crate's window onto the `url` crate: URL parsing reduced to the
//! components this loader reads, and host classification.  The two
//! `external_body` wrappers here are the only places the `url` crate is
//! called from verified code; everything downstream is proved against the
//! named results `url_of` and `host_of`.

use vstd::prelude::*;

verus! {

/// The host of a URL as the `url` crate classifies it: a DNS name, a
/// literal IPv4 address (as its 32-bit value), or a literal IPv6 address
/// (as its 128-bit value).
#[derive(Clone, Debug, PartialEq, Eq)]
pub enum HostAddr {
    Domain(String),
    Ipv4(u32),
    Ipv6(u128),
}

/// The mathematical shape of a `HostAddr`.
pub enum HostAddrView {
    Domain(Seq<char>),
    Ipv4(u32),
    Ipv6(u128),
}

impl View for HostAddr {
    type V = HostAddrView;

    open spec fn view(&self) -> HostAddrView {
        match self {
            HostAddr::Domain(s) => HostAddrView::Domain(s@),
            HostAddr::Ipv4(a) => HostAddrView::Ipv4(*a),
            HostAddr::Ipv6(a) => HostAddrView::Ipv6(*a),
        }
    }
}

/// The components of a parsed URL that this loader reads.
#[derive(Clone, Debug, PartialEq, Eq)]
pub struct UrlParts {
    /// The scheme, as the parser normalizes it (lower case).
    pub scheme: String,
    /// The serialization of the host, when the URL has one.
    pub host: Option<String>,
    /// The explicit port, if any; never a scheme-implied default.
    pub port: Option<u16>,
    /// The path; `/` for an authority-based URL with no path segments.
    pub path: String,
    /// The fragment, without its leading `#`, when present.
    pub fragment: Option<String>,
}

/// What `url::Url::parse` returns for a given input, reduced to the
/// components above; `None` when the input is not an absolute URL.
pub uninterp spec fn url_of(s: Seq<char>) -> Option<UrlParts>;

/// What `url::Host::parse` returns for a given input; `None` when the
/// string is not a well-formed host.
pub uninterp spec fn host_of(s: Seq<char>) -> Option<HostAddr>;

/// Relies on `url::Url::parse` and the accessors `Url::scheme`,
/// `Url::host_str`, `Url::port`, `Url::path` and `Url::fragment`: parsing
/// an absolute URL and reading the components of the result, all of which
/// depend on the input string alone.
#[verifier::external_body]
pub(crate) fn parse_url(s: &str) -> (r: Option<UrlParts>)
    ensures
        r == url_of(s@),
{
    match url::Url::parse(s) {
        Err(_) => None,
        Ok(u) => Some(UrlParts {
            scheme: u.scheme().to_owned(),
            host: u.host_str().map(|h| h.to_owned()),
            port: u.port(),
            path: u.path().to_owned(),
            fragment: u.fragment().map(|f| f.to_owned()),
        }),
    }
}

/// Relies on `url::Host::parse`: classifying a host string as a domain
/// name or a literal IPv4/IPv6 address depends on the string alone.
#[verifier::external_body]
pub(crate) fn parse_host(s: &str) -> (r: Option<HostAddr>)
    ensures
        r == host_of(s@),
{
    match url::Host::parse(s) {
        Err(_) => None,
        Ok(url::Host::Domain(d)) => Some(HostAddr::Domain(d)),
        Ok(url::Host::Ipv4(a)) => Some(HostAddr::Ipv4(u32::from(a))),
        Ok(url::Host::Ipv6(a)) => Some(HostAddr::Ipv6(u128::from(a))),
    }
}

} // verus!
