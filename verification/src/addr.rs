//! The Endpoint Parser: turns a `tcp://ip:port` string into a concrete
//! network address.  The scheme must be literally `tcp`, the host must be a
//! literal IPv4 or IPv6 address, and the port must be explicit — there is
//! deliberately no default port for an arbitrary internal endpoint.  Path
//! and fragment are not inspected here, unlike the control URL grammar.

use vstd::prelude::*;

use crate::errors::Error;
use crate::urls::HostAddr;
use crate::urls::UrlParts;
use crate::urls::host_of;
use crate::urls::parse_host;
use crate::urls::parse_url;
use crate::urls::url_of;

verus! {

/// A literal IP address: v4 as its 32-bit value, v6 as its 128-bit value.
#[derive(Clone, Copy, Debug, PartialEq, Eq, Structural)]
pub enum Ip {
    V4(u32),
    V6(u128),
}

/// A logical address: a concrete, already-resolved endpoint, an IP plus a
/// port.
#[derive(Clone, Copy, Debug, PartialEq, Eq, Structural)]
pub struct Addr {
    pub ip: Ip,
    pub port: u16,
}

/// Configuration settings for binding a listener.
#[derive(Clone, Copy, Debug, PartialEq, Eq, Structural)]
pub struct Listener {
    /// The address to which the listener should bind.
    pub addr: Addr,
}

/// The address denoted by a classified host and an explicit port: only a
/// literal IP host yields an address.
pub open spec fn spec_addr_of_host(host: Option<HostAddr>, port: u16) -> Option<Addr> {
    match host {
        Some(HostAddr::Ipv4(a)) => Some(Addr { ip: Ip::V4(a), port }),
        Some(HostAddr::Ipv6(a)) => Some(Addr { ip: Ip::V6(a), port }),
        _ => None,
    }
}

/// What the endpoint parser yields once the URL has been split: the scheme
/// must be `tcp`, the host must classify as a literal IP, and the port must
/// be explicit.
pub open spec fn spec_addr_from_parts(parts: Option<UrlParts>) -> Option<Addr> {
    match parts {
        None => None,
        Some(p) => if p.scheme@ == "tcp"@ {
            match (p.host, p.port) {
                (Some(h), Some(port)) => spec_addr_of_host(host_of(h@), port),
                _ => None,
            }
        } else {
            None
        },
    }
}

/// The endpoint denoted by a whole URL string, if any.
pub open spec fn spec_addr_from_str(s: Seq<char>) -> Option<Addr> {
    spec_addr_from_parts(url_of(s))
}

impl Addr {
    /// Builds an address from a classified host and an explicit port;
    /// a symbolic host yields nothing.
    pub fn of_host(host: Option<HostAddr>, port: u16) -> (r: Option<Addr>)
        ensures
            r == spec_addr_of_host(host, port),
    {
        match host {
            Some(HostAddr::Ipv4(a)) => Some(Addr { ip: Ip::V4(a), port }),
            Some(HostAddr::Ipv6(a)) => Some(Addr { ip: Ip::V6(a), port }),
            _ => None,
        }
    }

    /// The endpoint decision on already-split URL components.
    pub fn from_parts(parts: Option<UrlParts>) -> (r: Result<Addr, Error>)
        ensures
            match spec_addr_from_parts(parts) {
                Some(a) => r == Ok::<Addr, Error>(a),
                None => r matches Err(Error::InvalidAddr),
            },
    {
        match parts {
            None => Err(Error::InvalidAddr),
            Some(p) => {
                let tcp: String = "tcp".to_owned();
                if p.scheme == tcp {
                    match (p.host, p.port) {
                        (Some(h), Some(port)) => {
                            match Addr::of_host(parse_host(h.as_str()), port) {
                                Some(a) => Ok(a),
                                None => Err(Error::InvalidAddr),
                            }
                        },
                        _ => Err(Error::InvalidAddr),
                    }
                } else {
                    Err(Error::InvalidAddr)
                }
            },
        }
    }

    /// The Endpoint Parser: any failure — bad syntax, a scheme other than
    /// `tcp`, a symbolic host, a missing port — is the one coarse error.
    pub fn from_str(s: &str) -> (r: Result<Addr, Error>)
        ensures
            match spec_addr_from_str(s@) {
                Some(a) => r == Ok::<Addr, Error>(a),
                None => r matches Err(Error::InvalidAddr),
            },
    {
        Addr::from_parts(parse_url(s))
    }
}

/// For every parsed URL whose scheme is `tcp`, whose host is a literal
/// IPv4 or IPv6 address and which carries an explicit port, the endpoint
/// parser succeeds and returns exactly that IP and that port.
pub proof fn lemma_endpoint_roundtrip(parts: UrlParts, h: String, port: u16)
    requires
        parts.scheme@ == "tcp"@,
        parts.host == Some(h),
        parts.port == Some(port),
        host_of(h@) matches Some(HostAddr::Ipv4(_)) || host_of(h@) matches Some(
            HostAddr::Ipv6(_),
        ),
    ensures
        match host_of(h@) {
            Some(HostAddr::Ipv4(a)) => spec_addr_from_parts(Some(parts)) == Some(
                Addr { ip: Ip::V4(a), port },
            ),
            Some(HostAddr::Ipv6(a)) => spec_addr_from_parts(Some(parts)) == Some(
                Addr { ip: Ip::V6(a), port },
            ),
            _ => false,
        },
{
}

/// Every URL whose scheme is not `tcp` is rejected by the endpoint parser,
/// whatever its other components hold.
pub proof fn lemma_endpoint_rejects_scheme(parts: UrlParts)
    requires
        parts.scheme@ != "tcp"@,
    ensures
        spec_addr_from_parts(Some(parts)) is None,
{
}

} // verus!
