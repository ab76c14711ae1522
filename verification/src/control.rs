//! The Control URL Validator: a stricter grammar than the endpoint parser
//! in its path and fragment checks — the path must be exactly `/` and no
//! fragment may appear — but looser on the host, which may remain a
//! symbolic name to be resolved later by an external collaborator.  Checks
//! run in a fixed order and the first violation is reported, each wrapped
//! by the caller with the offending raw string.

use vstd::prelude::*;

use crate::errors::UrlError;
use crate::urls::HostAddr;
use crate::urls::HostAddrView;
use crate::urls::UrlParts;
use crate::urls::host_of;
use crate::urls::parse_host;
use crate::urls::parse_url;
use crate::urls::url_of;

verus! {

/// The control-plane address: a possibly symbolic host plus a port.
#[derive(Clone, Debug, PartialEq, Eq)]
pub struct HostAndPort {
    pub host: HostAddr,
    pub port: u16,
}

/// The mathematical shape of a `HostAndPort`.
pub struct HostAndPortView {
    pub host: HostAddrView,
    pub port: u16,
}

impl View for HostAndPort {
    type V = HostAndPortView;

    open spec fn view(&self) -> HostAndPortView {
        HostAndPortView { host: self.host@, port: self.port }
    }
}

/// The validator's verdict on already-split URL components, in order: a
/// parse failure, then a missing host, then a scheme other than `tcp`
/// (checked after the host, so a hostless non-tcp URL reports the host
/// first), then a missing port — no default port ever applies — then any
/// path but `/`, then a fragment.  A host string that the host grammar
/// itself refuses counts as a syntax error.
pub open spec fn spec_control_from_parts(parts: Option<UrlParts>) -> Result<HostAndPort, UrlError> {
    match parts {
        None => Err(UrlError::SyntaxError),
        Some(p) => match p.host {
            None => Err(UrlError::MissingHost),
            Some(h) => if p.scheme@ != "tcp"@ {
                Err(UrlError::UnsupportedScheme)
            } else {
                match p.port {
                    None => Err(UrlError::MissingPort),
                    Some(port) => if p.path@ != "/"@ {
                        Err(UrlError::PathNotAllowed)
                    } else if p.fragment is Some {
                        Err(UrlError::FragmentNotAllowed)
                    } else {
                        match host_of(h@) {
                            None => Err(UrlError::SyntaxError),
                            Some(host) => Ok(HostAndPort { host, port }),
                        }
                    },
                }
            },
        },
    }
}

/// The validator's verdict on a whole URL string.
pub open spec fn spec_control_from_str(s: Seq<char>) -> Result<HostAndPort, UrlError> {
    spec_control_from_parts(url_of(s))
}

/// Validates already-split URL components as a control-plane address.
pub fn control_from_parts(parts: Option<UrlParts>) -> (r: Result<HostAndPort, UrlError>)
    ensures
        r == spec_control_from_parts(parts),
{
    match parts {
        None => Err(UrlError::SyntaxError),
        Some(p) => match p.host {
            None => Err(UrlError::MissingHost),
            Some(h) => {
                let tcp: String = "tcp".to_owned();
                if !(p.scheme == tcp) {
                    Err(UrlError::UnsupportedScheme)
                } else {
                    match p.port {
                        None => Err(UrlError::MissingPort),
                        Some(port) => {
                            let root: String = "/".to_owned();
                            if !(p.path == root) {
                                Err(UrlError::PathNotAllowed)
                            } else if p.fragment.is_some() {
                                Err(UrlError::FragmentNotAllowed)
                            } else {
                                match parse_host(h.as_str()) {
                                    None => Err(UrlError::SyntaxError),
                                    Some(host) => Ok(HostAndPort { host, port }),
                                }
                            }
                        },
                    }
                }
            },
        },
    }
}

/// Validates a control-plane URL string.
pub fn control_from_str(s: &str) -> (r: Result<HostAndPort, UrlError>)
    ensures
        r == spec_control_from_str(s@),
{
    control_from_parts(parse_url(s))
}

/// A non-root path is refused as `PathNotAllowed`, whatever follows it.
pub proof fn lemma_control_path_not_allowed(p: UrlParts)
    requires
        p.host is Some,
        p.scheme@ == "tcp"@,
        p.port is Some,
        p.path@ != "/"@,
    ensures
        spec_control_from_parts(Some(p)) == Err::<HostAndPort, UrlError>(UrlError::PathNotAllowed),
{
}

/// With the path exactly `/`, no fragment, and a well-formed `tcp` URL,
/// validation succeeds with exactly the classified host and the explicit
/// port.
pub proof fn lemma_control_root_path_ok(p: UrlParts, h: String, host: HostAddr, port: u16)
    requires
        p.host == Some(h),
        p.scheme@ == "tcp"@,
        p.port == Some(port),
        p.path@ == "/"@,
        p.fragment is None,
        host_of(h@) == Some(host),
    ensures
        spec_control_from_parts(Some(p)) == Ok::<HostAndPort, UrlError>(HostAndPort { host, port }),
{
}

/// A fragment is refused as `FragmentNotAllowed` once every earlier check
/// has passed.
pub proof fn lemma_control_fragment_not_allowed(p: UrlParts)
    requires
        p.host is Some,
        p.scheme@ == "tcp"@,
        p.port is Some,
        p.path@ == "/"@,
        p.fragment is Some,
    ensures
        spec_control_from_parts(Some(p)) == Err::<HostAndPort, UrlError>(
            UrlError::FragmentNotAllowed,
        ),
{
}

/// A missing port is refused as `MissingPort`: no default-port
/// substitution ever happens on this path.
pub proof fn lemma_control_missing_port(p: UrlParts)
    requires
        p.host is Some,
        p.scheme@ == "tcp"@,
        p.port is None,
    ensures
        spec_control_from_parts(Some(p)) == Err::<HostAndPort, UrlError>(UrlError::MissingPort),
{
}

} // verus!
