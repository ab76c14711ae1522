//! The error taxonomy of the loader: a coarse endpoint error, a fine-grained
//! control-plane URL error carrying the offending raw string, and the
//! invalid-environment-variable errors of the assembler.

use vstd::prelude::*;

verus! {

/// The ways a control-plane URL can be refused, reported for the first
/// violation found.
#[derive(Clone, Copy, Debug, PartialEq, Eq, Structural)]
pub enum UrlError {
    /// The URL is syntactically invalid under general URL parsing rules.
    SyntaxError,
    /// The URL has a scheme other than `tcp`.
    UnsupportedScheme,
    /// The URL is missing the host part.
    MissingHost,
    /// The URL is missing the port, and no default port applies.
    MissingPort,
    /// The URL has a path component other than `/`.
    PathNotAllowed,
    /// The URL has a fragment component.
    FragmentNotAllowed,
}

/// Errors produced when loading a `Config`.
#[derive(Clone, Debug, PartialEq, Eq)]
pub enum Error {
    /// An endpoint string was not a `tcp` URL with a literal IP and port.
    InvalidAddr,
    /// The control-plane URL was refused; carries the raw string and why.
    ControlPlaneConfigError(String, UrlError),
    /// A value that should have been numeric was not.
    NotANumber(String),
    /// An environment variable held an unusable value; carries the
    /// variable's name and the offending raw text.
    InvalidEnvVar { name: String, value: String },
}

/// The mathematical shape of an `Error`: its strings as character sequences.
pub enum ErrorView {
    InvalidAddr,
    ControlPlaneConfigError(Seq<char>, UrlError),
    NotANumber(Seq<char>),
    InvalidEnvVar { name: Seq<char>, value: Seq<char> },
}

impl View for Error {
    type V = ErrorView;

    open spec fn view(&self) -> ErrorView {
        match self {
            Error::InvalidAddr => ErrorView::InvalidAddr,
            Error::ControlPlaneConfigError(s, u) => ErrorView::ControlPlaneConfigError(s@, *u),
            Error::NotANumber(s) => ErrorView::NotANumber(s@),
            Error::InvalidEnvVar { name, value } => ErrorView::InvalidEnvVar {
                name: name@,
                value: value@,
            },
        }
    }
}

} // verus!
