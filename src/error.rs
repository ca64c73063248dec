//! Errors of name resolution and configuration.
use vstd::prelude::*;

verus! {

/// Why a name, a domain or a configuration value could not be produced.
#[derive(Debug, Clone, Copy, PartialEq, Eq, Structural)]
pub enum Error {
    /// The sanitized hostname is `.` or ends with `.`.
    TrailingDot,
    /// Nothing is left of the hostname once it is sanitized.
    EmptyHostname,
    /// The sanitized hostname is not a DNS name.
    InvalidHostname,
    /// A domain was given, and it is empty.
    EmptyDomain,
    /// The domain in absolute form is not a DNS name.
    InvalidDomain,
    /// The network has no address assigned to this node.
    NoListenAddresses,
    /// No path to the local credential was given, and the platform has no default one.
    NoDefaultAuthtokenPath,
}

/// The broad class of an [`Error`].
#[derive(Debug, Clone, Copy, PartialEq, Eq, Structural)]
pub enum ErrorKind {
    /// Bad hostname or domain text.
    Validation,
    /// A remote resource lacks what is needed.
    Resource,
    /// No usable setting.
    Configuration,
}

impl Error {
    pub open spec fn spec_kind(self) -> ErrorKind {
        match self {
            Error::TrailingDot | Error::EmptyHostname | Error::InvalidHostname
            | Error::EmptyDomain | Error::InvalidDomain => ErrorKind::Validation,
            Error::NoListenAddresses => ErrorKind::Resource,
            Error::NoDefaultAuthtokenPath => ErrorKind::Configuration,
        }
    }

    /// The class this error belongs to.
    pub fn kind(&self) -> (r: ErrorKind)
        ensures
            r == self.spec_kind(),
    {
        match self {
            Error::TrailingDot | Error::EmptyHostname | Error::InvalidHostname
            | Error::EmptyDomain | Error::InvalidDomain => ErrorKind::Validation,
            Error::NoListenAddresses => ErrorKind::Resource,
            Error::NoDefaultAuthtokenPath => ErrorKind::Configuration,
        }
    }
}

} // verus!
