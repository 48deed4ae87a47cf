//! The error taxonomy, and its mapping onto HTTP status codes.
//!
//! Errors cross component boundaries as values, each wrapped with a kind
//! that distinguishes where it arose; the HTTP boundary maps every kind to
//! exactly one status code and leaks no internal detail for server errors.

use vstd::prelude::*;

verus! {

/// What went wrong inside the directory cache or the upstream fetch it
/// delegates to.  Each backend failure carries the underlying cause.
#[derive(Debug, PartialEq, Eq)]
pub enum DeviceRepoError {
    /// The cache backend was unreachable.
    Connection(String),
    /// The backend was reachable but reading the directory key failed.
    GetKey(String),
    /// The backend was reachable but writing the directory key failed.
    SetKey(String),
    /// Writing the health sentinel key failed.
    HealthCheck(String),
    /// The upstream vendor API call failed.
    Upstream(String),
    /// The stored payload does not decode to a directory.
    Serialization,
}

/// A request-level failure, as the HTTP boundary sees it.
#[derive(Debug, PartialEq, Eq)]
pub enum Error {
    /// The command payload named a color that does not parse.
    InvalidColor(String),
    /// Identifier resolution found no device.
    DeviceNotFound(String),
    /// The directory cache or the upstream client failed.
    Repo(DeviceRepoError),
}

/// The status code each error kind maps to: invalid input is the caller's
/// fault, an unresolved identifier is absence, everything else is a server
/// error with no detail leaked.
pub open spec fn status_code_of(e: Error) -> u16 {
    match e {
        Error::InvalidColor(_) => 400u16,
        Error::DeviceNotFound(_) => 404u16,
        Error::Repo(_) => 500u16,
    }
}

impl Error {
    /// The HTTP status code this error is reported with.
    pub fn status_code(&self) -> (c: u16)
        ensures
            c == status_code_of(*self),
    {
        match self {
            Error::InvalidColor(_) => 400,
            Error::DeviceNotFound(_) => 404,
            Error::Repo(_) => 500,
        }
    }

    /// The response body this error is reported with.  Client-visible kinds
    /// name the offending input; server errors expose a fixed opaque string.
    pub fn response_message(&self) -> (m: String)
        ensures
            match *self {
                Error::InvalidColor(c) => m@ == "Invalid color '"@ + c@ + "'"@,
                Error::DeviceNotFound(d) => m@ == "Unknown device '"@ + d@ + "'"@,
                Error::Repo(_) => m@ == "UNHANDLED_SERVER_ERROR"@,
            },
    {
        match self {
            Error::InvalidColor(c) => {
                let mut m = String::from_str("Invalid color '");
                m.append(c.as_str());
                m.append("'");
                m
            },
            Error::DeviceNotFound(d) => {
                let mut m = String::from_str("Unknown device '");
                m.append(d.as_str());
                m.append("'");
                m
            },
            Error::Repo(_) => String::from_str("UNHANDLED_SERVER_ERROR"),
        }
    }
}

} // verus!
