//! Error categories of the rendering core.
//!
//! Configuration errors are surfaced before any output line is produced and
//! are fatal at startup or override time; internal errors indicate a defect
//! in a collaborator and abort composition of the current line.

use vstd::prelude::*;

verus! {

/// Every failure the rendering core can report.
#[derive(Debug, Clone, PartialEq, Eq)]
pub enum Error {
    /// A configuration input was rejected; the payload is the offending
    /// override key.
    ConfigurationError(String),
    /// A collaborator broke an invariant the core relies on; the payload
    /// describes the defect.
    InternalError(String),
    /// A color literal was malformed; the payload is the offending substring.
    InvalidColor(String),
    /// A template placeholder had no entry in the variable mapping; the
    /// payload is the placeholder token.
    UnknownPlaceholder(String),
}

impl Error {
    /// The text carried by the error, for hosts that want to display it.
    pub fn message(&self) -> (msg: &String)
        ensures
            msg == match self {
                Error::ConfigurationError(s) => s,
                Error::InternalError(s) => s,
                Error::InvalidColor(s) => s,
                Error::UnknownPlaceholder(s) => s,
            },
    {
        match self {
            Error::ConfigurationError(s) => s,
            Error::InternalError(s) => s,
            Error::InvalidColor(s) => s,
            Error::UnknownPlaceholder(s) => s,
        }
    }
}

} // verus!
