//! The library's error kinds.

use vstd::prelude::*;

verus! {

/// What went wrong, with a human-readable detail.
///
/// `Parse` is a structurally malformed input (it could not be decoded);
/// `CdmValidation` is a well-formed record that breaks a domain rule.
#[derive(Clone, Debug, PartialEq, Eq)]
pub enum Error {
    Config(String),
    Io(String),
    Yaml(String),
    Parse(String),
    CdmValidation(String),
    Protocol(String),
    Peer(String),
    Storage(String),
    NotFound(String),
    AlreadyExists(String),
    Http(String),
    Internal(String),
}

/// The text that the error's message starts with.
pub open spec fn error_prefix(e: Error) -> Seq<char> {
    match e {
        Error::Config(_) => "Configuration error: "@,
        Error::Io(_) => "IO error: "@,
        Error::Yaml(_) => "YAML parsing error: "@,
        Error::Parse(_) => "JSON parsing error: "@,
        Error::CdmValidation(_) => "CDM validation error: "@,
        Error::Protocol(_) => "Protocol error: "@,
        Error::Peer(_) => "Peer error: "@,
        Error::Storage(_) => "Storage error: "@,
        Error::NotFound(_) => "Not found: "@,
        Error::AlreadyExists(_) => "Already exists: "@,
        Error::Http(_) => "HTTP client error: "@,
        Error::Internal(_) => "Internal error: "@,
    }
}

/// The detail that the error carries.
pub open spec fn error_detail(e: Error) -> Seq<char> {
    match e {
        Error::Config(s) => s@,
        Error::Io(s) => s@,
        Error::Yaml(s) => s@,
        Error::Parse(s) => s@,
        Error::CdmValidation(s) => s@,
        Error::Protocol(s) => s@,
        Error::Peer(s) => s@,
        Error::Storage(s) => s@,
        Error::NotFound(s) => s@,
        Error::AlreadyExists(s) => s@,
        Error::Http(s) => s@,
        Error::Internal(s) => s@,
    }
}

impl Error {
    /// True for `NotFound`.
    pub fn is_not_found(&self) -> (r: bool)
        ensures
            r == (*self is NotFound),
    {
        match self {
            Error::NotFound(_) => true,
            _ => false,
        }
    }

    /// True for `CdmValidation`.
    pub fn is_validation(&self) -> (r: bool)
        ensures
            r == (*self is CdmValidation),
    {
        match self {
            Error::CdmValidation(_) => true,
            _ => false,
        }
    }

    /// The detail that the error carries.
    pub fn detail(&self) -> (r: &str)
        ensures
            r@ == error_detail(*self),
    {
        match self {
            Error::Config(s) => s.as_str(),
            Error::Io(s) => s.as_str(),
            Error::Yaml(s) => s.as_str(),
            Error::Parse(s) => s.as_str(),
            Error::CdmValidation(s) => s.as_str(),
            Error::Protocol(s) => s.as_str(),
            Error::Peer(s) => s.as_str(),
            Error::Storage(s) => s.as_str(),
            Error::NotFound(s) => s.as_str(),
            Error::AlreadyExists(s) => s.as_str(),
            Error::Http(s) => s.as_str(),
            Error::Internal(s) => s.as_str(),
        }
    }

    /// The error as a sentence: its kind, then its detail.
    pub fn message(&self) -> (r: String)
        ensures
            r@ == error_prefix(*self) + error_detail(*self),
    {
        let prefix = match self {
            Error::Config(_) => String::from_str("Configuration error: "),
            Error::Io(_) => String::from_str("IO error: "),
            Error::Yaml(_) => String::from_str("YAML parsing error: "),
            Error::Parse(_) => String::from_str("JSON parsing error: "),
            Error::CdmValidation(_) => String::from_str("CDM validation error: "),
            Error::Protocol(_) => String::from_str("Protocol error: "),
            Error::Peer(_) => String::from_str("Peer error: "),
            Error::Storage(_) => String::from_str("Storage error: "),
            Error::NotFound(_) => String::from_str("Not found: "),
            Error::AlreadyExists(_) => String::from_str("Already exists: "),
            Error::Http(_) => String::from_str("HTTP client error: "),
            Error::Internal(_) => String::from_str("Internal error: "),
        };
        prefix.concat(self.detail())
    }
}

} // verus!
