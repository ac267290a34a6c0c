//! The error taxonomy of the storage layer and its rendering at the HTTP
//! boundary.
use crate::text::append_text;
use vstd::prelude::*;

verus! {

/// Why a connection string could not be turned into a backend.
#[derive(Clone, Copy, Debug, PartialEq, Eq, Structural)]
pub enum ConfigFault {
    /// The string is neither a URL nor an absolute path.
    Malformed,
    /// A bare path that is not absolute.
    RelativePath,
    /// A URL whose scheme names no backend.
    UnsupportedScheme,
    /// An `s3` URL without a bucket name.
    MissingBucket,
}

/// An operation of the storage layer that failed.
#[derive(Clone, Debug)]
pub enum StoreError {
    /// A bad connection string: fatal at startup.
    Config(ConfigFault),
    /// The embedded engine or its object store failed.
    Engine(String),
    /// A key or value is not the text that the transport requires.
    Encoding,
    /// Any other failure, such as a network error.
    Internal(String),
}

/// The outcome of a request handler that did not succeed.
#[derive(Clone, Debug)]
pub enum AxumError {
    Internal(StoreError),
    NotFound(String),
}

pub const STATUS_NOT_FOUND: u16 = 404;

pub const STATUS_INTERNAL: u16 = 500;

pub open spec fn config_fault_text(f: ConfigFault) -> Seq<char> {
    match f {
        ConfigFault::Malformed => "malformed connection string"@,
        ConfigFault::RelativePath => "could not parse relative path"@,
        ConfigFault::UnsupportedScheme => "invalid store scheme"@,
        ConfigFault::MissingBucket => "could not get bucket name"@,
    }
}

impl ConfigFault {
    pub fn describe(&self) -> (r: &'static str)
        ensures
            r@ == config_fault_text(*self),
    {
        match self {
            ConfigFault::Malformed => "malformed connection string",
            ConfigFault::RelativePath => "could not parse relative path",
            ConfigFault::UnsupportedScheme => "invalid store scheme",
            ConfigFault::MissingBucket => "could not get bucket name",
        }
    }
}

pub open spec fn store_error_text(e: StoreError) -> Seq<char> {
    match e {
        StoreError::Config(f) => "config error: "@ + config_fault_text(f),
        StoreError::Engine(m) => "engine error: "@ + m@,
        StoreError::Encoding => "encoding error: not valid UTF-8"@,
        StoreError::Internal(m) => m@,
    }
}

impl StoreError {
    /// A human-readable description of the error.
    pub fn describe(&self) -> (r: String)
        ensures
            r@ == store_error_text(*self),
    {
        match self {
            StoreError::Config(f) => {
                let mut s = String::new();
                append_text(&mut s, "config error: ");
                append_text(&mut s, f.describe());
                s
            },
            StoreError::Engine(m) => {
                let mut s = String::new();
                append_text(&mut s, "engine error: ");
                append_text(&mut s, m.as_str());
                s
            },
            StoreError::Encoding => {
                let mut s = String::new();
                append_text(&mut s, "encoding error: not valid UTF-8");
                s
            },
            StoreError::Internal(m) => m.clone(),
        }
    }
}

impl AxumError {
    /// The status code and body that the HTTP layer answers with.
    pub fn into_response(self) -> (r: (u16, String))
        ensures
            match self {
                AxumError::Internal(e) => r.0 == STATUS_INTERNAL && r.1@ == "internal error: "@
                    + store_error_text(e),
                AxumError::NotFound(m) => r.0 == STATUS_NOT_FOUND && r.1@ == m@,
            },
    {
        match self {
            AxumError::Internal(e) => {
                let mut s = String::new();
                append_text(&mut s, "internal error: ");
                let d = e.describe();
                append_text(&mut s, d.as_str());
                (STATUS_INTERNAL, s)
            },
            AxumError::NotFound(m) => (STATUS_NOT_FOUND, m),
        }
    }
}

impl From<StoreError> for AxumError {
    fn from(e: StoreError) -> (r: AxumError) {
        AxumError::Internal(e)
    }
}

impl vstd::std_specs::convert::FromSpecImpl<StoreError> for AxumError {
    open spec fn obeys_from_spec() -> bool {
        true
    }

    open spec fn from_spec(e: StoreError) -> AxumError {
        AxumError::Internal(e)
    }
}

} // verus!
