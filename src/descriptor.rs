//! The connection descriptor: a connection string parsed into its scheme,
//! host, path and full URL text.
use crate::error::{ConfigFault, StoreError};
use vstd::prelude::*;

verus! {

/// The location used when no connection string is given.
pub const DEFAULT_LOCATION: &'static str = "/tmp/kvstore";

/// How the URL parser rejected a string.
#[derive(Clone, Copy, Debug, PartialEq, Eq, Structural)]
pub enum UrlFault {
    /// The string is a relative reference, such as a bare path.
    RelativeWithoutBase,
    /// Any other malformation.
    Malformed,
}

/// A parsed connection string.
#[derive(Clone, Debug)]
pub struct Descriptor {
    /// The scheme, in lower case.
    pub scheme: String,
    /// The host, or for `s3` the bucket name.
    pub host: Option<String>,
    /// The path, beginning with `/` for hierarchical URLs.
    pub path: String,
    /// The whole URL, serialized.
    pub text: String,
}

/// The mathematical content of a [`Descriptor`].
pub struct DescriptorView {
    pub scheme: Seq<char>,
    pub host: Option<Seq<char>>,
    pub path: Seq<char>,
    pub text: Seq<char>,
}

impl View for Descriptor {
    type V = DescriptorView;

    open spec fn view(&self) -> DescriptorView {
        DescriptorView {
            scheme: self.scheme@,
            host: match self.host {
                Some(h) => Some(h@),
                None => None,
            },
            path: self.path@,
            text: self.text@,
        }
    }
}

/// What `url::Url::parse` makes of a string.
pub uninterp spec fn url_parse_of(s: Seq<char>) -> Result<DescriptorView, UrlFault>;

/// What `url::Url::from_file_path` makes of a path.
pub uninterp spec fn url_from_file_path_of(s: Seq<char>) -> Option<DescriptorView>;

pub open spec fn parsed_view(r: Result<Descriptor, UrlFault>) -> Result<DescriptorView, UrlFault> {
    match r {
        Ok(d) => Ok(d@),
        Err(f) => Err(f),
    }
}

pub open spec fn path_view(r: Option<Descriptor>) -> Option<DescriptorView> {
    match r {
        Some(d) => Some(d@),
        None => None,
    }
}

/// Relies on url::Url::parse, and on its accessors for the scheme, host,
/// path and serialization; a bare path is refused as a relative reference.
#[verifier::external_body]
fn url_parse(s: &str) -> (r: Result<Descriptor, UrlFault>)
    ensures
        parsed_view(r) == url_parse_of(s@),
{
    match url::Url::parse(s) {
        Ok(u) => Ok(Descriptor {
            scheme: u.scheme().to_string(),
            host: u.host_str().map(|h| h.to_string()),
            path: u.path().to_string(),
            text: u.as_str().to_string(),
        }),
        Err(url::ParseError::RelativeUrlWithoutBase) => Err(UrlFault::RelativeWithoutBase),
        Err(_) => Err(UrlFault::Malformed),
    }
}

/// Relies on url::Url::from_file_path: it builds a `file` URL, and refuses a
/// path that is not absolute.
#[verifier::external_body]
fn url_from_file_path(s: &str) -> (r: Option<Descriptor>)
    ensures
        path_view(r) == url_from_file_path_of(s@),
        r is Some ==> r->0.scheme@ == "file"@,
        s@.len() == 0 || s@[0] != '/' ==> r is None,
{
    match url::Url::from_file_path(s) {
        Ok(u) => Some(Descriptor {
            scheme: u.scheme().to_string(),
            host: u.host_str().map(|h| h.to_string()),
            path: u.path().to_string(),
            text: u.as_str().to_string(),
        }),
        Err(()) => None,
    }
}

/// The location named by an optional connection string.
pub open spec fn location_of(url: Option<Seq<char>>) -> Seq<char> {
    match url {
        Some(s) => s,
        None => DEFAULT_LOCATION@,
    }
}

/// The descriptor of a location: its URL, or for a bare path the `file` URL
/// of that path.
pub open spec fn descriptor_of(loc: Seq<char>) -> Result<DescriptorView, ConfigFault> {
    match url_parse_of(loc) {
        Ok(d) => Ok(d),
        Err(UrlFault::RelativeWithoutBase) => match url_from_file_path_of(loc) {
            Some(d) => Ok(d),
            None => Err(ConfigFault::RelativePath),
        },
        Err(UrlFault::Malformed) => Err(ConfigFault::Malformed),
    }
}

/// The given connection string, or the default location.
pub fn location_or_default(url: Option<String>) -> (r: String)
    ensures
        r@ == location_of(
            match url {
                Some(s) => Some(s@),
                None => None,
            },
        ),
{
    match url {
        Some(s) => s,
        None => DEFAULT_LOCATION.to_string(),
    }
}

/// Parses a location into a descriptor.
pub fn parse_location(loc: &str) -> (r: Result<Descriptor, StoreError>)
    ensures
        match descriptor_of(loc@) {
            Ok(d) => r is Ok && r->Ok_0@ == d,
            Err(f) => r matches Err(StoreError::Config(g)) && g == f,
        },
{
    match url_parse(loc) {
        Ok(d) => Ok(d),
        Err(UrlFault::RelativeWithoutBase) => match url_from_file_path(loc) {
            Some(d) => Ok(d),
            None => Err(StoreError::Config(ConfigFault::RelativePath)),
        },
        Err(UrlFault::Malformed) => Err(StoreError::Config(ConfigFault::Malformed)),
    }
}

} // verus!
