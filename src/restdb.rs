//! The remote proxy adapter: each operation becomes one HTTP request to
//! another instance of the service, at `/keys/<key>` under the base URL.
use crate::descriptor::Descriptor;
use crate::error::{StoreError, STATUS_NOT_FOUND};
use crate::text::{append_text, copy_bytes, decode_utf8, utf8_decode_of};
use vstd::prelude::*;

verus! {

/// What `url::Url::join` makes of a reference against the URL whose text is
/// `base`.
pub uninterp spec fn url_join_of(base: Seq<char>, input: Seq<char>) -> Option<Seq<char>>;

/// Relies on url::Url::parse and url::Url::join: the base text is parsed
/// back into its URL and the reference is resolved against it; the result is
/// the serialized URL, or nothing where resolution fails.
#[verifier::external_body]
fn url_join(base: &str, input: &str) -> (r: Option<String>)
    ensures
        r is Some ==> url_join_of(base@, input@) == Some(r->0@),
        r is None ==> url_join_of(base@, input@) is None,
{
    match url::Url::parse(base) {
        Ok(u) => match u.join(input) {
            Ok(j) => Some(j.to_string()),
            Err(_) => None,
        },
        Err(_) => None,
    }
}

#[derive(Clone, Copy, Debug, PartialEq, Eq, Structural)]
pub enum HttpMethod {
    Get,
    Post,
    Delete,
}

/// An outbound HTTP request.
#[derive(Clone, Debug)]
pub struct HttpRequest {
    pub method: HttpMethod,
    pub url: String,
    pub body: Vec<u8>,
}

/// The path of a key's resource.
pub open spec fn key_path(key_text: Seq<char>) -> Seq<char> {
    "/keys/"@ + key_text
}

/// Where a key's resource lies under a base URL.
pub enum KeyTarget {
    /// The key is not valid UTF-8.
    Unencodable,
    /// The key's path does not resolve against the base URL.
    Unjoinable,
    At(Seq<char>),
}

pub open spec fn key_target(base: Seq<char>, key: Seq<u8>) -> KeyTarget {
    match utf8_decode_of(key) {
        None => KeyTarget::Unencodable,
        Some(t) => match url_join_of(base, key_path(t)) {
            None => KeyTarget::Unjoinable,
            Some(u) => KeyTarget::At(u),
        },
    }
}

/// A request result against the key's target and the body to send, where
/// `body` is `None` for a body that is not valid UTF-8.
pub open spec fn is_request_result(
    r: Result<HttpRequest, StoreError>,
    target: KeyTarget,
    method: HttpMethod,
    body: Option<Seq<u8>>,
) -> bool {
    match target {
        KeyTarget::Unencodable => r matches Err(StoreError::Encoding),
        KeyTarget::Unjoinable => r matches Err(StoreError::Internal(_)),
        KeyTarget::At(u) => match body {
            None => r matches Err(StoreError::Encoding),
            Some(b) => r is Ok && r->Ok_0.method == method && r->Ok_0.url@ == u && r->Ok_0.body@
                == b,
        },
    }
}

/// The body that a set sends for a value: the value itself where it is
/// valid UTF-8 text.
pub open spec fn set_body_of(value: Seq<u8>) -> Option<Seq<u8>> {
    if utf8_decode_of(value) is Some {
        Some(value)
    } else {
        None
    }
}

/// The value that a get returns for a response: absent on 404, and the body
/// verbatim on any other status.
pub open spec fn get_outcome_of(status: u16, body: Seq<u8>) -> Option<Seq<u8>> {
    if status == STATUS_NOT_FOUND {
        None
    } else {
        Some(body)
    }
}

/// The remote proxy adapter: a base URL that keys are resolved against.
#[derive(Clone, Debug)]
pub struct KVRestDB {
    pub url: Descriptor,
}

impl KVRestDB {
    pub fn try_new(url: Descriptor) -> (r: Result<KVRestDB, StoreError>)
        ensures
            r is Ok && r->Ok_0.url@ == url@,
    {
        Ok(KVRestDB { url })
    }

    /// The URL of a key's resource.
    pub fn key_url(&self, key: &[u8]) -> (r: Result<String, StoreError>)
        ensures
            match key_target(self.url.text@, key@) {
                KeyTarget::Unencodable => r matches Err(StoreError::Encoding),
                KeyTarget::Unjoinable => r matches Err(StoreError::Internal(_)),
                KeyTarget::At(u) => r is Ok && r->Ok_0@ == u,
            },
    {
        let key_text = match decode_utf8(key) {
            Some(t) => t,
            None => return Err(StoreError::Encoding),
        };
        let mut path = String::new();
        append_text(&mut path, "/keys/");
        append_text(&mut path, key_text.as_str());
        match url_join(self.url.text.as_str(), path.as_str()) {
            Some(u) => Ok(u),
            None => Err(StoreError::Internal("could not join the key to the base URL".to_string())),
        }
    }

    /// The POST that stores `value` under `key`; the value travels as text.
    pub fn set_request(&self, key: &[u8], value: &[u8]) -> (r: Result<HttpRequest, StoreError>)
        ensures
            is_request_result(r, key_target(self.url.text@, key@), HttpMethod::Post, set_body_of(value@)),
    {
        let url = match self.key_url(key) {
            Ok(u) => u,
            Err(e) => return Err(e),
        };
        match decode_utf8(value) {
            Some(_) => Ok(HttpRequest { method: HttpMethod::Post, url, body: copy_bytes(value) }),
            None => Err(StoreError::Encoding),
        }
    }

    /// The GET that reads `key`.
    pub fn get_request(&self, key: &[u8]) -> (r: Result<HttpRequest, StoreError>)
        ensures
            is_request_result(r, key_target(self.url.text@, key@), HttpMethod::Get, Some(Seq::empty())),
    {
        match self.key_url(key) {
            Ok(url) => Ok(HttpRequest { method: HttpMethod::Get, url, body: Vec::new() }),
            Err(e) => Err(e),
        }
    }

    /// The DELETE that removes `key`; its response is not inspected.
    pub fn delete_request(&self, key: &[u8]) -> (r: Result<HttpRequest, StoreError>)
        ensures
            is_request_result(r, key_target(self.url.text@, key@), HttpMethod::Delete, Some(Seq::empty())),
    {
        match self.key_url(key) {
            Ok(url) => Ok(HttpRequest { method: HttpMethod::Delete, url, body: Vec::new() }),
            Err(e) => Err(e),
        }
    }

    /// The result of a get from the remote's response.
    pub fn get_outcome(status: u16, body: Vec<u8>) -> (r: Option<Vec<u8>>)
        ensures
            match get_outcome_of(status, body@) {
                Some(b) => r is Some && r->0@ == b,
                None => r is None,
            },
    {
        if status == STATUS_NOT_FOUND {
            None
        } else {
            Some(body)
        }
    }

    /// Durability of the remote store is not this adapter's to force.
    pub fn flush(&self) -> (r: Result<(), StoreError>)
        ensures
            r is Ok,
    {
        Ok(())
    }
}

} // verus!
