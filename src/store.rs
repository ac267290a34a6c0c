//! The backend selector and the capability interface: one backend, chosen
//! once from the connection string, that each operation is dispatched to.
use crate::descriptor::{descriptor_of, location_of, location_or_default, parse_location, Descriptor, DescriptorView};
use crate::engine::{target_of, KVSlateDB};
use crate::error::{ConfigFault, StoreError};
use crate::restdb::{is_request_result, key_target, set_body_of, HttpMethod, HttpRequest, KVRestDB};
use crate::text::text_is;
use vstd::prelude::*;

verus! {

/// The kinds of backend.
#[derive(Clone, Copy, Debug, PartialEq, Eq, Structural)]
pub enum BackendKind {
    /// The embedded engine on local or object storage (`file`, `s3`).
    Embedded,
    /// Another instance of the service over HTTP (`http`, `https`).
    Remote,
}

/// The backend kind that a scheme names, if any.
pub open spec fn kind_of(scheme: Seq<char>) -> Option<BackendKind> {
    if scheme == "s3"@ || scheme == "file"@ {
        Some(BackendKind::Embedded)
    } else if scheme == "http"@ || scheme == "https"@ {
        Some(BackendKind::Remote)
    } else {
        None
    }
}

/// The storage capability handle: one of the two adapters.
#[derive(Clone, Debug)]
pub enum Backend {
    Embedded(KVSlateDB),
    Remote(KVRestDB),
}

/// A backend result against the descriptor it was built from: the embedded
/// adapter on the descriptor's target, or the remote adapter on its URL, or
/// a configuration error.
pub open spec fn is_backend_result(r: Result<Backend, StoreError>, d: DescriptorView) -> bool {
    match kind_of(d.scheme) {
        Some(BackendKind::Embedded) => match target_of(d) {
            Ok(t) => r matches Ok(Backend::Embedded(db)) && db.target@ == t,
            Err(f) => r matches Err(StoreError::Config(g)) && g == f,
        },
        Some(BackendKind::Remote) => r matches Ok(Backend::Remote(db)) && db.url@ == d,
        None => r matches Err(StoreError::Config(ConfigFault::UnsupportedScheme)),
    }
}

/// The entry point that builds the backend.
#[derive(Clone, Debug)]
pub struct KVStore {}

impl KVStore {
    /// Builds the backend for a connection string, or for the default
    /// location where none is given.
    pub fn try_new(url: Option<String>) -> (r: Result<Backend, StoreError>)
        ensures
            match descriptor_of(
                location_of(
                    match url {
                        Some(s) => Some(s@),
                        None => None,
                    },
                ),
            ) {
                Ok(d) => is_backend_result(r, d),
                Err(f) => r matches Err(StoreError::Config(g)) && g == f,
            },
    {
        let loc = location_or_default(url);
        match parse_location(loc.as_str()) {
            Ok(d) => KVStore::from_descriptor(d),
            Err(e) => Err(e),
        }
    }

    /// Builds the backend that a descriptor's scheme names.
    pub fn from_descriptor(d: Descriptor) -> (r: Result<Backend, StoreError>)
        ensures
            is_backend_result(r, d@),
    {
        if text_is(&d.scheme, "s3") || text_is(&d.scheme, "file") {
            match KVSlateDB::try_new(d) {
                Ok(db) => Ok(Backend::Embedded(db)),
                Err(e) => Err(e),
            }
        } else if text_is(&d.scheme, "http") || text_is(&d.scheme, "https") {
            match KVRestDB::try_new(d) {
                Ok(db) => Ok(Backend::Remote(db)),
                Err(e) => Err(e),
            }
        } else {
            Err(StoreError::Config(ConfigFault::UnsupportedScheme))
        }
    }
}

/// An operation of the capability interface.
#[derive(Clone, Debug)]
pub enum Operation {
    Put(Vec<u8>, Vec<u8>),
    Get(Vec<u8>),
    Delete(Vec<u8>),
    Flush,
}

/// What carrying out an operation takes.
#[derive(Clone, Debug)]
pub enum Action {
    /// Hand the operation to the embedded engine as it is.
    Engine,
    /// Send this request to the remote instance.
    Http(HttpRequest),
    /// Nothing: the operation has succeeded.
    Done,
}

/// A planned remote request against what the remote adapter owes for the
/// operation.
pub open spec fn is_remote_plan(r: Result<Action, StoreError>, db: KVRestDB, op: Operation) -> bool {
    let as_request = match r {
        Ok(Action::Http(q)) => Ok(q),
        Ok(_) => Err(StoreError::Encoding),
        Err(e) => Err(e),
    };
    match op {
        Operation::Put(k, v) => is_request_result(
            as_request,
            key_target(db.url.text@, k@),
            HttpMethod::Post,
            set_body_of(v@),
        ) && !(r matches Ok(Action::Engine)) && !(r matches Ok(Action::Done)),
        Operation::Get(k) => is_request_result(
            as_request,
            key_target(db.url.text@, k@),
            HttpMethod::Get,
            Some(Seq::empty()),
        ) && !(r matches Ok(Action::Engine)) && !(r matches Ok(Action::Done)),
        Operation::Delete(k) => is_request_result(
            as_request,
            key_target(db.url.text@, k@),
            HttpMethod::Delete,
            Some(Seq::empty()),
        ) && !(r matches Ok(Action::Engine)) && !(r matches Ok(Action::Done)),
        Operation::Flush => r matches Ok(Action::Done),
    }
}

impl Backend {
    pub fn kind(&self) -> (r: BackendKind)
        ensures
            r == match self {
                Backend::Embedded(_) => BackendKind::Embedded,
                Backend::Remote(_) => BackendKind::Remote,
            },
    {
        match self {
            Backend::Embedded(_) => BackendKind::Embedded,
            Backend::Remote(_) => BackendKind::Remote,
        }
    }

    /// What carrying out `op` takes on this backend. The embedded engine
    /// takes every operation as it is, whatever bytes it holds; the remote
    /// adapter refuses keys and values that are not UTF-8 text before any
    /// request exists.
    pub fn plan(&self, op: &Operation) -> (r: Result<Action, StoreError>)
        ensures
            match self {
                Backend::Embedded(_) => r matches Ok(Action::Engine),
                Backend::Remote(db) => is_remote_plan(r, *db, *op),
            },
    {
        match self {
            Backend::Embedded(_) => Ok(Action::Engine),
            Backend::Remote(db) => {
                let q = match op {
                    Operation::Put(k, v) => db.set_request(k.as_slice(), v.as_slice()),
                    Operation::Get(k) => db.get_request(k.as_slice()),
                    Operation::Delete(k) => db.delete_request(k.as_slice()),
                    Operation::Flush => return Ok(Action::Done),
                };
                match q {
                    Ok(q) => Ok(Action::Http(q)),
                    Err(e) => Err(e),
                }
            },
        }
    }
}

} // verus!
