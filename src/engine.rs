//! The object storage target of the embedded engine, chosen from the
//! descriptor's scheme.
use crate::descriptor::{
    descriptor_of, location_of, location_or_default, parse_location, Descriptor, DescriptorView,
};
use crate::error::{ConfigFault, StoreError};
use crate::text::text_is;
use vstd::prelude::*;

verus! {

/// How the object store guards writes that overwrite an object.
#[derive(Clone, Copy, Debug, PartialEq, Eq, Structural)]
pub enum ConditionalPut {
    /// Overwrites must name the object's last-known ETag.
    ETagMatch,
}

/// A bucket of an S3-compatible object store.
#[derive(Clone, Debug)]
pub struct S3Target {
    pub bucket: String,
    /// Requests run without a timeout.
    pub timeout_disabled: bool,
    /// Plain HTTP endpoints are allowed.
    pub allow_http: bool,
    pub conditional_put: ConditionalPut,
}

/// The object store that holds the engine's files.
#[derive(Clone, Debug)]
pub enum ObjectTarget {
    /// The local file system, without conditional writes.
    Local,
    S3(S3Target),
}

/// Where the embedded engine keeps its data: an object store and a path
/// inside it.
#[derive(Clone, Debug)]
pub struct EngineTarget {
    pub store: ObjectTarget,
    pub root: String,
}

pub enum ObjectTargetView {
    Local,
    S3 { bucket: Seq<char>, timeout_disabled: bool, allow_http: bool, conditional_put: ConditionalPut },
}

pub struct EngineTargetView {
    pub store: ObjectTargetView,
    pub root: Seq<char>,
}

impl View for EngineTarget {
    type V = EngineTargetView;

    open spec fn view(&self) -> EngineTargetView {
        EngineTargetView {
            store: match self.store {
                ObjectTarget::Local => ObjectTargetView::Local,
                ObjectTarget::S3(t) => ObjectTargetView::S3 {
                    bucket: t.bucket@,
                    timeout_disabled: t.timeout_disabled,
                    allow_http: t.allow_http,
                    conditional_put: t.conditional_put,
                },
            },
            root: self.root@,
        }
    }
}

/// The target named by a descriptor: for `s3` its bucket, with timeouts off,
/// plain HTTP allowed and ETag-matched conditional writes; for `file` the
/// local file system. The engine is rooted at the descriptor's path.
pub open spec fn target_of(d: DescriptorView) -> Result<EngineTargetView, ConfigFault> {
    if d.scheme == "s3"@ {
        match d.host {
            Some(b) => Ok(
                EngineTargetView {
                    store: ObjectTargetView::S3 {
                        bucket: b,
                        timeout_disabled: true,
                        allow_http: true,
                        conditional_put: ConditionalPut::ETagMatch,
                    },
                    root: d.path,
                },
            ),
            None => Err(ConfigFault::MissingBucket),
        }
    } else if d.scheme == "file"@ {
        Ok(EngineTargetView { store: ObjectTargetView::Local, root: d.path })
    } else {
        Err(ConfigFault::UnsupportedScheme)
    }
}

/// A result against the outcome that `target_of` gives.
pub open spec fn is_target_result(
    r: Result<EngineTarget, StoreError>,
    t: Result<EngineTargetView, ConfigFault>,
) -> bool {
    match t {
        Ok(v) => r is Ok && r->Ok_0@ == v,
        Err(f) => r matches Err(StoreError::Config(g)) && g == f,
    }
}

/// Chooses the object store target for a descriptor.
pub fn select_target(d: &Descriptor) -> (r: Result<EngineTarget, StoreError>)
    ensures
        is_target_result(r, target_of(d@)),
{
    if text_is(&d.scheme, "s3") {
        match &d.host {
            Some(b) => Ok(
                EngineTarget {
                    store: ObjectTarget::S3(
                        S3Target {
                            bucket: b.clone(),
                            timeout_disabled: true,
                            allow_http: true,
                            conditional_put: ConditionalPut::ETagMatch,
                        },
                    ),
                    root: d.path.clone(),
                },
            ),
            None => Err(StoreError::Config(ConfigFault::MissingBucket)),
        }
    } else if text_is(&d.scheme, "file") {
        Ok(EngineTarget { store: ObjectTarget::Local, root: d.path.clone() })
    } else {
        Err(StoreError::Config(ConfigFault::UnsupportedScheme))
    }
}

/// The embedded engine adapter, as configured: the target that the engine
/// is opened on.
#[derive(Clone, Debug)]
pub struct KVSlateDB {
    pub target: EngineTarget,
}

impl KVSlateDB {
    /// Configures the adapter for a `file` or `s3` descriptor.
    pub fn try_new(url: Descriptor) -> (r: Result<KVSlateDB, StoreError>)
        ensures
            is_target_result(
                match r {
                    Ok(db) => Ok(db.target),
                    Err(e) => Err(e),
                },
                target_of(url@),
            ),
    {
        match select_target(&url) {
            Ok(target) => Ok(KVSlateDB { target }),
            Err(e) => Err(e),
        }
    }
}

/// The embedded engine on its own, configured from an optional connection
/// string.
#[derive(Clone, Debug)]
pub struct KVEngine {
    pub target: EngineTarget,
}

/// What a location resolves to as an engine target.
pub open spec fn engine_target_of(loc: Seq<char>) -> Result<EngineTargetView, ConfigFault> {
    match descriptor_of(loc) {
        Ok(d) => target_of(d),
        Err(f) => Err(f),
    }
}

impl KVEngine {
    /// Resolves the connection string (or the default location) to the
    /// engine's target.
    pub fn try_new(url: Option<String>) -> (r: Result<KVEngine, StoreError>)
        ensures
            is_target_result(
                match r {
                    Ok(e) => Ok(e.target),
                    Err(e) => Err(e),
                },
                engine_target_of(
                    location_of(
                        match url {
                            Some(s) => Some(s@),
                            None => None,
                        },
                    ),
                ),
            ),
    {
        let loc = location_or_default(url);
        let d = match parse_location(loc.as_str()) {
            Ok(d) => d,
            Err(e) => return Err(e),
        };
        match select_target(&d) {
            Ok(target) => Ok(KVEngine { target }),
            Err(e) => Err(e),
        }
    }
}

} // verus!
