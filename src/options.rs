//! The process's startup options.
use vstd::prelude::*;

verus! {

/// The address the gateway listens on when none is given.
pub const DEFAULT_LISTEN: &'static str = "0.0.0.0:7777";

/// The options the gateway is started with.
#[derive(Clone, Debug)]
pub struct KVStoreOption {
    /// Log filters.
    pub logfilter: Option<String>,
    /// Listen address.
    pub listen: Option<String>,
    /// Connection string of the store.
    pub url: Option<String>,
}

impl KVStoreOption {
    /// The address to listen on: the given one, or the default.
    pub fn listen_address(&self) -> (r: String)
        ensures
            r@ == match self.listen {
                Some(l) => l@,
                None => DEFAULT_LISTEN@,
            },
    {
        match &self.listen {
            Some(l) => l.clone(),
            None => DEFAULT_LISTEN.to_string(),
        }
    }
}

} // verus!
