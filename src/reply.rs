//! How the outcomes of the storage operations become handler replies.
use crate::error::{AxumError, StoreError};
use crate::text::append_text;
use vstd::prelude::*;

verus! {

/// The message for a key that holds no value.
pub open spec fn missing_key_text(key: Seq<char>) -> Seq<char> {
    "no "@ + key + " key"@
}

/// The reply to a GET of `key`: the value, a not-found error when the key
/// is absent, or the failure as an internal error.
pub fn get_reply(key: &str, outcome: Result<Option<Vec<u8>>, StoreError>) -> (r: Result<
    Vec<u8>,
    AxumError,
>)
    ensures
        match outcome {
            Ok(Some(v)) => r is Ok && r->Ok_0@ == v@,
            Ok(None) => r matches Err(AxumError::NotFound(m)) && m@ == missing_key_text(key@),
            Err(e) => r matches Err(AxumError::Internal(f)) && f == e,
        },
{
    match outcome {
        Ok(Some(v)) => Ok(v),
        Ok(None) => {
            let mut m = String::new();
            append_text(&mut m, "no ");
            append_text(&mut m, key);
            append_text(&mut m, " key");
            Err(AxumError::NotFound(m))
        },
        Err(e) => Err(AxumError::Internal(e)),
    }
}

/// The reply to a POST or DELETE: empty on success, the failure as an
/// internal error otherwise.
pub fn unit_reply(outcome: Result<(), StoreError>) -> (r: Result<(), AxumError>)
    ensures
        match outcome {
            Ok(()) => r is Ok,
            Err(e) => r matches Err(AxumError::Internal(f)) && f == e,
        },
{
    match outcome {
        Ok(()) => Ok(()),
        Err(e) => Err(AxumError::Internal(e)),
    }
}

} // verus!
