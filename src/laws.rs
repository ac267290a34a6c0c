//! Properties that relate the operations of the backends.
use crate::restdb::{
    get_outcome_of, is_request_result, key_target, set_body_of, HttpMethod, HttpRequest, KVRestDB,
};
use crate::store::{is_remote_plan, Action, Operation};
use crate::error::{StoreError, STATUS_NOT_FOUND};
use crate::text::utf8_decode_of;
use vstd::prelude::*;

verus! {

/// Round trip through the remote adapter: the set and the get of one key
/// are planned alike and address the same resource, the set sends a text
/// value verbatim, and a get whose response carries that body with any
/// status but 404 returns the value.
pub proof fn lemma_remote_round_trip(
    db: KVRestDB,
    k: Seq<u8>,
    v: Seq<u8>,
    set_r: Result<HttpRequest, StoreError>,
    get_r: Result<HttpRequest, StoreError>,
    status: u16,
)
    requires
        is_request_result(set_r, key_target(db.url.text@, k), HttpMethod::Post, set_body_of(v)),
        is_request_result(get_r, key_target(db.url.text@, k), HttpMethod::Get, Some(Seq::empty())),
        utf8_decode_of(v) is Some,
        status != STATUS_NOT_FOUND,
    ensures
        set_r is Ok <==> get_r is Ok,
        set_r is Ok ==> get_r->Ok_0.url@ == set_r->Ok_0.url@ && set_r->Ok_0.body@ == v
            && get_outcome_of(status, set_r->Ok_0.body@) == Some(v),
{
}

/// Absence through the remote adapter: a get whose response is a 404 returns
/// absent, not an error, whatever the body.
pub proof fn lemma_remote_absence(body: Seq<u8>)
    ensures
        get_outcome_of(STATUS_NOT_FOUND, body) is None,
{
}

/// The encoding boundary of the remote adapter: a key that is not UTF-8
/// text, or a set's value that is not, fails with an encoding error, and no
/// request is planned.
pub proof fn lemma_remote_encoding_boundary(db: KVRestDB, op: Operation, r: Result<Action, StoreError>)
    requires
        is_remote_plan(r, db, op),
        match op {
            Operation::Put(k, v) => utf8_decode_of(k@) is None || (!(key_target(db.url.text@, k@) is Unjoinable)
                && utf8_decode_of(v@) is None),
            Operation::Get(k) => utf8_decode_of(k@) is None,
            Operation::Delete(k) => utf8_decode_of(k@) is None,
            Operation::Flush => false,
        },
    ensures
        r matches Err(StoreError::Encoding),
{
}

/// Deleting through the remote adapter needs nothing of the key's presence:
/// for a key that is text and resolves under the base URL, the delete is
/// always planned, as a request whose response is not inspected.
pub proof fn lemma_remote_delete_planned(db: KVRestDB, op: Operation, r: Result<Action, StoreError>)
    requires
        is_remote_plan(r, db, op),
        op matches Operation::Delete(k) && key_target(db.url.text@, k@) is At,
    ensures
        r matches Ok(Action::Http(_)),
{
}

} // verus!
