use kvstore::options::KVStoreOption;
use kvstore::restdb::KVRestDB;
use kvstore::store::{Backend, KVStore};

#[test]
fn listen_address_defaults() {
    let o = KVStoreOption { logfilter: None, listen: None, url: None };
    assert_eq!(o.listen_address(), "0.0.0.0:7777");
}

#[test]
fn listen_address_given() {
    let o = KVStoreOption { logfilter: None, listen: Some("127.0.0.1:8080".to_string()), url: None };
    assert_eq!(o.listen_address(), "127.0.0.1:8080");
}

#[test]
fn remote_round_trip_of_text_value() {
    let db = match KVStore::try_new(Some("http://backend:7777".to_string())) {
        Ok(Backend::Remote(db)) => db,
        _ => panic!("expected the remote adapter"),
    };
    let set = db.set_request(b"a", "v\u{e9}".as_bytes()).unwrap();
    let get = db.get_request(b"a").unwrap();
    assert_eq!(set.url, get.url);
    assert_eq!(KVRestDB::get_outcome(200, set.body), Some("v\u{e9}".as_bytes().to_vec()));
}

#[test]
fn remote_absent_after_delete() {
    let db = match KVStore::try_new(Some("http://backend:7777".to_string())) {
        Ok(Backend::Remote(db)) => db,
        _ => panic!("expected the remote adapter"),
    };
    let del = db.delete_request(b"never-set").unwrap();
    assert_eq!(del.url, "http://backend:7777/keys/never-set");
    assert_eq!(KVRestDB::get_outcome(404, Vec::new()), None);
}
