use kvstore::engine::{ConditionalPut, KVEngine, ObjectTarget};
use kvstore::error::{ConfigFault, StoreError};
use kvstore::restdb::{HttpMethod, KVRestDB};
use kvstore::store::{Action, Backend, BackendKind, KVStore, Operation};

fn remote(url: &str) -> KVRestDB {
    match KVStore::try_new(Some(url.to_string())) {
        Ok(Backend::Remote(db)) => db,
        _ => panic!("expected the remote adapter"),
    }
}

#[test]
fn file_url_selects_local_engine() {
    match KVStore::try_new(Some("file:///tmp/t1".to_string())) {
        Ok(Backend::Embedded(db)) => {
            assert!(matches!(db.target.store, ObjectTarget::Local));
            assert_eq!(db.target.root, "/tmp/t1");
        }
        _ => panic!("expected the embedded adapter"),
    }
}

#[test]
fn default_location_is_local_temp_dir() {
    match KVStore::try_new(None) {
        Ok(Backend::Embedded(db)) => {
            assert!(matches!(db.target.store, ObjectTarget::Local));
            assert_eq!(db.target.root, "/tmp/kvstore");
        }
        _ => panic!("expected the embedded adapter"),
    }
}

#[test]
fn bare_absolute_path_becomes_file_url() {
    let b = KVStore::try_new(Some("/var/data/kv".to_string())).unwrap();
    assert_eq!(b.kind(), BackendKind::Embedded);
    match b {
        Backend::Embedded(db) => assert_eq!(db.target.root, "/var/data/kv"),
        _ => unreachable!(),
    }
}

#[test]
fn relative_path_is_config_error() {
    let r = KVStore::try_new(Some("relative/dir".to_string()));
    assert!(matches!(r, Err(StoreError::Config(ConfigFault::RelativePath))));
}

#[test]
fn malformed_url_is_config_error() {
    let r = KVStore::try_new(Some("http://[::1".to_string()));
    assert!(matches!(r, Err(StoreError::Config(ConfigFault::Malformed))));
}

#[test]
fn unknown_scheme_is_config_error() {
    let r = KVStore::try_new(Some("ftp://host/dir".to_string()));
    assert!(matches!(r, Err(StoreError::Config(ConfigFault::UnsupportedScheme))));
}

#[test]
fn s3_url_selects_bucket_with_conditional_writes() {
    match KVStore::try_new(Some("s3://bucket/prefix".to_string())) {
        Ok(Backend::Embedded(db)) => {
            match db.target.store {
                ObjectTarget::S3(t) => {
                    assert_eq!(t.bucket, "bucket");
                    assert!(t.timeout_disabled);
                    assert!(t.allow_http);
                    assert_eq!(t.conditional_put, ConditionalPut::ETagMatch);
                }
                _ => panic!("expected an S3 target"),
            }
            assert_eq!(db.target.root, "/prefix");
        }
        _ => panic!("expected the embedded adapter"),
    }
}

#[test]
fn engine_resolves_default_location() {
    let e = KVEngine::try_new(None).unwrap();
    assert!(matches!(e.target.store, ObjectTarget::Local));
    assert_eq!(e.target.root, "/tmp/kvstore");
}

#[test]
fn engine_refuses_http_scheme() {
    let r = KVEngine::try_new(Some("http://backend:7777".to_string()));
    assert!(matches!(r, Err(StoreError::Config(ConfigFault::UnsupportedScheme))));
}

#[test]
fn http_and_https_select_remote_adapter() {
    assert_eq!(remote("http://backend:7777").url.text, "http://backend:7777/");
    assert_eq!(remote("https://example.org/base/").url.scheme, "https");
}

#[test]
fn remote_get_of_missing_key_is_absent() {
    let db = remote("http://backend:7777");
    let q = db.get_request(b"missing").unwrap();
    assert_eq!(q.method, HttpMethod::Get);
    assert_eq!(q.url, "http://backend:7777/keys/missing");
    assert_eq!(KVRestDB::get_outcome(404, b"no missing key".to_vec()), None);
}

#[test]
fn remote_get_returns_body_verbatim() {
    assert_eq!(KVRestDB::get_outcome(200, b"1".to_vec()), Some(b"1".to_vec()));
    assert_eq!(KVRestDB::get_outcome(500, b"oops".to_vec()), Some(b"oops".to_vec()));
}

#[test]
fn remote_set_posts_value_as_body() {
    let db = remote("http://backend:7777/ignored/path");
    let q = db.set_request(b"a", b"1").unwrap();
    assert_eq!(q.method, HttpMethod::Post);
    assert_eq!(q.url, "http://backend:7777/keys/a");
    assert_eq!(q.body, b"1".to_vec());
}

#[test]
fn remote_delete_targets_key_resource() {
    let db = remote("http://backend:7777");
    let q = db.delete_request(b"a").unwrap();
    assert_eq!(q.method, HttpMethod::Delete);
    assert_eq!(q.url, "http://backend:7777/keys/a");
    assert!(q.body.is_empty());
}

#[test]
fn remote_refuses_non_utf8_key() {
    let db = remote("http://backend:7777");
    assert!(matches!(db.get_request(&[0xff, 0x00]), Err(StoreError::Encoding)));
    assert!(matches!(db.delete_request(&[0xc3]), Err(StoreError::Encoding)));
    assert!(matches!(db.set_request(&[0xff], b"v"), Err(StoreError::Encoding)));
}

#[test]
fn remote_refuses_non_utf8_value() {
    let db = remote("http://backend:7777");
    assert!(matches!(db.set_request(b"k", &[0x80]), Err(StoreError::Encoding)));
}

#[test]
fn remote_flush_is_noop() {
    let db = remote("http://backend:7777");
    assert!(db.flush().is_ok());
    let b = Backend::Remote(db);
    assert!(matches!(b.plan(&Operation::Flush), Ok(Action::Done)));
}

#[test]
fn embedded_takes_any_bytes() {
    let b = KVStore::try_new(Some("file:///tmp/t1".to_string())).unwrap();
    let ops = vec![
        Operation::Put(vec![0xff, 0xfe], vec![0x80]),
        Operation::Get(vec![0xff]),
        Operation::Delete(b"absent".to_vec()),
        Operation::Flush,
    ];
    for op in ops.iter() {
        assert!(matches!(b.plan(op), Ok(Action::Engine)));
    }
}

#[test]
fn remote_plan_issues_requests() {
    let b = Backend::Remote(remote("http://backend:7777"));
    match b.plan(&Operation::Put(b"a".to_vec(), b"1".to_vec())) {
        Ok(Action::Http(q)) => {
            assert_eq!(q.method, HttpMethod::Post);
            assert_eq!(q.url, "http://backend:7777/keys/a");
            assert_eq!(q.body, b"1".to_vec());
        }
        _ => panic!("expected a request"),
    }
    assert!(matches!(b.plan(&Operation::Get(vec![0xff])), Err(StoreError::Encoding)));
    assert!(matches!(b.plan(&Operation::Put(b"k".to_vec(), vec![0xff])), Err(StoreError::Encoding)));
}
