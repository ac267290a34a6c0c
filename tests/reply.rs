use kvstore::error::{AxumError, ConfigFault, StoreError};
use kvstore::reply::{get_reply, unit_reply};

#[test]
fn present_value_is_returned() {
    assert_eq!(get_reply("a", Ok(Some(b"1".to_vec()))).ok(), Some(b"1".to_vec()));
}

#[test]
fn absent_value_is_not_found() {
    match get_reply("a", Ok(None)) {
        Err(e) => {
            let (status, body) = e.into_response();
            assert_eq!(status, 404);
            assert_eq!(body, "no a key");
        }
        Ok(_) => panic!("expected not found"),
    }
}

#[test]
fn failure_is_internal_error() {
    match get_reply("a", Err(StoreError::Encoding)) {
        Err(e) => {
            let (status, body) = e.into_response();
            assert_eq!(status, 500);
            assert_eq!(body, "internal error: encoding error: not valid UTF-8");
        }
        Ok(_) => panic!("expected an error"),
    }
}

#[test]
fn unit_reply_maps_errors() {
    assert!(unit_reply(Ok(())).is_ok());
    let (status, body) = unit_reply(Err(StoreError::Engine("disk full".to_string())))
        .unwrap_err()
        .into_response();
    assert_eq!(status, 500);
    assert_eq!(body, "internal error: engine error: disk full");
}

#[test]
fn config_error_description() {
    let e = AxumError::from(StoreError::Config(ConfigFault::UnsupportedScheme));
    assert_eq!(e.into_response().1, "internal error: config error: invalid store scheme");
    assert_eq!(StoreError::Internal("timeout".to_string()).describe(), "timeout");
}
