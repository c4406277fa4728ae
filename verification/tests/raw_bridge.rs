use core_bridge::BridgeError;
use core_bridge::EnvError;
use core_bridge::FFIError;
use core_bridge::InvalidTextHost;
use core_bridge::MemoryHost;
use core_bridge::PanickyHost;
use core_bridge::Storage;

#[test]
fn round_trip_set_then_get() {
    let mut bridge = Storage::new(MemoryHost::new());
    let r = bridge.storage_set("alpha", Some("beta".to_string()));
    assert!(r.is_ok());
    let got = bridge.storage_get("alpha");
    assert_eq!(got.unwrap(), Some("beta".to_string()));
}

#[test]
fn round_trip_keeps_last_value() {
    let mut bridge = Storage::new(MemoryHost::new());
    bridge.storage_set("k", Some("first".to_string())).unwrap();
    bridge.storage_set("k", Some("second".to_string())).unwrap();
    assert_eq!(bridge.storage_get("k").unwrap(), Some("second".to_string()));
}

#[test]
fn get_missing_key_returns_none() {
    let mut bridge = Storage::new(MemoryHost::new());
    assert_eq!(bridge.storage_get("missing").unwrap(), None);
}

#[test]
fn set_absent_passes_null_marker_not_empty_string() {
    let mut bridge = Storage::new(MemoryHost::new());
    bridge.storage_set("k", None).unwrap();
    assert_eq!(bridge.host.entries.len(), 1);
    assert_eq!(bridge.host.entries[0].0, b"k\0".to_vec());
    assert_eq!(bridge.host.entries[0].1, None);
    assert_eq!(bridge.storage_get("k").unwrap(), None);

    bridge.storage_set("k", Some(String::new())).unwrap();
    assert_eq!(bridge.host.entries[1].1, Some(b"\0".to_vec()));
    assert_eq!(bridge.storage_get("k").unwrap(), Some(String::new()));
}

#[test]
fn embedded_null_in_key_fails_without_callback() {
    let mut bridge = Storage::new(MemoryHost::new());
    let r = bridge.storage_set("bad\0key", Some("v".to_string()));
    assert!(matches!(r, Err(BridgeError::Domain(EnvError::Other(_)))));
    assert!(bridge.host.entries.is_empty());
    let g = bridge.storage_get("bad\0key");
    assert!(matches!(g, Err(BridgeError::Domain(EnvError::Other(_)))));
}

#[test]
fn embedded_null_in_value_fails_without_callback() {
    let mut bridge = Storage::new(MemoryHost::new());
    let r = bridge.storage_set("key", Some("bad\0value".to_string()));
    assert!(matches!(r, Err(BridgeError::Domain(EnvError::Other(_)))));
    assert!(bridge.host.entries.is_empty());
}

#[test]
fn invalid_utf8_reply_reports_fail() {
    let mut bridge = Storage::new(InvalidTextHost {});
    let r = bridge.storage_get("k");
    assert!(matches!(r, Err(BridgeError::Domain(EnvError::Other(_)))));
    let code = FFIError::from(r.unwrap_err());
    assert_eq!(code, FFIError::Fail);
}

#[test]
fn panicking_callback_reports_panic() {
    let mut bridge = Storage::new(PanickyHost {});
    let g = bridge.storage_get("k");
    assert!(matches!(g, Err(BridgeError::HostPanic)));
    assert_eq!(FFIError::from(g.unwrap_err()), FFIError::Panic);
    let s = bridge.storage_set("k", Some("v".to_string()));
    assert!(matches!(s, Err(BridgeError::HostPanic)));
}
