use core_bridge::BridgeError;
use core_bridge::EnvError;
use core_bridge::InvalidTextHost;
use core_bridge::MemoryHost;
use core_bridge::PanickyHost;
use core_bridge::StorageAscii;

#[test]
fn bounded_round_trip_through_buffer() {
    let mut bridge = StorageAscii::new(MemoryHost::new());
    bridge.storage_set("alpha", Some("beta".to_string())).unwrap();
    assert_eq!(bridge.storage_get("alpha").unwrap(), Some("beta".to_string()));

    let mut buf = vec![9u8; 16];
    let mut written: u64 = 0;
    bridge.ffi_get("alpha", &mut buf, &mut written).unwrap();
    assert_eq!(written, 5);
    assert_eq!(&buf[..5], b"beta\0");
    assert!(buf[5..].iter().all(|b| *b == 9));
}

#[test]
fn bounded_missing_key_writes_json_null() {
    let mut bridge = StorageAscii::new(MemoryHost::new());
    let mut buf = vec![7u8; 12];
    let mut written: u64 = 0;
    bridge.ffi_get("missing", &mut buf, &mut written).unwrap();
    assert_eq!(written, 5);
    assert_eq!(&buf[..5], b"null\0");
    assert!(buf[5..].iter().all(|b| *b == 7));
}

#[test]
fn bounded_buffer_too_small_is_dedicated_failure() {
    let mut bridge = StorageAscii::new(MemoryHost::new());
    let mut buf = vec![7u8; 3];
    let mut written: u64 = 42;
    let r = bridge.ffi_get("missing", &mut buf, &mut written);
    assert!(matches!(r, Err(BridgeError::Domain(EnvError::BufferTooSmall))));
    assert_eq!(buf, vec![7u8; 3]);
    assert_eq!(written, 42);
}

#[test]
fn bounded_exact_capacity_is_enough() {
    let mut bridge = StorageAscii::new(MemoryHost::new());
    let mut buf = vec![0u8; 5];
    let mut written: u64 = 0;
    bridge.ffi_get("missing", &mut buf, &mut written).unwrap();
    assert_eq!(written, 5);
    assert_eq!(buf, b"null\0".to_vec());
}

#[test]
fn bounded_set_absent_passes_absent_marker() {
    let mut bridge = StorageAscii::new(MemoryHost::new());
    bridge.ffi_set("k", None).unwrap();
    assert_eq!(bridge.host.entries.len(), 1);
    assert_eq!(bridge.host.entries[0].1, None);
}

#[test]
fn bounded_embedded_null_fails() {
    let mut bridge = StorageAscii::new(MemoryHost::new());
    let r = bridge.ffi_set("a\0b", Some("v".to_string()));
    assert!(matches!(r, Err(BridgeError::Domain(EnvError::Other(_)))));
    assert!(bridge.host.entries.is_empty());

    let mut buf = vec![0u8; 8];
    let mut written: u64 = 0;
    let g = bridge.ffi_get("a\0b", &mut buf, &mut written);
    assert!(matches!(g, Err(BridgeError::Domain(EnvError::Other(_)))));
    assert_eq!(buf, vec![0u8; 8]);
    assert_eq!(written, 0);
}

#[test]
fn bounded_invalid_utf8_reply_fails_and_writes_nothing() {
    let mut bridge = StorageAscii::new(InvalidTextHost {});
    let g = bridge.storage_get("k");
    assert!(matches!(g, Err(BridgeError::Domain(EnvError::Other(_)))));

    let mut buf = vec![1u8; 8];
    let mut written: u64 = 3;
    let r = bridge.ffi_get("k", &mut buf, &mut written);
    assert!(matches!(r, Err(BridgeError::Domain(EnvError::Other(_)))));
    assert_eq!(buf, vec![1u8; 8]);
    assert_eq!(written, 3);
}

#[test]
fn bounded_panicking_callback_reports_panic() {
    let mut bridge = StorageAscii::new(PanickyHost {});
    let mut buf = vec![1u8; 8];
    let mut written: u64 = 0;
    let r = bridge.ffi_get("k", &mut buf, &mut written);
    assert!(matches!(r, Err(BridgeError::HostPanic)));
    assert_eq!(buf, vec![1u8; 8]);
    let s = bridge.ffi_set("k", Some("v".to_string()));
    assert!(matches!(s, Err(BridgeError::HostPanic)));
}
