use core_bridge::api_guard;
use core_bridge::my_inventory;
use core_bridge::BridgeError;
use core_bridge::CoreService;
use core_bridge::EnvError;
use core_bridge::FFIError;
use core_bridge::MemoryHost;
use core_bridge::MemorySink;
use core_bridge::PanickyHost;
use core_bridge::Storage;
use core_bridge::StorageAscii;
use core_bridge::StorageI;

#[test]
fn api_guard_before_any_construction_returns_token() {
    let v = api_guard();
    assert!(v.is_some());
    assert!(v.unwrap().token >= 1);
}

#[test]
fn api_guard_is_idempotent() {
    assert_eq!(api_guard(), api_guard());
}

#[test]
fn inventory_registers_every_entry_point() {
    let names = my_inventory();
    assert_eq!(names.len(), 16);
    assert_eq!(names[0], "api_guard");
    assert!(names.contains(&"core_initialize_native_with_debug_call"));
    assert!(names.contains(&"storage_ascii_ffi_get"));
}

#[test]
fn debug_call_constructor_logs_liveness_line() {
    let mut sink = MemorySink::new();
    let svc = CoreService::<MemoryHost, MemoryHost>::initialize_native_with_debug_call(&mut sink)
        .unwrap();
    assert!(svc.storage.is_none());
    assert!(!svc.has_storage());
    assert_eq!(sink.messages.len(), 1);
    assert_eq!(sink.messages[0], b"debug callback has been triggered\0".to_vec());
}

#[test]
fn with_set_constructor_probes_the_bridge() {
    let bridge = Storage::new(MemoryHost::new());
    let svc =
        CoreService::<MemoryHost, MemoryHost>::initialize_with_storage_with_set(bridge).unwrap();
    match svc.storage {
        Some(StorageI::Bare(st)) => {
            assert_eq!(st.host.entries.len(), 1);
            assert_eq!(st.host.entries[0].0, b"key\0".to_vec());
            assert_eq!(st.host.entries[0].1, Some(b"value\0".to_vec()));
        },
        _ => panic!("expected the raw bridge to be retained"),
    }
}

#[test]
fn with_get_constructor_probes_and_discards() {
    let bridge = Storage::new(MemoryHost::new());
    let svc =
        CoreService::<MemoryHost, MemoryHost>::initialize_with_storage_with_get(bridge).unwrap();
    match svc.storage {
        Some(StorageI::Bare(st)) => assert!(st.host.entries.is_empty()),
        _ => panic!("expected the raw bridge to be retained"),
    }
}

#[test]
fn panic_during_probe_reports_panic() {
    let bridge = Storage::new(PanickyHost {});
    let r = CoreService::<PanickyHost, MemoryHost>::initialize_with_storage_with_set(bridge);
    assert!(matches!(r, Err(BridgeError::HostPanic)));
    let bridge = Storage::new(PanickyHost {});
    let r = CoreService::<PanickyHost, MemoryHost>::initialize_with_storage_with_get(bridge);
    assert!(matches!(r, Err(BridgeError::HostPanic)));
}

#[test]
fn panic_in_debug_callback_reports_panic() {
    let mut sink = PanickyHost {};
    let r = CoreService::<MemoryHost, MemoryHost>::initialize_native_with_debug_call(&mut sink);
    assert!(matches!(r, Err(BridgeError::HostPanic)));
}

#[test]
fn without_probe_constructor_logs_and_retains() {
    let mut sink = MemorySink::new();
    let bridge = Storage::new(MemoryHost::new());
    let svc = CoreService::<MemoryHost, MemoryHost>::initialize_with_storage_without_set_get(
        bridge, &mut sink,
    )
    .unwrap();
    assert!(matches!(svc.storage, Some(StorageI::Bare(_))));
    assert_eq!(sink.messages.len(), 1);
}

#[test]
fn ascii_with_set_constructor_probes_the_bridge() {
    let bridge = StorageAscii::new(MemoryHost::new());
    let svc = CoreService::<MemoryHost, MemoryHost>::initialize_with_storage_ascii_with_set(bridge)
        .unwrap();
    match svc.storage {
        Some(StorageI::Ascii(st)) => {
            assert_eq!(st.host.entries.len(), 1);
            assert_eq!(st.host.entries[0].0, b"key\0".to_vec());
            assert_eq!(st.host.entries[0].1, Some(b"value\0".to_vec()));
        },
        _ => panic!("expected the bounded bridge to be retained"),
    }
}

#[test]
fn ascii_with_get_constructor_probes_and_discards() {
    let bridge = StorageAscii::new(MemoryHost::new());
    let svc = CoreService::<MemoryHost, MemoryHost>::initialize_with_storage_ascii_with_get(bridge)
        .unwrap();
    assert!(matches!(svc.storage, Some(StorageI::Ascii(_))));
}

#[test]
fn ascii_without_probe_constructor_logs_and_retains() {
    let mut sink = MemorySink::new();
    let bridge = StorageAscii::new(MemoryHost::new());
    let svc = CoreService::<MemoryHost, MemoryHost>::initialize_with_storage_ascii_without_set_get(
        bridge, &mut sink,
    )
    .unwrap();
    assert!(matches!(svc.storage, Some(StorageI::Ascii(_))));
    assert_eq!(sink.messages[0], b"debug callback has been triggered\0".to_vec());
}

#[test]
fn error_codes_cross_the_boundary_as_fixed_numbers() {
    assert_eq!(FFIError::Success.code(), 0);
    assert_eq!(FFIError::Null.code(), 100);
    assert_eq!(FFIError::Panic.code(), 200);
    assert_eq!(FFIError::Fail.code(), 300);
}

#[test]
fn default_status_is_success() {
    assert_eq!(FFIError::default(), FFIError::Success);
}

#[test]
fn domain_errors_erase_to_fail() {
    assert_eq!(FFIError::from(EnvError::Other("detail".to_string())), FFIError::Fail);
    assert_eq!(
        FFIError::from(BridgeError::Domain(EnvError::BufferTooSmall)),
        FFIError::Fail
    );
    assert_eq!(FFIError::from(BridgeError::HostPanic), FFIError::Panic);
}
