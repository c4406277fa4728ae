//! The core service: an opaque handle over at most one storage bridge,
//! created by one of six construction paths that differ only in which
//! bridge variant they bind and whether they exercise it eagerly.

use vstd::prelude::*;

use crate::ffi_error::BridgeError;
use crate::ffi_error::EnvError;
use crate::host::BoundedHost;
use crate::host::DebugSink;
use crate::host::HostAck;
use crate::host::HostReplyModel;
use crate::host::RawHost;
use crate::storage::Storage;
use crate::storage_ascii::StorageAscii;
use crate::text::c_bytes;
use crate::text::c_encode;
use crate::text::encodable;

verus! {

/// The one storage bridge a service holds: raw or bounded, chosen at
/// construction and never switched.
pub enum StorageI<R: RawHost, B: BoundedHost> {
    /// The raw, null-terminated bridge.
    Bare(Storage<R>),
    /// The bounded, length-checked bridge.
    Ascii(StorageAscii<B>),
}

/// The opaque service handle the host keeps for the session: zero or one
/// storage bridge, bound once.
pub struct CoreService<R: RawHost, B: BoundedHost> {
    /// The bridge this service was constructed with, if any.
    pub storage: Option<StorageI<R, B>>,
}

/// The liveness line the debug-only construction paths send to the
/// host's log callback.
pub open spec fn debug_message() -> Seq<char> {
    "debug callback has been triggered"@
}

/// The probe key the eager construction paths exercise the bridge with.
pub open spec fn probe_key() -> Seq<char> {
    "key"@
}

/// The probe value the eager set paths store under the probe key.
pub open spec fn probe_value() -> Seq<char> {
    "value"@
}

impl<R: RawHost, B: BoundedHost> CoreService<R, B> {
    /// Sends one liveness line to the debug callback and returns a
    /// service without a bridge. Fails if the diagnostic literal cannot
    /// be encoded; reports a panicking callback as a caught panic.
    pub fn initialize_native_with_debug_call<D: DebugSink>(debug_callback: &mut D) -> (r: Result<
        Self,
        BridgeError,
    >)
        ensures
            !encodable(debug_message()) ==> {
                &&& r matches Result::Err(BridgeError::Domain(EnvError::Other(_)))
                &&& *final(debug_callback) == *old(debug_callback)
            },
            encodable(debug_message()) ==> {
                &&& old(debug_callback).log_evolved(c_bytes(debug_message()), final(debug_callback))
                &&& match old(debug_callback).log_ack(c_bytes(debug_message())) {
                    HostAck::Done => r matches Result::Ok(s) && s.storage is None,
                    HostAck::Panicked => r matches Result::Err(BridgeError::HostPanic),
                }
            },
    {
        let line: &str = "debug callback has been triggered";
        let msg = match c_encode(line) {
            Result::Ok(m) => m,
            Result::Err(e) => {
                return Result::Err(BridgeError::Domain(e));
            },
        };
        match debug_callback.log(&msg) {
            HostAck::Done => Result::Ok(CoreService { storage: Option::None }),
            HostAck::Panicked => Result::Err(BridgeError::HostPanic),
        }
    }

    /// Binds a raw bridge after one eager `set` of the probe pair, so the
    /// host can confirm the wiring at construction time.
    pub fn initialize_with_storage_with_set(storage: Storage<R>) -> (r: Result<Self, BridgeError>)
        ensures
            !encodable(probe_key()) || !encodable(probe_value()) ==> r matches Result::Err(
                BridgeError::Domain(EnvError::Other(_)),
            ),
            encodable(probe_key()) && encodable(probe_value()) ==> match storage.host.set_ack(
                c_bytes(probe_key()),
                Option::Some(c_bytes(probe_value())),
            ) {
                HostAck::Done => r matches Result::Ok(s) && (s.storage matches Option::Some(
                    StorageI::Bare(st),
                ) && storage.host.set_evolved(
                    c_bytes(probe_key()),
                    Option::Some(c_bytes(probe_value())),
                    &st.host,
                )),
                HostAck::Panicked => r matches Result::Err(BridgeError::HostPanic),
            },
    {
        let mut storage = storage;
        match storage.storage_set("key", Option::Some("value".to_owned())) {
            Result::Ok(_) => Result::Ok(
                CoreService { storage: Option::Some(StorageI::Bare(storage)) },
            ),
            Result::Err(e) => Result::Err(e),
        }
    }

    /// Binds a raw bridge after one eager `get` of the probe key, purely
    /// as a wiring self-test; the result is discarded.
    pub fn initialize_with_storage_with_get(storage: Storage<R>) -> (r: Result<Self, BridgeError>)
        ensures
            !encodable(probe_key()) ==> (r matches Result::Ok(s) && (s.storage
                matches Option::Some(StorageI::Bare(st)) && st.host == storage.host)),
            encodable(probe_key()) ==> match storage.host.get_reply(c_bytes(probe_key())) {
                HostReplyModel::Panicked => r matches Result::Err(BridgeError::HostPanic),
                _ => r matches Result::Ok(s) && (s.storage matches Option::Some(StorageI::Bare(st))
                    && storage.host.get_evolved(c_bytes(probe_key()), &st.host)),
            },
    {
        let mut storage = storage;
        match storage.storage_get("key") {
            Result::Err(BridgeError::HostPanic) => Result::Err(BridgeError::HostPanic),
            _ => Result::Ok(CoreService { storage: Option::Some(StorageI::Bare(storage)) }),
        }
    }

    /// Binds a raw bridge without exercising it, logging one liveness
    /// line instead.
    pub fn initialize_with_storage_without_set_get<D: DebugSink>(
        storage: Storage<R>,
        debug_callback: &mut D,
    ) -> (r: Result<Self, BridgeError>)
        ensures
            !encodable(debug_message()) ==> {
                &&& r matches Result::Err(BridgeError::Domain(EnvError::Other(_)))
                &&& *final(debug_callback) == *old(debug_callback)
            },
            encodable(debug_message()) ==> {
                &&& old(debug_callback).log_evolved(c_bytes(debug_message()), final(debug_callback))
                &&& match old(debug_callback).log_ack(c_bytes(debug_message())) {
                    HostAck::Done => r matches Result::Ok(s) && (s.storage matches Option::Some(
                        StorageI::Bare(st),
                    ) && st.host == storage.host),
                    HostAck::Panicked => r matches Result::Err(BridgeError::HostPanic),
                }
            },
    {
        let line: &str = "debug callback has been triggered";
        let msg = match c_encode(line) {
            Result::Ok(m) => m,
            Result::Err(e) => {
                return Result::Err(BridgeError::Domain(e));
            },
        };
        match debug_callback.log(&msg) {
            HostAck::Done => Result::Ok(
                CoreService { storage: Option::Some(StorageI::Bare(storage)) },
            ),
            HostAck::Panicked => Result::Err(BridgeError::HostPanic),
        }
    }

    /// Binds a bounded bridge after one eager `set` of the probe pair.
    pub fn initialize_with_storage_ascii_with_set(storage: StorageAscii<B>) -> (r: Result<
        Self,
        BridgeError,
    >)
        ensures
            !encodable(probe_key()) || !encodable(probe_value()) ==> r matches Result::Err(
                BridgeError::Domain(EnvError::Other(_)),
            ),
            encodable(probe_key()) && encodable(probe_value()) ==> match storage.host.set_ack(
                c_bytes(probe_key()),
                Option::Some(c_bytes(probe_value())),
            ) {
                HostAck::Done => r matches Result::Ok(s) && (s.storage matches Option::Some(
                    StorageI::Ascii(st),
                ) && storage.host.set_evolved(
                    c_bytes(probe_key()),
                    Option::Some(c_bytes(probe_value())),
                    &st.host,
                )),
                HostAck::Panicked => r matches Result::Err(BridgeError::HostPanic),
            },
    {
        let mut storage = storage;
        match storage.storage_set("key", Option::Some("value".to_owned())) {
            Result::Ok(_) => Result::Ok(
                CoreService { storage: Option::Some(StorageI::Ascii(storage)) },
            ),
            Result::Err(e) => Result::Err(e),
        }
    }

    /// Binds a bounded bridge after one eager `get` of the probe key; the
    /// result is discarded.
    pub fn initialize_with_storage_ascii_with_get(storage: StorageAscii<B>) -> (r: Result<
        Self,
        BridgeError,
    >)
        ensures
            !encodable(probe_key()) ==> (r matches Result::Ok(s) && (s.storage
                matches Option::Some(StorageI::Ascii(st)) && st.host == storage.host)),
            encodable(probe_key()) ==> match storage.host.get_reply(c_bytes(probe_key())) {
                HostReplyModel::Panicked => r matches Result::Err(BridgeError::HostPanic),
                _ => r matches Result::Ok(s) && (s.storage matches Option::Some(
                    StorageI::Ascii(st),
                ) && storage.host.get_evolved(c_bytes(probe_key()), &st.host)),
            },
    {
        let mut storage = storage;
        match storage.storage_get("key") {
            Result::Err(BridgeError::HostPanic) => Result::Err(BridgeError::HostPanic),
            _ => Result::Ok(CoreService { storage: Option::Some(StorageI::Ascii(storage)) }),
        }
    }

    /// Binds a bounded bridge without exercising it, logging one liveness
    /// line instead.
    pub fn initialize_with_storage_ascii_without_set_get<D: DebugSink>(
        storage: StorageAscii<B>,
        debug_callback: &mut D,
    ) -> (r: Result<Self, BridgeError>)
        ensures
            !encodable(debug_message()) ==> {
                &&& r matches Result::Err(BridgeError::Domain(EnvError::Other(_)))
                &&& *final(debug_callback) == *old(debug_callback)
            },
            encodable(debug_message()) ==> {
                &&& old(debug_callback).log_evolved(c_bytes(debug_message()), final(debug_callback))
                &&& match old(debug_callback).log_ack(c_bytes(debug_message())) {
                    HostAck::Done => r matches Result::Ok(s) && (s.storage matches Option::Some(
                        StorageI::Ascii(st),
                    ) && st.host == storage.host),
                    HostAck::Panicked => r matches Result::Err(BridgeError::HostPanic),
                }
            },
    {
        let line: &str = "debug callback has been triggered";
        let msg = match c_encode(line) {
            Result::Ok(m) => m,
            Result::Err(e) => {
                return Result::Err(BridgeError::Domain(e));
            },
        };
        match debug_callback.log(&msg) {
            HostAck::Done => Result::Ok(
                CoreService { storage: Option::Some(StorageI::Ascii(storage)) },
            ),
            HostAck::Panicked => Result::Err(BridgeError::HostPanic),
        }
    }

    /// Whether this service holds a storage bridge.
    pub fn has_storage(&self) -> (b: bool)
        ensures
            b == (self.storage is Some),
    {
        match &self.storage {
            Option::Some(_) => true,
            Option::None => false,
        }
    }
}

} // verus!
