//! A callback-bridging layer between a native core and a managed host.
//!
//! The host supplies key/value storage and log output through callbacks;
//! the core encodes and validates every string that crosses that boundary,
//! translates every failure into a fixed status-code set, and presents
//! itself to the host as an opaque, versioned service object.

pub mod ffi_error;
pub mod host;
pub mod memory;
pub mod registry;
pub mod service;
pub mod storage;
pub mod storage_ascii;
pub mod stubs;
pub mod text;

pub use ffi_error::BridgeError;
pub use ffi_error::EnvError;
pub use ffi_error::FFIError;
pub use host::BoundedHost;
pub use host::DebugSink;
pub use host::HostAck;
pub use host::HostReply;
pub use host::RawHost;
pub use memory::MemoryHost;
pub use memory::MemorySink;
pub use registry::api_guard;
pub use registry::my_inventory;
pub use registry::APIVersion;
pub use service::CoreService;
pub use service::StorageI;
pub use storage::Storage;
pub use storage_ascii::StorageAscii;
pub use stubs::InvalidTextHost;
pub use stubs::PanickyHost;
