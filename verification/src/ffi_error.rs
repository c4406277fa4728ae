//! The status codes that every boundary-crossing call resolves to, and the
//! native error values they are erased from.

use vstd::prelude::*;

verus! {

/// A domain error of the native side. The boundary erases it to
/// [`FFIError::Fail`]; no message crosses to the host.
#[derive(Debug)]
pub enum EnvError {
    /// A text value could not be carried across the boundary: it holds an
    /// embedded null byte, or bytes received from the host were not valid
    /// UTF-8.
    Other(String),
    /// A caller-supplied output buffer is smaller than the encoded result
    /// including its null terminator.
    BufferTooSmall,
}

/// How a bridge call failed, before the boundary erases the distinction
/// into a bare status code.
#[derive(Debug)]
pub enum BridgeError {
    /// A domain error of the native side; becomes [`FFIError::Fail`].
    Domain(EnvError),
    /// The host callback panicked during the call; becomes
    /// [`FFIError::Panic`].
    HostPanic,
}

/// The fixed status-code set the host sees. Every fallible entry point
/// resolves to exactly one of these before control crosses back.
#[derive(Clone, Copy, Debug, PartialEq, Eq, Structural)]
pub enum FFIError {
    /// The call completed as requested.
    Success,
    /// A required native pointer argument was unexpectedly absent.
    Null,
    /// The native side hit an unrecoverable internal fault, including a
    /// caught panic of a host callback.
    Panic,
    /// A domain error: the catch-all for everything else that went wrong.
    Fail,
}

impl FFIError {
    /// The numeric value of each status code on the wire.
    pub open spec fn spec_code(self) -> u32 {
        match self {
            FFIError::Success => 0,
            FFIError::Null => 100,
            FFIError::Panic => 200,
            FFIError::Fail => 300,
        }
    }

    /// The numeric status code this variant crosses the boundary as.
    pub fn code(&self) -> (c: u32)
        ensures
            c == self.spec_code(),
    {
        match *self {
            FFIError::Success => 0,
            FFIError::Null => 100,
            FFIError::Panic => 200,
            FFIError::Fail => 300,
        }
    }
}

impl Default for FFIError {
    /// The zero/default status code is success.
    fn default() -> (r: Self)
        ensures
            r == FFIError::Success,
    {
        FFIError::Success
    }
}

impl From<EnvError> for FFIError {
    /// Every domain error is erased to `Fail`.
    fn from(_e: EnvError) -> (r: Self)
        ensures
            r == FFIError::Fail,
    {
        FFIError::Fail
    }
}

impl vstd::std_specs::convert::FromSpecImpl<EnvError> for FFIError {
    open spec fn obeys_from_spec() -> bool {
        true
    }

    open spec fn from_spec(_e: EnvError) -> Self {
        FFIError::Fail
    }
}

impl From<BridgeError> for FFIError {
    /// A domain error is erased to `Fail`; a caught host panic to `Panic`.
    fn from(e: BridgeError) -> (r: Self)
        ensures
            r == FFIError::spec_of_bridge(e),
    {
        match e {
            BridgeError::Domain(_) => FFIError::Fail,
            BridgeError::HostPanic => FFIError::Panic,
        }
    }
}

impl vstd::std_specs::convert::FromSpecImpl<BridgeError> for FFIError {
    open spec fn obeys_from_spec() -> bool {
        true
    }

    open spec fn from_spec(e: BridgeError) -> Self {
        FFIError::spec_of_bridge(e)
    }
}

impl FFIError {
    /// The status code a finished bridge call resolves to.
    pub open spec fn spec_of_bridge(e: BridgeError) -> FFIError {
        match e {
            BridgeError::Domain(_) => FFIError::Fail,
            BridgeError::HostPanic => FFIError::Panic,
        }
    }

    /// Resolves the outcome of a bridge call to the status code the host
    /// sees: success is `Ok`, a domain error `Fail`, a caught panic `Panic`.
    pub fn of_outcome<T>(r: &Result<T, BridgeError>) -> (c: Self)
        ensures
            c == (match *r {
                Result::Ok(_) => FFIError::Success,
                Result::Err(e) => FFIError::spec_of_bridge(e),
            }),
    {
        match r {
            Result::Ok(_) => FFIError::Success,
            Result::Err(BridgeError::Domain(_)) => FFIError::Fail,
            Result::Err(BridgeError::HostPanic) => FFIError::Panic,
        }
    }
}

} // verus!
