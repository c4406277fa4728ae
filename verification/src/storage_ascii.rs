//! The bounded storage bridge: the same logical key/value contract as the
//! raw bridge, but reads deliver their result into a caller-supplied,
//! capacity-bounded output buffer with an explicit bytes-written count.

use vstd::prelude::*;
use vstd::utf8::encode_utf8_decode_utf8;
use vstd::utf8::valid_utf8;

use crate::ffi_error::BridgeError;
use crate::ffi_error::EnvError;
use crate::ffi_error::FFIError;
use crate::host::BoundedHost;
use crate::host::HostAck;
use crate::host::HostReply;
use crate::host::HostReplyModel;
use crate::storage::get_outcome;
use crate::storage::models_get;
use crate::storage::set_payload;
use crate::storage::set_value_ok;
use crate::text::bytes_to_string;
use crate::text::c_bytes;
use crate::text::c_encode;
use crate::text::check_utf8;
use crate::text::contains_zero;
use crate::text::encodable;
use crate::text::json_null_text;
use crate::text::json_null_bytes;

verus! {

/// The bytes a bounded get must deliver into the output buffer for a
/// given host reply, terminator included; or the failure it must report.
/// An absent value becomes the canonical JSON null text, so the buffer
/// always receives a valid JSON value; a payload that is not valid UTF-8,
/// or that holds an embedded null byte, fails the call.
pub open spec fn bounded_get_bytes(reply: HostReplyModel) -> Result<Seq<u8>, FFIError> {
    match reply {
        HostReplyModel::Panicked => Result::Err(FFIError::Panic),
        HostReplyModel::Absent => Result::Ok(json_null_text().push(0u8)),
        HostReplyModel::Value(b) => if !valid_utf8(b) || b.contains(0u8) {
            Result::Err(FFIError::Fail)
        } else {
            Result::Ok(b.push(0u8))
        },
    }
}

/// The bounded storage bridge: a stateless pass-through to one host's
/// pair of length-checked callbacks, chosen at construction and immutable
/// thereafter.
pub struct StorageAscii<B: BoundedHost> {
    /// The host behind the two callbacks.
    pub host: B,
}

impl<B: BoundedHost> StorageAscii<B> {
    /// Binds a pair of bounded host callbacks into a bridge.
    pub fn new(host: B) -> (s: Self)
        ensures
            s.host == host,
    {
        StorageAscii { host }
    }

    /// Re-encodes `key` (and `value`, when present) into null-terminated
    /// form and delegates to the bounded set-callback; an absent value
    /// crosses as the absent marker, never as an empty buffer. Fails
    /// without touching the host when either string holds an embedded
    /// null byte; reports a panicking callback as such.
    pub fn storage_set(&mut self, key: &str, value: Option<String>) -> (r: Result<
        (),
        BridgeError,
    >)
        ensures
            ({
                let k = key@;
                let vm = value.deep_view();
                if !encodable(k) || !set_value_ok(vm) {
                    &&& r matches Result::Err(BridgeError::Domain(EnvError::Other(_)))
                    &&& final(self).host == old(self).host
                } else {
                    &&& old(self).host.set_evolved(c_bytes(k), set_payload(vm), &final(self).host)
                    &&& match old(self).host.set_ack(c_bytes(k), set_payload(vm)) {
                        HostAck::Done => r matches Result::Ok(_),
                        HostAck::Panicked => r == Result::<(), BridgeError>::Err(
                            BridgeError::HostPanic,
                        ),
                    }
                }
            }),
    {
        let kb = match c_encode(key) {
            Result::Ok(v) => v,
            Result::Err(e) => {
                return Result::Err(BridgeError::Domain(e));
            },
        };
        let vb: Option<Vec<u8>> = match value {
            Option::Some(v) => match c_encode(v.as_str()) {
                Result::Ok(b) => Option::Some(b),
                Result::Err(e) => {
                    return Result::Err(BridgeError::Domain(e));
                },
            },
            Option::None => Option::None,
        };
        match self.host.bounded_set(&kb, &vb) {
            HostAck::Done => Result::Ok(()),
            HostAck::Panicked => Result::Err(BridgeError::HostPanic),
        }
    }

    /// Encodes `key`, invokes the bounded get-callback, and copies the
    /// reply into an owned string; absent stays absent, invalid UTF-8
    /// fails the call, a panicking callback is reported as such.
    pub fn storage_get(&mut self, key: &str) -> (r: Result<Option<String>, BridgeError>)
        ensures
            !encodable(key@) ==> {
                &&& r matches Result::Err(BridgeError::Domain(EnvError::Other(_)))
                &&& final(self).host == old(self).host
            },
            encodable(key@) ==> {
                &&& old(self).host.get_evolved(c_bytes(key@), &final(self).host)
                &&& models_get(r, get_outcome(old(self).host.get_reply(c_bytes(key@))))
            },
    {
        let kb = match c_encode(key) {
            Result::Ok(v) => v,
            Result::Err(e) => {
                return Result::Err(BridgeError::Domain(e));
            },
        };
        match self.host.bounded_get(&kb) {
            HostReply::Value(b) => match bytes_to_string(b) {
                Option::Some(s) => {
                    proof {
                        encode_utf8_decode_utf8(s@);
                    }
                    Result::Ok(Option::Some(s))
                },
                Option::None => Result::Err(
                    BridgeError::Domain(EnvError::Other("callback bytes are not valid UTF-8".to_owned())),
                ),
            },
            HostReply::Absent => Result::Ok(Option::None),
            HostReply::Panicked => Result::Err(BridgeError::HostPanic),
        }
    }

    /// Validates and forwards one key/value pair to the bounded
    /// set-callback; the boundary-facing spelling of
    /// [`StorageAscii::storage_set`].
    pub fn ffi_set(&mut self, key: &str, value: Option<String>) -> (r: Result<(), BridgeError>)
        ensures
            ({
                let k = key@;
                let vm = value.deep_view();
                if !encodable(k) || !set_value_ok(vm) {
                    &&& r matches Result::Err(BridgeError::Domain(EnvError::Other(_)))
                    &&& final(self).host == old(self).host
                } else {
                    &&& old(self).host.set_evolved(c_bytes(k), set_payload(vm), &final(self).host)
                    &&& match old(self).host.set_ack(c_bytes(k), set_payload(vm)) {
                        HostAck::Done => r matches Result::Ok(_),
                        HostAck::Panicked => r == Result::<(), BridgeError>::Err(
                            BridgeError::HostPanic,
                        ),
                    }
                }
            }),
    {
        self.storage_set(key, value)
    }

    /// The bounded read path: invokes the get-callback for `key` and
    /// copies the encoded result, terminator included, into the prefix of
    /// `result`, leaving the rest of the buffer as it was;
    /// `result_written` receives the exact number of bytes copied. An
    /// absent value is delivered as the canonical JSON null text. Fails
    /// with a dedicated too-small condition, writing nothing, when the
    /// buffer cannot hold the encoded result.
    pub fn ffi_get(
        &mut self,
        key: &str,
        result: &mut Vec<u8>,
        result_written: &mut u64,
    ) -> (r: Result<(), BridgeError>)
        ensures
            !encodable(key@) ==> {
                &&& r matches Result::Err(BridgeError::Domain(EnvError::Other(_)))
                &&& final(self).host == old(self).host
                &&& final(result)@ == old(result)@
                &&& *final(result_written) == *old(result_written)
            },
            encodable(key@) ==> {
                &&& old(self).host.get_evolved(c_bytes(key@), &final(self).host)
                &&& match bounded_get_bytes(old(self).host.get_reply(c_bytes(key@))) {
                    Result::Ok(bytes) => if old(result)@.len() < bytes.len() {
                        &&& r matches Result::Err(
                            BridgeError::Domain(EnvError::BufferTooSmall),
                        )
                        &&& final(result)@ == old(result)@
                        &&& *final(result_written) == *old(result_written)
                    } else {
                        &&& r matches Result::Ok(_)
                        &&& final(result)@ == bytes + old(result)@.skip(bytes.len() as int)
                        &&& *final(result_written) == bytes.len()
                    },
                    Result::Err(FFIError::Panic) => {
                        &&& r matches Result::Err(BridgeError::HostPanic)
                        &&& final(result)@ == old(result)@
                        &&& *final(result_written) == *old(result_written)
                    },
                    Result::Err(_) => {
                        &&& r matches Result::Err(BridgeError::Domain(EnvError::Other(_)))
                        &&& final(result)@ == old(result)@
                        &&& *final(result_written) == *old(result_written)
                    },
                }
            },
    {
        let kb = match c_encode(key) {
            Result::Ok(v) => v,
            Result::Err(e) => {
                return Result::Err(BridgeError::Domain(e));
            },
        };
        let mut out: Vec<u8> = match self.host.bounded_get(&kb) {
            HostReply::Panicked => {
                return Result::Err(BridgeError::HostPanic);
            },
            HostReply::Absent => json_null_bytes(),
            HostReply::Value(b) => {
                if !check_utf8(&b) {
                    return Result::Err(
                        BridgeError::Domain(EnvError::Other("callback bytes are not valid UTF-8".to_owned())),
                    );
                }
                if contains_zero(&b) {
                    return Result::Err(
                        BridgeError::Domain(EnvError::Other("embedded null byte".to_owned())),
                    );
                }
                b
            },
        };
        out.push(0);
        let n = out.len();
        if result.len() < n {
            return Result::Err(BridgeError::Domain(EnvError::BufferTooSmall));
        }
        let ghost pre = result@;
        let mut i: usize = 0;
        while i < n
            invariant
                i <= n,
                n == out@.len(),
                n <= result@.len(),
                result@.len() == pre.len(),
                forall|j: int| 0 <= j < i ==> result@[j] == out@[j],
                forall|j: int| i <= j < pre.len() ==> result@[j] == pre[j],
            decreases n - i,
        {
            let b = out[i];
            result[i] = b;
            i += 1;
        }
        assert(result@ =~= out@ + pre.skip(n as int));
        *result_written = n as u64;
        Result::Ok(())
    }
}

} // verus!
