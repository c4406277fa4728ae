//! The raw storage bridge: get/set over two host callbacks that exchange
//! null-terminated byte buffers.

use vstd::prelude::*;
use vstd::utf8::decode_utf8;
use vstd::utf8::encode_utf8_decode_utf8;
use vstd::utf8::valid_utf8;

use crate::ffi_error::BridgeError;
use crate::ffi_error::EnvError;
use crate::ffi_error::FFIError;
use crate::host::HostAck;
use crate::host::HostReply;
use crate::host::HostReplyModel;
use crate::host::RawHost;
use crate::text::c_bytes;
use crate::text::c_encode;
use crate::text::encodable;
use crate::text::bytes_to_string;

verus! {

/// True of a value argument that can cross the boundary: absent, or a
/// string without an embedded null byte.
pub open spec fn set_value_ok(value: Option<Seq<char>>) -> bool {
    value matches Option::Some(v) ==> encodable(v)
}

/// The buffer handed to a set-callback for a value argument: the C string
/// form of a present value, the null marker for an absent one.
pub open spec fn set_payload(value: Option<Seq<char>>) -> Option<Seq<u8>> {
    match value {
        Option::Some(v) => Option::Some(c_bytes(v)),
        Option::None => Option::None,
    }
}

/// What a get must return for a given host reply: absent stays absent, a
/// payload must be valid UTF-8 or the call fails, a caught panic is
/// reported as such.
pub open spec fn get_outcome(reply: HostReplyModel) -> Result<Option<Seq<char>>, FFIError> {
    match reply {
        HostReplyModel::Absent => Result::Ok(Option::None),
        HostReplyModel::Panicked => Result::Err(FFIError::Panic),
        HostReplyModel::Value(b) => if valid_utf8(b) {
            Result::Ok(Option::Some(decode_utf8(b)))
        } else {
            Result::Err(FFIError::Fail)
        },
    }
}

/// True when an executable get result carries exactly the outcome the
/// model prescribes.
pub open spec fn models_get(
    r: Result<Option<String>, BridgeError>,
    m: Result<Option<Seq<char>>, FFIError>,
) -> bool {
    match m {
        Result::Ok(Option::None) => r == Result::<Option<String>, BridgeError>::Ok(Option::None),
        Result::Ok(Option::Some(s)) => r matches Result::Ok(Option::Some(v)) && v@ == s,
        Result::Err(FFIError::Panic) => r == Result::<Option<String>, BridgeError>::Err(
            BridgeError::HostPanic,
        ),
        Result::Err(_) => r matches Result::Err(BridgeError::Domain(EnvError::Other(_))),
    }
}

/// The raw storage bridge: a stateless pass-through to one host's pair of
/// callbacks, chosen at construction and immutable thereafter.
pub struct Storage<H: RawHost> {
    /// The host behind the two callbacks.
    pub host: H,
}

impl<H: RawHost> Storage<H> {
    /// Binds a pair of raw host callbacks into a bridge.
    pub fn new(host: H) -> (s: Self)
        ensures
            s.host == host,
    {
        Storage { host }
    }

    /// Encodes `key` (and `value`, when present) as null-terminated
    /// buffers and hands them to the host set-callback; an absent value
    /// crosses as the null marker, never as an empty buffer. Fails
    /// without touching the host when either string holds an embedded
    /// null byte; reports a panicking callback as such.
    pub fn storage_set(&mut self, key: &str, value: Option<String>) -> (r: Result<
        (),
        BridgeError,
    >)
        ensures
            ({
                let k = key@;
                let vm = value.deep_view();
                if !encodable(k) || !set_value_ok(vm) {
                    &&& r matches Result::Err(BridgeError::Domain(EnvError::Other(_)))
                    &&& final(self).host == old(self).host
                } else {
                    &&& old(self).host.set_evolved(c_bytes(k), set_payload(vm), &final(self).host)
                    &&& match old(self).host.set_ack(c_bytes(k), set_payload(vm)) {
                        HostAck::Done => r matches Result::Ok(_),
                        HostAck::Panicked => r == Result::<(), BridgeError>::Err(BridgeError::HostPanic),
                    }
                }
            }),
    {
        let kb = match c_encode(key) {
            Result::Ok(v) => v,
            Result::Err(e) => {
                return Result::Err(BridgeError::Domain(e));
            },
        };
        let vb: Option<Vec<u8>> = match value {
            Option::Some(v) => match c_encode(v.as_str()) {
                Result::Ok(b) => Option::Some(b),
                Result::Err(e) => {
                    return Result::Err(BridgeError::Domain(e));
                },
            },
            Option::None => Option::None,
        };
        match self.host.raw_set(&kb, &vb) {
            HostAck::Done => Result::Ok(()),
            HostAck::Panicked => Result::Err(BridgeError::HostPanic),
        }
    }

    /// Encodes `key`, invokes the host get-callback, and copies the reply
    /// into an owned string. A null reply means the key is absent; a
    /// payload that is not valid UTF-8 fails the call rather than being
    /// silently substituted; a panicking callback is reported as such.
    pub fn storage_get(&mut self, key: &str) -> (r: Result<Option<String>, BridgeError>)
        ensures
            !encodable(key@) ==> {
                &&& r matches Result::Err(BridgeError::Domain(EnvError::Other(_)))
                &&& final(self).host == old(self).host
            },
            encodable(key@) ==> {
                &&& old(self).host.get_evolved(c_bytes(key@), &final(self).host)
                &&& models_get(r, get_outcome(old(self).host.get_reply(c_bytes(key@))))
            },
    {
        let kb = match c_encode(key) {
            Result::Ok(v) => v,
            Result::Err(e) => {
                return Result::Err(BridgeError::Domain(e));
            },
        };
        match self.host.raw_get(&kb) {
            HostReply::Value(b) => {
                match bytes_to_string(b) {
                    Option::Some(s) => {
                        proof {
                            encode_utf8_decode_utf8(s@);
                        }
                        Result::Ok(Option::Some(s))
                    },
                    Option::None => Result::Err(
                        BridgeError::Domain(EnvError::Other("callback bytes are not valid UTF-8".to_owned())),
                    ),
                }
            },
            HostReply::Absent => Result::Ok(Option::None),
            HostReply::Panicked => Result::Err(BridgeError::HostPanic),
        }
    }
}

} // verus!
