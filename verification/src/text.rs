//! Text crossing the boundary: the null-terminated encoding of outgoing
//! strings, the UTF-8 validation of incoming bytes, and the canonical
//! JSON text for an absent value.

use vstd::prelude::*;
use vstd::utf8::encode_utf8;
use vstd::utf8::valid_utf8;

use crate::ffi_error::EnvError;
use crate::host::is_cstr;

verus! {

/// True of a string that can cross the boundary: its UTF-8 bytes hold no
/// embedded null byte, so a terminator can be appended unambiguously.
pub open spec fn encodable(s: Seq<char>) -> bool {
    !encode_utf8(s).contains(0u8)
}

/// The C string form of an encodable string: its UTF-8 bytes followed by
/// the null terminator.
pub open spec fn c_bytes(s: Seq<char>) -> Seq<u8> {
    encode_utf8(s).push(0u8)
}

/// Encodes a string as a null-terminated byte buffer for a callback.
/// Fails, rather than truncating silently, exactly when the string holds
/// an embedded null byte: such a string is a caller contract violation.
pub fn c_encode(s: &str) -> (r: Result<Vec<u8>, EnvError>)
    ensures
        match r {
            Result::Ok(v) => encodable(s@) && v@ == c_bytes(s@) && is_cstr(v@),
            Result::Err(e) => !encodable(s@) && e matches EnvError::Other(_),
        },
{
    let bytes: &[u8] = s.as_bytes();
    let mut out: Vec<u8> = Vec::new();
    let mut i: usize = 0;
    while i < bytes.len()
        invariant
            i <= bytes@.len(),
            bytes@ == encode_utf8(s@),
            out@ == bytes@.take(i as int),
            forall|j: int| 0 <= j < i ==> bytes@[j] != 0,
        decreases bytes@.len() - i,
    {
        if bytes[i] == 0 {
            assert(encode_utf8(s@).contains(0u8));
            return Result::Err(EnvError::Other("embedded null byte".to_owned()));
        }
        out.push(bytes[i]);
        i += 1;
    }
    assert(out@ =~= encode_utf8(s@));
    assert(!encode_utf8(s@).contains(0u8));
    out.push(0);
    assert(is_cstr(out@));
    Result::Ok(out)
}

/// Relies on `String::from_utf8`: it succeeds exactly on input that is
/// valid UTF-8 and returns the string those bytes encode.
#[verifier::external_body]
pub(crate) fn bytes_to_string(bytes: Vec<u8>) -> (r: Option<String>)
    ensures
        match r {
            Option::Some(s) => valid_utf8(bytes@) && encode_utf8(s@) == bytes@,
            Option::None => !valid_utf8(bytes@),
        },
{
    match String::from_utf8(bytes) {
        Result::Ok(s) => Option::Some(s),
        Result::Err(_) => Option::None,
    }
}

/// Relies on `core::str::from_utf8`: it succeeds exactly on input that
/// is valid UTF-8.
#[verifier::external_body]
pub(crate) fn check_utf8(bytes: &Vec<u8>) -> (r: bool)
    ensures
        r == valid_utf8(bytes@),
{
    core::str::from_utf8(bytes.as_slice()).is_ok()
}

/// Whether a byte buffer holds a null byte anywhere.
pub fn contains_zero(b: &Vec<u8>) -> (r: bool)
    ensures
        r == b@.contains(0u8),
{
    let mut i: usize = 0;
    while i < b.len()
        invariant
            i <= b@.len(),
            forall|j: int| 0 <= j < i ==> b@[j] != 0,
        decreases b@.len() - i,
    {
        if b[i] == 0 {
            assert(b@.contains(0u8));
            return true;
        }
        i += 1;
    }
    false
}

/// The canonical JSON text standing for an absent value: the four bytes
/// of `null`.
pub open spec fn json_null_text() -> Seq<u8> {
    seq![110u8, 117u8, 108u8, 108u8]
}

/// Relies on `serde_json::to_string` applied to `serde_json::Value::Null`:
/// the JSON encoding of the null value is the four bytes of `null`.
/// Serializing `Value::Null` cannot fail (serde_json fails only on maps
/// with non-string keys or on a failing `Serialize` impl), so the
/// `unwrap` never panics.
#[verifier::external_body]
pub(crate) fn json_null_bytes() -> (r: Vec<u8>)
    ensures
        r@ == json_null_text(),
{
    serde_json::to_string(&serde_json::Value::Null).unwrap().into_bytes()
}

} // verus!
