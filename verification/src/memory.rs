//! An in-memory host: a verified implementation of the callback traits,
//! backed by a journal of set calls. It is the reference model the
//! round-trip laws are proved against, and the stub that tests wire the
//! bridges to.

use vstd::prelude::*;
use vstd::utf8::encode_utf8;
use vstd::utf8::encode_utf8_decode_utf8;
use vstd::utf8::encode_utf8_valid_utf8;

use crate::ffi_error::FFIError;
use crate::host::BoundedHost;
use crate::host::DebugSink;
use crate::host::HostAck;
use crate::host::HostReply;
use crate::host::HostReplyModel;
use crate::host::RawHost;
use crate::storage::get_outcome;
use crate::storage::set_payload;
use crate::storage_ascii::bounded_get_bytes;
use crate::text::c_bytes;
use crate::text::encodable;
use crate::text::json_null_text;

verus! {

/// The payload a host hands back for a stored buffer: the bytes up to
/// the terminator. A buffer without one is handed back whole.
pub open spec fn payload_of(v: Seq<u8>) -> Seq<u8> {
    if v.len() >= 1 {
        v.take(v.len() - 1)
    } else {
        v
    }
}

/// The reply a journal of set calls gives for a key: the payload of the
/// last value set for it, absent if that value was the absent marker or
/// the key was never set.
pub open spec fn lookup(entries: Seq<(Seq<u8>, Option<Seq<u8>>)>, key: Seq<u8>) -> HostReplyModel
    decreases entries.len(),
{
    if entries.len() == 0 {
        HostReplyModel::Absent
    } else {
        let last = entries[entries.len() - 1];
        if last.0 == key {
            match last.1 {
                Option::Some(v) => HostReplyModel::Value(payload_of(v)),
                Option::None => HostReplyModel::Absent,
            }
        } else {
            lookup(entries.drop_last(), key)
        }
    }
}

/// Copies a byte buffer.
fn clone_bytes(v: &Vec<u8>) -> (r: Vec<u8>)
    ensures
        r@ == v@,
{
    let mut out: Vec<u8> = Vec::new();
    let mut i: usize = 0;
    while i < v.len()
        invariant
            i <= v@.len(),
            out@ == v@.take(i as int),
        decreases v@.len() - i,
    {
        out.push(v[i]);
        i += 1;
    }
    assert(out@ =~= v@);
    out
}

/// Whether two byte buffers hold the same bytes.
fn bytes_eq(a: &Vec<u8>, b: &Vec<u8>) -> (r: bool)
    ensures
        r == (a@ == b@),
{
    if a.len() != b.len() {
        return false;
    }
    let mut i: usize = 0;
    while i < a.len()
        invariant
            i <= a@.len(),
            a@.len() == b@.len(),
            forall|j: int| 0 <= j < i ==> a@[j] == b@[j],
        decreases a@.len() - i,
    {
        if a[i] != b[i] {
            return false;
        }
        i += 1;
    }
    assert(a@ =~= b@);
    true
}

/// Copies the payload of a stored buffer: everything up to the
/// terminator, or the whole buffer if it has none.
fn copy_payload(v: &Vec<u8>) -> (r: Vec<u8>)
    ensures
        r@ == payload_of(v@),
{
    let end = if v.len() >= 1 {
        v.len() - 1
    } else {
        0
    };
    let mut out: Vec<u8> = Vec::new();
    let mut i: usize = 0;
    while i < end
        invariant
            end <= v@.len(),
            i <= end,
            out@ == v@.take(i as int),
        decreases end - i,
    {
        out.push(v[i]);
        i += 1;
    }
    assert(out@ =~= payload_of(v@));
    out
}

/// A host whose storage is a journal of the set calls it received, in
/// order. A get replies with the last value set for the key.
pub struct MemoryHost {
    /// Every set call received, oldest first: the key buffer and the
    /// value buffer or absent marker, as handed over.
    pub entries: Vec<(Vec<u8>, Option<Vec<u8>>)>,
}

impl MemoryHost {
    /// The journal as ghost sequences.
    pub open spec fn journal(&self) -> Seq<(Seq<u8>, Option<Seq<u8>>)> {
        self.entries@.map_values(
            |e: (Vec<u8>, Option<Vec<u8>>)|
                (
                    e.0@,
                    match e.1 {
                        Option::Some(b) => Option::Some(b@),
                        Option::None => Option::None,
                    },
                ),
        )
    }

    /// A host that has seen no set call.
    pub fn new() -> (h: Self)
        ensures
            h.journal().len() == 0,
    {
        MemoryHost { entries: Vec::new() }
    }

    fn get_impl(&mut self, key: &Vec<u8>) -> (r: HostReply)
        ensures
            crate::host::reply_model(&r) == lookup(old(self).journal(), key@),
            final(self).journal() == old(self).journal(),
    {
        let mut i: usize = self.entries.len();
        assert(self.journal().take(i as int) =~= self.journal());
        while i > 0
            invariant
                i <= self.entries@.len(),
                self.journal().len() == self.entries@.len(),
                lookup(self.journal().take(i as int), key@) == lookup(self.journal(), key@),

            decreases i,
        {
            i -= 1;
            assert(self.journal().take(i + 1).drop_last() =~= self.journal().take(i as int));
            assert(self.journal().take(i + 1).last() == self.journal()[i as int]);
            let hit = bytes_eq(&self.entries[i].0, key);
            if hit {
                match &self.entries[i].1 {
                    Option::Some(v) => {
                        return HostReply::Value(copy_payload(v));
                    },
                    Option::None => {
                        return HostReply::Absent;
                    },
                }
            }
        }
        assert(self.journal().take(0) =~= Seq::<(Seq<u8>, Option<Seq<u8>>)>::empty());
        HostReply::Absent
    }

    fn set_impl(&mut self, key: &Vec<u8>, value: &Option<Vec<u8>>) -> (r: HostAck)
        ensures
            r == HostAck::Done,
            final(self).journal() == old(self).journal().push(
                (key@, crate::host::value_model(value)),
            ),
    {
        let v: Option<Vec<u8>> = match value {
            Option::Some(b) => Option::Some(clone_bytes(b)),
            Option::None => Option::None,
        };
        self.entries.push((clone_bytes(key), v));
        assert(self.journal() =~= old(self).journal().push(
            (key@, crate::host::value_model(value)),
        ));
        HostAck::Done
    }
}

impl RawHost for MemoryHost {
    open spec fn get_reply(&self, key: Seq<u8>) -> HostReplyModel {
        lookup(self.journal(), key)
    }

    open spec fn get_evolved(&self, key: Seq<u8>, post: &Self) -> bool {
        post.journal() == self.journal()
    }

    open spec fn set_ack(&self, key: Seq<u8>, value: Option<Seq<u8>>) -> HostAck {
        HostAck::Done
    }

    open spec fn set_evolved(&self, key: Seq<u8>, value: Option<Seq<u8>>, post: &Self) -> bool {
        post.journal() == self.journal().push((key, value))
    }

    fn raw_get(&mut self, key: &Vec<u8>) -> (r: HostReply) {
        self.get_impl(key)
    }

    fn raw_set(&mut self, key: &Vec<u8>, value: &Option<Vec<u8>>) -> (r: HostAck) {
        self.set_impl(key, value)
    }
}

impl BoundedHost for MemoryHost {
    open spec fn get_reply(&self, key: Seq<u8>) -> HostReplyModel {
        lookup(self.journal(), key)
    }

    open spec fn get_evolved(&self, key: Seq<u8>, post: &Self) -> bool {
        post.journal() == self.journal()
    }

    open spec fn set_ack(&self, key: Seq<u8>, value: Option<Seq<u8>>) -> HostAck {
        HostAck::Done
    }

    open spec fn set_evolved(&self, key: Seq<u8>, value: Option<Seq<u8>>, post: &Self) -> bool {
        post.journal() == self.journal().push((key, value))
    }

    fn bounded_get(&mut self, key: &Vec<u8>) -> (r: HostReply) {
        self.get_impl(key)
    }

    fn bounded_set(&mut self, key: &Vec<u8>, value: &Option<Vec<u8>>) -> (r: HostAck) {
        self.set_impl(key, value)
    }
}

/// A debug sink that keeps every message it was handed, in order.
pub struct MemorySink {
    /// The logged message buffers, oldest first.
    pub messages: Vec<Vec<u8>>,
}

impl MemorySink {
    /// The messages as ghost sequences.
    pub open spec fn heard(&self) -> Seq<Seq<u8>> {
        self.messages@.map_values(|m: Vec<u8>| m@)
    }

    /// A sink that has heard nothing.
    pub fn new() -> (s: Self)
        ensures
            s.heard().len() == 0,
    {
        MemorySink { messages: Vec::new() }
    }
}

impl DebugSink for MemorySink {
    open spec fn log_ack(&self, message: Seq<u8>) -> HostAck {
        HostAck::Done
    }

    open spec fn log_evolved(&self, message: Seq<u8>, post: &Self) -> bool {
        post.heard() == self.heard().push(message)
    }

    fn log(&mut self, message: &Vec<u8>) -> (r: HostAck) {
        self.messages.push(clone_bytes(message));
        assert(self.heard() =~= old(self).heard().push(message@));
        HostAck::Done
    }
}

/// Round trip on a memory host, at the byte level: after a set of `key`
/// to a present buffer, a get of the same key replies with that buffer's
/// payload.
pub proof fn lemma_memory_round_trip(
    pre: MemoryHost,
    post: MemoryHost,
    key: Seq<u8>,
    value: Seq<u8>,
)
    requires
        RawHost::set_evolved(&pre, key, Option::Some(value), &post),
    ensures
        RawHost::get_reply(&post, key) == HostReplyModel::Value(payload_of(value)),
{
}

/// Round trip at the string level: after a set of an encodable key to an
/// encodable value, the reply a get of that key receives decodes to
/// exactly the value that was set — so a get after a set returns it.
pub proof fn lemma_round_trip_decodes(
    pre: MemoryHost,
    post: MemoryHost,
    key: Seq<char>,
    value: Seq<char>,
)
    requires
        encodable(key),
        encodable(value),
        RawHost::set_evolved(&pre, c_bytes(key), set_payload(Option::Some(value)), &post),
    ensures
        get_outcome(RawHost::get_reply(&post, c_bytes(key))) == Result::<
            Option<Seq<char>>,
            FFIError,
        >::Ok(Option::Some(value)),
{
    lemma_memory_round_trip(pre, post, c_bytes(key), c_bytes(value));
    assert(payload_of(c_bytes(value)) =~= encode_utf8(value));
    encode_utf8_valid_utf8(value);
    encode_utf8_decode_utf8(value);
}

/// A key a memory host was never told about is reported absent: the raw
/// get outcome is the absent value, and the bounded read delivers the
/// five bytes of the JSON null text with its terminator.
pub proof fn lemma_fresh_get_absent(h: MemoryHost, key: Seq<u8>)
    requires
        h.journal().len() == 0,
    ensures
        RawHost::get_reply(&h, key) == HostReplyModel::Absent,
        get_outcome(RawHost::get_reply(&h, key)) == Result::<Option<Seq<char>>, FFIError>::Ok(
            Option::None,
        ),
        bounded_get_bytes(RawHost::get_reply(&h, key)) == Result::<Seq<u8>, FFIError>::Ok(
            json_null_text().push(0u8),
        ),
        json_null_text().push(0u8).len() == 5,
{
}

/// Setting a key to the absent marker makes a later get of it absent:
/// the marker is stored as absence, not as an empty string.
pub proof fn lemma_set_absent_is_absent(pre: MemoryHost, post: MemoryHost, key: Seq<u8>)
    requires
        RawHost::set_evolved(&pre, key, Option::None, &post),
    ensures
        RawHost::get_reply(&post, key) == HostReplyModel::Absent,
{
}

} // verus!
