//! The host side of the bridge: the callback contracts the managed host
//! implements, modelled as traits over plain byte buffers.
//!
//! Each trait method carries the one guarantee a caller can rely on: the
//! reply and the state change are the ones the implementing host's own
//! model functions prescribe. What those functions say is the host's
//! choice; a hostile host may reply with anything, including invalid text
//! or a caught panic, and every contract downstream covers that.

use vstd::prelude::*;

verus! {

/// True of a byte buffer in the C string form the callbacks are handed:
/// at least the terminator, which is the only null byte in it.
pub open spec fn is_cstr(b: Seq<u8>) -> bool {
    &&& b.len() >= 1
    &&& b[b.len() - 1] == 0
    &&& forall|i: int| 0 <= i < b.len() - 1 ==> b[i] != 0
}

/// What a get-callback handed back, as the native side reads it: the
/// bytes up to the host's terminator, the absent marker, or a panic that
/// the boundary caught.
#[derive(Debug)]
pub enum HostReply {
    /// A non-null pointer: the payload bytes, terminator excluded.
    Value(Vec<u8>),
    /// A null pointer: the key has no entry.
    Absent,
    /// The callback panicked; the boundary caught it.
    Panicked,
}

/// The ghost shape of a [`HostReply`], for contracts.
pub ghost enum HostReplyModel {
    Value(Seq<u8>),
    Absent,
    Panicked,
}

/// The ghost shape of a given reply.
pub open spec fn reply_model(r: &HostReply) -> HostReplyModel {
    match *r {
        HostReply::Value(ref b) => HostReplyModel::Value(b@),
        HostReply::Absent => HostReplyModel::Absent,
        HostReply::Panicked => HostReplyModel::Panicked,
    }
}

/// How a callback without a result came back: normally, or through a
/// panic that the boundary caught.
#[derive(Clone, Copy, Debug, PartialEq, Eq, Structural)]
pub enum HostAck {
    Done,
    Panicked,
}

/// The ghost shape of the optional value handed to a set-callback.
pub open spec fn value_model(v: &Option<Vec<u8>>) -> Option<Seq<u8>> {
    match *v {
        Option::Some(ref b) => Option::Some(b@),
        Option::None => Option::None,
    }
}

/// The pair of raw storage callbacks a host supplies: get and set over
/// null-terminated byte buffers.
///
/// `get_reply`, `set_ack` and the two evolution relations are the
/// implementor's model of itself; the method contracts only tie what
/// happens at a call to that model.
pub trait RawHost: Sized {
    /// The reply this host state gives to a get of `key`. A host that
    /// does not say is simply unconstrained.
    open spec fn get_reply(&self, key: Seq<u8>) -> HostReplyModel {
        arbitrary()
    }

    /// How a get of `key` may change the host state.
    open spec fn get_evolved(&self, key: Seq<u8>, post: &Self) -> bool {
        arbitrary()
    }

    /// Whether a set of `key` to `value` comes back normally or panics.
    open spec fn set_ack(&self, key: Seq<u8>, value: Option<Seq<u8>>) -> HostAck {
        arbitrary()
    }

    /// How a set of `key` to `value` may change the host state.
    open spec fn set_evolved(&self, key: Seq<u8>, value: Option<Seq<u8>>, post: &Self) -> bool {
        arbitrary()
    }

    /// The get-callback. The key crosses as a null-terminated buffer; the
    /// reply is read back up to the host's terminator, or is the absent
    /// marker, or records a caught panic.
    fn raw_get(&mut self, key: &Vec<u8>) -> (r: HostReply)
        requires
            is_cstr(key@),
        ensures
            reply_model(&r) == old(self).get_reply(key@),
            old(self).get_evolved(key@, final(self)),
    ;

    /// The set-callback. An absent value crosses as the null marker,
    /// never as an empty buffer.
    fn raw_set(&mut self, key: &Vec<u8>, value: &Option<Vec<u8>>) -> (r: HostAck)
        requires
            is_cstr(key@),
            value matches Option::Some(v) ==> is_cstr(v@),
        ensures
            r == old(self).set_ack(key@, value_model(value)),
            old(self).set_evolved(key@, value_model(value), final(self)),
    ;
}

/// The pair of bounded storage callbacks a host supplies: the same
/// logical contract as [`RawHost`], but the host-side representation
/// carries an explicit length beside the bytes. To the native side both
/// directions still look like terminated buffers, so the model is the
/// same.
pub trait BoundedHost: Sized {
    /// The reply this host state gives to a get of `key`. A host that
    /// does not say is simply unconstrained.
    open spec fn get_reply(&self, key: Seq<u8>) -> HostReplyModel {
        arbitrary()
    }

    /// How a get of `key` may change the host state.
    open spec fn get_evolved(&self, key: Seq<u8>, post: &Self) -> bool {
        arbitrary()
    }

    /// Whether a set of `key` to `value` comes back normally or panics.
    open spec fn set_ack(&self, key: Seq<u8>, value: Option<Seq<u8>>) -> HostAck {
        arbitrary()
    }

    /// How a set of `key` to `value` may change the host state.
    open spec fn set_evolved(&self, key: Seq<u8>, value: Option<Seq<u8>>, post: &Self) -> bool {
        arbitrary()
    }

    /// The bounded get-callback.
    fn bounded_get(&mut self, key: &Vec<u8>) -> (r: HostReply)
        requires
            is_cstr(key@),
        ensures
            reply_model(&r) == old(self).get_reply(key@),
            old(self).get_evolved(key@, final(self)),
    ;

    /// The bounded set-callback. An absent value crosses as the absent
    /// marker, never as an empty buffer.
    fn bounded_set(&mut self, key: &Vec<u8>, value: &Option<Vec<u8>>) -> (r: HostAck)
        requires
            is_cstr(key@),
            value matches Option::Some(v) ==> is_cstr(v@),
        ensures
            r == old(self).set_ack(key@, value_model(value)),
            old(self).set_evolved(key@, value_model(value), final(self)),
    ;
}

/// The debug-log callback a host supplies: a sink for diagnostic lines.
pub trait DebugSink: Sized {
    /// Whether logging `message` comes back normally or panics. A sink
    /// that does not say is simply unconstrained.
    open spec fn log_ack(&self, message: Seq<u8>) -> HostAck {
        arbitrary()
    }

    /// How logging `message` may change the sink state.
    open spec fn log_evolved(&self, message: Seq<u8>, post: &Self) -> bool {
        arbitrary()
    }

    /// The log-callback. The message crosses as a null-terminated buffer.
    fn log(&mut self, message: &Vec<u8>) -> (r: HostAck)
        requires
            is_cstr(message@),
        ensures
            r == old(self).log_ack(message@),
            old(self).log_evolved(message@, final(self)),
    ;
}

} // verus!
