//! Hosts that misbehave in the ways the bridge contracts guard against:
//! one replies with bytes that are not valid text, one panics in every
//! callback. They model an untrusted host for the failure-path laws and
//! tests.

use vstd::prelude::*;

use crate::host::BoundedHost;
use crate::host::DebugSink;
use crate::host::HostAck;
use crate::host::HostReply;
use crate::host::HostReplyModel;
use crate::host::RawHost;

verus! {

/// The reply bytes of [`InvalidTextHost`]: not valid UTF-8.
pub open spec fn invalid_text_bytes() -> Seq<u8> {
    seq![255u8, 254u8, 1u8]
}

/// A stateless host whose get-callback always hands back the same bytes
/// that are not valid UTF-8, and whose set-callback accepts and forgets.
pub struct InvalidTextHost {
}

impl InvalidTextHost {
    fn reply(&self) -> (r: HostReply)
        ensures
            crate::host::reply_model(&r) == HostReplyModel::Value(invalid_text_bytes()),
    {
        let mut b: Vec<u8> = Vec::new();
        b.push(255);
        b.push(254);
        b.push(1);
        assert(b@ =~= invalid_text_bytes());
        HostReply::Value(b)
    }
}

impl RawHost for InvalidTextHost {
    open spec fn get_reply(&self, key: Seq<u8>) -> HostReplyModel {
        HostReplyModel::Value(invalid_text_bytes())
    }

    open spec fn get_evolved(&self, key: Seq<u8>, post: &Self) -> bool {
        true
    }

    open spec fn set_ack(&self, key: Seq<u8>, value: Option<Seq<u8>>) -> HostAck {
        HostAck::Done
    }

    open spec fn set_evolved(&self, key: Seq<u8>, value: Option<Seq<u8>>, post: &Self) -> bool {
        true
    }

    fn raw_get(&mut self, key: &Vec<u8>) -> (r: HostReply) {
        self.reply()
    }

    fn raw_set(&mut self, key: &Vec<u8>, value: &Option<Vec<u8>>) -> (r: HostAck) {
        HostAck::Done
    }
}

impl BoundedHost for InvalidTextHost {
    open spec fn get_reply(&self, key: Seq<u8>) -> HostReplyModel {
        HostReplyModel::Value(invalid_text_bytes())
    }

    open spec fn get_evolved(&self, key: Seq<u8>, post: &Self) -> bool {
        true
    }

    open spec fn set_ack(&self, key: Seq<u8>, value: Option<Seq<u8>>) -> HostAck {
        HostAck::Done
    }

    open spec fn set_evolved(&self, key: Seq<u8>, value: Option<Seq<u8>>, post: &Self) -> bool {
        true
    }

    fn bounded_get(&mut self, key: &Vec<u8>) -> (r: HostReply) {
        self.reply()
    }

    fn bounded_set(&mut self, key: &Vec<u8>, value: &Option<Vec<u8>>) -> (r: HostAck) {
        HostAck::Done
    }
}

/// A host whose every callback panics; the boundary reports each call as
/// a caught panic.
pub struct PanickyHost {
}

impl RawHost for PanickyHost {
    open spec fn get_reply(&self, key: Seq<u8>) -> HostReplyModel {
        HostReplyModel::Panicked
    }

    open spec fn get_evolved(&self, key: Seq<u8>, post: &Self) -> bool {
        true
    }

    open spec fn set_ack(&self, key: Seq<u8>, value: Option<Seq<u8>>) -> HostAck {
        HostAck::Panicked
    }

    open spec fn set_evolved(&self, key: Seq<u8>, value: Option<Seq<u8>>, post: &Self) -> bool {
        true
    }

    fn raw_get(&mut self, key: &Vec<u8>) -> (r: HostReply) {
        HostReply::Panicked
    }

    fn raw_set(&mut self, key: &Vec<u8>, value: &Option<Vec<u8>>) -> (r: HostAck) {
        HostAck::Panicked
    }
}

impl BoundedHost for PanickyHost {
    open spec fn get_reply(&self, key: Seq<u8>) -> HostReplyModel {
        HostReplyModel::Panicked
    }

    open spec fn get_evolved(&self, key: Seq<u8>, post: &Self) -> bool {
        true
    }

    open spec fn set_ack(&self, key: Seq<u8>, value: Option<Seq<u8>>) -> HostAck {
        HostAck::Panicked
    }

    open spec fn set_evolved(&self, key: Seq<u8>, value: Option<Seq<u8>>, post: &Self) -> bool {
        true
    }

    fn bounded_get(&mut self, key: &Vec<u8>) -> (r: HostReply) {
        HostReply::Panicked
    }

    fn bounded_set(&mut self, key: &Vec<u8>, value: &Option<Vec<u8>>) -> (r: HostAck) {
        HostAck::Panicked
    }
}

impl DebugSink for PanickyHost {
    open spec fn log_ack(&self, message: Seq<u8>) -> HostAck {
        HostAck::Panicked
    }

    open spec fn log_evolved(&self, message: Seq<u8>, post: &Self) -> bool {
        true
    }

    fn log(&mut self, message: &Vec<u8>) -> (r: HostAck) {
        HostAck::Panicked
    }
}

} // verus!
