//! Encodings of what accompanies a message: its metadata, the message it
//! replies to, the anonymous sender, and the receipt of a sent message.

use crate::abi::message::FFIMessageElement;
use crate::abi::{RustString, RustVec};
use vstd::prelude::*;

verus! {

/// No optional part is present.
pub const NONE_META: u8 = 0;

/// Bit of the flags byte that says the anonymous sender is present.
pub const ANONYMOUS_FLAG: u8 = 1;

/// Bit of the flags byte that says the replied-to message is present.
pub const REPLY_FLAG: u8 = 2;

pub struct FFIMessageReceipt {
    pub seqs: RustVec<i32>,
    pub rands: RustVec<i32>,
    pub time: i64,
}

/// Encoded metadata. The two slots are written only when their bit is set in
/// `flags`; a slot whose bit is clear is never read.
pub struct FFIMessageMetadata {
    pub seqs: RustVec<i32>,
    pub rands: RustVec<i32>,
    pub time: i32,
    pub sender: i64,
    pub flags: u8,
    pub anonymous: Option<FFIAnonymous>,
    pub reply: Option<FFIReply>,
}

pub struct FFIReply {
    pub reply_seq: i32,
    pub sender: i64,
    pub time: i32,
    pub elements: RustVec<FFIMessageElement>,
}

pub struct FFIAnonymous {
    pub anon_id: RustVec<u8>,
    pub nick: RustString,
    pub portrait_index: i32,
    pub bubble_index: i32,
    pub expire_time: i32,
    pub color: RustString,
}

/// Whether the anonymous-sender bit is set in a flags byte.
pub open spec fn has_anonymous(flags: u8) -> bool {
    flags & ANONYMOUS_FLAG != 0
}

/// Whether the reply bit is set in a flags byte.
pub open spec fn has_reply(flags: u8) -> bool {
    flags & REPLY_FLAG != 0
}

/// The flags byte with exactly the bits of the parts that are present.
pub open spec fn flags_of(anonymous: bool, reply: bool) -> u8 {
    if anonymous && reply {
        3
    } else if anonymous {
        1
    } else if reply {
        2
    } else {
        0
    }
}

/// The flags byte built from the two bits tells of each part whether it is
/// present.
pub proof fn lemma_flags_of(anonymous: bool, reply: bool)
    ensures
        has_anonymous(flags_of(anonymous, reply)) == anonymous,
        has_reply(flags_of(anonymous, reply)) == reply,
{
    assert(3u8 & 1u8 != 0 && 3u8 & 2u8 != 0) by (bit_vector);
    assert(1u8 & 1u8 != 0 && 1u8 & 2u8 == 0) by (bit_vector);
    assert(2u8 & 1u8 == 0 && 2u8 & 2u8 != 0) by (bit_vector);
    assert(0u8 & 1u8 == 0 && 0u8 & 2u8 == 0) by (bit_vector);
}

} // verus!
