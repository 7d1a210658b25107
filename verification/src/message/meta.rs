//! What accompanies a message: where it came from, what it replies to.

use crate::message::MessageElement;
use vstd::prelude::*;

verus! {

/// What the host gives back for a message that was sent.
#[derive(Clone, Debug)]
pub struct MessageReceipt {
    pub seqs: Vec<i32>,
    pub rands: Vec<i32>,
    pub time: i64,
}

impl Default for MessageReceipt {
    fn default() -> (r: Self)
        ensures
            r.seqs@.len() == 0,
            r.rands@.len() == 0,
            r.time == 0,
    {
        MessageReceipt { seqs: Vec::new(), rands: Vec::new(), time: 0 }
    }
}

pub struct MessageMetadata {
    pub seqs: Vec<i32>,
    pub rands: Vec<i32>,
    pub time: i32,
    pub sender: i64,
    pub anonymous: Option<Anonymous>,
    pub reply: Option<Reply>,
}

/// Metadata as a value: sequences in place of vectors.
pub struct MetadataView {
    pub seqs: Seq<i32>,
    pub rands: Seq<i32>,
    pub time: i32,
    pub sender: i64,
    pub anonymous: Option<Anonymous>,
    pub reply: Option<ReplyView>,
}

impl MetadataView {
    /// The metadata of a message that has not been sent or received.
    pub open spec fn empty() -> MetadataView {
        MetadataView {
            seqs: Seq::empty(),
            rands: Seq::empty(),
            time: 0,
            sender: 0,
            anonymous: None,
            reply: None,
        }
    }
}

impl View for MessageMetadata {
    type V = MetadataView;

    open spec fn view(&self) -> MetadataView {
        MetadataView {
            seqs: self.seqs@,
            rands: self.rands@,
            time: self.time,
            sender: self.sender,
            anonymous: self.anonymous,
            reply: match self.reply {
                Some(r) => Some(r@),
                None => None,
            },
        }
    }
}

impl Default for MessageMetadata {
    fn default() -> (r: Self)
        ensures
            r@ == MetadataView::empty(),
    {
        MessageMetadata {
            seqs: Vec::new(),
            rands: Vec::new(),
            time: 0,
            sender: 0,
            anonymous: None,
            reply: None,
        }
    }
}

/// The message that another message replies to.
pub struct Reply {
    pub reply_seq: i32,
    pub sender: i64,
    pub time: i32,
    pub elements: Vec<MessageElement>,
}

/// A reply as a value: a sequence in place of the vector.
pub struct ReplyView {
    pub reply_seq: i32,
    pub sender: i64,
    pub time: i32,
    pub elements: Seq<MessageElement>,
}

impl View for Reply {
    type V = ReplyView;

    open spec fn view(&self) -> ReplyView {
        ReplyView {
            reply_seq: self.reply_seq,
            sender: self.sender,
            time: self.time,
            elements: self.elements@,
        }
    }
}

impl Default for Reply {
    fn default() -> (r: Self)
        ensures
            r@ == (ReplyView { reply_seq: 0, sender: 0, time: 0, elements: Seq::empty() }),
    {
        Reply { reply_seq: 0, sender: 0, time: 0, elements: Vec::new() }
    }
}

/// The anonymous identity under which a group message was sent.
#[derive(Clone, Debug)]
pub struct Anonymous {
    pub anon_id: Vec<u8>,
    pub nick: String,
    pub portrait_index: i32,
    pub bubble_index: i32,
    pub expire_time: i32,
    pub color: String,
}

impl Default for Anonymous {
    fn default() -> (r: Self)
        ensures
            r.anon_id@.len() == 0,
            r.nick@.len() == 0,
            r.portrait_index == 0,
            r.bubble_index == 0,
            r.expire_time == 0,
            r.color@.len() == 0,
    {
        Anonymous {
            anon_id: Vec::new(),
            nick: String::new(),
            portrait_index: 0,
            bubble_index: 0,
            expire_time: 0,
            color: String::new(),
        }
    }
}

} // verus!
