//! Conversions between messages and their encodings.
//!
//! Each direction has a contract over the same three notions: the encoding of
//! a value, the well-formedness of an encoding, and the value that a
//! well-formed encoding stands for. The lemmas at the end say that what was
//! encoded is well-formed and stands for the value it was made from.

use crate::abi::message::meta::{
    flags_of, has_anonymous, has_reply, lemma_flags_of, FFIAnonymous, FFIMessageMetadata,
    FFIMessageReceipt, FFIReply, ANONYMOUS_FLAG, NONE_META, REPLY_FLAG,
};
use crate::abi::message::{
    FFIAt, FFIFace, FFIMessageChain, FFIMessageElement, MessageElementFlag, MessageElementUnion,
};
use crate::abi::{RustString, RustVec};
use crate::message::at::At;
use crate::message::face::Face;
use crate::message::image::Image;
use crate::message::meta::{
    Anonymous, MessageMetadata, MessageReceipt, MetadataView, Reply, ReplyView,
};
use crate::message::{ChainView, MessageChain, MessageElement};
use vstd::prelude::*;

verus! {

impl At {
    pub open spec fn ffi(self) -> FFIAt {
        FFIAt { target: self.target, display: RustString::encoded(self.display) }
    }

    pub fn into_ffi(self) -> (r: FFIAt)
        ensures
            r == self.ffi(),
    {
        let At { target, display } = self;
        FFIAt { target, display: RustString::from(display) }
    }

    pub fn from_ffi(value: FFIAt) -> (r: At)
        ensures
            r == value.native(),
    {
        let FFIAt { target, display } = value;
        At { target, display: String::from(display) }
    }
}

impl FFIAt {
    pub open spec fn native(self) -> At {
        At { target: self.target, display: self.display.decoded() }
    }
}

impl Face {
    pub open spec fn ffi(self) -> FFIFace {
        FFIFace { index: self.index, name: RustString::encoded(self.name) }
    }

    pub fn into_ffi(self) -> (r: FFIFace)
        ensures
            r == self.ffi(),
    {
        let Face { index, name } = self;
        FFIFace { index, name: RustString::from(name) }
    }

    pub fn from_ffi(value: FFIFace) -> (r: Face)
        ensures
            r == value.native(),
    {
        let FFIFace { index, name } = value;
        Face { index, name: String::from(name) }
    }
}

impl FFIFace {
    pub open spec fn native(self) -> Face {
        Face { index: self.index, name: self.name.decoded() }
    }
}

impl MessageElement {
    /// The discriminant of this element.
    pub open spec fn flag(self) -> MessageElementFlag {
        match self {
            MessageElement::Text(_) => MessageElementFlag::Text,
            MessageElement::Image(_) => MessageElementFlag::Image,
            MessageElement::At(_) => MessageElementFlag::At,
            MessageElement::AtAll => MessageElementFlag::AtAll,
            MessageElement::Face(_) => MessageElementFlag::Face,
            MessageElement::Unknown(_) => MessageElementFlag::Unknown,
        }
    }

    /// The encoding of this element: its discriminant byte, and the payload
    /// member of that discriminant.
    pub open spec fn ffi(self) -> FFIMessageElement {
        FFIMessageElement {
            t: self.flag().spec_value(),
            union: match self {
                MessageElement::Text(s) => MessageElementUnion::Text(RustString::encoded(s)),
                MessageElement::Image(img) => MessageElementUnion::Image(img.0),
                MessageElement::At(at) => MessageElementUnion::At(at.ffi()),
                MessageElement::AtAll => MessageElementUnion::AtAll,
                MessageElement::Face(face) => MessageElementUnion::Face(face.ffi()),
                MessageElement::Unknown(ma) => MessageElementUnion::Unknown(ma),
            },
        }
    }

    pub fn into_ffi(self) -> (r: FFIMessageElement)
        ensures
            r == self.ffi(),
    {
        match self {
            MessageElement::Text(s) => FFIMessageElement {
                t: MessageElementFlag::Text.value(),
                union: MessageElementUnion::Text(RustString::from(s)),
            },
            MessageElement::Image(img) => FFIMessageElement {
                t: MessageElementFlag::Image.value(),
                union: MessageElementUnion::Image(img.0),
            },
            MessageElement::At(at) => FFIMessageElement {
                t: MessageElementFlag::At.value(),
                union: MessageElementUnion::At(at.into_ffi()),
            },
            MessageElement::AtAll => FFIMessageElement {
                t: MessageElementFlag::AtAll.value(),
                union: MessageElementUnion::AtAll,
            },
            MessageElement::Face(face) => FFIMessageElement {
                t: MessageElementFlag::Face.value(),
                union: MessageElementUnion::Face(face.into_ffi()),
            },
            MessageElement::Unknown(ma) => FFIMessageElement {
                t: MessageElementFlag::Unknown.value(),
                union: MessageElementUnion::Unknown(ma),
            },
        }
    }

    /// Reads the discriminant byte, then the payload member that it names.
    pub fn from_ffi(value: FFIMessageElement) -> (r: MessageElement)
        requires
            value.wf(),
        ensures
            r == value.native(),
    {
        let FFIMessageElement { t, union } = value;
        match MessageElementFlag::try_from(t) {
            Ok(MessageElementFlag::Text) => match union {
                MessageElementUnion::Text(s) => MessageElement::Text(String::from(s)),
                _ => vstd::pervasive::unreached(),
            },
            Ok(MessageElementFlag::Image) => match union {
                MessageElementUnion::Image(ma) => MessageElement::Image(Image(ma)),
                _ => vstd::pervasive::unreached(),
            },
            Ok(MessageElementFlag::At) => match union {
                MessageElementUnion::At(at) => MessageElement::At(At::from_ffi(at)),
                _ => vstd::pervasive::unreached(),
            },
            Ok(MessageElementFlag::AtAll) => MessageElement::AtAll,
            Ok(MessageElementFlag::Face) => match union {
                MessageElementUnion::Face(face) => MessageElement::Face(Face::from_ffi(face)),
                _ => vstd::pervasive::unreached(),
            },
            Ok(MessageElementFlag::Unknown) => match union {
                MessageElementUnion::Unknown(ma) => MessageElement::Unknown(ma),
                _ => vstd::pervasive::unreached(),
            },
            Err(_) => vstd::pervasive::unreached(),
        }
    }

    /// The encodings of a sequence of elements, one for one.
    pub open spec fn seq_ffi(s: Seq<MessageElement>) -> Seq<FFIMessageElement> {
        Seq::new(s.len(), |i: int| s[i].ffi())
    }

    pub fn vec_into_ffi(v: Vec<MessageElement>) -> (r: Vec<FFIMessageElement>)
        ensures
            r@ == Self::seq_ffi(v@),
    {
        let mut out: Vec<FFIMessageElement> = Vec::new();
        for e in it: v
            invariant
                it.seq() == v@,
                out@ == Self::seq_ffi(v@.take(it.index() as int)),
        {
            out.push(e.into_ffi());
        }
        assert(v@.take(v@.len() as int) == v@);
        out
    }

    pub fn vec_from_ffi(v: Vec<FFIMessageElement>) -> (r: Vec<MessageElement>)
        requires
            FFIMessageElement::seq_wf(v@),
        ensures
            r@ == FFIMessageElement::seq_native(v@),
    {
        let mut out: Vec<MessageElement> = Vec::new();
        for e in it: v
            invariant
                it.seq() == v@,
                FFIMessageElement::seq_wf(v@),
                out@ == FFIMessageElement::seq_native(v@.take(it.index() as int)),
        {
            out.push(MessageElement::from_ffi(e));
        }
        assert(v@.take(v@.len() as int) == v@);
        out
    }
}

impl FFIMessageElement {
    /// The element that this encoding stands for.
    pub open spec fn native(self) -> MessageElement
        recommends
            self.wf(),
    {
        match self.union {
            MessageElementUnion::Text(s) => MessageElement::Text(s.decoded()),
            MessageElementUnion::Image(ma) => MessageElement::Image(Image(ma)),
            MessageElementUnion::At(at) => MessageElement::At(at.native()),
            MessageElementUnion::AtAll => MessageElement::AtAll,
            MessageElementUnion::Face(face) => MessageElement::Face(face.native()),
            MessageElementUnion::Unknown(ma) => MessageElement::Unknown(ma),
        }
    }

    pub open spec fn seq_wf(s: Seq<FFIMessageElement>) -> bool {
        forall|i: int| 0 <= i < s.len() ==> (#[trigger] s[i]).wf()
    }

    pub open spec fn seq_native(s: Seq<FFIMessageElement>) -> Seq<MessageElement> {
        Seq::new(s.len(), |i: int| s[i].native())
    }
}

impl Anonymous {
    pub open spec fn ffi(self) -> FFIAnonymous {
        FFIAnonymous {
            anon_id: RustVec::encoded(self.anon_id),
            nick: RustString::encoded(self.nick),
            portrait_index: self.portrait_index,
            bubble_index: self.bubble_index,
            expire_time: self.expire_time,
            color: RustString::encoded(self.color),
        }
    }

    pub fn into_ffi(self) -> (r: FFIAnonymous)
        ensures
            r == self.ffi(),
    {
        let Anonymous { anon_id, nick, portrait_index, bubble_index, expire_time, color } = self;
        let anon_id = RustVec::from(anon_id);
        let nick = RustString::from(nick);
        let color = RustString::from(color);
        FFIAnonymous { anon_id, nick, portrait_index, bubble_index, expire_time, color }
    }

    pub fn from_ffi(ffi: FFIAnonymous) -> (r: Anonymous)
        ensures
            r == ffi.native(),
    {
        let FFIAnonymous { anon_id, nick, portrait_index, bubble_index, expire_time, color } = ffi;
        let anon_id = anon_id.into_vec();
        let nick = String::from(nick);
        let color = String::from(color);
        Anonymous { anon_id, nick, portrait_index, bubble_index, expire_time, color }
    }
}

impl FFIAnonymous {
    pub open spec fn native(self) -> Anonymous {
        Anonymous {
            anon_id: self.anon_id.decoded(),
            nick: self.nick.decoded(),
            portrait_index: self.portrait_index,
            bubble_index: self.bubble_index,
            expire_time: self.expire_time,
            color: self.color.decoded(),
        }
    }
}

impl MessageReceipt {
    pub open spec fn ffi(self) -> FFIMessageReceipt {
        FFIMessageReceipt {
            seqs: RustVec::encoded(self.seqs),
            rands: RustVec::encoded(self.rands),
            time: self.time,
        }
    }

    pub fn into_ffi(self) -> (r: FFIMessageReceipt)
        ensures
            r == self.ffi(),
    {
        let MessageReceipt { seqs, rands, time } = self;
        FFIMessageReceipt { seqs: RustVec::from(seqs), rands: RustVec::from(rands), time }
    }

    pub fn from_ffi(ffi: FFIMessageReceipt) -> (r: MessageReceipt)
        ensures
            r == ffi.native(),
    {
        let FFIMessageReceipt { seqs, rands, time } = ffi;
        MessageReceipt { seqs: seqs.into_vec(), rands: rands.into_vec(), time }
    }
}

impl FFIMessageReceipt {
    pub open spec fn native(self) -> MessageReceipt {
        MessageReceipt { seqs: self.seqs.decoded(), rands: self.rands.decoded(), time: self.time }
    }
}

impl FFIReply {
    /// This is the encoding of the reply `v`.
    pub open spec fn encodes(self, v: ReplyView) -> bool {
        &&& self.reply_seq == v.reply_seq
        &&& self.sender == v.sender
        &&& self.time == v.time
        &&& self.elements@ == MessageElement::seq_ffi(v.elements)
    }

    pub open spec fn wf(self) -> bool {
        FFIMessageElement::seq_wf(self.elements@)
    }

    /// The reply that this encoding stands for.
    pub open spec fn native(self) -> ReplyView
        recommends
            self.wf(),
    {
        ReplyView {
            reply_seq: self.reply_seq,
            sender: self.sender,
            time: self.time,
            elements: FFIMessageElement::seq_native(self.elements@),
        }
    }
}

impl Reply {
    pub fn into_ffi(self) -> (r: FFIReply)
        ensures
            r.encodes(self@),
    {
        let Reply { reply_seq, sender, time, elements } = self;
        let ffi_value = MessageElement::vec_into_ffi(elements);
        let raw = RustVec::from(ffi_value);
        FFIReply { reply_seq, sender, time, elements: raw }
    }

    pub fn from_ffi(ffi: FFIReply) -> (r: Reply)
        requires
            ffi.wf(),
        ensures
            r@ == ffi.native(),
    {
        let FFIReply { reply_seq, sender, time, elements } = ffi;
        let v = elements.into_vec();
        let value = MessageElement::vec_from_ffi(v);
        Reply { reply_seq, sender, time, elements: value }
    }
}

impl FFIMessageMetadata {
    /// This is the encoding of the metadata `v`: the flags byte has exactly
    /// the bits of the parts that `v` has, and exactly those slots are written.
    pub open spec fn encodes(self, v: MetadataView) -> bool {
        &&& self.seqs@ == v.seqs
        &&& self.rands@ == v.rands
        &&& self.time == v.time
        &&& self.sender == v.sender
        &&& self.flags == flags_of(v.anonymous is Some, v.reply is Some)
        &&& match v.anonymous {
            Some(a) => self.anonymous == Some(a.ffi()),
            None => self.anonymous is None,
        }
        &&& match v.reply {
            Some(r) => self.reply is Some && self.reply->0.encodes(r),
            None => self.reply is None,
        }
    }

    /// Each slot whose bit is set is written, and what it holds is well-formed.
    pub open spec fn wf(self) -> bool {
        &&& has_anonymous(self.flags) ==> self.anonymous is Some
        &&& has_reply(self.flags) ==> self.reply is Some && self.reply->0.wf()
    }

    /// The metadata that this encoding stands for. A slot whose bit is clear
    /// is not looked at.
    pub open spec fn native(self) -> MetadataView
        recommends
            self.wf(),
    {
        MetadataView {
            seqs: self.seqs@,
            rands: self.rands@,
            time: self.time,
            sender: self.sender,
            anonymous: if has_anonymous(self.flags) {
                Some(self.anonymous->0.native())
            } else {
                None
            },
            reply: if has_reply(self.flags) {
                Some(self.reply->0.native())
            } else {
                None
            },
        }
    }

    /// Tells whether each slot whose bit is set is written and well-formed.
    pub fn is_wf(&self) -> (r: bool)
        ensures
            r == self.wf(),
    {
        if self.flags & ANONYMOUS_FLAG != 0 && self.anonymous.is_none() {
            return false;
        }
        if self.flags & REPLY_FLAG != 0 {
            match &self.reply {
                None => false,
                Some(reply) => FFIMessageElement::all_wf(&reply.elements.buf),
            }
        } else {
            true
        }
    }
}

impl FFIMessageElement {
    /// Tells whether every element of `v` is well-formed.
    pub fn all_wf(v: &Vec<FFIMessageElement>) -> (r: bool)
        ensures
            r == Self::seq_wf(v@),
    {
        let mut i: usize = 0;
        while i < v.len()
            invariant
                i <= v.len(),
                forall|j: int| 0 <= j < i ==> (#[trigger] v@[j]).wf(),
            decreases v.len() - i,
        {
            if !v[i].is_wf() {
                return false;
            }
            i += 1;
        }
        true
    }
}

impl MessageMetadata {
    pub fn into_ffi(self) -> (r: FFIMessageMetadata)
        ensures
            r.encodes(self@),
    {
        let MessageMetadata { seqs, rands, time, sender, anonymous, reply } = self;
        let mut flags: u8 = NONE_META;
        let mut ffi_anonymous: Option<FFIAnonymous> = None;
        if let Some(ano) = anonymous {
            flags |= ANONYMOUS_FLAG;
            ffi_anonymous = Some(ano.into_ffi());
        }
        assert(flags == flags_of(anonymous is Some, false)) by {
            assert(0u8 | 1u8 == 1u8) by (bit_vector);
        }
        let mut ffi_reply: Option<FFIReply> = None;
        if let Some(reply) = reply {
            let ghost before = flags;
            flags |= REPLY_FLAG;
            assert(flags == flags_of(anonymous is Some, true)) by {
                assert(0u8 | 2u8 == 2u8) by (bit_vector);
                assert(1u8 | 2u8 == 3u8) by (bit_vector);
            }
            ffi_reply = Some(reply.into_ffi());
        }
        FFIMessageMetadata {
            seqs: RustVec::from(seqs),
            rands: RustVec::from(rands),
            time,
            sender,
            flags,
            anonymous: ffi_anonymous,
            reply: ffi_reply,
        }
    }

    /// Reads each slot whose bit is set in the flags byte, and no other.
    pub fn from_ffi(ffi: FFIMessageMetadata) -> (r: MessageMetadata)
        requires
            ffi.wf(),
        ensures
            r@ == ffi.native(),
    {
        let FFIMessageMetadata { seqs, rands, time, sender, flags, reply, anonymous } = ffi;
        MessageMetadata {
            seqs: seqs.into_vec(),
            rands: rands.into_vec(),
            time,
            sender,
            anonymous: if flags & ANONYMOUS_FLAG != 0 {
                match anonymous {
                    Some(a) => Some(Anonymous::from_ffi(a)),
                    None => vstd::pervasive::unreached(),
                }
            } else {
                None
            },
            reply: if flags & REPLY_FLAG != 0 {
                match reply {
                    Some(r) => Some(Reply::from_ffi(r)),
                    None => vstd::pervasive::unreached(),
                }
            } else {
                None
            },
        }
    }
}

impl FFIMessageChain {
    /// This is the encoding of the chain `v`.
    pub open spec fn encodes(self, v: ChainView) -> bool {
        &&& self.meta.encodes(v.meta)
        &&& self.inner@ == MessageElement::seq_ffi(v.elements)
    }

    pub open spec fn wf(self) -> bool {
        &&& self.meta.wf()
        &&& FFIMessageElement::seq_wf(self.inner@)
    }

    /// The chain that this encoding stands for.
    pub open spec fn native(self) -> ChainView
        recommends
            self.wf(),
    {
        ChainView {
            meta: self.meta.native(),
            elements: FFIMessageElement::seq_native(self.inner@),
        }
    }

    /// Tells whether the metadata and every element are well-formed.
    pub fn is_wf(&self) -> (r: bool)
        ensures
            r == self.wf(),
    {
        self.meta.is_wf() && FFIMessageElement::all_wf(&self.inner.buf)
    }
}

impl MessageChain {
    pub fn into_ffi(self) -> (r: FFIMessageChain)
        ensures
            r.encodes(self@),
    {
        let MessageChain { meta, elements } = self;
        let v = MessageElement::vec_into_ffi(elements);
        let raw = RustVec::from(v);
        FFIMessageChain { meta: meta.into_ffi(), inner: raw }
    }

    pub fn from_ffi(ffi: FFIMessageChain) -> (r: MessageChain)
        requires
            ffi.wf(),
        ensures
            r@ == ffi.native(),
    {
        let FFIMessageChain { meta, inner } = ffi;
        let v = inner.into_vec();
        let value = MessageElement::vec_from_ffi(v);
        MessageChain { meta: MessageMetadata::from_ffi(meta), elements: value }
    }
}

/// The encoding of an element is well-formed and stands for that element.
pub proof fn lemma_element_round_trip(e: MessageElement)
    ensures
        e.ffi().wf(),
        e.ffi().native() == e,
        e.ffi().t == e.flag().spec_value(),
{
}

/// The encodings of a sequence of elements are well-formed and stand for the
/// same elements in the same order.
pub proof fn lemma_elements_round_trip(s: Seq<MessageElement>)
    ensures
        FFIMessageElement::seq_wf(MessageElement::seq_ffi(s)),
        FFIMessageElement::seq_native(MessageElement::seq_ffi(s)) == s,
{
    let enc = MessageElement::seq_ffi(s);
    assert forall|i: int| 0 <= i < enc.len() implies (#[trigger] enc[i]).wf() by {
        lemma_element_round_trip(s[i]);
    }
    assert forall|i: int| 0 <= i < s.len() implies FFIMessageElement::seq_native(enc)[i]
        == s[i] by {
        lemma_element_round_trip(s[i]);
    }
    assert(FFIMessageElement::seq_native(enc) =~= s);
}

/// An anonymous sender and a receipt come back from their encodings as they
/// went in.
pub proof fn lemma_flat_round_trip(a: Anonymous, r: MessageReceipt, at: At, face: Face)
    ensures
        a.ffi().native() == a,
        r.ffi().native() == r,
        at.ffi().native() == at,
        face.ffi().native() == face,
{
}

/// An encoding of a reply is well-formed and stands for that reply.
pub proof fn lemma_reply_round_trip(ffi: FFIReply, v: ReplyView)
    requires
        ffi.encodes(v),
    ensures
        ffi.wf(),
        ffi.native() == v,
{
    lemma_elements_round_trip(v.elements);
}

/// An encoding of metadata is well-formed and stands for that metadata.
pub proof fn lemma_metadata_round_trip(ffi: FFIMessageMetadata, v: MetadataView)
    requires
        ffi.encodes(v),
    ensures
        ffi.wf(),
        ffi.native() == v,
{
    lemma_flags_of(v.anonymous is Some, v.reply is Some);
    if let Some(r) = v.reply {
        lemma_reply_round_trip(ffi.reply->0, r);
    }
}

/// An encoding of a chain is well-formed and stands for that chain: a chain
/// that is encoded and decoded again is the chain that went in.
pub proof fn lemma_chain_round_trip(ffi: FFIMessageChain, v: ChainView)
    requires
        ffi.encodes(v),
    ensures
        ffi.wf(),
        ffi.native() == v,
{
    lemma_metadata_round_trip(ffi.meta, v.meta);
    lemma_elements_round_trip(v.elements);
}

} // verus!
