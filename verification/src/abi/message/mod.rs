//! Encodings of message elements: a discriminant byte in front of a payload
//! whose shape the byte decides.

pub mod forward;
pub mod meta;

use crate::abi::managed::{Managed, ManagedCloneable};
use crate::abi::message::meta::FFIMessageMetadata;
use crate::abi::{RustString, RustVec};
use vstd::prelude::*;
use vstd::std_specs::convert::TryFromSpecImpl;

verus! {

/// The discriminant of a message element.
#[derive(Clone, Copy, PartialEq, Eq, Structural, Debug)]
pub enum MessageElementFlag {
    Text,
    Image,
    At,
    AtAll,
    Face,
    Unknown,
}

impl MessageElementFlag {
    /// The byte that stands for this discriminant on the boundary.
    pub open spec fn spec_value(self) -> u8 {
        match self {
            MessageElementFlag::Text => 0,
            MessageElementFlag::Image => 1,
            MessageElementFlag::At => 2,
            MessageElementFlag::AtAll => 3,
            MessageElementFlag::Face => 4,
            MessageElementFlag::Unknown => 255,
        }
    }

    /// The discriminant that a byte stands for, if it stands for one.
    pub open spec fn of_byte(flag: u8) -> Result<MessageElementFlag, u8> {
        if flag == 0 {
            Ok(MessageElementFlag::Text)
        } else if flag == 1 {
            Ok(MessageElementFlag::Image)
        } else if flag == 2 {
            Ok(MessageElementFlag::At)
        } else if flag == 3 {
            Ok(MessageElementFlag::AtAll)
        } else if flag == 4 {
            Ok(MessageElementFlag::Face)
        } else if flag == 255 {
            Ok(MessageElementFlag::Unknown)
        } else {
            Err(flag)
        }
    }

    #[verifier::when_used_as_spec(spec_value)]
    pub fn value(self) -> (r: u8)
        ensures
            r == self.spec_value(),
    {
        match self {
            MessageElementFlag::Text => 0,
            MessageElementFlag::Image => 1,
            MessageElementFlag::At => 2,
            MessageElementFlag::AtAll => 3,
            MessageElementFlag::Face => 4,
            MessageElementFlag::Unknown => 255,
        }
    }
}

impl TryFromSpecImpl<u8> for MessageElementFlag {
    open spec fn obeys_try_from_spec() -> bool {
        true
    }

    open spec fn try_from_spec(flag: u8) -> Result<Self, u8> {
        MessageElementFlag::of_byte(flag)
    }
}

impl TryFrom<u8> for MessageElementFlag {
    type Error = u8;

    /// Reads a discriminant byte; a byte that stands for no discriminant comes
    /// back as the error.
    fn try_from(flag: u8) -> (r: Result<Self, u8>)
        ensures
            r == MessageElementFlag::of_byte(flag),
    {
        if flag == 0 {
            Ok(MessageElementFlag::Text)
        } else if flag == 1 {
            Ok(MessageElementFlag::Image)
        } else if flag == 2 {
            Ok(MessageElementFlag::At)
        } else if flag == 3 {
            Ok(MessageElementFlag::AtAll)
        } else if flag == 4 {
            Ok(MessageElementFlag::Face)
        } else if flag == 255 {
            Ok(MessageElementFlag::Unknown)
        } else {
            Err(flag)
        }
    }
}

/// A byte read back from a discriminant is that discriminant, and a byte that
/// reads as a discriminant is the byte of that discriminant.
pub proof fn lemma_flag_round_trip(flag: MessageElementFlag, byte: u8)
    ensures
        MessageElementFlag::of_byte(flag.spec_value()) == Ok::<MessageElementFlag, u8>(flag),
        MessageElementFlag::of_byte(byte) matches Ok(f) ==> f.spec_value() == byte,
        MessageElementFlag::of_byte(byte) matches Err(b) ==> b == byte,
{
}

pub struct FFIMessageChain {
    pub meta: FFIMessageMetadata,
    pub inner: RustVec<FFIMessageElement>,
}

/// One encoded element: the discriminant byte and the payload.
pub struct FFIMessageElement {
    pub t: u8,
    pub union: MessageElementUnion,
}

/// The payload of an encoded element. Which member is filled is told by the
/// discriminant byte in front of it, not by the payload.
pub enum MessageElementUnion {
    Text(RustString),
    Image(ManagedCloneable),
    At(FFIAt),
    AtAll,
    Face(FFIFace),
    Unknown(ManagedCloneable),
}

impl MessageElementUnion {
    /// The discriminant under which this member is filled.
    pub open spec fn flag(self) -> MessageElementFlag {
        match self {
            MessageElementUnion::Text(_) => MessageElementFlag::Text,
            MessageElementUnion::Image(_) => MessageElementFlag::Image,
            MessageElementUnion::At(_) => MessageElementFlag::At,
            MessageElementUnion::AtAll => MessageElementFlag::AtAll,
            MessageElementUnion::Face(_) => MessageElementFlag::Face,
            MessageElementUnion::Unknown(_) => MessageElementFlag::Unknown,
        }
    }
}

impl FFIMessageElement {
    /// The byte is a known discriminant and the payload member that it names
    /// is the one that is filled.
    pub open spec fn wf(self) -> bool {
        MessageElementFlag::of_byte(self.t) == Ok::<MessageElementFlag, u8>(self.union.flag())
    }

    /// Tells whether the byte and the payload agree.
    pub fn is_wf(&self) -> (r: bool)
        ensures
            r == self.wf(),
    {
        match &self.union {
            MessageElementUnion::Text(_) => self.t == 0,
            MessageElementUnion::Image(_) => self.t == 1,
            MessageElementUnion::At(_) => self.t == 2,
            MessageElementUnion::AtAll => self.t == 3,
            MessageElementUnion::Face(_) => self.t == 4,
            MessageElementUnion::Unknown(_) => self.t == 255,
        }
    }
}

/// An encoded image: which kind of contact it was uploaded for, and the
/// image itself.
pub struct FFIImage {
    pub t: u8,
    pub union: ImageUnion,
}

pub enum ImageUnion {
    Group(Managed),
    Friend(Managed),
}

pub struct FFIAt {
    pub target: i64,
    pub display: RustString,
}

pub struct FFIFace {
    pub index: i32,
    pub name: RustString,
}

} // verus!
