//! A mention of one member.

use crate::message::{MessageElement, PushMessage};
use vstd::prelude::*;

verus! {

#[derive(Clone, Debug)]
pub struct At {
    pub target: i64,
    pub display: String,
}

impl PushMessage for At {
    open spec fn obeys_push() -> bool {
        true
    }

    open spec fn pushes(self, before: Seq<MessageElement>, after: Seq<MessageElement>) -> bool {
        after == before.push(MessageElement::At(self))
    }

    fn push_to(self, v: &mut Vec<MessageElement>) {
        v.push(MessageElement::At(self));
    }
}

} // verus!
