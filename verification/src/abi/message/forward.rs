//! Encodings of forwarded messages. A forwarded message is a tree: a node is
//! either an ordinary message or a further sequence of nodes.

use crate::abi::message::FFIMessageChain;
use crate::abi::{RustString, RustVec};
use vstd::prelude::*;

verus! {

pub struct FFIForwardNodeInfo {
    pub sender_id: i64,
    pub sender_name: RustString,
    pub time: i32,
}

/// One encoded node: the flag says which member of the payload is filled.
pub struct FFIForwardNode {
    pub is_normal: bool,
    pub info: FFIForwardNodeInfo,
    pub inner: ForwardNodeUnion,
}

pub enum ForwardNodeUnion {
    Normal(FFIMessageChain),
    Forward(RustVec<FFIForwardNode>),
}

} // verus!
