//! Forwarded messages: a sequence of nodes, each an ordinary message or a
//! further forwarded message, so that the whole is a tree.

use crate::abi::message::forward::{FFIForwardNode, FFIForwardNodeInfo, ForwardNodeUnion};
use crate::abi::{RustString, RustVec};
use crate::message::{ChainView, MessageChain};
use vstd::prelude::*;

verus! {

pub struct ForwardMessage(pub Vec<ForwardNode>);

pub enum ForwardNode {
    NormalMessage { info: ForwardNodeInfo, chain: MessageChain },
    ForwardMessage { info: ForwardNodeInfo, forward: ForwardMessage },
}

/// Who sent a node, and when.
#[derive(Clone, Debug)]
pub struct ForwardNodeInfo {
    pub sender_id: i64,
    pub sender_name: String,
    pub time: i32,
}

impl Default for ForwardNodeInfo {
    fn default() -> (r: Self)
        ensures
            r.sender_id == 0,
            r.sender_name@.len() == 0,
            r.time == 0,
    {
        ForwardNodeInfo { sender_id: 0, sender_name: String::new(), time: 0 }
    }
}

/// A node as a value: sequences in place of vectors, all the way down.
pub enum ForwardNodeView {
    NormalMessage { info: ForwardNodeInfo, chain: ChainView },
    ForwardMessage { info: ForwardNodeInfo, forward: Seq<ForwardNodeView> },
}

impl ForwardNode {
    pub open spec fn view(&self) -> ForwardNodeView
        decreases self,
    {
        match self {
            ForwardNode::NormalMessage { info, chain } => ForwardNodeView::NormalMessage {
                info: *info,
                chain: chain@,
            },
            ForwardNode::ForwardMessage { info, forward } => ForwardNodeView::ForwardMessage {
                info: *info,
                forward: Seq::new(
                    forward.0@.len(),
                    |i: int|
                        if 0 <= i < forward.0@.len() {
                            forward.0@[i].view()
                        } else {
                            arbitrary()
                        },
                ),
            },
        }
    }
}

impl ForwardMessage {
    /// The nodes as values, in order.
    pub open spec fn view(&self) -> Seq<ForwardNodeView> {
        Self::seq_view(self.0@)
    }

    pub open spec fn seq_view(s: Seq<ForwardNode>) -> Seq<ForwardNodeView> {
        Seq::new(s.len(), |i: int| s[i]@)
    }

    pub fn new() -> (r: Self)
        ensures
            r.0@.len() == 0,
    {
        ForwardMessage(Vec::new())
    }

    /// An empty message with room for `capacity` nodes.
    pub fn with_capacity(capacity: usize) -> (r: Self)
        ensures
            r.0@.len() == 0,
    {
        ForwardMessage(Vec::with_capacity(capacity))
    }

    pub fn len(&self) -> (r: usize)
        ensures
            r == self.0@.len(),
    {
        self.0.len()
    }

    /// An iterator over the nodes, in order.
    pub fn iter(&self) -> (r: core::slice::Iter<'_, ForwardNode>)
        ensures
            vstd::std_specs::iter::IteratorSpec::remaining(&r) == self.0@.as_ref(),
    {
        let nodes = self.0.as_slice();
        proof {
            vstd::std_specs::slice::axiom_spec_slice_iter(nodes);
        }
        nodes.iter()
    }

    pub fn push(&mut self, node: ForwardNode)
        ensures
            final(self).0@ == old(self).0@.push(node),
    {
        self.0.push(node);
    }

    /// Appends the node that `node` makes with `info`.
    pub fn push_node<I: IntoForwardNode>(&mut self, info: ForwardNodeInfo, node: I)
        ensures
            final(self).0@.len() == old(self).0@.len() + 1,
            final(self).0@.drop_last() == old(self).0@,
            I::obeys_into_node() ==> final(self).0@ == old(self).0@.push(node.node(info)),
    {
        self.push(node.into_node(info));
        assert(self.0@.drop_last() == old(self).0@);
    }

    /// Appends an ordinary message, made from `msg`, as a node.
    pub fn push_message<M: Into<MessageChain>>(&mut self, info: ForwardNodeInfo, msg: M)
        ensures
            exists|chain: MessageChain| #[trigger]
                call_ensures(M::into, (msg,), chain) && final(self).0@ == old(self).0@.push(
                    ForwardNode::NormalMessage { info, chain },
                ),
    {
        let chain: MessageChain = msg.into();
        self.push(ForwardNode::NormalMessage { info, chain })
    }

    /// Appends a forwarded message, made from `msg`, as a node.
    pub fn push_forward<M: Into<ForwardMessage>>(&mut self, info: ForwardNodeInfo, msg: M)
        ensures
            exists|forward: ForwardMessage| #[trigger]
                call_ensures(M::into, (msg,), forward) && final(self).0@ == old(self).0@.push(
                    ForwardNode::ForwardMessage { info, forward },
                ),
    {
        let forward: ForwardMessage = msg.into();
        self.push(ForwardNode::ForwardMessage { info, forward })
    }
}

impl IntoIterator for ForwardMessage {
    type Item = ForwardNode;

    type IntoIter = std::vec::IntoIter<ForwardNode>;

    /// An iterator that gives the nodes away, in order.
    fn into_iter(self) -> (r: std::vec::IntoIter<ForwardNode>)
        ensures
            vstd::std_specs::iter::IteratorSpec::remaining(&r) == self.0@,
    {
        let r = self.0.into_iter();
        proof {
            vstd::std_specs::vec::axiom_spec_into_iter(self.0);
        }
        r
    }
}

impl Default for ForwardMessage {
    fn default() -> (r: Self)
        ensures
            r.0@.len() == 0,
    {
        ForwardMessage(Vec::new())
    }
}

/// Something that becomes a node once it is told who sent it.
pub trait IntoForwardNode: Sized {
    /// Whether `into_node` of this type gives `node`. An implementor that
    /// says nothing promises nothing.
    open spec fn obeys_into_node() -> bool {
        false
    }

    /// The node that this value makes with `info`.
    open spec fn node(self, info: ForwardNodeInfo) -> ForwardNode {
        arbitrary()
    }

    fn into_node(self, info: ForwardNodeInfo) -> (r: ForwardNode)
        ensures
            Self::obeys_into_node() ==> r == self.node(info),
    ;
}

impl IntoForwardNode for MessageChain {
    open spec fn obeys_into_node() -> bool {
        true
    }

    open spec fn node(self, info: ForwardNodeInfo) -> ForwardNode {
        ForwardNode::NormalMessage { info, chain: self }
    }

    fn into_node(self, info: ForwardNodeInfo) -> (r: ForwardNode) {
        ForwardNode::NormalMessage { info, chain: self }
    }
}

impl IntoForwardNode for ForwardMessage {
    open spec fn obeys_into_node() -> bool {
        true
    }

    open spec fn node(self, info: ForwardNodeInfo) -> ForwardNode {
        ForwardNode::ForwardMessage { info, forward: self }
    }

    fn into_node(self, info: ForwardNodeInfo) -> (r: ForwardNode) {
        ForwardNode::ForwardMessage { info, forward: self }
    }
}

impl IntoForwardNode for ForwardNode {
    open spec fn obeys_into_node() -> bool {
        true
    }

    /// A node stays as it is; `info` is not used.
    open spec fn node(self, info: ForwardNodeInfo) -> ForwardNode {
        self
    }

    fn into_node(self, info: ForwardNodeInfo) -> (r: ForwardNode) {
        self
    }
}

impl ForwardNodeInfo {
    pub open spec fn ffi(self) -> FFIForwardNodeInfo {
        FFIForwardNodeInfo {
            sender_id: self.sender_id,
            sender_name: RustString::encoded(self.sender_name),
            time: self.time,
        }
    }

    pub fn into_ffi(self) -> (r: FFIForwardNodeInfo)
        ensures
            r == self.ffi(),
    {
        let ForwardNodeInfo { sender_id, sender_name, time } = self;
        FFIForwardNodeInfo { sender_id, sender_name: RustString::from(sender_name), time }
    }

    pub fn from_ffi(ffi: FFIForwardNodeInfo) -> (r: ForwardNodeInfo)
        ensures
            r == ffi.native(),
    {
        let FFIForwardNodeInfo { sender_id, sender_name, time } = ffi;
        ForwardNodeInfo { sender_id, sender_name: String::from(sender_name), time }
    }
}

impl FFIForwardNodeInfo {
    pub open spec fn native(self) -> ForwardNodeInfo {
        ForwardNodeInfo {
            sender_id: self.sender_id,
            sender_name: self.sender_name.decoded(),
            time: self.time,
        }
    }
}

impl FFIForwardNode {
    /// This is the encoding of the node `v`: the flag names the kind of `v`,
    /// the payload member of that kind is filled, and what it holds encodes
    /// what `v` holds, node for node.
    pub open spec fn encodes(self, v: ForwardNodeView) -> bool
        decreases self,
    {
        match v {
            ForwardNodeView::NormalMessage { info, chain } => {
                &&& self.is_normal
                &&& self.info == info.ffi()
                &&& self.inner matches ForwardNodeUnion::Normal(c)
                &&& c.encodes(chain)
            },
            ForwardNodeView::ForwardMessage { info, forward } => {
                &&& !self.is_normal
                &&& self.info == info.ffi()
                &&& self.inner matches ForwardNodeUnion::Forward(nodes)
                &&& nodes@.len() == forward.len()
                &&& forall|i: int|
                    0 <= i < nodes@.len() ==> (#[trigger] nodes@[i]).encodes(forward[i])
            },
        }
    }

    /// The flag and the payload agree, and what the payload holds is
    /// well-formed, all the way down.
    pub open spec fn wf(self) -> bool
        decreases self,
    {
        match self.inner {
            ForwardNodeUnion::Normal(c) => self.is_normal && c.wf(),
            ForwardNodeUnion::Forward(nodes) => {
                &&& !self.is_normal
                &&& forall|i: int| 0 <= i < nodes@.len() ==> (#[trigger] nodes@[i]).wf()
            },
        }
    }

    /// The node that this encoding stands for.
    pub open spec fn native(self) -> ForwardNodeView
        recommends
            self.wf(),
        decreases self,
    {
        match self.inner {
            ForwardNodeUnion::Normal(c) => ForwardNodeView::NormalMessage {
                info: self.info.native(),
                chain: c.native(),
            },
            ForwardNodeUnion::Forward(nodes) => ForwardNodeView::ForwardMessage {
                info: self.info.native(),
                forward: Seq::new(
                    nodes@.len(),
                    |i: int|
                        if 0 <= i < nodes@.len() {
                            nodes@[i].native()
                        } else {
                            arbitrary()
                        },
                ),
            },
        }
    }

    pub open spec fn seq_encodes(s: Seq<FFIForwardNode>, v: Seq<ForwardNodeView>) -> bool {
        &&& s.len() == v.len()
        &&& forall|i: int| 0 <= i < s.len() ==> (#[trigger] s[i]).encodes(v[i])
    }

    pub open spec fn seq_wf(s: Seq<FFIForwardNode>) -> bool {
        forall|i: int| 0 <= i < s.len() ==> (#[trigger] s[i]).wf()
    }

    pub open spec fn seq_native(s: Seq<FFIForwardNode>) -> Seq<ForwardNodeView> {
        Seq::new(s.len(), |i: int| s[i].native())
    }
}

impl FFIForwardNode {
    /// Tells whether the flag and the payload agree, all the way down.
    pub fn is_wf(&self) -> (r: bool)
        ensures
            r == self.wf(),
        decreases self,
    {
        match &self.inner {
            ForwardNodeUnion::Normal(c) => self.is_normal && c.is_wf(),
            ForwardNodeUnion::Forward(nodes) => {
                if self.is_normal {
                    false
                } else {
                    let r = Self::all_wf(&nodes.buf);
                    assert(nodes@ == nodes.buf@);
                    assert(r == Self::seq_wf(nodes@));
                    r
                }
            },
        }
    }

    /// Tells whether every node of `v` is well-formed.
    pub fn all_wf(v: &Vec<FFIForwardNode>) -> (r: bool)
        ensures
            r == Self::seq_wf(v@),
        decreases v,
    {
        let mut i: usize = 0;
        while i < v.len()
            invariant
                i <= v.len(),
                forall|j: int| 0 <= j < i ==> (#[trigger] v@[j]).wf(),
            decreases v.len() - i,
        {
            if !v[i].is_wf() {
                return false;
            }
            i += 1;
        }
        true
    }
}

impl ForwardNode {
    pub fn into_ffi(self) -> (r: FFIForwardNode)
        ensures
            r.encodes(self@),
        decreases self,
    {
        match self {
            ForwardNode::NormalMessage { info, chain } => FFIForwardNode {
                is_normal: true,
                info: info.into_ffi(),
                inner: ForwardNodeUnion::Normal(chain.into_ffi()),
            },
            ForwardNode::ForwardMessage { info, forward } => {
                let nodes = forward.into_ffi();
                FFIForwardNode {
                    is_normal: false,
                    info: info.into_ffi(),
                    inner: ForwardNodeUnion::Forward(nodes),
                }
            },
        }
    }

    /// Reads the flag, then the payload member that it names.
    pub fn from_ffi(ffi: FFIForwardNode) -> (r: ForwardNode)
        requires
            ffi.wf(),
        ensures
            r@ == ffi.native(),
        decreases ffi,
    {
        let FFIForwardNode { is_normal, info, inner } = ffi;
        if is_normal {
            match inner {
                ForwardNodeUnion::Normal(chain) => ForwardNode::NormalMessage {
                    info: ForwardNodeInfo::from_ffi(info),
                    chain: MessageChain::from_ffi(chain),
                },
                ForwardNodeUnion::Forward(_) => vstd::pervasive::unreached(),
            }
        } else {
            match inner {
                ForwardNodeUnion::Forward(nodes) => {
                    let forward = ForwardMessage::from_ffi(nodes);
                    let r = ForwardNode::ForwardMessage {
                        info: ForwardNodeInfo::from_ffi(info),
                        forward,
                    };
                    proof {
                        let got = r@->ForwardMessage_forward;
                        let want = ffi.native()->ForwardMessage_forward;
                        assert(got.len() == forward.0@.len());
                        assert(want.len() == nodes@.len());
                        assert(forward@.len() == forward.0@.len());
                        assert forall|i: int| 0 <= i < got.len() implies got[i] == want[i] by {
                            assert(got[i] == forward.0@[i]@);
                            assert(forward@[i] == forward.0@[i]@);
                            assert(FFIForwardNode::seq_native(nodes@)[i] == nodes@[i].native());
                        }
                        assert(got =~= want);
                    }
                    r
                },
                ForwardNodeUnion::Normal(_) => vstd::pervasive::unreached(),
            }
        }
    }
}

impl ForwardMessage {
    pub fn into_ffi(self) -> (r: RustVec<FFIForwardNode>)
        ensures
            FFIForwardNode::seq_encodes(r@, self@),
        decreases self,
    {
        let mut out: Vec<FFIForwardNode> = Vec::new();
        let v = self.0;
        for node in it: v
            invariant
                it.seq() == v@,
                v == self.0,
                out@.len() == it.index(),
                forall|i: int| 0 <= i < out@.len() ==> (#[trigger] out@[i]).encodes(v@[i]@),
        {
            out.push(node.into_ffi());
        }
        RustVec::from(out)
    }

    pub fn from_ffi(rs: RustVec<FFIForwardNode>) -> (r: ForwardMessage)
        requires
            FFIForwardNode::seq_wf(rs@),
        ensures
            r@ == FFIForwardNode::seq_native(rs@),
        decreases rs,
    {
        let mut out: Vec<ForwardNode> = Vec::new();
        let v = rs.into_vec();
        for node in it: v
            invariant
                it.seq() == v@,
                v == rs.buf,
                FFIForwardNode::seq_wf(v@),
                out@.len() == it.index(),
                forall|i: int| 0 <= i < out@.len() ==> (#[trigger] out@[i])@ == v@[i].native(),
        {
            out.push(ForwardNode::from_ffi(node));
        }
        let r = ForwardMessage(out);
        assert(r@ =~= FFIForwardNode::seq_native(rs@));
        r
    }
}

/// An encoding of a node is well-formed and stands for that node, whatever
/// the depth of the tree below it.
pub proof fn lemma_node_round_trip(ffi: FFIForwardNode, v: ForwardNodeView)
    requires
        ffi.encodes(v),
    ensures
        ffi.wf(),
        ffi.native() == v,
    decreases ffi,
{
    match v {
        ForwardNodeView::NormalMessage { info, chain } => {
            let c = ffi.inner->Normal_0;
            crate::message::convert::lemma_chain_round_trip(c, chain);
        },
        ForwardNodeView::ForwardMessage { info, forward } => {
            let nodes = ffi.inner->Forward_0;
            assert forall|i: int| 0 <= i < nodes@.len() implies (#[trigger] nodes@[i]).wf()
                && nodes@[i].native() == forward[i] by {
                lemma_node_round_trip(nodes@[i], forward[i]);
            }
            assert(ffi.native()->ForwardMessage_forward =~= forward);
        },
    }
}

/// An encoding of a forwarded message is well-formed and stands for that
/// message: encoded and decoded again, the tree is the tree that went in.
pub proof fn lemma_forward_round_trip(s: Seq<FFIForwardNode>, v: Seq<ForwardNodeView>)
    requires
        FFIForwardNode::seq_encodes(s, v),
    ensures
        FFIForwardNode::seq_wf(s),
        FFIForwardNode::seq_native(s) == v,
{
    assert forall|i: int| 0 <= i < s.len() implies (#[trigger] s[i]).wf() && s[i].native()
        == v[i] by {
        lemma_node_round_trip(s[i], v[i]);
    }
    assert(FFIForwardNode::seq_native(s) =~= v);
}

} // verus!
