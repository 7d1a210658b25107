//! A group that a client is in.

use crate::abi::error::FFIResult;
use crate::abi::future::{FFIFuture, Task};
use crate::abi::managed::ManagedCloneable;
use crate::abi::message::forward::FFIForwardNode;
use crate::abi::message::meta::FFIMessageReceipt;
use crate::abi::message::FFIMessageChain;
use crate::abi::{Handle, RustStr, RustVec};
use crate::client::Client;
use crate::contact::member::NamedMember;
use crate::contact::{done, read_done, read_sent, read_uploaded, sent, uploaded};
use crate::error::AtriError;
use crate::message::forward::ForwardMessage;
use crate::message::image::Image;
use crate::message::meta::MessageReceipt;
use crate::message::MessageChain;
use crate::text::{tagged, tagged_string};
use vstd::prelude::*;

verus! {

pub struct Group(pub Handle);

impl Group {
    /// What a lookup that answered `handle` has found.
    pub open spec fn found(handle: Handle) -> Option<Group> {
        if handle == 0 {
            None
        } else {
            Some(Group(handle))
        }
    }

    /// The groups behind a sequence of handles, one for one.
    pub open spec fn groups_of(handles: Seq<Handle>) -> Seq<Group> {
        Seq::new(handles.len(), |i: int| Group(handles[i]))
    }

    /// Wraps each handle as a group.
    pub fn from_handles(handles: Vec<Handle>) -> (r: Vec<Group>)
        ensures
            r@ == Self::groups_of(handles@),
    {
        let mut out: Vec<Group> = Vec::new();
        for h in it: handles
            invariant
                it.seq() == handles@,
                out@ == Self::groups_of(handles@.take(it.index() as int)),
        {
            out.push(Group(h));
        }
        assert(handles@.take(handles@.len() as int) == handles@);
        out
    }

    /// The group number, as `group_get_id` gives it for this group.
    pub fn id<F: Fn(Handle) -> i64>(&self, group_get_id: &F) -> (r: i64)
        requires
            call_requires(group_get_id, (self.0,)),
        ensures
            call_ensures(group_get_id, (self.0,), r),
    {
        group_get_id(self.0)
    }

    /// Two groups are the same group when the host gives them the same number.
    pub fn eq<F: Fn(Handle) -> i64>(&self, other: &Self, group_get_id: &F) -> (r: bool)
        requires
            call_requires(group_get_id, (self.0,)),
            call_requires(group_get_id, (other.0,)),
        ensures
            exists|a: i64, b: i64|
                #![trigger call_ensures(group_get_id, (self.0,), a), call_ensures(group_get_id, (other.0,), b)]
                call_ensures(group_get_id, (self.0,), a) && call_ensures(
                    group_get_id,
                    (other.0,),
                    b,
                ) && r == (a == b),
    {
        let a = self.id(group_get_id);
        let b = other.id(group_get_id);
        a == b
    }

    /// The client that is in this group, as `group_get_client` names it.
    pub fn client<F: Fn(Handle) -> Handle>(&self, group_get_client: &F) -> (r: Client)
        requires
            call_requires(group_get_client, (self.0,)),
        ensures
            call_ensures(group_get_client, (self.0,), r.0),
    {
        let handle = group_get_client(self.0);
        Client(handle)
    }

    /// The name, as `group_get_name` gives it for this group.
    pub fn name<'a, F: Fn(Handle) -> RustStr<'a>>(&self, group_get_name: &F) -> (r: &'a str)
        requires
            call_requires(group_get_name, (self.0,)),
        ensures
            exists|rs: RustStr<'a>| #[trigger]
                call_ensures(group_get_name, (self.0,), rs) && r@ == rs@,
    {
        let rs = group_get_name(self.0);
        rs.as_str()
    }

    /// The members of this group, in the order in which the host names them.
    pub fn members<
        K: Task<Output = RustVec<ManagedCloneable>>,
        F: Fn(Handle) -> FFIFuture<K>,
    >(&self, group_get_members: &F) -> (r: Vec<NamedMember>)
        requires
            call_requires(group_get_members, (self.0,)),
            forall|fu: FFIFuture<K>| #[trigger]
                call_ensures(group_get_members, (self.0,), fu) ==> fu.task.polls_left() > 0,
        ensures
            exists|fu: FFIFuture<K>| #[trigger]
                call_ensures(group_get_members, (self.0,), fu) && r@ == NamedMember::members_of(
                    fu.task.output()@,
                ),
    {
        let fu = group_get_members(self.0);
        let ma = fu.block_on().into_vec();
        NamedMember::from_managed(ma)
    }

    /// The member with account number `id`, if the host knows one.
    pub fn find_member<K: Task<Output = ManagedCloneable>, F: Fn(Handle, i64) -> FFIFuture<K>>(
        &self,
        id: i64,
        group_find_member: &F,
    ) -> (r: Option<NamedMember>)
        requires
            call_requires(group_find_member, (self.0, id)),
            forall|fu: FFIFuture<K>| #[trigger]
                call_ensures(group_find_member, (self.0, id), fu) ==> fu.task.polls_left() > 0,
        ensures
            exists|fu: FFIFuture<K>| #[trigger]
                call_ensures(group_find_member, (self.0, id), fu) && r == NamedMember::found(
                    fu.task.output(),
                ),
    {
        let fu = group_find_member(self.0, id);
        let ma = fu.block_on();
        if ma.value.pointer == 0 {
            None
        } else {
            Some(NamedMember(ma))
        }
    }

    /// Sends `chain` to this group: encodes it, hands it to
    /// `group_send_message`, waits for the host to finish, and reads the answer.
    pub fn send_message<
        M: Into<MessageChain>,
        K: Task<Output = FFIResult<FFIMessageReceipt>>,
        F: Fn(Handle, FFIMessageChain) -> FFIFuture<K>,
    >(&self, chain: M, group_send_message: &F) -> (r: Result<MessageReceipt, AtriError>)
        requires
            forall|ffi: FFIMessageChain| #[trigger] call_requires(group_send_message, (self.0, ffi)),
            forall|ffi: FFIMessageChain, fu: FFIFuture<K>| #[trigger]
                call_ensures(group_send_message, (self.0, ffi), fu) ==> fu.task.polls_left() > 0,
        ensures
            exists|native: MessageChain, ffi: FFIMessageChain, fu: FFIFuture<K>|
                {
                    &&& #[trigger] call_ensures(M::into, (chain,), native)
                    &&& ffi.encodes(native@)
                    &&& #[trigger] call_ensures(group_send_message, (self.0, ffi), fu)
                    &&& r == sent(fu.task.output().result())
                },
    {
        let native: MessageChain = chain.into();
        let ffi = native.into_ffi();
        let fu = group_send_message(self.0, ffi);
        read_sent(fu.block_on())
    }

    /// Sends a forwarded message to this group.
    pub fn send_forward_message<
        M: Into<ForwardMessage>,
        K: Task<Output = FFIResult<FFIMessageReceipt>>,
        F: Fn(Handle, RustVec<FFIForwardNode>) -> FFIFuture<K>,
    >(&self, msg: M, group_send_forward_message: &F) -> (r: Result<MessageReceipt, AtriError>)
        requires
            forall|ffi: RustVec<FFIForwardNode>| #[trigger]
                call_requires(group_send_forward_message, (self.0, ffi)),
            forall|ffi: RustVec<FFIForwardNode>, fu: FFIFuture<K>| #[trigger]
                call_ensures(group_send_forward_message, (self.0, ffi), fu)
                    ==> fu.task.polls_left() > 0,
        ensures
            exists|native: ForwardMessage, ffi: RustVec<FFIForwardNode>, fu: FFIFuture<K>|
                {
                    &&& #[trigger] call_ensures(M::into, (msg,), native)
                    &&& FFIForwardNode::seq_encodes(ffi@, native@)
                    &&& #[trigger] call_ensures(group_send_forward_message, (self.0, ffi), fu)
                    &&& r == sent(fu.task.output().result())
                },
    {
        let native: ForwardMessage = msg.into();
        let ffi = native.into_ffi();
        let fu = group_send_forward_message(self.0, ffi);
        read_sent(fu.block_on())
    }

    /// Uploads the bytes of an image for this group through
    /// `group_upload_image`, waits for the host to finish, and reads the answer.
    pub fn upload_image<
        K: Task<Output = FFIResult<ManagedCloneable>>,
        F: Fn(Handle, RustVec<u8>) -> FFIFuture<K>,
    >(&self, image: Vec<u8>, group_upload_image: &F) -> (r: Result<Image, AtriError>)
        requires
            call_requires(group_upload_image, (self.0, RustVec::encoded(image))),
            forall|fu: FFIFuture<K>| #[trigger]
                call_ensures(group_upload_image, (self.0, RustVec::encoded(image)), fu)
                    ==> fu.task.polls_left() > 0,
        ensures
            exists|fu: FFIFuture<K>| #[trigger]
                call_ensures(group_upload_image, (self.0, RustVec::encoded(image)), fu) && r
                    == uploaded(fu.task.output().result()),
    {
        let fu = group_upload_image(self.0, RustVec::from(image));
        read_uploaded(fu.block_on())
    }

    /// Asks the host to rename this group.
    pub fn change_name<
        'a,
        K: Task<Output = FFIResult<()>>,
        F: Fn(Handle, RustStr<'a>) -> FFIFuture<K>,
    >(&self, name: &'a str, group_change_name: &F) -> (r: Result<(), AtriError>)
        requires
            call_requires(group_change_name, (self.0, RustStr { slice: name })),
            forall|fu: FFIFuture<K>| #[trigger]
                call_ensures(group_change_name, (self.0, RustStr { slice: name }), fu)
                    ==> fu.task.polls_left() > 0,
        ensures
            exists|fu: FFIFuture<K>| #[trigger]
                call_ensures(group_change_name, (self.0, RustStr { slice: name }), fu) && r
                    == done(fu.task.output().result()),
    {
        let rs = RustStr::from(name);
        let fu = group_change_name(self.0, rs);
        read_done(fu.block_on())
    }

    /// Asks the host to leave this group; the answer says whether it did.
    pub fn quit<K: Task<Output = bool>, F: Fn(Handle) -> FFIFuture<K>>(
        &self,
        group_quit: &F,
    ) -> (r: bool)
        requires
            call_requires(group_quit, (self.0,)),
            forall|fu: FFIFuture<K>| #[trigger]
                call_ensures(group_quit, (self.0,), fu) ==> fu.task.polls_left() > 0,
        ensures
            exists|fu: FFIFuture<K>| #[trigger]
                call_ensures(group_quit, (self.0,), fu) && r == fu.task.output(),
    {
        let fu = group_quit(self.0);
        fu.block_on()
    }

    /// Another handle to the same group, as `group_clone` gives it.
    pub fn clone<F: Fn(Handle) -> Handle>(&self, group_clone: &F) -> (r: Self)
        requires
            call_requires(group_clone, (self.0,)),
        ensures
            call_ensures(group_clone, (self.0,), r.0),
    {
        Group(group_clone(self.0))
    }

    /// Gives the handle back to the host through `group_drop`.
    pub fn drop<F: Fn(Handle)>(self, group_drop: &F)
        requires
            call_requires(group_drop, (self.0,)),
        ensures
            call_ensures(group_drop, (self.0,), ()),
    {
        group_drop(self.0)
    }

    /// The printed form: `Group(` and the group number `)`.
    pub fn to_string<F: Fn(Handle) -> i64>(&self, group_get_id: &F) -> (r: String)
        requires
            call_requires(group_get_id, (self.0,)),
        ensures
            exists|id: i64| #[trigger]
                call_ensures(group_get_id, (self.0,), id) && r@ == tagged("Group("@, id),
    {
        let id = self.id(group_get_id);
        tagged_string("Group(", id)
    }
}

} // verus!
