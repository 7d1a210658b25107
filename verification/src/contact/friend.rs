//! A friend of a client.

use crate::abi::error::FFIResult;
use crate::abi::future::{FFIFuture, Task};
use crate::abi::managed::ManagedCloneable;
use crate::abi::message::meta::FFIMessageReceipt;
use crate::abi::message::FFIMessageChain;
use crate::abi::{Handle, RustStr, RustVec};
use crate::client::Client;
use crate::contact::{read_sent, read_uploaded, sent, uploaded};
use crate::error::AtriError;
use crate::message::image::Image;
use crate::message::meta::MessageReceipt;
use crate::message::MessageChain;
use crate::text::{tagged, tagged_string};
use vstd::prelude::*;

verus! {

pub struct Friend(pub Handle);

impl Friend {
    /// What a lookup that answered `handle` has found.
    pub open spec fn found(handle: Handle) -> Option<Friend> {
        if handle == 0 {
            None
        } else {
            Some(Friend(handle))
        }
    }

    /// The friends behind a sequence of handles, one for one.
    pub open spec fn friends_of(handles: Seq<Handle>) -> Seq<Friend> {
        Seq::new(handles.len(), |i: int| Friend(handles[i]))
    }

    /// Wraps each handle as a friend.
    pub fn from_handles(handles: Vec<Handle>) -> (r: Vec<Friend>)
        ensures
            r@ == Self::friends_of(handles@),
    {
        let mut out: Vec<Friend> = Vec::new();
        for h in it: handles
            invariant
                it.seq() == handles@,
                out@ == Self::friends_of(handles@.take(it.index() as int)),
        {
            out.push(Friend(h));
        }
        assert(handles@.take(handles@.len() as int) == handles@);
        out
    }

    /// The account number, as `friend_get_id` gives it for this friend.
    pub fn id<F: Fn(Handle) -> i64>(&self, friend_get_id: &F) -> (r: i64)
        requires
            call_requires(friend_get_id, (self.0,)),
        ensures
            call_ensures(friend_get_id, (self.0,), r),
    {
        friend_get_id(self.0)
    }

    /// The nickname, as `friend_get_nickname` gives it for this friend.
    pub fn nickname<'a, F: Fn(Handle) -> RustStr<'a>>(&self, friend_get_nickname: &F) -> (r: &'a str)
        requires
            call_requires(friend_get_nickname, (self.0,)),
        ensures
            exists|rs: RustStr<'a>| #[trigger]
                call_ensures(friend_get_nickname, (self.0,), rs) && r@ == rs@,
    {
        let rs = friend_get_nickname(self.0);
        rs.as_str()
    }

    /// The client whose friend this is, as `friend_get_client` names it.
    pub fn client<F: Fn(Handle) -> Handle>(&self, friend_get_client: &F) -> (r: Client)
        requires
            call_requires(friend_get_client, (self.0,)),
        ensures
            call_ensures(friend_get_client, (self.0,), r.0),
    {
        Client(friend_get_client(self.0))
    }

    /// Sends `chain` to this friend: encodes it, hands it to
    /// `friend_send_message`, waits for the host to finish, and reads the
    /// answer.
    pub fn send_message<
        M: Into<MessageChain>,
        K: Task<Output = FFIResult<FFIMessageReceipt>>,
        F: Fn(Handle, FFIMessageChain) -> FFIFuture<K>,
    >(&self, chain: M, friend_send_message: &F) -> (r: Result<MessageReceipt, AtriError>)
        requires
            forall|ffi: FFIMessageChain| #[trigger] call_requires(friend_send_message, (self.0, ffi)),
            forall|ffi: FFIMessageChain, fu: FFIFuture<K>| #[trigger]
                call_ensures(friend_send_message, (self.0, ffi), fu) ==> fu.task.polls_left() > 0,
        ensures
            exists|native: MessageChain, ffi: FFIMessageChain, fu: FFIFuture<K>|
                {
                    &&& #[trigger] call_ensures(M::into, (chain,), native)
                    &&& ffi.encodes(native@)
                    &&& #[trigger] call_ensures(friend_send_message, (self.0, ffi), fu)
                    &&& r == sent(fu.task.output().result())
                },
    {
        let native: MessageChain = chain.into();
        let ffi = native.into_ffi();
        let fu = friend_send_message(self.0, ffi);
        read_sent(fu.block_on())
    }

    /// Uploads the bytes of an image for this friend through
    /// `friend_upload_image`, waits for the host to finish, and reads the answer.
    pub fn upload_image<
        K: Task<Output = FFIResult<ManagedCloneable>>,
        F: Fn(Handle, RustVec<u8>) -> FFIFuture<K>,
    >(&self, img: Vec<u8>, friend_upload_image: &F) -> (r: Result<Image, AtriError>)
        requires
            call_requires(friend_upload_image, (self.0, RustVec::encoded(img))),
            forall|fu: FFIFuture<K>| #[trigger]
                call_ensures(friend_upload_image, (self.0, RustVec::encoded(img)), fu)
                    ==> fu.task.polls_left() > 0,
        ensures
            exists|fu: FFIFuture<K>| #[trigger]
                call_ensures(friend_upload_image, (self.0, RustVec::encoded(img)), fu) && r
                    == uploaded(fu.task.output().result()),
    {
        let fu = friend_upload_image(self.0, RustVec::from(img));
        read_uploaded(fu.block_on())
    }

    /// Another handle to the same friend, as `friend_clone` gives it.
    pub fn clone<F: Fn(Handle) -> Handle>(&self, friend_clone: &F) -> (r: Self)
        requires
            call_requires(friend_clone, (self.0,)),
        ensures
            call_ensures(friend_clone, (self.0,), r.0),
    {
        Friend(friend_clone(self.0))
    }

    /// Gives the handle back to the host through `friend_drop`.
    pub fn drop<F: Fn(Handle)>(self, friend_drop: &F)
        requires
            call_requires(friend_drop, (self.0,)),
        ensures
            call_ensures(friend_drop, (self.0,), ()),
    {
        friend_drop(self.0)
    }

    /// The printed form: `Friend(` and the account number `)`.
    pub fn to_string<F: Fn(Handle) -> i64>(&self, friend_get_id: &F) -> (r: String)
        requires
            call_requires(friend_get_id, (self.0,)),
        ensures
            exists|id: i64| #[trigger]
                call_ensures(friend_get_id, (self.0,), id) && r@ == tagged("Friend("@, id),
    {
        let id = self.id(friend_get_id);
        tagged_string("Friend(", id)
    }
}

} // verus!
