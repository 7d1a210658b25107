//! Those a message can be sent to.

pub mod friend;
pub mod group;
pub mod member;

use crate::abi::error::FFIResult;
use crate::abi::future::{FFIFuture, Task};
use crate::abi::managed::ManagedCloneable;
use crate::abi::message::meta::FFIMessageReceipt;
use crate::abi::message::FFIMessageChain;
use crate::abi::{Handle, RustVec};
use crate::contact::friend::Friend;
use crate::contact::group::Group;
use crate::contact::member::Member;
use crate::error::AtriError;
use crate::message::image::Image;
use crate::message::meta::MessageReceipt;
use crate::message::MessageChain;
use vstd::prelude::*;

verus! {

/// What the host's answer to a sent message means: the receipt, or the
/// failure that the host describes.
pub open spec fn sent(answer: Result<FFIMessageReceipt, String>) -> Result<
    MessageReceipt,
    AtriError,
> {
    match answer {
        Ok(ffi) => Ok(ffi.native()),
        Err(s) => Err(AtriError::ClientError(s)),
    }
}

pub fn read_sent(answer: FFIResult<FFIMessageReceipt>) -> (r: Result<MessageReceipt, AtriError>)
    ensures
        r == sent(answer.result()),
{
    let result: Result<FFIMessageReceipt, String> = Result::from(answer);
    match result {
        Ok(ffi) => Ok(MessageReceipt::from_ffi(ffi)),
        Err(s) => Err(AtriError::ClientError(s)),
    }
}

/// What the host's answer to an uploaded image means: the image, or the
/// failure that the host describes.
pub open spec fn uploaded(answer: Result<ManagedCloneable, String>) -> Result<Image, AtriError> {
    match answer {
        Ok(ma) => Ok(Image(ma)),
        Err(s) => Err(AtriError::ClientError(s)),
    }
}

pub fn read_uploaded(answer: FFIResult<ManagedCloneable>) -> (r: Result<Image, AtriError>)
    ensures
        r == uploaded(answer.result()),
{
    let result: Result<ManagedCloneable, String> = Result::from(answer);
    match result {
        Ok(ma) => Ok(Image(ma)),
        Err(s) => Err(AtriError::ClientError(s)),
    }
}

/// What the host's answer to a request without a result means.
pub open spec fn done(answer: Result<(), String>) -> Result<(), AtriError> {
    match answer {
        Ok(_) => Ok(()),
        Err(s) => Err(AtriError::ClientError(s)),
    }
}

pub fn read_done(answer: FFIResult<()>) -> (r: Result<(), AtriError>)
    ensures
        r == done(answer.result()),
{
    let result: Result<(), String> = Result::from(answer);
    match result {
        Ok(_) => Ok(()),
        Err(s) => Err(AtriError::ClientError(s)),
    }
}

pub enum Contact {
    Friend(Friend),
    Group(Group),
    Member(Member),
    Stranger,
}

impl Contact {
    /// Whether messages and images can be sent to this kind of contact.
    pub open spec fn spec_is_supported(&self) -> bool {
        self is Friend || self is Group
    }

    #[verifier::when_used_as_spec(spec_is_supported)]
    pub fn is_supported(&self) -> (r: bool)
        ensures
            r == self.spec_is_supported(),
    {
        match self {
            Contact::Friend(_) => true,
            Contact::Group(_) => true,
            Contact::Member(_) => false,
            Contact::Stranger => false,
        }
    }
}

impl Contact {
    /// Uploads an image for this contact. Friends and groups take images;
    /// for any other contact the answer is `NotSupported` and the host is not asked.
    pub fn upload_image<
        K1: Task<Output = FFIResult<ManagedCloneable>>,
        F1: Fn(Handle, RustVec<u8>) -> FFIFuture<K1>,
        K2: Task<Output = FFIResult<ManagedCloneable>>,
        F2: Fn(Handle, RustVec<u8>) -> FFIFuture<K2>,
    >(&self, img: Vec<u8>, friend_upload_image: &F1, group_upload_image: &F2) -> (r: Result<
        Image,
        AtriError,
    >)
        requires
            self matches Contact::Friend(f) ==> {
                &&& call_requires(friend_upload_image, (f.0, RustVec::encoded(img)))
                &&& forall|fu: FFIFuture<K1>| #[trigger]
                    call_ensures(friend_upload_image, (f.0, RustVec::encoded(img)), fu)
                        ==> fu.task.polls_left() > 0
            },
            self matches Contact::Group(g) ==> {
                &&& call_requires(group_upload_image, (g.0, RustVec::encoded(img)))
                &&& forall|fu: FFIFuture<K2>| #[trigger]
                    call_ensures(group_upload_image, (g.0, RustVec::encoded(img)), fu)
                        ==> fu.task.polls_left() > 0
            },
        ensures
            !self.spec_is_supported() ==> r == Err::<Image, AtriError>(AtriError::NotSupported),
            self matches Contact::Friend(f) ==> exists|fu: FFIFuture<K1>| #[trigger]
                call_ensures(friend_upload_image, (f.0, RustVec::encoded(img)), fu) && r
                    == uploaded(fu.task.output().result()),
            self matches Contact::Group(g) ==> exists|fu: FFIFuture<K2>| #[trigger]
                call_ensures(group_upload_image, (g.0, RustVec::encoded(img)), fu) && r
                    == uploaded(fu.task.output().result()),
    {
        match self {
            Contact::Friend(f) => f.upload_image(img, friend_upload_image),
            Contact::Group(g) => g.upload_image(img, group_upload_image),
            Contact::Member(_) => Err(AtriError::NotSupported),
            Contact::Stranger => Err(AtriError::NotSupported),
        }
    }

    /// Sends a message to this contact. Friends and groups take messages;
    /// for any other contact the answer is `NotSupported` and the host is not asked.
    pub fn send_message<
        M: Into<MessageChain>,
        K1: Task<Output = FFIResult<FFIMessageReceipt>>,
        F1: Fn(Handle, FFIMessageChain) -> FFIFuture<K1>,
        K2: Task<Output = FFIResult<FFIMessageReceipt>>,
        F2: Fn(Handle, FFIMessageChain) -> FFIFuture<K2>,
    >(&self, chain: M, friend_send_message: &F1, group_send_message: &F2) -> (r: Result<
        MessageReceipt,
        AtriError,
    >)
        requires
            self matches Contact::Friend(f) ==> {
                &&& forall|ffi: FFIMessageChain| #[trigger]
                    call_requires(friend_send_message, (f.0, ffi))
                &&& forall|ffi: FFIMessageChain, fu: FFIFuture<K1>| #[trigger]
                    call_ensures(friend_send_message, (f.0, ffi), fu) ==> fu.task.polls_left() > 0
            },
            self matches Contact::Group(g) ==> {
                &&& forall|ffi: FFIMessageChain| #[trigger]
                    call_requires(group_send_message, (g.0, ffi))
                &&& forall|ffi: FFIMessageChain, fu: FFIFuture<K2>| #[trigger]
                    call_ensures(group_send_message, (g.0, ffi), fu) ==> fu.task.polls_left() > 0
            },
        ensures
            !self.spec_is_supported() ==> r == Err::<MessageReceipt, AtriError>(
                AtriError::NotSupported,
            ),
            self matches Contact::Friend(f) ==> exists|
                native: MessageChain,
                ffi: FFIMessageChain,
                fu: FFIFuture<K1>,
            |
                {
                    &&& #[trigger] call_ensures(M::into, (chain,), native)
                    &&& ffi.encodes(native@)
                    &&& #[trigger] call_ensures(friend_send_message, (f.0, ffi), fu)
                    &&& r == sent(fu.task.output().result())
                },
            self matches Contact::Group(g) ==> exists|
                native: MessageChain,
                ffi: FFIMessageChain,
                fu: FFIFuture<K2>,
            |
                {
                    &&& #[trigger] call_ensures(M::into, (chain,), native)
                    &&& ffi.encodes(native@)
                    &&& #[trigger] call_ensures(group_send_message, (g.0, ffi), fu)
                    &&& r == sent(fu.task.output().result())
                },
    {
        match self {
            Contact::Friend(f) => f.send_message(chain, friend_send_message),
            Contact::Group(g) => g.send_message(chain, group_send_message),
            Contact::Member(_) => Err(AtriError::NotSupported),
            Contact::Stranger => Err(AtriError::NotSupported),
        }
    }
}

/// Something that happened with respect to a contact.
pub trait HasSubject {
    fn subject(&self) -> Contact;
}

} // verus!
