//! Events that the host reports, and the narrowing of an event to one kind.

use crate::abi::contact::FFIMember;
use crate::abi::event::FFIEvent;
use crate::abi::managed::ManagedCloneable;
use crate::abi::message::FFIMessageChain;
use crate::abi::Handle;
use crate::client::Client;
use crate::contact::friend::Friend;
use crate::contact::group::Group;
use crate::contact::member::Member;
use crate::message::MessageChain;
use vstd::prelude::*;

verus! {

/// The kind byte of an event that carries no known kind on purpose.
pub const UNKNOWN_EVENT: u8 = 255;

pub enum Event {
    ClientLogin(ClientLoginEvent),
    GroupMessage(GroupMessageEvent),
    FriendMessage(FriendMessageEvent),
    NewFriend(NewFriendEvent),
    DeleteFriend(DeleteFriendEvent),
    Unknown { raw_tag: u8, inner: EventInner },
}

impl Event {
    /// The event that an encoding stands for: the kind byte picks the kind,
    /// and a byte that names no kind gives an unknown event that keeps the byte.
    pub open spec fn of(ffi: FFIEvent) -> Event {
        let inner = EventInner { intercepted: ffi.intercepted, event: ffi.base };
        if ffi.t == 0 {
            Event::ClientLogin(ClientLoginEvent(inner))
        } else if ffi.t == 1 {
            Event::GroupMessage(GroupMessageEvent(inner))
        } else if ffi.t == 2 {
            Event::FriendMessage(FriendMessageEvent(inner))
        } else if ffi.t == 3 {
            Event::NewFriend(NewFriendEvent(inner))
        } else if ffi.t == 4 {
            Event::DeleteFriend(DeleteFriendEvent(inner))
        } else {
            Event::Unknown { raw_tag: ffi.t, inner }
        }
    }

    pub fn from_ffi(ffi: FFIEvent) -> (r: Self)
        ensures
            r == Self::of(ffi),
    {
        let (t, intercepted, m) = ffi.get();
        let inner = EventInner { intercepted, event: m };
        match t {
            0 => Event::ClientLogin(ClientLoginEvent(inner)),
            1 => Event::GroupMessage(GroupMessageEvent(inner)),
            2 => Event::FriendMessage(FriendMessageEvent(inner)),
            3 => Event::NewFriend(NewFriendEvent(inner)),
            4 => Event::DeleteFriend(DeleteFriendEvent(inner)),
            or => Event::Unknown { raw_tag: or, inner },
        }
    }

    /// Whether the kind byte of this event is one that a reader should
    /// report: it names no kind and is not the byte reserved for that.
    pub fn is_unexpected(&self) -> (r: bool)
        ensures
            r == (self matches Event::Unknown { raw_tag, .. } && raw_tag != UNKNOWN_EVENT),
    {
        match self {
            Event::Unknown { raw_tag, .. } => *raw_tag != UNKNOWN_EVENT,
            _ => false,
        }
    }
}

/// A kind of event that an event can be narrowed to.
pub trait FromEvent: Sized {
    /// Whether `from_event` of this kind gives `narrowed`. An implementor
    /// that says nothing promises nothing.
    open spec fn obeys_from_event() -> bool {
        false
    }

    /// The event as this kind, if it is of this kind.
    open spec fn narrowed(e: Event) -> Option<Self> {
        None
    }

    fn from_event(e: Event) -> (r: Option<Self>)
        ensures
            Self::obeys_from_event() ==> r == Self::narrowed(e),
    ;
}

impl FromEvent for Event {
    open spec fn obeys_from_event() -> bool {
        true
    }

    open spec fn narrowed(e: Event) -> Option<Self> {
        Some(e)
    }

    fn from_event(e: Event) -> (r: Option<Self>) {
        Some(e)
    }
}

/// What every event carries: the address of its interception flag, which the
/// event owns, and the event as the host keeps it.
pub struct EventInner {
    pub intercepted: Handle,
    pub event: ManagedCloneable,
}

impl EventInner {
    /// Marks the event as intercepted through `event_intercept`, so that
    /// listeners of lower priority do not see it.
    pub fn intercept<F: Fn(Handle)>(&self, event_intercept: &F)
        requires
            call_requires(event_intercept, (self.intercepted,)),
        ensures
            call_ensures(event_intercept, (self.intercepted,), ()),
    {
        event_intercept(self.intercepted);
    }

    /// Whether the event is marked as intercepted, as `event_is_intercepted`
    /// tells it.
    pub fn is_intercepted<F: Fn(Handle) -> bool>(&self, event_is_intercepted: &F) -> (r: bool)
        requires
            call_requires(event_is_intercepted, (self.intercepted,)),
        ensures
            call_ensures(event_is_intercepted, (self.intercepted,), r),
    {
        event_is_intercepted(self.intercepted)
    }
}

pub struct ClientLoginEvent(pub EventInner);

pub struct GroupMessageEvent(pub EventInner);

impl GroupMessageEvent {
    /// The group in which the message was sent.
    pub fn group<F: Fn(Handle) -> Handle>(&self, group_message_event_get_group: &F) -> (r: Group)
        requires
            call_requires(group_message_event_get_group, (self.0.event.value.pointer,)),
        ensures
            call_ensures(group_message_event_get_group, (self.0.event.value.pointer,), r.0),
    {
        let phandle = group_message_event_get_group(self.0.event.value.pointer);
        Group(phandle)
    }

    /// The client that received the message: the client of the group.
    pub fn client<F: Fn(Handle) -> Handle, G: Fn(Handle) -> Handle>(
        &self,
        group_message_event_get_group: &F,
        group_get_client: &G,
    ) -> (r: Client)
        requires
            call_requires(group_message_event_get_group, (self.0.event.value.pointer,)),
            forall|g: Handle| #[trigger] call_requires(group_get_client, (g,)),
        ensures
            exists|g: Handle| #[trigger]
                call_ensures(group_message_event_get_group, (self.0.event.value.pointer,), g)
                    && call_ensures(group_get_client, (g,), r.0),
    {
        self.group(group_message_event_get_group).client(group_get_client)
    }

    /// The member who sent the message.
    pub fn sender<F: Fn(Handle) -> FFIMember>(&self, group_message_event_get_sender: &F) -> (r:
        Member)
        requires
            call_requires(group_message_event_get_sender, (self.0.event.value.pointer,)),
        ensures
            exists|ffi: FFIMember| #[trigger]
                call_ensures(group_message_event_get_sender, (self.0.event.value.pointer,), ffi)
                    && r == Member::of(ffi),
    {
        let ffi = group_message_event_get_sender(self.0.event.value.pointer);
        Member::from_ffi(ffi)
    }

    /// The message. What the host hands out is a well-formed encoding.
    pub fn message<F: Fn(Handle) -> FFIMessageChain>(
        &self,
        group_message_event_get_message: &F,
    ) -> (r: MessageChain)
        requires
            call_requires(group_message_event_get_message, (self.0.event.value.pointer,)),
            forall|ffi: FFIMessageChain| #[trigger]
                call_ensures(group_message_event_get_message, (self.0.event.value.pointer,), ffi)
                    ==> ffi.wf(),
        ensures
            exists|ffi: FFIMessageChain| #[trigger]
                call_ensures(group_message_event_get_message, (self.0.event.value.pointer,), ffi)
                    && r@ == ffi.native(),
    {
        let ffi = group_message_event_get_message(self.0.event.value.pointer);
        MessageChain::from_ffi(ffi)
    }
}

impl GroupMessageEvent {
    /// Whether `next` continues the conversation of this event: it is in
    /// the same group, by the same sender, and `filter` lets it pass. The
    /// sender is asked for only where the group is the same, and the filter
    /// only where both are.
    pub fn accepts_next<
        G: Fn(Handle) -> Handle,
        I: Fn(Handle) -> i64,
        S: Fn(Handle) -> FFIMember,
        N: Fn(Handle) -> i64,
        P: Fn(&GroupMessageEvent) -> bool,
    >(
        group_id: i64,
        sender_id: i64,
        next: &GroupMessageEvent,
        filter: &P,
        group_message_event_get_group: &G,
        group_get_id: &I,
        group_message_event_get_sender: &S,
        named_member_get_id: &N,
    ) -> (r: bool)
        requires
            call_requires(group_message_event_get_group, (next.0.event.value.pointer,)),
            forall|g: Handle| #[trigger] call_requires(group_get_id, (g,)),
            call_requires(group_message_event_get_sender, (next.0.event.value.pointer,)),
            forall|m: Handle| #[trigger] call_requires(named_member_get_id, (m,)),
            call_requires(*filter, (next,)),
        ensures
            exists|g: Handle, gid: i64|
                {
                    &&& #[trigger] call_ensures(
                        group_message_event_get_group,
                        (next.0.event.value.pointer,),
                        g,
                    )
                    &&& #[trigger] call_ensures(group_get_id, (g,), gid)
                    &&& gid != group_id ==> !r
                    &&& gid == group_id ==> exists|ffi: FFIMember, sid: i64|
                        {
                            &&& #[trigger] call_ensures(
                                group_message_event_get_sender,
                                (next.0.event.value.pointer,),
                                ffi,
                            )
                            &&& #[trigger] Self::sender_number(named_member_get_id, ffi, sid)
                            &&& sid != sender_id ==> !r
                            &&& sid == sender_id ==> call_ensures(*filter, (next,), r)
                        }
                },
    {
        let group = next.group(group_message_event_get_group);
        let g = group.0;
        let gid = group.id(group_get_id);
        if gid != group_id {
            assert(call_ensures(group_message_event_get_group, (next.0.event.value.pointer,), g)
                && call_ensures(group_get_id, (g,), gid));
            return false;
        }
        let ffi = group_message_event_get_sender(next.0.event.value.pointer);
        let sid = Member::from_ffi(ffi).id(named_member_get_id);
        assert(Self::sender_number(named_member_get_id, ffi, sid));
        let r = if sid != sender_id {
            false
        } else {
            filter(next)
        };
        assert(call_ensures(group_message_event_get_group, (next.0.event.value.pointer,), g)
            && call_ensures(group_get_id, (g,), gid));
        r
    }

    /// Whether `id` is the account number of the member that `ffi` stands
    /// for: of a named member as `named_member_get_id` gives it, of an
    /// anonymous member the fixed number.
    pub open spec fn sender_number<N: Fn(Handle) -> i64>(
        named_member_get_id: &N,
        ffi: FFIMember,
        id: i64,
    ) -> bool {
        if ffi.is_named {
            call_ensures(named_member_get_id, (ffi.inner.value.pointer,), id)
        } else {
            id == crate::contact::member::ANONYMOUS_ID
        }
    }
}

impl FromEvent for GroupMessageEvent {
    open spec fn obeys_from_event() -> bool {
        true
    }

    open spec fn narrowed(e: Event) -> Option<Self> {
        match e {
            Event::GroupMessage(e) => Some(e),
            _ => None,
        }
    }

    fn from_event(e: Event) -> (r: Option<Self>) {
        if let Event::GroupMessage(e) = e {
            Some(e)
        } else {
            None
        }
    }
}

pub struct FriendMessageEvent(pub EventInner);

impl FriendMessageEvent {
    /// The friend who sent the message.
    pub fn friend<F: Fn(Handle) -> Handle>(&self, friend_message_event_get_friend: &F) -> (r: Friend)
        requires
            call_requires(friend_message_event_get_friend, (self.0.event.value.pointer,)),
        ensures
            call_ensures(friend_message_event_get_friend, (self.0.event.value.pointer,), r.0),
    {
        let phandle = friend_message_event_get_friend(self.0.event.value.pointer);
        Friend(phandle)
    }

    /// The client that received the message: the client of the friend.
    pub fn client<F: Fn(Handle) -> Handle, G: Fn(Handle) -> Handle>(
        &self,
        friend_message_event_get_friend: &F,
        friend_get_client: &G,
    ) -> (r: Client)
        requires
            call_requires(friend_message_event_get_friend, (self.0.event.value.pointer,)),
            forall|f: Handle| #[trigger] call_requires(friend_get_client, (f,)),
        ensures
            exists|f: Handle| #[trigger]
                call_ensures(friend_message_event_get_friend, (self.0.event.value.pointer,), f)
                    && call_ensures(friend_get_client, (f,), r.0),
    {
        self.friend(friend_message_event_get_friend).client(friend_get_client)
    }

    /// The message. What the host hands out is a well-formed encoding.
    pub fn message<F: Fn(Handle) -> FFIMessageChain>(
        &self,
        friend_message_event_get_message: &F,
    ) -> (r: MessageChain)
        requires
            call_requires(friend_message_event_get_message, (self.0.event.value.pointer,)),
            forall|ffi: FFIMessageChain| #[trigger]
                call_ensures(friend_message_event_get_message, (self.0.event.value.pointer,), ffi)
                    ==> ffi.wf(),
        ensures
            exists|ffi: FFIMessageChain| #[trigger]
                call_ensures(friend_message_event_get_message, (self.0.event.value.pointer,), ffi)
                    && r@ == ffi.native(),
    {
        let ffi = friend_message_event_get_message(self.0.event.value.pointer);
        MessageChain::from_ffi(ffi)
    }
}

impl FriendMessageEvent {
    /// Whether `next` continues the conversation of this event: it is from
    /// the same friend and `filter` lets it pass. The filter is asked only
    /// where the friend is the same.
    pub fn accepts_next<
        G: Fn(Handle) -> Handle,
        I: Fn(Handle) -> i64,
        P: Fn(&FriendMessageEvent) -> bool,
    >(
        friend_id: i64,
        next: &FriendMessageEvent,
        filter: &P,
        friend_message_event_get_friend: &G,
        friend_get_id: &I,
    ) -> (r: bool)
        requires
            call_requires(friend_message_event_get_friend, (next.0.event.value.pointer,)),
            forall|f: Handle| #[trigger] call_requires(friend_get_id, (f,)),
            call_requires(*filter, (next,)),
        ensures
            exists|f: Handle, fid: i64|
                {
                    &&& #[trigger] call_ensures(
                        friend_message_event_get_friend,
                        (next.0.event.value.pointer,),
                        f,
                    )
                    &&& #[trigger] call_ensures(friend_get_id, (f,), fid)
                    &&& fid != friend_id ==> !r
                    &&& fid == friend_id ==> call_ensures(*filter, (next,), r)
                },
    {
        let friend = next.friend(friend_message_event_get_friend);
        let f = friend.0;
        let fid = friend.id(friend_get_id);
        let r = if fid != friend_id {
            false
        } else {
            filter(next)
        };
        assert(call_ensures(friend_message_event_get_friend, (next.0.event.value.pointer,), f)
            && call_ensures(friend_get_id, (f,), fid));
        r
    }
}

impl FromEvent for FriendMessageEvent {
    open spec fn obeys_from_event() -> bool {
        true
    }

    open spec fn narrowed(e: Event) -> Option<Self> {
        match e {
            Event::FriendMessage(e) => Some(e),
            _ => None,
        }
    }

    fn from_event(e: Event) -> (r: Option<Self>) {
        if let Event::FriendMessage(e) = e {
            Some(e)
        } else {
            None
        }
    }
}

pub struct NewFriendEvent(pub EventInner);

pub struct DeleteFriendEvent(pub EventInner);

impl core::ops::Deref for ClientLoginEvent {
    type Target = EventInner;

    fn deref(&self) -> (r: &EventInner)
        ensures
            *r == self.0,
    {
        &self.0
    }
}

impl core::ops::Deref for GroupMessageEvent {
    type Target = EventInner;

    fn deref(&self) -> (r: &EventInner)
        ensures
            *r == self.0,
    {
        &self.0
    }
}

impl core::ops::Deref for FriendMessageEvent {
    type Target = EventInner;

    fn deref(&self) -> (r: &EventInner)
        ensures
            *r == self.0,
    {
        &self.0
    }
}

/// A message event, from a friend or in a group.
pub enum MessageEvent {
    Friend(FriendMessageEvent),
    Group(GroupMessageEvent),
}

impl FromEvent for MessageEvent {
    open spec fn obeys_from_event() -> bool {
        true
    }

    open spec fn narrowed(e: Event) -> Option<Self> {
        match e {
            Event::FriendMessage(e) => Some(MessageEvent::Friend(e)),
            Event::GroupMessage(e) => Some(MessageEvent::Group(e)),
            _ => None,
        }
    }

    fn from_event(e: Event) -> (r: Option<Self>) {
        let e = match e {
            Event::FriendMessage(e) => MessageEvent::Friend(e),
            Event::GroupMessage(e) => MessageEvent::Group(e),
            _ => {
                return None;
            },
        };
        Some(e)
    }
}

} // verus!
