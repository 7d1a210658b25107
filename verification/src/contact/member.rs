//! A member of a group: one with a name, or an anonymous one.

use crate::abi::contact::FFIMember;
use crate::abi::error::FFIResult;
use crate::abi::future::{FFIFuture, Task};
use crate::abi::managed::ManagedCloneable;
use crate::abi::{Handle, RustStr};
use crate::client::Client;
use crate::contact::group::Group;
use crate::contact::{done, read_done};
use crate::error::AtriError;
use crate::text::{tagged, tagged_string};
use vstd::prelude::*;

verus! {

/// The account number under which every anonymous member appears.
pub const ANONYMOUS_ID: i64 = 80000000;

pub enum Member {
    Named(NamedMember),
    Anonymous(AnonymousMember),
}

impl Member {
    /// The account number: that of a named member as `named_member_get_id`
    /// gives it; for an anonymous member the fixed number, without a call.
    pub fn id<F: Fn(Handle) -> i64>(&self, named_member_get_id: &F) -> (r: i64)
        requires
            self matches Member::Named(named) ==> call_requires(
                named_member_get_id,
                (named.0.value.pointer,),
            ),
        ensures
            self matches Member::Named(named) ==> call_ensures(
                named_member_get_id,
                (named.0.value.pointer,),
                r,
            ),
            self is Anonymous ==> r == ANONYMOUS_ID,
    {
        match self {
            Member::Named(named) => named.id(named_member_get_id),
            Member::Anonymous(_ano) => ANONYMOUS_ID,
        }
    }

    /// The member that an encoding stands for.
    pub open spec fn of(ffi: FFIMember) -> Member {
        if ffi.is_named {
            Member::Named(NamedMember(ffi.inner))
        } else {
            Member::Anonymous(AnonymousMember(ffi.inner))
        }
    }

    pub fn from_ffi(ffi: FFIMember) -> (r: Self)
        ensures
            r == Self::of(ffi),
    {
        if ffi.is_named {
            Member::Named(NamedMember(ffi.inner))
        } else {
            Member::Anonymous(AnonymousMember(ffi.inner))
        }
    }
}

pub struct NamedMember(pub ManagedCloneable);

impl NamedMember {
    /// What a lookup that answered `ma` has found: nothing where the address
    /// is nil.
    pub open spec fn found(ma: ManagedCloneable) -> Option<NamedMember> {
        if ma.value.pointer == 0 {
            None
        } else {
            Some(NamedMember(ma))
        }
    }

    /// The members behind a sequence of values, one for one.
    pub open spec fn members_of(s: Seq<ManagedCloneable>) -> Seq<NamedMember> {
        Seq::new(s.len(), |i: int| NamedMember(s[i]))
    }

    /// Wraps each value as a named member.
    pub fn from_managed(v: Vec<ManagedCloneable>) -> (r: Vec<NamedMember>)
        ensures
            r@ == Self::members_of(v@),
    {
        let mut out: Vec<NamedMember> = Vec::new();
        for ma in it: v
            invariant
                it.seq() == v@,
                out@ == Self::members_of(v@.take(it.index() as int)),
        {
            out.push(NamedMember(ma));
        }
        assert(v@.take(v@.len() as int) == v@);
        out
    }

    /// The account number, as `named_member_get_id` gives it for this member.
    pub fn id<F: Fn(Handle) -> i64>(&self, named_member_get_id: &F) -> (r: i64)
        requires
            call_requires(named_member_get_id, (self.0.value.pointer,)),
        ensures
            call_ensures(named_member_get_id, (self.0.value.pointer,), r),
    {
        named_member_get_id(self.0.value.pointer)
    }

    /// The nickname, as `named_member_get_nickname` gives it for this member.
    pub fn nickname<'a, F: Fn(Handle) -> RustStr<'a>>(
        &self,
        named_member_get_nickname: &F,
    ) -> (r: &'a str)
        requires
            call_requires(named_member_get_nickname, (self.0.value.pointer,)),
        ensures
            exists|rs: RustStr<'a>| #[trigger]
                call_ensures(named_member_get_nickname, (self.0.value.pointer,), rs) && r@ == rs@,
    {
        let rs = named_member_get_nickname(self.0.value.pointer);
        rs.as_str()
    }

    /// The name that this member carries in the group.
    pub fn card_name<'a, F: Fn(Handle) -> RustStr<'a>>(
        &self,
        named_member_get_card_name: &F,
    ) -> (r: &'a str)
        requires
            call_requires(named_member_get_card_name, (self.0.value.pointer,)),
        ensures
            exists|rs: RustStr<'a>| #[trigger]
                call_ensures(named_member_get_card_name, (self.0.value.pointer,), rs) && r@
                    == rs@,
    {
        let rs = named_member_get_card_name(self.0.value.pointer);
        rs.as_str()
    }

    /// The group that this member is in, as `named_member_get_group` names it.
    pub fn group<F: Fn(Handle) -> Handle>(&self, named_member_get_group: &F) -> (r: Group)
        requires
            call_requires(named_member_get_group, (self.0.value.pointer,)),
        ensures
            call_ensures(named_member_get_group, (self.0.value.pointer,), r.0),
    {
        let handle = named_member_get_group(self.0.value.pointer);
        Group(handle)
    }

    /// The client that is in the group of this member.
    pub fn client<F: Fn(Handle) -> Handle, G: Fn(Handle) -> Handle>(
        &self,
        named_member_get_group: &F,
        group_get_client: &G,
    ) -> (r: Client)
        requires
            call_requires(named_member_get_group, (self.0.value.pointer,)),
            forall|g: Handle| #[trigger] call_requires(group_get_client, (g,)),
        ensures
            exists|g: Handle| #[trigger]
                call_ensures(named_member_get_group, (self.0.value.pointer,), g) && call_ensures(
                    group_get_client,
                    (g,),
                    r.0,
                ),
    {
        self.group(named_member_get_group).client(group_get_client)
    }

    /// Asks the host to change the name that this member carries in the group.
    pub fn change_card_name<
        'a,
        K: Task<Output = FFIResult<()>>,
        F: Fn(Handle, RustStr<'a>) -> FFIFuture<K>,
    >(&self, card_name: &'a str, named_member_change_card_name: &F) -> (r: Result<(), AtriError>)
        requires
            call_requires(
                named_member_change_card_name,
                (self.0.value.pointer, RustStr { slice: card_name }),
            ),
            forall|fu: FFIFuture<K>| #[trigger]
                call_ensures(
                    named_member_change_card_name,
                    (self.0.value.pointer, RustStr { slice: card_name }),
                    fu,
                ) ==> fu.task.polls_left() > 0,
        ensures
            exists|fu: FFIFuture<K>| #[trigger]
                call_ensures(
                    named_member_change_card_name,
                    (self.0.value.pointer, RustStr { slice: card_name }),
                    fu,
                ) && r == done(fu.task.output().result()),
    {
        let rs = RustStr::from(card_name);
        let fu = named_member_change_card_name(self.0.value.pointer, rs);
        read_done(fu.block_on())
    }

    /// The printed form: `NamedMember(` and the account number `)`.
    pub fn to_string<F: Fn(Handle) -> i64>(&self, named_member_get_id: &F) -> (r: String)
        requires
            call_requires(named_member_get_id, (self.0.value.pointer,)),
        ensures
            exists|id: i64| #[trigger]
                call_ensures(named_member_get_id, (self.0.value.pointer,), id) && r@ == tagged(
                    "NamedMember("@,
                    id,
                ),
    {
        let id = self.id(named_member_get_id);
        tagged_string("NamedMember(", id)
    }
}

pub struct AnonymousMember(pub ManagedCloneable);

} // verus!
