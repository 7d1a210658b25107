//! A logged-in account of the host.

use crate::abi::{Handle, RustString, RustVec};
use crate::contact::friend::Friend;
use crate::contact::group::Group;
use crate::text::{tagged, tagged_string};
use vstd::prelude::*;

verus! {

pub struct Client(pub Handle);

/// The clients behind a sequence of handles, one for one.
pub open spec fn clients_of(handles: Seq<Handle>) -> Seq<Client> {
    Seq::new(handles.len(), |i: int| Client(handles[i]))
}

impl Client {
    /// What a lookup that answered `handle` has found: nothing for the nil
    /// handle, the client behind the handle otherwise.
    pub open spec fn found(handle: Handle) -> Option<Client> {
        if handle == 0 {
            None
        } else {
            Some(Client(handle))
        }
    }

    /// The account number, as `client_get_id` gives it for this client.
    pub fn id<F: Fn(Handle) -> i64>(&self, client_get_id: &F) -> (r: i64)
        requires
            call_requires(client_get_id, (self.0,)),
        ensures
            call_ensures(client_get_id, (self.0,), r),
    {
        client_get_id(self.0)
    }

    /// The nickname, as `client_get_nickname` gives it for this client.
    pub fn nickname<F: Fn(Handle) -> RustString>(&self, client_get_nickname: &F) -> (r: String)
        requires
            call_requires(client_get_nickname, (self.0,)),
        ensures
            exists|rs: RustString| #[trigger]
                call_ensures(client_get_nickname, (self.0,), rs) && r == rs.decoded(),
    {
        let rs = client_get_nickname(self.0);
        String::from(rs)
    }

    /// All clients, in the order in which `client_get_list` names them.
    pub fn list<F: Fn() -> RustVec<Handle>>(client_get_list: &F) -> (r: Vec<Client>)
        requires
            call_requires(client_get_list, ()),
        ensures
            exists|raw: RustVec<Handle>| #[trigger]
                call_ensures(client_get_list, (), raw) && r@ == clients_of(raw@),
    {
        let raw = client_get_list();
        Self::from_handles(raw.into_vec())
    }

    /// Wraps each handle as a client.
    pub fn from_handles(handles: Vec<Handle>) -> (r: Vec<Client>)
        ensures
            r@ == clients_of(handles@),
    {
        let mut out: Vec<Client> = Vec::new();
        for h in it: handles
            invariant
                it.seq() == handles@,
                out@ == clients_of(handles@.take(it.index() as int)),
        {
            out.push(Client(h));
        }
        assert(handles@.take(handles@.len() as int) == handles@);
        out
    }

    /// The client with account number `id`, if `find_client` knows one.
    pub fn find<F: Fn(i64) -> Handle>(id: i64, find_client: &F) -> (r: Option<Self>)
        requires
            call_requires(find_client, (id,)),
        ensures
            exists|h: Handle| #[trigger] call_ensures(find_client, (id,), h) && r == Self::found(h),
    {
        let handle = find_client(id);
        if handle == 0 {
            None
        } else {
            Some(Client(handle))
        }
    }

    /// The group number `id` of this client, if `client_find_group` knows one.
    pub fn find_group<F: Fn(Handle, i64) -> Handle>(&self, id: i64, client_find_group: &F) -> (r:
        Option<Group>)
        requires
            call_requires(client_find_group, (self.0, id)),
        ensures
            exists|h: Handle| #[trigger]
                call_ensures(client_find_group, (self.0, id), h) && r == Group::found(h),
    {
        let ma = client_find_group(self.0, id);
        if ma == 0 {
            None
        } else {
            Some(Group(ma))
        }
    }

    /// The friend number `id` of this client, if `client_find_friend` knows one.
    pub fn find_friend<F: Fn(Handle, i64) -> Handle>(
        &self,
        id: i64,
        client_find_friend: &F,
    ) -> (r: Option<Friend>)
        requires
            call_requires(client_find_friend, (self.0, id)),
        ensures
            exists|h: Handle| #[trigger]
                call_ensures(client_find_friend, (self.0, id), h) && r == Friend::found(h),
    {
        let ma = client_find_friend(self.0, id);
        if ma == 0 {
            None
        } else {
            Some(Friend(ma))
        }
    }

    /// The groups of this client, in the order in which `client_get_groups`
    /// names them.
    pub fn groups<F: Fn(Handle) -> RustVec<Handle>>(&self, client_get_groups: &F) -> (r: Vec<Group>)
        requires
            call_requires(client_get_groups, (self.0,)),
        ensures
            exists|raw: RustVec<Handle>| #[trigger]
                call_ensures(client_get_groups, (self.0,), raw) && r@ == Group::groups_of(raw@),
    {
        let ma = client_get_groups(self.0);
        Group::from_handles(ma.into_vec())
    }

    /// The friends of this client, in the order in which `client_get_friends`
    /// names them.
    pub fn friends<F: Fn(Handle) -> RustVec<Handle>>(&self, client_get_friends: &F) -> (r: Vec<
        Friend,
    >)
        requires
            call_requires(client_get_friends, (self.0,)),
        ensures
            exists|raw: RustVec<Handle>| #[trigger]
                call_ensures(client_get_friends, (self.0,), raw) && r@ == Friend::friends_of(raw@),
    {
        let ma = client_get_friends(self.0);
        Friend::from_handles(ma.into_vec())
    }

    /// Another handle to the same client, as `client_clone` gives it.
    pub fn clone<F: Fn(Handle) -> Handle>(&self, client_clone: &F) -> (r: Self)
        requires
            call_requires(client_clone, (self.0,)),
        ensures
            call_ensures(client_clone, (self.0,), r.0),
    {
        Client(client_clone(self.0))
    }

    /// Gives the handle back to the host through `client_drop`.
    pub fn drop<F: Fn(Handle)>(self, client_drop: &F)
        requires
            call_requires(client_drop, (self.0,)),
        ensures
            call_ensures(client_drop, (self.0,), ()),
    {
        client_drop(self.0)
    }

    /// The printed form: `Client(` and the account number `)`.
    pub fn to_string<F: Fn(Handle) -> i64>(&self, client_get_id: &F) -> (r: String)
        requires
            call_requires(client_get_id, (self.0,)),
        ensures
            exists|id: i64| #[trigger]
                call_ensures(client_get_id, (self.0,), id) && r@ == tagged("Client("@, id),
    {
        let id = self.id(client_get_id);
        tagged_string("Client(", id)
    }
}

} // verus!
