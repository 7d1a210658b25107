//! The numbered function table and the state that the bootstrap call fills.
//!
//! The host hands over a lookup from operation number to function address. Every
//! operation that the plugin depends on is resolved once, at bootstrap, and the
//! resulting table is read-only from then on. Numbers are grouped by feature
//! area; a number is never reused, and a table built for an older set simply
//! never asks for the newer ones.

use crate::abi::Handle;
use vstd::prelude::*;

verus! {

/// Address of a host function. What signature stands behind an address is
/// agreed on per operation number and is not checked here.
pub type FnPtr = usize;

pub const PLUGIN_MANAGER_SPAWN: u16 = 0;

pub const PLUGIN_MANAGER_BLOCK_ON: u16 = 1;

pub const NEW_LISTENER: u16 = 100;

pub const LISTENER_NEXT_EVENT_WITH_PRIORITY: u16 = 101;

pub const EVENT_INTERCEPT: u16 = 200;

pub const EVENT_IS_INTERCEPTED: u16 = 201;

pub const CLIENT_GET_ID: u16 = 300;

pub const CLIENT_GET_NICKNAME: u16 = 301;

pub const CLIENT_GET_LIST: u16 = 302;

pub const FIND_CLIENT: u16 = 303;

pub const CLIENT_FIND_GROUP: u16 = 304;

pub const CLIENT_FIND_FRIEND: u16 = 305;

pub const CLIENT_GET_GROUPS: u16 = 306;

pub const CLIENT_GET_FRIENDS: u16 = 307;

pub const CLIENT_CLONE: u16 = 320;

pub const CLIENT_DROP: u16 = 321;

pub const GROUP_GET_ID: u16 = 400;

pub const GROUP_GET_NAME: u16 = 401;

pub const GROUP_GET_CLIENT: u16 = 402;

pub const GROUP_GET_MEMBERS: u16 = 403;

pub const GROUP_FIND_MEMBER: u16 = 404;

pub const GROUP_SEND_MESSAGE: u16 = 406;

pub const GROUP_UPLOAD_IMAGE: u16 = 407;

pub const GROUP_QUIT: u16 = 408;

pub const GROUP_CHANGE_NAME: u16 = 409;

pub const GROUP_SEND_FORWARD_MESSAGE: u16 = 410;

pub const GROUP_INVITE: u16 = 411;

pub const GROUP_CLONE: u16 = 420;

pub const GROUP_DROP: u16 = 421;

pub const FRIEND_GET_ID: u16 = 500;

pub const FRIEND_GET_NICKNAME: u16 = 501;

pub const FRIEND_GET_CLIENT: u16 = 502;

pub const FRIEND_SEND_MESSAGE: u16 = 503;

pub const FRIEND_UPLOAD_IMAGE: u16 = 504;

pub const FRIEND_CLONE: u16 = 520;

pub const FRIEND_DROP: u16 = 521;

pub const NAMED_MEMBER_GET_ID: u16 = 600;

pub const NAMED_MEMBER_GET_NICKNAME: u16 = 601;

pub const NAMED_MEMBER_GET_CARD_NAME: u16 = 602;

pub const NAMED_MEMBER_GET_GROUP: u16 = 603;

pub const NAMED_MEMBER_CHANGE_CARD_NAME: u16 = 604;

pub const IMAGE_GET_ID: u16 = 2000;

pub const IMAGE_GET_URL: u16 = 2002;

pub const GROUP_MESSAGE_EVENT_GET_GROUP: u16 = 10000;

pub const GROUP_MESSAGE_EVENT_GET_MESSAGE: u16 = 10001;

pub const GROUP_MESSAGE_EVENT_GET_SENDER: u16 = 10002;

pub const FRIEND_MESSAGE_EVENT_GET_FRIEND: u16 = 10100;

pub const FRIEND_MESSAGE_EVENT_GET_MESSAGE: u16 = 10101;

pub const LOG: u16 = 20000;

pub const ENV_GET_WORKSPACE: u16 = 30000;

pub const MESSAGE_CHAIN_TO_JSON: u16 = 30100;

pub const MESSAGE_CHAIN_FROM_JSON: u16 = 30101;

/// The resolved table: one function address per operation.
pub struct AtriVTable {
    pub plugin_manager_spawn: FnPtr,
    pub plugin_manager_block_on: FnPtr,
    pub new_listener: FnPtr,
    pub listener_next_event_with_priority: FnPtr,
    pub event_intercept: FnPtr,
    pub event_is_intercepted: FnPtr,
    pub client_get_id: FnPtr,
    pub client_get_nickname: FnPtr,
    pub client_get_list: FnPtr,
    pub find_client: FnPtr,
    pub client_find_group: FnPtr,
    pub client_find_friend: FnPtr,
    pub client_get_groups: FnPtr,
    pub client_get_friends: FnPtr,
    pub client_clone: FnPtr,
    pub client_drop: FnPtr,
    pub group_get_id: FnPtr,
    pub group_get_name: FnPtr,
    pub group_get_client: FnPtr,
    pub group_get_members: FnPtr,
    pub group_find_member: FnPtr,
    pub group_send_message: FnPtr,
    pub group_upload_image: FnPtr,
    pub group_quit: FnPtr,
    pub group_change_name: FnPtr,
    pub group_send_forward_message: FnPtr,
    pub group_invite: FnPtr,
    pub group_clone: FnPtr,
    pub group_drop: FnPtr,
    pub friend_get_id: FnPtr,
    pub friend_get_nickname: FnPtr,
    pub friend_get_client: FnPtr,
    pub friend_send_message: FnPtr,
    pub friend_upload_image: FnPtr,
    pub friend_clone: FnPtr,
    pub friend_drop: FnPtr,
    pub named_member_get_id: FnPtr,
    pub named_member_get_nickname: FnPtr,
    pub named_member_get_card_name: FnPtr,
    pub named_member_get_group: FnPtr,
    pub named_member_change_card_name: FnPtr,
    pub image_get_id: FnPtr,
    pub image_get_url: FnPtr,
    pub group_message_event_get_group: FnPtr,
    pub group_message_event_get_message: FnPtr,
    pub group_message_event_get_sender: FnPtr,
    pub friend_message_event_get_friend: FnPtr,
    pub friend_message_event_get_message: FnPtr,
    pub log: FnPtr,
    pub env_get_workspace: FnPtr,
    pub message_chain_to_json: FnPtr,
    pub message_chain_from_json: FnPtr,
}

impl AtriVTable {
    /// The operation numbers that this table resolves.
    pub open spec fn resolves(id: u16) -> bool {
        id == PLUGIN_MANAGER_SPAWN
        || id == PLUGIN_MANAGER_BLOCK_ON
        || id == NEW_LISTENER
        || id == LISTENER_NEXT_EVENT_WITH_PRIORITY
        || id == EVENT_INTERCEPT
        || id == EVENT_IS_INTERCEPTED
        || id == CLIENT_GET_ID
        || id == CLIENT_GET_NICKNAME
        || id == CLIENT_GET_LIST
        || id == FIND_CLIENT
        || id == CLIENT_FIND_GROUP
        || id == CLIENT_FIND_FRIEND
        || id == CLIENT_GET_GROUPS
        || id == CLIENT_GET_FRIENDS
        || id == CLIENT_CLONE
        || id == CLIENT_DROP
        || id == GROUP_GET_ID
        || id == GROUP_GET_NAME
        || id == GROUP_GET_CLIENT
        || id == GROUP_GET_MEMBERS
        || id == GROUP_FIND_MEMBER
        || id == GROUP_SEND_MESSAGE
        || id == GROUP_UPLOAD_IMAGE
        || id == GROUP_QUIT
        || id == GROUP_CHANGE_NAME
        || id == GROUP_SEND_FORWARD_MESSAGE
        || id == GROUP_INVITE
        || id == GROUP_CLONE
        || id == GROUP_DROP
        || id == FRIEND_GET_ID
        || id == FRIEND_GET_NICKNAME
        || id == FRIEND_GET_CLIENT
        || id == FRIEND_SEND_MESSAGE
        || id == FRIEND_UPLOAD_IMAGE
        || id == FRIEND_CLONE
        || id == FRIEND_DROP
        || id == NAMED_MEMBER_GET_ID
        || id == NAMED_MEMBER_GET_NICKNAME
        || id == NAMED_MEMBER_GET_CARD_NAME
        || id == NAMED_MEMBER_GET_GROUP
        || id == NAMED_MEMBER_CHANGE_CARD_NAME
        || id == IMAGE_GET_ID
        || id == IMAGE_GET_URL
        || id == GROUP_MESSAGE_EVENT_GET_GROUP
        || id == GROUP_MESSAGE_EVENT_GET_MESSAGE
        || id == GROUP_MESSAGE_EVENT_GET_SENDER
        || id == FRIEND_MESSAGE_EVENT_GET_FRIEND
        || id == FRIEND_MESSAGE_EVENT_GET_MESSAGE
        || id == LOG
        || id == ENV_GET_WORKSPACE
        || id == MESSAGE_CHAIN_TO_JSON
        || id == MESSAGE_CHAIN_FROM_JSON
    }

    /// The field that holds the address of operation `id`.
    pub open spec fn slot(&self, id: u16) -> FnPtr
        recommends
            Self::resolves(id),
    {
        if id == PLUGIN_MANAGER_SPAWN {
            self.plugin_manager_spawn
        } else if id == PLUGIN_MANAGER_BLOCK_ON {
            self.plugin_manager_block_on
        } else if id == NEW_LISTENER {
            self.new_listener
        } else if id == LISTENER_NEXT_EVENT_WITH_PRIORITY {
            self.listener_next_event_with_priority
        } else if id == EVENT_INTERCEPT {
            self.event_intercept
        } else if id == EVENT_IS_INTERCEPTED {
            self.event_is_intercepted
        } else if id == CLIENT_GET_ID {
            self.client_get_id
        } else if id == CLIENT_GET_NICKNAME {
            self.client_get_nickname
        } else if id == CLIENT_GET_LIST {
            self.client_get_list
        } else if id == FIND_CLIENT {
            self.find_client
        } else if id == CLIENT_FIND_GROUP {
            self.client_find_group
        } else if id == CLIENT_FIND_FRIEND {
            self.client_find_friend
        } else if id == CLIENT_GET_GROUPS {
            self.client_get_groups
        } else if id == CLIENT_GET_FRIENDS {
            self.client_get_friends
        } else if id == CLIENT_CLONE {
            self.client_clone
        } else if id == CLIENT_DROP {
            self.client_drop
        } else if id == GROUP_GET_ID {
            self.group_get_id
        } else if id == GROUP_GET_NAME {
            self.group_get_name
        } else if id == GROUP_GET_CLIENT {
            self.group_get_client
        } else if id == GROUP_GET_MEMBERS {
            self.group_get_members
        } else if id == GROUP_FIND_MEMBER {
            self.group_find_member
        } else if id == GROUP_SEND_MESSAGE {
            self.group_send_message
        } else if id == GROUP_UPLOAD_IMAGE {
            self.group_upload_image
        } else if id == GROUP_QUIT {
            self.group_quit
        } else if id == GROUP_CHANGE_NAME {
            self.group_change_name
        } else if id == GROUP_SEND_FORWARD_MESSAGE {
            self.group_send_forward_message
        } else if id == GROUP_INVITE {
            self.group_invite
        } else if id == GROUP_CLONE {
            self.group_clone
        } else if id == GROUP_DROP {
            self.group_drop
        } else if id == FRIEND_GET_ID {
            self.friend_get_id
        } else if id == FRIEND_GET_NICKNAME {
            self.friend_get_nickname
        } else if id == FRIEND_GET_CLIENT {
            self.friend_get_client
        } else if id == FRIEND_SEND_MESSAGE {
            self.friend_send_message
        } else if id == FRIEND_UPLOAD_IMAGE {
            self.friend_upload_image
        } else if id == FRIEND_CLONE {
            self.friend_clone
        } else if id == FRIEND_DROP {
            self.friend_drop
        } else if id == NAMED_MEMBER_GET_ID {
            self.named_member_get_id
        } else if id == NAMED_MEMBER_GET_NICKNAME {
            self.named_member_get_nickname
        } else if id == NAMED_MEMBER_GET_CARD_NAME {
            self.named_member_get_card_name
        } else if id == NAMED_MEMBER_GET_GROUP {
            self.named_member_get_group
        } else if id == NAMED_MEMBER_CHANGE_CARD_NAME {
            self.named_member_change_card_name
        } else if id == IMAGE_GET_ID {
            self.image_get_id
        } else if id == IMAGE_GET_URL {
            self.image_get_url
        } else if id == GROUP_MESSAGE_EVENT_GET_GROUP {
            self.group_message_event_get_group
        } else if id == GROUP_MESSAGE_EVENT_GET_MESSAGE {
            self.group_message_event_get_message
        } else if id == GROUP_MESSAGE_EVENT_GET_SENDER {
            self.group_message_event_get_sender
        } else if id == FRIEND_MESSAGE_EVENT_GET_FRIEND {
            self.friend_message_event_get_friend
        } else if id == FRIEND_MESSAGE_EVENT_GET_MESSAGE {
            self.friend_message_event_get_message
        } else if id == LOG {
            self.log
        } else if id == ENV_GET_WORKSPACE {
            self.env_get_workspace
        } else if id == MESSAGE_CHAIN_TO_JSON {
            self.message_chain_to_json
        } else {
            self.message_chain_from_json
        }
    }

    /// Asks `get_fun` once for each operation number and stores what it answers.
    pub fn resolve<F: Fn(u16) -> FnPtr>(get_fun: &F) -> (vtb: AtriVTable)
        requires
            forall|id: u16| Self::resolves(id) ==> #[trigger] call_requires(get_fun, (id,)),
        ensures
            forall|id: u16| Self::resolves(id) ==> call_ensures(get_fun, (id,), #[trigger] vtb.slot(id)),
    {
        AtriVTable {
            plugin_manager_spawn: get_fun(PLUGIN_MANAGER_SPAWN),
            plugin_manager_block_on: get_fun(PLUGIN_MANAGER_BLOCK_ON),
            new_listener: get_fun(NEW_LISTENER),
            listener_next_event_with_priority: get_fun(LISTENER_NEXT_EVENT_WITH_PRIORITY),
            event_intercept: get_fun(EVENT_INTERCEPT),
            event_is_intercepted: get_fun(EVENT_IS_INTERCEPTED),
            client_get_id: get_fun(CLIENT_GET_ID),
            client_get_nickname: get_fun(CLIENT_GET_NICKNAME),
            client_get_list: get_fun(CLIENT_GET_LIST),
            find_client: get_fun(FIND_CLIENT),
            client_find_group: get_fun(CLIENT_FIND_GROUP),
            client_find_friend: get_fun(CLIENT_FIND_FRIEND),
            client_get_groups: get_fun(CLIENT_GET_GROUPS),
            client_get_friends: get_fun(CLIENT_GET_FRIENDS),
            client_clone: get_fun(CLIENT_CLONE),
            client_drop: get_fun(CLIENT_DROP),
            group_get_id: get_fun(GROUP_GET_ID),
            group_get_name: get_fun(GROUP_GET_NAME),
            group_get_client: get_fun(GROUP_GET_CLIENT),
            group_get_members: get_fun(GROUP_GET_MEMBERS),
            group_find_member: get_fun(GROUP_FIND_MEMBER),
            group_send_message: get_fun(GROUP_SEND_MESSAGE),
            group_upload_image: get_fun(GROUP_UPLOAD_IMAGE),
            group_quit: get_fun(GROUP_QUIT),
            group_change_name: get_fun(GROUP_CHANGE_NAME),
            group_send_forward_message: get_fun(GROUP_SEND_FORWARD_MESSAGE),
            group_invite: get_fun(GROUP_INVITE),
            group_clone: get_fun(GROUP_CLONE),
            group_drop: get_fun(GROUP_DROP),
            friend_get_id: get_fun(FRIEND_GET_ID),
            friend_get_nickname: get_fun(FRIEND_GET_NICKNAME),
            friend_get_client: get_fun(FRIEND_GET_CLIENT),
            friend_send_message: get_fun(FRIEND_SEND_MESSAGE),
            friend_upload_image: get_fun(FRIEND_UPLOAD_IMAGE),
            friend_clone: get_fun(FRIEND_CLONE),
            friend_drop: get_fun(FRIEND_DROP),
            named_member_get_id: get_fun(NAMED_MEMBER_GET_ID),
            named_member_get_nickname: get_fun(NAMED_MEMBER_GET_NICKNAME),
            named_member_get_card_name: get_fun(NAMED_MEMBER_GET_CARD_NAME),
            named_member_get_group: get_fun(NAMED_MEMBER_GET_GROUP),
            named_member_change_card_name: get_fun(NAMED_MEMBER_CHANGE_CARD_NAME),
            image_get_id: get_fun(IMAGE_GET_ID),
            image_get_url: get_fun(IMAGE_GET_URL),
            group_message_event_get_group: get_fun(GROUP_MESSAGE_EVENT_GET_GROUP),
            group_message_event_get_message: get_fun(GROUP_MESSAGE_EVENT_GET_MESSAGE),
            group_message_event_get_sender: get_fun(GROUP_MESSAGE_EVENT_GET_SENDER),
            friend_message_event_get_friend: get_fun(FRIEND_MESSAGE_EVENT_GET_FRIEND),
            friend_message_event_get_message: get_fun(FRIEND_MESSAGE_EVENT_GET_MESSAGE),
            log: get_fun(LOG),
            env_get_workspace: get_fun(ENV_GET_WORKSPACE),
            message_chain_to_json: get_fun(MESSAGE_CHAIN_TO_JSON),
            message_chain_from_json: get_fun(MESSAGE_CHAIN_FROM_JSON),
        }
    }

    /// Reads the address stored for operation `id`; `None` for a number that
    /// the table does not resolve.
    pub fn get(&self, id: u16) -> (r: Option<FnPtr>)
        ensures
            r == (if Self::resolves(id) {
                Some(self.slot(id))
            } else {
                None
            }),
    {
        if id == PLUGIN_MANAGER_SPAWN {
            Some(self.plugin_manager_spawn)
        } else if id == PLUGIN_MANAGER_BLOCK_ON {
            Some(self.plugin_manager_block_on)
        } else if id == NEW_LISTENER {
            Some(self.new_listener)
        } else if id == LISTENER_NEXT_EVENT_WITH_PRIORITY {
            Some(self.listener_next_event_with_priority)
        } else if id == EVENT_INTERCEPT {
            Some(self.event_intercept)
        } else if id == EVENT_IS_INTERCEPTED {
            Some(self.event_is_intercepted)
        } else if id == CLIENT_GET_ID {
            Some(self.client_get_id)
        } else if id == CLIENT_GET_NICKNAME {
            Some(self.client_get_nickname)
        } else if id == CLIENT_GET_LIST {
            Some(self.client_get_list)
        } else if id == FIND_CLIENT {
            Some(self.find_client)
        } else if id == CLIENT_FIND_GROUP {
            Some(self.client_find_group)
        } else if id == CLIENT_FIND_FRIEND {
            Some(self.client_find_friend)
        } else if id == CLIENT_GET_GROUPS {
            Some(self.client_get_groups)
        } else if id == CLIENT_GET_FRIENDS {
            Some(self.client_get_friends)
        } else if id == CLIENT_CLONE {
            Some(self.client_clone)
        } else if id == CLIENT_DROP {
            Some(self.client_drop)
        } else if id == GROUP_GET_ID {
            Some(self.group_get_id)
        } else if id == GROUP_GET_NAME {
            Some(self.group_get_name)
        } else if id == GROUP_GET_CLIENT {
            Some(self.group_get_client)
        } else if id == GROUP_GET_MEMBERS {
            Some(self.group_get_members)
        } else if id == GROUP_FIND_MEMBER {
            Some(self.group_find_member)
        } else if id == GROUP_SEND_MESSAGE {
            Some(self.group_send_message)
        } else if id == GROUP_UPLOAD_IMAGE {
            Some(self.group_upload_image)
        } else if id == GROUP_QUIT {
            Some(self.group_quit)
        } else if id == GROUP_CHANGE_NAME {
            Some(self.group_change_name)
        } else if id == GROUP_SEND_FORWARD_MESSAGE {
            Some(self.group_send_forward_message)
        } else if id == GROUP_INVITE {
            Some(self.group_invite)
        } else if id == GROUP_CLONE {
            Some(self.group_clone)
        } else if id == GROUP_DROP {
            Some(self.group_drop)
        } else if id == FRIEND_GET_ID {
            Some(self.friend_get_id)
        } else if id == FRIEND_GET_NICKNAME {
            Some(self.friend_get_nickname)
        } else if id == FRIEND_GET_CLIENT {
            Some(self.friend_get_client)
        } else if id == FRIEND_SEND_MESSAGE {
            Some(self.friend_send_message)
        } else if id == FRIEND_UPLOAD_IMAGE {
            Some(self.friend_upload_image)
        } else if id == FRIEND_CLONE {
            Some(self.friend_clone)
        } else if id == FRIEND_DROP {
            Some(self.friend_drop)
        } else if id == NAMED_MEMBER_GET_ID {
            Some(self.named_member_get_id)
        } else if id == NAMED_MEMBER_GET_NICKNAME {
            Some(self.named_member_get_nickname)
        } else if id == NAMED_MEMBER_GET_CARD_NAME {
            Some(self.named_member_get_card_name)
        } else if id == NAMED_MEMBER_GET_GROUP {
            Some(self.named_member_get_group)
        } else if id == NAMED_MEMBER_CHANGE_CARD_NAME {
            Some(self.named_member_change_card_name)
        } else if id == IMAGE_GET_ID {
            Some(self.image_get_id)
        } else if id == IMAGE_GET_URL {
            Some(self.image_get_url)
        } else if id == GROUP_MESSAGE_EVENT_GET_GROUP {
            Some(self.group_message_event_get_group)
        } else if id == GROUP_MESSAGE_EVENT_GET_MESSAGE {
            Some(self.group_message_event_get_message)
        } else if id == GROUP_MESSAGE_EVENT_GET_SENDER {
            Some(self.group_message_event_get_sender)
        } else if id == FRIEND_MESSAGE_EVENT_GET_FRIEND {
            Some(self.friend_message_event_get_friend)
        } else if id == FRIEND_MESSAGE_EVENT_GET_MESSAGE {
            Some(self.friend_message_event_get_message)
        } else if id == LOG {
            Some(self.log)
        } else if id == ENV_GET_WORKSPACE {
            Some(self.env_get_workspace)
        } else if id == MESSAGE_CHAIN_TO_JSON {
            Some(self.message_chain_to_json)
        } else if id == MESSAGE_CHAIN_FROM_JSON {
            Some(self.message_chain_from_json)
        } else {
            None
        }
    }
}

/// Where the host's lookup is a function, so that one number always gives one
/// address, each field of the resolved table equals the lookup's answer for
/// the field's number.
pub proof fn lemma_resolved_equals_lookup<F: Fn(u16) -> FnPtr>(
    get_fun: &F,
    lookup: spec_fn(u16) -> FnPtr,
    vtb: AtriVTable,
    id: u16,
)
    requires
        forall|k: u16, p: FnPtr| call_ensures(get_fun, (k,), p) ==> p == lookup(k),
        forall|k: u16| AtriVTable::resolves(k) ==> call_ensures(get_fun, (k,), #[trigger] vtb.slot(k)),
        AtriVTable::resolves(id),
    ensures
        vtb.slot(id) == lookup(id),
{
}

/// What the host hands over at bootstrap, besides the lookup itself.
pub struct AtriManager {
    pub manager_ptr: Handle,
    pub handle: usize,
}

/// The plugin's process-wide state: empty until the bootstrap call, then fixed.
pub struct Loader {
    manager: Option<AtriManager>,
    vtable: Option<AtriVTable>,
}

impl Loader {
    #[verifier::type_invariant]
    closed spec fn inv(self) -> bool {
        self.manager is Some <==> self.vtable is Some
    }

    pub closed spec fn is_init(&self) -> bool {
        self.vtable is Some
    }

    pub closed spec fn manager(&self) -> AtriManager
        recommends
            self.is_init(),
    {
        self.manager->0
    }

    pub closed spec fn vtable(&self) -> AtriVTable
        recommends
            self.is_init(),
    {
        self.vtable->0
    }

    /// The state before the bootstrap call.
    pub fn new() -> (r: Self)
        ensures
            !r.is_init(),
    {
        Loader { manager: None, vtable: None }
    }

    pub fn is_initialized(&self) -> (r: bool)
        ensures
            r == self.is_init(),
    {
        self.vtable.is_some()
    }

    /// The bootstrap call: stores the manager and the table resolved from
    /// `get_fun`. It is made once, on state that is still empty.
    pub fn atri_manager_init<F: Fn(u16) -> FnPtr>(&mut self, manager: AtriManager, get_fun: &F)
        requires
            !old(self).is_init(),
            forall|id: u16| AtriVTable::resolves(id) ==> #[trigger] call_requires(get_fun, (id,)),
        ensures
            final(self).is_init(),
            final(self).manager() == manager,
            forall|id: u16|
                AtriVTable::resolves(id) ==> call_ensures(
                    get_fun,
                    (id,),
                    #[trigger] final(self).vtable().slot(id),
                ),
    {
        let vtable = AtriVTable::resolve(get_fun);
        *self = Loader { manager: Some(manager), vtable: Some(vtable) };
    }

    pub fn get_plugin_manager(&self) -> (r: Handle)
        requires
            self.is_init(),
        ensures
            r == self.manager().manager_ptr,
    {
        self.get_atri_manager().manager_ptr
    }

    pub fn get_plugin_handle(&self) -> (r: usize)
        requires
            self.is_init(),
        ensures
            r == self.manager().handle,
    {
        self.get_atri_manager().handle
    }

    pub fn get_atri_manager(&self) -> (r: &AtriManager)
        requires
            self.is_init(),
        ensures
            *r == self.manager(),
    {
        proof {
            use_type_invariant(self);
        }
        match &self.manager {
            Some(m) => m,
            None => vstd::pervasive::unreached(),
        }
    }

    pub fn get_vtb(&self) -> (r: &AtriVTable)
        requires
            self.is_init(),
        ensures
            *r == self.vtable(),
    {
        match &self.vtable {
            Some(v) => v,
            None => vstd::pervasive::unreached(),
        }
    }
}

} // verus!
