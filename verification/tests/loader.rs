use atri_plugin::loader::{
    AtriManager, AtriVTable, Loader, CLIENT_GET_ID, ENV_GET_WORKSPACE, GROUP_FIND_MEMBER,
    GROUP_SEND_MESSAGE, IMAGE_GET_URL, MESSAGE_CHAIN_FROM_JSON, PLUGIN_MANAGER_SPAWN,
};
use std::cell::RefCell;

fn lookup(id: u16) -> usize {
    0x1000 + (id as usize) * 8
}

#[test]
fn every_field_holds_what_the_lookup_answers() {
    let vtb = AtriVTable::resolve(&lookup);
    assert_eq!(vtb.plugin_manager_spawn, lookup(0));
    assert_eq!(vtb.plugin_manager_block_on, lookup(1));
    assert_eq!(vtb.new_listener, lookup(100));
    assert_eq!(vtb.listener_next_event_with_priority, lookup(101));
    assert_eq!(vtb.event_intercept, lookup(200));
    assert_eq!(vtb.event_is_intercepted, lookup(201));
    assert_eq!(vtb.client_get_id, lookup(300));
    assert_eq!(vtb.client_get_friends, lookup(307));
    assert_eq!(vtb.client_clone, lookup(320));
    assert_eq!(vtb.client_drop, lookup(321));
    assert_eq!(vtb.group_find_member, lookup(404));
    assert_eq!(vtb.group_send_message, lookup(406));
    assert_eq!(vtb.group_invite, lookup(411));
    assert_eq!(vtb.group_drop, lookup(421));
    assert_eq!(vtb.friend_upload_image, lookup(504));
    assert_eq!(vtb.friend_drop, lookup(521));
    assert_eq!(vtb.named_member_change_card_name, lookup(604));
    assert_eq!(vtb.image_get_id, lookup(2000));
    assert_eq!(vtb.image_get_url, lookup(2002));
    assert_eq!(vtb.group_message_event_get_sender, lookup(10002));
    assert_eq!(vtb.friend_message_event_get_message, lookup(10101));
    assert_eq!(vtb.log, lookup(20000));
    assert_eq!(vtb.env_get_workspace, lookup(30000));
    assert_eq!(vtb.message_chain_to_json, lookup(30100));
    assert_eq!(vtb.message_chain_from_json, lookup(30101));
}

#[test]
fn get_agrees_with_the_fields() {
    let vtb = AtriVTable::resolve(&lookup);
    for id in 0..=u16::MAX {
        match vtb.get(id) {
            Some(p) => assert_eq!(p, lookup(id)),
            None => {}
        }
    }
    assert_eq!(vtb.get(PLUGIN_MANAGER_SPAWN), Some(vtb.plugin_manager_spawn));
    assert_eq!(vtb.get(CLIENT_GET_ID), Some(vtb.client_get_id));
    assert_eq!(vtb.get(GROUP_FIND_MEMBER), Some(vtb.group_find_member));
    assert_eq!(vtb.get(GROUP_SEND_MESSAGE), Some(vtb.group_send_message));
    assert_eq!(vtb.get(IMAGE_GET_URL), Some(vtb.image_get_url));
    assert_eq!(vtb.get(ENV_GET_WORKSPACE), Some(vtb.env_get_workspace));
    assert_eq!(vtb.get(MESSAGE_CHAIN_FROM_JSON), Some(vtb.message_chain_from_json));
    assert_eq!(vtb.get(405), None);
    assert_eq!(vtb.get(2001), None);
    assert_eq!(vtb.get(2), None);
    assert_eq!(vtb.get(u16::MAX), None);
}

#[test]
fn each_operation_is_asked_for_once() {
    let asked = RefCell::new(Vec::new());
    let _ = AtriVTable::resolve(&|id: u16| {
        asked.borrow_mut().push(id);
        id as usize
    });
    let mut ids = asked.into_inner();
    assert_eq!(ids.len(), 52);
    ids.sort();
    ids.dedup();
    assert_eq!(ids.len(), 52);
    assert!(!ids.contains(&405));
    assert!(!ids.contains(&2001));
}

#[test]
fn bootstrap_fills_the_state_once() {
    let mut loader = Loader::new();
    assert!(!loader.is_initialized());
    loader.atri_manager_init(AtriManager { manager_ptr: 0xbeef, handle: 7 }, &lookup);
    assert!(loader.is_initialized());
    assert_eq!(loader.get_plugin_manager(), 0xbeef);
    assert_eq!(loader.get_plugin_handle(), 7);
    assert_eq!(loader.get_atri_manager().handle, 7);
    assert_eq!(loader.get_vtb().client_get_id, lookup(300));
    assert_eq!(loader.get_vtb().get(301), Some(lookup(301)));
}
