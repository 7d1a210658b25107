use atri_plugin::abi::contact::FFIMember;
use atri_plugin::abi::error::FFIResult;
use atri_plugin::abi::future::{Delayed, FFIFuture};
use atri_plugin::abi::managed::{Destructor, Duplicator, Managed, ManagedCloneable};
use atri_plugin::abi::message::meta::FFIMessageReceipt;
use atri_plugin::abi::message::FFIMessageChain;
use atri_plugin::abi::{RustStr, RustString, RustVec};
use atri_plugin::client::Client;
use atri_plugin::contact::friend::Friend;
use atri_plugin::contact::group::Group;
use atri_plugin::contact::member::{AnonymousMember, Member, NamedMember, ANONYMOUS_ID};
use atri_plugin::contact::{read_done, read_sent, read_uploaded, Contact};
use atri_plugin::env::workspace;
use atri_plugin::error::AtriError;
use atri_plugin::message::forward::ForwardMessage;
use atri_plugin::message::image::Image;
use atri_plugin::message::meta::MessageReceipt;
use atri_plugin::text::tagged_string;
use std::cell::Cell;

fn host_value(pointer: usize) -> ManagedCloneable {
    ManagedCloneable {
        value: Managed { pointer, drop: Destructor::Foreign(0xd0) },
        clone: Duplicator::Foreign(0xc0),
    }
}

fn receipt(time: i64) -> FFIResult<FFIMessageReceipt> {
    FFIResult::from(Ok(MessageReceipt { seqs: vec![1], rands: vec![2], time }.into_ffi()))
}

#[test]
fn lookups_answer_nothing_for_the_nil_handle() {
    let find = |id: i64| if id == 10001 { 0x500 } else { 0 };
    assert_eq!(Client::find(10001, &find).map(|c| c.0), Some(0x500));
    assert!(Client::find(10002, &find).is_none());
    let client = Client(0x500);
    let find_in = |c: usize, id: i64| if c == 0x500 && id == 7 { 0x700 } else { 0 };
    assert_eq!(client.find_group(7, &find_in).map(|g| g.0), Some(0x700));
    assert!(client.find_group(8, &find_in).is_none());
    assert_eq!(client.find_friend(7, &find_in).map(|f| f.0), Some(0x700));
    assert!(client.find_friend(8, &find_in).is_none());
    assert!(Client(1).find_friend(7, &find_in).is_none());
}

#[test]
fn lists_keep_the_order_of_the_host() {
    let clients = Client::list(&|| RustVec::from(vec![3, 1, 2]));
    assert_eq!(clients.iter().map(|c| c.0).collect::<Vec<_>>(), vec![3, 1, 2]);
    assert!(Client::list(&|| RustVec::from(Vec::new())).is_empty());
    let client = Client(9);
    let groups = client.groups(&|c| RustVec::from(vec![c + 1, c + 2]));
    assert_eq!(groups.iter().map(|g| g.0).collect::<Vec<_>>(), vec![10, 11]);
    let friends = client.friends(&|c| RustVec::from(vec![c * 2]));
    assert_eq!(friends.iter().map(|f| f.0).collect::<Vec<_>>(), vec![18]);
    assert_eq!(Client::from_handles(vec![5]).len(), 1);
    assert_eq!(Group::from_handles(vec![5, 6]).len(), 2);
    assert_eq!(Friend::from_handles(vec![]).len(), 0);
}

#[test]
fn getters_ask_the_host_about_their_own_handle() {
    let id = |h: usize| h as i64 * 100;
    assert_eq!(Client(3).id(&id), 300);
    assert_eq!(Friend(4).id(&id), 400);
    assert_eq!(Group(5).id(&id), 500);
    assert_eq!(NamedMember(host_value(6)).id(&id), 600);
    assert_eq!(Client(3).nickname(&|h| RustString::from(format!("nick{}", h))), "nick3");
    assert_eq!(Friend(4).nickname(&|_h| RustStr::from("pal")), "pal");
    assert_eq!(Group(5).name(&|_h| RustStr::from("crew")), "crew");
    let m = NamedMember(host_value(6));
    assert_eq!(m.nickname(&|_h| RustStr::from("nick")), "nick");
    assert_eq!(m.card_name(&|_h| RustStr::from("card")), "card");
    assert_eq!(m.group(&|h| h + 1).0, 7);
    assert_eq!(m.client(&|h| h + 1, &|g| g * 10).0, 70);
    assert_eq!(Friend(4).client(&|h| h + 10).0, 14);
    assert_eq!(Group(5).client(&|h| h + 10).0, 15);
    assert_eq!(workspace(2, 0x99, &|h, m| RustString::from(format!("/data/{}/{}", h, m))), "/data/2/153");
}

#[test]
fn printed_forms_of_contacts() {
    let id = |h: usize| -(h as i64);
    assert_eq!(Client(12).to_string(&id), "Client(-12)");
    assert_eq!(Friend(0).to_string(&id), "Friend(0)");
    assert_eq!(Group(7).to_string(&|_h| i64::MAX), "Group(9223372036854775807)");
    assert_eq!(NamedMember(host_value(5)).to_string(&|_h| 80000000), "NamedMember(80000000)");
    assert_eq!(tagged_string("X(", i64::MIN), "X(-9223372036854775808)");
}

#[test]
fn handles_are_cloned_and_dropped_by_the_host() {
    let dropped = Cell::new(0usize);
    let c = Client(5).clone(&|h| h + 1000);
    assert_eq!(c.0, 1005);
    c.drop(&|h| dropped.set(h));
    assert_eq!(dropped.get(), 1005);
    let g = Group(6).clone(&|h| h + 1000);
    g.drop(&|h| dropped.set(h));
    assert_eq!(dropped.get(), 1006);
    let f = Friend(7).clone(&|h| h + 1000);
    f.drop(&|h| dropped.set(h));
    assert_eq!(dropped.get(), 1007);
}

#[test]
fn groups_are_equal_by_number() {
    let id = |h: usize| (h % 10) as i64;
    assert!(Group(3).eq(&Group(13), &id));
    assert!(!Group(3).eq(&Group(4), &id));
}

#[test]
fn member_kinds() {
    let named = Member::from_ffi(FFIMember { is_named: true, inner: host_value(1) });
    assert!(matches!(&named, Member::Named(NamedMember(m)) if m.value.pointer == 1));
    assert_eq!(named.id(&|h| h as i64 + 5), 6);
    let anonymous = Member::from_ffi(FFIMember { is_named: false, inner: host_value(2) });
    assert!(matches!(&anonymous, Member::Anonymous(AnonymousMember(m)) if m.value.pointer == 2));
    assert_eq!(anonymous.id(&|_h| -> i64 { panic!("nothing is asked about an anonymous member") }), 80000000);
    assert_eq!(ANONYMOUS_ID, 80000000);
}

#[test]
fn host_answers() {
    match read_sent(receipt(5)) {
        Ok(r) => assert_eq!((r.seqs, r.rands, r.time), (vec![1], vec![2], 5)),
        Err(_) => panic!("a receipt is a success"),
    }
    assert!(matches!(
        read_sent(FFIResult::from(Err(String::from("muted")))),
        Err(AtriError::ClientError(s)) if s == "muted"
    ));
    assert!(matches!(
        read_uploaded(FFIResult::from(Ok(host_value(4)))),
        Ok(Image(m)) if m.value.pointer == 4
    ));
    assert!(matches!(
        read_uploaded(FFIResult::from(Err(String::from("too large")))),
        Err(AtriError::ClientError(s)) if s == "too large"
    ));
    assert!(matches!(read_done(FFIResult::from(Ok(()))), Ok(())));
    assert!(matches!(
        read_done(FFIResult::from(Err(String::from("denied")))),
        Err(AtriError::ClientError(s)) if s == "denied"
    ));
}

#[test]
fn sending_waits_for_the_host() {
    let send = |h: usize, chain: FFIMessageChain| {
        assert!(chain.is_wf());
        FFIFuture::from_static(Delayed::new(3, receipt(h as i64 + chain.inner.into_vec().len() as i64)))
    };
    assert_eq!(Friend(10).send_message("hi", &send).map(|r| r.time).ok(), Some(11));
    assert_eq!(Group(20).send_message("hi", &send).map(|r| r.time).ok(), Some(21));
    let refuse = |_h: usize, _c: FFIMessageChain| {
        FFIFuture::from_static(Delayed::ready(FFIResult::<FFIMessageReceipt>::from(Err(String::from("no"))))) 
    };
    assert!(matches!(Group(20).send_message("hi", &refuse), Err(AtriError::ClientError(s)) if s == "no"));

    let mut forward = ForwardMessage::new();
    forward.push_message(Default::default(), "a");
    forward.push_message(Default::default(), "b");
    let got = Group(1).send_forward_message(forward, &|_h, nodes: RustVec<_>| {
        FFIFuture::from_static(Delayed::new(1, receipt(nodes.into_vec().len() as i64)))
    });
    assert_eq!(got.map(|r| r.time).ok(), Some(2));
}

#[test]
fn uploads_and_requests() {
    let upload = |h: usize, data: RustVec<u8>| {
        FFIFuture::from(Delayed::new(1, FFIResult::from(Ok(host_value(h + data.into_vec().len())))))
    };
    assert!(matches!(Friend(100).upload_image(vec![1, 2, 3], &upload), Ok(Image(m)) if m.value.pointer == 103));
    assert!(matches!(Group(200).upload_image(vec![], &upload), Ok(Image(m)) if m.value.pointer == 200));

    let rename = |_h: usize, name: RustStr| {
        let ok = name.as_str() != "";
        FFIFuture::from(Delayed::ready(FFIResult::from(if ok { Ok(()) } else { Err(String::from("empty")) })))
    };
    assert!(Group(1).change_name("new", &rename).is_ok());
    assert!(matches!(Group(1).change_name("", &rename), Err(AtriError::ClientError(s)) if s == "empty"));
    assert!(NamedMember(host_value(1)).change_card_name("card", &rename).is_ok());
    assert!(Group(1).quit(&|_h| FFIFuture::from(Delayed::new(2, true))));
    assert!(!Group(1).quit(&|_h| FFIFuture::from(Delayed::ready(false))));
}

#[test]
fn members_of_a_group() {
    let members = Group(1).members(&|_h| {
        FFIFuture::from(Delayed::new(1, RustVec::from(vec![host_value(8), host_value(9)])))
    });
    assert_eq!(members.iter().map(|m| m.0.value.pointer).collect::<Vec<_>>(), vec![8, 9]);
    let find = |_h: usize, id: i64| {
        FFIFuture::from(Delayed::ready(if id == 1 { host_value(0x11) } else { ManagedCloneable::null() }))
    };
    assert!(matches!(Group(1).find_member(1, &find), Some(NamedMember(m)) if m.value.pointer == 0x11));
    assert!(Group(1).find_member(2, &find).is_none());
    assert_eq!(NamedMember::from_managed(vec![host_value(1)]).len(), 1);
}

#[test]
fn only_friends_and_groups_take_messages() {
    let send = |h: usize, _c: FFIMessageChain| FFIFuture::from_static(Delayed::ready(receipt(h as i64)));
    let never_send = |_h: usize, _c: FFIMessageChain| -> FFIFuture<Delayed<FFIResult<FFIMessageReceipt>>> {
        panic!("the host is not asked")
    };
    let upload = |h: usize, _d: RustVec<u8>| FFIFuture::from(Delayed::ready(FFIResult::from(Ok(host_value(h)))));
    let never_upload = |_h: usize, _d: RustVec<u8>| -> FFIFuture<Delayed<FFIResult<ManagedCloneable>>> {
        panic!("the host is not asked")
    };

    assert!(Contact::Friend(Friend(1)).is_supported());
    assert!(Contact::Group(Group(2)).is_supported());
    assert!(!Contact::Stranger.is_supported());
    let member = || Contact::Member(Member::Anonymous(AnonymousMember(host_value(3))));
    assert!(!member().is_supported());

    assert_eq!(Contact::Friend(Friend(1)).send_message("x", &send, &never_send).map(|r| r.time).ok(), Some(1));
    assert_eq!(Contact::Group(Group(2)).send_message("x", &never_send, &send).map(|r| r.time).ok(), Some(2));
    assert!(matches!(member().send_message("x", &never_send, &never_send), Err(AtriError::NotSupported)));
    assert!(matches!(Contact::Stranger.send_message("x", &never_send, &never_send), Err(AtriError::NotSupported)));

    assert!(matches!(Contact::Friend(Friend(1)).upload_image(vec![], &upload, &never_upload), Ok(Image(m)) if m.value.pointer == 1));
    assert!(matches!(Contact::Group(Group(2)).upload_image(vec![], &never_upload, &upload), Ok(Image(m)) if m.value.pointer == 2));
    assert!(matches!(member().upload_image(vec![], &never_upload, &never_upload), Err(AtriError::NotSupported)));
    assert!(matches!(Contact::Stranger.upload_image(vec![], &never_upload, &never_upload), Err(AtriError::NotSupported)));
}

#[test]
fn image_getters() {
    let img = Image(host_value(0x40));
    assert_eq!(img.id(&|_p| RustStr::from("{ABC}.jpg")), "{ABC}.jpg");
    assert_eq!(img.url(&|p| RustString::from(format!("http://h/{}", p))), "http://h/64");
}
