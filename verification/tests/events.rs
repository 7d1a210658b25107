use atri_plugin::abi::contact::FFIMember;
use atri_plugin::abi::event::FFIEvent;
use atri_plugin::abi::future::{Delayed, FFIFuture};
use atri_plugin::abi::managed::{Destructor, Duplicator, Managed, ManagedCloneable};
use atri_plugin::abi::closure::FFIFn;
use atri_plugin::abi::FFIOption;
use atri_plugin::contact::member::Member;
use atri_plugin::error::AtriError;
use atri_plugin::event::{
    ClientLoginEvent, Event, EventInner, FriendMessageEvent, FromEvent, GroupMessageEvent,
    MessageEvent,
};
use atri_plugin::listener::{
    EventBridge, EventFilter, Listener, ListenerBuilder, ListenerGuard, Priority,
};
use atri_plugin::message::MessageChain;
use std::cell::Cell;

fn host_value(pointer: usize) -> ManagedCloneable {
    ManagedCloneable {
        value: Managed { pointer, drop: Destructor::Foreign(0xd0) },
        clone: Duplicator::Foreign(0xc0),
    }
}

fn event(t: u8) -> FFIEvent {
    FFIEvent::from(t, 0x1000 + t as usize, host_value(0x2000 + t as usize))
}

#[test]
fn kind_byte_picks_the_kind() {
    assert!(matches!(Event::from_ffi(event(0)), Event::ClientLogin(ClientLoginEvent(i)) if i.intercepted == 0x1000));
    assert!(matches!(Event::from_ffi(event(1)), Event::GroupMessage(e) if e.0.event.value.pointer == 0x2001));
    assert!(matches!(Event::from_ffi(event(2)), Event::FriendMessage(e) if e.0.intercepted == 0x1002));
    assert!(matches!(Event::from_ffi(event(3)), Event::NewFriend(_)));
    assert!(matches!(Event::from_ffi(event(4)), Event::DeleteFriend(_)));
    for t in 5..=255u8 {
        match Event::from_ffi(event(t)) {
            Event::Unknown { raw_tag, inner } => {
                assert_eq!(raw_tag, t);
                assert_eq!(inner.intercepted, 0x1000 + t as usize);
                assert_eq!(inner.event.value.pointer, 0x2000 + t as usize);
            }
            _ => panic!("byte {} names no kind", t),
        }
    }
    assert!(Event::from_ffi(event(5)).is_unexpected());
    assert!(!Event::from_ffi(event(255)).is_unexpected());
    assert!(!Event::from_ffi(event(1)).is_unexpected());
    let (t, flag, base) = event(9).get();
    assert_eq!((t, flag, base.value.pointer), (9, 0x1009, 0x2009));
}

#[test]
fn narrowing() {
    assert!(Event::from_event(Event::from_ffi(event(77))).is_some());
    assert!(GroupMessageEvent::from_event(Event::from_ffi(event(1))).is_some());
    assert!(GroupMessageEvent::from_event(Event::from_ffi(event(2))).is_none());
    assert!(FriendMessageEvent::from_event(Event::from_ffi(event(2))).is_some());
    assert!(FriendMessageEvent::from_event(Event::from_ffi(event(1))).is_none());
    assert!(matches!(MessageEvent::from_event(Event::from_ffi(event(1))), Some(MessageEvent::Group(_))));
    assert!(matches!(MessageEvent::from_event(Event::from_ffi(event(2))), Some(MessageEvent::Friend(_))));
    assert!(MessageEvent::from_event(Event::from_ffi(event(0))).is_none());
    assert!(MessageEvent::from_event(Event::from_ffi(event(255))).is_none());
}

#[test]
fn interception_goes_through_the_flag_address() {
    let inner = EventInner { intercepted: 0x55, event: host_value(1) };
    let seen = Cell::new(0usize);
    inner.intercept(&|flag| seen.set(flag));
    assert_eq!(seen.get(), 0x55);
    assert!(inner.is_intercepted(&|flag| flag == 0x55));
    assert!(!inner.is_intercepted(&|flag| flag == 0x56));
    let e = GroupMessageEvent(EventInner { intercepted: 0x66, event: host_value(2) });
    assert!(e.is_intercepted(&|flag| flag == 0x66));
}

#[test]
fn message_event_getters() {
    let e = GroupMessageEvent(EventInner { intercepted: 1, event: host_value(0x30) });
    assert_eq!(e.group(&|p| p + 1).0, 0x31);
    assert_eq!(e.client(&|p| p + 1, &|g| g + 0x100).0, 0x131);
    assert!(matches!(
        e.sender(&|p| FFIMember { is_named: p == 0x30, inner: host_value(p + 2) }),
        Member::Named(m) if m.0.value.pointer == 0x32
    ));
    assert!(matches!(
        e.sender(&|p| FFIMember { is_named: p != 0x30, inner: host_value(p + 2) }),
        Member::Anonymous(_)
    ));
    let chain = e.message(&|_p| MessageChain::from("in group").into_ffi());
    assert_eq!(chain.len(), 1);

    let f = FriendMessageEvent(EventInner { intercepted: 1, event: host_value(0x40) });
    assert_eq!(f.friend(&|p| p + 1).0, 0x41);
    assert_eq!(f.client(&|p| p + 1, &|fr| fr + 0x100).0, 0x141);
    assert_eq!(f.message(&|_p| MessageChain::from("from friend").into_ffi()).len(), 1);
}

#[test]
fn priorities() {
    assert_eq!(Priority::Top.value(), 0);
    assert_eq!(Priority::High.value(), 1);
    assert_eq!(Priority::Middle.value(), 2);
    assert_eq!(Priority::Low.value(), 3);
    assert_eq!(Priority::Base.value(), 4);
    assert_eq!(Priority::default(), Priority::Middle);
}

#[test]
fn builder_defaults_and_setters() {
    let b = ListenerBuilder::listening_on(|_e: GroupMessageEvent| true);
    assert!(b.concurrent);
    assert!(!b.handler.always);
    assert_eq!(b.priority, Priority::Middle);
    let b = b.concurrent(false).priority(Priority::Top);
    assert!(!b.concurrent);
    assert_eq!(b.priority, Priority::Top);
    let b = ListenerBuilder::listening_on_always(|_e: Event| ()).priority(Priority::Base);
    assert!(b.concurrent && b.handler.always);
    assert_eq!(b.priority, Priority::Base);
    assert!(!ListenerBuilder::new(|_e: Event| ()).handler.always);
    assert!(ListenerBuilder::new_always(|_e: Event| ()).handler.always);
}

#[test]
fn bridge_calls_the_handler_for_its_kind_only() {
    let bridge = EventBridge { handler: |e: GroupMessageEvent| e.0.intercepted, always: false };
    assert_eq!(bridge.dispatch(event(1)), Some(0x1001));
    assert_eq!(bridge.dispatch(event(2)), None);
    assert_eq!(bridge.dispatch(event(200)), None);
    let any = EventBridge { handler: |_e: Event| 1u8, always: true };
    assert_eq!(any.dispatch(event(200)), Some(1));
}

#[test]
fn when_the_listener_goes_on() {
    let once = EventBridge { handler: (), always: false };
    assert!(once.keep_listening(None));
    assert!(once.keep_listening(Some(Ok(true))));
    assert!(!once.keep_listening(Some(Ok(false))));
    assert!(!once.keep_listening(Some(Err(AtriError::JoinError(String::from("x"))))));
    let always = EventBridge { handler: (), always: true };
    assert!(always.keep_listening(None));
    assert!(always.keep_listening(Some(Ok(true))));
    assert!(always.keep_listening(Some(Ok(false))));
    assert!(!always.keep_listening(Some(Err(AtriError::NotSupported))));
}

#[test]
fn start_registers_with_the_host() {
    let guard = ListenerBuilder::listening_on(|_e: FriendMessageEvent| true)
        .concurrent(false)
        .priority(Priority::Low)
        .start(&|concurrent, bridge: EventBridge<_>, priority| {
            assert!(!concurrent);
            assert_eq!(priority, 3);
            assert_eq!(bridge.dispatch(event(2)), Some(true));
            Managed { pointer: 0x900, drop: Destructor::Foreign(0x901) }
        });
    assert_eq!(guard.0.pointer, 0x900);
    let closed = Cell::new(0usize);
    guard.close(&|p| closed.set(p));
    assert_eq!(closed.get(), 0x900);

    let guard: ListenerGuard = Listener::listening_on(|_e: Event| false, &|concurrent, bridge: EventBridge<_>, priority| {
        assert!(concurrent && !bridge.always);
        assert_eq!(priority, 2);
        Managed::from_static(1)
    });
    assert_eq!(guard.0.pointer, 1);
    let guard = Listener::listening_on_always(|_e: Event| (), &|_c, bridge: EventBridge<_>, _p| {
        assert!(bridge.always);
        Managed::from_static(2)
    });
    assert_eq!(guard.0.pointer, 2);
}

#[test]
fn filters_and_waits() {
    let filter = EventFilter { filter: |e: &GroupMessageEvent| e.0.intercepted == 0x1001 };
    assert!(filter.test(event(1)));
    assert!(!filter.test(event(2)));
    assert!(!EventFilter { filter: |_e: &GroupMessageEvent| false }.test(event(1)));

    assert!(Listener::read_received::<Event>(FFIOption::from(None)).is_none());
    assert!(Listener::read_received::<GroupMessageEvent>(FFIOption::from(Some(event(2)))).is_none());
    assert!(Listener::read_received::<GroupMessageEvent>(FFIOption::from(Some(event(1)))).is_some());

    let got: Option<FriendMessageEvent> = Listener::next_event_with_priority(
        1500,
        |_e: &FriendMessageEvent| true,
        Priority::High,
        &|millis, filter: EventFilter<_>, priority| {
            assert_eq!((millis, priority), (1500, 1));
            assert!(filter.test(event(2)));
            FFIFuture::from_static(Delayed::new(2, FFIOption::from(Some(event(2)))))
        },
    );
    assert_eq!(got.map(|e| e.0.intercepted), Some(0x1002));

    let timed_out: Option<Event> = Listener::next_event(10, |_e: &Event| true, &|millis, _f: EventFilter<_>, priority| {
        assert_eq!((millis, priority), (10, 2));
        FFIFuture::from_static(Delayed::ready(FFIOption::from(None)))
    });
    assert!(timed_out.is_none());
}

#[test]
fn closure_bridge_calls_what_it_wraps() {
    let double = FFIFn::from_static(|x: u32| x * 2);
    assert_eq!(double.invoke(4), 8);
    assert_eq!(double.invoke(5), 10);
    let captured = String::from("seen: ");
    let once = FFIFn::from(move |s: &str| format!("{}{}", captured, s));
    assert_eq!(once.invoke("x"), "seen: x");
}

struct Login(usize);

impl FromEvent for Login {
    fn from_event(e: Event) -> Option<Self> {
        match e {
            Event::ClientLogin(e) => Some(Login(e.0.event.value.pointer)),
            _ => None,
        }
    }
}

#[test]
fn kinds_of_the_caller() {
    let bridge = EventBridge { handler: |l: Login| l.0, always: false };
    assert_eq!(bridge.dispatch(event(0)), Some(0x2000));
    assert_eq!(bridge.dispatch(event(1)), None);
    assert!(Listener::read_received::<Login>(FFIOption::from(Some(event(0)))).is_some());
    assert!(Listener::read_received::<Login>(FFIOption::from(None)).is_none());
}
