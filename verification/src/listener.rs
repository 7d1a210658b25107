//! Listeners: handlers that the host calls for each event, and the one-shot
//! wait for the next event that passes a filter.

use crate::abi::event::FFIEvent;
use crate::abi::future::{FFIFuture, Task};
use crate::abi::managed::Managed;
use crate::abi::{FFIOption, Handle};
use crate::error::AtriError;
use crate::event::{Event, FromEvent};
use vstd::prelude::*;

verus! {

pub struct Listener;

/// The order in which listeners see an event: `Top` first.
#[derive(Clone, Copy, PartialEq, Eq, Structural, Debug)]
pub enum Priority {
    Top,
    High,
    Middle,
    Low,
    Base,
}

impl Priority {
    /// The byte that stands for this priority on the boundary.
    pub open spec fn spec_value(self) -> u8 {
        match self {
            Priority::Top => 0,
            Priority::High => 1,
            Priority::Middle => 2,
            Priority::Low => 3,
            Priority::Base => 4,
        }
    }

    #[verifier::when_used_as_spec(spec_value)]
    pub fn value(self) -> (r: u8)
        ensures
            r == self.spec_value(),
    {
        match self {
            Priority::Top => 0,
            Priority::High => 1,
            Priority::Middle => 2,
            Priority::Low => 3,
            Priority::Base => 4,
        }
    }
}

impl Default for Priority {
    fn default() -> (r: Self)
        ensures
            r == Priority::Middle,
    {
        Priority::Middle
    }
}

/// A handler for one kind of event, as the host calls it: on an encoded
/// event of any kind.
pub struct EventBridge<F> {
    pub handler: F,
    pub always: bool,
}

impl<F> EventBridge<F> {
    /// Decodes the event and, if it is of the handler's kind, calls the
    /// handler on it. An event of another kind is passed over.
    pub fn dispatch<E: FromEvent, Fu>(&self, ffi: FFIEvent) -> (r: Option<Fu>) where F: Fn(E) -> Fu
        requires
            forall|e: E| #[trigger] call_requires(self.handler, (e,)),
        ensures
            E::obeys_from_event() ==> match E::narrowed(Event::of(ffi)) {
                Some(e) => r is Some && call_ensures(self.handler, (e,), r->0),
                None => r is None,
            },
    {
        let event = Event::from_ffi(ffi);
        match E::from_event(event) {
            Some(e) => Some((self.handler)(e)),
            None => None,
        }
    }

    /// Whether the listener goes on after an event: it does after an event
    /// that was passed over; after a handled one it does if it always
    /// listens or the handler said so; it stops when the handler's task
    /// failed.
    pub open spec fn goes_on(&self, outcome: Option<Result<bool, AtriError>>) -> bool {
        match outcome {
            None => true,
            Some(Ok(more)) => self.always || more,
            Some(Err(_)) => false,
        }
    }

    pub fn keep_listening(&self, outcome: Option<Result<bool, AtriError>>) -> (r: bool)
        ensures
            r == self.goes_on(outcome),
    {
        match outcome {
            None => true,
            Some(Ok(more)) => self.always || more,
            Some(Err(_)) => false,
        }
    }
}

pub struct ListenerBuilder<F> {
    pub concurrent: bool,
    pub handler: EventBridge<F>,
    pub priority: Priority,
}

impl<F> ListenerBuilder<F> {
    /// A builder with the defaults: handled concurrently, middle priority.
    pub open spec fn initial(handler: F, always: bool) -> Self {
        ListenerBuilder {
            concurrent: true,
            handler: EventBridge { handler, always },
            priority: Priority::Middle,
        }
    }

    pub fn new(handler: F) -> (r: Self)
        ensures
            r == Self::initial(handler, false),
    {
        ListenerBuilder {
            concurrent: true,
            handler: EventBridge { handler, always: false },
            priority: Priority::Middle,
        }
    }

    pub fn new_always(handler: F) -> (r: Self)
        ensures
            r == Self::initial(handler, true),
    {
        ListenerBuilder {
            concurrent: true,
            handler: EventBridge { handler, always: true },
            priority: Priority::Middle,
        }
    }

    /// A listener for events of kind `E` that goes on for as long as the
    /// handler says so.
    pub fn listening_on<E: FromEvent, Fu>(handler: F) -> (r: Self) where F: Fn(E) -> Fu
        ensures
            r == Self::initial(handler, false),
    {
        Self::new(handler)
    }

    /// A listener for events of kind `E` that goes on whatever the handler does.
    pub fn listening_on_always<E: FromEvent, Fu>(handler: F) -> (r: Self) where F: Fn(E) -> Fu
        ensures
            r == Self::initial(handler, true),
    {
        Self::new_always(handler)
    }

    pub fn concurrent(self, is: bool) -> (r: Self)
        ensures
            r == (ListenerBuilder { concurrent: is, ..self }),
    {
        let mut this = self;
        this.concurrent = is;
        this
    }

    pub fn priority(self, priority: Priority) -> (r: Self)
        ensures
            r == (ListenerBuilder { priority, ..self }),
    {
        let mut this = self;
        this.priority = priority;
        this
    }

    /// Registers the listener with the host through `new_listener`. The
    /// guard that comes back keeps it registered.
    pub fn start<H: Fn(bool, EventBridge<F>, u8) -> Managed>(self, new_listener: &H) -> (r:
        ListenerGuard)
        requires
            call_requires(new_listener, (self.concurrent, self.handler, self.priority.spec_value())),
        ensures
            call_ensures(
                new_listener,
                (self.concurrent, self.handler, self.priority.spec_value()),
                r.0,
            ),
    {
        let ma = new_listener(self.concurrent, self.handler, self.priority.value());
        ListenerGuard(ma)
    }
}

/// A filter on one kind of event, as the host calls it: on an encoded event
/// of any kind.
pub struct EventFilter<P> {
    pub filter: P,
}

impl<P> EventFilter<P> {
    /// Decodes the event and asks the filter, if the event is of the
    /// filter's kind. An event of another kind does not pass.
    pub fn test<E: FromEvent>(&self, ffi: FFIEvent) -> (r: bool) where P: Fn(&E) -> bool
        requires
            forall|e: &E| #[trigger] call_requires(self.filter, (e,)),
        ensures
            E::obeys_from_event() ==> match E::narrowed(Event::of(ffi)) {
                Some(e) => call_ensures(self.filter, (&e,), r),
                None => !r,
            },
    {
        let event = Event::from_ffi(ffi);
        match E::from_event(event) {
            Some(e) => (self.filter)(&e),
            None => false,
        }
    }
}

impl Listener {
    /// Registers `handler` for events of kind `E`; it goes on for as long as
    /// the handler says so.
    pub fn listening_on<E: FromEvent, Fu, F: Fn(E) -> Fu, H: Fn(bool, EventBridge<F>, u8) -> Managed>(
        handler: F,
        new_listener: &H,
    ) -> (r: ListenerGuard)
        requires
            call_requires(
                new_listener,
                (true, EventBridge { handler, always: false }, Priority::Middle.spec_value()),
            ),
        ensures
            call_ensures(
                new_listener,
                (true, EventBridge { handler, always: false }, Priority::Middle.spec_value()),
                r.0,
            ),
    {
        ListenerBuilder::listening_on(handler).start(new_listener)
    }

    /// Registers `handler` for events of kind `E`; it goes on whatever the
    /// handler does.
    pub fn listening_on_always<
        E: FromEvent,
        Fu,
        F: Fn(E) -> Fu,
        H: Fn(bool, EventBridge<F>, u8) -> Managed,
    >(handler: F, new_listener: &H) -> (r: ListenerGuard)
        requires
            call_requires(
                new_listener,
                (true, EventBridge { handler, always: true }, Priority::Middle.spec_value()),
            ),
        ensures
            call_ensures(
                new_listener,
                (true, EventBridge { handler, always: true }, Priority::Middle.spec_value()),
                r.0,
            ),
    {
        ListenerBuilder::listening_on_always(handler).start(new_listener)
    }

    /// What the host's answer to a wait means: the event as kind `E`, if one
    /// came in time and is of that kind.
    pub open spec fn received<E: FromEvent>(answer: FFIOption<FFIEvent>) -> Option<E> {
        match answer.decoded() {
            Some(ffi) => E::narrowed(Event::of(ffi)),
            None => None,
        }
    }

    pub fn read_received<E: FromEvent>(answer: FFIOption<FFIEvent>) -> (r: Option<E>)
        ensures
            answer.decoded() is None ==> r is None,
            E::obeys_from_event() ==> r == Self::received::<E>(answer),
    {
        match Option::from(answer) {
            Some(ffi) => E::from_event(Event::from_ffi(ffi)),
            None => None,
        }
    }

    /// Waits, at middle priority, for the next event of kind `E` that passes
    /// `filter`, for at most `timeout_millis` milliseconds.
    pub fn next_event<
        E: FromEvent,
        P: Fn(&E) -> bool,
        K: Task<Output = FFIOption<FFIEvent>>,
        H: Fn(u64, EventFilter<P>, u8) -> FFIFuture<K>,
    >(timeout_millis: u64, filter: P, listener_next_event_with_priority: &H) -> (r: Option<E>)
        requires
            call_requires(
                listener_next_event_with_priority,
                (timeout_millis, EventFilter { filter }, Priority::Middle.spec_value()),
            ),
            forall|fu: FFIFuture<K>| #[trigger]
                call_ensures(
                    listener_next_event_with_priority,
                    (timeout_millis, EventFilter { filter }, Priority::Middle.spec_value()),
                    fu,
                ) ==> fu.task.polls_left() > 0,
        ensures
            exists|fu: FFIFuture<K>| #[trigger]
                call_ensures(
                    listener_next_event_with_priority,
                    (timeout_millis, EventFilter { filter }, Priority::Middle.spec_value()),
                    fu,
                ) && (fu.task.output().decoded() is None ==> r is None) && (E::obeys_from_event()
                    ==> r == Self::received::<E>(fu.task.output())),
    {
        Self::next_event_with_priority(
            timeout_millis,
            filter,
            Priority::Middle,
            listener_next_event_with_priority,
        )
    }

    /// Waits, at the given priority, for the next event of kind `E` that
    /// passes `filter`, for at most `timeout_millis` milliseconds. The host
    /// does the waiting; nothing comes back when the time runs out.
    pub fn next_event_with_priority<
        E: FromEvent,
        P: Fn(&E) -> bool,
        K: Task<Output = FFIOption<FFIEvent>>,
        H: Fn(u64, EventFilter<P>, u8) -> FFIFuture<K>,
    >(
        timeout_millis: u64,
        filter: P,
        priority: Priority,
        listener_next_event_with_priority: &H,
    ) -> (r: Option<E>)
        requires
            call_requires(
                listener_next_event_with_priority,
                (timeout_millis, EventFilter { filter }, priority.spec_value()),
            ),
            forall|fu: FFIFuture<K>| #[trigger]
                call_ensures(
                    listener_next_event_with_priority,
                    (timeout_millis, EventFilter { filter }, priority.spec_value()),
                    fu,
                ) ==> fu.task.polls_left() > 0,
        ensures
            exists|fu: FFIFuture<K>| #[trigger]
                call_ensures(
                    listener_next_event_with_priority,
                    (timeout_millis, EventFilter { filter }, priority.spec_value()),
                    fu,
                ) && (fu.task.output().decoded() is None ==> r is None) && (E::obeys_from_event()
                    ==> r == Self::received::<E>(fu.task.output())),
    {
        let fu = listener_next_event_with_priority(
            timeout_millis,
            EventFilter { filter },
            priority.value(),
        );
        Self::read_received(fu.block_on())
    }
}

/// Keeps a listener registered. Closing the guard ends the listener.
#[must_use]
pub struct ListenerGuard(pub Managed);

impl ListenerGuard {
    /// Ends the listener: the host's destructor for the guard runs, once.
    pub fn close<D: Fn(Handle)>(self, destructor: &D)
        requires
            call_requires(destructor, (self.0.pointer,)),
        ensures
            call_ensures(destructor, (self.0.pointer,), ()),
    {
        destructor(self.0.pointer)
    }
}

} // verus!
