//! Asynchronous work that crosses the boundary.
//!
//! Neither side knows the other's executor, so a future is reduced to the one
//! thing both understand: it can be polled, and a poll either says that the
//! work is still pending or hands out the result.

use vstd::prelude::*;

verus! {

/// What one poll gives.
pub enum Poll<T> {
    Pending,
    Ready(T),
}

/// A unit of work that completes after a number of polls.
///
/// An implementor says how many polls it takes and what it completes with.
/// One that says nothing is taken to have completed already, so that
/// verified code never polls it.
pub trait Task: Sized {
    type Output;

    /// How many polls it still takes, the completing one included; zero once
    /// the work has completed.
    open spec fn polls_left(&self) -> nat {
        0
    }

    /// The result that the completing poll hands out.
    open spec fn output(&self) -> Self::Output {
        arbitrary()
    }

    /// Advances the work by one step: one poll fewer is left, and until the
    /// work completes the result that it will complete with stays the same.
    /// A task that has completed is not polled again.
    fn poll(&mut self) -> (r: Poll<Self::Output>)
        requires
            old(self).polls_left() > 0,
        ensures
            final(self).polls_left() == old(self).polls_left() - 1,
            old(self).polls_left() == 1 ==> r == Poll::Ready(old(self).output()),
            old(self).polls_left() > 1 ==> r is Pending && final(self).output() == old(
                self,
            ).output(),
    ;
}

/// What a poll of `task` gives: the result if this poll completes the work,
/// pending if not.
pub open spec fn poll_outcome<K: Task>(task: K) -> Poll<K::Output> {
    if task.polls_left() == 1 {
        Poll::Ready(task.output())
    } else {
        Poll::Pending
    }
}

/// How a task after a poll relates to the task before it.
pub open spec fn polled<K: Task>(before: K, after: K) -> bool {
    &&& before.polls_left() > 0
    &&& after.polls_left() == before.polls_left() - 1
    &&& before.polls_left() > 1 ==> after.output() == before.output()
}

/// Of a task that takes `N` polls, each of the first `N - 1` polls gives
/// pending and the `N`th gives the result; after it no poll is left.
/// `states[i]` is the task after `i` polls.
pub proof fn lemma_poll_sequence<K: Task>(states: Seq<K>, i: int)
    requires
        states.len() == states[0].polls_left() + 1,
        forall|j: int| 0 <= j < states.len() - 1 ==> polled(#[trigger] states[j], states[j + 1]),
        0 <= i < states[0].polls_left(),
    ensures
        states[i].polls_left() == states[0].polls_left() - i,
        states[i].output() == states[0].output(),
        i + 1 < states[0].polls_left() ==> poll_outcome(states[i]) == Poll::<K::Output>::Pending,
        i + 1 == states[0].polls_left() ==> poll_outcome(states[i]) == Poll::Ready(
            states[0].output(),
        ),
        states[states.len() - 1].polls_left() == 0,
    decreases i,
{
    if i > 0 {
        lemma_poll_sequence(states, i - 1);
        assert(polled(states[i - 1], states[i]));
    }
    lemma_polls_left(states, states.len() - 1);
}

/// After `i` polls, `i` polls fewer are left.
pub proof fn lemma_polls_left<K: Task>(states: Seq<K>, i: int)
    requires
        forall|j: int| 0 <= j < states.len() - 1 ==> polled(#[trigger] states[j], states[j + 1]),
        0 <= i < states.len(),
    ensures
        states[i].polls_left() == states[0].polls_left() - i,
    decreases i,
{
    if i > 0 {
        lemma_polls_left(states, i - 1);
        assert(polled(states[i - 1], states[i]));
    }
}

/// A future that can cross the boundary: the task, behind the one operation
/// that polls it.
pub struct FFIFuture<K: Task> {
    pub task: K,
}

impl<K: Task> FFIFuture<K> {
    /// Wraps a task that may outlive its creator and move between threads.
    pub fn from_static(task: K) -> (r: Self) where K: Send + 'static
        ensures
            r.task == task,
    {
        FFIFuture { task }
    }

    /// Wraps a task that is driven to completion before the caller returns.
    pub fn from(task: K) -> (r: Self)
        ensures
            r.task == task,
    {
        FFIFuture { task }
    }

    /// Polls the task once.
    pub fn poll(&mut self) -> (r: Poll<K::Output>)
        requires
            old(self).task.polls_left() > 0,
        ensures
            polled(old(self).task, final(self).task),
            r == poll_outcome(old(self).task),
    {
        self.task.poll()
    }

    /// Polls until the task completes and hands out its result.
    pub fn block_on(self) -> (r: K::Output)
        requires
            self.task.polls_left() > 0,
        ensures
            r == self.task.output(),
    {
        let mut task = self.task;
        loop
            invariant
                task.polls_left() > 0,
                task.output() == self.task.output(),
            decreases task.polls_left(),
        {
            match task.poll() {
                Poll::Ready(v) => {
                    return v;
                },
                Poll::Pending => {},
            }
        }
    }
}

/// A task that is pending for a fixed number of polls and then hands out
/// its value.
pub struct Delayed<T> {
    pending: usize,
    value: Option<T>,
}

impl<T> Delayed<T> {
    /// A task that gives `value` at poll number `pending + 1`.
    pub fn new(pending: usize, value: T) -> (r: Self)
        ensures
            r.polls_left() == pending + 1,
            r.output() == value,
    {
        Delayed { pending, value: Some(value) }
    }

    /// A task that gives `value` at the first poll.
    pub fn ready(value: T) -> (r: Self)
        ensures
            r.polls_left() == 1,
            r.output() == value,
    {
        Delayed { pending: 0, value: Some(value) }
    }

    pub fn is_completed(&self) -> (r: bool)
        ensures
            r == (self.polls_left() == 0),
    {
        self.value.is_none()
    }
}

impl<T> Task for Delayed<T> {
    type Output = T;

    closed spec fn polls_left(&self) -> nat {
        if self.value is Some {
            (self.pending + 1) as nat
        } else {
            0
        }
    }

    closed spec fn output(&self) -> T {
        self.value->0
    }

    fn poll(&mut self) -> (r: Poll<T>) {
        if self.pending > 0 {
            self.pending = self.pending - 1;
            Poll::Pending
        } else {
            let mut out: Option<T> = None;
            core::mem::swap(&mut self.value, &mut out);
            match out {
                Some(v) => Poll::Ready(v),
                None => vstd::pervasive::unreached(),
            }
        }
    }
}

} // verus!
