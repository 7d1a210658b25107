//! Tasks that run on the host's executor.

use crate::abi::error::FFIResult;
use crate::abi::future::{polled, FFIFuture, Poll, Task};
use crate::abi::managed::{Managed, Store, Contents};
use crate::abi::Handle;
use crate::error::AtriError;
use vstd::prelude::*;

verus! {

/// The handle to a task that was given to the host. Polling it to the end
/// gives what the task returned, or says that the task did not finish.
pub struct JoinHandle<K: Task> {
    pub handle: FFIFuture<K>,
}

/// What the end of a spawned task means: the value that the task left in
/// `store`, or the failure to run to completion.
pub open spec fn joined<T>(answer: Result<Managed, String>, store: Contents<T>) -> Result<
    T,
    AtriError,
> {
    match answer {
        Ok(val) => Ok(store.live[val.pointer]),
        Err(s) => Err(AtriError::JoinError(s)),
    }
}

/// The store after the end of a spawned task was read.
pub open spec fn after_join<T>(answer: Result<Managed, String>, store: Contents<T>) -> Contents<
    T,
> {
    match answer {
        Ok(val) => store.unwrap(val.pointer),
        Err(_) => store,
    }
}

/// Reads the end of a spawned task: takes the returned value out of the
/// store, or names the failure.
pub fn read_joined<T>(answer: FFIResult<Managed>, store: &mut Store<T>) -> (r: Result<T, AtriError>)
    requires
        old(store).wf(),
        answer.result() matches Ok(val) ==> val.owned_in(old(store)@),
    ensures
        final(store).wf(),
        r == joined(answer.result(), old(store)@),
        final(store)@ == after_join(answer.result(), old(store)@),
{
    let result: Result<Managed, String> = Result::from(answer);
    match result {
        Ok(val) => Ok(val.into_value(store)),
        Err(s) => Err(AtriError::JoinError(s)),
    }
}

impl<K: Task<Output = FFIResult<Managed>>> JoinHandle<K> {
    pub fn from(f: FFIFuture<K>) -> (r: Self)
        ensures
            r.handle == f,
    {
        JoinHandle { handle: f }
    }

    /// Polls the task once. While it is pending nothing changes here; when
    /// it completes, its outcome is read as `read_joined` reads it.
    pub fn poll<T>(&mut self, store: &mut Store<T>) -> (r: Poll<Result<T, AtriError>>)
        requires
            old(self).handle.task.polls_left() > 0,
            old(store).wf(),
            old(self).handle.task.polls_left() == 1 ==> (old(self).handle.task.output().result()
                matches Ok(val) ==> val.owned_in(old(store)@)),
        ensures
            final(store).wf(),
            polled(old(self).handle.task, final(self).handle.task),
            old(self).handle.task.polls_left() > 1 ==> r is Pending && final(store)@ == old(
                store,
            )@,
            old(self).handle.task.polls_left() == 1 ==> {
                &&& r == Poll::Ready(joined(old(self).handle.task.output().result(), old(store)@))
                &&& final(store)@ == after_join(
                    old(self).handle.task.output().result(),
                    old(store)@,
                )
            },
    {
        match self.handle.poll() {
            Poll::Ready(ffi) => Poll::Ready(read_joined(ffi, store)),
            Poll::Pending => Poll::Pending,
        }
    }
}

pub struct PluginRuntime;

impl PluginRuntime {
    /// Gives `future` to the host's executor through `plugin_manager_spawn`
    /// and returns the handle to it.
    pub fn spawn<K: Task + Send + 'static, J: Task, H: Fn(Handle, FFIFuture<K>) -> FFIFuture<J>>(
        plugin_manager: Handle,
        future: K,
        plugin_manager_spawn: &H,
    ) -> (r: JoinHandle<J>)
        requires
            call_requires(plugin_manager_spawn, (plugin_manager, FFIFuture { task: future })),
        ensures
            call_ensures(
                plugin_manager_spawn,
                (plugin_manager, FFIFuture { task: future }),
                r.handle,
            ),
    {
        let ffi = FFIFuture::from_static(future);
        let f = plugin_manager_spawn(plugin_manager, ffi);
        JoinHandle { handle: f }
    }

    /// Has the host run `future` to its end on the calling thread, through
    /// `plugin_manager_block_on`, and takes what it returned out of `store`.
    pub fn block_on<K: Task, T, H: Fn(Handle, FFIFuture<K>) -> Managed>(
        plugin_manager: Handle,
        future: K,
        plugin_manager_block_on: &H,
        store: &mut Store<T>,
    ) -> (r: T)
        requires
            old(store).wf(),
            call_requires(plugin_manager_block_on, (plugin_manager, FFIFuture { task: future })),
            forall|m: Managed| #[trigger]
                call_ensures(
                    plugin_manager_block_on,
                    (plugin_manager, FFIFuture { task: future }),
                    m,
                ) ==> m.owned_in(old(store)@),
        ensures
            final(store).wf(),
            exists|m: Managed| #[trigger]
                call_ensures(
                    plugin_manager_block_on,
                    (plugin_manager, FFIFuture { task: future }),
                    m,
                ) && r == old(store)@.live[m.pointer] && final(store)@ == old(store)@.unwrap(
                    m.pointer,
                ),
    {
        let ffi = FFIFuture::from(future);
        let managed = plugin_manager_block_on(plugin_manager, ffi);
        managed.into_value(store)
    }
}

/// Gives `future` to the host's executor and returns the handle to it.
pub fn spawn<K: Task + Send + 'static, J: Task, H: Fn(Handle, FFIFuture<K>) -> FFIFuture<J>>(
    plugin_manager: Handle,
    future: K,
    plugin_manager_spawn: &H,
) -> (r: JoinHandle<J>)
    requires
        call_requires(plugin_manager_spawn, (plugin_manager, FFIFuture { task: future })),
    ensures
        call_ensures(plugin_manager_spawn, (plugin_manager, FFIFuture { task: future }), r.handle),
{
    PluginRuntime::spawn(plugin_manager, future, plugin_manager_spawn)
}

/// Has the host run `future` to its end on the calling thread and takes what
/// it returned out of `store`.
pub fn block_on<K: Task, T, H: Fn(Handle, FFIFuture<K>) -> Managed>(
    plugin_manager: Handle,
    future: K,
    plugin_manager_block_on: &H,
    store: &mut Store<T>,
) -> (r: T)
    requires
        old(store).wf(),
        call_requires(plugin_manager_block_on, (plugin_manager, FFIFuture { task: future })),
        forall|m: Managed| #[trigger]
            call_ensures(plugin_manager_block_on, (plugin_manager, FFIFuture { task: future }), m)
                ==> m.owned_in(old(store)@),
    ensures
        final(store).wf(),
        exists|m: Managed| #[trigger]
            call_ensures(plugin_manager_block_on, (plugin_manager, FFIFuture { task: future }), m)
                && r == old(store)@.live[m.pointer] && final(store)@ == old(store)@.unwrap(
                m.pointer,
            ),
{
    PluginRuntime::block_on(plugin_manager, future, plugin_manager_block_on, store)
}

} // verus!
