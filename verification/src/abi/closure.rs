//! A callable that crosses the boundary: one argument in, one result out, and
//! nothing of what it captured visible from the other side.

use vstd::prelude::*;

verus! {

pub struct FFIFn<F> {
    pub closure: F,
}

impl<F> FFIFn<F> {
    /// Wraps a callable that may be stored, called repeatedly and moved
    /// between threads.
    pub fn from_static(closure: F) -> (r: Self) where F: Send + 'static
        ensures
            r.closure == closure,
    {
        FFIFn { closure }
    }

    /// Wraps a callable that is used up before the caller returns.
    pub fn from(closure: F) -> (r: Self)
        ensures
            r.closure == closure,
    {
        FFIFn { closure }
    }

    /// Calls the wrapped callable on `arg`.
    pub fn invoke<Arg, R>(&self, arg: Arg) -> (r: R) where F: Fn(Arg) -> R
        requires
            call_requires(self.closure, (arg,)),
        ensures
            call_ensures(self.closure, (arg,), r),
    {
        (self.closure)(arg)
    }
}

} // verus!
