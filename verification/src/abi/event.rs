//! The encoding of an event: a kind byte, the address of the flag that says
//! whether the event was intercepted, and the event itself.

use crate::abi::managed::ManagedCloneable;
use crate::abi::Handle;
use vstd::prelude::*;

verus! {

pub struct FFIEvent {
    pub t: u8,
    pub intercepted: Handle,
    pub base: ManagedCloneable,
}

impl FFIEvent {
    pub fn from(t: u8, intercepted: Handle, base: ManagedCloneable) -> (r: Self)
        ensures
            r == (FFIEvent { t, intercepted, base }),
    {
        FFIEvent { t, intercepted, base }
    }

    /// Takes the encoding apart.
    pub fn get(self) -> (r: (u8, Handle, ManagedCloneable))
        ensures
            r == (self.t, self.intercepted, self.base),
    {
        (self.t, self.intercepted, self.base)
    }
}

} // verus!
