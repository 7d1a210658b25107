//! Encoding of a group member.

use crate::abi::managed::ManagedCloneable;
use vstd::prelude::*;

verus! {

pub struct FFIMember {
    pub is_named: bool,
    pub inner: ManagedCloneable,
}

} // verus!
