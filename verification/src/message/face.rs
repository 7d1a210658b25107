//! A built-in emoticon.

use vstd::prelude::*;

verus! {

#[derive(Clone, Debug)]
pub struct Face {
    pub index: i32,
    pub name: String,
}

} // verus!
