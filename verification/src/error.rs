//! Failures that the plugin can recover from.

use vstd::prelude::*;

verus! {

pub type AtriResult<T> = Result<T, AtriError>;

#[derive(Debug)]
pub enum AtriError {
    /// A task that was awaited did not run to completion.
    JoinError(String),
    /// The host ran the operation and reports that it failed.
    ClientError(String),
    /// A message could not be written as text or read back from it.
    SerializationError(String),
    /// The operation is not offered in this context.
    NotSupported,
}

} // verus!
