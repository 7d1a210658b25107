//! The encoding of an outcome: a failure flag in front of either the value or
//! the description of the failure.

use crate::abi::RustString;
use vstd::prelude::*;
use vstd::std_specs::convert::FromSpecImpl;

verus! {

/// An outcome that crosses the boundary. The flag tells which of the two
/// members is filled; the type keeps them in step.
pub struct FFIResult<T> {
    has_error: bool,
    value: Option<T>,
    error: Option<RustString>,
}

impl<T> FFIResult<T> {
    #[verifier::type_invariant]
    closed spec fn inv(self) -> bool {
        if self.has_error {
            self.error is Some && self.value is None
        } else {
            self.value is Some && self.error is None
        }
    }

    /// The outcome that this encoding stands for.
    pub closed spec fn result(self) -> Result<T, String> {
        if self.has_error {
            Err(self.error->0.decoded())
        } else {
            Ok(self.value->0)
        }
    }

    /// The encoding of an outcome.
    pub closed spec fn encoded(r: Result<T, String>) -> Self {
        match r {
            Ok(v) => FFIResult { has_error: false, value: Some(v), error: None },
            Err(e) => FFIResult {
                has_error: true,
                value: None,
                error: Some(RustString::encoded(e)),
            },
        }
    }

    /// An outcome that is encoded and read again is the outcome that went in.
    pub broadcast proof fn lemma_round_trip(r: Result<T, String>)
        ensures
            #[trigger] Self::encoded(r).result() == r,
    {
    }

    pub fn is_error(&self) -> (r: bool)
        ensures
            r == (self.result() is Err),
    {
        self.has_error
    }
}

impl<T> FromSpecImpl<Result<T, String>> for FFIResult<T> {
    open spec fn obeys_from_spec() -> bool {
        true
    }

    open spec fn from_spec(r: Result<T, String>) -> Self {
        FFIResult::encoded(r)
    }
}

impl<T> From<Result<T, String>> for FFIResult<T> {
    fn from(r: Result<T, String>) -> (ffi: Self)
        ensures
            ffi == FFIResult::encoded(r),
            ffi.result() == r,
    {
        match r {
            Ok(v) => FFIResult { has_error: false, value: Some(v), error: None },
            Err(e) => FFIResult { has_error: true, value: None, error: Some(RustString::from(e)) },
        }
    }
}

impl<T> FromSpecImpl<FFIResult<T>> for Result<T, String> {
    open spec fn obeys_from_spec() -> bool {
        true
    }

    open spec fn from_spec(ffi: FFIResult<T>) -> Self {
        ffi.result()
    }
}

impl<T> From<FFIResult<T>> for Result<T, String> {
    /// Looks at the flag, then reads the member that it names.
    fn from(ffi: FFIResult<T>) -> (r: Self)
        ensures
            r == ffi.result(),
    {
        proof {
            use_type_invariant(&ffi);
        }
        if ffi.has_error {
            match ffi.error {
                Some(e) => Err(String::from(e)),
                None => vstd::pervasive::unreached(),
            }
        } else {
            match ffi.value {
                Some(v) => Ok(v),
                None => vstd::pervasive::unreached(),
            }
        }
    }
}

} // verus!
