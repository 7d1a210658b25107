//! Container encodings: owning buffers, borrowed views and the optional slot.
//!
//! An owning buffer takes the native buffer by move and hands the very same
//! buffer back, so a value crosses the boundary without its storage being copied.

pub mod closure;
pub mod contact;
pub mod error;
pub mod event;
pub mod future;
pub mod managed;
pub mod message;
pub mod plugin;

use vstd::prelude::*;
use vstd::std_specs::convert::FromSpecImpl;

verus! {

/// Address of an object that lives on the other side of the boundary.
/// Zero is the nil address.
pub type Handle = usize;

/// Owning string buffer. The nil buffer owns no storage and has length zero.
pub struct RustString {
    pub null: bool,
    pub buf: String,
}

impl View for RustString {
    type V = Seq<char>;

    open spec fn view(&self) -> Seq<char> {
        self.buf@
    }
}

impl RustString {
    /// A nil buffer holds no characters.
    pub open spec fn wf(&self) -> bool {
        self.null ==> self.buf@.len() == 0
    }

    /// The buffer that owns the storage of `s`.
    pub open spec fn encoded(s: String) -> Self {
        RustString { null: false, buf: s }
    }

    /// The native string that this buffer gives back.
    pub open spec fn decoded(self) -> String {
        self.buf
    }

    pub fn null() -> (r: Self)
        ensures
            r.null,
            r@ == Seq::<char>::empty(),
            r.wf(),
    {
        RustString { null: true, buf: String::new() }
    }

    pub fn is_null(&self) -> (r: bool)
        ensures
            r == self.null,
    {
        self.null
    }

    pub fn as_str(&self) -> (r: &str)
        ensures
            r@ == self@,
    {
        self.buf.as_str()
    }

    /// A fresh native string with the same characters; the buffer stays owned here.
    pub fn to_string(&self) -> (r: String)
        ensures
            r@ == self@,
    {
        self.buf.clone()
    }
}

impl FromSpecImpl<String> for RustString {
    open spec fn obeys_from_spec() -> bool {
        true
    }

    open spec fn from_spec(s: String) -> Self {
        RustString::encoded(s)
    }
}

impl From<String> for RustString {
    /// Takes over the buffer of `s`.
    fn from(s: String) -> (r: Self)
        ensures
            r == RustString::encoded(s),
    {
        RustString { null: false, buf: s }
    }
}

impl FromSpecImpl<RustString> for String {
    open spec fn obeys_from_spec() -> bool {
        true
    }

    open spec fn from_spec(s: RustString) -> Self {
        s.decoded()
    }
}

impl From<RustString> for String {
    /// Gives the buffer back as a native string.
    fn from(s: RustString) -> (r: Self)
        ensures
            r == s.decoded(),
    {
        s.buf
    }
}

impl AsRef<str> for RustString {
    fn as_ref(&self) -> (r: &str)
        ensures
            r@ == self@,
    {
        self.buf.as_str()
    }
}

/// Borrowed string view, valid while its owner lives.
pub struct RustStr<'a> {
    pub slice: &'a str,
}

impl<'a> View for RustStr<'a> {
    type V = Seq<char>;

    open spec fn view(&self) -> Seq<char> {
        self.slice@
    }
}

impl<'a> RustStr<'a> {
    pub fn as_str(&self) -> (r: &'a str)
        ensures
            r@ == self@,
    {
        self.slice
    }

    pub fn to_string(&self) -> (r: String)
        ensures
            r@ == self@,
    {
        self.slice.to_owned()
    }
}

impl<'a> FromSpecImpl<&'a str> for RustStr<'a> {
    open spec fn obeys_from_spec() -> bool {
        true
    }

    open spec fn from_spec(s: &'a str) -> Self {
        RustStr { slice: s }
    }
}

impl<'a> From<&'a str> for RustStr<'a> {
    fn from(s: &'a str) -> (r: Self)
        ensures
            r@ == s@,
    {
        RustStr { slice: s }
    }
}

impl<'a> AsRef<str> for RustStr<'a> {
    fn as_ref(&self) -> (r: &str)
        ensures
            r@ == self@,
    {
        self.slice
    }
}

/// Owning element buffer.
pub struct RustVec<T> {
    pub buf: Vec<T>,
}

impl<T> View for RustVec<T> {
    type V = Seq<T>;

    open spec fn view(&self) -> Seq<T> {
        self.buf@
    }
}

impl<T> RustVec<T> {
    /// The buffer that owns the storage of `v`.
    pub open spec fn encoded(v: Vec<T>) -> Self {
        RustVec { buf: v }
    }

    /// The native vector that this buffer gives back.
    pub open spec fn decoded(self) -> Vec<T> {
        self.buf
    }

    /// Gives the buffer back as a native vector.
    pub fn into_vec(self) -> (r: Vec<T>)
        ensures
            r == self.decoded(),
    {
        self.buf
    }
}

impl<T> FromSpecImpl<Vec<T>> for RustVec<T> {
    open spec fn obeys_from_spec() -> bool {
        true
    }

    open spec fn from_spec(v: Vec<T>) -> Self {
        RustVec::encoded(v)
    }
}

impl<T> From<Vec<T>> for RustVec<T> {
    /// Takes over the buffer of `v`.
    fn from(v: Vec<T>) -> (r: Self)
        ensures
            r == RustVec::encoded(v),
    {
        RustVec { buf: v }
    }
}

/// Borrowed element view, valid while its owner lives.
pub struct RustSlice<'a, T> {
    pub slice: &'a [T],
}

impl<'a, T> View for RustSlice<'a, T> {
    type V = Seq<T>;

    open spec fn view(&self) -> Seq<T> {
        self.slice@
    }
}

impl<'a, T> RustSlice<'a, T> {
    pub fn as_slice(&self) -> (r: &'a [T])
        ensures
            r@ == self@,
    {
        self.slice
    }
}

impl<'a, T> FromSpecImpl<&'a [T]> for RustSlice<'a, T> {
    open spec fn obeys_from_spec() -> bool {
        true
    }

    open spec fn from_spec(s: &'a [T]) -> Self {
        RustSlice { slice: s }
    }
}

impl<'a, T> From<&'a [T]> for RustSlice<'a, T> {
    fn from(s: &'a [T]) -> (r: Self)
        ensures
            r@ == s@,
    {
        RustSlice { slice: s }
    }
}

/// Optional value: a presence flag and a payload slot that is written only
/// when the flag is set.
pub struct FFIOption<T> {
    pub is_some: bool,
    pub value: Option<T>,
}

impl<T> FFIOption<T> {
    /// The slot is filled exactly when the flag is set.
    pub open spec fn wf(&self) -> bool {
        self.is_some <==> self.value is Some
    }

    pub open spec fn encoded(val: Option<T>) -> Self {
        FFIOption { is_some: val is Some, value: val }
    }

    /// What a reader that looks at the flag first gets out.
    pub open spec fn decoded(self) -> Option<T> {
        if self.is_some {
            self.value
        } else {
            None
        }
    }
}

impl<T> FromSpecImpl<Option<T>> for FFIOption<T> {
    open spec fn obeys_from_spec() -> bool {
        true
    }

    open spec fn from_spec(val: Option<T>) -> Self {
        FFIOption::encoded(val)
    }
}

impl<T> From<Option<T>> for FFIOption<T> {
    fn from(val: Option<T>) -> (r: Self)
        ensures
            r == FFIOption::encoded(val),
    {
        match val {
            Some(t) => FFIOption { is_some: true, value: Some(t) },
            None => FFIOption { is_some: false, value: None },
        }
    }
}

impl<T> FromSpecImpl<FFIOption<T>> for Option<T> {
    open spec fn obeys_from_spec() -> bool {
        true
    }

    open spec fn from_spec(ffi: FFIOption<T>) -> Self {
        ffi.decoded()
    }
}

impl<T> From<FFIOption<T>> for Option<T> {
    /// Looks at the flag first; the slot is read only when the flag is set.
    fn from(ffi: FFIOption<T>) -> (r: Self)
        ensures
            r == ffi.decoded(),
    {
        if ffi.is_some {
            ffi.value
        } else {
            None
        }
    }
}

/// An owning string buffer handed across and taken back holds the characters
/// it was given, in the buffer it was given.
pub proof fn lemma_string_round_trip(s: String)
    ensures
        RustString::encoded(s).decoded() == s,
        RustString::encoded(s)@ == s@,
        RustString::encoded(s).wf(),
{
}

/// An owning element buffer handed across and taken back is the vector it was
/// given, element for element.
pub proof fn lemma_vec_round_trip<T>(v: Vec<T>)
    ensures
        RustVec::<T>::encoded(v).decoded() == v,
        RustVec::<T>::encoded(v)@ == v@,
{
}

/// Encoding then decoding an optional value gives the value back, present or
/// absent; decoding an unset flag gives absent whatever the slot holds.
pub proof fn lemma_option_round_trip<T>(val: Option<T>)
    ensures
        FFIOption::<T>::encoded(val).decoded() == val,
        FFIOption::<T>::encoded(val).wf(),
        forall|ffi: FFIOption<T>| !ffi.is_some ==> (#[trigger] ffi.decoded()) is None,
{
}

} // verus!
