use atri_plugin::abi::error::FFIResult;
use atri_plugin::abi::{FFIOption, RustSlice, RustStr, RustString, RustVec};

#[test]
fn vec() {
    let v = vec![1, 1, 4, 5, 1, 4];
    let raw = RustVec::from(v);
    let v = raw.into_vec();

    assert_eq!(v, [1, 1, 4, 5, 1, 4]);
}

#[test]
fn string() {
    let s = String::from("114514");
    let raw = RustString::from(s);
    let s = String::from(raw);

    assert_eq!(s, "114514");

    let slice = &s[1..];
    let raw = RustStr::from(slice);
    let slice = raw.as_ref();

    assert_eq!(slice, "14514");
}

#[test]
fn string_buffer_is_not_copied() {
    let s = String::from("no copy, please");
    let before = s.as_ptr();
    let capacity = s.capacity();
    let raw = RustString::from(s);
    assert!(!raw.is_null());
    let back = String::from(raw);
    assert_eq!(back.as_ptr(), before);
    assert_eq!(back.capacity(), capacity);
    assert_eq!(back, "no copy, please");
}

#[test]
fn vec_buffer_is_not_copied() {
    let v: Vec<u8> = vec![0, 255, 7, 7, 13];
    let before = v.as_ptr();
    let raw = RustVec::from(v);
    let back = raw.into_vec();
    assert_eq!(back.as_ptr(), before);
    assert_eq!(back, vec![0u8, 255, 7, 7, 13]);
}

#[test]
fn empty_buffers_round_trip() {
    let raw = RustString::from(String::new());
    assert!(!raw.is_null());
    assert_eq!(String::from(raw), "");
    let raw: RustVec<u8> = RustVec::from(Vec::new());
    assert!(raw.into_vec().is_empty());
}

#[test]
fn null_string() {
    let raw = RustString::null();
    assert!(raw.is_null());
    assert_eq!(raw.as_str(), "");
    assert_eq!(raw.to_string(), "");
}

#[test]
fn string_views() {
    let raw = RustString::from(String::from("héllo"));
    assert_eq!(raw.as_str(), "héllo");
    assert_eq!(raw.as_ref(), "héllo");
    assert_eq!(raw.to_string(), "héllo");
    let owner = String::from("borrowed");
    let view = RustStr::from(owner.as_str());
    assert_eq!(view.as_str(), "borrowed");
    assert_eq!(view.to_string(), "borrowed");
}

#[test]
fn slice_view() {
    let owner = vec![3u16, 1, 2];
    let view = RustSlice::from(owner.as_slice());
    assert_eq!(view.as_slice(), &[3u16, 1, 2]);
    assert_eq!(view.as_slice().as_ptr(), owner.as_ptr());
}

#[test]
fn optional_round_trip() {
    let some = FFIOption::from(Some(7u32));
    assert!(some.is_some);
    assert_eq!(Option::from(some), Some(7u32));
    let none = FFIOption::<u32>::from(None);
    assert!(!none.is_some);
    assert_eq!(Option::<u32>::from(none), None);
}

#[test]
fn optional_slot_is_not_read_when_flag_is_clear() {
    let stale = FFIOption { is_some: false, value: Some(99u32) };
    assert_eq!(Option::<u32>::from(stale), None);
}

#[test]
fn outcome_round_trip() {
    let ok: FFIResult<u32> = FFIResult::from(Ok(5));
    assert!(!ok.is_error());
    assert_eq!(Result::from(ok), Ok(5));
    let err: FFIResult<u32> = FFIResult::from(Err(String::from("boom")));
    assert!(err.is_error());
    assert_eq!(Result::<u32, String>::from(err), Err(String::from("boom")));
}
