use flexstr::custom::{Pad, TwoWordHeapStringSize, PTR_SIZED_PAD, STRING_SIZED_INLINE};
use flexstr::storage::{InlineStr, StaticStr, StorageType, WrongStorageType};
use flexstr::string::c_str::{CStrNulError, CStrNullError};
use flexstr::string::b_str::LocalBStr;
use flexstr::support::{InteriorNulError, StringFromBytesMut, StringToFromBytes};
use flexstr::{FlexStrCore, Utf8Error};

#[test]
fn str_bytes_round_trip() {
    let s: &str = <str as StringToFromBytes>::bytes_as_self(b"hi");
    assert_eq!(s, "hi");
    assert_eq!(s.self_as_bytes(), b"hi");
    assert_eq!(s.self_as_raw_bytes(), b"hi");
    let b: &[u8] = <[u8] as StringToFromBytes>::bytes_as_self(&[1u8, 2]);
    assert_eq!(b.self_as_raw_bytes(), &[1u8, 2]);
    let mut raw = [1u8, 2, 3];
    let m = <[u8] as StringFromBytesMut>::bytes_as_self_mut(&mut raw);
    m[0] = 9;
    assert_eq!(raw, [9u8, 2, 3]);
}

#[test]
fn interior_nul_error_holds_position() {
    let e = InteriorNulError { position: 4 };
    assert_eq!(e.position, 4);
}

#[test]
fn inline_str_copies_up_to_capacity() {
    let i = InlineStr::<4>::try_new(b"abcd").ok().unwrap();
    assert_eq!(i.len(), 4);
    assert_eq!(i.as_str_type(), b"abcd");
    assert_eq!(i.storage(), StorageType::Inline);
    assert!(matches!(i.marker, StorageType::Inline));
    assert_eq!(InlineStr::<4>::capacity(), 4);
    assert!(InlineStr::<4>::try_new(b"abcde").is_err());
    assert!(InlineStr::<255>::variant_size_is_valid());
    assert!(!InlineStr::<256>::variant_size_is_valid());
}

#[test]
fn static_str_wraps_literal() {
    let s = StaticStr::from_static("lit");
    assert_eq!(s.literal, "lit");
    assert_eq!(s.marker, StorageType::Static);
}

#[test]
fn pad_and_sizes() {
    let _p: Pad<PTR_SIZED_PAD> = Pad::default();
    let _t = TwoWordHeapStringSize;
    assert_eq!(STRING_SIZED_INLINE, 22);
}

#[test]
fn bstr_try_to_str_reports_error_details() {
    let s = LocalBStr::from_ref(b"foobar\xF1\x80\x80quux");
    assert_eq!(
        s.try_to_str().unwrap_err(),
        Utf8Error::WithData { valid_up_to: 6, error_len: Some(3) }
    );
    assert_eq!(LocalBStr::from_ref(b"ok").try_to_str().unwrap(), "ok");
}

#[test]
fn bstr_to_string_lossy_uses_maximal_subparts() {
    let s = LocalBStr::from_ref(b"\x61\xF1\x80\x80\xE1\x80\xC2\x62");
    assert_eq!(s.to_string_lossy(), "a\u{FFFD}\u{FFFD}\u{FFFD}b");
    let st = LocalBStr::from_static_raw(b"static bytes");
    assert!(st.is_static());
}

#[test]
fn error_messages() {
    let e = WrongStorageType { expected: StorageType::Static, actual: StorageType::Heap };
    assert_eq!(
        e.message(),
        "The FlexStr did not use the storage type expected (expected: Static, actual: Heap)"
    );
    assert_eq!(
        Utf8Error::WithData { valid_up_to: 12, error_len: Some(1) }.message(),
        "The source string was not UTF-8. It is valid up to position 12"
    );
    assert_eq!(
        Utf8Error::Unknown.message(),
        "The source string was not UTF-8. No further information is available"
    );
    assert_eq!(
        CStrNulError::InteriorNulByte(3).message(),
        "The byte slice had an interior null byte (Pos: 3)"
    );
    assert_eq!(CStrNulError::NoNulByteFound.message(), "The byte slice had no trailing null byte");
    assert_eq!(
        CStrNullError::InteriorNullByte(0).message(),
        "The byte slice had an interior null byte (Pos: 0)"
    );
    assert_eq!(
        InteriorNulError { position: 105 }.message(),
        "Interior NUL byte found at position 105"
    );
}
