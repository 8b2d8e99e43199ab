use flexstr::string::c_str::{try_from_raw, CStrNulError, CStrNullError, LocalCStr};
use flexstr::FlexStrCore;
use flexstr::Utf8Error;

#[test]
fn c_str_try_from_static_raw_is_static() {
    let s = LocalCStr::try_from_static_raw(b"This is a valid CStr\0").unwrap();
    assert!(s.is_static());
    assert_eq!(s.len(), 21);
}

#[test]
fn c_str_without_nul_is_rejected() {
    assert_eq!(try_from_raw(b"abc"), Err(CStrNulError::NoNulByteFound));
    assert_eq!(try_from_raw(b""), Err(CStrNulError::NoNulByteFound));
    assert!(matches!(
        LocalCStr::try_from_static_raw(b"abc"),
        Err(CStrNulError::NoNulByteFound)
    ));
}

#[test]
fn c_str_interior_nul_reports_first_position() {
    assert_eq!(try_from_raw(b"a\0b\0"), Err(CStrNulError::InteriorNulByte(1)));
    assert_eq!(try_from_raw(b"\0\0"), Err(CStrNulError::InteriorNulByte(0)));
    assert_eq!(try_from_raw(b"ab\0c"), Err(CStrNulError::InteriorNulByte(2)));
}

#[test]
fn c_str_valid_is_returned_unchanged() {
    assert_eq!(try_from_raw(b"abc\0"), Ok(&b"abc\0"[..]));
    assert_eq!(try_from_raw(b"\0"), Ok(&b"\0"[..]));
}

#[test]
fn c_str_empty_is_static_and_len_one() {
    let s = LocalCStr::from_ref(b"\0");
    assert!(s.is_static());
    assert!(s.is_empty());
    assert_eq!(s.len(), 1);
    let t = LocalCStr::from_ref(b"a\0");
    assert!(t.is_inline());
    assert!(!t.is_empty());
}

#[test]
fn c_str_text_conversions_drop_terminator() {
    let s = LocalCStr::from_ref(b"hello\0");
    assert_eq!(s.try_to_str().unwrap(), "hello");
    assert_eq!(s.to_string_lossy(), "hello");
    assert_eq!(s.to_string_type(), b"hello\0".to_vec());
    let bad = LocalCStr::from_ref(b"h\xffi\0");
    assert_eq!(
        bad.try_to_str().unwrap_err(),
        Utf8Error::WithData { valid_up_to: 1, error_len: Some(1) }
    );
    assert_eq!(bad.to_string_lossy(), "h\u{FFFD}i");
}

#[test]
fn c_str_null_error_converts_variantwise() {
    assert_eq!(
        CStrNullError::from_nul_error(CStrNulError::NoNulByteFound),
        CStrNullError::NoNullByteFound
    );
    assert_eq!(
        CStrNullError::from_nul_error(CStrNulError::InteriorNulByte(3)),
        CStrNullError::InteriorNullByte(3)
    );
}
