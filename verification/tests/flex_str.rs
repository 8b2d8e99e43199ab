use std::hash::{Hash, Hasher};
use flexstr::storage::{StorageType, WrongStorageType};
use flexstr::string::raw_str::LocalRawStr;
use flexstr::{FlexStrCore, LocalStr, SharedStr, BoxedStr, Utf8Error};

#[test]
fn try_as_static_str_returns_literal() {
    let s = "abc";
    let s2 = LocalStr::from_static("abc");
    assert_eq!(s2.try_as_static_str().unwrap(), s);
}

#[test]
fn try_as_static_str_reports_actual_storage() {
    let s = LocalStr::from_ref("abc");
    let err = s.try_as_static_str().unwrap_err();
    assert_eq!(
        err,
        WrongStorageType { expected: StorageType::Static, actual: StorageType::Inline }
    );
    let h = LocalStr::from_ref_heap("abc");
    assert_eq!(h.try_as_static_str().unwrap_err().actual, StorageType::Heap);
    let b = LocalStr::from_borrow("abc");
    assert_eq!(b.try_as_static_str().unwrap_err().actual, StorageType::Borrow);
}

#[test]
fn as_str_type_returns_contents() {
    let s = LocalStr::from_ref("abc");
    assert_eq!(s.as_str_type(), "abc");
}

#[test]
fn to_string_type_copies_contents() {
    let s = LocalStr::from_ref("abc");
    assert_eq!(s.to_string_type(), "abc");
}

#[test]
fn try_to_str_of_text_succeeds() {
    let s = LocalStr::from_ref("abc");
    assert_eq!(s.try_to_str().unwrap(), "abc");
}

#[test]
fn try_to_string_of_text_succeeds() {
    let s = LocalStr::from_ref("abc").try_to_string().unwrap();
    assert_eq!(s, "abc");
}

#[test]
fn to_string_lossy_of_text_is_unchanged() {
    let s = LocalStr::from_ref("abc");
    assert_eq!(s.to_string_lossy(), "abc");
}

#[test]
fn empty_static_is_empty() {
    let s = LocalStr::from_static("");
    assert!(s.is_empty());
    assert!(!LocalStr::from_static("a").is_empty());
}

#[test]
fn len_counts_bytes() {
    let s = LocalStr::from_ref("len");
    assert_eq!(s.len(), 3);
    assert_eq!(LocalStr::from_ref("é").len(), 2);
}

#[test]
fn from_static_is_static() {
    let s = LocalStr::from_static("test");
    assert!(s.is_static());
    assert!(!s.is_inline() && !s.is_heap() && !s.is_borrow());
}

#[test]
fn try_inline_short_is_inline() {
    let s = LocalStr::try_inline("test").unwrap();
    assert!(s.is_inline());
}

#[test]
fn try_inline_long_returns_source() {
    let long = "This is too long too be inlined!";
    let r = LocalStr::try_inline(long);
    assert!(matches!(r, Err(x) if x == long));
}

#[test]
fn try_inline_at_capacity_boundary() {
    let exact = "abcdefghijklmnopqrstuv"; // 22 bytes
    assert!(LocalStr::try_inline(exact).is_ok());
    let over = "abcdefghijklmnopqrstuvw"; // 23 bytes
    assert!(LocalStr::try_inline(over).is_err());
}

#[test]
fn from_ref_heap_is_heap() {
    let s = LocalStr::from_ref_heap("test");
    assert!(s.is_heap());
    assert!(s == "test");
}

#[test]
fn from_borrow_is_borrow() {
    let owned = String::from("borrowed text");
    let s = LocalStr::from_borrow(owned.as_str());
    assert!(s.is_borrow());
    assert!(s == "borrowed text");
}

#[test]
fn from_ref_picks_storage() {
    let lit = "inlined";
    let s = LocalStr::from_ref(&lit.to_string());
    assert!(s.is_inline());
    assert!(s == lit);

    let lit = "This is too long too be inlined!";
    let s = LocalStr::from_ref(&lit.to_string());
    assert!(s.is_heap());
    assert!(s == lit);

    let s = LocalStr::from_ref("");
    assert!(s.is_static());
    assert!(s.is_empty());
}

#[test]
fn equality_ignores_heap_type_and_storage() {
    let lit = "inlined";
    let s = LocalStr::from_ref(lit);
    let s2 = SharedStr::from_ref(lit);
    assert!(s == s2);
    let s3 = BoxedStr::from_ref_heap(lit);
    assert!(s == s3);
    assert!(s != LocalStr::from_ref("other"));
}

#[test]
fn clone_keeps_storage() {
    for s in [
        LocalStr::from_static("static"),
        LocalStr::from_ref("inline"),
        LocalStr::from_ref_heap("heap"),
        LocalStr::from_borrow("borrow"),
        LocalStr::from_ref("This is too long too be inlined!"),
    ] {
        let c = s.clone();
        assert!(c == s);
        assert_eq!(c.is_static(), s.is_static());
        assert_eq!(c.is_inline(), s.is_inline());
        assert_eq!(c.is_heap(), s.is_heap());
        assert_eq!(c.is_borrow(), s.is_borrow());
    }
}

#[test]
fn from_char_is_inline() {
    let s = LocalStr::from_char('t');
    assert!(s.is_inline());
    assert!(s == "t");
    let s = LocalStr::from_char('☃');
    assert!(s.is_inline());
    assert_eq!(s.len(), 3);
}

#[test]
fn add_concatenates() {
    let a = LocalStr::from_static("in").add("line");
    assert!(a.is_inline());
    assert!(a == "inline");

    let a = LocalStr::from_ref("in").add("line");
    assert!(a.is_inline());
    assert!(a == "inline");

    let b = LocalStr::from_ref("This is").add(" too long too be inlined!");
    assert!(b.is_heap());
    assert!(b == "This is too long too be inlined!");

    let c = LocalStr::from_static("").add("");
    assert!(c.is_static());
}

#[test]
fn default_is_empty_static() {
    let s: LocalStr = Default::default();
    assert!(s.is_static());
    assert!(s.is_empty());
}

#[test]
fn try_from_static_raw_accepts_utf8() {
    const S: &[u8] = b"test";
    let s = LocalStr::try_from_static_raw(S).unwrap();
    assert!(s.is_static());
    assert!(s == "test");
    assert!(LocalStr::try_from_static_raw(b"\xff").is_err());
}

#[test]
fn deref_gives_str() {
    let s = LocalStr::from_ref("deref");
    let t: &str = &s;
    assert_eq!(t, "deref");
    assert_eq!(s.to_uppercase(), "DEREF");
}

#[test]
fn raw_try_to_str_reports_error_details() {
    let s = LocalRawStr::from_ref(b"a\xffb");
    assert_eq!(
        s.try_to_str().unwrap_err(),
        Utf8Error::WithData { valid_up_to: 1, error_len: Some(1) }
    );
    let ok = LocalRawStr::from_ref(b"ab");
    assert_eq!(ok.try_to_str().unwrap(), "ab");
}

#[test]
fn raw_to_string_lossy_replaces_invalid() {
    let s = LocalRawStr::from_ref(b"a\xffb");
    assert_eq!(s.to_string_lossy(), "a\u{FFFD}b");
}

#[test]
fn raw_from_ref_storage_and_empty() {
    let s = LocalRawStr::from_ref(&[1u8, 2, 3]);
    assert!(s.is_inline());
    assert_eq!(s.as_str_type(), &[1u8, 2, 3]);
    let e = LocalRawStr::from_ref(&[]);
    assert!(e.is_static());
    assert!(e.is_empty());
    let big = [7u8; 40];
    let h = LocalRawStr::from_ref(&big);
    assert!(h.is_heap());
    assert_eq!(h.to_string_type(), big.to_vec());
}

#[test]
fn shared_heap_clone_shares_contents() {
    let s = SharedStr::from_ref("This is too long too be inlined!");
    let c = s.clone();
    assert!(c.is_heap());
    assert_eq!(c.as_str_type(), "This is too long too be inlined!");
}

#[test]
fn ordering_is_bytewise_lexicographic() {
    let abc = LocalStr::from_ref("abc");
    let abd = SharedStr::from_ref("abd");
    let ab = LocalStr::from_static("ab");
    assert!(abc < abd);
    assert!(abd > abc);
    assert!(ab < abc);
    assert_eq!(abc.partial_cmp(&LocalStr::from_ref_heap("abc")), Some(core::cmp::Ordering::Equal));
    let long = BoxedStr::from_ref("This is too long too be inlined!");
    assert!(LocalStr::from_ref("T") < long);
    assert!(LocalStr::from_ref("U") > long);
    assert!(LocalStr::from_ref("") < ab);
    // bytes compare unsigned: a multi-byte character sorts after ASCII
    assert!(LocalStr::from_ref("\u{e9}") > LocalStr::from_ref("z"));
}

#[test]
fn serialization() {
    let a = "test";
    let b = "testing";
    let c = "testing testing testing testing testing testing testing testing testing";

    // Create our values and verify storage
    let ta = LocalStr::from_static(a);
    let tb = SharedStr::from_ref(b);
    let tc = LocalStr::from_ref(c);
    assert!(ta.is_static());
    assert!(tb.is_inline());
    assert!(tc.is_heap());

    // Serialize the text of each and ensure the JSON value matches
    let mut map = serde_json::Map::new();
    map.insert("a".to_string(), serde_json::to_value(ta.as_str_type()).unwrap());
    map.insert("b".to_string(), serde_json::to_value(tb.as_str_type()).unwrap());
    map.insert("c".to_string(), serde_json::to_value(tc.as_str_type()).unwrap());
    let val = serde_json::Value::Object(map);
    let mut expected = serde_json::Map::new();
    expected.insert("a".to_string(), serde_json::Value::String(a.to_string()));
    expected.insert("b".to_string(), serde_json::Value::String(b.to_string()));
    expected.insert("c".to_string(), serde_json::Value::String(c.to_string()));
    assert_eq!(serde_json::Value::Object(expected), val);

    // Deserialize the text and rebuild: storage is picked afresh by `from_ref`
    let ra: String = serde_json::from_value(val["a"].clone()).unwrap();
    let rb: String = serde_json::from_value(val["b"].clone()).unwrap();
    let rc: String = serde_json::from_value(val["c"].clone()).unwrap();
    let ta2 = LocalStr::from_ref(&ra);
    let tb2 = SharedStr::from_ref(&rb);
    let tc2 = LocalStr::from_ref(&rc);
    assert!(ta2.is_inline());
    assert!(tb2.is_inline());
    assert!(tc2.is_heap());

    assert!(ta == ta2);
    assert!(tb == tb2);
    assert!(tc == tc2);
}

#[test]
fn try_from_static_raw_reports_std_error() {
    let e = LocalStr::try_from_static_raw(b"ab\xff").err().unwrap();
    assert_eq!(e, core::str::from_utf8(b"ab\xff").unwrap_err());
    assert_eq!(e.valid_up_to(), 2);
    assert_eq!(e.error_len(), Some(1));
    let e = LocalStr::try_from_static_raw(b"ab\xe2\x82").err().unwrap();
    assert_eq!(e.valid_up_to(), 2);
    assert_eq!(e.error_len(), None);
}

#[test]
fn empty_constants_and_constructors() {
    assert_eq!(flexstr::string::std_str::EMPTY, "");
    let s = LocalStr::empty();
    assert!(s.is_static());
    assert!(s.is_empty());
    assert_eq!(s.len(), 0);
    let r = LocalRawStr::empty();
    assert!(r.is_static());
    assert_eq!(r.as_str_type(), &flexstr::string::raw_str::EMPTY[..]);
    let c = flexstr::string::c_str::LocalCStr::empty();
    assert!(c.is_static());
    assert!(c.is_empty());
    assert_eq!(c.as_str_type(), &flexstr::string::c_str::EMPTY[..]);
}

#[test]
fn conversions_pick_storage_as_from_ref() {
    let a: LocalStr = "short".into();
    assert!(a.is_inline());
    assert_eq!(a.as_str_type(), "short");
    let b: SharedStr = String::from("This is too long too be inlined!").into();
    assert!(b.is_heap());
    assert_eq!(b.as_str_type(), "This is too long too be inlined!");
    let c: BoxedStr = LocalStr::from('\u{e9}').as_str_type().into();
    assert!(c.is_inline());
    assert_eq!(c.as_str_type(), "\u{e9}");
    let d: LocalStr = "".parse().unwrap();
    assert!(d.is_static());
    let e: LocalStr = "parsed".parse().unwrap();
    assert!(e.is_inline());
    assert_eq!(e.as_str_type(), "parsed");
}

#[test]
fn equal_strings_hash_alike() {
    let a = LocalStr::from_ref("same text");
    let b = LocalStr::from_ref_heap("same text");
    let c = LocalStr::from_static("same text");
    let mut ha = std::collections::hash_map::DefaultHasher::new();
    a.hash(&mut ha);
    let mut hb = std::collections::hash_map::DefaultHasher::new();
    b.hash(&mut hb);
    let mut hc = std::collections::hash_map::DefaultHasher::new();
    c.hash(&mut hc);
    let mut hs = std::collections::hash_map::DefaultHasher::new();
    "same text".hash(&mut hs);
    assert_eq!(ha.finish(), hb.finish());
    assert_eq!(ha.finish(), hc.finish());
    assert_eq!(ha.finish(), hs.finish());
}
