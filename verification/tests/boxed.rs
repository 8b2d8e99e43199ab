use flexstr::boxed::{Boxed, OwnedOpsMut, OwnedToFromBoxed};
use flexstr::small_box::{LengthCapacity, LengthCapacity16, LengthCapacity24, LengthCapacity48, SmallBox};
use flexstr::string::std_str::TextStr;

#[test]
fn boxed_string_push_str_appends() {
    let mut b: Boxed<String> = Boxed::new(String::from("hello"));
    b.push_str(" world");
    let mut c = b.clone();
    c.push_str("!");
    let mut out = String::new();
    b.with_mut_str(|s: &mut String| out = s.clone());
    assert_eq!(out, "hello world");
    c.with_mut_str(|s: &mut String| out = s.clone());
    assert_eq!(out, "hello world!");
}

#[test]
fn boxed_bytes_with_mut_str_mutates() {
    let mut b: Boxed<Vec<u8>> = Boxed::new(vec![1u8, 2]);
    b.with_mut_str(|v: &mut Vec<u8>| v.push(3));
    b.push_str(&[4u8, 5][..]);
    let mut out = Vec::new();
    b.with_mut_str(|v: &mut Vec<u8>| out = v.clone());
    assert_eq!(out, vec![1u8, 2, 3, 4, 5]);
}

#[test]
fn owned_to_from_boxed_round_trip() {
    let mut boxed = String::from("round trip").into_boxed();
    let copy = String::clone_boxed(&boxed);
    let back = String::from_boxed(&mut boxed);
    assert_eq!(back, "round trip");
    assert_eq!(boxed.len(), 0);
    assert_eq!(copy.len(), 10);
    assert_eq!(copy.cap(), 10);
    assert_eq!(copy.ptr(), b"round trip");
}

#[test]
fn owned_ops_push() {
    let mut s = String::from("a");
    OwnedOpsMut::<str>::push_str(&mut s, "bc");
    assert_eq!(s, "abc");
    let mut v = vec![1u8];
    OwnedOpsMut::<[u8]>::push_str(&mut v, &[2u8, 3]);
    assert_eq!(v, vec![1u8, 2, 3]);
}

#[test]
fn small_box_new_and_take() {
    let mut b: SmallBox<TextStr> = SmallBox::new(b"xyz".to_vec());
    assert_eq!(b.len(), 3);
    assert_eq!(b.take(), b"xyz".to_vec());
    assert_eq!(b.len(), 0);
    let e: SmallBox<TextStr> = SmallBox::empty();
    assert_eq!(e.cap(), 0);
}

#[test]
fn length_capacity_round_trips() {
    let lc = LengthCapacity::new(5, 10);
    assert_eq!(lc.len(), 5);
    assert_eq!(lc.cap(), 10);
    let lc = LengthCapacity::new(0x1_0000_0005, 0xffff_ffff);
    assert_eq!(lc.len(), 5);
    assert_eq!(lc.cap(), 0xffff_ffff);
}

#[test]
fn length_capacity16_round_trips() {
    let lc = LengthCapacity16::new(0x1_0002, 0xffff);
    assert_eq!(lc.len(), 2);
    assert_eq!(lc.cap(), 0xffff);
}

#[test]
fn length_capacity24_splits_and_rejoins() {
    let lc = LengthCapacity24::new(0x12_3456, 0xff_ffff);
    assert_eq!(lc.len(), 0x12_3456);
    assert_eq!(lc.cap(), 0xff_ffff);
    let lc = LengthCapacity24::new(0x100_0001, 0);
    assert_eq!(lc.len(), 1);
}

#[test]
fn length_capacity48_splits_and_rejoins() {
    let lc = LengthCapacity48::new(0x1234_5678_9abc, 0xffff_ffff_ffff);
    assert_eq!(lc.len(), 0x1234_5678_9abc);
    assert_eq!(lc.cap(), 0xffff_ffff_ffff);
    let lc = LengthCapacity48::new(0x1_0000_0000_0007, 1);
    assert_eq!(lc.len(), 7);
    assert_eq!(lc.cap(), 1);
}

#[test]
fn small_box_records_capacity() {
    let mut v: Vec<u8> = Vec::with_capacity(16);
    v.extend_from_slice(b"abc");
    let b: SmallBox<TextStr> = SmallBox::new(v);
    assert_eq!(b.len(), 3);
    assert!(b.cap() >= 16);
}

#[test]
fn string_round_trip_through_box_keeps_buffer() {
    let mut s = String::with_capacity(64);
    s.push_str("abc");
    let mut boxed = s.into_boxed();
    assert_eq!(boxed.len(), 3);
    assert!(boxed.cap() >= 64);
    let back = String::from_boxed(&mut boxed);
    assert_eq!(back, "abc");
    assert!(back.capacity() >= 64);
}
