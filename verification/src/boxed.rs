//! Owned, mutable strings kept in a compact box.

use core::marker::PhantomData;
use vstd::prelude::*;
use vstd::string::{StringExecFns, StringSliceAdditionalSpecFns};
use vstd::utf8::{encode_utf8, valid_utf8};

use crate::builder::lemma_encode_utf8_concat;
use crate::small_box::{LengthCapacity, SmallBox};
use crate::string::raw_str::RawBytes;
use crate::string::std_str::{lemma_str_valid, TextStr};
use crate::string::Str;

verus! {

/// Conversion between an owned string type and the compact box it is kept in
pub trait OwnedToFromBoxed: Sized {
    /// The box type
    type BoxType;

    /// The raw bytes of an owned string
    spec fn owned_data(&self) -> Seq<u8>;

    /// The raw bytes held by a box
    spec fn boxed_data(boxed: &Self::BoxType) -> Seq<u8>;

    /// Whether a string with these bytes can be boxed (it is not too large)
    spec fn can_box(data: Seq<u8>) -> bool;

    /// Moves an owned string into a box
    fn into_boxed(self) -> (r: Self::BoxType)
        requires
            Self::can_box(self.owned_data()),
        ensures
            Self::boxed_data(&r) == self.owned_data(),
    ;

    /// Takes the string out of a box, leaving it empty
    fn from_boxed(boxed: &mut Self::BoxType) -> (r: Self)
        ensures
            r.owned_data() == Self::boxed_data(old(boxed)),
            Self::boxed_data(final(boxed)) == Seq::<u8>::empty(),
    ;

    /// Creates a new box holding a copy of the boxed string
    fn clone_boxed(boxed: &Self::BoxType) -> (r: Self::BoxType)
        ensures
            Self::boxed_data(&r) == Self::boxed_data(boxed),
    ;
}

/// Appending to an owned string
pub trait OwnedOpsMut<S: ?Sized>: OwnedToFromBoxed {
    /// The raw bytes of a borrowed string that can be appended
    spec fn str_data(s: &S) -> Seq<u8>;

    /// Appends `s`
    fn push_str(&mut self, s: &S)
        ensures
            final(self).owned_data() == old(self).owned_data() + Self::str_data(s),
    ;
}

/// Calls `String::into_bytes`, which documents that it converts the `String` into its UTF-8 byte
/// vector
#[verifier::external_body]
fn string_into_bytes(s: String) -> (r: Vec<u8>)
    ensures
        r@ == encode_utf8(s@),
{
    s.into_bytes()
}

/// Declares the standard library's error for non-UTF-8 bytes given to `String::from_utf8`
#[verifier::external_type_specification]
#[verifier::external_body]
pub struct ExFromUtf8Error(std::string::FromUtf8Error);

/// Calls `String::from_utf8`, which documents that it takes over the vector's buffer as a
/// `String` (without copying) exactly when the bytes are UTF-8
#[verifier::external_body]
fn string_from_utf8(v: Vec<u8>) -> (r: Result<String, std::string::FromUtf8Error>)
    ensures
        r is Ok <==> valid_utf8(v@),
        r matches Ok(s) ==> encode_utf8(s@) == v@,
{
    String::from_utf8(v)
}

impl OwnedToFromBoxed for Vec<u8> {
    type BoxType = SmallBox<RawBytes>;

    open spec fn owned_data(&self) -> Seq<u8> {
        self@
    }

    open spec fn boxed_data(boxed: &SmallBox<RawBytes>) -> Seq<u8> {
        boxed@
    }

    open spec fn can_box(data: Seq<u8>) -> bool {
        data.len() <= LengthCapacity::MAX_CAPACITY
    }

    fn into_boxed(self) -> (r: SmallBox<RawBytes>) {
        SmallBox::new(self)
    }

    fn from_boxed(boxed: &mut SmallBox<RawBytes>) -> (r: Self) {
        boxed.take()
    }

    fn clone_boxed(boxed: &SmallBox<RawBytes>) -> (r: SmallBox<RawBytes>) {
        let v = vstd::slice::slice_to_vec(boxed.ptr());
        SmallBox::new(v)
    }
}

impl OwnedOpsMut<[u8]> for Vec<u8> {
    open spec fn str_data(s: &[u8]) -> Seq<u8> {
        s@
    }

    fn push_str(&mut self, s: &[u8]) {
        let mut i: usize = 0;
        let ghost start = self@;
        while i < s.len()
            invariant
                i <= s@.len(),
                self@ == start + s@.take(i as int),
            decreases s@.len() - i,
        {
            self.push(s[i]);
            proof {
                assert(s@.take(i + 1) =~= s@.take(i as int).push(s@[i as int]));
            }
            i = i + 1;
        }
        assert(s@.take(s@.len() as int) =~= s@);
    }
}

impl OwnedToFromBoxed for String {
    type BoxType = SmallBox<TextStr>;

    open spec fn owned_data(&self) -> Seq<u8> {
        encode_utf8(self@)
    }

    open spec fn boxed_data(boxed: &SmallBox<TextStr>) -> Seq<u8> {
        boxed@
    }

    open spec fn can_box(data: Seq<u8>) -> bool {
        data.len() <= LengthCapacity::MAX_CAPACITY
    }

    fn into_boxed(self) -> (r: SmallBox<TextStr>) {
        proof {
            vstd::utf8::encode_utf8_valid_utf8(self@);
        }
        SmallBox::new(string_into_bytes(self))
    }

    fn from_boxed(boxed: &mut SmallBox<TextStr>) -> (r: Self) {
        proof {
            TextStr::lemma_empty_valid();
        }
        let bytes = boxed.take();
        match string_from_utf8(bytes) {
            Ok(s) => s,
            Err(_) => {
                proof {
                    assert(false);
                }
                String::new()
            },
        }
    }

    fn clone_boxed(boxed: &SmallBox<TextStr>) -> (r: SmallBox<TextStr>) {
        let v = vstd::slice::slice_to_vec(boxed.ptr());
        SmallBox::new(v)
    }
}

impl OwnedOpsMut<str> for String {
    open spec fn str_data(s: &str) -> Seq<u8> {
        s.spec_bytes()
    }

    fn push_str(&mut self, s: &str) {
        let ghost before = self@;
        self.append(s);
        proof {
            lemma_encode_utf8_concat(before, s@);
        }
    }
}


/// An owned string of type `O`, kept in `O`'s compact box and mutated through it
pub struct Boxed<O: OwnedToFromBoxed> {
    inner: O::BoxType,
    owned: PhantomData<O>,
}

impl<O: OwnedToFromBoxed> View for Boxed<O> {
    type V = Seq<u8>;

    /// The string's raw bytes
    closed spec fn view(&self) -> Seq<u8> {
        O::boxed_data(&self.inner)
    }
}

impl<O: OwnedToFromBoxed> Boxed<O> {
    /// Boxes an owned string
    pub fn new(s: O) -> (r: Self)
        requires
            O::can_box(s.owned_data()),
        ensures
            r@ == s.owned_data(),
    {
        Boxed { inner: s.into_boxed(), owned: PhantomData }
    }

    /// Takes the string out of its box, lets `f` mutate it, and boxes the result again. `f`
    /// must leave a string small enough to be boxed.
    pub fn with_mut_str<F>(&mut self, f: F)
        where
            F: FnOnce(&mut O),
        requires
            forall|x: &mut O| (*x).owned_data() == old(self)@ ==> f.requires((x,)),
            forall|x: &mut O|
                (*x).owned_data() == old(self)@ && f.ensures((x,), ()) ==> O::can_box(
                    (*final(x)).owned_data(),
                ),
        ensures
            exists|x: &mut O|
                (*x).owned_data() == old(self)@ && f.ensures((x,), ()) && final(self)@ == (
                *final(x)).owned_data(),
    {
        let mut str: O = O::from_boxed(&mut self.inner);
        f(&mut str);
        self.inner = str.into_boxed();
    }

    /// Appends `s` to the string. The result must be small enough to be boxed.
    pub fn push_str<S: ?Sized>(&mut self, s: &S)
        where
            O: OwnedOpsMut<S>,
        requires
            O::can_box(old(self)@ + O::str_data(s)),
        ensures
            final(self)@ == old(self)@ + O::str_data(s),
    {
        let append = |str: &mut O|
            ensures
                (*final(str)).owned_data() == (*old(str)).owned_data() + O::str_data(s),
            {
                str.push_str(s);
            };
        self.with_mut_str(append);
    }
}

impl<O: OwnedToFromBoxed> Clone for Boxed<O> {
    /// Clones the string into a new box
    fn clone(&self) -> (r: Self)
        ensures
            r@ == self@,
    {
        Boxed { inner: O::clone_boxed(&self.inner), owned: PhantomData }
    }
}

} // verus!
