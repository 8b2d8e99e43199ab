//! Byte strings (`bstr::BStr`): every byte sequence is a value; text conversions go through the
//! `bstr` crate.

use vstd::prelude::*;
use vstd::string::StringSliceAdditionalSpecFns;
use vstd::utf8::{encode_utf8, valid_utf8};

use bstr::ByteSlice;

use std::rc::Rc;
use std::sync::Arc;

use crate::custom::STRING_SIZED_INLINE;
use crate::inner::FlexStrInner;
use crate::storage::{Storage, StorageType, WrongStorageType};
use crate::traits::{FlexStrCore, FlexStrCoreInner};
use crate::string::Str;

verus! {

/// Marker for the byte string kind (`bstr::BStr`)
pub struct BStrBytes;

/// Calls `bstr::ByteSlice::to_str`, which validates the bytes and returns them as a `str` exactly
/// when they are UTF-8. Its error is converted into its two documented fields, `valid_up_to` and
/// `error_len`. The documentation promises that the bytes before `valid_up_to` are valid UTF-8
/// (slicing there and converting again never fails) and bounds a reported length to between one
/// and three bytes; that no longer prefix is valid is not stated.
#[verifier::external_body]
fn bstr_to_str(b: &[u8]) -> (r: Result<&str, (usize, Option<usize>)>)
    ensures
        r is Ok <==> valid_utf8(b@),
        r matches Ok(s) ==> s.spec_bytes() == b@,
        r matches Err((v, _)) ==> v <= b@.len() && valid_utf8(b@.take(v as int)),
        r matches Err((_, Some(n))) ==> 1 <= n <= 3,
        r matches Err((v, l)) ==> crate::string::utf8_error_details(b@, v, l),
{
    match b.to_str() {
        Ok(s) => Ok(s),
        Err(e) => Err((e.valid_up_to(), e.error_len())),
    }
}

/// The text that `bstr::ByteSlice::to_str_lossy` makes of the given bytes
pub uninterp spec fn bstr_lossy(bytes: Seq<u8>) -> Seq<char>;

/// Calls `bstr::ByteSlice::to_str_lossy` and takes ownership of its result. Valid UTF-8 comes
/// back unchanged (the source returns it borrowed as is); the maximal-subpart `U+FFFD`
/// replacement otherwise is left to [bstr_lossy].
#[verifier::external_body]
fn bstr_to_string_lossy(b: &[u8]) -> (r: String)
    ensures
        r@ == bstr_lossy(b@),
        valid_utf8(b@) ==> encode_utf8(r@) == b@,
{
    b.to_str_lossy().into_owned()
}

impl Str for BStrBytes {
    type StringType = Vec<u8>;
    type ConvertError = core::convert::Infallible;

    open spec fn valid_data(bytes: Seq<u8>) -> bool {
        true
    }

    open spec fn empty_data() -> Seq<u8> {
        Seq::empty()
    }

    open spec fn text_data(bytes: Seq<u8>) -> Seq<u8> {
        bytes
    }

    open spec fn string_type_data(s: Vec<u8>) -> Seq<u8> {
        s@
    }

    proof fn lemma_empty_valid() {
    }

    fn try_from_raw_data(bytes: &[u8]) -> (r: Result<&[u8], core::convert::Infallible>) {
        Ok(bytes)
    }

    fn empty(bytes: &[u8]) -> (r: Option<&'static [u8]>) {
        if bytes.len() == 0 {
            let e: &'static [u8] = &[];
            assert(bytes@ =~= Seq::<u8>::empty());
            Some(e)
        } else {
            None
        }
    }

    fn length(bytes: &[u8]) -> (r: usize) {
        bytes.len()
    }

    fn to_string_type(bytes: &[u8]) -> (r: Vec<u8>) {
        vstd::slice::slice_to_vec(bytes)
    }

    open spec fn lossy_text(bytes: Seq<u8>) -> Seq<char> {
        bstr_lossy(bytes)
    }

    fn to_string_lossy(bytes: &[u8]) -> (r: String) {
        bstr_to_string_lossy(bytes)
    }

    /// Non-UTF-8 text is reported with the details `bstr` gives, which are those documented for
    /// UTF-8 errors
    open spec fn reports_utf8_error(bytes: Seq<u8>, e: crate::string::Utf8Error) -> bool {
        crate::string::utf8_error_reported(bytes, e)
    }

    fn try_to_str(bytes: &[u8]) -> (r: Result<&str, crate::string::Utf8Error>) {
        match bstr_to_str(bytes) {
            Ok(s) => Ok(s),
            Err((valid_up_to, error_len)) => Err(
                crate::string::Utf8Error::WithData { valid_up_to, error_len },
            ),
        }
    }
}

} // verus!

verus! {

/// A flexible byte string that transparently wraps a string literal, an inline string, a heap
/// value, or a borrowed string (with appropriate lifetime)
pub struct FlexBStr<'a, const SIZE: usize, HEAP: Storage + 'static>(
    pub(crate) FlexStrInner<'a, SIZE, HEAP, BStrBytes>,
);

/// A FlexBStr using `Rc` heap storage and the same inline capacity as a `String`
pub type LocalBStr<'a> = FlexBStr<'a, STRING_SIZED_INLINE, Rc<Vec<u8>>>;

/// A FlexBStr using `Arc` heap storage and the same inline capacity as a `String`
pub type SharedBStr<'a> = FlexBStr<'a, STRING_SIZED_INLINE, Arc<Vec<u8>>>;

/// A FlexBStr using `Box` heap storage and the same inline capacity as a `String`
pub type BoxedBStr<'a> = FlexBStr<'a, STRING_SIZED_INLINE, Box<Vec<u8>>>;

impl<'a, const SIZE: usize, HEAP: Storage + 'static> View for FlexBStr<'a, SIZE, HEAP> {
    type V = Seq<u8>;

    /// The string's raw bytes
    closed spec fn view(&self) -> Seq<u8> {
        self.0@
    }
}

impl<'a, const SIZE: usize, HEAP: Storage + 'static> FlexBStr<'a, SIZE, HEAP> {
    /// The storage type this string uses
    pub closed spec fn storage_type(self) -> StorageType {
        self.0.storage_type()
    }

    /// The view and storage type are those of the wrapped base string
    pub proof fn lemma_inner(&self)
        ensures
            self@ == self.spec_inner()@,
            self.storage_type() == self.spec_inner().storage_type(),
    {
    }

    /// Creates a wrapped static string literal
    pub fn from_static(s: &'static [u8]) -> (r: Self)
        requires
            FlexStrInner::<'a, SIZE, HEAP, BStrBytes>::valid_sizes(),
        ensures
            r@ == s@,
            r.storage_type() == StorageType::Static,
    {
        FlexBStr(FlexStrInner::from_static(s))
    }

    /// Creates a new string from a string reference. If the string is empty, the static empty
    /// string is returned. If at or under the inline length limit, an inline string is returned.
    /// Otherwise, a heap based string is allocated and returned.
    pub fn from_ref(s: &[u8]) -> (r: Self)
        requires
            FlexStrInner::<'a, SIZE, HEAP, BStrBytes>::valid_sizes(),
        ensures
            r@ == s@,
            r.storage_type() == FlexStrInner::<'a, SIZE, HEAP, BStrBytes>::from_ref_storage(s@),
    {
        FlexBStr(FlexStrInner::from_ref(s))
    }

    /// Wraps a borrowed string
    pub fn from_borrow(s: &'a [u8]) -> (r: Self)
        requires
            FlexStrInner::<'a, SIZE, HEAP, BStrBytes>::valid_sizes(),
        ensures
            r@ == s@,
            r.storage_type() == StorageType::Borrow,
    {
        FlexBStr(FlexStrInner::from_borrow(s))
    }

    /// Attempts to create an inlined string. Returns the source as the error when it is too long
    /// to be inlined.
    pub fn try_inline<'b>(s: &'b [u8]) -> (r: Result<Self, &'b [u8]>)
        requires
            FlexStrInner::<'a, SIZE, HEAP, BStrBytes>::valid_sizes(),
        ensures
            r is Ok <==> s@.len() <= SIZE,
            r matches Ok(f) ==> f@ == s@ && f.storage_type() == StorageType::Inline,
            r matches Err(e) ==> e == s,
    {
        match FlexStrInner::try_inline(s) {
            Ok(i) => Ok(FlexBStr(i)),
            Err(e) => Err(e),
        }
    }

    /// Copies a string into new heap storage
    pub fn from_ref_heap(s: &[u8]) -> (r: Self)
        requires
            FlexStrInner::<'a, SIZE, HEAP, BStrBytes>::valid_sizes(),
        ensures
            r@ == s@,
            r.storage_type() == StorageType::Heap,
    {
        FlexBStr(FlexStrInner::from_ref_heap(s))
    }

    /// Wraps an existing heap value
    pub fn from_heap(t: HEAP) -> (r: Self)
        requires
            FlexStrInner::<'a, SIZE, HEAP, BStrBytes>::valid_sizes(),
        ensures
            r@ == t.heap_data(),
            r.storage_type() == StorageType::Heap,
    {
        FlexBStr(FlexStrInner::from_heap(t))
    }

    /// Extracts the string's raw bytes
    pub fn as_str_type(&self) -> (r: &[u8])
        ensures
            r@ == self@,
    {
        self.0.as_str_type()
    }

    /// Extracts the wrapped string literal, or reports the storage type found instead
    pub fn try_as_static_str(&self) -> (r: Result<&'static [u8], WrongStorageType>)
        ensures
            r is Ok <==> self.storage_type() == StorageType::Static,
            r matches Ok(s) ==> s@ == self@,
            r matches Err(e) ==> e == (WrongStorageType {
                expected: StorageType::Static,
                actual: self.storage_type(),
            }),
    {
        self.0.try_as_static_str()
    }
}

impl<'a, const SIZE: usize, HEAP: Storage + 'static> Clone for FlexBStr<'a, SIZE, HEAP> {
    /// Clones the string, keeping its contents and storage type
    fn clone(&self) -> (r: Self)
        ensures
            r@ == self@,
            r.storage_type() == self.storage_type(),
    {
        FlexBStr(self.0.clone())
    }
}

impl<'a, const SIZE: usize, HEAP: Storage + 'static> FlexStrCoreInner<
    'a,
    SIZE,
    HEAP,
    BStrBytes,
> for FlexBStr<'a, SIZE, HEAP> {
    closed spec fn spec_inner(&self) -> FlexStrInner<'a, SIZE, HEAP, BStrBytes> {
        self.0
    }

    fn inner(&self) -> (r: &FlexStrInner<'a, SIZE, HEAP, BStrBytes>) {
        &self.0
    }
}

impl<'a, const SIZE: usize, HEAP: Storage + 'static> FlexStrCore<'a, SIZE, HEAP, BStrBytes> for FlexBStr<
    'a,
    SIZE,
    HEAP,
> {

}


impl<'a, const SIZE: usize, HEAP: Storage + 'static> FlexBStr<'a, SIZE, HEAP> {
    /// Creates a wrapped static string literal from a raw byte slice
    pub fn from_static_raw(s: &'static [u8]) -> (r: Self)
        requires
            FlexStrInner::<'a, SIZE, HEAP, BStrBytes>::valid_sizes(),
        ensures
            r@ == s@,
            r.storage_type() == StorageType::Static,
    {
        Self::from_static(s)
    }
}

} // verus!
