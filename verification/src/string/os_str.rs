//! Operating system strings (`OsStr`), held as their Unix encoding: arbitrary bytes.

use std::rc::Rc;
use std::sync::Arc;
use vstd::prelude::*;
use vstd::string::StringSliceAdditionalSpecFns;

use crate::custom::STRING_SIZED_INLINE;
use crate::inner::FlexStrInner;
use crate::storage::{Storage, StorageType, WrongStorageType};
use crate::string::{std_utf8_lossy, str_from_utf8, utf8_lossy_string, Str, Utf8Error};
use crate::traits::{FlexStrCore, FlexStrCoreInner};

verus! {

/// Marker for the operating system string (`OsStr`) kind; on Unix its values are arbitrary bytes
pub struct OsStrBytes;

impl Str for OsStrBytes {
    type StringType = Vec<u8>;
    type ConvertError = core::convert::Infallible;

    open spec fn valid_data(bytes: Seq<u8>) -> bool {
        true
    }

    open spec fn empty_data() -> Seq<u8> {
        Seq::empty()
    }

    open spec fn text_data(bytes: Seq<u8>) -> Seq<u8> {
        bytes
    }

    open spec fn string_type_data(s: Vec<u8>) -> Seq<u8> {
        s@
    }

    proof fn lemma_empty_valid() {
    }

    fn try_from_raw_data(bytes: &[u8]) -> (r: Result<&[u8], core::convert::Infallible>) {
        Ok(bytes)
    }

    fn empty(bytes: &[u8]) -> (r: Option<&'static [u8]>) {
        if bytes.len() == 0 {
            let e: &'static [u8] = &[];
            assert(bytes@ =~= Seq::<u8>::empty());
            Some(e)
        } else {
            None
        }
    }

    fn length(bytes: &[u8]) -> (r: usize) {
        bytes.len()
    }

    fn to_string_type(bytes: &[u8]) -> (r: Vec<u8>) {
        vstd::slice::slice_to_vec(bytes)
    }

    open spec fn lossy_text(bytes: Seq<u8>) -> Seq<char> {
        std_utf8_lossy(bytes)
    }

    fn to_string_lossy(bytes: &[u8]) -> (r: String) {
        utf8_lossy_string(bytes)
    }

    /// Non-UTF-8 text is reported as [Utf8Error::Unknown]: this kind carries no error details
    open spec fn reports_utf8_error(bytes: Seq<u8>, e: Utf8Error) -> bool {
        e is Unknown
    }

    fn try_to_str(bytes: &[u8]) -> (r: Result<&str, Utf8Error>) {
        match str_from_utf8(bytes) {
            Ok(s) => Ok(s),
            Err(_) => Err(Utf8Error::Unknown),
        }
    }
}

} // verus!

verus! {

/// A flexible operating system string that transparently wraps a string literal, an inline string, a heap
/// value, or a borrowed string (with appropriate lifetime)
pub struct FlexOsStr<'a, const SIZE: usize, HEAP: Storage + 'static>(
    pub(crate) FlexStrInner<'a, SIZE, HEAP, OsStrBytes>,
);

/// A FlexOsStr using `Rc` heap storage and the same inline capacity as a `String`
pub type LocalOsStr<'a> = FlexOsStr<'a, STRING_SIZED_INLINE, Rc<Vec<u8>>>;

/// A FlexOsStr using `Arc` heap storage and the same inline capacity as a `String`
pub type SharedOsStr<'a> = FlexOsStr<'a, STRING_SIZED_INLINE, Arc<Vec<u8>>>;

/// A FlexOsStr using `Box` heap storage and the same inline capacity as a `String`
pub type BoxedOsStr<'a> = FlexOsStr<'a, STRING_SIZED_INLINE, Box<Vec<u8>>>;

impl<'a, const SIZE: usize, HEAP: Storage + 'static> View for FlexOsStr<'a, SIZE, HEAP> {
    type V = Seq<u8>;

    /// The string's raw bytes
    closed spec fn view(&self) -> Seq<u8> {
        self.0@
    }
}

impl<'a, const SIZE: usize, HEAP: Storage + 'static> FlexOsStr<'a, SIZE, HEAP> {
    /// The storage type this string uses
    pub closed spec fn storage_type(self) -> StorageType {
        self.0.storage_type()
    }

    /// The view and storage type are those of the wrapped base string
    pub proof fn lemma_inner(&self)
        ensures
            self@ == self.spec_inner()@,
            self.storage_type() == self.spec_inner().storage_type(),
    {
    }

    /// Creates a wrapped static string literal
    pub fn from_static(s: &'static [u8]) -> (r: Self)
        requires
            FlexStrInner::<'a, SIZE, HEAP, OsStrBytes>::valid_sizes(),
        ensures
            r@ == s@,
            r.storage_type() == StorageType::Static,
    {
        FlexOsStr(FlexStrInner::from_static(s))
    }

    /// Creates a new string from a string reference. If the string is empty, the static empty
    /// string is returned. If at or under the inline length limit, an inline string is returned.
    /// Otherwise, a heap based string is allocated and returned.
    pub fn from_ref(s: &[u8]) -> (r: Self)
        requires
            FlexStrInner::<'a, SIZE, HEAP, OsStrBytes>::valid_sizes(),
        ensures
            r@ == s@,
            r.storage_type() == FlexStrInner::<'a, SIZE, HEAP, OsStrBytes>::from_ref_storage(s@),
    {
        FlexOsStr(FlexStrInner::from_ref(s))
    }

    /// Wraps a borrowed string
    pub fn from_borrow(s: &'a [u8]) -> (r: Self)
        requires
            FlexStrInner::<'a, SIZE, HEAP, OsStrBytes>::valid_sizes(),
        ensures
            r@ == s@,
            r.storage_type() == StorageType::Borrow,
    {
        FlexOsStr(FlexStrInner::from_borrow(s))
    }

    /// Attempts to create an inlined string. Returns the source as the error when it is too long
    /// to be inlined.
    pub fn try_inline<'b>(s: &'b [u8]) -> (r: Result<Self, &'b [u8]>)
        requires
            FlexStrInner::<'a, SIZE, HEAP, OsStrBytes>::valid_sizes(),
        ensures
            r is Ok <==> s@.len() <= SIZE,
            r matches Ok(f) ==> f@ == s@ && f.storage_type() == StorageType::Inline,
            r matches Err(e) ==> e == s,
    {
        match FlexStrInner::try_inline(s) {
            Ok(i) => Ok(FlexOsStr(i)),
            Err(e) => Err(e),
        }
    }

    /// Copies a string into new heap storage
    pub fn from_ref_heap(s: &[u8]) -> (r: Self)
        requires
            FlexStrInner::<'a, SIZE, HEAP, OsStrBytes>::valid_sizes(),
        ensures
            r@ == s@,
            r.storage_type() == StorageType::Heap,
    {
        FlexOsStr(FlexStrInner::from_ref_heap(s))
    }

    /// Wraps an existing heap value
    pub fn from_heap(t: HEAP) -> (r: Self)
        requires
            FlexStrInner::<'a, SIZE, HEAP, OsStrBytes>::valid_sizes(),
        ensures
            r@ == t.heap_data(),
            r.storage_type() == StorageType::Heap,
    {
        FlexOsStr(FlexStrInner::from_heap(t))
    }

    /// Extracts the string's raw bytes
    pub fn as_str_type(&self) -> (r: &[u8])
        ensures
            r@ == self@,
    {
        self.0.as_str_type()
    }

    /// Extracts the wrapped string literal, or reports the storage type found instead
    pub fn try_as_static_str(&self) -> (r: Result<&'static [u8], WrongStorageType>)
        ensures
            r is Ok <==> self.storage_type() == StorageType::Static,
            r matches Ok(s) ==> s@ == self@,
            r matches Err(e) ==> e == (WrongStorageType {
                expected: StorageType::Static,
                actual: self.storage_type(),
            }),
    {
        self.0.try_as_static_str()
    }
}

impl<'a, const SIZE: usize, HEAP: Storage + 'static> Clone for FlexOsStr<'a, SIZE, HEAP> {
    /// Clones the string, keeping its contents and storage type
    fn clone(&self) -> (r: Self)
        ensures
            r@ == self@,
            r.storage_type() == self.storage_type(),
    {
        FlexOsStr(self.0.clone())
    }
}

impl<'a, const SIZE: usize, HEAP: Storage + 'static> FlexStrCoreInner<
    'a,
    SIZE,
    HEAP,
    OsStrBytes,
> for FlexOsStr<'a, SIZE, HEAP> {
    closed spec fn spec_inner(&self) -> FlexStrInner<'a, SIZE, HEAP, OsStrBytes> {
        self.0
    }

    fn inner(&self) -> (r: &FlexStrInner<'a, SIZE, HEAP, OsStrBytes>) {
        &self.0
    }
}

impl<'a, const SIZE: usize, HEAP: Storage + 'static> FlexStrCore<'a, SIZE, HEAP, OsStrBytes> for FlexOsStr<
    'a,
    SIZE,
    HEAP,
> {

}


impl<'a, const SIZE: usize, HEAP: Storage + 'static> FlexOsStr<'a, SIZE, HEAP> {
    /// Creates a wrapped static string literal from its raw (Unix-encoded) bytes
    pub fn from_static_raw(s: &'static [u8]) -> (r: Self)
        requires
            FlexStrInner::<'a, SIZE, HEAP, OsStrBytes>::valid_sizes(),
        ensures
            r@ == s@,
            r.storage_type() == StorageType::Static,
    {
        Self::from_static(s)
    }
}

} // verus!
