//! UTF-8 text strings (`str`).

use vstd::prelude::*;
use vstd::string::StringSliceAdditionalSpecFns;
use vstd::utf8::valid_utf8;

use std::rc::Rc;
use std::sync::Arc;

use crate::custom::STRING_SIZED_INLINE;
use crate::inner::FlexStrInner;
use crate::storage::{Storage, StorageType, WrongStorageType};
use crate::string::{
    std_error_len, std_error_valid_up_to, std_from_utf8_error, str_from_utf8, utf8_error_details,
    valid_bytes_as_str, Str, Utf8Error,
};
use crate::traits::{FlexStrCore, FlexStrCoreInner};

verus! {

/// Marker for the UTF-8 text string kind (`str`)
pub struct TextStr;

impl Str for TextStr {
    type StringType = String;
    type ConvertError = core::str::Utf8Error;

    open spec fn valid_data(bytes: Seq<u8>) -> bool {
        valid_utf8(bytes)
    }

    open spec fn empty_data() -> Seq<u8> {
        Seq::empty()
    }

    open spec fn text_data(bytes: Seq<u8>) -> Seq<u8> {
        bytes
    }

    open spec fn string_type_data(s: String) -> Seq<u8> {
        vstd::utf8::encode_utf8(s@)
    }

    proof fn lemma_empty_valid() {
        assert(valid_utf8(Seq::<u8>::empty())) by {
            vstd::utf8::encode_utf8_valid_utf8(Seq::<char>::empty());
            assert(vstd::utf8::encode_utf8(Seq::<char>::empty()) =~= Seq::<u8>::empty());
        }
    }

    /// Non-UTF-8 bytes are reported with the standard library's error
    fn try_from_raw_data(bytes: &[u8]) -> (r: Result<&[u8], core::str::Utf8Error>)
        ensures
            r matches Err(e) ==> e == std_from_utf8_error(bytes@),
            r matches Err(e) ==> utf8_error_details(bytes@, std_error_valid_up_to(e), std_error_len(e)),
    {
        match str_from_utf8(bytes) {
            Ok(_) => Ok(bytes),
            Err(e) => Err(e),
        }
    }

    fn empty(bytes: &[u8]) -> (r: Option<&'static [u8]>) {
        if bytes.len() == 0 {
            let e: &'static [u8] = &[];
            assert(bytes@ =~= Seq::<u8>::empty());
            Some(e)
        } else {
            None
        }
    }

    fn length(bytes: &[u8]) -> (r: usize) {
        bytes.len()
    }

    fn to_string_type(bytes: &[u8]) -> (r: String) {
        let s = valid_bytes_as_str(bytes);
        let r = s.to_owned();
        proof {
            vstd::utf8::decode_utf8_encode_utf8(bytes@);
        }
        r
    }

    open spec fn lossy_text(bytes: Seq<u8>) -> Seq<char> {
        vstd::utf8::decode_utf8(bytes)
    }

    fn to_string_lossy(bytes: &[u8]) -> (r: String) {
        let s = valid_bytes_as_str(bytes);
        proof {
            vstd::utf8::encode_utf8_decode_utf8(s@);
        }
        s.to_owned()
    }

    /// A value is always UTF-8, so no error is ever reported
    open spec fn reports_utf8_error(bytes: Seq<u8>, e: Utf8Error) -> bool {
        false
    }

    fn try_to_str(bytes: &[u8]) -> (r: Result<&str, Utf8Error>) {
        Ok(valid_bytes_as_str(bytes))
    }
}

} // verus!

verus! {

/// A flexible UTF-8 string that transparently wraps a string literal, an inline string, a heap
/// value, or a borrowed string (with appropriate lifetime)
pub struct FlexStr<'a, const SIZE: usize, HEAP: Storage + 'static>(
    pub(crate) FlexStrInner<'a, SIZE, HEAP, TextStr>,
);

/// A flexible string using `Rc` heap storage and the same inline capacity as a `String`
pub type LocalStr<'a> = FlexStr<'a, STRING_SIZED_INLINE, Rc<Vec<u8>>>;

/// A flexible string using `Arc` heap storage and the same inline capacity as a `String`
pub type SharedStr<'a> = FlexStr<'a, STRING_SIZED_INLINE, Arc<Vec<u8>>>;

/// A flexible string using `Box` heap storage and the same inline capacity as a `String`
pub type BoxedStr<'a> = FlexStr<'a, STRING_SIZED_INLINE, Box<Vec<u8>>>;

/// The empty string
pub const EMPTY: &'static str = "";

/// The UTF-8 bytes of a `str`
pub open spec fn str_data(s: &str) -> Seq<u8> {
    s.spec_bytes()
}

/// The UTF-8 encoding of a `str` is valid UTF-8
pub proof fn lemma_str_valid(s: &str)
    ensures
        valid_utf8(s.spec_bytes()),
{
    vstd::utf8::encode_utf8_valid_utf8(s@);
}

impl<'a, const SIZE: usize, HEAP: Storage + 'static> View for FlexStr<'a, SIZE, HEAP> {
    type V = Seq<u8>;

    /// The string's UTF-8 bytes
    closed spec fn view(&self) -> Seq<u8> {
        self.0@
    }
}

impl<'a, const SIZE: usize, HEAP: Storage + 'static> FlexStr<'a, SIZE, HEAP> {
    /// The storage type this string uses
    pub closed spec fn storage_type(self) -> StorageType {
        self.0.storage_type()
    }

    /// The view and storage type are those of the wrapped base string
    pub proof fn lemma_inner(&self)
        ensures
            self@ == self.spec_inner()@,
            self.storage_type() == self.spec_inner().storage_type(),
    {
    }

    /// The empty string, as a wrapped static literal
    pub fn empty() -> (r: Self)
        requires
            FlexStrInner::<'a, SIZE, HEAP, TextStr>::valid_sizes(),
        ensures
            r@ == Seq::<u8>::empty(),
            r.storage_type() == StorageType::Static,
    {
        proof {
            reveal_strlit("");
            assert(vstd::utf8::encode_utf8(EMPTY@) =~= Seq::<u8>::empty());
        }
        Self::from_static(EMPTY)
    }

    /// Creates a wrapped static string literal
    pub fn from_static(s: &'static str) -> (r: Self)
        requires
            FlexStrInner::<'a, SIZE, HEAP, TextStr>::valid_sizes(),
        ensures
            r@ == s.spec_bytes(),
            r.storage_type() == StorageType::Static,
    {
        proof {
            lemma_str_valid(s);
        }
        FlexStr(FlexStrInner::from_static(s.as_bytes()))
    }

    /// Tries to create a wrapped static string literal from a raw byte slice. Fails with the
    /// standard library's error when the bytes are not UTF-8.
    pub fn try_from_static_raw(s: &'static [u8]) -> (r: Result<Self, core::str::Utf8Error>)
        requires
            FlexStrInner::<'a, SIZE, HEAP, TextStr>::valid_sizes(),
        ensures
            r is Ok <==> valid_utf8(s@),
            r matches Ok(f) ==> f@ == s@ && f.storage_type() == StorageType::Static,
            r matches Err(e) ==> e == std_from_utf8_error(s@),
            r matches Err(e) ==> utf8_error_details(s@, std_error_valid_up_to(e), std_error_len(e)),
    {
        match TextStr::try_from_raw_data(s) {
            Ok(s) => Ok(FlexStr(FlexStrInner::from_static(s))),
            Err(e) => Err(e),
        }
    }

    /// Creates a new string from a `str` reference. If the string is empty, the static empty
    /// string is returned. If at or under the inline length limit, an inline string is returned.
    /// Otherwise, a heap based string is allocated and returned.
    pub fn from_ref(s: &str) -> (r: Self)
        requires
            FlexStrInner::<'a, SIZE, HEAP, TextStr>::valid_sizes(),
        ensures
            r@ == s.spec_bytes(),
            r.storage_type() == FlexStrInner::<'a, SIZE, HEAP, TextStr>::from_ref_storage(
                s.spec_bytes(),
            ),
    {
        proof {
            lemma_str_valid(s);
        }
        FlexStr(FlexStrInner::from_ref(s.as_bytes()))
    }

    /// Wraps a borrowed `str`
    pub fn from_borrow(s: &'a str) -> (r: Self)
        requires
            FlexStrInner::<'a, SIZE, HEAP, TextStr>::valid_sizes(),
        ensures
            r@ == s.spec_bytes(),
            r.storage_type() == StorageType::Borrow,
    {
        proof {
            lemma_str_valid(s);
        }
        FlexStr(FlexStrInner::from_borrow(s.as_bytes()))
    }

    /// Attempts to create an inlined string. Returns the source as the error when it is too long
    /// to be inlined.
    pub fn try_inline<'b>(s: &'b str) -> (r: Result<Self, &'b str>)
        requires
            FlexStrInner::<'a, SIZE, HEAP, TextStr>::valid_sizes(),
        ensures
            r is Ok <==> s.spec_bytes().len() <= SIZE,
            r matches Ok(f) ==> f@ == s.spec_bytes() && f.storage_type() == StorageType::Inline,
            r matches Err(e) ==> e == s,
    {
        proof {
            lemma_str_valid(s);
        }
        match FlexStrInner::try_inline(s.as_bytes()) {
            Ok(i) => Ok(FlexStr(i)),
            Err(_) => Err(s),
        }
    }

    /// Copies a `str` into new heap storage
    pub fn from_ref_heap(s: &str) -> (r: Self)
        requires
            FlexStrInner::<'a, SIZE, HEAP, TextStr>::valid_sizes(),
        ensures
            r@ == s.spec_bytes(),
            r.storage_type() == StorageType::Heap,
    {
        proof {
            lemma_str_valid(s);
        }
        FlexStr(FlexStrInner::from_ref_heap(s.as_bytes()))
    }

    /// Wraps an existing heap value holding UTF-8 bytes
    pub fn from_heap(t: HEAP) -> (r: Self)
        requires
            FlexStrInner::<'a, SIZE, HEAP, TextStr>::valid_sizes(),
            valid_utf8(t.heap_data()),
        ensures
            r@ == t.heap_data(),
            r.storage_type() == StorageType::Heap,
    {
        FlexStr(FlexStrInner::from_heap(t))
    }

    /// Extracts a string slice containing the entire string
    pub fn as_str_type(&self) -> (r: &str)
        ensures
            r.spec_bytes() == self@,
    {
        valid_bytes_as_str(self.0.as_str_type())
    }

    /// Extracts the wrapped string literal, or reports the storage type found instead
    pub fn try_as_static_str(&self) -> (r: Result<&'static str, WrongStorageType>)
        ensures
            r is Ok <==> self.storage_type() == StorageType::Static,
            r matches Ok(s) ==> s.spec_bytes() == self@,
            r matches Err(e) ==> e == (WrongStorageType {
                expected: StorageType::Static,
                actual: self.storage_type(),
            }),
    {
        match self.0.try_as_static_str() {
            Ok(b) => Ok(valid_bytes_as_str(b)),
            Err(e) => Err(e),
        }
    }
}

impl<'a, const SIZE: usize, HEAP: Storage + 'static> Clone for FlexStr<'a, SIZE, HEAP> {
    /// Clones the string, keeping its contents and storage type
    fn clone(&self) -> (r: Self)
        ensures
            r@ == self@,
            r.storage_type() == self.storage_type(),
    {
        FlexStr(self.0.clone())
    }
}

impl<'a, const SIZE: usize, HEAP: Storage + 'static> FlexStrCoreInner<
    'a,
    SIZE,
    HEAP,
    TextStr,
> for FlexStr<'a, SIZE, HEAP> {
    closed spec fn spec_inner(&self) -> FlexStrInner<'a, SIZE, HEAP, TextStr> {
        self.0
    }

    fn inner(&self) -> (r: &FlexStrInner<'a, SIZE, HEAP, TextStr>) {
        &self.0
    }
}

impl<'a, const SIZE: usize, HEAP: Storage + 'static> FlexStrCore<'a, SIZE, HEAP, TextStr> for FlexStr<
    'a,
    SIZE,
    HEAP,
> {

}

} // verus!
