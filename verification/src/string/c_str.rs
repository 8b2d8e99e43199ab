//! C strings (`CStr`): bytes with exactly one NUL byte, at the end.

use vstd::prelude::*;
use vstd::string::StringSliceAdditionalSpecFns;

use std::rc::Rc;
use std::sync::Arc;

use crate::custom::STRING_SIZED_INLINE;
use crate::inner::FlexStrInner;
use crate::storage::{Storage, StorageType, WrongStorageType};
use crate::traits::{FlexStrCore, FlexStrCoreInner};
use crate::string::{
    bytes_to_str, std_text_error, std_utf8_lossy, utf8_error_reported, utf8_lossy_string, Str,
    Utf8Error,
};

verus! {

/// The empty C string: its NUL terminator alone
pub const EMPTY: [u8; 1] = [0u8];

/// Marker for the C string kind (`CStr`)
pub struct CStrBytes;

/// The bytes hold no NUL byte
pub open spec fn no_nul(s: Seq<u8>) -> bool {
    forall|i: int| 0 <= i < s.len() ==> s[i] != 0u8
}

/// `pos` is the position of the first NUL byte in `s`
pub open spec fn is_first_nul(s: Seq<u8>, pos: int) -> bool {
    &&& 0 <= pos < s.len()
    &&& s[pos] == 0u8
    &&& no_nul(s.take(pos))
}

/// A byte sequence has at most one first NUL byte
pub proof fn lemma_first_nul_unique(s: Seq<u8>, p: int, q: int)
    requires
        is_first_nul(s, p),
        is_first_nul(s, q),
    ensures
        p == q,
{
    if p < q {
        assert(s.take(q)[p] == s[p]);
    } else if q < p {
        assert(s.take(p)[q] == s[q]);
    }
}

/// The error that checking `s` as a C string reports, or `None` when `s` is a C string
pub open spec fn c_str_error(s: Seq<u8>) -> Option<CStrNulError> {
    if no_nul(s) {
        Some(CStrNulError::NoNulByteFound)
    } else {
        let p = choose|p: int| is_first_nul(s, p);
        if p == s.len() - 1 {
            None
        } else {
            Some(CStrNulError::InteriorNulByte(p as usize))
        }
    }
}

/// The bytes are a C string: one NUL byte, at the end
pub open spec fn valid_c_str(s: Seq<u8>) -> bool {
    &&& s.len() >= 1
    &&& s.last() == 0u8
    &&& no_nul(s.drop_last())
}

/// This error is returned when trying to create a C string from a `&[u8]` sequence that does
/// not end in its only NUL byte
#[derive(Clone, Copy, Debug, PartialEq, Eq, Structural)]
pub enum CStrNulError {
    /// No required null byte was found
    NoNulByteFound,
    /// An interior null byte was found - the position is enclosed
    InteriorNulByte(usize),
}

/// Earlier name of [CStrNulError], with the same meaning for each variant
#[derive(Clone, Copy, Debug, PartialEq, Eq, Structural)]
pub enum CStrNullError {
    /// No required null byte was found
    NoNullByteFound,
    /// An interior null byte was found - the position is enclosed
    InteriorNullByte(usize),
}

impl CStrNullError {
    /// Converts from the current error type, variant for variant
    pub fn from_nul_error(e: CStrNulError) -> (r: Self)
        ensures
            e is NoNulByteFound ==> r is NoNullByteFound,
            e matches CStrNulError::InteriorNulByte(p) ==> r == CStrNullError::InteriorNullByte(p),
    {
        match e {
            CStrNulError::NoNulByteFound => CStrNullError::NoNullByteFound,
            CStrNulError::InteriorNulByte(p) => CStrNullError::InteriorNullByte(p),
        }
    }
}

/// Checks that a byte slice is a C string: it must hold a NUL byte, and its first NUL byte must
/// be its last byte
pub fn try_from_raw(s: &[u8]) -> (r: Result<&[u8], CStrNulError>)
    ensures
        r is Ok <==> valid_c_str(s@),
        r matches Ok(b) ==> b@ == s@,
        r == Err::<&[u8], CStrNulError>(CStrNulError::NoNulByteFound) <==> no_nul(s@),
        r matches Err(CStrNulError::InteriorNulByte(p)) ==> is_first_nul(s@, p as int) && p + 1
            < s@.len(),
        r is Ok <==> c_str_error(s@) is None,
        r matches Err(e) ==> c_str_error(s@) == Some(e),
{
    let mut idx: usize = 0;
    let mut pos: Option<usize> = None;
    while idx < s.len()
        invariant_except_break
            pos is None,
            no_nul(s@.take(idx as int)),
        invariant
            idx <= s@.len(),
        ensures
            pos is None ==> idx == s@.len() && no_nul(s@.take(idx as int)),
            pos matches Some(p) ==> is_first_nul(s@, p as int),
        decreases s@.len() - idx,
    {
        if s[idx] == 0u8 {
            pos = Some(idx);
            break;
        }
        proof {
            assert forall|i: int| 0 <= i < idx + 1 implies #[trigger] s@.take(idx + 1)[i] != 0u8 by {
                if i < idx {
                    assert(s@.take(idx as int)[i] == s@[i]);
                }
            }
        }
        idx = idx + 1;
    }
    proof {
        if pos is None {
            assert(s@.take(s@.len() as int) =~= s@);
        }
    }
    match pos {
        Some(p) => {
            proof {
                assert(!no_nul(s@));
                let q = choose|q: int| is_first_nul(s@, q);
                lemma_first_nul_unique(s@, p as int, q);
            }
            if p == s.len() - 1 {
                assert(s@.drop_last() =~= s@.take(p as int));
                Ok(s)
            } else {
                proof {
                    if valid_c_str(s@) {
                        assert(s@.drop_last()[p as int] == s@[p as int]);
                    }
                }
                Err(CStrNulError::InteriorNulByte(p))
            }
        },
        None => {
            proof {
                if valid_c_str(s@) {
                    assert(s@[s@.len() - 1] == 0u8);
                }
            }
            Err(CStrNulError::NoNulByteFound)
        },
    }
}

impl Str for CStrBytes {
    type StringType = Vec<u8>;
    type ConvertError = CStrNulError;

    open spec fn valid_data(bytes: Seq<u8>) -> bool {
        valid_c_str(bytes)
    }

    open spec fn empty_data() -> Seq<u8> {
        seq![0u8]
    }

    open spec fn text_data(bytes: Seq<u8>) -> Seq<u8> {
        bytes.drop_last()
    }

    open spec fn string_type_data(s: Vec<u8>) -> Seq<u8> {
        s@
    }

    proof fn lemma_empty_valid() {
        assert(seq![0u8].drop_last() =~= Seq::<u8>::empty());
    }

    fn try_from_raw_data(bytes: &[u8]) -> (r: Result<&[u8], CStrNulError>) {
        try_from_raw(bytes)
    }

    fn empty(bytes: &[u8]) -> (r: Option<&'static [u8]>) {
        if bytes.len() == 1 && bytes[0] == 0u8 {
            let e: &'static [u8] = &EMPTY;
            assert(bytes@ =~= seq![0u8]);
            assert(e@ =~= seq![0u8]);
            Some(e)
        } else {
            None
        }
    }

    fn length(bytes: &[u8]) -> (r: usize) {
        bytes.len()
    }

    fn to_string_type(bytes: &[u8]) -> (r: Vec<u8>) {
        vstd::slice::slice_to_vec(bytes)
    }

    open spec fn lossy_text(bytes: Seq<u8>) -> Seq<char> {
        std_utf8_lossy(bytes.drop_last())
    }

    fn to_string_lossy(bytes: &[u8]) -> (r: String) {
        let text = vstd::slice::slice_subrange(bytes, 0, bytes.len() - 1);
        assert(text@ =~= bytes@.drop_last());
        utf8_lossy_string(text)
    }

    /// Non-UTF-8 text is reported with the standard library's error for the bytes before the
    /// terminator, with its details
    open spec fn reports_utf8_error(bytes: Seq<u8>, e: Utf8Error) -> bool {
        e == std_text_error(bytes.drop_last()) && utf8_error_reported(bytes.drop_last(), e)
    }

    fn try_to_str(bytes: &[u8]) -> (r: Result<&str, Utf8Error>) {
        let text = vstd::slice::slice_subrange(bytes, 0, bytes.len() - 1);
        assert(text@ =~= bytes@.drop_last());
        bytes_to_str(text)
    }
}

} // verus!

verus! {

/// A flexible C string that transparently wraps a string literal, an inline string, a heap
/// value, or a borrowed string (with appropriate lifetime)
pub struct FlexCStr<'a, const SIZE: usize, HEAP: Storage + 'static>(
    pub(crate) FlexStrInner<'a, SIZE, HEAP, CStrBytes>,
);

/// A FlexCStr using `Rc` heap storage and the same inline capacity as a `String`
pub type LocalCStr<'a> = FlexCStr<'a, STRING_SIZED_INLINE, Rc<Vec<u8>>>;

/// A FlexCStr using `Arc` heap storage and the same inline capacity as a `String`
pub type SharedCStr<'a> = FlexCStr<'a, STRING_SIZED_INLINE, Arc<Vec<u8>>>;

/// A FlexCStr using `Box` heap storage and the same inline capacity as a `String`
pub type BoxedCStr<'a> = FlexCStr<'a, STRING_SIZED_INLINE, Box<Vec<u8>>>;

impl<'a, const SIZE: usize, HEAP: Storage + 'static> View for FlexCStr<'a, SIZE, HEAP> {
    type V = Seq<u8>;

    /// The string's raw bytes
    closed spec fn view(&self) -> Seq<u8> {
        self.0@
    }
}

impl<'a, const SIZE: usize, HEAP: Storage + 'static> FlexCStr<'a, SIZE, HEAP> {
    /// The storage type this string uses
    pub closed spec fn storage_type(self) -> StorageType {
        self.0.storage_type()
    }

    /// The view and storage type are those of the wrapped base string
    pub proof fn lemma_inner(&self)
        ensures
            self@ == self.spec_inner()@,
            self.storage_type() == self.spec_inner().storage_type(),
    {
    }

    /// The empty string, as a wrapped static literal
    pub fn empty() -> (r: Self)
        requires
            FlexStrInner::<'a, SIZE, HEAP, CStrBytes>::valid_sizes(),
        ensures
            r@ == seq![0u8],
            r.storage_type() == StorageType::Static,
    {
        proof {
            assert(seq![0u8].drop_last() =~= Seq::<u8>::empty());
        }
        let e: &'static [u8] = &EMPTY;
        assert(e@ =~= seq![0u8]);
        FlexCStr(FlexStrInner::from_static(e))
    }

    /// Creates a wrapped static string literal
    pub fn from_static(s: &'static [u8]) -> (r: Self)
        requires
            FlexStrInner::<'a, SIZE, HEAP, CStrBytes>::valid_sizes(),
            valid_c_str(s@),
        ensures
            r@ == s@,
            r.storage_type() == StorageType::Static,
    {
        FlexCStr(FlexStrInner::from_static(s))
    }

    /// Creates a new string from a string reference. If the string is empty, the static empty
    /// string is returned. If at or under the inline length limit, an inline string is returned.
    /// Otherwise, a heap based string is allocated and returned.
    pub fn from_ref(s: &[u8]) -> (r: Self)
        requires
            FlexStrInner::<'a, SIZE, HEAP, CStrBytes>::valid_sizes(),
            valid_c_str(s@),
        ensures
            r@ == s@,
            r.storage_type() == FlexStrInner::<'a, SIZE, HEAP, CStrBytes>::from_ref_storage(s@),
    {
        FlexCStr(FlexStrInner::from_ref(s))
    }

    /// Wraps a borrowed string
    pub fn from_borrow(s: &'a [u8]) -> (r: Self)
        requires
            FlexStrInner::<'a, SIZE, HEAP, CStrBytes>::valid_sizes(),
            valid_c_str(s@),
        ensures
            r@ == s@,
            r.storage_type() == StorageType::Borrow,
    {
        FlexCStr(FlexStrInner::from_borrow(s))
    }

    /// Attempts to create an inlined string. Returns the source as the error when it is too long
    /// to be inlined.
    pub fn try_inline<'b>(s: &'b [u8]) -> (r: Result<Self, &'b [u8]>)
        requires
            FlexStrInner::<'a, SIZE, HEAP, CStrBytes>::valid_sizes(),
            valid_c_str(s@),
        ensures
            r is Ok <==> s@.len() <= SIZE,
            r matches Ok(f) ==> f@ == s@ && f.storage_type() == StorageType::Inline,
            r matches Err(e) ==> e == s,
    {
        match FlexStrInner::try_inline(s) {
            Ok(i) => Ok(FlexCStr(i)),
            Err(e) => Err(e),
        }
    }

    /// Copies a string into new heap storage
    pub fn from_ref_heap(s: &[u8]) -> (r: Self)
        requires
            FlexStrInner::<'a, SIZE, HEAP, CStrBytes>::valid_sizes(),
            valid_c_str(s@),
        ensures
            r@ == s@,
            r.storage_type() == StorageType::Heap,
    {
        FlexCStr(FlexStrInner::from_ref_heap(s))
    }

    /// Wraps an existing heap value
    pub fn from_heap(t: HEAP) -> (r: Self)
        requires
            FlexStrInner::<'a, SIZE, HEAP, CStrBytes>::valid_sizes(),
            valid_c_str(t.heap_data()),
        ensures
            r@ == t.heap_data(),
            r.storage_type() == StorageType::Heap,
    {
        FlexCStr(FlexStrInner::from_heap(t))
    }

    /// Extracts the string's raw bytes
    pub fn as_str_type(&self) -> (r: &[u8])
        ensures
            r@ == self@,
    {
        self.0.as_str_type()
    }

    /// Extracts the wrapped string literal, or reports the storage type found instead
    pub fn try_as_static_str(&self) -> (r: Result<&'static [u8], WrongStorageType>)
        ensures
            r is Ok <==> self.storage_type() == StorageType::Static,
            r matches Ok(s) ==> s@ == self@,
            r matches Err(e) ==> e == (WrongStorageType {
                expected: StorageType::Static,
                actual: self.storage_type(),
            }),
    {
        self.0.try_as_static_str()
    }
}

impl<'a, const SIZE: usize, HEAP: Storage + 'static> Clone for FlexCStr<'a, SIZE, HEAP> {
    /// Clones the string, keeping its contents and storage type
    fn clone(&self) -> (r: Self)
        ensures
            r@ == self@,
            r.storage_type() == self.storage_type(),
    {
        FlexCStr(self.0.clone())
    }
}

impl<'a, const SIZE: usize, HEAP: Storage + 'static> FlexStrCoreInner<
    'a,
    SIZE,
    HEAP,
    CStrBytes,
> for FlexCStr<'a, SIZE, HEAP> {
    closed spec fn spec_inner(&self) -> FlexStrInner<'a, SIZE, HEAP, CStrBytes> {
        self.0
    }

    fn inner(&self) -> (r: &FlexStrInner<'a, SIZE, HEAP, CStrBytes>) {
        &self.0
    }
}

impl<'a, const SIZE: usize, HEAP: Storage + 'static> FlexStrCore<'a, SIZE, HEAP, CStrBytes> for FlexCStr<
    'a,
    SIZE,
    HEAP,
> {

}

} // verus!

verus! {

impl<'a, const SIZE: usize, HEAP: Storage + 'static> FlexCStr<'a, SIZE, HEAP> {
    /// Tries to create a wrapped static string literal from a raw byte slice. If it is a C string,
    /// a [FlexCStr] is created using static wrapped storage; if not, the [CStrNulError] of
    /// [try_from_raw] is returned.
    pub fn try_from_static_raw(s: &'static [u8]) -> (r: Result<Self, CStrNulError>)
        requires
            FlexStrInner::<'a, SIZE, HEAP, CStrBytes>::valid_sizes(),
        ensures
            r is Ok <==> valid_c_str(s@),
            r matches Ok(f) ==> f@ == s@ && f.storage_type() == StorageType::Static,
            r matches Err(e) ==> c_str_error(s@) == Some(e),
    {
        match try_from_raw(s) {
            Ok(s) => Ok(FlexCStr(FlexStrInner::from_static(s))),
            Err(e) => Err(e),
        }
    }
}

} // verus!
