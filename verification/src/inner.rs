//! The base type of the crate: a string that is a wrapped literal, an inline string, a heap value
//! or a borrowed string.

use core::marker::PhantomData;
use vstd::prelude::*;
use vstd::string::StringSliceAdditionalSpecFns;

use crate::storage::{BorrowStr, HeapStr, InlineStr, Storage, StorageType, WrongStorageType};
use crate::string::{Str, Utf8Error};

verus! {

/// The storage held by a [FlexStrInner]
pub enum FlexStrRepr<'a, const SIZE: usize, HEAP> {
    /// A wrapped string literal
    Static(BorrowStr<'static>),
    /// An inlined string
    Inline(InlineStr<SIZE>),
    /// A heap-stored string
    Heap(HeapStr<HEAP>),
    /// A borrowed string
    Borrow(BorrowStr<'a>),
}

/// A flexible string of kind `S` that transparently wraps a string literal, an inline string, a
/// heap value of type `HEAP`, or a borrowed string (with lifetime `'a`).
pub struct FlexStrInner<'a, const SIZE: usize, HEAP: Storage, S: Str> {
    repr: FlexStrRepr<'a, SIZE, HEAP>,
    kind: PhantomData<S>,
}

impl<'a, const SIZE: usize, HEAP: Storage, S: Str> View for FlexStrInner<'a, SIZE, HEAP, S> {
    type V = Seq<u8>;

    /// The string's raw bytes
    closed spec fn view(&self) -> Seq<u8> {
        match self.repr {
            FlexStrRepr::Static(b) => b.string@,
            FlexStrRepr::Inline(i) => i.contents(),
            FlexStrRepr::Heap(h) => h.heap.heap_data(),
            FlexStrRepr::Borrow(b) => b.string@,
        }
    }
}

impl<'a, const SIZE: usize, HEAP: Storage, S: Str> FlexStrInner<'a, SIZE, HEAP, S> {
    #[verifier::type_invariant]
    spec fn inv(self) -> bool {
        &&& S::valid_data(self@)
        &&& match self.repr {
            FlexStrRepr::Static(b) => b.marker == StorageType::Static,
            FlexStrRepr::Borrow(b) => b.marker == StorageType::Borrow,
            FlexStrRepr::Heap(h) => h.marker == StorageType::Heap,
            FlexStrRepr::Inline(i) => i.contents().len() <= SIZE,
        }
    }

    /// The storage type this string uses
    pub closed spec fn storage_type(self) -> StorageType {
        match self.repr {
            FlexStrRepr::Static(_) => StorageType::Static,
            FlexStrRepr::Inline(_) => StorageType::Inline,
            FlexStrRepr::Heap(_) => StorageType::Heap,
            FlexStrRepr::Borrow(_) => StorageType::Borrow,
        }
    }

    /// The inline capacity fits the inline length field, so every storage type can be built
    pub open spec fn valid_sizes() -> bool {
        InlineStr::<SIZE>::valid_size()
    }

    /// The storage type that [Self::from_ref] picks for the given bytes
    pub open spec fn from_ref_storage(s: Seq<u8>) -> StorageType {
        if s == S::empty_data() {
            StorageType::Static
        } else if s.len() <= SIZE {
            StorageType::Inline
        } else {
            StorageType::Heap
        }
    }

    /// Returns true when the storage variants can all be built for this configuration
    pub fn variant_sizes_are_valid() -> (r: bool)
        ensures
            r == Self::valid_sizes(),
    {
        InlineStr::<SIZE>::variant_size_is_valid()
    }

    /// Wraps a string literal
    pub fn from_static(s: &'static [u8]) -> (r: Self)
        requires
            Self::valid_sizes(),
            S::valid_data(s@),
        ensures
            r@ == s@,
            r.storage_type() == StorageType::Static,
    {
        FlexStrInner { repr: FlexStrRepr::Static(BorrowStr::from_static(s)), kind: PhantomData }
    }

    /// Creates a new string from a string reference. If the string is empty, the static empty
    /// string is returned. If at or under the inline length limit, an inline string is returned.
    /// Otherwise, a heap based string is allocated and returned.
    pub fn from_ref(s: &[u8]) -> (r: Self)
        requires
            Self::valid_sizes(),
            S::valid_data(s@),
        ensures
            r@ == s@,
            r.storage_type() == Self::from_ref_storage(s@),
    {
        match S::empty(s) {
            Some(empty) => {
                proof {
                    S::lemma_empty_valid();
                }
                Self::from_static(empty)
            },
            None => match Self::try_inline(s) {
                Ok(r) => r,
                Err(s) => Self::from_ref_heap(s),
            },
        }
    }

    /// Wraps a borrowed string
    pub fn from_borrow(s: &'a [u8]) -> (r: Self)
        requires
            Self::valid_sizes(),
            S::valid_data(s@),
        ensures
            r@ == s@,
            r.storage_type() == StorageType::Borrow,
    {
        FlexStrInner { repr: FlexStrRepr::Borrow(BorrowStr::from_borrow(s)), kind: PhantomData }
    }

    fn from_inline(s: InlineStr<SIZE>) -> (r: Self)
        requires
            Self::valid_sizes(),
            S::valid_data(s.contents()),
            s.contents().len() <= SIZE,
        ensures
            r@ == s.contents(),
            r.storage_type() == StorageType::Inline,
    {
        FlexStrInner { repr: FlexStrRepr::Inline(s), kind: PhantomData }
    }

    /// Attempts to create an inlined string. Returns the source as the error when it is too long
    /// to be inlined.
    pub fn try_inline<'b>(s: &'b [u8]) -> (r: Result<Self, &'b [u8]>)
        requires
            Self::valid_sizes(),
            S::valid_data(s@),
        ensures
            r is Ok <==> s@.len() <= SIZE,
            r matches Ok(f) ==> f@ == s@ && f.storage_type() == StorageType::Inline,
            r matches Err(e) ==> e == s,
    {
        match InlineStr::try_new(s) {
            Ok(i) => Ok(Self::from_inline(i)),
            Err(e) => Err(e),
        }
    }

    /// Copies a string into new heap storage
    pub fn from_ref_heap(s: &[u8]) -> (r: Self)
        requires
            Self::valid_sizes(),
            S::valid_data(s@),
        ensures
            r@ == s@,
            r.storage_type() == StorageType::Heap,
    {
        FlexStrInner { repr: FlexStrRepr::Heap(HeapStr::from_ref(s)), kind: PhantomData }
    }

    /// Wraps an existing heap value
    pub fn from_heap(t: HEAP) -> (r: Self)
        requires
            Self::valid_sizes(),
            S::valid_data(t.heap_data()),
        ensures
            r@ == t.heap_data(),
            r.storage_type() == StorageType::Heap,
    {
        FlexStrInner { repr: FlexStrRepr::Heap(HeapStr::from_heap(t)), kind: PhantomData }
    }

    /// Returns the storage type this string uses
    pub fn storage(&self) -> (r: StorageType)
        ensures
            r == self.storage_type(),
    {
        match &self.repr {
            FlexStrRepr::Static(_) => StorageType::Static,
            FlexStrRepr::Inline(_) => StorageType::Inline,
            FlexStrRepr::Heap(_) => StorageType::Heap,
            FlexStrRepr::Borrow(_) => StorageType::Borrow,
        }
    }

    /// Returns true if this is a wrapped string literal
    pub fn is_static(&self) -> (r: bool)
        ensures
            r == (self.storage_type() == StorageType::Static),
    {
        matches!(self.repr, FlexStrRepr::Static(_))
    }

    /// Returns true if this is an inlined string
    pub fn is_inline(&self) -> (r: bool)
        ensures
            r == (self.storage_type() == StorageType::Inline),
    {
        matches!(self.repr, FlexStrRepr::Inline(_))
    }

    /// Returns true if this string uses heap storage
    pub fn is_heap(&self) -> (r: bool)
        ensures
            r == (self.storage_type() == StorageType::Heap),
    {
        matches!(self.repr, FlexStrRepr::Heap(_))
    }

    /// Returns true if this string uses borrowed storage
    pub fn is_borrow(&self) -> (r: bool)
        ensures
            r == (self.storage_type() == StorageType::Borrow),
    {
        matches!(self.repr, FlexStrRepr::Borrow(_))
    }

    /// Extracts the wrapped string literal, or reports the storage type found instead
    pub fn try_as_static_str(&self) -> (r: Result<&'static [u8], WrongStorageType>)
        ensures
            r is Ok <==> self.storage_type() == StorageType::Static,
            r matches Ok(s) ==> s@ == self@ && S::valid_data(s@),
            r matches Err(e) ==> e == (WrongStorageType {
                expected: StorageType::Static,
                actual: self.storage_type(),
            }),
    {
        proof {
            use_type_invariant(self);
        }
        match &self.repr {
            FlexStrRepr::Static(b) => Ok(b.string),
            _ => Err(WrongStorageType { expected: StorageType::Static, actual: self.storage() }),
        }
    }

    /// Extracts the string's raw bytes
    pub fn as_str_type(&self) -> (r: &[u8])
        ensures
            r@ == self@,
            S::valid_data(r@),
    {
        proof {
            use_type_invariant(self);
        }
        match &self.repr {
            FlexStrRepr::Static(b) => b.string,
            FlexStrRepr::Inline(i) => i.as_str_type(),
            FlexStrRepr::Heap(h) => h.heap.as_heap_type(),
            FlexStrRepr::Borrow(b) => b.string,
        }
    }

    /// Returns the length of this string in bytes (not chars)
    pub fn len(&self) -> (r: usize)
        ensures
            r == self@.len(),
            self.storage_type() == StorageType::Inline ==> r <= SIZE,
    {
        proof {
            use_type_invariant(self);
        }
        S::length(self.as_str_type())
    }

    /// Returns true if this is the empty string of its kind
    pub fn is_empty(&self) -> (r: bool)
        ensures
            r == (self@ == S::empty_data()),
    {
        S::empty(self.as_str_type()).is_some()
    }

    /// Converts this string into its kind's owned string type
    pub fn to_string_type(&self) -> (r: S::StringType)
        ensures
            S::string_type_data(r) == self@,
    {
        proof {
            use_type_invariant(self);
        }
        S::to_string_type(self.as_str_type())
    }

    /// Converts this string to `str` when its text is UTF-8
    pub fn try_to_str(&self) -> (r: Result<&str, Utf8Error>)
        ensures
            r is Ok <==> vstd::utf8::valid_utf8(S::text_data(self@)),
            r matches Ok(s) ==> s.spec_bytes() == S::text_data(self@),
            r matches Err(e) ==> S::reports_utf8_error(self@, e),
    {
        proof {
            use_type_invariant(self);
        }
        S::try_to_str(self.as_str_type())
    }

    /// Converts this string's text to a `String`, replacing what is not UTF-8 with `U+FFFD`
    pub fn to_string_lossy(&self) -> (r: String)
        ensures
            r@ == S::lossy_text(self@),
            vstd::utf8::valid_utf8(S::text_data(self@)) ==> vstd::utf8::encode_utf8(r@)
                == S::text_data(self@),
    {
        proof {
            use_type_invariant(self);
        }
        S::to_string_lossy(self.as_str_type())
    }

    /// Converts this string to a `String` when its text is UTF-8
    pub fn try_to_string(&self) -> (r: Result<String, Utf8Error>)
        ensures
            r is Ok <==> vstd::utf8::valid_utf8(S::text_data(self@)),
            r matches Ok(s) ==> vstd::utf8::encode_utf8(s@) == S::text_data(self@),
            r matches Err(e) ==> S::reports_utf8_error(self@, e),
    {
        match self.try_to_str() {
            Ok(s) => Ok(s.to_owned()),
            Err(e) => Err(e),
        }
    }
}

impl<'a, const SIZE: usize, HEAP: Storage, S: Str> Clone for FlexStrInner<'a, SIZE, HEAP, S> {
    /// Clones the string, keeping its storage type: literals, inline and borrowed strings are
    /// copied, heap values are cloned by the heap backend
    fn clone(&self) -> (r: Self)
        ensures
            r@ == self@,
            r.storage_type() == self.storage_type(),
    {
        proof {
            use_type_invariant(self);
        }
        match &self.repr {
            FlexStrRepr::Static(b) => FlexStrInner {
                repr: FlexStrRepr::Static(BorrowStr::from_static(b.string)),
                kind: PhantomData,
            },
            FlexStrRepr::Inline(i) => FlexStrInner {
                repr: FlexStrRepr::Inline(i.copy()),
                kind: PhantomData,
            },
            FlexStrRepr::Heap(h) => FlexStrInner {
                repr: FlexStrRepr::Heap(HeapStr::from_heap(h.heap.clone_heap())),
                kind: PhantomData,
            },
            FlexStrRepr::Borrow(b) => FlexStrInner {
                repr: FlexStrRepr::Borrow(BorrowStr::from_borrow(b.string)),
                kind: PhantomData,
            },
        }
    }
}

} // verus!
