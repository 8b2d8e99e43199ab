//! The core methods shared by all flexible string types.

use vstd::prelude::*;
use vstd::string::StringSliceAdditionalSpecFns;

use crate::inner::FlexStrInner;
use crate::storage::{Storage, StorageType};
use crate::string::{Str, Utf8Error};

verus! {

/// Access to the base string that a flexible string type wraps
pub trait FlexStrCoreInner<'a, const SIZE: usize, HEAP: Storage + 'static, S: Str + 'static> {
    /// The wrapped base string
    spec fn spec_inner(&self) -> FlexStrInner<'a, SIZE, HEAP, S>;

    /// Returns the wrapped base string
    fn inner(&self) -> (r: &FlexStrInner<'a, SIZE, HEAP, S>)
        ensures
            *r == self.spec_inner(),
    ;
}

/// The core methods, implemented by all flexible string types
pub trait FlexStrCore<'a, const SIZE: usize, HEAP: Storage + 'static, S: Str + 'static>: FlexStrCoreInner<
    'a,
    SIZE,
    HEAP,
    S,
> {
    /// Converts this string into its native owned string type
    fn to_string_type(&self) -> (r: S::StringType)
        ensures
            S::string_type_data(r) == self.spec_inner()@,
    {
        self.inner().to_string_type()
    }

    /// Extracts a `str` containing the entire string, when its text is UTF-8
    fn try_to_str<'b>(&'b self) -> (r: Result<&'b str, Utf8Error>) where 'a: 'b
        ensures
            r is Ok <==> vstd::utf8::valid_utf8(S::text_data(self.spec_inner()@)),
            r matches Ok(s) ==> s.spec_bytes() == S::text_data(self.spec_inner()@),
            r matches Err(e) ==> S::reports_utf8_error(self.spec_inner()@, e),
    {
        self.inner().try_to_str()
    }

    /// Converts this string into a `String`, when its text is UTF-8
    fn try_to_string(&self) -> (r: Result<String, Utf8Error>)
        ensures
            r is Ok <==> vstd::utf8::valid_utf8(S::text_data(self.spec_inner()@)),
            r matches Ok(s) ==> vstd::utf8::encode_utf8(s@) == S::text_data(self.spec_inner()@),
            r matches Err(e) ==> S::reports_utf8_error(self.spec_inner()@, e),
    {
        self.inner().try_to_string()
    }

    /// Converts this string's text to a `String`, replacing what is not UTF-8 with `U+FFFD`
    fn to_string_lossy(&self) -> (r: String)
        ensures
            r@ == S::lossy_text(self.spec_inner()@),
            vstd::utf8::valid_utf8(S::text_data(self.spec_inner()@)) ==> vstd::utf8::encode_utf8(
                r@,
            ) == S::text_data(self.spec_inner()@),
    {
        self.inner().to_string_lossy()
    }

    /// Returns true if this is the empty string of its kind
    fn is_empty(&self) -> (r: bool)
        ensures
            r == (self.spec_inner()@ == S::empty_data()),
    {
        self.inner().is_empty()
    }

    /// Returns the length of this string in bytes (not chars or graphemes)
    fn len(&self) -> (r: usize)
        ensures
            r == self.spec_inner()@.len(),
    {
        self.inner().len()
    }

    /// Returns true if this is a wrapped string literal
    fn is_static(&self) -> (r: bool)
        ensures
            r == (self.spec_inner().storage_type() == StorageType::Static),
    {
        self.inner().is_static()
    }

    /// Returns true if this is an inlined string
    fn is_inline(&self) -> (r: bool)
        ensures
            r == (self.spec_inner().storage_type() == StorageType::Inline),
    {
        self.inner().is_inline()
    }

    /// Returns true if this is a wrapped string using heap storage
    fn is_heap(&self) -> (r: bool)
        ensures
            r == (self.spec_inner().storage_type() == StorageType::Heap),
    {
        self.inner().is_heap()
    }

    /// Returns true if this is a wrapped string using borrowed storage
    fn is_borrow(&self) -> (r: bool)
        ensures
            r == (self.spec_inner().storage_type() == StorageType::Borrow),
    {
        self.inner().is_borrow()
    }
}

} // verus!
