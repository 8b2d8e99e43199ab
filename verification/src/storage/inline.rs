use vstd::prelude::*;

use crate::storage::StorageType;

verus! {

/// A string stored inline, without a heap allocation: a fixed array of `SIZE` bytes, of which
/// the first `len` are the string
pub struct InlineStr<const SIZE: usize> {
    data: [u8; SIZE],
    len: u8,
    /// Always [StorageType::Inline]
    pub marker: StorageType,
}

impl<const SIZE: usize> InlineStr<SIZE> {
    #[verifier::type_invariant]
    spec fn inv(self) -> bool {
        &&& self.len <= SIZE
        &&& self.marker == StorageType::Inline
    }

    /// The bytes of the inlined string
    pub closed spec fn contents(self) -> Seq<u8> {
        self.data@.subrange(0, self.len as int)
    }

    /// The storage marker this inline string carries
    pub closed spec fn spec_marker(self) -> StorageType {
        self.marker
    }

    /// Returns the storage marker, which is always [StorageType::Inline]
    pub fn storage(&self) -> (r: StorageType)
        ensures
            r == self.spec_marker(),
            r == StorageType::Inline,
    {
        proof {
            use_type_invariant(self);
        }
        self.marker
    }

    /// The capacity of an inline string of this size
    pub open spec fn spec_capacity() -> nat {
        SIZE as nat
    }

    /// The capacity fits the one-byte length field
    pub open spec fn valid_size() -> bool {
        SIZE <= u8::MAX
    }

    /// Returns true when the capacity fits the one-byte length field
    pub fn variant_size_is_valid() -> (r: bool)
        ensures
            r == Self::valid_size(),
    {
        SIZE <= 255
    }

    /// Attempts to return a new [InlineStr] if the source string is short enough to be copied.
    /// If not, the source is returned as the error.
    pub fn try_new<'b>(s: &'b [u8]) -> (r: Result<Self, &'b [u8]>)
        requires
            s@.len() <= SIZE ==> Self::valid_size(),
        ensures
            r is Ok <==> s@.len() <= SIZE,
            r matches Ok(i) ==> i.contents() == s@ && i.spec_marker() == StorageType::Inline,
            r matches Err(e) ==> e == s,
    {
        let len = s.len();
        if len <= Self::capacity() {
            Ok(Self::new(s, len))
        } else {
            Err(s)
        }
    }

    /// Copies `s` into a new inline buffer
    fn new(s: &[u8], len: usize) -> (r: Self)
        requires
            len == s@.len(),
            len <= SIZE,
            Self::valid_size(),
        ensures
            r.contents() == s@,
            r.spec_marker() == StorageType::Inline,
    {
        let mut data: [u8; SIZE] = [0u8; SIZE];
        let mut i: usize = 0;
        while i < len
            invariant
                len == s@.len(),
                len <= SIZE,
                i <= len,
                data@.len() == SIZE,
                forall|j: int| 0 <= j < i ==> data@[j] == s@[j],
            decreases len - i,
        {
            data[i] = s[i];
            i = i + 1;
        }
        let r = InlineStr { data, len: len as u8, marker: StorageType::Inline };
        assert(r.contents() =~= s@);
        r
    }

    /// Returns the capacity of this inline string
    pub fn capacity() -> (r: usize)
        ensures
            r == SIZE,
    {
        SIZE
    }

    /// Returns the length of this inline string in bytes
    pub fn len(&self) -> (r: usize)
        ensures
            r == self.contents().len(),
            r <= SIZE,
    {
        proof {
            use_type_invariant(self);
        }
        self.len as usize
    }

    /// Returns the inlined string's bytes
    pub fn as_str_type(&self) -> (r: &[u8])
        ensures
            r@ == self.contents(),
    {
        proof {
            use_type_invariant(self);
        }
        vstd::slice::slice_subrange(self.data.as_slice(), 0, self.len as usize)
    }

    /// Returns a copy of this inline string
    pub fn copy(&self) -> (r: Self)
        ensures
            r.contents() == self.contents(),
    {
        proof {
            use_type_invariant(self);
        }
        InlineStr { data: self.data, len: self.len, marker: StorageType::Inline }
    }
}

} // verus!
