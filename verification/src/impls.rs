//! Standard trait implementations and operators for the flexible UTF-8 string type.

use core::ops::Deref;
use vstd::prelude::*;
use vstd::std_specs::cmp::PartialEqSpecImpl;
use vstd::std_specs::convert::FromSpecImpl;
use vstd::string::StringSliceAdditionalSpecFns;
use vstd::utf8::{encode_utf8, valid_utf8};

use crate::builder::string_from_char;
use crate::custom::STRING_SIZED_INLINE;
use crate::inner::FlexStrInner;
use crate::storage::{Storage, StorageType};
use crate::string::std_str::{lemma_str_valid, FlexStr, TextStr};
use crate::string::{bytes_eq, valid_bytes_as_str};

verus! {

impl<'a, 'b, const SIZE: usize, HEAP: Storage + 'static, HEAP2: Storage + 'static> PartialEq<
    FlexStr<'b, SIZE, HEAP2>,
> for FlexStr<'a, SIZE, HEAP> {
    /// Strings are equal when their bytes are, whatever storage either uses
    fn eq(&self, other: &FlexStr<'b, SIZE, HEAP2>) -> (r: bool) {
        bytes_eq(self.as_str_type().as_bytes(), other.as_str_type().as_bytes())
    }
}

impl<'a, 'b, const SIZE: usize, HEAP: Storage + 'static, HEAP2: Storage + 'static> PartialEqSpecImpl<
    FlexStr<'b, SIZE, HEAP2>,
> for FlexStr<'a, SIZE, HEAP> {
    open spec fn obeys_eq_spec() -> bool {
        true
    }

    open spec fn eq_spec(&self, other: &FlexStr<'b, SIZE, HEAP2>) -> bool {
        self@ == other@
    }
}

impl<'a, const SIZE: usize, HEAP: Storage + 'static> Eq for FlexStr<'a, SIZE, HEAP> {

}

impl<'a, 'b, const SIZE: usize, HEAP: Storage + 'static> PartialEq<&'b str> for FlexStr<
    'a,
    SIZE,
    HEAP,
> {
    /// A string equals a `str` with the same bytes
    fn eq(&self, other: &&'b str) -> (r: bool) {
        bytes_eq(self.as_str_type().as_bytes(), (*other).as_bytes())
    }
}

impl<'a, 'b, const SIZE: usize, HEAP: Storage + 'static> PartialEqSpecImpl<&'b str> for FlexStr<
    'a,
    SIZE,
    HEAP,
> {
    open spec fn obeys_eq_spec() -> bool {
        true
    }

    open spec fn eq_spec(&self, other: &&'b str) -> bool {
        self@ == (*other).spec_bytes()
    }
}

impl<'a, HEAP: Storage + 'static> Default for FlexStr<'a, STRING_SIZED_INLINE, HEAP> {
    /// The empty string, as a wrapped literal
    fn default() -> (r: Self)
        ensures
            r@ == Seq::<u8>::empty(),
            r.storage_type() == StorageType::Static,
    {
        let r = Self::from_static("");
        proof {
            reveal_strlit("");
        }
        r
    }
}

impl<'a, const SIZE: usize, HEAP: Storage + 'static> FlexStr<'a, SIZE, HEAP> {
    /// Appends `rhs`, storing the result as [FlexStr::from_ref] would
    pub fn add(self, rhs: &str) -> (r: Self)
        requires
            FlexStrInner::<'a, SIZE, HEAP, TextStr>::valid_sizes(),
        ensures
            r@ == self@ + rhs.spec_bytes(),
            r.storage_type() == FlexStrInner::<'a, SIZE, HEAP, TextStr>::from_ref_storage(
                self@ + rhs.spec_bytes(),
            ),
    {
        let left_str = self.as_str_type();
        let left = left_str.as_bytes();
        let right = rhs.as_bytes();
        let mut joined = vstd::slice::slice_to_vec(left);
        let mut i: usize = 0;
        while i < right.len()
            invariant
                i <= right@.len(),
                joined@ == left@ + right@.take(i as int),
            decreases right@.len() - i,
        {
            joined.push(right[i]);
            proof {
                assert(right@.take(i + 1) =~= right@.take(i as int).push(right@[i as int]));
            }
            i = i + 1;
        }
        proof {
            assert(right@.take(right@.len() as int) =~= right@);
            lemma_str_valid(left_str);
            lemma_str_valid(rhs);
            vstd::utf8::valid_utf8_concat(left@, right@);
        }
        Self::from_ref(valid_bytes_as_str(joined.as_slice()))
    }

    /// Creates a string holding one character; it is always inlined when the inline capacity is
    /// at least four bytes
    pub fn from_char(ch: char) -> (r: Self)
        requires
            FlexStrInner::<'a, SIZE, HEAP, TextStr>::valid_sizes(),
        ensures
            r@ == encode_utf8(seq![ch]),
            SIZE >= 4 ==> r.storage_type() == StorageType::Inline,
    {
        let s = string_from_char(ch);
        proof {
            assert(encode_utf8(seq![ch]) == vstd::utf8::encode_scalar(ch as u32) + encode_utf8(
                seq![ch].drop_first(),
            ));
            assert(seq![ch].drop_first() =~= Seq::<char>::empty());
            assert(encode_utf8(Seq::<char>::empty()) =~= Seq::<u8>::empty());
            assert(encode_utf8(seq![ch]) =~= vstd::utf8::encode_scalar(ch as u32));
        }
        Self::from_ref(s.as_str())
    }
}

impl<'a, const SIZE: usize, HEAP: Storage + 'static> Deref for FlexStr<'a, SIZE, HEAP> {
    type Target = str;

    /// Views the string as a `str`
    fn deref(&self) -> (r: &str)
        ensures
            r.spec_bytes() == self@,
    {
        self.as_str_type()
    }
}

} // verus!

verus! {

impl<'a, HEAP: Storage + 'static> core::str::FromStr for FlexStr<'a, STRING_SIZED_INLINE, HEAP> {
    type Err = core::convert::Infallible;

    /// Creates a string as [FlexStr::from_ref] does; this never fails
    fn from_str(s: &str) -> (r: Result<Self, core::convert::Infallible>)
        ensures
            r matches Ok(f) ==> f@ == s.spec_bytes() && f.storage_type()
                == FlexStrInner::<'a, STRING_SIZED_INLINE, HEAP, TextStr>::from_ref_storage(
                s.spec_bytes(),
            ),
            r is Ok,
    {
        Ok(Self::from_ref(s))
    }
}

impl<'a, 'b, HEAP: Storage + 'static> From<&'b str> for FlexStr<'a, STRING_SIZED_INLINE, HEAP> {
    /// Creates a string as [FlexStr::from_ref] does
    fn from(s: &'b str) -> (r: Self)
        ensures
            r@ == s.spec_bytes(),
            r.storage_type() == FlexStrInner::<'a, STRING_SIZED_INLINE, HEAP, TextStr>::from_ref_storage(
                s.spec_bytes(),
            ),
    {
        Self::from_ref(s)
    }
}

impl<'a, 'b, HEAP: Storage + 'static> FromSpecImpl<&'b str> for FlexStr<'a, STRING_SIZED_INLINE, HEAP> {
    /// The converted string is described by the `ensures` of `from` (its bytes and storage), not
    /// by one spec value
    open spec fn obeys_from_spec() -> bool {
        false
    }

    open spec fn from_spec(v: &'b str) -> Self {
        vstd::pervasive::arbitrary()
    }
}

impl<'a, HEAP: Storage + 'static> From<String> for FlexStr<'a, STRING_SIZED_INLINE, HEAP> {
    /// Creates a string from the `String`'s text as [FlexStr::from_ref] does
    fn from(s: String) -> (r: Self)
        ensures
            r@ == encode_utf8(s@),
            r.storage_type() == FlexStrInner::<'a, STRING_SIZED_INLINE, HEAP, TextStr>::from_ref_storage(
                encode_utf8(s@),
            ),
    {
        Self::from_ref(s.as_str())
    }
}

impl<'a, HEAP: Storage + 'static> FromSpecImpl<String> for FlexStr<'a, STRING_SIZED_INLINE, HEAP> {
    /// The converted string is described by the `ensures` of `from` (its bytes and storage), not
    /// by one spec value
    open spec fn obeys_from_spec() -> bool {
        false
    }

    open spec fn from_spec(v: String) -> Self {
        vstd::pervasive::arbitrary()
    }
}

impl<'a, HEAP: Storage + 'static> From<char> for FlexStr<'a, STRING_SIZED_INLINE, HEAP> {
    /// Creates an inline string holding one character
    fn from(c: char) -> (r: Self)
        ensures
            r@ == encode_utf8(seq![c]),
            r.storage_type() == StorageType::Inline,
    {
        Self::from_char(c)
    }
}

impl<'a, HEAP: Storage + 'static> FromSpecImpl<char> for FlexStr<'a, STRING_SIZED_INLINE, HEAP> {
    /// The converted string is described by the `ensures` of `from` (its bytes and storage), not
    /// by one spec value
    open spec fn obeys_from_spec() -> bool {
        false
    }

    open spec fn from_spec(v: char) -> Self {
        vstd::pervasive::arbitrary()
    }
}

/// Gives `str`'s `Hash::hash` a contract-free specification so that verified code can hash text;
/// what it feeds to the hasher is not stated
pub assume_specification<H: core::hash::Hasher>[<str as core::hash::Hash>::hash::<H>](
    s: &str,
    state: &mut H,
);

impl<'a, const SIZE: usize, HEAP: Storage + 'static> core::hash::Hash for FlexStr<'a, SIZE, HEAP> {
    /// Hashes the text, so that equal strings hash alike whatever their storage
    fn hash<H: core::hash::Hasher>(&self, state: &mut H) {
        self.as_str_type().hash(state)
    }
}

} // verus!
