//! Buffers that collect formatted output before it becomes an inline or heap string.

use core::ops::Deref;
use std::rc::Rc;
use vstd::prelude::*;
use vstd::string::{StringExecFns, StringSliceAdditionalSpecFns};
use vstd::utf8::{encode_utf8, valid_utf8};

use crate::custom::STRING_SIZED_INLINE;
use crate::inner::FlexStrInner;
use crate::storage::{Storage, StorageType};
use crate::string::std_str::{lemma_str_valid, FlexStr, TextStr};
use crate::string::valid_bytes_as_str;

verus! {

/// The size of the internal buffer for formatting (if larger is needed, a heap allocated `String`
/// is used instead)
pub const BUFFER_SIZE: usize = 1024;

/// Declares the standard library's formatting error so that write results can carry it
#[verifier::external_type_specification]
#[verifier::external_body]
pub struct ExFmtError(core::fmt::Error);

/// Calls `String::with_capacity`, which documents that it creates a new empty `String`
#[verifier::external_body]
fn string_with_capacity(cap: usize) -> (r: String)
    ensures
        r@ == Seq::<char>::empty(),
{
    String::with_capacity(cap)
}

/// Calls `String::from(char)`, which documents that it allocates a `String` holding that one
/// character
#[verifier::external_body]
pub(crate) fn string_from_char(c: char) -> (r: String)
    ensures
        r@ == seq![c],
{
    String::from(c)
}

/// UTF-8 encoding distributes over concatenation
pub proof fn lemma_encode_utf8_concat(a: Seq<char>, b: Seq<char>)
    ensures
        encode_utf8(a + b) == encode_utf8(a) + encode_utf8(b),
    decreases a.len(),
{
    if a.len() == 0 {
        assert(a + b =~= b);
        assert(encode_utf8(a) =~= Seq::<u8>::empty());
        assert(Seq::<u8>::empty() + encode_utf8(b) =~= encode_utf8(b));
    } else {
        lemma_encode_utf8_concat(a.drop_first(), b);
        assert((a + b).drop_first() =~= a.drop_first() + b);
        assert((a + b)[0] == a[0]);
        assert(encode_utf8(a + b) == vstd::utf8::encode_scalar((a + b)[0] as u32) + encode_utf8(
            (a + b).drop_first(),
        ));
        assert(encode_utf8(a) + encode_utf8(b) =~= vstd::utf8::encode_scalar(a[0] as u32) + (
        encode_utf8(a.drop_first()) + encode_utf8(b)));
    }
}

/// The contents of a buffer of capacity `cap` holding `content` after writing `s`: the write
/// takes place exactly when all of `s` fits
pub open spec fn write_step(content: Seq<u8>, s: Seq<u8>, cap: nat) -> Seq<u8> {
    if content.len() + s.len() <= cap {
        content + s
    } else {
        content
    }
}

/// The contents of a buffer of capacity `cap` holding `content` after the writes, in order
pub open spec fn write_all(content: Seq<u8>, writes: Seq<Seq<u8>>, cap: nat) -> Seq<u8>
    decreases writes.len(),
{
    if writes.len() == 0 {
        content
    } else {
        write_step(write_all(content, writes.drop_last(), cap), writes.last(), cap)
    }
}

/// The concatenation, in order, of those writes that took place
pub open spec fn accepted_writes(content: Seq<u8>, writes: Seq<Seq<u8>>, cap: nat) -> Seq<u8>
    decreases writes.len(),
{
    if writes.len() == 0 {
        Seq::empty()
    } else {
        let before = write_all(content, writes.drop_last(), cap);
        accepted_writes(content, writes.drop_last(), cap) + if before.len() + writes.last().len()
            <= cap {
            writes.last()
        } else {
            Seq::empty()
        }
    }
}

/// Buffers formatting writes in a fixed-capacity array of `N2` bytes, so that short results (at
/// most `N` bytes) can become inline strings without a heap allocation
pub struct StringBuffer<const N: usize, const N2: usize> {
    buffer: [u8; N2],
    len: usize,
}

impl<const N: usize, const N2: usize> View for StringBuffer<N, N2> {
    type V = Seq<u8>;

    /// The UTF-8 bytes written so far
    closed spec fn view(&self) -> Seq<u8> {
        self.buffer@.take(self.len as int)
    }
}

impl<const N: usize, const N2: usize> StringBuffer<N, N2> {
    #[verifier::type_invariant]
    spec fn inv(self) -> bool {
        &&& N <= N2
        &&& self.len <= N2
        &&& valid_utf8(self.buffer@.take(self.len as int))
    }

    /// Creates an empty buffer
    pub fn new() -> (r: Self)
        requires
            N <= N2,
        ensures
            r@ == Seq::<u8>::empty(),
    {
        let r = StringBuffer { buffer: [0u8; N2], len: 0 };
        proof {
            vstd::utf8::encode_utf8_valid_utf8(Seq::<char>::empty());
            assert(encode_utf8(Seq::<char>::empty()) =~= Seq::<u8>::empty());
            assert(r.buffer@.take(0) =~= Seq::<u8>::empty());
        }
        r
    }

    /// The buffer's capacity in bytes
    pub fn capacity() -> (r: usize)
        ensures
            r == N2,
    {
        N2
    }

    /// The number of bytes written so far
    pub fn len(&self) -> (r: usize)
        ensures
            r == self@.len(),
            r <= N2,
    {
        proof {
            use_type_invariant(self);
        }
        self.len
    }

    /// Returns true when nothing has been written
    pub fn is_empty(&self) -> (r: bool)
        ensures
            r == (self@.len() == 0),
    {
        proof {
            use_type_invariant(self);
        }
        self.len == 0
    }

    /// Returns true when the contents fit an inline string of capacity `N`
    pub fn is_inline_candidate(&self) -> (r: bool)
        ensures
            r == (self@.len() <= N),
    {
        proof {
            use_type_invariant(self);
        }
        self.len <= N
    }

    /// Returns the first `N` bytes of the buffer, which hold everything written when the
    /// contents fit an inline string
    pub fn into_inner(self) -> (r: [u8; N])
        ensures
            forall|i: int| 0 <= i < N && i < self@.len() ==> r@[i] == self@[i],
    {
        proof {
            use_type_invariant(&self);
        }
        let mut inline: [u8; N] = [0u8; N];
        let mut i: usize = 0;
        while i < N
            invariant
                N <= N2,
                i <= N,
                inline@.len() == N,
                self.buffer@.len() == N2,
                forall|j: int| 0 <= j < i ==> inline@[j] == self.buffer@[j],
            decreases N - i,
        {
            inline[i] = self.buffer[i];
            i = i + 1;
        }
        inline
    }

    /// Returns the contents as a `str`
    pub fn as_str(&self) -> (r: &str)
        ensures
            r.spec_bytes() == self@,
    {
        proof {
            use_type_invariant(self);
        }
        let bytes = vstd::slice::slice_subrange(self.buffer.as_slice(), 0, self.len);
        valid_bytes_as_str(bytes)
    }

    /// Creates a new heap allocated string buffer copying the existing content
    pub fn to_string_buffer(&self, cap: usize) -> (r: String)
        ensures
            encode_utf8(r@) == self@,
    {
        let mut buffer = string_with_capacity(cap);
        if !self.is_empty() {
            let s = self.as_str();
            buffer.append(s);
            proof {
                lemma_encode_utf8_concat(Seq::<char>::empty(), s@);
                assert(Seq::<char>::empty() + s@ =~= s@);
            }
        } else {
            proof {
                assert(encode_utf8(Seq::<char>::empty()) =~= self@);
            }
        }
        buffer
    }

    /// Writes the `str` into the buffer if there is room for all of it. Returns true if the write
    /// succeeded; on failure the buffer is unchanged.
    pub fn write(&mut self, s: &str) -> (r: bool)
        ensures
            r == (old(self)@.len() + s.spec_bytes().len() <= N2),
            r ==> final(self)@ == old(self)@ + s.spec_bytes(),
            !r ==> final(self)@ == old(self)@,
            final(self)@ == write_step(old(self)@, s.spec_bytes(), N2 as nat),
    {
        proof {
            use_type_invariant(&*self);
            lemma_str_valid(s);
        }
        let len = self.len();
        let bytes = s.as_bytes();
        if Self::capacity() - len >= bytes.len() {
            let ghost start = self@;
            let mut data: [u8; N2] = self.buffer;
            let mut i: usize = 0;
            while i < bytes.len()
                invariant
                    len + bytes@.len() <= N2,
                    i <= bytes@.len(),
                    data@.len() == N2,
                    data@.take(len as int) == start,
                    forall|j: int| 0 <= j < i ==> data@[len + j] == bytes@[j],
                decreases bytes@.len() - i,
            {
                let ghost before = data@;
                data[len + i] = bytes[i];
                proof {
                    assert(data@.take(len as int) =~= before.take(len as int));
                }
                i = i + 1;
            }
            self.buffer = data;
            proof {
                assert(self.buffer@.take(len + bytes@.len()) =~= start + bytes@);
                vstd::utf8::valid_utf8_concat(start, bytes@);
            }
            self.len = len + bytes.len();
            true
        } else {
            false
        }
    }
}

impl<const N: usize, const N2: usize> Deref for StringBuffer<N, N2> {
    type Target = str;

    /// Views the contents as a `str`
    fn deref(&self) -> (r: &str)
        ensures
            r.spec_bytes() == self@,
    {
        self.as_str()
    }
}

/// Collects formatted output: first into a borrowed fixed-size buffer, then, once that would
/// overflow, into a heap allocated `String`
pub enum FlexStrBuilder<'buffer, const N: usize, const N2: usize> {
    /// Writing into the fixed-size buffer
    InlineBuffer(&'buffer mut StringBuffer<N, N2>),
    /// Writing into a heap allocated `String`
    StringBuffer(String),
}

impl<'buffer, const N: usize, const N2: usize> View for FlexStrBuilder<'buffer, N, N2> {
    type V = Seq<u8>;

    /// The UTF-8 bytes written so far
    closed spec fn view(&self) -> Seq<u8> {
        match self {
            FlexStrBuilder::InlineBuffer(b) => (**b)@,
            FlexStrBuilder::StringBuffer(s) => encode_utf8(s@),
        }
    }
}

impl<'buffer, const N: usize, const N2: usize> FlexStrBuilder<'buffer, N, N2> {
    /// Starts a builder over a fixed-size buffer
    pub fn new(buffer: &'buffer mut StringBuffer<N, N2>) -> (r: Self)
        ensures
            r is InlineBuffer,
            r@ == old(buffer)@,
    {
        FlexStrBuilder::InlineBuffer(buffer)
    }

    /// Starts a builder for output of about `cap` bytes: over the fixed-size buffer when `cap`
    /// is at most [BUFFER_SIZE], otherwise directly over a `String` of that capacity
    pub fn with_capacity(buffer: &'buffer mut StringBuffer<N, N2>, cap: usize) -> (r: Self)
        ensures
            r is InlineBuffer <==> cap <= BUFFER_SIZE,
            r is InlineBuffer ==> r@ == old(buffer)@,
            r is StringBuffer ==> r@ == Seq::<u8>::empty(),
    {
        if cap <= BUFFER_SIZE {
            FlexStrBuilder::InlineBuffer(buffer)
        } else {
            let r = FlexStrBuilder::StringBuffer(string_with_capacity(cap));
            proof {
                assert(encode_utf8(Seq::<char>::empty()) =~= Seq::<u8>::empty());
            }
            r
        }
    }

    /// Writes a `str`. Output stays in the fixed-size buffer while it fits there; the first write
    /// that does not fit moves everything written so far into a `String`, with twice the capacity
    /// needed, and appends there. The write never fails.
    pub fn write_str(&mut self, s: &str) -> (r: Result<(), core::fmt::Error>)
        ensures
            r is Ok,
            final(self)@ == old(self)@ + s.spec_bytes(),
            *old(self) is StringBuffer ==> *final(self) is StringBuffer,
            *old(self) is InlineBuffer ==> (*final(self) is InlineBuffer <==> old(self)@.len()
                + s.spec_bytes().len() <= N2),
    {
        match self {
            FlexStrBuilder::InlineBuffer(buffer) => {
                let ghost before = (**buffer)@;
                if buffer.write(s) {
                    Ok(())
                } else {
                    // the capacity is only a hint, so it saturates rather than overflows
                    let required_cap = buffer.len().saturating_add(s.len());
                    let mut string = buffer.to_string_buffer(required_cap.saturating_add(required_cap));
                    let ghost copied = string@;
                    proof {
                        assert((**buffer)@ == before);
                    }
                    string.append(s);
                    proof {
                        lemma_encode_utf8_concat(copied, s@);
                    }
                    *self = FlexStrBuilder::StringBuffer(string);
                    Ok(())
                }
            },
            FlexStrBuilder::StringBuffer(string) => {
                let ghost before = string@;
                string.append(s);
                proof {
                    lemma_encode_utf8_concat(before, s@);
                }
                Ok(())
            },
        }
    }

    /// Writes a `str`; this always succeeds
    pub fn str_write(&mut self, s: &str)
        ensures
            final(self)@ == old(self)@ + s.spec_bytes(),
    {
        let _ = self.write_str(s);
    }

    /// Writes a single character; this always succeeds
    pub fn char_write(&mut self, c: char)
        ensures
            final(self)@ == old(self)@ + encode_utf8(seq![c]),
    {
        let s = string_from_char(c);
        self.str_write(s.as_str());
    }
}


impl<'buffer, const N: usize, const N2: usize> FlexStrBuilder<'buffer, N, N2> {
    /// The storage type [Self::into_flex_str] picks for a builder
    pub open spec fn into_storage(self) -> StorageType {
        if self is InlineBuffer && self@.len() <= N {
            StorageType::Inline
        } else {
            FlexStrInner::<'static, N, Rc<Vec<u8>>, TextStr>::from_ref_storage(self@)
        }
    }

    /// Turns the written output into a flexible string: an inline string when everything was
    /// written into the fixed-size buffer and fits `N` bytes, otherwise the string that
    /// `from_ref` makes of it
    pub fn into_flex_str<HEAP: Storage + 'static>(self) -> (r: FlexStr<'static, N, HEAP>)
        requires
            N <= u8::MAX,
        ensures
            r@ == self@,
            r.storage_type() == self.into_storage(),
    {
        match self {
            FlexStrBuilder::InlineBuffer(buffer) => {
                let s = buffer.as_str();
                if buffer.is_inline_candidate() {
                    match FlexStr::try_inline(s) {
                        Ok(f) => f,
                        Err(_) => {
                            proof {
                                assert(false);
                            }
                            FlexStr::from_ref(s)
                        },
                    }
                } else {
                    FlexStr::from_ref(s)
                }
            },
            FlexStrBuilder::StringBuffer(string) => FlexStr::from_ref(string.as_str()),
        }
    }
}

} // verus!
