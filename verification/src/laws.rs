//! Properties of the library that relate several operations or hold of every value.

use vstd::prelude::*;

use crate::builder::{accepted_writes, write_all};
use crate::inner::FlexStrInner;
use crate::storage::{Storage, StorageType};
use crate::string::b_str::BStrBytes;
use crate::string::c_str::{c_str_error, is_first_nul, no_nul, valid_c_str, CStrBytes, CStrNulError};
use crate::string::raw_str::RawBytes;
use crate::string::std_str::TextStr;
use crate::string::{is_cut_off_char, utf8_error_reported, Str, Utf8Error};

verus! {

/// Every flexible string uses exactly one of the four storage types, so exactly one of
/// `is_static`, `is_inline`, `is_heap` and `is_borrow` holds.
pub proof fn law_storage_exclusive<'a, const SIZE: usize, HEAP: Storage, S: Str>(
    f: FlexStrInner<'a, SIZE, HEAP, S>,
)
    ensures
        (f.storage_type() == StorageType::Static) as int + (f.storage_type()
            == StorageType::Inline) as int + (f.storage_type() == StorageType::Heap) as int + (
        f.storage_type() == StorageType::Borrow) as int == 1,
{
}

/// `from_ref` never allocates on the heap for a string that fits inline, never inlines a string
/// that does not fit, and wraps the empty string as a literal; a non-empty string is inlined by
/// `from_ref` exactly when `try_inline` accepts it.
pub proof fn law_from_ref_storage<'a, const SIZE: usize, HEAP: Storage, S: Str>(s: Seq<u8>)
    ensures
        FlexStrInner::<'a, SIZE, HEAP, S>::from_ref_storage(s) == StorageType::Heap <==> (s
            != S::empty_data() && s.len() > SIZE),
        FlexStrInner::<'a, SIZE, HEAP, S>::from_ref_storage(s) == StorageType::Static <==> s
            == S::empty_data(),
        s != S::empty_data() ==> (FlexStrInner::<'a, SIZE, HEAP, S>::from_ref_storage(s)
            == StorageType::Inline <==> s.len() <= SIZE),
        FlexStrInner::<'a, SIZE, HEAP, S>::from_ref_storage(s) != StorageType::Borrow,
{
}

/// Checking bytes as a C string has exactly one outcome: the bytes are a C string, or they hold
/// no NUL byte, or their first NUL byte comes before their last byte
pub proof fn law_c_str_check_partition(s: Seq<u8>)
    ensures
        valid_c_str(s) <==> c_str_error(s) is None,
        no_nul(s) <==> c_str_error(s) == Some(CStrNulError::NoNulByteFound),
        (exists|p: int| is_first_nul(s, p) && p + 1 < s.len()) <==> c_str_error(s) is Some
            && c_str_error(s) != Some(CStrNulError::NoNulByteFound),
{
    if !no_nul(s) {
        let i = choose|i: int| 0 <= i < s.len() && s[i] == 0u8;
        let p = lemma_first_nul_exists(s, i);
        let q = choose|q: int| is_first_nul(s, q);
        crate::string::c_str::lemma_first_nul_unique(s, p, q);
        if valid_c_str(s) {
            assert(s.drop_last() =~= s.take(s.len() - 1));
            if q < s.len() - 1 {
                assert(s.take(s.len() - 1)[q] == s[q]);
            }
        }
        if q == s.len() - 1 {
            assert(s.drop_last() =~= s.take(q));
        }
        assert forall|r: int| is_first_nul(s, r) implies r == q by {
            crate::string::c_str::lemma_first_nul_unique(s, r, q);
        }
    } else {
        if valid_c_str(s) {
            assert(s[s.len() - 1] == 0u8);
        }
        assert forall|r: int| !is_first_nul(s, r) by {
            if 0 <= r < s.len() {
                assert(s[r] != 0u8);
            }
        }
    }
}

/// A byte sequence holding a NUL byte at `i` has a first NUL byte, at or before `i`
proof fn lemma_first_nul_exists(s: Seq<u8>, i: int) -> (p: int)
    requires
        0 <= i < s.len(),
        s[i] == 0u8,
    ensures
        is_first_nul(s, p),
        p <= i,
    decreases i,
{
    if no_nul(s.take(i)) {
        i
    } else {
        let j = choose|j: int| 0 <= j < s.take(i).len() && s.take(i)[j] == 0u8;
        assert(s[j] == 0u8);
        lemma_first_nul_exists(s, j)
    }
}

/// A UTF-8, raw or byte string is empty exactly when its length is zero
pub proof fn law_empty_iff_zero_len(s: Seq<u8>)
    ensures
        s == TextStr::empty_data() <==> s.len() == 0,
        s == RawBytes::empty_data() <==> s.len() == 0,
        s == BStrBytes::empty_data() <==> s.len() == 0,
{
    if s.len() == 0 {
        assert(s =~= Seq::<u8>::empty());
    }
}

/// A C string is empty exactly when its length, which counts its NUL terminator, is one
pub proof fn law_c_str_empty_iff_len_one(s: Seq<u8>)
    requires
        valid_c_str(s),
    ensures
        s == CStrBytes::empty_data() <==> s.len() == 1,
{
    if s.len() == 1 {
        assert(s =~= seq![0u8]);
    }
}

/// After any sequence of writes into a [crate::builder::StringBuffer] of capacity `cap`, the
/// buffer holds at most `cap` bytes: what it held before followed by the writes that took place,
/// in order, and a write takes place exactly when all of it fits.
pub proof fn law_buffer_writes(content: Seq<u8>, writes: Seq<Seq<u8>>, cap: nat)
    requires
        content.len() <= cap,
    ensures
        write_all(content, writes, cap).len() <= cap,
        write_all(content, writes, cap) == content + accepted_writes(content, writes, cap),
    decreases writes.len(),
{
    if writes.len() == 0 {
        assert(content + Seq::<u8>::empty() =~= content);
    } else {
        law_buffer_writes(content, writes.drop_last(), cap);
        let before = write_all(content, writes.drop_last(), cap);
        let acc = accepted_writes(content, writes.drop_last(), cap);
        if before.len() + writes.last().len() <= cap {
            assert(content + (acc + writes.last()) =~= (content + acc) + writes.last());
        } else {
            assert(acc + Seq::<u8>::empty() =~= acc);
        }
    }
}

/// A reported UTF-8 error is determined by the bytes: any two errors reported for the same bytes
/// give the same `valid_up_to` (the length of the longest valid prefix), and both or neither give
/// an `error_len`; no length is given exactly when the input ends inside a character. Bytes with
/// a reported error are not UTF-8.
pub proof fn law_utf8_error_determined(v: Seq<u8>, e: Utf8Error, f: Utf8Error)
    requires
        utf8_error_reported(v, e),
        utf8_error_reported(v, f),
    ensures
        !vstd::utf8::valid_utf8(v),
        e->valid_up_to == f->valid_up_to,
        e->error_len is None <==> f->error_len is None,
        e->error_len is None <==> is_cut_off_char(v.skip(e->valid_up_to as int)),
{
    let n = e->valid_up_to;
    let k = f->valid_up_to;
    assert(v.take(v.len() as int) =~= v);
    if n < k {
        assert(!vstd::utf8::valid_utf8(v.take(k as int)));
    } else if k < n {
        assert(!vstd::utf8::valid_utf8(v.take(n as int)));
    }
}

/// A C string's text conversion reports exactly the errors that a raw string holding the same
/// bytes less the terminator reports
pub proof fn law_c_str_error_is_text_error(b: Seq<u8>, e: Utf8Error)
    ensures
        CStrBytes::reports_utf8_error(b, e) <==> RawBytes::reports_utf8_error(b.drop_last(), e),
{
}

/// A byte string's text conversion reports a UTF-8 error exactly as the documented details
/// require, so it agrees with a raw string's on every error detail that is determined
pub proof fn law_b_str_error_agrees_with_raw(b: Seq<u8>, e: Utf8Error, f: Utf8Error)
    requires
        BStrBytes::reports_utf8_error(b, e),
        RawBytes::reports_utf8_error(b, f),
    ensures
        e->valid_up_to == f->valid_up_to,
        e->error_len is None <==> f->error_len is None,
{
    law_utf8_error_determined(b, e, f);
}

} // verus!
