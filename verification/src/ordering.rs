//! Byte-wise lexicographic ordering of flexible UTF-8 strings, the order of `str`.

use core::cmp::Ordering;
use vstd::prelude::*;
use vstd::std_specs::cmp::{PartialEqSpec, PartialOrdSpec, PartialOrdSpecImpl};

use crate::storage::Storage;
use crate::string::std_str::FlexStr;

verus! {

/// Lexicographic comparison of byte sequences: the first differing byte decides, and a proper
/// prefix comes first
pub open spec fn lex_cmp(a: Seq<u8>, b: Seq<u8>) -> Ordering
    decreases a.len(),
{
    if a.len() == 0 {
        if b.len() == 0 {
            Ordering::Equal
        } else {
            Ordering::Less
        }
    } else if b.len() == 0 {
        Ordering::Greater
    } else if a[0] < b[0] {
        Ordering::Less
    } else if a[0] > b[0] {
        Ordering::Greater
    } else {
        lex_cmp(a.drop_first(), b.drop_first())
    }
}

/// Lexicographic comparison is antisymmetric: swapping the operands reverses the result
pub proof fn law_lex_cmp_reverse(a: Seq<u8>, b: Seq<u8>)
    ensures
        lex_cmp(a, b) == Ordering::Less <==> lex_cmp(b, a) == Ordering::Greater,
        lex_cmp(a, b) == Ordering::Equal <==> lex_cmp(b, a) == Ordering::Equal,
    decreases a.len(),
{
    if a.len() > 0 && b.len() > 0 && a[0] == b[0] {
        law_lex_cmp_reverse(a.drop_first(), b.drop_first());
    }
}

/// Lexicographic comparison finds two sequences equal exactly when they are equal
pub proof fn law_lex_cmp_equal(a: Seq<u8>, b: Seq<u8>)
    ensures
        lex_cmp(a, b) == Ordering::Equal <==> a == b,
    decreases a.len(),
{
    if a.len() > 0 && b.len() > 0 {
        law_lex_cmp_equal(a.drop_first(), b.drop_first());
        if a[0] == b[0] && a.drop_first() == b.drop_first() {
            assert(a =~= seq![a[0]] + a.drop_first());
            assert(b =~= seq![b[0]] + b.drop_first());
        }
        if a == b {
            assert(a.drop_first() == b.drop_first());
        }
    } else if a.len() == 0 && b.len() == 0 {
        assert(a =~= b);
    }
}

/// Equality and ordering of flexible strings agree: two strings are `==` exactly when
/// `partial_cmp` finds them equal, and swapping the operands of `partial_cmp` reverses its result
pub proof fn law_eq_agrees_with_partial_cmp<
    'a,
    'b,
    const SIZE: usize,
    HEAP: Storage + 'static,
    HEAP2: Storage + 'static,
>(a: FlexStr<'a, SIZE, HEAP>, b: FlexStr<'b, SIZE, HEAP2>)
    ensures
        PartialEqSpec::eq_spec(&a, &b) <==> PartialOrdSpec::partial_cmp_spec(&a, &b) == Some(
            Ordering::Equal,
        ),
        PartialOrdSpec::partial_cmp_spec(&a, &b) == Some(Ordering::Less)
            <==> PartialOrdSpec::partial_cmp_spec(&b, &a) == Some(Ordering::Greater),
{
    law_lex_cmp_equal(a@, b@);
    law_lex_cmp_reverse(a@, b@);
}

/// Byte-wise order: two sequences that agree before index `i` and differ at `i` are ordered as
/// their bytes at `i` are, as unsigned numbers
pub proof fn law_lex_cmp_first_difference(a: Seq<u8>, b: Seq<u8>, i: int)
    requires
        0 <= i < a.len(),
        i < b.len(),
        forall|j: int| 0 <= j < i ==> a[j] == b[j],
        a[i] != b[i],
    ensures
        a[i] < b[i] ==> lex_cmp(a, b) == Ordering::Less,
        a[i] > b[i] ==> lex_cmp(a, b) == Ordering::Greater,
    decreases i,
{
    if i > 0 {
        assert(a[0] == b[0]);
        law_lex_cmp_first_difference(a.drop_first(), b.drop_first(), i - 1);
    }
}

/// A proper prefix comes before the longer sequence
pub proof fn law_lex_cmp_proper_prefix(a: Seq<u8>, b: Seq<u8>)
    requires
        a.len() < b.len(),
        forall|j: int| 0 <= j < a.len() ==> a[j] == b[j],
    ensures
        lex_cmp(a, b) == Ordering::Less,
    decreases a.len(),
{
    if a.len() > 0 {
        assert(a[0] == b[0]);
        law_lex_cmp_proper_prefix(a.drop_first(), b.drop_first());
    }
}

/// Flexible strings are ordered byte-wise, as `str` orders: at the first index where their bytes
/// differ, the string with the smaller byte comes first, and a proper prefix comes before the
/// longer string
pub proof fn law_partial_cmp_bytewise<
    'a,
    'b,
    const SIZE: usize,
    HEAP: Storage + 'static,
    HEAP2: Storage + 'static,
>(a: FlexStr<'a, SIZE, HEAP>, b: FlexStr<'b, SIZE, HEAP2>, i: int)
    requires
        0 <= i <= a@.len(),
        i <= b@.len(),
        forall|j: int| 0 <= j < i ==> a@[j] == b@[j],
    ensures
        i < a@.len() && i < b@.len() && a@[i] < b@[i] ==> PartialOrdSpec::partial_cmp_spec(&a, &b)
            == Some(Ordering::Less),
        i < a@.len() && i < b@.len() && a@[i] > b@[i] ==> PartialOrdSpec::partial_cmp_spec(&a, &b)
            == Some(Ordering::Greater),
        i == a@.len() && i < b@.len() ==> PartialOrdSpec::partial_cmp_spec(&a, &b) == Some(
            Ordering::Less,
        ),
{
    if i < a@.len() && i < b@.len() && a@[i] != b@[i] {
        law_lex_cmp_first_difference(a@, b@, i);
    }
    if i == a@.len() && i < b@.len() {
        law_lex_cmp_proper_prefix(a@, b@);
    }
}

/// Compares two byte slices lexicographically
pub fn compare_bytes(a: &[u8], b: &[u8]) -> (r: Ordering)
    ensures
        r == lex_cmp(a@, b@),
{
    let mut i: usize = 0;
    let ghost mut k: int = 0;
    assert(a@.skip(0) =~= a@);
    assert(b@.skip(0) =~= b@);
    while i < a.len() && i < b.len()
        invariant
            k == i,
            i <= a@.len(),
            i <= b@.len(),
            lex_cmp(a@, b@) == lex_cmp(a@.skip(k), b@.skip(k)),
        decreases a@.len() - i,
    {
        if a[i] < b[i] {
            return Ordering::Less;
        } else if a[i] > b[i] {
            return Ordering::Greater;
        }
        proof {
            assert(a@.skip(k).drop_first() =~= a@.skip(k + 1));
            assert(b@.skip(k).drop_first() =~= b@.skip(k + 1));
            k = k + 1;
        }
        i = i + 1;
    }
    if i < b.len() {
        Ordering::Less
    } else if i < a.len() {
        Ordering::Greater
    } else {
        Ordering::Equal
    }
}

impl<'a, 'b, const SIZE: usize, HEAP: Storage + 'static, HEAP2: Storage + 'static> PartialOrd<
    FlexStr<'b, SIZE, HEAP2>,
> for FlexStr<'a, SIZE, HEAP> {
    /// Strings are ordered by their text: byte-wise lexicographically
    fn partial_cmp(&self, other: &FlexStr<'b, SIZE, HEAP2>) -> (r: Option<Ordering>) {
        Some(compare_bytes(self.as_str_type().as_bytes(), other.as_str_type().as_bytes()))
    }
}

impl<'a, 'b, const SIZE: usize, HEAP: Storage + 'static, HEAP2: Storage + 'static> PartialOrdSpecImpl<
    FlexStr<'b, SIZE, HEAP2>,
> for FlexStr<'a, SIZE, HEAP> {
    open spec fn obeys_partial_cmp_spec() -> bool {
        true
    }

    open spec fn partial_cmp_spec(&self, other: &FlexStr<'b, SIZE, HEAP2>) -> Option<Ordering> {
        Some(lex_cmp(self@, other@))
    }
}

} // verus!
