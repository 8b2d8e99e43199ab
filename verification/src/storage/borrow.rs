use vstd::prelude::*;

use crate::storage::StorageType;

verus! {

/// Storage for a wrapped string literal or a borrowed string
#[derive(Clone, Copy)]
pub struct BorrowStr<'a> {
    /// The wrapped string's bytes
    pub string: &'a [u8],
    /// Which of the two borrowed storage types this is
    pub marker: StorageType,
}

impl<'a> BorrowStr<'a> {
    /// Wraps a string literal
    pub fn from_static(s: &'static [u8]) -> (r: BorrowStr<'static>)
        ensures
            r.string@ == s@,
            r.marker == StorageType::Static,
    {
        BorrowStr { string: s, marker: StorageType::Static }
    }

    /// Wraps a borrowed string
    pub fn from_borrow(s: &'a [u8]) -> (r: Self)
        ensures
            r.string@ == s@,
            r.marker == StorageType::Borrow,
    {
        BorrowStr { string: s, marker: StorageType::Borrow }
    }
}

} // verus!
