use vstd::prelude::*;

use crate::storage::StorageType;

verus! {

/// Storage for a wrapped UTF-8 string literal
#[derive(Clone, Copy)]
pub struct StaticStr {
    /// The wrapped literal
    pub literal: &'static str,
    /// Always [StorageType::Static]
    pub marker: StorageType,
}

impl StaticStr {
    /// Wraps a string literal
    pub fn from_static(s: &'static str) -> (r: Self)
        ensures
            r.literal == s,
            r.marker == StorageType::Static,
    {
        StaticStr { literal: s, marker: StorageType::Static }
    }
}

} // verus!
