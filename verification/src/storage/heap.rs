use vstd::prelude::*;

use crate::storage::{Storage, StorageType};

verus! {

/// Heap-based storage for a string
pub struct HeapStr<HEAP> {
    /// The heap value holding the string's bytes
    pub heap: HEAP,
    /// Always [StorageType::Heap]
    pub marker: StorageType,
}

impl<HEAP: Storage> HeapStr<HEAP> {
    /// Wraps an existing heap value
    pub fn from_heap(t: HEAP) -> (r: Self)
        ensures
            r.heap == t,
            r.marker == StorageType::Heap,
    {
        HeapStr { heap: t, marker: StorageType::Heap }
    }

    /// Copies a string's bytes into a new heap value
    pub fn from_ref(s: &[u8]) -> (r: Self)
        ensures
            r.heap.heap_data() == s@,
            r.marker == StorageType::Heap,
    {
        Self::from_heap(HEAP::from_ref(s))
    }
}

} // verus!
