//! Sizes used to define custom string types.

use vstd::prelude::*;

use crate::string::Str;

verus! {

/// Padding the size of a pointer (on 64-bit platforms) minus one
pub const PTR_SIZED_PAD: usize = 7;

/// Using this inline capacity gives a type with the same memory size as a builtin `String` (on
/// 64-bit platforms)
pub const STRING_SIZED_INLINE: usize = 22;

/// Trait for defining the sizes of the storage variants of a string type
pub trait Size<STR: Str> {
    /// Pad type and size for the heap variant (only [Pad] supported)
    type HeapPad;
    /// Pad type and size for the borrowed variants (only [Pad] supported)
    type BorrowPad;
    /// Type and size used for inline strings
    type InlineStorage;
}

/// Type that supplies `N` bytes of internal padding to the storage variants
#[derive(Clone, Copy)]
pub struct Pad<const N: usize>;

impl<const N: usize> Default for Pad<N> {
    /// Padding holds nothing, so every value is the same
    fn default() -> (r: Self)
        ensures
            r == (Pad::<N>),
    {
        Pad
    }
}

/// Predefined [Size] for string types using a two word heap type (such as an `Rc<str>`), with the
/// same inline size as a `String`
pub struct TwoWordHeapStringSize;

impl<STR: Str> Size<STR> for TwoWordHeapStringSize {
    type HeapPad = Pad<PTR_SIZED_PAD>;
    type BorrowPad = Pad<PTR_SIZED_PAD>;
    type InlineStorage = [u8; STRING_SIZED_INLINE];
}

} // verus!
