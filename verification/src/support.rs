//! Conversions between string types and their raw bytes.

use vstd::prelude::*;
use vstd::string::StringSliceAdditionalSpecFns;
use vstd::utf8::valid_utf8;

use crate::string::std_str::lemma_str_valid;
use crate::string::valid_bytes_as_str;

verus! {

/// Error type returned when a C string has an interior NUL byte
#[derive(Debug, Clone, Copy, PartialEq, Eq, Structural)]
pub struct InteriorNulError {
    /// The position of the interior NUL byte
    pub position: usize,
}

/// Trait for string types that can be converted to and from bytes
pub trait StringToFromBytes {
    /// The raw bytes that are values of this type
    spec fn valid_bytes(bytes: Seq<u8>) -> bool;

    /// A value's raw bytes (including any terminator)
    spec fn raw_bytes(&self) -> Seq<u8>;

    /// A value's bytes without any terminator
    spec fn text_bytes(&self) -> Seq<u8>;

    /// Views bytes known to be a value of this type as that type
    fn bytes_as_self(bytes: &[u8]) -> (r: &Self)
        requires
            Self::valid_bytes(bytes@),
        ensures
            r.raw_bytes() == bytes@,
    ;

    /// Views a value as its bytes, without any terminator
    fn self_as_bytes(&self) -> (r: &[u8])
        ensures
            r@ == self.text_bytes(),
    ;

    /// Views a value as its raw bytes, including any terminator
    fn self_as_raw_bytes(&self) -> (r: &[u8])
        ensures
            r@ == self.raw_bytes(),
            Self::valid_bytes(r@),
    ;
}

/// Trait for string types that can be converted from mutable bytes to a mutable string reference
pub trait StringFromBytesMut: StringToFromBytes {
    /// Views mutable bytes known to be a value of this type as that type
    fn bytes_as_self_mut(bytes: &mut [u8]) -> (r: &mut Self)
        requires
            Self::valid_bytes(old(bytes)@),
        ensures
            (*r).raw_bytes() == old(bytes)@,
            final(bytes)@ == (*final(r)).raw_bytes(),
    ;
}

impl StringToFromBytes for str {
    open spec fn valid_bytes(bytes: Seq<u8>) -> bool {
        valid_utf8(bytes)
    }

    open spec fn raw_bytes(&self) -> Seq<u8> {
        self.spec_bytes()
    }

    open spec fn text_bytes(&self) -> Seq<u8> {
        self.spec_bytes()
    }

    fn bytes_as_self(bytes: &[u8]) -> (r: &str) {
        valid_bytes_as_str(bytes)
    }

    fn self_as_bytes(&self) -> (r: &[u8]) {
        self.self_as_raw_bytes()
    }

    fn self_as_raw_bytes(&self) -> (r: &[u8]) {
        proof {
            lemma_str_valid(self);
        }
        self.as_bytes()
    }
}

impl StringToFromBytes for [u8] {
    open spec fn valid_bytes(bytes: Seq<u8>) -> bool {
        true
    }

    open spec fn raw_bytes(&self) -> Seq<u8> {
        self@
    }

    open spec fn text_bytes(&self) -> Seq<u8> {
        self@
    }

    fn bytes_as_self(bytes: &[u8]) -> (r: &[u8]) {
        bytes
    }

    fn self_as_bytes(&self) -> (r: &[u8]) {
        self.self_as_raw_bytes()
    }

    fn self_as_raw_bytes(&self) -> (r: &[u8]) {
        self
    }
}

impl StringFromBytesMut for [u8] {
    fn bytes_as_self_mut(bytes: &mut [u8]) -> (r: &mut [u8]) {
        bytes
    }
}

} // verus!
