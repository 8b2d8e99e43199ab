//! The human-readable messages of the library's error types.

use vstd::prelude::*;
use vstd::string::StringExecFns;

use crate::storage::{StorageType, WrongStorageType};
use crate::string::c_str::{CStrNulError, CStrNullError};
use crate::string::Utf8Error;
use crate::support::InteriorNulError;

verus! {

/// The character of a decimal digit
pub open spec fn digit_char(d: nat) -> char {
    (('0' as nat) + d) as char
}

/// The decimal digits of `n`, most significant first, without leading zeros
pub open spec fn decimal(n: nat) -> Seq<char>
    decreases n,
{
    if n < 10 {
        seq![digit_char(n)]
    } else {
        decimal(n / 10).push(digit_char(n % 10))
    }
}

/// Calls `ToString::to_string` on a `usize`, whose `Display` writes the number in decimal
#[verifier::external_body]
fn usize_to_string(n: usize) -> (r: String)
    ensures
        r@ == decimal(n as nat),
{
    n.to_string()
}

/// The text `before`, then `n` in decimal, then `after`
fn text_around_number(before: &str, n: usize, after: &str) -> (r: String)
    ensures
        r@ == before@ + decimal(n as nat) + after@,
{
    let mut r = String::from_str(before);
    let digits = usize_to_string(n);
    r.append(digits.as_str());
    r.append(after);
    r
}

/// The name of a storage type, as its variant is written
pub open spec fn storage_type_name(t: StorageType) -> Seq<char> {
    match t {
        StorageType::Static => "Static"@,
        StorageType::Inline => "Inline"@,
        StorageType::Heap => "Heap"@,
        StorageType::Borrow => "Borrow"@,
    }
}

impl StorageType {
    /// Returns the name of this storage type, as its variant is written
    pub fn name(&self) -> (r: &'static str)
        ensures
            r@ == storage_type_name(*self),
    {
        match self {
            StorageType::Static => "Static",
            StorageType::Inline => "Inline",
            StorageType::Heap => "Heap",
            StorageType::Borrow => "Borrow",
        }
    }
}

impl WrongStorageType {
    /// The message describing this error
    pub open spec fn spec_message(self) -> Seq<char> {
        "The FlexStr did not use the storage type expected (expected: "@ + storage_type_name(
            self.expected,
        ) + ", actual: "@ + storage_type_name(self.actual) + ")"@
    }

    /// Returns the message describing this error
    pub fn message(&self) -> (r: String)
        ensures
            r@ == self.spec_message(),
    {
        let mut r = String::from_str("The FlexStr did not use the storage type expected (expected: ");
        r.append(self.expected.name());
        r.append(", actual: ");
        r.append(self.actual.name());
        r.append(")");
        r
    }
}

impl Utf8Error {
    /// The message describing this error
    pub open spec fn spec_message(self) -> Seq<char> {
        match self {
            Utf8Error::Unknown => "The source string was not UTF-8. No further information is available"@,
            Utf8Error::WithData { valid_up_to, .. } => "The source string was not UTF-8. It is valid up to position "@
                + decimal(valid_up_to as nat),
        }
    }

    /// Returns the message describing this error
    pub fn message(&self) -> (r: String)
        ensures
            r@ == self.spec_message(),
    {
        match self {
            Utf8Error::Unknown => String::from_str(
                "The source string was not UTF-8. No further information is available",
            ),
            Utf8Error::WithData { valid_up_to, .. } => {
                let r = text_around_number(
                    "The source string was not UTF-8. It is valid up to position ",
                    *valid_up_to,
                    "",
                );
                proof {
                    reveal_strlit("");
                }
                r
            },
        }
    }
}

/// The message of a C string error, with the position of an interior NUL byte if one was found
pub open spec fn c_str_error_message(interior: Option<usize>) -> Seq<char> {
    match interior {
        Some(pos) => "The byte slice had an interior null byte (Pos: "@ + decimal(pos as nat) + ")"@,
        None => "The byte slice had no trailing null byte"@,
    }
}

impl CStrNulError {
    /// Returns the message describing this error
    pub fn message(&self) -> (r: String)
        ensures
            r@ == c_str_error_message(
                match *self {
                    CStrNulError::InteriorNulByte(pos) => Some(pos),
                    CStrNulError::NoNulByteFound => None,
                },
            ),
    {
        match self {
            CStrNulError::InteriorNulByte(pos) => text_around_number(
                "The byte slice had an interior null byte (Pos: ",
                *pos,
                ")",
            ),
            CStrNulError::NoNulByteFound => String::from_str("The byte slice had no trailing null byte"),
        }
    }
}

impl CStrNullError {
    /// Returns the message describing this error
    pub fn message(&self) -> (r: String)
        ensures
            r@ == c_str_error_message(
                match *self {
                    CStrNullError::InteriorNullByte(pos) => Some(pos),
                    CStrNullError::NoNullByteFound => None,
                },
            ),
    {
        match self {
            CStrNullError::InteriorNullByte(pos) => text_around_number(
                "The byte slice had an interior null byte (Pos: ",
                *pos,
                ")",
            ),
            CStrNullError::NoNullByteFound => String::from_str("The byte slice had no trailing null byte"),
        }
    }
}

impl InteriorNulError {
    /// Returns the message describing this error
    pub fn message(&self) -> (r: String)
        ensures
            r@ == "Interior NUL byte found at position "@ + decimal(self.position as nat),
    {
        let r = text_around_number("Interior NUL byte found at position ", self.position, "");
        proof {
            reveal_strlit("");
        }
        r
    }
}

} // verus!
