//! String kinds that a flexible string can hold, and the conversions between their raw bytes and
//! text.

use vstd::prelude::*;
use vstd::string::StringSliceAdditionalSpecFns;

pub mod b_str;
pub mod c_str;
pub mod os_str;
pub mod path;
pub mod raw_str;
pub mod std_str;

verus! {

/// An error occurred during string conversion due to the source string not being UTF-8 compliant
#[derive(Copy, Clone, Debug, PartialEq, Eq, Structural)]
pub enum Utf8Error {
    /// The source string was not UTF-8, but no further information was available
    Unknown,
    /// The source string was not UTF-8, with the details reported by the standard library
    WithData {
        /// Index up to which the source was valid UTF-8
        valid_up_to: usize,
        /// Length of the invalid sequence, when known
        error_len: Option<usize>,
    },
}

/// A kind of string: which raw byte sequences are values of it, what its empty value is, and how
/// it converts to its owned form and to text.
pub trait Str: Sized {
    /// Regular heap allocated string type of this kind
    type StringType;

    /// Error returned when raw bytes are not a value of this kind
    type ConvertError;

    /// The raw byte sequences that are values of this kind
    spec fn valid_data(bytes: Seq<u8>) -> bool;

    /// The raw bytes of this kind's empty string
    spec fn empty_data() -> Seq<u8>;

    /// The bytes that the text of a value consists of (the whole value, less any terminator)
    spec fn text_data(bytes: Seq<u8>) -> Seq<u8>;

    /// The raw bytes that an owned string of this kind holds
    spec fn string_type_data(s: Self::StringType) -> Seq<u8>;

    /// The empty string is a value of this kind
    proof fn lemma_empty_valid()
        ensures
            Self::valid_data(Self::empty_data()),
    ;

    /// Checks raw bytes that have not yet been vetted, returning them when they are a value of
    /// this kind
    fn try_from_raw_data(bytes: &[u8]) -> (r: Result<&[u8], Self::ConvertError>)
        ensures
            r is Ok <==> Self::valid_data(bytes@),
            r matches Ok(b) ==> b@ == bytes@,
    ;

    /// Returns this kind's static empty string when `bytes` is the empty string
    fn empty(bytes: &[u8]) -> (r: Option<&'static [u8]>)
        ensures
            r is Some <==> bytes@ == Self::empty_data(),
            r matches Some(e) ==> e@ == Self::empty_data(),
    ;

    /// The storage length in bytes (not the number of chars)
    fn length(bytes: &[u8]) -> (r: usize)
        ensures
            r == bytes@.len(),
    ;

    /// Converts a value into this kind's owned string type
    fn to_string_type(bytes: &[u8]) -> (r: Self::StringType)
        requires
            Self::valid_data(bytes@),
        ensures
            Self::string_type_data(r) == bytes@,
    ;

    /// The text that a lossy conversion of a value gives
    spec fn lossy_text(bytes: Seq<u8>) -> Seq<char>;

    /// Converts a value's text to a `String`, replacing what is not UTF-8 with `U+FFFD`
    fn to_string_lossy(bytes: &[u8]) -> (r: String)
        requires
            Self::valid_data(bytes@),
        ensures
            r@ == Self::lossy_text(bytes@),
            vstd::utf8::valid_utf8(Self::text_data(bytes@)) ==> vstd::utf8::encode_utf8(r@)
                == Self::text_data(bytes@),
    ;

    /// The errors that converting the value `bytes` to `str` may report
    spec fn reports_utf8_error(bytes: Seq<u8>, e: Utf8Error) -> bool;

    /// Converts a value to `str` when its text is UTF-8
    fn try_to_str(bytes: &[u8]) -> (r: Result<&str, Utf8Error>)
        requires
            Self::valid_data(bytes@),
        ensures
            r is Ok <==> vstd::utf8::valid_utf8(Self::text_data(bytes@)),
            r matches Ok(s) ==> s.spec_bytes() == Self::text_data(bytes@),
            r matches Err(e) ==> Self::reports_utf8_error(bytes@, e),
    ;
}

} // verus!

verus! {

/// Declares the standard library's UTF-8 error so that it can be carried through verified code
#[verifier::external_type_specification]
#[verifier::external_body]
pub struct ExStdUtf8Error(core::str::Utf8Error);

/// The error that `core::str::from_utf8` returns for bytes that are not UTF-8
pub uninterp spec fn std_from_utf8_error(bytes: Seq<u8>) -> core::str::Utf8Error;

/// The index that `core::str::Utf8Error::valid_up_to` reports for an error
pub uninterp spec fn std_error_valid_up_to(e: core::str::Utf8Error) -> usize;

/// The length that `core::str::Utf8Error::error_len` reports for an error
pub uninterp spec fn std_error_len(e: core::str::Utf8Error) -> Option<usize>;

/// `rest` is a non-empty proper prefix of the UTF-8 encoding of some character: input that ended
/// inside a character
pub open spec fn is_cut_off_char(rest: Seq<u8>) -> bool {
    exists|c: char|
        0 < rest.len() < #[trigger] vstd::utf8::encode_utf8(seq![c]).len() && rest
            == vstd::utf8::encode_utf8(seq![c]).take(rest.len() as int)
}

/// The documented details of a UTF-8 error found in `v`: `valid_up_to` is the largest index up
/// to which `v` is valid UTF-8; no `error_len` is reported exactly when the bytes after it are a
/// character that the end of the input cut off (one to three bytes); otherwise `error_len` is
/// the length, one to three bytes, of the invalid sequence that starts there.
pub open spec fn utf8_error_details(v: Seq<u8>, valid_up_to: usize, error_len: Option<usize>) -> bool {
    &&& valid_up_to < v.len()
    &&& vstd::utf8::valid_utf8(v.take(valid_up_to as int))
    &&& forall|m: int| valid_up_to < m <= v.len() ==> !vstd::utf8::valid_utf8(#[trigger] v.take(m))
    &&& match error_len {
        Some(n) => 1 <= n <= 3 && valid_up_to + n <= v.len() && !is_cut_off_char(
            v.skip(valid_up_to as int),
        ),
        None => v.len() - valid_up_to <= 3 && is_cut_off_char(v.skip(valid_up_to as int)),
    }
}

/// The error of this crate that carries the standard library's details for bytes `v` that are
/// not UTF-8
pub open spec fn std_text_error(v: Seq<u8>) -> Utf8Error {
    Utf8Error::WithData {
        valid_up_to: std_error_valid_up_to(std_from_utf8_error(v)),
        error_len: std_error_len(std_from_utf8_error(v)),
    }
}

/// `e` reports the UTF-8 error in `v` with its documented details
pub open spec fn utf8_error_reported(v: Seq<u8>, e: Utf8Error) -> bool {
    e matches Utf8Error::WithData { valid_up_to, error_len } && utf8_error_details(
        v,
        valid_up_to,
        error_len,
    )
}

/// Calls `core::str::from_utf8`. Its documentation promises `Ok` exactly for valid UTF-8 input,
/// with the returned `str` borrowing the input bytes unchanged; on failure, the error's
/// `valid_up_to` is the maximum index such that the prefix up to it would convert, and its
/// `error_len` is as [utf8_error_details] states. The error is a function of the input bytes
/// alone, named [std_from_utf8_error].
#[verifier::external_body]
pub(crate) fn str_from_utf8(v: &[u8]) -> (r: Result<&str, core::str::Utf8Error>)
    ensures
        r is Ok <==> vstd::utf8::valid_utf8(v@),
        r matches Ok(s) ==> s.spec_bytes() == v@,
        r matches Err(e) ==> e == std_from_utf8_error(v@),
        r matches Err(e) ==> utf8_error_details(v@, std_error_valid_up_to(e), std_error_len(e)),
{
    core::str::from_utf8(v)
}

/// Calls `core::str::Utf8Error::valid_up_to`, which reports the error's index
#[verifier::external_body]
pub(crate) fn std_utf8_error_valid_up_to(e: &core::str::Utf8Error) -> (r: usize)
    ensures
        r == std_error_valid_up_to(*e),
{
    e.valid_up_to()
}

/// Calls `core::str::Utf8Error::error_len`, which reports the error's length
#[verifier::external_body]
pub(crate) fn std_utf8_error_len(e: &core::str::Utf8Error) -> (r: Option<usize>)
    ensures
        r == std_error_len(*e),
{
    e.error_len()
}

/// Converts the standard library's UTF-8 error into this crate's error, keeping its details
pub fn utf8_error_from_std(e: &core::str::Utf8Error) -> (r: Utf8Error)
    ensures
        r == (Utf8Error::WithData {
            valid_up_to: std_error_valid_up_to(*e),
            error_len: std_error_len(*e),
        }),
{
    Utf8Error::WithData { valid_up_to: std_utf8_error_valid_up_to(e), error_len: std_utf8_error_len(e) }
}

/// Interprets bytes as `str`, reporting a [Utf8Error] with the standard library's details when they
/// are not UTF-8
pub fn bytes_to_str(v: &[u8]) -> (r: Result<&str, Utf8Error>)
    ensures
        r is Ok <==> vstd::utf8::valid_utf8(v@),
        r matches Ok(s) ==> s.spec_bytes() == v@,
        r matches Err(e) ==> e == std_text_error(v@) && utf8_error_reported(v@, e),
{
    match str_from_utf8(v) {
        Ok(s) => Ok(s),
        Err(e) => Err(utf8_error_from_std(&e)),
    }
}

} // verus!

verus! {

/// Views bytes already known to be UTF-8 as `str`
pub fn valid_bytes_as_str(v: &[u8]) -> (r: &str)
    requires
        vstd::utf8::valid_utf8(v@),
    ensures
        r.spec_bytes() == v@,
{
    match str_from_utf8(v) {
        Ok(s) => s,
        Err(_) => {
            proof {
                assert(false);
            }
            ""
        },
    }
}

} // verus!

verus! {

/// Compares two byte slices for equality
pub fn bytes_eq(a: &[u8], b: &[u8]) -> (r: bool)
    ensures
        r == (a@ == b@),
{
    if a.len() != b.len() {
        return false;
    }
    let mut i: usize = 0;
    while i < a.len()
        invariant
            a@.len() == b@.len(),
            i <= a@.len(),
            forall|j: int| 0 <= j < i ==> a@[j] == b@[j],
        decreases a@.len() - i,
    {
        if a[i] != b[i] {
            return false;
        }
        i = i + 1;
    }
    assert(a@ =~= b@);
    true
}

} // verus!

verus! {

/// The text that `String::from_utf8_lossy` makes of the given bytes
pub uninterp spec fn std_utf8_lossy(bytes: Seq<u8>) -> Seq<char>;

/// Calls `String::from_utf8_lossy` and takes ownership of its result. Its documentation promises
/// that valid UTF-8 comes back unchanged; what the `U+FFFD` replacements give otherwise is left to
/// [std_utf8_lossy].
#[verifier::external_body]
pub(crate) fn utf8_lossy_string(v: &[u8]) -> (r: String)
    ensures
        r@ == std_utf8_lossy(v@),
        vstd::utf8::valid_utf8(v@) ==> vstd::utf8::encode_utf8(r@) == v@,
{
    String::from_utf8_lossy(v).into_owned()
}

} // verus!
