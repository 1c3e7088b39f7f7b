//! The library's trusted boundary: UTF-8 validation of byte sequences,
//! regex pattern compilation and matching, and string comparison. Each
//! function here is believed on its contract; everything built on top of
//! them is verified.

use vstd::prelude::*;

verus! {

/// Whether `regex::Regex::new` accepts the pattern. Compilation succeeds
/// or fails as a function of the pattern text alone (its documentation:
/// an error is returned for an invalid pattern, or for a valid pattern
/// whose compiled form exceeds the default size limit).
pub uninterp spec fn regex_valid(pattern: Seq<char>) -> bool;

/// Whether `regex::Regex::is_match` finds a match for the pattern
/// anywhere in the text. The result is a function of the pattern and the
/// text alone.
pub uninterp spec fn regex_match(pattern: Seq<char>, text: Seq<char>) -> bool;

/// Relies on `core::str::from_utf8`: it returns `Ok` exactly when the
/// bytes are a valid UTF-8 encoding, and the resulting text is their
/// decoding.
#[verifier::external_body]
pub fn bytes_as_str(b: &Vec<u8>) -> (r: Option<&str>)
    ensures
        r is Some <==> vstd::utf8::valid_utf8(b@),
        r matches Some(s) ==> s@ == vstd::utf8::decode_utf8(b@),
{
    core::str::from_utf8(b).ok()
}

/// Relies on `regex::Regex::new` (succeeds exactly on the patterns named
/// by `regex_valid`) and `regex::Regex::is_match` (returns the result
/// named by `regex_match`). Compilation failure is reported as `None`,
/// never by panicking.
#[verifier::external_body]
pub fn regex_match_text(pattern: &str, text: &str) -> (r: Option<bool>)
    ensures
        r is Some <==> regex_valid(pattern@),
        r matches Some(m) ==> m == regex_match(pattern@, text@),
{
    match regex::Regex::new(pattern) {
        Ok(re) => Some(re.is_match(text)),
        Err(_) => None,
    }
}

/// Relies on `str`'s `PartialEq`: two string slices are equal exactly when
/// their character sequences are.
#[verifier::external_body]
pub fn str_eq(a: &str, b: &str) -> (r: bool)
    ensures
        r == (a@ == b@),
{
    a == b
}

} // verus!
