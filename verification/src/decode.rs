//! Reading captured bytes as text.

use vstd::prelude::*;
use vstd::utf8::{decode_utf8, valid_utf8};

verus! {

/// The error of `String::from_utf8`, carried through unopened.
#[verifier::external_type_specification]
#[verifier::external_body]
pub struct ExFromUtf8Error(std::string::FromUtf8Error);

/// The bytes held by the error of a failed conversion: what its `as_bytes` and `into_bytes`
/// hand out.
pub uninterp spec fn rejected_bytes(error: std::string::FromUtf8Error) -> Seq<u8>;

/// Calls `String::from_utf8`. Trusted: the conversion succeeds exactly on well-formed UTF-8
/// and then yields the characters that the bytes encode; when it fails, the error holds the
/// bytes that were passed in.
#[verifier::external_body]
pub(crate) fn string_from_utf8(bytes: Vec<u8>) -> (r: Result<String, std::string::FromUtf8Error>)
    ensures
        match r {
            Ok(text) => valid_utf8(bytes@) && text@ == decode_utf8(bytes@),
            Err(error) => !valid_utf8(bytes@) && rejected_bytes(error) == bytes@,
        },
{
    String::from_utf8(bytes)
}

/// The text that `String::from_utf8_lossy` makes of any bytes: on well-formed UTF-8 the
/// characters that the bytes encode, and otherwise that text with a replacement character
/// for each ill-formed part.
pub uninterp spec fn lossy_text(bytes: Seq<u8>) -> Seq<char>;

/// Calls `String::from_utf8_lossy`. Trusted: the text depends on the bytes alone, and on
/// well-formed UTF-8 it is the characters that the bytes encode.
#[verifier::external_body]
pub(crate) fn string_from_utf8_lossy(bytes: &Vec<u8>) -> (text: String)
    ensures
        text@ == lossy_text(bytes@),
        valid_utf8(bytes@) ==> text@ == decode_utf8(bytes@),
{
    String::from_utf8_lossy(bytes).into_owned()
}

} // verus!
