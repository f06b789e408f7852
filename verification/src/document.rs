//! The JSON document that the tool prints, read with the `json` crate.

use vstd::prelude::*;
use vstd::utf8::encode_utf8;

verus! {

/// A JSON value of the `json` crate, carried through unopened.
#[verifier::external_type_specification]
#[verifier::external_body]
pub struct ExJsonValue(json::JsonValue);

/// The error of the `json` crate, carried through unopened.
#[verifier::external_type_specification]
#[verifier::external_body]
pub struct ExJsonError(json::Error);

/// The string members of a JSON value: for an object, each name under which a string
/// stands, with that string; for any other value, nothing.
pub uninterp spec fn text_members(value: json::JsonValue) -> Map<Seq<char>, Seq<char>>;

/// The text of a JSON value that is a string; `None` for any other value.
pub uninterp spec fn string_content(value: json::JsonValue) -> Option<Seq<char>>;

/// What `json::parse` makes of a text: the string members of the value that the text
/// denotes, or the reason why the text is no JSON.
pub uninterp spec fn parsed(text: Seq<char>) -> Result<Map<Seq<char>, Seq<char>>, json::Error>;

/// What a parse came to, as far as this library reads it: the string members of the
/// parsed value, or the parser's error.
pub open spec fn reading(document: Result<json::JsonValue, json::Error>) -> Result<
    Map<Seq<char>, Seq<char>>,
    json::Error,
> {
    match document {
        Ok(value) => Ok(text_members(value)),
        Err(cause) => Err(cause),
    }
}

/// The string that stands under `key` among the members, if one does.
pub open spec fn member_text(members: Map<Seq<char>, Seq<char>>, key: Seq<char>) -> Option<
    Seq<char>,
> {
    if members.contains_key(key) {
        Some(members[key])
    } else {
        None
    }
}

/// The most digits in a row that a text may hold to be handed to `json::parse`, which
/// counts the digits of a fraction in an `i16`.
pub const DIGIT_RUN_LIMIT: usize = 32767;

/// An ASCII digit.
pub open spec fn is_digit(byte: u8) -> bool {
    0x30 <= byte <= 0x39
}

/// The number of digits that stand in a row just before position `end`.
pub open spec fn digit_run(bytes: Seq<u8>, end: int) -> nat
    decreases end,
{
    if 0 < end <= bytes.len() && is_digit(bytes[end - 1]) {
        1 + digit_run(bytes, end - 1)
    } else {
        0
    }
}

/// Nowhere in `bytes` do more than [`DIGIT_RUN_LIMIT`] digits stand in a row.
pub open spec fn digit_runs_fit(bytes: Seq<u8>) -> bool {
    forall|end: int|
        0 <= end <= bytes.len() ==> #[trigger] digit_run(bytes, end) <= DIGIT_RUN_LIMIT
}

/// Tests whether `bytes` can be handed to the parser: see [`digit_runs_fit`].
pub fn has_fitting_digit_runs(bytes: &[u8]) -> (fits: bool)
    ensures
        fits == digit_runs_fit(bytes@),
{
    let mut run: usize = 0;
    let mut at: usize = 0;
    while at < bytes.len()
        invariant
            at <= bytes.len(),
            run == digit_run(bytes@, at as int),
            forall|end: int|
                0 <= end <= at ==> #[trigger] digit_run(bytes@, end) <= DIGIT_RUN_LIMIT,
        decreases bytes.len() - at,
    {
        let byte: u8 = bytes[at];
        if 0x30 <= byte && byte <= 0x39 {
            if run == DIGIT_RUN_LIMIT {
                assert(digit_run(bytes@, at + 1) == DIGIT_RUN_LIMIT + 1);
                return false;
            }
            run = run + 1;
        } else {
            run = 0;
        }
        at = at + 1;
    }
    true
}

/// Calls `json::parse`. Trusted: what the parser returns depends on the text alone. The
/// parser counts the digits of a fraction in an `i16`, and a count that overflows stops the
/// program, so a text with a longer run of digits is kept from it; on any other text the
/// parser returns.
#[verifier::external_body]
pub(crate) fn parse(text: &str) -> (r: Result<json::JsonValue, json::Error>)
    requires
        digit_runs_fit(encode_utf8(text@)),
    ensures
        reading(r) == parsed(text@),
{
    json::parse(text)
}

/// Indexes a `json::JsonValue` by a key, through its `Index<&str>`. Trusted: what comes
/// back is the member of that name where the value is an object that has one, and the null
/// value otherwise; so it is a string exactly where the key names a string member, and
/// then that string.
#[verifier::external_body]
pub(crate) fn index<'a>(value: &'a json::JsonValue, key: &str) -> (r: &'a json::JsonValue)
    ensures
        string_content(*r) == member_text(text_members(*value), key@),
{
    &value[key]
}

/// Calls `json::JsonValue::as_str`. Trusted: a string hands out its text, and any other
/// value nothing.
#[verifier::external_body]
pub(crate) fn as_str<'a>(value: &'a json::JsonValue) -> (r: Option<&'a str>)
    ensures
        match r {
            Some(text) => string_content(*value) == Some(text@),
            None => string_content(*value) is None,
        },
{
    value.as_str()
}

} // verus!
