//! Trusted boundary to the JSON library and to UTF-8 decoding. Every item
//! here wraps exactly one outside function; the verified payload parsing in
//! `parse` is built on these.
//!
//! serde_json's results depend on their arguments alone, so they are given
//! names: `json_wellformed` and the two `text_*_fields` maps describe what
//! `from_str` yields from a given text, the two `obj_*_fields` maps describe
//! the top-level members a parsed document holds, and `json_as_text` /
//! `json_as_uint` describe what the two accessors read off a value. No
//! contract says what these names are on given inputs; the parsing logic is
//! verified for every value of them.

use vstd::prelude::*;
use vstd::utf8::{decode_utf8, valid_utf8};

verus! {

#[verifier::external_type_specification]
#[verifier::external_body]
pub struct ExJsonValue(serde_json::Value);

#[verifier::external_type_specification]
#[verifier::external_body]
pub struct ExJsonError(serde_json::Error);

/// Whether serde_json::from_str parses the text as one well-formed JSON
/// document.
pub uninterp spec fn json_wellformed(text: Seq<char>) -> bool;

/// The top-level members of the document in the text whose value is a JSON
/// string, each mapped to that string's characters; empty when the text is
/// not a well-formed JSON object.
pub uninterp spec fn text_str_fields(text: Seq<char>) -> Map<Seq<char>, Seq<char>>;

/// The top-level members of the document in the text whose value is a
/// non-negative JSON integer that fits in sixty-four bits, each mapped to
/// that number; empty when the text is not a well-formed JSON object.
pub uninterp spec fn text_u64_fields(text: Seq<char>) -> Map<Seq<char>, u64>;

/// The string-valued top-level members a parsed document holds, as
/// [`text_str_fields`] describes them for the document's text.
pub uninterp spec fn obj_str_fields(v: serde_json::Value) -> Map<Seq<char>, Seq<char>>;

/// The u64-valued top-level members a parsed document holds, as
/// [`text_u64_fields`] describes them for the document's text.
pub uninterp spec fn obj_u64_fields(v: serde_json::Value) -> Map<Seq<char>, u64>;

/// What serde_json::Value::as_str returns on a value: the characters when
/// the value is a JSON string, nothing otherwise.
pub uninterp spec fn json_as_text(v: serde_json::Value) -> Option<Seq<char>>;

/// What serde_json::Value::as_u64 returns on a value: the number when the
/// value is a non-negative JSON integer in range, nothing otherwise.
pub uninterp spec fn json_as_uint(v: serde_json::Value) -> Option<u64>;

/// Relies on std's str::from_utf8: it succeeds exactly on valid UTF-8 and
/// returns the text those bytes encode.
#[verifier::external_body]
pub(crate) fn bytes_as_str(data: &[u8]) -> (r: Option<&str>)
    ensures
        r is Some <==> valid_utf8(data@),
        r matches Some(s) ==> s@ == decode_utf8(data@),
{
    core::str::from_utf8(data).ok()
}

/// Relies on serde_json::from_str: Ok exactly when the text is one
/// well-formed JSON document, and the document's top-level string and
/// integer members are those of the text.
#[verifier::external_body]
pub(crate) fn json_parse(text: &str) -> (r: Result<serde_json::Value, serde_json::Error>)
    ensures
        r is Ok <==> json_wellformed(text@),
        r matches Ok(d) ==> obj_str_fields(d) == text_str_fields(text@),
        r matches Ok(d) ==> obj_u64_fields(d) == text_u64_fields(text@),
{
    serde_json::from_str(text)
}

/// Relies on serde_json::Value::get: Some exactly when the value is an
/// object with that member, returning the member's value — so a member the
/// string (or integer) field map carries is found, and reads back as exactly
/// the text (or number) the map holds for it.
#[verifier::external_body]
pub(crate) fn json_get<'a>(v: &'a serde_json::Value, field: &str) -> (r: Option<
    &'a serde_json::Value,
>)
    ensures
        obj_str_fields(*v).contains_key(field@) ==> r is Some,
        obj_u64_fields(*v).contains_key(field@) ==> r is Some,
        r matches Some(f) ==> json_as_text(*f) == (if obj_str_fields(*v).contains_key(field@) {
            Some(obj_str_fields(*v)[field@])
        } else {
            None::<Seq<char>>
        }),
        r matches Some(f) ==> json_as_uint(*f) == (if obj_u64_fields(*v).contains_key(field@) {
            Some(obj_u64_fields(*v)[field@])
        } else {
            None::<u64>
        }),
{
    v.get(field)
}

/// Relies on serde_json::Value::as_str: Some exactly when the value is a
/// JSON string, returning its text.
#[verifier::external_body]
pub(crate) fn json_as_str(v: &serde_json::Value) -> (r: Option<&str>)
    ensures
        r is Some <==> json_as_text(*v) is Some,
        r matches Some(s) ==> s@ == json_as_text(*v).unwrap(),
{
    v.as_str()
}

/// Relies on serde_json::Value::as_u64: Some exactly when the value is a
/// non-negative JSON integer that fits in sixty-four bits.
#[verifier::external_body]
pub(crate) fn json_as_u64(v: &serde_json::Value) -> (r: Option<u64>)
    ensures
        r == json_as_uint(*v),
{
    v.as_u64()
}

/// Relies on serde_json::Value::clone: a JSON value owned by the caller.
#[verifier::external_body]
pub(crate) fn json_clone(v: &serde_json::Value) -> (r: serde_json::Value) {
    v.clone()
}

} // verus!
