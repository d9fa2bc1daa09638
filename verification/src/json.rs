//! JSON documents, as far as the gateway reads them.

use vstd::prelude::*;

verus! {

/// A parsed JSON document. Its inside is not visible to the verifier; what
/// the functions below return is all that is known of it.
#[verifier::external_type_specification]
#[verifier::external_body]
pub struct ExJsonValue(serde_json::Value);

/// Outcome of parsing `bytes` as one JSON document: the document, or the
/// text of the parser's error.
pub uninterp spec fn json_parsed(bytes: Seq<u8>) -> Result<serde_json::Value, Seq<char>>;

/// The member of `doc` under `key`, where `doc` is a JSON object that has it.
pub uninterp spec fn json_member(doc: serde_json::Value, key: Seq<char>) -> Option<
    serde_json::Value,
>;

/// The text of `doc`, where `doc` is a JSON string.
pub uninterp spec fn json_text(doc: serde_json::Value) -> Option<Seq<char>>;

/// The number of `doc`, where `doc` is a JSON integer that is not negative and
/// fits 64 bits.
pub uninterp spec fn json_unsigned(doc: serde_json::Value) -> Option<u64>;

/// The text of the member of `doc` under `key`, where there is such a member
/// and it is a JSON string.
pub open spec fn json_text_at(doc: serde_json::Value, key: Seq<char>) -> Option<Seq<char>> {
    match json_member(doc, key) {
        Some(m) => json_text(m),
        None => None,
    }
}

/// The number of the member of `doc` under `key`, where there is such a member
/// and it is an integer that is not negative and fits 64 bits.
pub open spec fn json_unsigned_at(doc: serde_json::Value, key: Seq<char>) -> Option<u64> {
    match json_member(doc, key) {
        Some(m) => json_unsigned(m),
        None => None,
    }
}

/// Parses `bytes` with `serde_json::from_slice`. The outcome depends on the
/// bytes alone; an error is handed back as the text that it displays as.
#[verifier::external_body]
pub(crate) fn parse_json(bytes: &[u8]) -> (r: Result<serde_json::Value, String>)
    ensures
        match r {
            Ok(doc) => json_parsed(bytes@) == Ok::<serde_json::Value, Seq<char>>(doc),
            Err(e) => json_parsed(bytes@) == Err::<serde_json::Value, Seq<char>>(e@),
        },
{
    serde_json::from_slice::<serde_json::Value>(bytes).map_err(|e| e.to_string())
}

/// Looks up `key` in `doc` with `serde_json::Value::get`: the member of that
/// name if `doc` is an object that has one, else nothing.
#[verifier::external_body]
pub(crate) fn json_get<'a>(doc: &'a serde_json::Value, key: &str) -> (r: Option<
    &'a serde_json::Value,
>)
    ensures
        match r {
            Some(m) => json_member(*doc, key@) == Some(*m),
            None => json_member(*doc, key@) is None,
        },
{
    doc.get(key)
}

/// Reads `doc` with `serde_json::Value::as_str`: its text if it is a JSON
/// string, else nothing.
#[verifier::external_body]
pub(crate) fn json_as_str<'a>(doc: &'a serde_json::Value) -> (r: Option<&'a str>)
    ensures
        match r {
            Some(s) => json_text(*doc) == Some(s@),
            None => json_text(*doc) is None,
        },
{
    doc.as_str()
}

/// Reads `doc` with `serde_json::Value::as_u64`: its value if it is an integer
/// that is not negative and fits 64 bits, else nothing.
#[verifier::external_body]
pub(crate) fn json_as_u64(doc: &serde_json::Value) -> (r: Option<u64>)
    ensures
        r == json_unsigned(*doc),
{
    doc.as_u64()
}

/// Returns the text of the member of `doc` under `key`, if `doc` is an
/// object with such a member and the member is a string.
pub fn text_member(doc: &serde_json::Value, key: &str) -> (r: Option<String>)
    ensures
        match r {
            Some(s) => json_text_at(*doc, key@) == Some(s@),
            None => json_text_at(*doc, key@) is None,
        },
{
    match json_get(doc, key) {
        Some(m) => match json_as_str(m) {
            Some(s) => Some(s.to_owned()),
            None => None,
        },
        None => None,
    }
}

/// Returns the number of the member of `doc` under `key`, if `doc` is an
/// object with such a member and the member is an integer that is not
/// negative and fits 64 bits.
pub fn unsigned_member(doc: &serde_json::Value, key: &str) -> (r: Option<u64>)
    ensures
        r == json_unsigned_at(*doc, key@),
{
    match json_get(doc, key) {
        Some(m) => json_as_u64(m),
        None => None,
    }
}

} // verus!
