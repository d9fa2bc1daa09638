//! Request headers, as far as the gateway reads them.

use vstd::prelude::*;

verus! {

/// The header map of a request. The verifier sees nothing inside it.
#[verifier::external_type_specification]
#[verifier::external_body]
#[verifier::reject_recursive_types(T)]
pub struct ExHeaderMap<T>(axum::http::HeaderMap<T>);

/// The value of one header. The verifier sees nothing inside it.
#[verifier::external_type_specification]
#[verifier::external_body]
pub struct ExHeaderValue(axum::http::HeaderValue);

/// The first value that `headers` holds under `name`, if it holds any.
pub uninterp spec fn header_first(
    headers: axum::http::HeaderMap<axum::http::HeaderValue>,
    name: Seq<char>,
) -> Option<axum::http::HeaderValue>;

/// The bytes of a header value.
pub uninterp spec fn header_bytes(value: axum::http::HeaderValue) -> Seq<u8>;

/// A byte that may stand in a header value that is read as text: a printable
/// ASCII character, a space or a tab.
pub open spec fn is_visible_ascii(b: u8) -> bool {
    (32 <= b && b < 127) || b == 9
}

/// Every byte of `bytes` is visible ASCII.
pub open spec fn all_visible_ascii(bytes: Seq<u8>) -> bool {
    forall|i: int| 0 <= i < bytes.len() ==> is_visible_ascii(#[trigger] bytes[i])
}

/// The text that ASCII bytes spell.
pub open spec fn ascii_text(bytes: Seq<u8>) -> Seq<char> {
    Seq::new(bytes.len(), |i: int| bytes[i] as char)
}

/// Looks `name` up with `HeaderMap::get`, which hands back the first value
/// stored under that name, or nothing where there is none.
#[verifier::external_body]
pub(crate) fn header_get<'a>(
    headers: &'a axum::http::HeaderMap<axum::http::HeaderValue>,
    name: &str,
) -> (r: Option<&'a axum::http::HeaderValue>)
    ensures
        match r {
            Some(v) => header_first(*headers, name@) == Some(*v),
            None => header_first(*headers, name@) is None,
        },
{
    headers.get(name)
}

/// Reads a value as text with `HeaderValue::to_str`, which succeeds exactly
/// when every byte is visible ASCII and then yields those bytes as characters.
#[verifier::external_body]
pub(crate) fn header_to_str<'a>(value: &'a axum::http::HeaderValue) -> (r: Option<&'a str>)
    ensures
        r is Some <==> all_visible_ascii(header_bytes(*value)),
        r matches Some(s) ==> s@ == ascii_text(header_bytes(*value)),
{
    value.to_str().ok()
}

} // verus!
