//! Signed tokens: decoding, and what a decoded token must hold.

use crate::error::{AuthenticationError, AuthenticationErrorView, ServerError, ServerErrorView};
use crate::json::{json_text_at, json_unsigned_at, text_member, unsigned_member};
use crate::state::{Claims, ClaimsView};
use crate::text::join;
use vstd::prelude::*;
use vstd::string::*;

verus! {

/// The error of the token decoder. The verifier sees nothing inside it.
#[verifier::external_type_specification]
#[verifier::external_body]
pub struct ExTokenError(jsonwebtoken::errors::Error);

/// Why a token was refused, as far as the gateway tells causes apart.
#[derive(Debug, Clone, Copy, PartialEq, Eq, Structural)]
pub enum TokenFault {
    /// The expiry of the token lies in the past.
    Expired,
    /// The signature does not belong to the signed text.
    BadSignature,
    /// Any other cause.
    Other,
}

/// A refused token: the cause, and the decoder's own words.
#[derive(Debug, Clone, PartialEq, Eq)]
pub struct TokenFailure {
    /// The cause.
    pub fault: TokenFault,
    /// The decoder's description of the error.
    pub text: String,
}

/// Decodes `jwt` with `jsonwebtoken::decode`, for the algorithm HS256 and the
/// key `secret`. The decoder checks the signature and compares the expiry with
/// the clock, so nothing is claimed of the outcome.
#[verifier::external_body]
pub(crate) fn decode_hs256(jwt: &str, secret: &str) -> (r: Result<
    serde_json::Value,
    jsonwebtoken::errors::Error,
>) {
    jsonwebtoken::decode::<serde_json::Value>(
        jwt,
        &jsonwebtoken::DecodingKey::from_secret(secret.as_bytes()),
        &jsonwebtoken::Validation::new(jsonwebtoken::Algorithm::HS256),
    ).map(|data| data.claims)
}

/// Reads the kind of a decoder error with `Error::kind` and keeps the two
/// kinds that the gateway names.
#[verifier::external_body]
pub(crate) fn fault_of(e: &jsonwebtoken::errors::Error) -> (r: TokenFault) {
    match e.kind() {
        jsonwebtoken::errors::ErrorKind::ExpiredSignature => TokenFault::Expired,
        jsonwebtoken::errors::ErrorKind::InvalidSignature => TokenFault::BadSignature,
        _ => TokenFault::Other,
    }
}

/// Renders a decoder error as the text that it displays as.
#[verifier::external_body]
pub(crate) fn fault_text(e: &jsonwebtoken::errors::Error) -> (r: String) {
    e.to_string()
}

/// The detail recorded for a refused token.
pub open spec fn failure_detail(fault: TokenFault, text: Seq<char>) -> Seq<char> {
    match fault {
        TokenFault::Expired => "Token expired"@,
        TokenFault::BadSignature => "Invalid token signature"@,
        TokenFault::Other => "Token validation error: "@ + text,
    }
}

/// The claims that a decoded document holds: `exp` and `iat` as integers that
/// are not negative, `namespace` as a string. Nothing if one is missing or of
/// another type.
pub open spec fn claims_of(doc: serde_json::Value) -> Option<ClaimsView> {
    match (
        json_unsigned_at(doc, "exp"@),
        json_unsigned_at(doc, "iat"@),
        json_text_at(doc, "namespace"@),
    ) {
        (Some(exp), Some(iat), Some(namespace)) => Some(ClaimsView { exp, iat, namespace }),
        _ => None,
    }
}

/// What the gateway makes of a decoder's outcome.
pub open spec fn decoded_outcome(
    decoded: Result<serde_json::Value, TokenFailure>,
) -> Result<ClaimsView, ServerErrorView> {
    match decoded {
        Ok(doc) => match claims_of(doc) {
            Some(c) => Ok(c),
            None => Err(
                ServerErrorView::Authentication(
                    AuthenticationErrorView::InvalidToken(
                        "Token validation error: claims are incomplete"@,
                    ),
                ),
            ),
        },
        Err(f) => Err(
            ServerErrorView::Authentication(
                AuthenticationErrorView::InvalidToken(failure_detail(f.fault, f.text@)),
            ),
        ),
    }
}

/// The mathematical value of a result whose two sides have one.
pub open spec fn result_view<T: View, E: View>(r: Result<T, E>) -> Result<T::V, E::V> {
    match r {
        Ok(t) => Ok(t@),
        Err(e) => Err(e@),
    }
}

/// Returns the detail recorded for a refused token: a fixed text for an
/// expired token and for a wrong signature, else the decoder's words behind
/// `Token validation error: `.
pub fn token_error_message(fault: TokenFault, text: &str) -> (m: String)
    ensures
        m@ == failure_detail(fault, text@),
{
    match fault {
        TokenFault::Expired => String::from_str("Token expired"),
        TokenFault::BadSignature => String::from_str("Invalid token signature"),
        TokenFault::Other => join("Token validation error: ", text),
    }
}

/// Reads the claims out of a decoded document.
pub fn claims_of_document(doc: &serde_json::Value) -> (r: Option<Claims>)
    ensures
        match r {
            Some(c) => claims_of(*doc) == Some(c@),
            None => claims_of(*doc) is None,
        },
{
    let exp = unsigned_member(doc, "exp");
    let iat = unsigned_member(doc, "iat");
    let namespace = text_member(doc, "namespace");
    match (exp, iat, namespace) {
        (Some(exp), Some(iat), Some(namespace)) => Some(Claims { exp, iat, namespace }),
        _ => None,
    }
}

/// Turns a decoder's outcome into claims or into the error of the gateway: a
/// document with all three claims is accepted, every other outcome is an
/// invalid token.
pub fn claims_from_decoded(decoded: Result<serde_json::Value, TokenFailure>) -> (r: Result<
    Claims,
    ServerError,
>)
    ensures
        result_view(r) == decoded_outcome(decoded),
{
    match decoded {
        Ok(doc) => match claims_of_document(&doc) {
            Some(c) => Ok(c),
            None => Err(
                ServerError::Authentication(
                    AuthenticationError::InvalidToken(
                        String::from_str("Token validation error: claims are incomplete"),
                    ),
                ),
            ),
        },
        Err(f) => {
            let detail = token_error_message(f.fault, f.text.as_str());
            Err(ServerError::Authentication(AuthenticationError::InvalidToken(detail)))
        },
    }
}

} // verus!
