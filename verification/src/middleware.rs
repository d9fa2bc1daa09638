//! Rules of the authentication gateway: where the API key of a request is
//! found, when a token is accepted, and which namespace a request may reach.

use crate::error::{
    AuthenticationError, AuthenticationErrorView, AuthorizationError, AuthorizationErrorView,
    ServerError, ServerErrorView, ValidationError, ValidationErrorView,
};
use crate::headers::{
    all_visible_ascii, ascii_text, header_bytes, header_first, header_get, header_to_str,
};
use crate::json::{json_get, json_member, json_parsed, json_text_at, parse_json, text_member};
use crate::state::{AppState, Claims, ClaimsView};
use crate::text::{join, strip_prefix, text_eq};
use crate::token::{
    claims_from_decoded, decode_hs256, decoded_outcome, fault_of, fault_text, result_view,
    TokenFailure,
};
use vstd::prelude::*;
use vstd::string::*;

verus! {

/// What every API key begins with.
pub const API_KEY_PREFIX: &'static str = "msb_";

/// The header that is looked at first for an API key.
pub const PROXY_AUTH_HEADER: &'static str = "Proxy-Authorization";

/// The namespace of a token that gives access to every namespace.
pub const WILDCARD_NAMESPACE: &'static str = "*";

/// An authentication failure on the credentials, with `detail` for the log.
pub open spec fn invalid_credentials(detail: Seq<char>) -> ServerErrorView {
    ServerErrorView::Authentication(AuthenticationErrorView::InvalidCredentials(detail))
}

/// A validation failure on the input, with `detail` for the client.
pub open spec fn invalid_input(detail: Seq<char>) -> ServerErrorView {
    ServerErrorView::ValidationError(ValidationErrorView::InvalidInput(detail))
}

/// The credential that the text of an authorization header carries: what
/// follows `Bearer `, or the whole text where it does not begin so.
pub open spec fn bearer_credential(value: Seq<char>) -> Seq<char> {
    if "Bearer "@.is_prefix_of(value) {
        value.skip("Bearer "@.len() as int)
    } else {
        value
    }
}

/// The credential that a header value carries, or the error for a value that
/// is no visible ASCII text.
pub open spec fn header_credential(value: axum::http::HeaderValue) -> Result<
    Seq<char>,
    ServerErrorView,
> {
    if all_visible_ascii(header_bytes(value)) {
        Ok(bearer_credential(ascii_text(header_bytes(value))))
    } else {
        Err(invalid_credentials("Invalid authorization header format"@))
    }
}

/// The API key of a request: taken from the proxy authorization header where
/// there is one, else from the authorization header.
pub open spec fn api_key_of(headers: axum::http::HeaderMap<axum::http::HeaderValue>) -> Result<
    Seq<char>,
    ServerErrorView,
> {
    match header_first(headers, PROXY_AUTH_HEADER@) {
        Some(v) => header_credential(v),
        None => match header_first(headers, "Authorization"@) {
            Some(v) => header_credential(v),
            None => Err(invalid_credentials("Missing authorization header"@)),
        },
    }
}

/// Returns the credential in the text of an authorization header: what
/// follows `Bearer `, or the whole text where it does not begin so.
pub fn bearer_token(auth_value: &str) -> (token: String)
    ensures
        token@ == bearer_credential(auth_value@),
{
    match strip_prefix(auth_value, "Bearer ") {
        Some(rest) => rest.to_owned(),
        None => auth_value.to_owned(),
    }
}

/// Returns the credential that one header value carries.
fn credential_of_header(value: &axum::http::HeaderValue) -> (r: Result<String, ServerError>)
    ensures
        result_view(r) == header_credential(*value),
{
    match header_to_str(value) {
        Some(text) => Ok(bearer_token(text)),
        None => Err(
            ServerError::Authentication(
                AuthenticationError::InvalidCredentials(
                    String::from_str("Invalid authorization header format"),
                ),
            ),
        ),
    }
}

/// Extracts the API key from the headers of a request. The proxy
/// authorization header comes first; the authorization header is read only
/// where the other is absent. A value that is no visible ASCII text and a
/// request with neither header are authentication failures.
pub fn extract_api_key_from_headers(
    headers: &axum::http::HeaderMap<axum::http::HeaderValue>,
) -> (r: Result<String, ServerError>)
    ensures
        result_view(r) == api_key_of(*headers),
{
    match header_get(headers, PROXY_AUTH_HEADER) {
        Some(value) => credential_of_header(value),
        None => match header_get(headers, "Authorization") {
            Some(value) => credential_of_header(value),
            None => Err(
                ServerError::Authentication(
                    AuthenticationError::InvalidCredentials(
                        String::from_str("Missing authorization header"),
                    ),
                ),
            ),
        },
    }
}

/// The token inside an API key: what follows the prefix.
pub open spec fn jwt_of(api_key: Seq<char>) -> Result<Seq<char>, ServerErrorView> {
    if API_KEY_PREFIX@.is_prefix_of(api_key) {
        Ok(api_key.skip(API_KEY_PREFIX@.len() as int))
    } else {
        Err(invalid_credentials("Invalid API key format: missing prefix"@))
    }
}

/// Converts an API key back to the token that it was made of: the key
/// without its prefix. A key without the prefix is an authentication failure.
pub fn convert_api_key_to_jwt(api_key: &str) -> (r: Result<String, ServerError>)
    ensures
        result_view(r) == jwt_of(api_key@),
{
    match strip_prefix(api_key, API_KEY_PREFIX) {
        Some(jwt) => Ok(jwt.to_owned()),
        None => Err(
            ServerError::Authentication(
                AuthenticationError::InvalidCredentials(
                    String::from_str("Invalid API key format: missing prefix"),
                ),
            ),
        ),
    }
}

/// The signing secret of a configuration, or the error where none is set.
pub open spec fn server_key_of(key: Option<String>) -> Result<Seq<char>, ServerErrorView> {
    match key {
        Some(k) => Ok(k@),
        None => Err(invalid_credentials("Server key not found in configuration"@)),
    }
}

/// Returns the signing secret of the server. A configuration without one is
/// an authentication failure.
pub fn get_server_key(state: &AppState) -> (r: Result<String, ServerError>)
    ensures
        result_view(r) == server_key_of(state.config().key()),
{
    match state.get_config().get_key() {
        Some(key) => Ok(key.clone()),
        None => Err(
            ServerError::Authentication(
                AuthenticationError::InvalidCredentials(
                    String::from_str("Server key not found in configuration"),
                ),
            ),
        ),
    }
}

/// What the decoder is handed for an API key: the token inside the key and
/// the signing secret. A key without the prefix and a configuration without
/// a secret are refused with their own errors, in this order.
pub open spec fn decoder_input(api_key: Seq<char>, key: Option<String>) -> Result<
    (Seq<char>, Seq<char>),
    ServerErrorView,
> {
    match jwt_of(api_key) {
        Err(e) => Err(e),
        Ok(jwt) => match server_key_of(key) {
            Err(e) => Err(e),
            Ok(secret) => Ok((jwt, secret)),
        },
    }
}

/// Validates an API key: takes the token out of it, takes the signing secret
/// from the configuration, and has the token decoded and checked.
///
/// A key without the prefix and a configuration without a secret are refused
/// with their own errors, in this order. After that the decoder decides, by
/// the signature and the clock, and the result is what
/// [`claims_from_decoded`] makes of its answer: claims only for a document
/// that the decoder accepted and that holds all of them, an invalid token for
/// everything else.
pub fn validate_token(api_key: &str, state: &AppState) -> (r: Result<Claims, ServerError>)
    ensures
        match decoder_input(api_key@, state.config().key()) {
            Err(e) => result_view(r) == Err::<ClaimsView, ServerErrorView>(e),
            Ok(_) => exists|decoded: Result<serde_json::Value, TokenFailure>|
                result_view(r) == #[trigger] decoded_outcome(decoded),
        },
{
    let jwt = match convert_api_key_to_jwt(api_key) {
        Ok(jwt) => jwt,
        Err(e) => { return Err(e); },
    };
    let server_key = match get_server_key(state) {
        Ok(key) => key,
        Err(e) => { return Err(e); },
    };
    let decoded = match decode_hs256(jwt.as_str(), server_key.as_str()) {
        Ok(doc) => Ok(doc),
        Err(e) => Err(TokenFailure { fault: fault_of(&e), text: fault_text(&e) }),
    };
    let r = claims_from_decoded(decoded);
    assert(result_view(r) == decoded_outcome(decoded));
    r
}

/// Whether claims give access to `requested`: by naming it, or by the
/// wildcard.
pub open spec fn grants_access(claims: ClaimsView, requested: Seq<char>) -> bool {
    claims.namespace == requested || claims.namespace == WILDCARD_NAMESPACE@
}

/// The text that says that a token has no access to `namespace`.
pub open spec fn no_access_text(namespace: Seq<char>) -> Seq<char> {
    "Token does not have access to namespace '"@ + namespace + "'"@
}

/// Returns the text that says that a token has no access to `namespace`.
fn no_access_message(namespace: &str) -> (m: String)
    ensures
        m@ == no_access_text(namespace@),
{
    join("Token does not have access to namespace '", namespace).concat("'")
}

/// Checks that claims give access to the requested namespace, and hands them
/// back if they do. Claims for another namespace are an authentication
/// failure that names the requested one.
pub fn check_namespace_access(claims: Claims, requested_namespace: &str) -> (r: Result<
    Claims,
    ServerError,
>)
    ensures
        grants_access(claims@, requested_namespace@) ==> r == Ok::<Claims, ServerError>(claims),
        !grants_access(claims@, requested_namespace@) ==> result_view(r) == Err::<
            ClaimsView,
            ServerErrorView,
        >(invalid_credentials(no_access_text(requested_namespace@))),
{
    if !text_eq(claims.namespace.as_str(), requested_namespace) && !text_eq(
        claims.namespace.as_str(),
        WILDCARD_NAMESPACE,
    ) {
        return Err(
            ServerError::Authentication(
                AuthenticationError::InvalidCredentials(no_access_message(requested_namespace)),
            ),
        );
    }
    Ok(claims)
}

/// What the check of the namespace makes of validated claims: claims for
/// the requested namespace or for every namespace pass, claims for another
/// namespace are an authentication failure that names the requested one, and
/// an error stays as it is.
pub open spec fn access_outcome(
    validated: Result<ClaimsView, ServerErrorView>,
    requested: Seq<char>,
) -> Result<ClaimsView, ServerErrorView> {
    match validated {
        Err(e) => Err(e),
        Ok(c) => if grants_access(c, requested) {
            Ok(c)
        } else {
            Err(invalid_credentials(no_access_text(requested)))
        },
    }
}

/// Validates an API key and checks that its token gives access to the
/// requested namespace.
///
/// The errors of [`validate_token`] come first. Where the decoder decides,
/// the result is what the check of the namespace makes of its answer: claims
/// are handed back only where they name the requested namespace or the
/// wildcard.
pub fn validate_token_and_namespace(
    api_key: &str,
    requested_namespace: &str,
    state: &AppState,
) -> (r: Result<Claims, ServerError>)
    ensures
        match decoder_input(api_key@, state.config().key()) {
            Err(e) => result_view(r) == Err::<ClaimsView, ServerErrorView>(e),
            Ok(_) => exists|decoded: Result<serde_json::Value, TokenFailure>|
                result_view(r) == access_outcome(
                    #[trigger] decoded_outcome(decoded),
                    requested_namespace@,
                ),
        },
{
    let validated = validate_token(api_key, state);
    let ghost before = result_view(validated);
    let claims = match validated {
        Ok(claims) => claims,
        Err(e) => {
            assert(access_outcome(before, requested_namespace@) == before);
            return Err(e);
        },
    };
    let r = check_namespace_access(claims, requested_namespace);
    assert(result_view(r) == access_outcome(before, requested_namespace@));
    r
}

/// The method that a JSON-RPC request names, or `unknown` where it names
/// none as a string.
pub open spec fn request_method(doc: serde_json::Value) -> Seq<char> {
    match json_text_at(doc, "method"@) {
        Some(m) => m,
        None => "unknown"@,
    }
}

/// The text that says that the parameters of `method` name no namespace.
pub open spec fn no_namespace_text(method: Seq<char>) -> Seq<char> {
    "Missing or invalid 'namespace' in params for method '"@ + method + "'"@
}

/// The namespace that a JSON-RPC request names in its parameters, or the
/// validation error for a request without parameters or without a namespace
/// that is a string.
pub open spec fn request_namespace(doc: serde_json::Value) -> Result<Seq<char>, ServerErrorView> {
    match json_member(doc, "params"@) {
        None => Err(invalid_input("Missing 'params' field in JSON-RPC request"@)),
        Some(params) => match json_text_at(params, "namespace"@) {
            Some(ns) => Ok(ns),
            None => Err(invalid_input(no_namespace_text(request_method(doc)))),
        },
    }
}

/// The validation error for a body that is no JSON document, where
/// `parser_text` is what the parser said.
pub open spec fn invalid_body(parser_text: Seq<char>) -> ServerErrorView {
    invalid_input("Invalid JSON-RPC request: "@ + parser_text)
}

/// The namespace that the body of a JSON-RPC request names.
pub open spec fn body_namespace(bytes: Seq<u8>) -> Result<Seq<char>, ServerErrorView> {
    match json_parsed(bytes) {
        Err(text) => Err(invalid_body(text)),
        Ok(doc) => request_namespace(doc),
    }
}

/// Returns the method that a JSON-RPC request names, or `unknown` where it
/// names none as a string.
pub fn method_of_request(doc: &serde_json::Value) -> (m: String)
    ensures
        m@ == request_method(*doc),
{
    match text_member(doc, "method") {
        Some(m) => m,
        None => String::from_str("unknown"),
    }
}

/// Returns the namespace that a parsed JSON-RPC request names in its
/// parameters. A request without parameters, and one whose parameters hold no
/// namespace that is a string, are validation errors; the second names the
/// method of the request.
pub fn namespace_of_request(doc: &serde_json::Value) -> (r: Result<String, ServerError>)
    ensures
        result_view(r) == request_namespace(*doc),
{
    let method = method_of_request(doc);
    let params = match json_get(doc, "params") {
        Some(params) => params,
        None => {
            return Err(
                ServerError::ValidationError(
                    ValidationError::InvalidInput(
                        String::from_str("Missing 'params' field in JSON-RPC request"),
                    ),
                ),
            );
        },
    };
    match text_member(params, "namespace") {
        Some(ns) => Ok(ns),
        None => Err(
            ServerError::ValidationError(
                ValidationError::InvalidInput(
                    join("Missing or invalid 'namespace' in params for method '", method.as_str())
                        .concat("'"),
                ),
            ),
        ),
    }
}

/// Parses the body of a request as JSON, or gives the validation error that
/// carries the parser's words.
fn parse_request(bytes: &[u8]) -> (r: Result<serde_json::Value, ServerError>)
    ensures
        match r {
            Ok(doc) => json_parsed(bytes@) == Ok::<serde_json::Value, Seq<char>>(doc),
            Err(e) => json_parsed(bytes@) matches Err(text) && e@ == invalid_body(text),
        },
{
    match parse_json(bytes) {
        Ok(doc) => Ok(doc),
        Err(text) => Err(
            ServerError::ValidationError(
                ValidationError::InvalidInput(join("Invalid JSON-RPC request: ", text.as_str())),
            ),
        ),
    }
}

/// Extracts the namespace from the body of a JSON-RPC request. A body that is
/// no JSON document is a validation error that carries the parser's words;
/// the other errors are those of [`namespace_of_request`].
pub fn extract_namespace_from_json_rpc(bytes: &[u8]) -> (r: Result<String, ServerError>)
    ensures
        result_view(r) == body_namespace(bytes@),
{
    match parse_request(bytes) {
        Ok(doc) => namespace_of_request(&doc),
        Err(e) => Err(e),
    }
}

/// What the gateway does with a request once its token is known.
#[derive(Debug, Clone, PartialEq, Eq)]
pub enum AuthStep {
    /// The request goes on to its handler.
    Forward,
    /// The body of the request must be read and checked against the claims.
    CheckBody(Claims),
}

/// Mathematical value of an [`AuthStep`].
pub enum AuthStepView {
    Forward,
    CheckBody(ClaimsView),
}

impl View for AuthStep {
    type V = AuthStepView;

    open spec fn view(&self) -> AuthStepView {
        match self {
            AuthStep::Forward => AuthStepView::Forward,
            AuthStep::CheckBody(c) => AuthStepView::CheckBody(c@),
        }
    }
}

/// The step that claims lead to: a token for every namespace lets the request
/// through, any other has the body checked.
pub open spec fn step_for(claims: ClaimsView) -> AuthStepView {
    if claims.namespace == WILDCARD_NAMESPACE@ {
        AuthStepView::Forward
    } else {
        AuthStepView::CheckBody(claims)
    }
}

/// Decides what follows a validated token: a token for every namespace lets
/// the request through, any other has the body checked against its claims.
pub fn auth_step_for(claims: Claims) -> (step: AuthStep)
    ensures
        step@ == step_for(claims@),
{
    if text_eq(claims.namespace.as_str(), WILDCARD_NAMESPACE) {
        AuthStep::Forward
    } else {
        AuthStep::CheckBody(claims)
    }
}

/// An authorization failure for a token without access to `namespace`.
pub open spec fn access_denied(namespace: Seq<char>) -> ServerErrorView {
    ServerErrorView::AuthorizationError(
        AuthorizationErrorView::AccessDenied(no_access_text(namespace)),
    )
}

/// What authentication makes of validated claims: the step that the claims
/// lead to, or the error.
pub open spec fn step_outcome(validated: Result<ClaimsView, ServerErrorView>) -> Result<
    AuthStepView,
    ServerErrorView,
> {
    match validated {
        Err(e) => Err(e),
        Ok(c) => Ok(step_for(c)),
    }
}

/// The first half of authentication, before the body of the request is read.
///
/// In development mode every request goes on. Otherwise the API key is taken
/// from the headers and validated: the errors of
/// [`extract_api_key_from_headers`] and of [`validate_token`] end the request.
/// Where the decoder decides, the result is the step that
/// [`auth_step_for`] takes for the claims that it accepted: a request goes on
/// at once only with claims for every namespace.
pub fn authenticate_request(
    state: &AppState,
    headers: &axum::http::HeaderMap<axum::http::HeaderValue>,
) -> (r: Result<AuthStep, ServerError>)
    ensures
        state.config().dev_mode() ==> r == Ok::<AuthStep, ServerError>(AuthStep::Forward),
        !state.config().dev_mode() ==> match api_key_of(*headers) {
            Err(e) => result_view(r) == Err::<AuthStepView, ServerErrorView>(e),
            Ok(key) => match decoder_input(key, state.config().key()) {
                Err(e) => result_view(r) == Err::<AuthStepView, ServerErrorView>(e),
                Ok(_) => exists|decoded: Result<serde_json::Value, TokenFailure>|
                    result_view(r) == step_outcome(#[trigger] decoded_outcome(decoded)),
            },
        },
{
    if *state.get_config().get_dev_mode() {
        return Ok(AuthStep::Forward);
    }
    let api_key = match extract_api_key_from_headers(headers) {
        Ok(key) => key,
        Err(e) => { return Err(e); },
    };
    let validated = validate_token(api_key.as_str(), state);
    let ghost before = result_view(validated);
    match validated {
        Ok(claims) => {
            let r = Ok(auth_step_for(claims));
            assert(result_view(r) == step_outcome(before));
            r
        },
        Err(e) => {
            assert(step_outcome(before) == Err::<AuthStepView, ServerErrorView>(e@));
            Err(e)
        },
    }
}

/// What the check of a parsed request against claims gives: nothing to
/// object to, or the error.
pub open spec fn request_allowed(claims: ClaimsView, doc: serde_json::Value) -> Result<
    (),
    ServerErrorView,
> {
    match request_namespace(doc) {
        Err(e) => Err(e),
        Ok(ns) => if claims.namespace == ns {
            Ok(())
        } else {
            Err(access_denied(ns))
        },
    }
}

/// What the check of a request body against claims gives.
pub open spec fn rpc_body_allowed(claims: ClaimsView, bytes: Seq<u8>) -> Result<
    (),
    ServerErrorView,
> {
    match json_parsed(bytes) {
        Err(text) => Err(invalid_body(text)),
        Ok(doc) => request_allowed(claims, doc),
    }
}

/// Whether a method runs a tool and so must name a namespace that the token
/// gives access to.
pub open spec fn needs_namespace(method: Seq<char>) -> bool {
    method == "tools/call"@
}

/// What the check of the body of a tool-protocol request against claims
/// gives: only a method that runs a tool has its namespace checked.
pub open spec fn mcp_body_allowed(claims: ClaimsView, bytes: Seq<u8>) -> Result<
    (),
    ServerErrorView,
> {
    match json_parsed(bytes) {
        Err(text) => Err(invalid_body(text)),
        Ok(doc) => if needs_namespace(request_method(doc)) {
            request_allowed(claims, doc)
        } else {
            Ok(())
        },
    }
}

/// The value of the outcome of a check.
pub open spec fn check_view(r: Result<(), ServerError>) -> Result<(), ServerErrorView> {
    match r {
        Ok(_) => Ok(()),
        Err(e) => Err(e@),
    }
}

/// Checks a parsed request against the claims of its token: the request must
/// name, in its parameters, the namespace of the claims. Another namespace is
/// an authorization failure that names the one requested.
pub fn check_request(claims: &Claims, doc: &serde_json::Value) -> (r: Result<(), ServerError>)
    ensures
        check_view(r) == request_allowed(claims@, *doc),
{
    let requested = match namespace_of_request(doc) {
        Ok(ns) => ns,
        Err(e) => { return Err(e); },
    };
    if !text_eq(claims.namespace.as_str(), requested.as_str()) {
        return Err(
            ServerError::AuthorizationError(
                AuthorizationError::AccessDenied(no_access_message(requested.as_str())),
            ),
        );
    }
    Ok(())
}

/// The second half of authentication for the RPC endpoint: the body must be a
/// JSON-RPC request for the namespace of the claims.
pub fn authorize_rpc_body(claims: &Claims, body: &[u8]) -> (r: Result<(), ServerError>)
    ensures
        check_view(r) == rpc_body_allowed(claims@, body@),
{
    match parse_request(body) {
        Ok(doc) => check_request(claims, &doc),
        Err(e) => Err(e),
    }
}

/// Says whether a method runs a tool and so needs its namespace checked.
pub fn requires_namespace_validation(method: &str) -> (r: bool)
    ensures
        r == needs_namespace(method@),
{
    text_eq(method, "tools/call")
}

/// The second half of authentication for the tool-protocol endpoint: the body
/// must be JSON, and only a request that runs a tool must name the namespace
/// of the claims. Requests of the protocol itself pass unchecked.
pub fn authorize_mcp_body(claims: &Claims, body: &[u8]) -> (r: Result<(), ServerError>)
    ensures
        check_view(r) == mcp_body_allowed(claims@, body@),
{
    let doc = match parse_request(body) {
        Ok(doc) => doc,
        Err(e) => { return Err(e); },
    };
    let method = method_of_request(&doc);
    if requires_namespace_validation(method.as_str()) {
        check_request(claims, &doc)
    } else {
        Ok(())
    }
}

/// The address of a request. The verifier sees nothing inside it.
#[verifier::external_type_specification]
#[verifier::external_body]
pub struct ExUri(axum::http::Uri);

/// The path and query of an address as text, where the address has them.
pub uninterp spec fn uri_path_and_query(uri: axum::http::Uri) -> Option<Seq<char>>;

/// The address that `text` parses to, where it is one.
pub uninterp spec fn uri_parsed(text: Seq<char>) -> Option<axum::http::Uri>;

/// Reads the path and query of an address with `Uri::path_and_query` and
/// renders them as text. The outcome depends on the address alone.
#[verifier::external_body]
pub(crate) fn path_and_query_text(uri: &axum::http::Uri) -> (r: Option<String>)
    ensures
        match r {
            Some(t) => uri_path_and_query(*uri) == Some(t@),
            None => uri_path_and_query(*uri) is None,
        },
{
    uri.path_and_query().map(|p| p.to_string())
}

/// Parses text as an address with the `FromStr` of `Uri`. The outcome depends
/// on the text alone.
#[verifier::external_body]
pub(crate) fn parse_uri(text: &str) -> (r: Option<axum::http::Uri>)
    ensures
        r == uri_parsed(text@),
{
    text.parse::<axum::http::Uri>().ok()
}

/// The address used where the address of a sandbox cannot be formed.
pub const FALLBACK_URI: &'static str = "http://localhost:8080/";

/// The text of the address of a sandbox: its host is made of the sandbox and
/// the namespace, its port is 8080, and the path and query are those of the
/// request, or `/` where the request has none.
pub open spec fn proxy_target_text(
    path_and_query: Option<Seq<char>>,
    namespace: Seq<char>,
    sandbox_name: Seq<char>,
) -> Seq<char> {
    let path = match path_and_query {
        Some(p) => p,
        None => "/"@,
    };
    "http://sandbox-"@ + sandbox_name + "."@ + namespace + ".internal:8080"@ + path
}

/// The address that a request is proxied to. Where the text of the sandbox's
/// address is no address, the fallback is used; the address that came in is
/// kept only where the fallback is none either.
pub open spec fn proxied(
    original_uri: axum::http::Uri,
    namespace: Seq<char>,
    sandbox_name: Seq<char>,
) -> axum::http::Uri {
    match uri_parsed(
        proxy_target_text(uri_path_and_query(original_uri), namespace, sandbox_name),
    ) {
        Some(uri) => uri,
        None => match uri_parsed(FALLBACK_URI@) {
            Some(uri) => uri,
            None => original_uri,
        },
    }
}

/// Returns the text of the address of a sandbox for a request with the given
/// path and query.
pub fn proxy_target(path_and_query: Option<&str>, namespace: &str, sandbox_name: &str) -> (t:
    String)
    ensures
        t@ == proxy_target_text(
            match path_and_query {
                Some(p) => Some(p@),
                None => None,
            },
            namespace@,
            sandbox_name@,
        ),
{
    let host = join("http://sandbox-", sandbox_name).concat(".").concat(namespace).concat(
        ".internal:8080",
    );
    match path_and_query {
        Some(p) => host.concat(p),
        None => host.concat("/"),
    }
}

/// Converts the address of a request to the address of the sandbox that the
/// request is proxied to, keeping its path and query.
pub fn proxy_uri(original_uri: axum::http::Uri, namespace: &str, sandbox_name: &str) -> (r:
    axum::http::Uri)
    ensures
        r == proxied(original_uri, namespace@, sandbox_name@),
{
    let path_and_query = path_and_query_text(&original_uri);
    let target = match &path_and_query {
        Some(p) => proxy_target(Some(p.as_str()), namespace, sandbox_name),
        None => proxy_target(None, namespace, sandbox_name),
    };
    match parse_uri(target.as_str()) {
        Some(uri) => uri,
        None => match parse_uri(FALLBACK_URI) {
            Some(uri) => uri,
            None => original_uri,
        },
    }
}

} // verus!
