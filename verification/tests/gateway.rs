use axum::http::{HeaderMap, HeaderValue, Uri};
use microsandbox::error::{
    AuthenticationError, AuthorizationError, ServerError, ValidationError,
};
use microsandbox::json::{text_member, unsigned_member};
use microsandbox::middleware::{
    auth_step_for, authenticate_request, authorize_mcp_body, authorize_rpc_body, bearer_token,
    check_namespace_access, check_request, convert_api_key_to_jwt, extract_api_key_from_headers,
    extract_namespace_from_json_rpc, get_server_key, method_of_request, namespace_of_request,
    proxy_target, proxy_uri, requires_namespace_validation, validate_token,
    validate_token_and_namespace, AuthStep, API_KEY_PREFIX, PROXY_AUTH_HEADER,
};
use microsandbox::state::{AppState, Claims, Config};
use microsandbox::text::{has_prefix, join, strip_prefix, text_eq};
use microsandbox::token::{
    claims_from_decoded, claims_of_document, token_error_message, TokenFailure, TokenFault,
};

const SECRET: &str = "server-secret";

fn now() -> u64 {
    std::time::SystemTime::now().duration_since(std::time::UNIX_EPOCH).unwrap().as_secs()
}

fn object(members: Vec<(&str, serde_json::Value)>) -> serde_json::Value {
    let mut map = serde_json::Map::new();
    for (k, v) in members {
        map.insert(k.to_string(), v);
    }
    serde_json::Value::Object(map)
}

fn text(s: &str) -> serde_json::Value {
    serde_json::Value::String(s.to_string())
}

fn number(n: u64) -> serde_json::Value {
    serde_json::Value::from(n)
}

fn api_key(namespace: &str, exp: u64, secret: &str) -> String {
    let claims = object(vec![
        ("exp", number(exp)),
        ("iat", number(1_700_000_000)),
        ("namespace", text(namespace)),
    ]);
    let jwt = jsonwebtoken::encode(
        &jsonwebtoken::Header::default(),
        &claims,
        &jsonwebtoken::EncodingKey::from_secret(secret.as_bytes()),
    )
    .unwrap();
    format!("{}{}", API_KEY_PREFIX, jwt)
}

fn state(dev_mode: bool) -> AppState {
    AppState::new(Config::new(Some(SECRET.to_string()), dev_mode))
}

fn invalid_credentials(detail: &str) -> ServerError {
    ServerError::Authentication(AuthenticationError::InvalidCredentials(detail.to_string()))
}

fn invalid_input(detail: &str) -> ServerError {
    ServerError::ValidationError(ValidationError::InvalidInput(detail.to_string()))
}

fn access_denied(namespace: &str) -> ServerError {
    ServerError::AuthorizationError(AuthorizationError::AccessDenied(format!(
        "Token does not have access to namespace '{}'",
        namespace
    )))
}

#[test]
fn text_helpers() {
    assert!(text_eq("abc", "abc"));
    assert!(!text_eq("abc", "abd"));
    assert!(!text_eq("abc", "ab"));
    assert!(text_eq("", ""));
    assert!(has_prefix("Bearer x", "Bearer "));
    assert!(has_prefix("abc", ""));
    assert!(has_prefix("abc", "abc"));
    assert!(!has_prefix("ab", "abc"));
    assert!(!has_prefix("bearer x", "Bearer "));
    assert_eq!(strip_prefix("msb_token", "msb_"), Some("token"));
    assert_eq!(strip_prefix("msb_", "msb_"), Some(""));
    assert_eq!(strip_prefix("token", "msb_"), None);
    assert_eq!(strip_prefix("\u{e9}t\u{e9} chaud", "\u{e9}t\u{e9} "), Some("chaud"));
    assert_eq!(strip_prefix("a\u{1f600}b", "a"), Some("\u{1f600}b"));
    assert_eq!(join("ab", "cd"), "abcd");
    assert_eq!(join("", ""), "");
}

#[test]
fn bearer_prefix_is_dropped() {
    assert_eq!(bearer_token("Bearer abc"), "abc");
    assert_eq!(bearer_token("abc"), "abc");
    assert_eq!(bearer_token("Bearer "), "");
    assert_eq!(bearer_token("bearer abc"), "bearer abc");
    assert_eq!(bearer_token("Bearer Bearer x"), "Bearer x");
}

#[test]
fn api_key_comes_from_the_proxy_header_first() {
    assert_eq!(PROXY_AUTH_HEADER, "Proxy-Authorization");
    let mut headers = HeaderMap::new();
    headers.insert("Authorization", HeaderValue::from_static("Bearer second"));
    headers.insert("Proxy-Authorization", HeaderValue::from_static("Bearer first"));
    assert_eq!(extract_api_key_from_headers(&headers), Ok("first".to_string()));
}

#[test]
fn api_key_comes_from_the_authorization_header() {
    let mut headers = HeaderMap::new();
    headers.insert("authorization", HeaderValue::from_static("raw-token"));
    assert_eq!(extract_api_key_from_headers(&headers), Ok("raw-token".to_string()));
    let mut headers = HeaderMap::new();
    headers.insert("Authorization", HeaderValue::from_static("Bearer tok"));
    headers.insert("X-Other", HeaderValue::from_static("Bearer other"));
    assert_eq!(extract_api_key_from_headers(&headers), Ok("tok".to_string()));
}

#[test]
fn first_of_several_values_is_taken() {
    let mut headers = HeaderMap::new();
    headers.append("Authorization", HeaderValue::from_static("Bearer one"));
    headers.append("Authorization", HeaderValue::from_static("Bearer two"));
    assert_eq!(extract_api_key_from_headers(&headers), Ok("one".to_string()));
}

#[test]
fn missing_header_is_refused() {
    let headers = HeaderMap::new();
    assert_eq!(
        extract_api_key_from_headers(&headers),
        Err(invalid_credentials("Missing authorization header"))
    );
}

#[test]
fn header_that_is_no_text_is_refused() {
    let mut headers = HeaderMap::new();
    headers.insert("Authorization", HeaderValue::from_bytes(b"Bearer \xfa\xfb").unwrap());
    assert_eq!(
        extract_api_key_from_headers(&headers),
        Err(invalid_credentials("Invalid authorization header format"))
    );
    // A bad proxy header is not skipped in favour of the other header.
    let mut headers = HeaderMap::new();
    headers.insert("Proxy-Authorization", HeaderValue::from_bytes(b"\xff").unwrap());
    headers.insert("Authorization", HeaderValue::from_static("Bearer fine"));
    assert_eq!(
        extract_api_key_from_headers(&headers),
        Err(invalid_credentials("Invalid authorization header format"))
    );
}

#[test]
fn api_key_loses_its_prefix() {
    assert_eq!(API_KEY_PREFIX, "msb_");
    assert_eq!(convert_api_key_to_jwt("msb_a.b.c"), Ok("a.b.c".to_string()));
    assert_eq!(convert_api_key_to_jwt("msb_"), Ok("".to_string()));
    assert_eq!(
        convert_api_key_to_jwt("a.b.c"),
        Err(invalid_credentials("Invalid API key format: missing prefix"))
    );
    assert_eq!(
        convert_api_key_to_jwt("MSB_a.b.c"),
        Err(invalid_credentials("Invalid API key format: missing prefix"))
    );
    assert_eq!(
        convert_api_key_to_jwt(""),
        Err(invalid_credentials("Invalid API key format: missing prefix"))
    );
}

#[test]
fn server_key_comes_from_the_configuration() {
    assert_eq!(get_server_key(&state(false)), Ok(SECRET.to_string()));
    let without = AppState::new(Config::new(None, false));
    assert_eq!(
        get_server_key(&without),
        Err(invalid_credentials("Server key not found in configuration"))
    );
    assert_eq!(*state(true).get_config().get_dev_mode(), true);
    assert_eq!(*state(false).get_config().get_key(), Some(SECRET.to_string()));
}

#[test]
fn valid_token_gives_its_claims() {
    let exp = now() + 3600;
    let key = api_key("team-a", exp, SECRET);
    assert_eq!(
        validate_token(&key, &state(false)),
        Ok(Claims { exp, iat: 1_700_000_000, namespace: "team-a".to_string() })
    );
}

#[test]
fn expired_token_is_refused() {
    let key = api_key("team-a", 1_000_000, SECRET);
    assert_eq!(
        validate_token(&key, &state(false)),
        Err(ServerError::Authentication(AuthenticationError::InvalidToken(
            "Token expired".to_string()
        )))
    );
}

#[test]
fn token_with_wrong_signature_is_refused() {
    let key = api_key("team-a", now() + 3600, "another-secret");
    assert_eq!(
        validate_token(&key, &state(false)),
        Err(ServerError::Authentication(AuthenticationError::InvalidToken(
            "Invalid token signature".to_string()
        )))
    );
}

#[test]
fn malformed_token_is_refused() {
    match validate_token("msb_not-a-token", &state(false)) {
        Err(ServerError::Authentication(AuthenticationError::InvalidToken(detail))) => {
            assert!(detail.starts_with("Token validation error: "));
            assert!(detail.len() > "Token validation error: ".len());
        }
        other => panic!("unexpected outcome: {:?}", other),
    }
}

#[test]
fn token_checks_come_in_order() {
    let without = AppState::new(Config::new(None, false));
    assert_eq!(
        validate_token("no-prefix", &without),
        Err(invalid_credentials("Invalid API key format: missing prefix"))
    );
    assert_eq!(
        validate_token("msb_x", &without),
        Err(invalid_credentials("Server key not found in configuration"))
    );
}

#[test]
fn token_without_namespace_is_refused() {
    let claims = object(vec![("exp", number(now() + 3600)), ("iat", number(1))]);
    let jwt = jsonwebtoken::encode(
        &jsonwebtoken::Header::default(),
        &claims,
        &jsonwebtoken::EncodingKey::from_secret(SECRET.as_bytes()),
    )
    .unwrap();
    assert_eq!(
        validate_token(&format!("msb_{}", jwt), &state(false)),
        Err(ServerError::Authentication(AuthenticationError::InvalidToken(
            "Token validation error: claims are incomplete".to_string()
        )))
    );
}

#[test]
fn decoder_outcomes_become_results() {
    let doc = object(vec![("exp", number(7)), ("iat", number(3)), ("namespace", text("n"))]);
    assert_eq!(
        claims_from_decoded(Ok(doc)),
        Ok(Claims { exp: 7, iat: 3, namespace: "n".to_string() })
    );
    let failure = TokenFailure { fault: TokenFault::Other, text: "InvalidToken".to_string() };
    assert_eq!(
        claims_from_decoded(Err(failure)),
        Err(ServerError::Authentication(AuthenticationError::InvalidToken(
            "Token validation error: InvalidToken".to_string()
        )))
    );
    assert_eq!(token_error_message(TokenFault::Expired, "ignored"), "Token expired");
    assert_eq!(
        token_error_message(TokenFault::BadSignature, "ignored"),
        "Invalid token signature"
    );
    assert_eq!(token_error_message(TokenFault::Other, "why"), "Token validation error: why");
}

#[test]
fn claims_need_all_three_members() {
    let full = object(vec![("exp", number(7)), ("iat", number(3)), ("namespace", text("n"))]);
    assert_eq!(
        claims_of_document(&full),
        Some(Claims { exp: 7, iat: 3, namespace: "n".to_string() })
    );
    let negative = object(vec![
        ("exp", serde_json::Value::from(-7i64)),
        ("iat", number(3)),
        ("namespace", text("n")),
    ]);
    assert_eq!(claims_of_document(&negative), None);
    let wrong_type =
        object(vec![("exp", number(7)), ("iat", number(3)), ("namespace", number(1))]);
    assert_eq!(claims_of_document(&wrong_type), None);
    let text_number =
        object(vec![("exp", text("7")), ("iat", number(3)), ("namespace", text("n"))]);
    assert_eq!(claims_of_document(&text_number), None);
    assert_eq!(claims_of_document(&serde_json::Value::Null), None);
    assert_eq!(claims_of_document(&text("exp")), None);
}

#[test]
fn json_members_are_read() {
    let doc = object(vec![("a", text("x")), ("b", number(5)), ("c", serde_json::Value::Null)]);
    assert_eq!(text_member(&doc, "a"), Some("x".to_string()));
    assert_eq!(text_member(&doc, "b"), None);
    assert_eq!(text_member(&doc, "missing"), None);
    assert_eq!(unsigned_member(&doc, "b"), Some(5));
    assert_eq!(unsigned_member(&doc, "a"), None);
    assert_eq!(unsigned_member(&doc, "c"), None);
    assert_eq!(unsigned_member(&object(vec![("n", number(u64::MAX))]), "n"), Some(u64::MAX));
    assert_eq!(text_member(&serde_json::Value::Array(vec![text("a")]), "a"), None);
}

#[test]
fn namespace_access_is_checked() {
    let claims = Claims { exp: 1, iat: 0, namespace: "team-a".to_string() };
    assert_eq!(check_namespace_access(claims.clone(), "team-a"), Ok(claims.clone()));
    assert_eq!(
        check_namespace_access(claims, "team-b"),
        Err(invalid_credentials("Token does not have access to namespace 'team-b'"))
    );
    let wildcard = Claims { exp: 1, iat: 0, namespace: "*".to_string() };
    assert_eq!(check_namespace_access(wildcard.clone(), "anything"), Ok(wildcard));
}

#[test]
fn token_and_namespace_are_validated_together() {
    let exp = now() + 3600;
    let key = api_key("team-a", exp, SECRET);
    let claims = Claims { exp, iat: 1_700_000_000, namespace: "team-a".to_string() };
    assert_eq!(validate_token_and_namespace(&key, "team-a", &state(false)), Ok(claims));
    assert_eq!(
        validate_token_and_namespace(&key, "team-b", &state(false)),
        Err(invalid_credentials("Token does not have access to namespace 'team-b'"))
    );
    let all = api_key("*", exp, SECRET);
    assert!(validate_token_and_namespace(&all, "team-b", &state(false)).is_ok());
    assert_eq!(
        validate_token_and_namespace("team-a", "team-a", &state(false)),
        Err(invalid_credentials("Invalid API key format: missing prefix"))
    );
    let expired = api_key("team-a", 1_000_000, SECRET);
    assert_eq!(
        validate_token_and_namespace(&expired, "team-a", &state(false)),
        Err(ServerError::Authentication(AuthenticationError::InvalidToken(
            "Token expired".to_string()
        )))
    );
}

#[test]
fn namespace_is_read_from_the_body() {
    let body = br#"{"jsonrpc":"2.0","method":"sandbox.start","params":{"namespace":"team-a","sandbox":"s"},"id":1}"#;
    assert_eq!(extract_namespace_from_json_rpc(body), Ok("team-a".to_string()));
}

#[test]
fn body_without_params_is_refused() {
    let body = br#"{"jsonrpc":"2.0","method":"sandbox.start","id":1}"#;
    assert_eq!(
        extract_namespace_from_json_rpc(body),
        Err(invalid_input("Missing 'params' field in JSON-RPC request"))
    );
}

#[test]
fn body_without_namespace_is_refused() {
    let body = br#"{"method":"sandbox.start","params":{"sandbox":"s"}}"#;
    assert_eq!(
        extract_namespace_from_json_rpc(body),
        Err(invalid_input("Missing or invalid 'namespace' in params for method 'sandbox.start'"))
    );
    let body = br#"{"params":{"namespace":5}}"#;
    assert_eq!(
        extract_namespace_from_json_rpc(body),
        Err(invalid_input("Missing or invalid 'namespace' in params for method 'unknown'"))
    );
    let body = br#"{"method":7,"params":[]}"#;
    assert_eq!(
        extract_namespace_from_json_rpc(body),
        Err(invalid_input("Missing or invalid 'namespace' in params for method 'unknown'"))
    );
}

#[test]
fn body_that_is_no_json_is_refused() {
    let body = b"{not json";
    let parser = serde_json::from_slice::<serde_json::Value>(body).unwrap_err().to_string();
    assert_eq!(
        extract_namespace_from_json_rpc(body),
        Err(invalid_input(&format!("Invalid JSON-RPC request: {}", parser)))
    );
    match extract_namespace_from_json_rpc(b"") {
        Err(ServerError::ValidationError(ValidationError::InvalidInput(detail))) => {
            assert!(detail.starts_with("Invalid JSON-RPC request: "));
        }
        other => panic!("unexpected outcome: {:?}", other),
    }
}

#[test]
fn parsed_request_is_read() {
    let doc = object(vec![
        ("method", text("tools/call")),
        ("params", object(vec![("namespace", text("ns"))])),
    ]);
    assert_eq!(method_of_request(&doc), "tools/call");
    assert_eq!(namespace_of_request(&doc), Ok("ns".to_string()));
    assert_eq!(method_of_request(&object(vec![])), "unknown");
    assert_eq!(method_of_request(&serde_json::Value::Null), "unknown");
}

#[test]
fn auth_step_depends_on_the_namespace() {
    let wildcard = Claims { exp: 1, iat: 0, namespace: "*".to_string() };
    assert_eq!(auth_step_for(wildcard), AuthStep::Forward);
    let one = Claims { exp: 1, iat: 0, namespace: "team-a".to_string() };
    assert_eq!(auth_step_for(one.clone()), AuthStep::CheckBody(one));
    let star_like = Claims { exp: 1, iat: 0, namespace: "**".to_string() };
    assert_eq!(auth_step_for(star_like.clone()), AuthStep::CheckBody(star_like));
}

#[test]
fn development_mode_lets_every_request_through() {
    let headers = HeaderMap::new();
    assert_eq!(authenticate_request(&state(true), &headers), Ok(AuthStep::Forward));
}

#[test]
fn request_is_authenticated_by_its_headers() {
    let exp = now() + 3600;
    let mut headers = HeaderMap::new();
    assert_eq!(
        authenticate_request(&state(false), &headers),
        Err(invalid_credentials("Missing authorization header"))
    );
    let value = format!("Bearer {}", api_key("team-a", exp, SECRET));
    headers.insert("Authorization", HeaderValue::from_str(&value).unwrap());
    assert_eq!(
        authenticate_request(&state(false), &headers),
        Ok(AuthStep::CheckBody(Claims {
            exp,
            iat: 1_700_000_000,
            namespace: "team-a".to_string()
        }))
    );
    let value = api_key("*", exp, SECRET);
    headers.insert("Proxy-Authorization", HeaderValue::from_str(&value).unwrap());
    assert_eq!(authenticate_request(&state(false), &headers), Ok(AuthStep::Forward));
    headers.insert("Proxy-Authorization", HeaderValue::from_static("Bearer nonsense"));
    assert_eq!(
        authenticate_request(&state(false), &headers),
        Err(invalid_credentials("Invalid API key format: missing prefix"))
    );
}

#[test]
fn rpc_body_must_name_the_namespace_of_the_token() {
    let claims = Claims { exp: 1, iat: 0, namespace: "team-a".to_string() };
    let own = br#"{"method":"sandbox.start","params":{"namespace":"team-a"}}"#;
    let other = br#"{"method":"sandbox.start","params":{"namespace":"team-b"}}"#;
    assert_eq!(authorize_rpc_body(&claims, own), Ok(()));
    assert_eq!(authorize_rpc_body(&claims, other), Err(access_denied("team-b")));
    assert_eq!(
        authorize_rpc_body(&claims, br#"{"method":"m"}"#),
        Err(invalid_input("Missing 'params' field in JSON-RPC request"))
    );
    assert!(matches!(
        authorize_rpc_body(&claims, b"]"),
        Err(ServerError::ValidationError(ValidationError::InvalidInput(_)))
    ));
    let doc = object(vec![("params", object(vec![("namespace", text("team-b"))]))]);
    assert_eq!(check_request(&claims, &doc), Err(access_denied("team-b")));
}

#[test]
fn only_tool_calls_are_checked_on_the_tool_endpoint() {
    let claims = Claims { exp: 1, iat: 0, namespace: "team-a".to_string() };
    assert!(requires_namespace_validation("tools/call"));
    assert!(!requires_namespace_validation("tools/list"));
    assert!(!requires_namespace_validation("initialize"));
    assert!(!requires_namespace_validation("unknown"));
    assert_eq!(authorize_mcp_body(&claims, br#"{"method":"initialize"}"#), Ok(()));
    assert_eq!(authorize_mcp_body(&claims, br#"{"method":"tools/list","params":{}}"#), Ok(()));
    assert_eq!(authorize_mcp_body(&claims, br#"{"id":1}"#), Ok(()));
    assert_eq!(
        authorize_mcp_body(&claims, br#"{"method":"tools/call","params":{"namespace":"team-a"}}"#),
        Ok(())
    );
    assert_eq!(
        authorize_mcp_body(&claims, br#"{"method":"tools/call","params":{"namespace":"team-b"}}"#),
        Err(access_denied("team-b"))
    );
    assert_eq!(
        authorize_mcp_body(&claims, br#"{"method":"tools/call","params":{"name":"x"}}"#),
        Err(invalid_input("Missing or invalid 'namespace' in params for method 'tools/call'"))
    );
    assert_eq!(
        authorize_mcp_body(&claims, br#"{"method":"tools/call"}"#),
        Err(invalid_input("Missing 'params' field in JSON-RPC request"))
    );
    let body = b"nope";
    let parser = serde_json::from_slice::<serde_json::Value>(body).unwrap_err().to_string();
    assert_eq!(
        authorize_mcp_body(&claims, body),
        Err(invalid_input(&format!("Invalid JSON-RPC request: {}", parser)))
    );
}

#[test]
fn proxy_target_is_built_from_its_parts() {
    assert_eq!(
        proxy_target(Some("/api/v1/rpc?x=1"), "team-a", "box1"),
        "http://sandbox-box1.team-a.internal:8080/api/v1/rpc?x=1"
    );
    assert_eq!(proxy_target(None, "ns", "sb"), "http://sandbox-sb.ns.internal:8080/");
    assert_eq!(proxy_target(Some(""), "", ""), "http://sandbox-..internal:8080");
}

#[test]
fn request_is_proxied_to_its_sandbox() {
    let uri: Uri = "http://gateway.example/api/v1/rpc?trace=1".parse().unwrap();
    assert_eq!(
        proxy_uri(uri, "team-a", "box1").to_string(),
        "http://sandbox-box1.team-a.internal:8080/api/v1/rpc?trace=1"
    );
    let uri: Uri = "/health".parse().unwrap();
    assert_eq!(
        proxy_uri(uri, "ns", "sb").to_string(),
        "http://sandbox-sb.ns.internal:8080/health"
    );
}

#[test]
fn address_without_path_is_proxied_to_the_root() {
    let uri: Uri = "example.com:443".parse().unwrap();
    assert_eq!(uri.path_and_query(), None);
    assert_eq!(proxy_uri(uri, "ns", "sb").to_string(), "http://sandbox-sb.ns.internal:8080/");
}

#[test]
fn address_that_cannot_be_formed_falls_back() {
    let uri: Uri = "http://gateway.example/x".parse().unwrap();
    assert_eq!(proxy_uri(uri, "bad namespace", "sb").to_string(), "http://localhost:8080/");
}
