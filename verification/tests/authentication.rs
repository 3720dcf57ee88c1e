use actix_web::http::header::{HeaderMap, HeaderName, HeaderValue};
use actix_web::test::TestRequest;
use renovate_k8s_trigger::auth::{authenticate, choose_token, extract_token};

/// Build an Authorization header value: "Bearer <token>"
fn make_auth(token: &str) -> String {
    ["Bearer", " ", token].concat()
}

#[test]
fn test_authenticate_valid_bearer() {
    let hdr = make_auth("test-token-value");
    let req = TestRequest::get()
        .insert_header(("Authorization", hdr.as_str()))
        .to_http_request();
    assert!(authenticate(req.headers(), "test-token-value"));
}

#[test]
fn test_authenticate_valid_api_key() {
    let req = TestRequest::get()
        .insert_header(("X-Api-Key", "test-token-value"))
        .to_http_request();
    assert!(authenticate(req.headers(), "test-token-value"));
}

#[test]
fn test_authenticate_wrong_token() {
    let hdr = make_auth("wrong-token");
    let req = TestRequest::get()
        .insert_header(("Authorization", hdr.as_str()))
        .to_http_request();
    assert!(!authenticate(req.headers(), "test-token-value"));
}

#[test]
fn test_authenticate_missing_header() {
    let req = TestRequest::get().to_http_request();
    assert!(!authenticate(req.headers(), "test-token-value"));
}

#[test]
fn test_authenticate_bearer_prefix_only() {
    let req = TestRequest::get()
        .insert_header(("Authorization", "Bearer "))
        .to_http_request();
    assert!(!authenticate(req.headers(), "test-token-value"));
}

#[test]
fn bearer_token_comes_before_api_key() {
    let req = TestRequest::get()
        .insert_header(("Authorization", "Bearer one"))
        .insert_header(("X-Api-Key", "two"))
        .to_http_request();
    assert_eq!(extract_token(req.headers()), Some("one"));
    assert!(authenticate(req.headers(), "one"));
    assert!(!authenticate(req.headers(), "two"));
}

#[test]
fn another_scheme_falls_back_to_api_key() {
    let req = TestRequest::get()
        .insert_header(("Authorization", "Basic one"))
        .insert_header(("X-Api-Key", "two"))
        .to_http_request();
    assert_eq!(extract_token(req.headers()), Some("two"));
}

#[test]
fn the_scheme_is_case_sensitive() {
    let req = TestRequest::get()
        .insert_header(("Authorization", "bearer one"))
        .to_http_request();
    assert_eq!(extract_token(req.headers()), None);
}

#[test]
fn header_names_are_not_case_sensitive() {
    let req = TestRequest::get()
        .insert_header(("AUTHORIZATION", "Bearer one"))
        .to_http_request();
    assert_eq!(extract_token(req.headers()), Some("one"));
    let req = TestRequest::get()
        .insert_header(("x-API-key", "two"))
        .to_http_request();
    assert_eq!(extract_token(req.headers()), Some("two"));
}

#[test]
fn the_first_of_several_values_counts() {
    let mut headers = HeaderMap::new();
    headers.append(HeaderName::from_static("x-api-key"), HeaderValue::from_static("one"));
    headers.append(HeaderName::from_static("x-api-key"), HeaderValue::from_static("two"));
    assert_eq!(extract_token(&headers), Some("one"));
}

#[test]
fn an_unreadable_header_counts_as_missing() {
    let mut headers = HeaderMap::new();
    headers.insert(
        HeaderName::from_static("authorization"),
        HeaderValue::from_bytes(b"Bearer \xff").unwrap(),
    );
    headers.insert(HeaderName::from_static("x-api-key"), HeaderValue::from_static("key"));
    assert_eq!(extract_token(&headers), Some("key"));

    let mut headers = HeaderMap::new();
    headers.insert(
        HeaderName::from_static("x-api-key"),
        HeaderValue::from_bytes("schl\u{fc}ssel".as_bytes()).unwrap(),
    );
    assert_eq!(extract_token(&headers), None);
}

#[test]
fn a_tab_is_readable() {
    let mut headers = HeaderMap::new();
    headers.insert(HeaderName::from_static("x-api-key"), HeaderValue::from_static("a\tb ~"));
    assert_eq!(extract_token(&headers), Some("a\tb ~"));
}

#[test]
fn a_bare_bearer_hides_the_api_key() {
    let mut headers = HeaderMap::new();
    headers.insert(HeaderName::from_static("authorization"), HeaderValue::from_static("Bearer "));
    headers.insert(HeaderName::from_static("x-api-key"), HeaderValue::from_static("secret"));
    assert_eq!(extract_token(&headers), Some(""));
    assert!(!authenticate(&headers, "secret"));
}

#[test]
fn choose_token_on_plain_values() {
    assert_eq!(choose_token(Some("Bearer a"), Some("b")), Some("a"));
    assert_eq!(choose_token(Some("Bearer"), Some("b")), Some("b"));
    assert_eq!(choose_token(Some("Bearer Bearer a"), None), Some("Bearer a"));
    assert_eq!(choose_token(Some("Token a"), None), None);
    assert_eq!(choose_token(None, Some("b")), Some("b"));
    assert_eq!(choose_token(None, None), None);
}
