use axum::http::Method;
use coupon_api_server::error::ErrorCode;
use coupon_api_server::http::idempotency::is_state_changing;
use coupon_api_server::http::origin::check_origin;

#[test]
fn reads_are_never_origin_checked() {
    assert!(!is_state_changing(Method::GET.as_str()));
    assert!(!is_state_changing(Method::HEAD.as_str()));
    assert!(!is_state_changing(Method::OPTIONS.as_str()));
}

#[test]
fn every_mutating_verb_is_checked() {
    for method in [Method::POST, Method::PUT, Method::PATCH, Method::DELETE] {
        assert!(is_state_changing(method.as_str()), "{method} must be checked");
    }
}

fn allowlist() -> Vec<String> {
    vec!["https://app.example".to_owned(), "https://admin.example".to_owned()]
}

#[test]
fn a_change_from_an_unlisted_origin_is_refused() {
    let error = check_origin("POST", Some(b"https://evil.example"), &allowlist()).expect_err("unlisted");
    assert_eq!(error.code, ErrorCode::OriginNotAllowed);
    assert_eq!(error.internal.as_deref(), Some("rejected origin https://evil.example"));
    assert!(check_origin("DELETE", Some(b"https://admin.example"), &allowlist()).is_ok());
}

#[test]
fn reads_requests_without_an_origin_and_an_empty_allowlist_pass() {
    assert!(check_origin("GET", Some(b"https://evil.example"), &allowlist()).is_ok());
    assert!(check_origin("POST", None, &allowlist()).is_ok());
    assert!(check_origin("POST", Some(b"https://evil.example"), &Vec::new()).is_ok());
}
