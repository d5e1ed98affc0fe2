use coupon_api_server::error::ErrorCode;
use coupon_api_server::http::auth::Credential;
use coupon_api_server::http::{client_ip, API_BASE_PATH};

#[test]
fn the_first_forwarded_address_is_the_callers() {
    assert_eq!(client_ip(Some(b" 203.0.113.7 , 10.0.0.1"), Some(b"10.0.0.2")).as_deref(), Some("203.0.113.7"));
    assert_eq!(client_ip(Some(b"198.51.100.1"), None).as_deref(), Some("198.51.100.1"));
}

#[test]
fn the_real_ip_header_is_used_only_without_a_readable_forwarded_header() {
    assert_eq!(client_ip(None, Some(b" 10.0.0.2 ")).as_deref(), Some("10.0.0.2"));
    let unreadable: &[u8] = &[0xff];
    assert_eq!(client_ip(Some(unreadable), Some(b"10.0.0.2")).as_deref(), Some("10.0.0.2"));
    assert_eq!(client_ip(Some(b" , 10.0.0.1"), Some(b"10.0.0.2")), None, "an empty first entry names nobody");
    assert_eq!(client_ip(None, None), None);
    assert_eq!(API_BASE_PATH, "/api/coupon/v1");
}

#[test]
fn a_bearer_token_is_read_in_either_case_and_trimmed() {
    assert_eq!(Credential::extract(false, None, None, Some(b"Bearer abc.def ")).expect("authenticates"), Credential::Bearer("abc.def".to_owned()));
    assert_eq!(Credential::extract(false, None, None, Some(b"bearer xyz")).expect("authenticates"), Credential::Bearer("xyz".to_owned()));
}

#[test]
fn anything_but_a_bearer_token_is_unauthenticated() {
    let missing = Credential::extract(false, None, None, None).expect_err("missing");
    assert_eq!(missing.code, ErrorCode::Unauthenticated);
    for raw in [&b"Basic dXNlcg=="[..], &b"Bearer    "[..], &b"Bearer"[..]] {
        let error = Credential::extract(false, None, None, Some(raw)).expect_err("not bearer");
        assert_eq!(error.code, ErrorCode::Unauthenticated);
        assert_eq!(error.message, "Authorization 헤더는 Bearer 토큰이어야 합니다.");
    }
}

#[test]
fn the_development_bypass_takes_the_claimed_identity_only_when_enabled() {
    assert_eq!(Credential::extract(true, Some(b"uid-1"), Some(b"120"), None).expect("authenticates"), Credential::DevBypass { firebase_uid: "uid-1".to_owned(), auth_age_secs: 120 });
    assert_eq!(Credential::extract(true, Some(b"uid-1"), Some(b"soon"), None).expect("authenticates"), Credential::DevBypass { firebase_uid: "uid-1".to_owned(), auth_age_secs: 0 });
    assert_eq!(Credential::extract(false, Some(b"uid-1"), None, Some(b"Bearer t")).expect("authenticates"), Credential::Bearer("t".to_owned()));
    assert_eq!(Credential::extract(true, None, None, Some(b"Bearer t")).expect("authenticates"), Credential::Bearer("t".to_owned()));
}
