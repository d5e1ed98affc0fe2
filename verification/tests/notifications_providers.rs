use coupon_api_server::notifications::providers::{classify, JsonFlag, JsonText, ProviderOutcome, ReplyFields};
use coupon_api_server::time::Duration;

fn empty() -> ReplyFields {
    ReplyFields {
        provider_reference: JsonText::Absent,
        message_id: JsonText::Absent,
        delivered: JsonFlag::Absent,
        error_code: JsonText::Absent,
        code: JsonText::Absent,
        error: JsonText::Absent,
        message: JsonText::Absent,
    }
}

fn text(s: &str) -> JsonText {
    JsonText::Text(s.to_owned())
}

#[test]
fn a_2xx_with_a_reference_is_an_acceptance_not_a_delivery() {
    assert_eq!(
        classify("fcm", 200, None, &ReplyFields { provider_reference: text("abc"), ..empty() }),
        ProviderOutcome::Accepted { provider_reference: "abc".to_owned() }
    );
    assert_eq!(
        classify("fcm", 202, None, &ReplyFields { message_id: text("m-1"), delivered: JsonFlag::Bool(true), ..empty() }),
        ProviderOutcome::Delivered { provider_reference: "m-1".to_owned() }
    );
}

#[test]
fn a_429_carries_the_providers_own_schedule() {
    let outcome = classify("alimtalk", 429, Some(Duration::from_secs(90)), &ReplyFields { code: text("RATE_LIMITED"), ..empty() });
    assert_eq!(
        outcome,
        ProviderOutcome::RetryableFailure {
            code: "RATE_LIMITED".to_owned(),
            message: String::new(),
            retry_after: Some(Duration::from_secs(90)),
        }
    );
}

#[test]
fn a_4xx_is_permanent_and_a_5xx_is_not() {
    assert!(matches!(classify("fcm", 400, None, &empty()), ProviderOutcome::PermanentFailure { .. }));
    assert!(matches!(classify("fcm", 503, None, &empty()), ProviderOutcome::RetryableFailure { .. }));
}

#[test]
fn an_unregistered_token_marks_the_recipient_gone() {
    for (status, code) in [(404u16, ""), (410, ""), (400, "UNREGISTERED")] {
        let outcome = classify("fcm", status, None, &ReplyFields { code: text(code), ..empty() });
        match outcome {
            ProviderOutcome::PermanentFailure { recipient_gone, .. } => assert!(recipient_gone, "status {status} code {code:?}"),
            other => panic!("expected a permanent failure, got {other:?}"),
        }
    }
    let outcome = classify("fcm", 422, None, &ReplyFields { code: text("BAD_PAYLOAD"), ..empty() });
    assert!(matches!(outcome, ProviderOutcome::PermanentFailure { recipient_gone: false, .. }));
}

#[test]
fn a_hand_off_without_a_reference_is_named_after_the_provider() {
    assert_eq!(
        classify("fcm", 200, None, &empty()),
        ProviderOutcome::Delivered { provider_reference: "fcm:no-reference".to_owned() }
    );
}

#[test]
fn a_failure_without_a_code_is_named_after_its_status() {
    assert_eq!(
        classify("fcm", 503, None, &ReplyFields { error: text("down"), ..empty() }),
        ProviderOutcome::RetryableFailure { code: "PROVIDER_HTTP_503".to_owned(), message: "down".to_owned(), retry_after: None }
    );
    assert_eq!(
        classify("fcm", 429, None, &empty()),
        ProviderOutcome::RetryableFailure { code: "PROVIDER_THROTTLED".to_owned(), message: String::new(), retry_after: None }
    );
    assert_eq!(
        classify("fcm", 403, None, &ReplyFields { error_code: text("DENIED"), code: text("IGNORED"), ..empty() }),
        ProviderOutcome::PermanentFailure { code: "DENIED".to_owned(), message: String::new(), recipient_gone: false }
    );
}

#[test]
fn only_an_acceptance_or_a_delivery_carries_a_reference() {
    let accepted = ProviderOutcome::Accepted { provider_reference: "r".to_owned() };
    assert_eq!(accepted.provider_reference(), Some("r"));
    let failed = ProviderOutcome::PermanentFailure { code: "X".to_owned(), message: String::new(), recipient_gone: false };
    assert_eq!(failed.provider_reference(), None);
}

#[test]
fn alimtalk_is_refused_without_an_approved_template() {
    assert!(matches!(
        coupon_api_server::notifications::providers::alimtalk_refusal(None),
        Some(coupon_api_server::notifications::providers::ProviderOutcome::PermanentFailure { ref code, recipient_gone: false, .. })
            if code == "TEMPLATE_NOT_APPROVED"
    ));
    assert!(coupon_api_server::notifications::providers::alimtalk_refusal(Some("TPL-1")).is_none());
}
