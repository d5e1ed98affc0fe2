use coupon_api_server::jobs::retry::{RetryClass, RetryDecision};
use coupon_api_server::jobs::RetryBudget;
use coupon_api_server::notifications::delivery::{
    callback_decision, dispatch_decision, dispatch_outcome, parse_u64, provider_settlement, reported_status, retry_after,
    CallbackOutcome, DispatchOutcome, SendDecision, Settlement, MAX_DELIVERY_ATTEMPTS,
};
use coupon_api_server::notifications::delivery::{
    ends_push, keep_most_actionable, no_alimtalk_recipient, push_result, retires_subscription,
};
use coupon_api_server::notifications::policy::{ConsentSnapshot, NotificationPurpose, SuppressionReason};
use coupon_api_server::notifications::NotificationChannel;
use coupon_api_server::notifications::providers::ProviderOutcome;
use coupon_api_server::notifications::DeliveryStatus;
use coupon_api_server::time::Duration;

#[test]
fn a_retryable_failure_inside_the_budget_retries_and_beyond_it_gives_up() {
    let budget = RetryBudget::Limited(MAX_DELIVERY_ATTEMPTS);
    assert!(matches!(RetryClass::Transient.decide(1, budget), RetryDecision::Retry { .. }));
    assert!(matches!(RetryClass::Transient.decide(MAX_DELIVERY_ATTEMPTS, budget), RetryDecision::DeadLetter));
}

#[test]
fn a_throttled_provider_sets_the_schedule() {
    let decision = RetryClass::ProviderThrottled { retry_after_secs: 45 }.decide(1, RetryBudget::Limited(MAX_DELIVERY_ATTEMPTS));
    assert_eq!(decision, RetryDecision::Retry { after: Duration::from_secs(45) });
}

#[test]
fn a_reported_status_maps_onto_the_15_4_vocabulary() {
    for (reported, expected) in [
        ("delivered", DeliveryStatus::Delivered),
        ("SUCCESS", DeliveryStatus::Delivered),
        ("failed", DeliveryStatus::FailedPermanent),
        ("REJECTED", DeliveryStatus::FailedPermanent),
        ("queued", DeliveryStatus::Sending),
    ] {
        assert_eq!(reported_status(reported), expected, "{reported}");
    }
    assert_eq!(reported_status("Completed"), DeliveryStatus::Delivered);
    assert_eq!(reported_status("bounced"), DeliveryStatus::FailedPermanent);
}

#[test]
fn a_callback_is_applied_once_and_never_unsettles_a_delivery() {
    assert_eq!(
        callback_decision(true, true, Some(DeliveryStatus::Sending), "delivered"),
        (CallbackOutcome::Applied, Some(DeliveryStatus::Delivered))
    );
    assert_eq!(callback_decision(false, true, Some(DeliveryStatus::Sending), "delivered"), (CallbackOutcome::Duplicate, None));
    assert_eq!(callback_decision(true, false, Some(DeliveryStatus::Sending), "delivered"), (CallbackOutcome::Ignored, None));
    assert_eq!(callback_decision(true, true, None, "delivered"), (CallbackOutcome::Ignored, None));
    for settled in [DeliveryStatus::Delivered, DeliveryStatus::FailedPermanent, DeliveryStatus::Suppressed] {
        assert_eq!(callback_decision(true, true, Some(settled), "failed"), (CallbackOutcome::Ignored, None));
    }
}

#[test]
fn retry_after_reads_whole_seconds() {
    assert_eq!(retry_after(Some(b" 90 ")), Some(Duration::from_secs(90)));
    assert_eq!(retry_after(Some(b"+5")), Some(Duration::from_secs(5)));
    assert_eq!(retry_after(Some(b"Wed, 21 Oct 2015 07:28:00 GMT")), None);
    assert_eq!(retry_after(Some(b"-1")), None);
    assert_eq!(retry_after(None), None);
    let digits: Vec<char> = "18446744073709551615".chars().collect();
    assert_eq!(parse_u64(&digits), Some(u64::MAX));
    let digits: Vec<char> = "18446744073709551616".chars().collect();
    assert_eq!(parse_u64(&digits), None);
}

#[test]
fn an_acceptance_keeps_the_delivery_sending_with_its_reference() {
    let s = provider_settlement(ProviderOutcome::Accepted { provider_reference: "m-1".to_owned() }, 0, MAX_DELIVERY_ATTEMPTS);
    assert_eq!(
        s,
        Settlement::Settle { status: DeliveryStatus::Sending, reference: Some("m-1".to_owned()), label: "ACCEPTED", error: None }
    );
    assert_eq!(dispatch_outcome(&s), DispatchOutcome::Sent { status: DeliveryStatus::Sending });
}

#[test]
fn a_permanent_failure_settles_as_failed() {
    let outcome = ProviderOutcome::PermanentFailure { code: "BAD".to_owned(), message: "no".to_owned(), recipient_gone: false };
    let s = provider_settlement(outcome, 0, MAX_DELIVERY_ATTEMPTS);
    assert_eq!(
        s,
        Settlement::Settle {
            status: DeliveryStatus::FailedPermanent,
            reference: None,
            label: "PERMANENT",
            error: Some(("BAD".to_owned(), "no".to_owned())),
        }
    );
    assert_eq!(dispatch_outcome(&s), DispatchOutcome::Failed { code: "BAD".to_owned() });
}

#[test]
fn a_throttled_send_is_retried_on_the_providers_schedule_until_the_budget_is_spent() {
    let throttled = || ProviderOutcome::RetryableFailure {
        code: "RATE_LIMITED".to_owned(),
        message: "slow down".to_owned(),
        retry_after: Some(Duration::from_secs(90)),
    };
    let s = provider_settlement(throttled(), 0, MAX_DELIVERY_ATTEMPTS);
    assert_eq!(
        s,
        Settlement::Retry { after: Duration::from_secs(90), code: "RATE_LIMITED".to_owned(), message: "slow down".to_owned() }
    );
    assert_eq!(
        dispatch_outcome(&s),
        DispatchOutcome::Retrying { after: Duration::from_secs(90), code: "RATE_LIMITED".to_owned() }
    );
    let last = provider_settlement(throttled(), MAX_DELIVERY_ATTEMPTS - 1, MAX_DELIVERY_ATTEMPTS);
    assert!(matches!(last, Settlement::Settle { status: DeliveryStatus::FailedPermanent, label: "RETRIES_EXHAUSTED", .. }));
}

#[test]
fn an_unscheduled_retry_follows_the_jittered_backoff() {
    let outcome = ProviderOutcome::RetryableFailure { code: "HTTP_503".to_owned(), message: "busy".to_owned(), retry_after: None };
    match provider_settlement(outcome, 1, MAX_DELIVERY_ATTEMPTS) {
        Settlement::Retry { after, .. } => {
            assert!(after >= Duration::from_secs(8) && after <= Duration::from_secs(12), "{after:?}");
        },
        other => panic!("expected a retry, got {other:?}"),
    }
}

fn instant(rfc3339: &str) -> i64 {
    chrono::DateTime::parse_from_rfc3339(rfc3339).expect("valid timestamp").timestamp_micros()
}

fn consenting() -> ConsentSnapshot {
    ConsentSnapshot {
        web_push_transactional: true,
        marketing_all_channels: true,
        marketing_this_store: true,
        alimtalk_informational: true,
        has_active_push_subscription: true,
        recipient_active: true,
    }
}

fn decide(
    status: DeliveryStatus,
    has_reference: bool,
    deliver_before: Option<i64>,
    now: i64,
    purpose: NotificationPurpose,
    consent: &ConsentSnapshot,
    template: Option<bool>,
) -> SendDecision {
    dispatch_decision(status, has_reference, deliver_before, now, NotificationChannel::FcmWebPush, purpose, consent, None, template)
}

#[test]
fn a_settled_or_handed_over_delivery_is_never_sent_again() {
    let noon = instant("2026-08-11T03:00:00Z");
    for status in [DeliveryStatus::Delivered, DeliveryStatus::FailedPermanent, DeliveryStatus::Suppressed] {
        assert_eq!(
            decide(status, false, None, noon, NotificationPurpose::Transactional, &consenting(), Some(true)),
            SendDecision::AlreadySettled { status }
        );
    }
    assert_eq!(
        decide(DeliveryStatus::Sending, true, None, noon, NotificationPurpose::Transactional, &consenting(), Some(true)),
        SendDecision::AlreadySettled { status: DeliveryStatus::Sending }
    );
    assert_eq!(
        decide(DeliveryStatus::Sending, false, None, noon, NotificationPurpose::Transactional, &consenting(), Some(true)),
        SendDecision::Send
    );
}

#[test]
fn a_delivery_past_its_deadline_is_suppressed() {
    let noon = instant("2026-08-11T03:00:00Z");
    assert_eq!(
        decide(DeliveryStatus::Pending, false, Some(noon), noon, NotificationPurpose::Transactional, &consenting(), Some(true)),
        SendDecision::Suppress(SuppressionReason::ExpiredBeforeDelivery)
    );
    assert_eq!(
        decide(DeliveryStatus::Pending, false, Some(noon + 1), noon, NotificationPurpose::Transactional, &consenting(), Some(true)),
        SendDecision::Send
    );
}

#[test]
fn consent_withdrawn_before_the_send_suppresses_it() {
    let noon = instant("2026-08-11T03:00:00Z");
    let withdrawn = ConsentSnapshot { web_push_transactional: false, ..consenting() };
    assert_eq!(
        decide(DeliveryStatus::FailedRetryable, false, None, noon, NotificationPurpose::Transactional, &withdrawn, Some(true)),
        SendDecision::Suppress(SuppressionReason::ConsentMissing)
    );
}

#[test]
fn marketing_in_the_quiet_hours_waits_for_the_morning() {
    // 22:00 in Seoul; the hours reopen at 08:00, ten hours on.
    let late = instant("2026-08-11T13:00:00Z");
    assert_eq!(
        decide(DeliveryStatus::Pending, false, None, late, NotificationPurpose::Marketing, &consenting(), Some(true)),
        SendDecision::Wait { after: Duration::from_secs(10 * 3600) }
    );
    assert_eq!(
        decide(DeliveryStatus::Pending, false, None, late, NotificationPurpose::Transactional, &consenting(), Some(true)),
        SendDecision::Send
    );
}

#[test]
fn a_template_that_cannot_be_sent_suppresses_the_delivery() {
    let noon = instant("2026-08-11T03:00:00Z");
    for template in [None, Some(false)] {
        assert_eq!(
            decide(DeliveryStatus::Pending, false, None, noon, NotificationPurpose::Marketing, &consenting(), template),
            SendDecision::Suppress(SuppressionReason::TemplateUnavailable)
        );
    }
    assert_eq!(
        decide(DeliveryStatus::Pending, false, None, noon, NotificationPurpose::Marketing, &consenting(), Some(true)),
        SendDecision::Send
    );
}

fn retryable(code: &str) -> ProviderOutcome {
    ProviderOutcome::RetryableFailure { code: code.to_string(), message: "busy".to_string(), retry_after: None }
}

fn permanent(code: &str, gone: bool) -> ProviderOutcome {
    ProviderOutcome::PermanentFailure { code: code.to_string(), message: "no".to_string(), recipient_gone: gone }
}

#[test]
fn one_dead_device_does_not_condemn_a_push_another_could_take() {
    let after_first = keep_most_actionable(None, retryable("PROVIDER_HTTP_503"));
    assert_eq!(after_first, retryable("PROVIDER_HTTP_503"));
    let after_second = keep_most_actionable(Some(after_first), permanent("UNREGISTERED", true));
    assert_eq!(
        after_second,
        ProviderOutcome::RetryableFailure { code: "PROVIDER_RETRY".to_string(), message: String::new(), retry_after: None }
    );
    assert_eq!(push_result(Some(after_second.clone()), true), after_second);
}

#[test]
fn without_a_retryable_device_the_last_failure_stands() {
    let best = keep_most_actionable(Some(permanent("A", false)), permanent("B", true));
    assert_eq!(best, permanent("B", true));
    assert_eq!(keep_most_actionable(Some(permanent("A", false)), retryable("C")), retryable("C"));
}

#[test]
fn a_taken_push_ends_the_run_and_a_gone_address_is_retired() {
    assert!(ends_push(&ProviderOutcome::Accepted { provider_reference: "r".to_string() }));
    assert!(ends_push(&ProviderOutcome::Delivered { provider_reference: "r".to_string() }));
    assert!(!ends_push(&retryable("X")));
    assert!(retires_subscription(&permanent("UNREGISTERED", true)));
    assert!(!retires_subscription(&permanent("BAD_REQUEST", false)));
    assert!(!retires_subscription(&retryable("X")));
}

#[test]
fn a_push_with_no_usable_device_fails_for_good() {
    for (had, message) in [(false, "활성 푸시 구독이 없습니다."), (true, "발송 가능한 구독이 없습니다.")] {
        assert_eq!(
            push_result(None, had),
            ProviderOutcome::PermanentFailure {
                code: "NO_ACTIVE_SUBSCRIPTION".to_string(),
                message: message.to_string(),
                recipient_gone: true,
            }
        );
    }
}

#[test]
fn an_alimtalk_without_a_phone_number_has_nobody_to_address() {
    assert!(matches!(
        no_alimtalk_recipient(),
        ProviderOutcome::PermanentFailure { ref code, recipient_gone: true, .. } if code == "RECIPIENT_UNREACHABLE"
    ));
}
