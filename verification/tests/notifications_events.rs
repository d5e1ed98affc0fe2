use coupon_api_server::notifications::RegisterPushSubscriptionRequest;
use coupon_api_server::jobs::JobKey;
use coupon_api_server::notifications::policy::{ConsentSnapshot, NotificationPurpose, SuppressionReason};
use coupon_api_server::error::ErrorCode;
use coupon_api_server::notifications::{
    dedupe_key, non_blank, plan_channel, truncate, ChannelPlan, DeliveryStatus, NotificationAction, NotificationChannel,
    NotificationEvent, UpdateNotificationsRequest,
};

#[test]
fn channels_use_the_database_spelling() {
    assert_eq!(NotificationChannel::InApp.as_db(), "IN_APP");
    assert_eq!(NotificationChannel::FcmWebPush.as_db(), "FCM_WEB_PUSH");
    assert_eq!(NotificationChannel::KakaoAlimtalk.as_db(), "KAKAO_ALIMTALK");
    for channel in [NotificationChannel::InApp, NotificationChannel::FcmWebPush, NotificationChannel::KakaoAlimtalk] {
        assert_eq!(NotificationChannel::from_db(channel.as_db()), Some(channel));
    }
}

#[test]
fn every_domain_event_the_outbox_carries_maps_onto_a_notification() {
    for (raw, expected) in [
        ("STAMP_EARNED", NotificationEvent::StampEarned),
        ("REWARD_ISSUED", NotificationEvent::RewardIssued),
        ("CAMPAIGN_COUPON_ISSUED", NotificationEvent::CouponIssued),
        ("COUPON_REDEEMED", NotificationEvent::CouponUsed),
        ("TRANSACTION_VOIDED", NotificationEvent::TransactionVoided),
        ("REDEMPTION_VOIDED", NotificationEvent::TransactionVoided),
        ("COUPON_EXPIRING", NotificationEvent::CouponExpiring),
    ] {
        assert_eq!(NotificationEvent::from_outbox_event(raw), Some(expected), "{raw}");
    }
    assert_eq!(NotificationEvent::from_outbox_event("JOB_ENQUEUED"), None);
}

#[test]
fn the_purpose_table_follows_15_3() {
    assert_eq!(NotificationEvent::StampEarned.purpose(), NotificationPurpose::Transactional);
    assert_eq!(NotificationEvent::CouponIssued.purpose(), NotificationPurpose::Marketing, "신규 할인 캠페인은 마케팅이다");
    assert_eq!(NotificationEvent::SecurityAlert.purpose(), NotificationPurpose::Security);
    assert_eq!(NotificationEvent::CouponExpiring.purpose(), NotificationPurpose::Informational);
}

#[test]
fn the_dedupe_key_separates_every_dimension_notify_004_names() {
    let base = dedupe_key(1, NotificationChannel::FcmWebPush, "STAMP_EARNED", 1, 2);
    assert_ne!(base, dedupe_key(1, NotificationChannel::KakaoAlimtalk, "STAMP_EARNED", 1, 2), "channel");
    assert_ne!(base, dedupe_key(1, NotificationChannel::FcmWebPush, "STAMP_EARNED", 2, 2), "template version");
    assert_ne!(base, dedupe_key(3, NotificationChannel::FcmWebPush, "STAMP_EARNED", 1, 2), "event");
    assert_ne!(base, dedupe_key(1, NotificationChannel::FcmWebPush, "STAMP_EARNED", 1, 4), "recipient");
}

#[test]
fn the_dedupe_key_has_the_documented_shape() {
    assert_eq!(
        dedupe_key(1, NotificationChannel::FcmWebPush, "STAMP_EARNED", 3, 2),
        "00000000-0000-0000-0000-000000000001|FCM_WEB_PUSH|STAMP_EARNEDv3|00000000-0000-0000-0000-000000000002"
    );
}

#[test]
fn the_job_key_matches_the_shape_14_3_documents() {
    let key = JobKey::notify_event(1, 2, NotificationChannel::FcmWebPush, 2);
    let text = key.to_string();
    assert!(text.ends_with(":fcm-template-2"), "{text}");
    assert!(text.starts_with("notify_event:"), "{text}");
}

#[test]
fn delivery_statuses_round_trip_and_only_the_settled_ones_are_terminal() {
    for status in [
        DeliveryStatus::Pending,
        DeliveryStatus::Sending,
        DeliveryStatus::Delivered,
        DeliveryStatus::FailedRetryable,
        DeliveryStatus::FailedPermanent,
        DeliveryStatus::Suppressed,
    ] {
        assert_eq!(DeliveryStatus::from_db(status.as_db()), status);
    }
    assert!(DeliveryStatus::Delivered.is_terminal());
    assert!(DeliveryStatus::FailedPermanent.is_terminal());
    assert!(DeliveryStatus::Suppressed.is_terminal());
    assert!(!DeliveryStatus::FailedRetryable.is_terminal(), "a retryable failure is a waiting state, not an outcome");
}

#[test]
fn a_render_that_produces_nothing_still_yields_a_storable_record() {
    assert_eq!(non_blank("  ", "알림"), "알림");
    assert_eq!(non_blank("적립 알림", "알림"), "적립 알림");
    assert_eq!(non_blank("", ""), "");
}

#[test]
fn a_store_status_change_stays_in_the_app() {
    assert!(NotificationEvent::StoreSuspended.external_channels().is_empty());
    assert!(!NotificationEvent::CouponUsed.external_channels().is_empty());
}

#[test]
fn template_codes_round_trip() {
    for event in [
        NotificationEvent::StampEarned,
        NotificationEvent::RewardIssued,
        NotificationEvent::CouponIssued,
        NotificationEvent::CouponExpiring,
        NotificationEvent::CouponUsed,
        NotificationEvent::TransactionVoided,
        NotificationEvent::StoreSuspended,
        NotificationEvent::StoreClosed,
        NotificationEvent::SecurityAlert,
    ] {
        assert_eq!(NotificationEvent::from_code(event.code()), Some(event));
    }
    assert_eq!(NotificationEvent::from_code("NOPE"), None);
}

#[test]
fn truncation_counts_characters_not_bytes() {
    assert_eq!(truncate("가나다라", 2), "가나");
    assert_eq!(truncate("가나", 5), "가나");
    assert_eq!(truncate("abc", 0), "");
}

fn granted() -> ConsentSnapshot {
    ConsentSnapshot {
        web_push_transactional: true,
        marketing_all_channels: true,
        marketing_this_store: true,
        alimtalk_informational: true,
        has_active_push_subscription: true,
        recipient_active: true,
    }
}

fn at(rfc3339: &str) -> i64 {
    chrono::DateTime::parse_from_rfc3339(rfc3339).expect("valid timestamp").timestamp_micros()
}

#[test]
fn a_channel_without_a_sendable_template_is_suppressed_first() {
    let occurred = at("2026-08-11T04:00:00Z");
    for template in [None, Some(false)] {
        assert_eq!(
            plan_channel(template, NotificationChannel::FcmWebPush, NotificationPurpose::Transactional, &granted(), occurred, "Asia/Seoul", None),
            ChannelPlan::Suppress(SuppressionReason::TemplateUnavailable)
        );
    }
}

#[test]
fn a_permitted_channel_is_queued_at_once_or_in_the_morning() {
    let midday = at("2026-08-11T04:00:00Z");
    assert_eq!(
        plan_channel(Some(true), NotificationChannel::FcmWebPush, NotificationPurpose::Transactional, &granted(), midday, "Asia/Seoul", None),
        ChannelPlan::Queue { scheduled_at: midday }
    );
    let late = at("2026-08-11T13:00:00Z");
    assert_eq!(
        plan_channel(Some(true), NotificationChannel::FcmWebPush, NotificationPurpose::Marketing, &granted(), late, "Asia/Seoul", None),
        ChannelPlan::Queue { scheduled_at: at("2026-08-11T23:00:00Z") }
    );
}

#[test]
fn a_message_that_would_expire_before_the_morning_is_not_queued() {
    let late = at("2026-08-11T13:00:00Z");
    assert_eq!(
        plan_channel(
            Some(true),
            NotificationChannel::FcmWebPush,
            NotificationPurpose::Marketing,
            &granted(),
            late,
            "Asia/Seoul",
            Some(at("2026-08-11T20:00:00Z"))
        ),
        ChannelPlan::Suppress(SuppressionReason::ExpiredBeforeDelivery)
    );
    let consent = ConsentSnapshot { marketing_this_store: false, ..granted() };
    assert_eq!(
        plan_channel(Some(true), NotificationChannel::FcmWebPush, NotificationPurpose::Marketing, &consent, late, "Asia/Seoul", None),
        ChannelPlan::Suppress(SuppressionReason::StoreConsentMissing)
    );
}

#[test]
fn an_inbox_update_must_name_its_targets() {
    let nothing = UpdateNotificationsRequest { notification_ids: Vec::new(), all: false, action: NotificationAction::MarkRead };
    let error = nothing.check().expect_err("no target");
    assert_eq!(error.code, ErrorCode::ValidationFailed);
    assert_eq!(error.message, "처리할 알림을 지정해 주세요.");
    let everything = UpdateNotificationsRequest { notification_ids: Vec::new(), all: true, action: NotificationAction::Dismiss };
    assert!(everything.check().is_ok());
    let some = UpdateNotificationsRequest { notification_ids: vec![1, 2], all: false, action: NotificationAction::MarkUnread };
    assert!(some.check().is_ok());
}

#[test]
fn an_inbox_update_names_at_most_two_hundred() {
    let ids: Vec<u128> = (0..200).collect();
    assert!(UpdateNotificationsRequest { notification_ids: ids, all: false, action: NotificationAction::MarkRead }.check().is_ok());
    let ids: Vec<u128> = (0..201).collect();
    let error = UpdateNotificationsRequest { notification_ids: ids, all: true, action: NotificationAction::MarkRead }
        .check()
        .expect_err("too many");
    assert_eq!(error.field_errors.len(), 1);
    assert_eq!(error.field_errors[0].field, "notification_ids");
}

#[test]
fn generations_and_types_keep_job_keys_apart() {
    assert_ne!(JobKey::build_audience(1, 2, 1).to_string(), JobKey::issue_campaign(1, 2, 1).to_string());
    assert_ne!(JobKey::notify_event(1, 2, NotificationChannel::FcmWebPush, 1).to_string(), JobKey::notify_event(1, 2, NotificationChannel::FcmWebPush, 11).to_string());
}

#[test]
fn a_push_registration_needs_a_plausible_token() {
    let ok = RegisterPushSubscriptionRequest { token: "x".repeat(8), browser_family: Some("chrome".to_string()), device_label: None };
    assert!(ok.check().is_ok());
    let error = RegisterPushSubscriptionRequest { token: "short".to_string(), browser_family: Some("b".repeat(65)), device_label: None }
        .check()
        .expect_err("rejected");
    assert_eq!(error.field_errors.len(), 2);
    assert_eq!(error.field_errors[0].field, "token");
    assert_eq!(error.field_errors[0].message, "푸시 토큰이 올바르지 않습니다.");
    assert_eq!(error.field_errors[1].field, "browser_family");
    assert!(RegisterPushSubscriptionRequest { device_label: Some("d".repeat(101)), ..ok }.check().is_err());
}

#[test]
fn an_undecided_preference_is_a_no_except_for_transactional_in_app_messages() {
    let service = coupon_api_server::notifications::NotificationPreferenceService::new();
    assert!(service.is_enabled(None, "TRANSACTIONAL", NotificationChannel::InApp));
    assert!(!service.is_enabled(None, "MARKETING", NotificationChannel::InApp));
    assert!(!service.is_enabled(None, "TRANSACTIONAL", NotificationChannel::FcmWebPush));
    assert!(service.is_enabled(Some(true), "MARKETING", NotificationChannel::FcmWebPush));
    assert!(!service.is_enabled(Some(false), "TRANSACTIONAL", NotificationChannel::InApp));
}
