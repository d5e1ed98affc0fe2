use coupon_api_server::notifications::policy::{
    earliest_send_time, evaluate, quiet_hours_send_time, ConsentSnapshot, Eligibility, NotificationPurpose,
    SuppressionReason,
};
use coupon_api_server::notifications::NotificationChannel;

const SEOUL: &str = "Asia/Seoul";

fn all_granted() -> ConsentSnapshot {
    ConsentSnapshot {
        web_push_transactional: true,
        marketing_all_channels: true,
        marketing_this_store: true,
        alimtalk_informational: true,
        has_active_push_subscription: true,
        recipient_active: true,
    }
}

fn at(rfc3339: &str) -> i64 {
    chrono::DateTime::parse_from_rfc3339(rfc3339).expect("valid timestamp").timestamp_micros()
}

#[test]
fn the_in_app_channel_is_never_suppressed() {
    for purpose in [
        NotificationPurpose::Transactional,
        NotificationPurpose::Informational,
        NotificationPurpose::Marketing,
        NotificationPurpose::Security,
    ] {
        assert_eq!(evaluate(NotificationChannel::InApp, purpose, &ConsentSnapshot::default()), Eligibility::Allowed);
    }
}

#[test]
fn marketing_push_needs_both_the_account_and_the_store_consent() {
    let mut consent = all_granted();
    assert!(evaluate(NotificationChannel::FcmWebPush, NotificationPurpose::Marketing, &consent).is_allowed());
    consent.marketing_this_store = false;
    assert_eq!(
        evaluate(NotificationChannel::FcmWebPush, NotificationPurpose::Marketing, &consent),
        Eligibility::Suppressed(SuppressionReason::StoreConsentMissing)
    );
    let mut consent = all_granted();
    consent.marketing_all_channels = false;
    assert_eq!(
        evaluate(NotificationChannel::FcmWebPush, NotificationPurpose::Marketing, &consent),
        Eligibility::Suppressed(SuppressionReason::ConsentMissing)
    );
}

#[test]
fn a_transactional_push_needs_its_own_consent_and_a_live_subscription() {
    let mut consent = all_granted();
    consent.web_push_transactional = false;
    assert_eq!(
        evaluate(NotificationChannel::FcmWebPush, NotificationPurpose::Transactional, &consent),
        Eligibility::Suppressed(SuppressionReason::ConsentMissing)
    );
    let mut consent = all_granted();
    consent.has_active_push_subscription = false;
    assert_eq!(
        evaluate(NotificationChannel::FcmWebPush, NotificationPurpose::Transactional, &consent),
        Eligibility::Suppressed(SuppressionReason::NoActiveSubscription)
    );
}

#[test]
fn a_security_alert_rides_the_browser_permission_alone() {
    let mut consent = ConsentSnapshot { recipient_active: true, has_active_push_subscription: true, ..ConsentSnapshot::default() };
    assert!(evaluate(NotificationChannel::FcmWebPush, NotificationPurpose::Security, &consent).is_allowed());
    consent.has_active_push_subscription = false;
    assert_eq!(
        evaluate(NotificationChannel::FcmWebPush, NotificationPurpose::Security, &consent),
        Eligibility::Suppressed(SuppressionReason::NoActiveSubscription)
    );
}

#[test]
fn marketing_never_travels_on_alimtalk() {
    assert_eq!(
        evaluate(NotificationChannel::KakaoAlimtalk, NotificationPurpose::Marketing, &all_granted()),
        Eligibility::Suppressed(SuppressionReason::ChannelNotPermittedForPurpose)
    );
    assert!(evaluate(NotificationChannel::KakaoAlimtalk, NotificationPurpose::Informational, &all_granted()).is_allowed());
}

#[test]
fn an_inactive_recipient_gets_no_external_message() {
    let consent = ConsentSnapshot { recipient_active: false, ..all_granted() };
    assert_eq!(
        evaluate(NotificationChannel::FcmWebPush, NotificationPurpose::Security, &consent),
        Eligibility::Suppressed(SuppressionReason::RecipientInactive)
    );
}

#[test]
fn only_marketing_waits_for_the_morning() {
    let late = at("2026-08-11T13:00:00Z");
    assert_eq!(earliest_send_time(late, SEOUL, NotificationPurpose::Transactional), late);
    assert_eq!(earliest_send_time(late, SEOUL, NotificationPurpose::Security), late);
    let deferred = earliest_send_time(late, SEOUL, NotificationPurpose::Marketing);
    assert!(deferred > late);
    assert_eq!(deferred, at("2026-08-11T23:00:00Z"));
}

#[test]
fn an_early_morning_marketing_message_waits_for_the_same_day() {
    let dawn = at("2026-08-11T20:00:00Z");
    assert_eq!(earliest_send_time(dawn, SEOUL, NotificationPurpose::Marketing), at("2026-08-11T23:00:00Z"));
}

#[test]
fn a_marketing_message_inside_the_window_is_not_delayed() {
    let midday = at("2026-08-11T04:00:00Z");
    assert_eq!(earliest_send_time(midday, SEOUL, NotificationPurpose::Marketing), midday);
}

#[test]
fn the_window_boundaries_are_half_open() {
    let eight = at("2026-08-10T23:00:00Z");
    assert_eq!(earliest_send_time(eight, SEOUL, NotificationPurpose::Marketing), eight);
    let nine_pm = at("2026-08-11T12:00:00Z");
    assert!(earliest_send_time(nine_pm, SEOUL, NotificationPurpose::Marketing) > nine_pm);
}

#[test]
fn purposes_round_trip_through_their_database_spelling() {
    for purpose in [
        NotificationPurpose::Transactional,
        NotificationPurpose::Informational,
        NotificationPurpose::Marketing,
        NotificationPurpose::Security,
    ] {
        assert_eq!(NotificationPurpose::from_db(purpose.as_db()), Some(purpose));
    }
}

#[test]
fn suppression_reasons_round_trip_through_their_database_spelling() {
    for reason in [
        SuppressionReason::ConsentMissing,
        SuppressionReason::StoreConsentMissing,
        SuppressionReason::NoActiveSubscription,
        SuppressionReason::ChannelNotPermittedForPurpose,
        SuppressionReason::TemplateUnavailable,
        SuppressionReason::ExpiredBeforeDelivery,
        SuppressionReason::RecipientInactive,
        SuppressionReason::RecipientUnreachable,
    ] {
        assert_eq!(SuppressionReason::from_db(reason.as_db()), Some(reason));
    }
}

#[test]
fn an_unknown_zone_falls_back_to_seoul() {
    let late = at("2026-08-11T13:00:00Z");
    assert_eq!(earliest_send_time(late, "Not/AZone", NotificationPurpose::Marketing), at("2026-08-11T23:00:00Z"));
}

#[test]
fn the_quiet_hours_follow_the_zone_they_are_asked_in() {
    // 13:00Z is 09:00 in New York in August, inside the window there.
    let late_in_seoul = at("2026-08-11T13:00:00Z");
    assert_eq!(earliest_send_time(late_in_seoul, "America/New_York", NotificationPurpose::Marketing), late_in_seoul);
    // 02:00Z is 22:00 the previous evening in New York; 08:00 there is 12:00Z.
    let late_in_new_york = at("2026-08-12T02:00:00Z");
    assert_eq!(
        earliest_send_time(late_in_new_york, "America/New_York", NotificationPurpose::Marketing),
        at("2026-08-12T12:00:00Z")
    );
}

#[test]
fn the_quiet_hours_rule_over_a_read_clock() {
    assert_eq!(quiet_hours_send_time(100, NotificationPurpose::Marketing, 22, Some(500)), 500);
    assert_eq!(quiet_hours_send_time(100, NotificationPurpose::Marketing, 7, Some(500)), 500);
    assert_eq!(quiet_hours_send_time(100, NotificationPurpose::Marketing, 8, Some(500)), 100);
    assert_eq!(quiet_hours_send_time(100, NotificationPurpose::Marketing, 20, Some(500)), 100);
    assert_eq!(quiet_hours_send_time(100, NotificationPurpose::Marketing, 21, None), 100);
    assert_eq!(quiet_hours_send_time(100, NotificationPurpose::Informational, 23, Some(500)), 100);
}
