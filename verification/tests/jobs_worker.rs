use coupon_api_server::notifications::delivery::DispatchOutcome;
use coupon_api_server::notifications::DeliveryStatus;
use coupon_api_server::time::Duration;
use coupon_api_server::campaigns::{Campaign, CampaignStatus, IssueMode};
use coupon_api_server::error::{ApiError, ErrorCode};
use coupon_api_server::jobs::worker::{
    campaign_stop_reason, has_room, per_user_exhausted, revocation_stop_reason, revoked_counters, stop_after_batch,
    before_batch, event_template_variables, event_variables, fill_variable, notify_progress, BatchStart, PayloadField, Checkpoint, IssueTally, MemberMark, PayloadValue, RevokeTally,
};
use coupon_api_server::notifications::NotificationEvent;
use coupon_api_server::jobs::JobControl;

fn campaign() -> Campaign {
    Campaign { status: CampaignStatus::Issuing, issue_mode: IssueMode::Direct }
}

#[test]
fn a_cancelled_campaign_stops_the_issuing_job_for_good() {
    let mut campaign = campaign();
    campaign.issue_mode = IssueMode::Direct;
    campaign.status = CampaignStatus::Cancelled;
    assert_eq!(campaign_stop_reason(&campaign), Some("CAMPAIGN_CANCELLED"));
    campaign.status = CampaignStatus::Ended;
    assert_eq!(campaign_stop_reason(&campaign), Some("CAMPAIGN_ENDED"));
    campaign.status = CampaignStatus::Draft;
    assert_eq!(campaign_stop_reason(&campaign), Some("CAMPAIGN_NOT_PUBLISHED"));
}

#[test]
fn a_paused_campaign_does_not_stop_the_job_for_good() {
    let mut campaign = campaign();
    campaign.issue_mode = IssueMode::Direct;
    campaign.status = CampaignStatus::Paused;
    assert_eq!(campaign_stop_reason(&campaign), None);
}

#[test]
fn a_first_come_campaign_has_no_issuing_job_to_run() {
    let mut campaign = campaign();
    campaign.issue_mode = IssueMode::FirstCome;
    campaign.status = CampaignStatus::Issuing;
    assert_eq!(campaign_stop_reason(&campaign), Some("CAMPAIGN_NOT_DIRECT"));
}

#[test]
fn a_live_direct_campaign_keeps_issuing() {
    for status in [CampaignStatus::Scheduled, CampaignStatus::Issuing] {
        assert_eq!(campaign_stop_reason(&Campaign { status, issue_mode: IssueMode::Direct }), None);
    }
    let cancelled_first_come = Campaign { status: CampaignStatus::Cancelled, issue_mode: IssueMode::FirstCome };
    assert_eq!(campaign_stop_reason(&cancelled_first_come), Some("CAMPAIGN_CANCELLED"));
}

#[test]
fn a_committed_batch_moves_the_checkpoint_past_its_last_row() {
    let mut checkpoint = Checkpoint::default();
    assert_eq!(checkpoint.after_id, None);
    assert_eq!(checkpoint.batches, 0);
    checkpoint.advance(Some(9));
    checkpoint.advance(Some(12));
    assert_eq!(checkpoint.after_id, Some(12));
    assert_eq!(checkpoint.batches, 2);
}

#[test]
fn only_a_pause_or_a_cancel_stops_between_batches() {
    assert_eq!(stop_after_batch(JobControl::Continue), None);
    assert_eq!(stop_after_batch(JobControl::Pause), Some(JobControl::Pause));
    assert_eq!(stop_after_batch(JobControl::Cancel), Some(JobControl::Cancel));
}

#[test]
fn the_quota_is_rechecked_for_every_member() {
    assert!(has_room(98, 1, 100, 0, None));
    assert!(!has_room(98, 2, 100, 0, None), "the total cap counts this batch too");
    assert!(!has_room(0, 3, 100, 7, Some(10)), "the business day's quantity is spent");
    assert!(has_room(0, 2, 100, 7, Some(10)));
    assert!(!has_room(i64::MAX, i64::MAX, i64::MAX, 0, None));
}

#[test]
fn a_member_with_the_full_allowance_is_skipped() {
    assert!(per_user_exhausted(1, 1));
    assert!(!per_user_exhausted(0, 1));
    let mut tally = IssueTally::new();
    let mark = tally.skip();
    assert_eq!(mark, MemberMark { status: "SKIPPED", coupon_id: None, reason: Some("PER_USER_LIMIT") });
    assert_eq!((tally.issued, tally.progress.processed, tally.progress.succeeded, tally.progress.failed), (0, 1, 0, 0));
}

#[test]
fn one_members_failure_does_not_sink_the_batch() {
    let mut tally = IssueTally::new();
    assert_eq!(tally.record(&Ok(41)), MemberMark { status: "ISSUED", coupon_id: Some(41), reason: None });
    assert_eq!(
        tally.record(&Err(ApiError::new(ErrorCode::Conflict))),
        MemberMark { status: "ISSUED", coupon_id: None, reason: Some("ALREADY_ISSUED") }
    );
    assert_eq!(
        tally.record(&Err(ApiError::new(ErrorCode::CouponNotFound))),
        MemberMark { status: "FAILED", coupon_id: None, reason: Some("COUPON_NOT_FOUND") }
    );
    assert_eq!(tally.issued, 1);
    assert_eq!((tally.progress.processed, tally.progress.succeeded, tally.progress.failed), (3, 2, 1));
}

#[test]
fn a_revocation_stops_once_the_campaign_withdraws_it() {
    assert_eq!(revocation_stop_reason(true), None);
    assert_eq!(revocation_stop_reason(false), Some("REVOCATION_WITHDRAWN"));
}

#[test]
fn a_revocation_batch_counts_what_it_took_back() {
    let mut tally = RevokeTally::new();
    tally.record(true);
    tally.record(false);
    tally.record(true);
    assert_eq!(tally.revoked, 2);
    assert_eq!((tally.progress.processed, tally.progress.succeeded, tally.progress.failed), (3, 2, 1));
}

#[test]
fn revoked_coupons_free_their_slots_only_when_the_campaign_says_so() {
    assert_eq!(revoked_counters(10, 1, 3, true), (7, 4));
    assert_eq!(revoked_counters(2, 0, 3, true), (0, 3), "never below zero");
    assert_eq!(revoked_counters(10, 1, 3, false), (10, 4));
}

fn layout(kind: NotificationEvent) -> Vec<(&'static str, &'static str, PayloadValue)> {
    event_variables(kind).into_iter().map(|r| (r.name, r.field, r.value)).collect()
}

#[test]
fn a_used_coupon_reads_its_confirmation_time_and_names_the_transaction() {
    assert_eq!(
        layout(NotificationEvent::CouponUsed),
        vec![
            ("store_name", "store_name", PayloadValue::TextIfPresent),
            ("used_at", "confirmed_at", PayloadValue::Text),
            ("discount_amount", "discount_amount", PayloadValue::Number),
            ("transaction_id", "", PayloadValue::AggregateId),
        ]
    );
}

#[test]
fn every_event_offers_the_store_name_first() {
    for kind in [
        NotificationEvent::StampEarned,
        NotificationEvent::RewardIssued,
        NotificationEvent::CouponIssued,
        NotificationEvent::CouponExpiring,
        NotificationEvent::CouponUsed,
        NotificationEvent::TransactionVoided,
        NotificationEvent::StoreSuspended,
        NotificationEvent::StoreClosed,
        NotificationEvent::SecurityAlert,
    ] {
        assert_eq!(layout(kind)[0], ("store_name", "store_name", PayloadValue::TextIfPresent));
    }
    assert_eq!(layout(NotificationEvent::StoreClosed).len(), 2);
    assert_eq!(layout(NotificationEvent::SecurityAlert)[1], ("occurred_at", "", PayloadValue::RelayedAt));
}

#[test]
fn a_dispatch_counts_as_done_unless_it_failed_for_good() {
    let (p, again) = notify_progress(&DispatchOutcome::Sent { status: DeliveryStatus::Sending });
    assert_eq!((p.processed, p.succeeded, p.failed, again), (1, 1, 0, None));
    let after = Duration::from_secs(45);
    let (p, again) = notify_progress(&DispatchOutcome::Retrying { after, code: "X".to_string() });
    assert_eq!((p.processed, p.succeeded, p.failed, again), (1, 1, 0, Some(after)));
    let (p, again) = notify_progress(&DispatchOutcome::Failed { code: "X".to_string() });
    assert_eq!((p.processed, p.succeeded, p.failed, again), (1, 0, 1, None));
}

#[test]
fn a_pause_binds_to_the_very_next_batch() {
    let mut c = campaign();
    assert_eq!(before_batch(&c), BatchStart::Proceed);
    c.status = CampaignStatus::Paused;
    assert_eq!(before_batch(&c), BatchStart::Pause);
    c.status = CampaignStatus::Cancelled;
    assert_eq!(before_batch(&c), BatchStart::Stop("CAMPAIGN_CANCELLED"));
    c = Campaign { status: CampaignStatus::Paused, issue_mode: IssueMode::FirstCome };
    assert_eq!(before_batch(&c), BatchStart::Stop("CAMPAIGN_NOT_DIRECT"));
}

#[test]
fn variables_read_their_payload_fields_as_the_rules_say() {
    let other = |json: &str, integer: Option<i64>| PayloadField::Other { json: json.to_string(), integer };
    assert_eq!(fill_variable(PayloadValue::TextIfPresent, &PayloadField::Absent, 1, "t"), None);
    assert_eq!(fill_variable(PayloadValue::TextIfPresent, &PayloadField::Text("카페".to_string()), 1, "t").as_deref(), Some("카페"));
    assert_eq!(fill_variable(PayloadValue::Text, &PayloadField::Null, 1, "t").as_deref(), Some(""));
    assert_eq!(fill_variable(PayloadValue::Text, &other("true", None), 1, "t").as_deref(), Some("true"));
    assert_eq!(fill_variable(PayloadValue::Number, &other("2", Some(2)), 1, "t").as_deref(), Some("2"));
    assert_eq!(fill_variable(PayloadValue::Number, &other("2.5", None), 1, "t").as_deref(), Some(""));
    assert_eq!(fill_variable(PayloadValue::Number, &PayloadField::Text("2".to_string()), 1, "t").as_deref(), Some(""));
    assert_eq!(
        fill_variable(PayloadValue::AggregateId, &PayloadField::Absent, 7, "t").as_deref(),
        Some("00000000-0000-0000-0000-000000000007")
    );
    assert_eq!(fill_variable(PayloadValue::RelayedAt, &PayloadField::Absent, 7, "2026-08-11T00:00:00+00:00").as_deref(), Some("2026-08-11T00:00:00+00:00"));

    let fields = vec![PayloadField::Absent, PayloadField::Text("2026-08-11".to_string()), other("1500", Some(1500)), PayloadField::Absent];
    let vars = event_template_variables(NotificationEvent::CouponUsed, &fields, 9, "t");
    assert_eq!(vars.len(), 3);
    assert_eq!(vars.get("store_name"), None);
    assert_eq!(vars.get("used_at").as_deref(), Some("2026-08-11"));
    assert_eq!(vars.get("discount_amount").as_deref(), Some("1500"));
    assert_eq!(vars.get("transaction_id").as_deref(), Some("00000000-0000-0000-0000-000000000009"));
}
