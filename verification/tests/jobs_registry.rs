use coupon_api_server::error::{ApiError, ErrorCode};
use coupon_api_server::jobs::retry::{RetryClass, RetryDecision};
use coupon_api_server::jobs::{
    advisory_lock_key_for, claimable, failure_outcome, pause_transition, reprocess_key, resume_transition, reusable,
    JobFailure, JobKey, JobProgress, JobSpec, JobStatus, JobType, RetryBudget,
};
use coupon_api_server::time::Duration;
use sha2::{Digest, Sha256};

const STORE: &str = "00000000-0000-0000-0000-000000000001";
const CAMPAIGN: &str = "00000000-0000-0000-0000-000000000002";
const CASE: &str = "00000000-0000-0000-0000-000000000003";

fn micros(rfc3339: &str) -> i64 {
    rfc3339.parse::<chrono::DateTime<chrono::Utc>>().expect("timestamp").timestamp_micros()
}

#[test]
fn a_job_key_renders_the_documented_shape() {
    assert_eq!(JobKey::issue_campaign(1, 2, 3).to_string(), format!("issue_campaign:{STORE}:{CAMPAIGN}:3"));
    assert_eq!(
        JobKey::expire_coupons(micros("2026-08-10T06:30:00Z")).to_string(),
        "expire_coupons:global:2026-08-10T06:00Z:v1",
        "the shard is the hour, so everything inside one hour is one job"
    );
    assert_eq!(JobKey::revoke_campaign(1, 2, CASE).to_string(), format!("revoke_campaign:{STORE}:{CAMPAIGN}:{CASE}"));
}

#[test]
fn the_operation_version_makes_a_new_run_a_new_job() {
    assert_ne!(JobKey::issue_campaign(1, 2, 1).to_string(), JobKey::issue_campaign(1, 2, 2).to_string());
}

#[test]
fn the_advisory_lock_key_is_stable_and_key_specific() {
    let key = JobKey::issue_campaign(1, 2, 1);
    assert_eq!(key.advisory_lock_key(), key.advisory_lock_key());
    assert_eq!(
        key.advisory_lock_key(),
        advisory_lock_key_for(&key.to_string()),
        "deriving from the stored string must land on the same lock"
    );
    assert_ne!(key.advisory_lock_key(), JobKey::issue_campaign(1, 2, 2).advisory_lock_key());
    assert_ne!(key.advisory_lock_key(), JobKey::build_audience(1, 2, 1).advisory_lock_key());
}

#[test]
fn the_advisory_lock_key_is_the_first_eight_digest_bytes() {
    let text = "issue_campaign:a:b:1";
    let digest = Sha256::digest(text.as_bytes());
    let mut prefix = [0u8; 8];
    prefix.copy_from_slice(&digest[..8]);
    assert_eq!(advisory_lock_key_for(text), i64::from_be_bytes(prefix));
}

#[test]
fn every_job_type_round_trips_through_its_stored_spelling() {
    for job_type in [
        JobType::BuildCampaignAudience,
        JobType::IssueCampaign,
        JobType::RevokeCampaign,
        JobType::ExpireCoupons,
        JobType::ExecuteAdjustment,
        JobType::NotifyEvent,
        JobType::AggregateDailyStats,
        JobType::PurgeUserData,
    ] {
        assert_eq!(JobType::from_db(job_type.as_db()), Some(job_type));
    }
    assert_eq!(JobType::from_db("something_new"), None);
}

#[test]
fn job_type_policy_matches_the_documented_table() {
    assert_eq!(JobType::BuildCampaignAudience.batch_size(), 1_000);
    assert_eq!(JobType::BuildCampaignAudience.retry_budget(), RetryBudget::Limited(5));
    assert_eq!(JobType::IssueCampaign.batch_size(), 500);
    assert_eq!(JobType::IssueCampaign.retry_budget(), RetryBudget::Limited(10));
    assert_eq!(JobType::RevokeCampaign.batch_size(), 500);
    assert_eq!(JobType::RevokeCampaign.retry_budget(), RetryBudget::Limited(10));
    assert_eq!(JobType::ExpireCoupons.batch_size(), 1_000);
}

#[test]
fn expiry_never_gives_up_but_does_ask_for_attention() {
    let budget = JobType::ExpireCoupons.retry_budget();
    assert!(!budget.exhausted(1_000));
    assert_eq!(budget.recorded_max_attempts(), 20, "alerting threshold");
    assert!(RetryBudget::Limited(5).exhausted(5));
    assert!(!RetryBudget::Limited(5).exhausted(4));
}

#[test]
fn statuses_round_trip_and_unknown_values_fail_closed() {
    for status in [
        JobStatus::PendingOutbox,
        JobStatus::Queued,
        JobStatus::Running,
        JobStatus::RetryWait,
        JobStatus::PauseRequested,
        JobStatus::Paused,
        JobStatus::Succeeded,
        JobStatus::DeadLetter,
        JobStatus::Cancelled,
    ] {
        assert_eq!(JobStatus::from_db(status.as_db()), status);
    }
    assert_eq!(
        JobStatus::from_db("SOMETHING_NEW"),
        JobStatus::DeadLetter,
        "a status this build cannot reason about must not look runnable"
    );
}

#[test]
fn the_active_statuses_are_exactly_the_ones_the_unique_index_covers() {
    let active: Vec<&str> = JobStatus::ACTIVE.iter().map(|s| s.as_db()).collect();
    assert_eq!(active, vec!["PENDING_OUTBOX", "QUEUED", "RUNNING", "RETRY_WAIT", "PAUSE_REQUESTED", "PAUSED"]);
    for status in JobStatus::ACTIVE {
        assert!(status.is_active());
        assert!(!status.is_terminal());
    }
    for status in [JobStatus::Succeeded, JobStatus::DeadLetter, JobStatus::Cancelled] {
        assert!(!status.is_active());
        assert!(status.is_terminal());
    }
}

#[test]
fn progress_accumulates_across_batches() {
    let mut total = JobProgress::default();
    total.add(JobProgress { processed: 500, succeeded: 498, failed: 2 });
    total.add(JobProgress { processed: 300, succeeded: 300, failed: 0 });
    assert_eq!(total.processed, 800);
    assert_eq!(total.succeeded, 798);
    assert_eq!(total.failed, 2);
}

#[test]
fn only_a_due_queued_or_waiting_job_is_claimable() {
    assert!(claimable(JobStatus::Queued, None, 100, 100));
    assert!(!claimable(JobStatus::Queued, None, 101, 100));
    assert!(claimable(JobStatus::RetryWait, Some(50), 1_000, 100));
    assert!(!claimable(JobStatus::RetryWait, Some(150), 0, 100));
    assert!(!claimable(JobStatus::Running, None, 0, 100));
    assert!(!claimable(JobStatus::Paused, None, 0, 100));
}

#[test]
fn a_failure_either_schedules_a_retry_or_dead_letters() {
    let retry = RetryDecision::Retry { after: Duration::from_secs(10) };
    assert_eq!(failure_outcome(retry, 1_000), (JobStatus::RetryWait, Some(10_001_000)));
    assert_eq!(failure_outcome(RetryDecision::DeadLetter, 1_000), (JobStatus::DeadLetter, None));
}

#[test]
fn pausing_and_resuming_follow_the_state_machine() {
    assert_eq!(pause_transition(JobStatus::Running).expect("pausable"), JobStatus::PauseRequested);
    for status in [JobStatus::PendingOutbox, JobStatus::Queued, JobStatus::RetryWait] {
        assert_eq!(pause_transition(status).expect("pausable"), JobStatus::Paused);
    }
    for status in [JobStatus::Paused, JobStatus::Succeeded, JobStatus::DeadLetter] {
        assert_eq!(pause_transition(status).expect_err("not pausable").code, ErrorCode::InvalidStateTransition);
    }
    for status in [JobStatus::Paused, JobStatus::PauseRequested] {
        assert_eq!(resume_transition(status).expect("resumable"), JobStatus::PendingOutbox);
    }
    assert_eq!(resume_transition(JobStatus::Running).expect_err("running").code, ErrorCode::InvalidStateTransition);
}

#[test]
fn a_dead_letter_is_reprocessed_under_its_own_key() {
    let key = reprocess_key("operator retry", JobStatus::DeadLetter, "issue_campaign", "issue_campaign:s:c:3")
        .expect("reprocessable");
    assert_eq!(key.job_type, JobType::IssueCampaign);
    assert_eq!(key.tenant, "s");
    assert_eq!(key.resource, "c");
    assert_eq!(key.operation_version, "3");
    assert_eq!(key.to_string(), "issue_campaign:s:c:3");
}

#[test]
fn reprocessing_needs_a_reason_a_failed_job_and_a_readable_key() {
    let blank = reprocess_key("  ", JobStatus::DeadLetter, "issue_campaign", "issue_campaign:s:c:3");
    assert_eq!(blank.expect_err("no reason").code, ErrorCode::ValidationFailed);
    let running = reprocess_key("why", JobStatus::Running, "issue_campaign", "issue_campaign:s:c:3");
    assert_eq!(running.expect_err("not failed").code, ErrorCode::InvalidStateTransition);
    let unknown = reprocess_key("why", JobStatus::Cancelled, "mystery", "issue_campaign:s:c:3");
    assert_eq!(unknown.expect_err("unknown type").code, ErrorCode::UnprocessableRequest);
    let short = reprocess_key("why", JobStatus::Cancelled, "issue_campaign", "issue_campaign:s");
    assert_eq!(short.expect_err("malformed key").code, ErrorCode::UnprocessableRequest);
}

#[test]
fn a_failure_from_an_api_error_keeps_its_code_and_class() {
    let failure = JobFailure::from_api(&ApiError::new(ErrorCode::CampaignNotFound).internal("gone"));
    assert_eq!(failure.code, "CAMPAIGN_NOT_FOUND");
    assert_eq!(failure.message, "gone");
    assert_eq!(failure.class, RetryClass::Permanent);
    let failure = JobFailure::transient("DB", "busy");
    assert_eq!(failure.class, RetryClass::Transient);
}

#[test]
fn every_other_key_constructor_follows_the_same_shape() {
    assert_eq!(JobKey::build_audience(1, 2, 4).to_string(), format!("build_campaign_audience:{STORE}:{CAMPAIGN}:4"));
    assert_eq!(JobKey::execute_adjustment(3, 2, 1).to_string(), format!("execute_adjustment:{CASE}:{CAMPAIGN}:1"));
    assert_eq!(JobKey::purge_user_data(3, 1, 2).to_string(), format!("purge_user_data:{CASE}:{STORE}:2"));
}

#[test]
fn a_job_spec_carries_what_it_was_built_with() {
    let spec = JobSpec::new(JobKey::issue_campaign(1, 2, 3), "{}".to_owned()).store(1).resource(2).requested_by(9).at(500);
    assert_eq!(spec.key.to_string(), format!("issue_campaign:{STORE}:{CAMPAIGN}:3"));
    assert_eq!(spec.payload, "{}");
    assert_eq!((spec.store_id, spec.resource_id, spec.requested_by_user_id, spec.scheduled_at), (Some(1), Some(2), Some(9), Some(500)));
    let bare = JobSpec::new(JobKey::expire_coupons(0), String::new());
    assert_eq!((bare.store_id, bare.resource_id, bare.requested_by_user_id, bare.scheduled_at), (None, None, None, None));
}

#[test]
fn an_active_job_or_the_same_finished_generation_answers_a_repeat() {
    for status in JobStatus::ACTIVE {
        assert!(reusable(status, 1, 2));
    }
    assert!(reusable(JobStatus::Succeeded, 2, 2));
    assert!(!reusable(JobStatus::Succeeded, 1, 2), "a new generation runs again");
    assert!(!reusable(JobStatus::DeadLetter, 2, 2));
    assert!(!reusable(JobStatus::Cancelled, 2, 2));
}

#[test]
fn an_adjustment_is_presumed_dead_sooner_than_other_jobs() {
    assert_eq!(JobType::ExecuteAdjustment.visibility_timeout_secs(), 120);
    assert_eq!(JobType::IssueCampaign.visibility_timeout_secs(), 300);
}

#[test]
fn a_reprocessed_job_recovers_the_key_it_was_stored_under() {
    for key in [
        JobKey::issue_campaign(1, 2, 3),
        JobKey::build_audience(4, 5, 1),
        JobKey::revoke_campaign(6, 7, "expire:2026-08-11"),
        JobKey::expire_coupons(11),
    ] {
        let stored = key.to_string();
        let again = reprocess_key("재시도", JobStatus::DeadLetter, key.job_type.as_db(), &stored).expect("reprocessable");
        assert_eq!(again.to_string(), stored);
        if key.job_type != JobType::ExpireCoupons {
            assert_eq!(again, key);
        }
    }
}

#[test]
fn the_shard_hour_is_written_as_chrono_writes_it_in_every_era() {
    for micros in [
        0i64,
        micros("2026-08-10T06:30:00Z"),
        micros("0001-01-01T00:00:00Z"),
        -62_200_000_000_000_000,
        400_000_000_000_000_000,
        -8_000_000_000_000_000_000,
        8_000_000_000_000_000_000,
    ] {
        let at = chrono::DateTime::from_timestamp_micros(micros).expect("in range");
        let expected = format!("expire_coupons:global:{}:v1", at.format("%Y-%m-%dT%H:00Z"));
        assert_eq!(JobKey::expire_coupons(micros).to_string(), expected, "{micros}");
    }
}
