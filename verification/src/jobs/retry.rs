//! Retry classification and backoff.
//!
//! Retry what the world might fix, give up on what it will not. A serialization failure,
//! a lock timeout or a dropped connection gives the next attempt a real chance; a
//! malformed audience, a cancelled campaign or a coupon that does not exist fails the
//! same way every time. A provider that throttles with its own delay overrides the
//! library's schedule, within the same ceiling.

use vstd::prelude::*;

use crate::error::{ApiError, ErrorCode};
use crate::jobs::RetryBudget;
use crate::time::Duration;

verus! {

/// The first retry waits five seconds; each further one doubles.
pub const BASE_DELAY_SECS: u64 = 5;
/// No retry waits longer than thirty minutes.
pub const MAX_DELAY_SECS: u64 = 1_800;

/// The first retry's delay.
pub fn base_delay() -> (d: Duration)
    ensures
        d.micros == 5_000_000,
{
    Duration::from_secs(BASE_DELAY_SECS)
}

/// The longest any retry waits.
pub fn max_delay() -> (d: Duration)
    ensures
        d.micros == 1_800_000_000,
{
    Duration::from_secs(MAX_DELAY_SECS)
}

/// `2` to the power `k`.
pub open spec fn doubled(k: nat) -> int
    decreases k,
{
    if k == 0 {
        1
    } else {
        2 * doubled((k - 1) as nat)
    }
}
/// The jitter spreads a delay over plus or minus this percentage.
pub const JITTER_PERCENT: i64 = 20;
/// Jitter is expressed in thousandths of the full spread, from `-JITTER_SCALE` to
/// `JITTER_SCALE`.
pub const JITTER_SCALE: i64 = 1_000;

/// Why an attempt failed, in the only terms the scheduler cares about.
#[derive(Debug, Clone, Copy, PartialEq, Eq, Structural)]
pub enum RetryClass {
    /// Retrying cannot help: validation, authorization, not-found.
    Permanent,
    /// The next attempt may well succeed.
    Transient,
    /// A provider said when to come back. Its answer wins over ours.
    ProviderThrottled { retry_after_secs: u64 },
}

/// What the scheduler decided to do about a failure.
#[derive(Debug, Clone, Copy, PartialEq, Eq, Structural)]
pub enum RetryDecision {
    Retry { after: Duration },
    DeadLetter,
}

/// The whole-second delay of attempt `attempt_no` before jitter: five seconds doubled
/// once per attempt after the first (the first counts from attempts below one, the
/// doubling stops after twenty), and never above thirty minutes.
pub open spec fn scheduled_secs(attempt_no: int) -> int {
    let n = if attempt_no < 1 { 1 } else { attempt_no };
    let e = if n - 1 > 20 { 20 } else { n - 1 };
    let s = 5 * doubled(e as nat);
    if s > 1800 { 1800 } else { s }
}

/// The delay of attempt `attempt_no` with jitter `j` thousandths of the spread: the
/// scheduled delay scaled by `1 + (j / 1000) * 0.2`, at least a second and at most the
/// ceiling.
pub open spec fn backoff_micros(attempt_no: int, j: int) -> int {
    let jj = if j < -1000 { -1000 } else if j > 1000 { 1000 } else { j };
    let m = scheduled_secs(attempt_no) * 200 * (5000 + jj);
    if m < 1_000_000 { 1_000_000 } else if m > 1_800_000_000 { 1_800_000_000 } else { m }
}

/// What retrying a failure of class `c` at attempt `attempt_no` under `budget` leads to,
/// given the jittered schedule's delay `scheduled`.
pub open spec fn decision_of(c: RetryClass, attempt_no: i32, budget: RetryBudget, scheduled: int) -> Option<int> {
    let exhausted = match budget {
        RetryBudget::Limited(limit) => attempt_no >= limit,
        RetryBudget::UnlimitedDelayed { .. } => false,
    };
    match c {
        RetryClass::Permanent => None,
        RetryClass::ProviderThrottled { retry_after_secs } => if exhausted {
            None
        } else {
            let d = retry_after_secs * 1_000_000;
            Some(if d <= 1_800_000_000 { d } else { 1_800_000_000 })
        },
        RetryClass::Transient => if exhausted {
            None
        } else {
            Some(scheduled)
        },
    }
}

impl RetryClass {
    /// Combine the class, the attempt number and the job type's budget.
    pub fn decide(self, attempt_no: i32, budget: RetryBudget) -> (d: RetryDecision)
        ensures
            self == RetryClass::Transient && !budget.exhausted_spec(attempt_no) ==> exists|j: int|
                -1000 <= j <= 1000 && decision_of(self, attempt_no, budget, backoff_micros(attempt_no as int, j))
                    == (match d { RetryDecision::Retry { after } => Some(after.micros as int), RetryDecision::DeadLetter => None }),
            !(self == RetryClass::Transient && !budget.exhausted_spec(attempt_no)) ==>
                decision_of(self, attempt_no, budget, 0)
                    == (match d { RetryDecision::Retry { after } => Some(after.micros as int), RetryDecision::DeadLetter => None }),
    {
        match self {
            RetryClass::Permanent => RetryDecision::DeadLetter,
            RetryClass::ProviderThrottled { retry_after_secs } => {
                if budget.exhausted(attempt_no) {
                    RetryDecision::DeadLetter
                } else {
                    RetryDecision::Retry { after: Duration::from_secs(retry_after_secs).min(max_delay()) }
                }
            },
            RetryClass::Transient => {
                if budget.exhausted(attempt_no) {
                    RetryDecision::DeadLetter
                } else {
                    RetryDecision::Retry { after: backoff_for_attempt(attempt_no) }
                }
            },
        }
    }
}

/// A number drawn uniformly from `low..=high` by the thread's random number generator
/// (`rand::Rng::gen_range` on an inclusive range, which panics only on an empty one);
/// only the range is promised.
#[verifier::external_body]
fn sample_jitter(low: i64, high: i64) -> (j: i64)
    requires
        low <= high,
    ensures
        low <= j <= high,
{
    rand::Rng::gen_range(&mut rand::thread_rng(), low..=high)
}

/// The schedule with jitter sampled at random.
pub fn backoff_for_attempt(attempt_no: i32) -> (d: Duration)
    ensures
        exists|j: int| -1000 <= j <= 1000 && d.micros == backoff_micros(attempt_no as int, j),
{
    let j = sample_jitter(-JITTER_SCALE, JITTER_SCALE);
    backoff_with_jitter(attempt_no, j)
}

/// The schedule with the jitter supplied, in thousandths of the spread.
pub fn backoff_with_jitter(attempt_no: i32, jitter: i64) -> (d: Duration)
    ensures
        d.micros == backoff_micros(attempt_no as int, jitter as int),
{
    let n: i32 = if attempt_no < 1 { 1 } else { attempt_no };
    let e: i32 = if n - 1 > 20 { 20 } else { n - 1 };
    let mut secs: i128 = 5;
    let mut k: i32 = 0;
    while k < e
        invariant
            0 <= k <= e <= 20,
            secs == (if 5 * doubled(k as nat) > 1800 { 1800 } else { 5 * doubled(k as nat) }),
            doubled(k as nat) >= 1,
        decreases e - k,
    {
        assert(doubled((k + 1) as nat) == 2 * doubled(k as nat));
        secs = if secs * 2 > 1800 { 1800 } else { secs * 2 };
        k += 1;
    }
    let jj: i128 = if jitter < -1000 { -1000 } else if jitter > 1000 { 1000 } else { jitter as i128 };
    assert(0 <= secs <= 1800);
    assert(secs * 200 * (5000 + jj) <= 1800 * 200 * 6000) by (nonlinear_arith)
        requires
            0 <= secs <= 1800,
            -1000 <= jj <= 1000;
    assert(secs * 200 * (5000 + jj) >= 0) by (nonlinear_arith)
        requires
            0 <= secs <= 1800,
            -1000 <= jj <= 1000;
    let m = secs * 200 * (5000 + jj);
    let micros = if m < 1_000_000 { 1_000_000 } else if m > 1_800_000_000 { 1_800_000_000 } else { m };
    Duration { micros }
}

/// The retry class of each of the library's error codes.
pub open spec fn retry_class_of(code: ErrorCode) -> RetryClass {
    match code {
        ErrorCode::InvalidRequest |
        ErrorCode::ValidationFailed |
        ErrorCode::IdempotencyKeyRequired |
        ErrorCode::IdempotencyKeyInvalid |
        ErrorCode::InvalidCursor |
        ErrorCode::InvalidVersion |
        ErrorCode::Unauthenticated |
        ErrorCode::TokenExpired |
        ErrorCode::TokenInvalid |
        ErrorCode::Forbidden |
        ErrorCode::RoleRequired |
        ErrorCode::AccountSuspended |
        ErrorCode::AccountWithdrawn |
        ErrorCode::ConsentRequired |
        ErrorCode::ReauthenticationRequired |
        ErrorCode::OriginNotAllowed |
        ErrorCode::StoreNotActive |
        ErrorCode::NotFound |
        ErrorCode::StoreNotFound |
        ErrorCode::UserNotFound |
        ErrorCode::CatalogItemNotFound |
        ErrorCode::LoyaltyPolicyNotFound |
        ErrorCode::TransactionNotFound |
        ErrorCode::CouponNotFound |
        ErrorCode::CampaignNotFound |
        ErrorCode::ReservationNotFound |
        ErrorCode::UnprocessableRequest |
        ErrorCode::StoreNotReadyForReview |
        ErrorCode::InvalidStateTransition |
        ErrorCode::QrTokenInvalid |
        ErrorCode::QrTokenExpired |
        ErrorCode::NoActivePolicy |
        ErrorCode::PolicyNotEditable |
        ErrorCode::MinimumOrderNotMet |
        ErrorCode::ItemNotEligible |
        ErrorCode::DailyLimitExceeded |
        ErrorCode::VoidWindowExpired |
        ErrorCode::RequiresAdminReview |
        ErrorCode::CampaignNotIssuing |
        ErrorCode::CampaignPaused |
        ErrorCode::CampaignSoldOut |
        ErrorCode::CampaignNotEditable |
        ErrorCode::QuantityBelowIssued |
        ErrorCode::CouponNotAvailable |
        ErrorCode::CouponNotYetUsable |
        ErrorCode::CouponExpired |
        ErrorCode::CouponOutsideUsageWindow |
        ErrorCode::OrderAlreadyDiscounted |
        ErrorCode::AudienceNotEligible |
        ErrorCode::ApprovalSeparationRequired |
        ErrorCode::WebhookSignatureInvalid |
        ErrorCode::NotificationNotFound |
        ErrorCode::CaseNotFound |
        ErrorCode::RetentionPolicyNotFound |
        ErrorCode::CaseReferenceRequired |
        ErrorCode::LegalHoldActive |
        ErrorCode::CohortTooSmall => RetryClass::Permanent,
        ErrorCode::RateLimited => RetryClass::ProviderThrottled { retry_after_secs: 60 },
        ErrorCode::SanctionAlreadyActive |
        ErrorCode::Conflict |
        ErrorCode::VersionConflict |
        ErrorCode::IdempotencyKeyReused |
        ErrorCode::IdempotencyRequestInProgress |
        ErrorCode::StoreAlreadyExists |
        ErrorCode::StoreSlugTaken |
        ErrorCode::ReviewAlreadyPending |
        ErrorCode::QrAlreadyUsed |
        ErrorCode::DuplicateTransactionSuspected |
        ErrorCode::PolicyAlreadyScheduled |
        ErrorCode::PreviewExpired |
        ErrorCode::ReservationExpired |
        ErrorCode::ReservationAlreadyActive |
        ErrorCode::ServiceUnavailable |
        ErrorCode::DependencyUnavailable => RetryClass::Transient,
    }
}

/// Classify one of the library's own errors, by its code rather than its HTTP status:
/// two conflicts can mean opposite things.
pub fn classify_api_error(error: &ApiError) -> (c: RetryClass)
    ensures
        c == retry_class_of(error.code),
{
    match error.code {
        ErrorCode::InvalidRequest |
        ErrorCode::ValidationFailed |
        ErrorCode::IdempotencyKeyRequired |
        ErrorCode::IdempotencyKeyInvalid |
        ErrorCode::InvalidCursor |
        ErrorCode::InvalidVersion |
        ErrorCode::Unauthenticated |
        ErrorCode::TokenExpired |
        ErrorCode::TokenInvalid |
        ErrorCode::Forbidden |
        ErrorCode::RoleRequired |
        ErrorCode::AccountSuspended |
        ErrorCode::AccountWithdrawn |
        ErrorCode::ConsentRequired |
        ErrorCode::ReauthenticationRequired |
        ErrorCode::OriginNotAllowed |
        ErrorCode::StoreNotActive |
        ErrorCode::NotFound |
        ErrorCode::StoreNotFound |
        ErrorCode::UserNotFound |
        ErrorCode::CatalogItemNotFound |
        ErrorCode::LoyaltyPolicyNotFound |
        ErrorCode::TransactionNotFound |
        ErrorCode::CouponNotFound |
        ErrorCode::CampaignNotFound |
        ErrorCode::ReservationNotFound |
        ErrorCode::UnprocessableRequest |
        ErrorCode::StoreNotReadyForReview |
        ErrorCode::InvalidStateTransition |
        ErrorCode::QrTokenInvalid |
        ErrorCode::QrTokenExpired |
        ErrorCode::NoActivePolicy |
        ErrorCode::PolicyNotEditable |
        ErrorCode::MinimumOrderNotMet |
        ErrorCode::ItemNotEligible |
        ErrorCode::DailyLimitExceeded |
        ErrorCode::VoidWindowExpired |
        ErrorCode::RequiresAdminReview |
        ErrorCode::CampaignNotIssuing |
        ErrorCode::CampaignPaused |
        ErrorCode::CampaignSoldOut |
        ErrorCode::CampaignNotEditable |
        ErrorCode::QuantityBelowIssued |
        ErrorCode::CouponNotAvailable |
        ErrorCode::CouponNotYetUsable |
        ErrorCode::CouponExpired |
        ErrorCode::CouponOutsideUsageWindow |
        ErrorCode::OrderAlreadyDiscounted |
        ErrorCode::AudienceNotEligible |
        ErrorCode::ApprovalSeparationRequired |
        ErrorCode::WebhookSignatureInvalid |
        ErrorCode::NotificationNotFound |
        ErrorCode::CaseNotFound |
        ErrorCode::RetentionPolicyNotFound |
        ErrorCode::CaseReferenceRequired |
        ErrorCode::LegalHoldActive |
        ErrorCode::CohortTooSmall => RetryClass::Permanent,
        ErrorCode::RateLimited => RetryClass::ProviderThrottled { retry_after_secs: 60 },
        ErrorCode::SanctionAlreadyActive |
        ErrorCode::Conflict |
        ErrorCode::VersionConflict |
        ErrorCode::IdempotencyKeyReused |
        ErrorCode::IdempotencyRequestInProgress |
        ErrorCode::StoreAlreadyExists |
        ErrorCode::StoreSlugTaken |
        ErrorCode::ReviewAlreadyPending |
        ErrorCode::QrAlreadyUsed |
        ErrorCode::DuplicateTransactionSuspected |
        ErrorCode::PolicyAlreadyScheduled |
        ErrorCode::PreviewExpired |
        ErrorCode::ReservationExpired |
        ErrorCode::ReservationAlreadyActive |
        ErrorCode::ServiceUnavailable |
        ErrorCode::DependencyUnavailable => RetryClass::Transient,
    }
}

/// A database failure, as much of it as the classification reads.
#[derive(Debug, Clone, PartialEq, Eq)]
pub enum DbFailure {
    RowNotFound,
    PoolTimedOut,
    Io,
    Tls,
    /// The server refused the statement, with its SQLSTATE when it sent one.
    Database { code: Option<String> },
    Other,
}

/// SQLSTATEs that describe contention or a connection, which can clear on their own.
pub open spec fn transient_sqlstate(code: Seq<char>) -> bool {
    code == "40001"@ || code == "40P01"@ || code == "55P03"@ || code == "57014"@ || code == "53300"@
        || code == "08006"@ || code == "08000"@ || code == "08003"@
}

pub open spec fn db_failure_class(f: DbFailure) -> RetryClass {
    match f {
        DbFailure::RowNotFound => RetryClass::Permanent,
        DbFailure::Database { code } => match code {
            Some(c) => if transient_sqlstate(c@) { RetryClass::Transient } else { RetryClass::Permanent },
            None => RetryClass::Permanent,
        },
        _ => RetryClass::Transient,
    }
}

/// Classify a raw database failure, for the paths that never became an `ApiError`.
pub fn classify_db_failure(failure: &DbFailure) -> (c: RetryClass)
    ensures
        c == db_failure_class(*failure),
{
    match failure {
        DbFailure::RowNotFound => RetryClass::Permanent,
        DbFailure::Database { code } => match code {
            Some(c) => {
                let s = c.as_str();
                let t = crate::text::str_eq(s, "40001") || crate::text::str_eq(s, "40P01")
                    || crate::text::str_eq(s, "55P03") || crate::text::str_eq(s, "57014")
                    || crate::text::str_eq(s, "53300") || crate::text::str_eq(s, "08006")
                    || crate::text::str_eq(s, "08000") || crate::text::str_eq(s, "08003");
                if t { RetryClass::Transient } else { RetryClass::Permanent }
            },
            None => RetryClass::Permanent,
        },
        _ => RetryClass::Transient,
    }
}

proof fn lemma_doubled_positive(k: nat)
    ensures
        doubled(k) >= 1,
    decreases k,
{
    if k > 0 {
        lemma_doubled_positive((k - 1) as nat);
    }
}

/// Every delay, jittered or not, is at least a second and at most thirty minutes.
pub proof fn law_backoff_stays_between_a_second_and_thirty_minutes(attempt_no: int, jitter: int)
    ensures
        1_000_000 <= backoff_micros(attempt_no, jitter) <= 1_800_000_000,
{
}

/// The schedule starts at five seconds and doubles with each attempt until it reaches
/// thirty minutes; an attempt numbered below one counts as the first.
pub proof fn law_the_schedule_doubles_from_five_seconds(attempt_no: int)
    ensures
        attempt_no <= 1 ==> scheduled_secs(attempt_no) == 5,
        1 <= attempt_no <= 20 ==> scheduled_secs(attempt_no + 1) == (if 2 * scheduled_secs(attempt_no) > 1800 {
            1800
        } else {
            2 * scheduled_secs(attempt_no)
        }),
        scheduled_secs(attempt_no) <= 1800,
{
    let n = if attempt_no < 1 { 1 } else { attempt_no };
    let e = if n - 1 > 20 { 20 } else { n - 1 };
    lemma_doubled_positive(e as nat);
    if 1 <= attempt_no <= 20 {
        assert(doubled((attempt_no) as nat) == 2 * doubled((attempt_no - 1) as nat));
    }
}

/// Jitter moves a delay by at most a fifth either way: it stays within 80% to 120% of
/// the scheduled delay, and under the ceiling.
pub proof fn law_jitter_stays_within_twenty_percent(attempt_no: int, jitter: int)
    ensures
        scheduled_secs(attempt_no) * 800_000 <= backoff_micros(attempt_no, jitter),
        backoff_micros(attempt_no, jitter) <= scheduled_secs(attempt_no) * 1_200_000,
{
    let n = if attempt_no < 1 { 1 } else { attempt_no };
    let e = if n - 1 > 20 { 20 } else { n - 1 };
    lemma_doubled_positive(e as nat);
    let sched = scheduled_secs(attempt_no);
    assert(5 <= sched <= 1800);
    let jj = if jitter < -1000 { -1000 } else if jitter > 1000 { 1000 } else { jitter };
    assert(sched * 200 * (5000 + jj) >= sched * 800_000) by (nonlinear_arith)
        requires
            sched >= 0,
            jj >= -1000;
    assert(sched * 200 * (5000 + jj) <= sched * 1_200_000) by (nonlinear_arith)
        requires
            sched >= 0,
            jj <= 1000;
}

/// A failure retrying cannot fix is dead-lettered on its first attempt, whatever the
/// budget.
pub proof fn law_a_permanent_failure_is_never_retried(attempt_no: i32, budget: RetryBudget, scheduled: int)
    ensures
        decision_of(RetryClass::Permanent, attempt_no, budget, scheduled) is None,
{
}

/// An unlimited budget keeps retrying a failure that might clear, however many attempts
/// it has taken.
pub proof fn law_an_unlimited_budget_keeps_retrying(attempt_no: i32, alert_after: i32, scheduled: int)
    ensures
        decision_of(RetryClass::Transient, attempt_no, RetryBudget::UnlimitedDelayed { alert_after }, scheduled) == Some(scheduled),
{
}

/// A provider's own delay is honoured, but never beyond thirty minutes.
pub proof fn law_a_provider_delay_is_capped(retry_after_secs: u64, attempt_no: i32, budget: RetryBudget, scheduled: int)
    ensures
        decision_of(RetryClass::ProviderThrottled { retry_after_secs }, attempt_no, budget, scheduled) matches Some(d)
            ==> d <= 1_800_000_000 && (retry_after_secs <= 1_800 ==> d == retry_after_secs * 1_000_000),
{
}

/// A database failure is retried exactly when the server reported contention or a lost
/// connection: serialization failure (40001), deadlock (40P01), lock not available
/// (55P03), query cancelled (57014), too many connections (53300) and the connection
/// failures 08006, 08000 and 08003. Any other SQLSTATE, such as a unique violation
/// (23505), and a refusal with no SQLSTATE, fail for good; so does a missing row.
pub proof fn law_contention_and_lost_connections_are_retried(f: DbFailure)
    ensures
        f matches DbFailure::Database { code: Some(c) } && (c@ == "40001"@ || c@ == "40P01"@ || c@ == "55P03"@
            || c@ == "57014"@ || c@ == "53300"@ || c@ == "08006"@ || c@ == "08000"@ || c@ == "08003"@)
            ==> db_failure_class(f) == RetryClass::Transient,
        f matches DbFailure::Database { code: Some(c) } && !(c@ == "40001"@ || c@ == "40P01"@ || c@ == "55P03"@
            || c@ == "57014"@ || c@ == "53300"@ || c@ == "08006"@ || c@ == "08000"@ || c@ == "08003"@)
            ==> db_failure_class(f) == RetryClass::Permanent,
        f matches DbFailure::Database { code: Some(c) } && c@ == "23505"@ ==> db_failure_class(f) == RetryClass::Permanent,
        f matches DbFailure::Database { code: None } ==> db_failure_class(f) == RetryClass::Permanent,
        f == DbFailure::RowNotFound ==> db_failure_class(f) == RetryClass::Permanent,
        (f is PoolTimedOut || f is Io || f is Tls) ==> db_failure_class(f) == RetryClass::Transient,
{
    reveal_strlit("23505");
    reveal_strlit("40001");
    reveal_strlit("40P01");
    reveal_strlit("55P03");
    reveal_strlit("57014");
    reveal_strlit("53300");
    reveal_strlit("08006");
    reveal_strlit("08000");
    reveal_strlit("08003");
    let u = "23505"@;
    assert(u[0] == '2');
    assert(u != "40001"@ && u != "40P01"@ && u != "55P03"@ && u != "57014"@) by {
        assert("40001"@[0] != u[0] && "40P01"@[0] != u[0] && "55P03"@[0] != u[0] && "57014"@[0] != u[0]);
    }
    assert(u != "53300"@ && u != "08006"@ && u != "08000"@ && u != "08003"@) by {
        assert("53300"@[0] != u[0] && "08006"@[0] != u[0] && "08000"@[0] != u[0] && "08003"@[0] != u[0]);
    }
}

} // verus!
