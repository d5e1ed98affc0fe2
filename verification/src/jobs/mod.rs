//! Job registration, status and identity.
//!
//! The same logical job never runs twice anywhere in the cluster. Its identity is its
//! key, `{job_type}:{tenant_or_store_id}:{resource_id}:{operation_version}`; two
//! instances that both decide a campaign should be issued produce the same key and
//! therefore the same job. The key also names the advisory lock that keeps two workers
//! apart: the first eight bytes of its SHA-256 digest, which never move between
//! processes or releases.

use vstd::prelude::*;

use crate::error::{code_text, ApiError, ErrorCode};
use crate::ident::{sha256, sha256_digest, uuid_string, uuid_text};
use crate::text::{int_text, lemma_int_text_injective, nat_text, push_str, str_eq};

pub mod retry;
pub mod worker;

pub use retry::{backoff_for_attempt, classify_api_error, RetryClass, RetryDecision};

verus! {

/// The kind of work a job does, and the operational policy each kind carries.
#[derive(Debug, Clone, Copy, PartialEq, Eq, Structural)]
pub enum JobType {
    /// Freeze who was eligible when a campaign was published.
    BuildCampaignAudience,
    /// Issue a campaign's coupons in bulk.
    IssueCampaign,
    /// Take a campaign's coupons back.
    RevokeCampaign,
    /// Expire coupons, one hour shard at a time.
    ExpireCoupons,
    /// Carry out an administrator's ledger adjustment.
    ExecuteAdjustment,
    /// Deliver one notification to one recipient over one channel.
    NotifyEvent,
    /// Roll a day's activity up into the statistics tables.
    AggregateDailyStats,
    /// Erase a withdrawn user's personal data.
    PurgeUserData,
}

pub open spec fn job_type_text(t: JobType) -> Seq<char> {
    match t {
        JobType::BuildCampaignAudience => "build_campaign_audience"@,
        JobType::IssueCampaign => "issue_campaign"@,
        JobType::RevokeCampaign => "revoke_campaign"@,
        JobType::ExpireCoupons => "expire_coupons"@,
        JobType::ExecuteAdjustment => "execute_adjustment"@,
        JobType::NotifyEvent => "notify_event"@,
        JobType::AggregateDailyStats => "aggregate_daily_stats"@,
        JobType::PurgeUserData => "purge_user_data"@,
    }
}

pub open spec fn job_type_from_text(raw: Seq<char>) -> Option<JobType> {
        if raw == "build_campaign_audience"@ {
            Some(JobType::BuildCampaignAudience)
        } else         if raw == "issue_campaign"@ {
            Some(JobType::IssueCampaign)
        } else         if raw == "revoke_campaign"@ {
            Some(JobType::RevokeCampaign)
        } else         if raw == "expire_coupons"@ {
            Some(JobType::ExpireCoupons)
        } else         if raw == "execute_adjustment"@ {
            Some(JobType::ExecuteAdjustment)
        } else         if raw == "notify_event"@ {
            Some(JobType::NotifyEvent)
        } else         if raw == "aggregate_daily_stats"@ {
            Some(JobType::AggregateDailyStats)
        } else         if raw == "purge_user_data"@ {
            Some(JobType::PurgeUserData)
        } else {
            None
        }
}

pub open spec fn batch_size_of(t: JobType) -> i64 {
    match t {
        JobType::BuildCampaignAudience => 1_000,
        JobType::IssueCampaign => 500,
        JobType::RevokeCampaign => 500,
        JobType::ExpireCoupons => 1_000,
        JobType::ExecuteAdjustment => 1,
        JobType::NotifyEvent => 1,
        JobType::AggregateDailyStats => 1_000,
        JobType::PurgeUserData => 1,
    }
}

pub open spec fn retry_budget_of(t: JobType) -> RetryBudget {
    match t {
        JobType::BuildCampaignAudience => RetryBudget::Limited(5),
        JobType::IssueCampaign => RetryBudget::Limited(10),
        JobType::RevokeCampaign => RetryBudget::Limited(10),
        JobType::ExpireCoupons => RetryBudget::UnlimitedDelayed { alert_after: 20 },
        JobType::ExecuteAdjustment => RetryBudget::Limited(5),
        JobType::NotifyEvent => RetryBudget::Limited(5),
        JobType::AggregateDailyStats => RetryBudget::Limited(5),
        JobType::PurgeUserData => RetryBudget::Limited(5),
    }
}

impl JobType {
    pub fn as_db(self) -> (s: &'static str)
        ensures
            s@ == job_type_text(self),
    {
        match self {
            JobType::BuildCampaignAudience => "build_campaign_audience",
            JobType::IssueCampaign => "issue_campaign",
            JobType::RevokeCampaign => "revoke_campaign",
            JobType::ExpireCoupons => "expire_coupons",
            JobType::ExecuteAdjustment => "execute_adjustment",
            JobType::NotifyEvent => "notify_event",
            JobType::AggregateDailyStats => "aggregate_daily_stats",
            JobType::PurgeUserData => "purge_user_data",
        }
    }

    pub fn from_db(raw: &str) -> (t: Option<JobType>)
        ensures
            t == job_type_from_text(raw@),
    {
        if str_eq(raw, "build_campaign_audience") {
            Some(JobType::BuildCampaignAudience)
        } else if str_eq(raw, "issue_campaign") {
            Some(JobType::IssueCampaign)
        } else if str_eq(raw, "revoke_campaign") {
            Some(JobType::RevokeCampaign)
        } else if str_eq(raw, "expire_coupons") {
            Some(JobType::ExpireCoupons)
        } else if str_eq(raw, "execute_adjustment") {
            Some(JobType::ExecuteAdjustment)
        } else if str_eq(raw, "notify_event") {
            Some(JobType::NotifyEvent)
        } else if str_eq(raw, "aggregate_daily_stats") {
            Some(JobType::AggregateDailyStats)
        } else if str_eq(raw, "purge_user_data") {
            Some(JobType::PurgeUserData)
        } else {
            None
        }
    }

    /// Rows per checkpointed batch.
    pub fn batch_size(self) -> (n: i64)
        ensures
            n == batch_size_of(self),
    {
        match self {
            JobType::BuildCampaignAudience => 1_000,
            JobType::IssueCampaign => 500,
            JobType::RevokeCampaign => 500,
            JobType::ExpireCoupons => 1_000,
            JobType::ExecuteAdjustment => 1,
            JobType::NotifyEvent => 1,
            JobType::AggregateDailyStats => 1_000,
            JobType::PurgeUserData => 1,
        }
    }

    /// How many failures the job type tolerates.
    pub fn retry_budget(self) -> (b: RetryBudget)
        ensures
            b == retry_budget_of(self),
    {
        match self {
            JobType::BuildCampaignAudience => RetryBudget::Limited(5),
            JobType::IssueCampaign => RetryBudget::Limited(10),
            JobType::RevokeCampaign => RetryBudget::Limited(10),
            JobType::ExpireCoupons => RetryBudget::UnlimitedDelayed { alert_after: 20 },
            JobType::ExecuteAdjustment => RetryBudget::Limited(5),
            JobType::NotifyEvent => RetryBudget::Limited(5),
            JobType::AggregateDailyStats => RetryBudget::Limited(5),
            JobType::PurgeUserData => RetryBudget::Limited(5),
        }
    }

    /// How long a running job may go silent before another worker may assume the
    /// previous one died.
    pub fn visibility_timeout_secs(self) -> (n: i32)
        ensures
            n == (if self == JobType::ExecuteAdjustment { 120i32 } else { 300i32 }),
    {
        match self {
            JobType::ExecuteAdjustment => 120,
            _ => 300,
        }
    }
}

/// How many times a job type is willing to fail before it stops trying.
#[derive(Debug, Clone, Copy, PartialEq, Eq, Structural)]
pub enum RetryBudget {
    Limited(i32),
    /// Never gives up; `alert_after` is the attempt count worth paging about.
    UnlimitedDelayed { alert_after: i32 },
}

impl RetryBudget {
    /// The number stored as the job's maximum attempts: the limit, or for the unlimited
    /// budget the alerting threshold.
    pub fn recorded_max_attempts(self) -> (n: i32)
        ensures
            n == match self {
                RetryBudget::Limited(limit) => limit,
                RetryBudget::UnlimitedDelayed { alert_after } => alert_after,
            },
    {
        match self {
            RetryBudget::Limited(limit) => limit,
            RetryBudget::UnlimitedDelayed { alert_after } => alert_after,
        }
    }

    pub open spec fn exhausted_spec(self, attempts: i32) -> bool {
        match self {
            RetryBudget::Limited(limit) => attempts >= limit,
            RetryBudget::UnlimitedDelayed { .. } => false,
        }
    }

    pub fn exhausted(self, attempts: i32) -> (r: bool)
        ensures
            r == self.exhausted_spec(attempts),
    {
        match self {
            RetryBudget::Limited(limit) => attempts >= limit,
            RetryBudget::UnlimitedDelayed { .. } => false,
        }
    }
}

/// Where a job stands.
#[derive(Debug, Clone, Copy, PartialEq, Eq, Structural)]
pub enum JobStatus {
    PendingOutbox,
    Queued,
    Running,
    RetryWait,
    PauseRequested,
    Paused,
    Succeeded,
    DeadLetter,
    Cancelled,
}

pub open spec fn job_status_text(st: JobStatus) -> Seq<char> {
    match st {
        JobStatus::PendingOutbox => "PENDING_OUTBOX"@,
        JobStatus::Queued => "QUEUED"@,
        JobStatus::Running => "RUNNING"@,
        JobStatus::RetryWait => "RETRY_WAIT"@,
        JobStatus::PauseRequested => "PAUSE_REQUESTED"@,
        JobStatus::Paused => "PAUSED"@,
        JobStatus::Succeeded => "SUCCEEDED"@,
        JobStatus::DeadLetter => "DEAD_LETTER"@,
        JobStatus::Cancelled => "CANCELLED"@,
    }
}

pub open spec fn job_status_from_text(raw: Seq<char>) -> JobStatus {
        if raw == "PENDING_OUTBOX"@ {
            JobStatus::PendingOutbox
        } else if raw == "QUEUED"@ {
            JobStatus::Queued
        } else if raw == "RUNNING"@ {
            JobStatus::Running
        } else if raw == "RETRY_WAIT"@ {
            JobStatus::RetryWait
        } else if raw == "PAUSE_REQUESTED"@ {
            JobStatus::PauseRequested
        } else if raw == "PAUSED"@ {
            JobStatus::Paused
        } else if raw == "SUCCEEDED"@ {
            JobStatus::Succeeded
        } else if raw == "CANCELLED"@ {
            JobStatus::Cancelled
        } else {
            JobStatus::DeadLetter
        }
}

/// The statuses that mean the logical job is still in flight, so that no second job may
/// hold its key.
pub open spec fn status_is_active(st: JobStatus) -> bool {
    match st {
        JobStatus::Succeeded | JobStatus::DeadLetter | JobStatus::Cancelled => false,
        _ => true,
    }
}

impl JobStatus {
    pub const ACTIVE: [JobStatus; 6] = [
        JobStatus::PendingOutbox,
        JobStatus::Queued,
        JobStatus::Running,
        JobStatus::RetryWait,
        JobStatus::PauseRequested,
        JobStatus::Paused,
    ];

    pub fn as_db(self) -> (s: &'static str)
        ensures
            s@ == job_status_text(self),
    {
        match self {
            JobStatus::PendingOutbox => "PENDING_OUTBOX",
            JobStatus::Queued => "QUEUED",
            JobStatus::Running => "RUNNING",
            JobStatus::RetryWait => "RETRY_WAIT",
            JobStatus::PauseRequested => "PAUSE_REQUESTED",
            JobStatus::Paused => "PAUSED",
            JobStatus::Succeeded => "SUCCEEDED",
            JobStatus::DeadLetter => "DEAD_LETTER",
            JobStatus::Cancelled => "CANCELLED",
        }
    }

    /// An unrecognised status reads as dead-lettered: a state this build does not
    /// understand must not look runnable.
    pub fn from_db(raw: &str) -> (st: JobStatus)
        ensures
            st == job_status_from_text(raw@),
    {
        if str_eq(raw, "PENDING_OUTBOX") {
            JobStatus::PendingOutbox
        } else if str_eq(raw, "QUEUED") {
            JobStatus::Queued
        } else if str_eq(raw, "RUNNING") {
            JobStatus::Running
        } else if str_eq(raw, "RETRY_WAIT") {
            JobStatus::RetryWait
        } else if str_eq(raw, "PAUSE_REQUESTED") {
            JobStatus::PauseRequested
        } else if str_eq(raw, "PAUSED") {
            JobStatus::Paused
        } else if str_eq(raw, "SUCCEEDED") {
            JobStatus::Succeeded
        } else if str_eq(raw, "CANCELLED") {
            JobStatus::Cancelled
        } else {
            JobStatus::DeadLetter
        }
    }

    pub fn is_active(self) -> (r: bool)
        ensures
            r == status_is_active(self),
    {
        match self {
            JobStatus::Succeeded | JobStatus::DeadLetter | JobStatus::Cancelled => false,
            _ => true,
        }
    }

    pub fn is_terminal(self) -> (r: bool)
        ensures
            r == !status_is_active(self),
    {
        match self {
            JobStatus::Succeeded | JobStatus::DeadLetter | JobStatus::Cancelled => true,
            _ => false,
        }
    }
}

/// The identity of a logical job.
#[derive(Debug, Clone, PartialEq, Eq)]
pub struct JobKey {
    pub job_type: JobType,
    pub tenant: String,
    pub resource: String,
    pub operation_version: String,
}

/// Microseconds from the epoch within which every instant has a calendar time (well
/// inside chrono's range of about 262,000 years either side of the common era).
pub const SHARD_RANGE: i64 = 8_000_000_000_000_000_000;

/// The UTC calendar date and hour of an instant: year, month, day and hour.
pub uninterp spec fn utc_date_hour(micros: i64) -> (i32, u32, u32, u32);

/// `chrono::DateTime::from_timestamp_micros(micros)`, read with `Datelike::{year, month,
/// day}` and `Timelike::hour`. The date is named rather than written out; chrono
/// documents months as 1 to 12, days as 1 to 31 and hours as 0 to 23, and its range
/// contains every instant within `SHARD_RANGE` of the epoch.
#[verifier::external_body]
fn utc_date_hour_of(micros: i64) -> (r: Option<(i32, u32, u32, u32)>)
    ensures
        -SHARD_RANGE <= micros <= SHARD_RANGE ==> r is Some,
        r matches Some(c) ==> c == utc_date_hour(micros) && 1 <= c.1 <= 12 && 1 <= c.2 <= 31 && c.3 < 24,
{
    let at = chrono::DateTime::from_timestamp_micros(micros)?;
    Some((chrono::Datelike::year(&at), chrono::Datelike::month(&at), chrono::Datelike::day(&at), chrono::Timelike::hour(&at)))
}

/// `n` in decimal, with leading zeros up to `width` digits.
pub open spec fn zero_padded(n: nat, width: nat) -> Seq<char> {
    let digits = nat_text(n);
    if digits.len() < width {
        Seq::new((width - digits.len()) as nat, |i: int| '0') + digits
    } else {
        digits
    }
}

/// A year as `%Y` writes it: four digits, zero-padded, for years 0 to 9999; otherwise a
/// sign and at least four digits.
pub open spec fn year_text(y: int) -> Seq<char> {
    if 0 <= y < 10000 {
        zero_padded(y as nat, 4)
    } else if y < 0 {
        seq!['-'] + zero_padded((-y) as nat, 4)
    } else {
        seq!['+'] + zero_padded(y as nat, 4)
    }
}

/// The hour an instant falls in, in UTC, written `YYYY-MM-DDTHH:00Z`.
pub open spec fn hour_shard_text(micros: i64) -> Seq<char> {
    let c = utc_date_hour(micros);
    year_text(c.0 as int) + seq!['-'] + zero_padded(c.1 as nat, 2) + seq!['-'] + zero_padded(c.2 as nat, 2)
        + seq!['T'] + zero_padded(c.3 as nat, 2) + ":00Z"@
}

fn push_padded(s: &mut String, n: u64, width: usize)
    ensures
        final(s)@ == old(s)@ + zero_padded(n as nat, width as nat),
{
    let digits = crate::text::u64_chars(n);
    let ghost before = s@;
    if digits.len() < width {
        let zeros = width - digits.len();
        let mut i: usize = 0;
        while i < zeros
            invariant
                0 <= i <= zeros,
                s@ == before + Seq::new(i as nat, |k: int| '0'),
            decreases zeros - i,
        {
            crate::text::push_char(s, '0');
            assert(Seq::new((i + 1) as nat, |k: int| '0') =~= Seq::new(i as nat, |k: int| '0').push('0'));
            i += 1;
        }
    }
    let ghost mid = s@;
    let mut j: usize = 0;
    while j < digits.len()
        invariant
            0 <= j <= digits@.len(),
            s@ == mid + digits@.take(j as int),
        decreases digits@.len() - j,
    {
        crate::text::push_char(s, digits[j]);
        assert(digits@.take(j + 1) == digits@.take(j as int).push(digits@[j as int]));
        j += 1;
    }
    assert(digits@.take(digits@.len() as int) == digits@);
    assert(s@ =~= before + zero_padded(n as nat, width as nat));
}

/// The hour an instant falls in, as the shard of an expiry sweep.
fn hour_shard(micros: i64) -> (r: Option<String>)
    ensures
        -SHARD_RANGE <= micros <= SHARD_RANGE ==> r is Some,
        r matches Some(h) ==> h@ == hour_shard_text(micros),
{
    let (year, month, day, hour) = match utc_date_hour_of(micros) {
        Some(c) => c,
        None => {
            return None;
        },
    };
    let mut s = String::new();
    if 0 <= year && year < 10000 {
        push_padded(&mut s, year as u64, 4);
    } else if year < 0 {
        crate::text::push_char(&mut s, '-');
        push_padded(&mut s, (-(year as i64)) as u64, 4);
    } else {
        crate::text::push_char(&mut s, '+');
        push_padded(&mut s, year as u64, 4);
    }
    crate::text::push_char(&mut s, '-');
    push_padded(&mut s, month as u64, 2);
    crate::text::push_char(&mut s, '-');
    push_padded(&mut s, day as u64, 2);
    crate::text::push_char(&mut s, 'T');
    push_padded(&mut s, hour as u64, 2);
    push_str(&mut s, ":00Z");
    Some(s)
}

/// The tenant slot for work that belongs to no single store.
pub const GLOBAL_TENANT: &'static str = "global";

/// `{job_type}:{tenant}:{resource}:{operation_version}`.
pub open spec fn key_text(t: JobType, tenant: Seq<char>, resource: Seq<char>, op: Seq<char>) -> Seq<char> {
    job_type_text(t) + seq![':'] + tenant + seq![':'] + resource + seq![':'] + op
}

pub open spec fn job_key_text(k: JobKey) -> Seq<char> {
    key_text(k.job_type, k.tenant@, k.resource@, k.operation_version@)
}

/// The big-endian value of the first eight bytes, read as a two's-complement `i64`.
pub open spec fn be_i64(b: Seq<u8>) -> int {
    let v = be_value(b.take(8));
    if v >= 0x8000_0000_0000_0000 {
        v - 0x1_0000_0000_0000_0000
    } else {
        v
    }
}

pub open spec fn be_value(b: Seq<u8>) -> int
    decreases b.len(),
{
    if b.len() == 0 {
        0
    } else {
        be_value(b.drop_last()) * 256 + b.last()
    }
}

/// The advisory lock a stored key maps to.
pub open spec fn lock_key_of(key: Seq<char>) -> int {
    be_i64(sha256_digest(vstd::utf8::encode_utf8(key)))
}

/// `256` to the power `n`.
pub open spec fn radix_pow(n: nat) -> int
    decreases n,
{
    if n == 0 {
        1
    } else {
        256 * radix_pow((n - 1) as nat)
    }
}

proof fn lemma_be_value_bound(b: Seq<u8>)
    ensures
        0 <= be_value(b) < radix_pow(b.len()),
    decreases b.len(),
{
    if b.len() > 0 {
        lemma_be_value_bound(b.drop_last());
        let p = radix_pow((b.len() - 1) as nat);
        let v = be_value(b.drop_last());
        assert(v * 256 + b.last() < 256 * p) by (nonlinear_arith)
            requires
                0 <= v < p,
                0 <= b.last() < 256;
    }
}

proof fn lemma_radix_pow_mono(i: nat, j: nat)
    requires
        i <= j,
    ensures
        1 <= radix_pow(i) <= radix_pow(j),
    decreases j,
{
    if j > 0 {
        if i < j {
            lemma_radix_pow_mono(i, (j - 1) as nat);
        } else {
            lemma_radix_pow_mono((j - 1) as nat, (j - 1) as nat);
        }
    }
}

/// The lock a stored unique key maps to.
pub fn advisory_lock_key_for(unique_key: &str) -> (k: i64)
    ensures
        k == lock_key_of(unique_key@),
{
    let digest = sha256(unique_key.as_bytes());
    let ghost d = digest@;
    let mut acc: u64 = 0;
    let mut i: usize = 0;
    while i < 8
        invariant
            0 <= i <= 8,
            d == digest@,
            d.len() == 32,
            acc == be_value(d.take(i as int)),
        decreases 8 - i,
    {
        proof {
            let t = d.take(i + 1);
            assert(t.drop_last() == d.take(i as int));
            lemma_be_value_bound(d.take(i as int));
            lemma_be_value_bound(t);
            lemma_radix_pow_mono((i + 1) as nat, 8);
            assert(radix_pow(8) == 0x1_0000_0000_0000_0000) by {
                reveal_with_fuel(radix_pow, 9);
            }
        }
        acc = acc * 256 + digest[i] as u64;
        i += 1;
    }
    if acc >= 0x8000_0000_0000_0000 {
        let low = acc - 0x8000_0000_0000_0000;
        (low as i64) - 0x7fff_ffff_ffff_ffff - 1
    } else {
        acc as i64
    }
}

impl JobKey {
    pub fn new(job_type: JobType, tenant: String, resource: String, operation_version: String) -> (k: JobKey)
        ensures
            k.job_type == job_type,
            k.tenant@ == tenant@,
            k.resource@ == resource@,
            k.operation_version@ == operation_version@,
    {
        JobKey { job_type, tenant, resource, operation_version }
    }

    /// `build_campaign_audience:{store}:{campaign}:{generation}`.
    pub fn build_audience(store_id: u128, campaign_id: u128, generation: i32) -> (k: JobKey)
        ensures
            job_key_text(k) == key_text(JobType::BuildCampaignAudience, uuid_text(store_id), uuid_text(campaign_id), int_text(generation as int)),
            k.job_type == JobType::BuildCampaignAudience,
    {
        JobKey::new(
            JobType::BuildCampaignAudience,
            uuid_string(store_id),
            uuid_string(campaign_id),
            crate::text::i64_string(generation as i64),
        )
    }

    /// `issue_campaign:{store}:{campaign}:{generation}`.
    pub fn issue_campaign(store_id: u128, campaign_id: u128, generation: i32) -> (k: JobKey)
        ensures
            job_key_text(k) == key_text(JobType::IssueCampaign, uuid_text(store_id), uuid_text(campaign_id), int_text(generation as int)),
            k.job_type == JobType::IssueCampaign,
    {
        JobKey::new(
            JobType::IssueCampaign,
            uuid_string(store_id),
            uuid_string(campaign_id),
            crate::text::i64_string(generation as i64),
        )
    }

    /// `revoke_campaign:{store}:{campaign}:{operation}`: two revocations authorised by
    /// two different cases are two jobs.
    pub fn revoke_campaign(store_id: u128, campaign_id: u128, operation: &str) -> (k: JobKey)
        ensures
            job_key_text(k) == key_text(JobType::RevokeCampaign, uuid_text(store_id), uuid_text(campaign_id), operation@),
            k.job_type == JobType::RevokeCampaign,
    {
        JobKey::new(JobType::RevokeCampaign, uuid_string(store_id), uuid_string(campaign_id), operation.to_string())
    }

    /// `execute_adjustment:{case}:{adjustment}:{generation}`.
    pub fn execute_adjustment(case_id: u128, adjustment_id: u128, generation: i32) -> (k: JobKey)
        ensures
            job_key_text(k) == key_text(JobType::ExecuteAdjustment, uuid_text(case_id), uuid_text(adjustment_id), int_text(generation as int)),
            k.job_type == JobType::ExecuteAdjustment,
    {
        JobKey::new(
            JobType::ExecuteAdjustment,
            uuid_string(case_id),
            uuid_string(adjustment_id),
            crate::text::i64_string(generation as i64),
        )
    }

    /// `purge_user_data:{request}:{subject}:{generation}`.
    pub fn purge_user_data(request_id: u128, subject_user_id: u128, generation: i32) -> (k: JobKey)
        ensures
            job_key_text(k) == key_text(JobType::PurgeUserData, uuid_text(request_id), uuid_text(subject_user_id), int_text(generation as int)),
            k.job_type == JobType::PurgeUserData,
    {
        JobKey::new(
            JobType::PurgeUserData,
            uuid_string(request_id),
            uuid_string(subject_user_id),
            crate::text::i64_string(generation as i64),
        )
    }

    /// `expire_coupons:global:{hour}:v1`: one job per hour shard, so a late worker catches
    /// up shard by shard instead of in one unbounded sweep.
    pub fn expire_coupons(shard: i64) -> (k: JobKey)
        requires
            -SHARD_RANGE <= shard <= SHARD_RANGE,
        ensures
            job_key_text(k) == key_text(JobType::ExpireCoupons, "global"@, hour_shard_text(shard), "v1"@),
            k.job_type == JobType::ExpireCoupons,
    {
        let hour = match hour_shard(shard) {
            Some(h) => h,
            None => String::new(),
        };
        JobKey::new(JobType::ExpireCoupons, GLOBAL_TENANT.to_string(), hour, "v1".to_string())
    }

    /// The key as stored.
    pub fn to_string(&self) -> (s: String)
        ensures
            s@ == job_key_text(*self),
    {
        let mut s = self.job_type.as_db().to_string();
        push_str(&mut s, ":");
        push_str(&mut s, self.tenant.as_str());
        push_str(&mut s, ":");
        push_str(&mut s, self.resource.as_str());
        push_str(&mut s, ":");
        push_str(&mut s, self.operation_version.as_str());
        proof {
            reveal_strlit(":");
        }
        s
    }

    /// The advisory lock this job's workers contend for.
    pub fn advisory_lock_key(&self) -> (k: i64)
        ensures
            k == lock_key_of(job_key_text(*self)),
    {
        let s = self.to_string();
        advisory_lock_key_for(s.as_str())
    }
}

/// What an enqueue request asks for: the job's identity, its payload as serialised JSON,
/// what it concerns, when it becomes eligible (`None` is at once, in microseconds since
/// the epoch otherwise) and who asked.
#[derive(Debug, Clone, PartialEq, Eq)]
pub struct JobSpec {
    pub key: JobKey,
    pub payload: String,
    pub store_id: Option<u128>,
    pub resource_id: Option<u128>,
    pub scheduled_at: Option<i64>,
    pub requested_by_user_id: Option<u128>,
}

impl JobSpec {
    pub fn new(key: JobKey, payload: String) -> (s: JobSpec)
        ensures
            s.key == key,
            s.payload == payload,
            s.store_id is None,
            s.resource_id is None,
            s.scheduled_at is None,
            s.requested_by_user_id is None,
    {
        JobSpec { key, payload, store_id: None, resource_id: None, scheduled_at: None, requested_by_user_id: None }
    }

    pub fn store(self, store_id: u128) -> (s: JobSpec)
        ensures
            s == (JobSpec { store_id: Some(store_id), ..self }),
    {
        JobSpec { store_id: Some(store_id), ..self }
    }

    pub fn resource(self, resource_id: u128) -> (s: JobSpec)
        ensures
            s == (JobSpec { resource_id: Some(resource_id), ..self }),
    {
        JobSpec { resource_id: Some(resource_id), ..self }
    }

    pub fn requested_by(self, user_id: u128) -> (s: JobSpec)
        ensures
            s == (JobSpec { requested_by_user_id: Some(user_id), ..self }),
    {
        JobSpec { requested_by_user_id: Some(user_id), ..self }
    }

    pub fn at(self, scheduled_at: i64) -> (s: JobSpec)
        ensures
            s == (JobSpec { scheduled_at: Some(scheduled_at), ..self }),
    {
        JobSpec { scheduled_at: Some(scheduled_at), ..self }
    }
}

/// The outcome of registering a job. `deduplicated` says an existing job answered the
/// registration, which is the expected outcome of a repeat, not an error.
#[derive(Debug, Clone, Copy, PartialEq, Eq, Structural)]
pub struct EnqueuedJob {
    pub job_id: u128,
    pub status: JobStatus,
    pub generation: i32,
    pub deduplicated: bool,
}

/// Whether a registered job answers a new registration of its key: an active job always
/// does, and a succeeded one does when it ran the generation being registered, so a
/// version that already ran returns its result instead of running again.
pub fn reusable(status: JobStatus, existing_generation: i32, generation: i32) -> (r: bool)
    ensures
        r == (status_is_active(status) || (status == JobStatus::Succeeded && existing_generation == generation)),
{
    status.is_active() || (status == JobStatus::Succeeded && existing_generation == generation)
}

/// Progress a handler reports at a checkpoint.
#[derive(Debug, Clone, Copy, Default, PartialEq, Eq, Structural)]
pub struct JobProgress {
    pub processed: i64,
    pub succeeded: i64,
    pub failed: i64,
}

impl JobProgress {
    /// Accumulate another batch's counts.
    pub fn add(&mut self, other: JobProgress)
        requires
            i64::MIN <= old(self).processed + other.processed <= i64::MAX,
            i64::MIN <= old(self).succeeded + other.succeeded <= i64::MAX,
            i64::MIN <= old(self).failed + other.failed <= i64::MAX,
        ensures
            final(self).processed == old(self).processed + other.processed,
            final(self).succeeded == old(self).succeeded + other.succeeded,
            final(self).failed == old(self).failed + other.failed,
    {
        self.processed = self.processed + other.processed;
        self.succeeded = self.succeeded + other.succeeded;
        self.failed = self.failed + other.failed;
    }
}

/// What a heartbeat tells the handler to do next.
#[derive(Debug, Clone, Copy, PartialEq, Eq, Structural)]
pub enum JobControl {
    Continue,
    Pause,
    Cancel,
}

/// Why an attempt ended badly.
#[derive(Debug, Clone, PartialEq, Eq)]
pub struct JobFailure {
    pub code: String,
    pub message: String,
    pub class: RetryClass,
}

impl JobFailure {
    pub fn permanent(code: &str, message: &str) -> (f: JobFailure)
        ensures
            f.code@ == code@,
            f.message@ == message@,
            f.class == RetryClass::Permanent,
    {
        JobFailure { code: code.to_string(), message: message.to_string(), class: RetryClass::Permanent }
    }

    pub fn transient(code: &str, message: &str) -> (f: JobFailure)
        ensures
            f.code@ == code@,
            f.message@ == message@,
            f.class == RetryClass::Transient,
    {
        JobFailure { code: code.to_string(), message: message.to_string(), class: RetryClass::Transient }
    }

    /// A failure reported by the library's own error: its code, its note for the logs
    /// (or else its message), and how retrying would fare.
    pub fn from_api(error: &ApiError) -> (f: JobFailure)
        ensures
            f.code@ == code_text(error.code),
            f.message@ == match error.internal {
                Some(detail) => detail@,
                None => error.message@,
            },
            f.class == retry::retry_class_of(error.code),
    {
        let message = match &error.internal {
            Some(detail) => detail.as_str().to_string(),
            None => error.message.as_str().to_string(),
        };
        JobFailure {
            code: error.code.as_str().to_string(),
            message,
            class: classify_api_error(error),
        }
    }
}

/// Whether a job in `status`, due at `next_attempt_at` (or else `scheduled_at`), may be
/// claimed at `now`: it must be queued or waiting to retry, and due.
pub open spec fn claimable_spec(status: JobStatus, next_attempt_at: Option<i64>, scheduled_at: i64, now: i64) -> bool {
    let due = match next_attempt_at {
        Some(t) => t,
        None => scheduled_at,
    };
    (status == JobStatus::Queued || status == JobStatus::RetryWait) && due <= now
}

/// The claim's gate: only a queued or retry-waiting job that is due may start.
pub fn claimable(status: JobStatus, next_attempt_at: Option<i64>, scheduled_at: i64, now: i64) -> (r: bool)
    ensures
        r == claimable_spec(status, next_attempt_at, scheduled_at, now),
{
    let due = match next_attempt_at {
        Some(t) => t,
        None => scheduled_at,
    };
    (status == JobStatus::Queued || status == JobStatus::RetryWait) && due <= now
}

/// Where a failed attempt leaves its job: waiting to retry, with the time of the next
/// attempt, or dead-lettered.
pub fn failure_outcome(decision: RetryDecision, now: i64) -> (r: (JobStatus, Option<i64>))
    requires
        decision matches RetryDecision::Retry { after } ==> 0 <= after.micros <= 1_800_000_000,
        now <= i64::MAX - 1_800_000_000,
    ensures
        match decision {
            RetryDecision::Retry { after } => r == (JobStatus::RetryWait, Some((now + after.micros) as i64)),
            RetryDecision::DeadLetter => r == (JobStatus::DeadLetter, None::<i64>),
        },
{
    match decision {
        RetryDecision::Retry { after } => (JobStatus::RetryWait, Some(now + after.micros as i64)),
        RetryDecision::DeadLetter => (JobStatus::DeadLetter, None),
    }
}

/// What asking a job to pause does: a running job is asked to stop at its next batch
/// boundary, a waiting one is parked at once, anything else cannot be paused.
pub fn pause_transition(status: JobStatus) -> (r: Result<JobStatus, ApiError>)
    ensures
        match status {
            JobStatus::Running => r == Ok::<JobStatus, ApiError>(JobStatus::PauseRequested),
            JobStatus::PendingOutbox | JobStatus::Queued | JobStatus::RetryWait => r == Ok::<JobStatus, ApiError>(JobStatus::Paused),
            _ => r matches Err(e) && e.code == ErrorCode::InvalidStateTransition
                && e.message@ == "일시 중지할 수 있는 작업이 아닙니다."@,
        },
{
    match status {
        JobStatus::Running => Ok(JobStatus::PauseRequested),
        JobStatus::PendingOutbox | JobStatus::Queued | JobStatus::RetryWait => Ok(JobStatus::Paused),
        _ => Err(ApiError::with_message(ErrorCode::InvalidStateTransition, "일시 중지할 수 있는 작업이 아닙니다.")),
    }
}

/// Resuming sends a paused (or pausing) job back through the outbox, keeping its
/// checkpoint; nothing else can be resumed.
pub fn resume_transition(status: JobStatus) -> (r: Result<JobStatus, ApiError>)
    ensures
        match status {
            JobStatus::Paused | JobStatus::PauseRequested => r == Ok::<JobStatus, ApiError>(JobStatus::PendingOutbox),
            _ => r matches Err(e) && e.code == ErrorCode::InvalidStateTransition
                && e.message@ == "재개할 수 있는 작업이 아닙니다."@,
        },
{
    match status {
        JobStatus::Paused | JobStatus::PauseRequested => Ok(JobStatus::PendingOutbox),
        _ => Err(ApiError::with_message(ErrorCode::InvalidStateTransition, "재개할 수 있는 작업이 아닙니다.")),
    }
}

/// The first `':'` of `s` at or after `from`, or `s.len()` when there is none.
pub open spec fn next_colon(s: Seq<char>, from: int) -> int
    decreases s.len() - from,
{
    if from >= s.len() {
        s.len() as int
    } else if s[from] == ':' {
        from
    } else {
        next_colon(s, from + 1)
    }
}

/// `s` cut at its first three colons, as `str::splitn(4, ':')` does, when it has three.
pub open spec fn split_key(s: Seq<char>) -> Option<(Seq<char>, Seq<char>, Seq<char>, Seq<char>)> {
    let a = next_colon(s, 0);
    let b = next_colon(s, a + 1);
    let c = next_colon(s, b + 1);
    if c < s.len() {
        Some((s.subrange(0, a), s.subrange(a + 1, b), s.subrange(b + 1, c), s.subrange(c + 1, s.len() as int)))
    } else {
        None
    }
}

proof fn lemma_next_colon(s: Seq<char>, from: int)
    requires
        0 <= from,
    ensures
        from <= next_colon(s, from) <= s.len() || (from > s.len() && next_colon(s, from) == s.len()),
        next_colon(s, from) < s.len() ==> s[next_colon(s, from)] == ':',
        forall|k: int| from <= k < next_colon(s, from) ==> s[k] != ':',
    decreases s.len() - from,
{
    if from < s.len() && s[from] != ':' {
        lemma_next_colon(s, from + 1);
    }
}

proof fn lemma_next_colon_at(s: Seq<char>, from: int, end: int)
    requires
        0 <= from <= end < s.len(),
        s[end] == ':',
        forall|k: int| from <= k < end ==> s[k] != ':',
    ensures
        next_colon(s, from) == end,
    decreases end - from,
{
    if from < end {
        lemma_next_colon_at(s, from + 1, end);
    }
}

/// Text with no colon in it.
pub open spec fn colon_free(s: Seq<char>) -> bool {
    forall|i: int| 0 <= i < s.len() ==> s[i] != ':'
}

proof fn lemma_job_type_text_is_colon_free(t: JobType)
    ensures
        colon_free(job_type_text(t)),
{
    reveal_strlit("build_campaign_audience");
    reveal_strlit("issue_campaign");
    reveal_strlit("revoke_campaign");
    reveal_strlit("expire_coupons");
    reveal_strlit("execute_adjustment");
    reveal_strlit("notify_event");
    reveal_strlit("aggregate_daily_stats");
    reveal_strlit("purge_user_data");
}

/// A stored unique key cuts back into the parts it was made of, provided the tenant and
/// the resource hold no colon: the operation version, last, may hold any.
pub proof fn law_a_stored_key_splits_back_into_its_parts(t: JobType, tenant: Seq<char>, resource: Seq<char>, op: Seq<char>)
    requires
        colon_free(tenant),
        colon_free(resource),
    ensures
        split_key(key_text(t, tenant, resource, op)) == Some((job_type_text(t), tenant, resource, op)),
        job_type_from_text(job_type_text(t)) == Some(t),
{
    lemma_job_type_text_is_colon_free(t);
    law_job_types_round_trip_through_their_stored_spelling(t);
    let ty = job_type_text(t);
    let s = key_text(t, tenant, resource, op);
    let a = ty.len() as int;
    let b = a + 1 + tenant.len();
    let c = b + 1 + resource.len();
    assert(s.len() == c + 1 + op.len());
    assert(s[a] == ':');
    assert(s[b] == ':');
    assert(s[c] == ':');
    assert forall|k: int| 0 <= k < a implies s[k] != ':' by {
        assert(s[k] == ty[k]);
    }
    assert forall|k: int| a + 1 <= k < b implies s[k] != ':' by {
        assert(s[k] == tenant[k - a - 1]);
    }
    assert forall|k: int| b + 1 <= k < c implies s[k] != ':' by {
        assert(s[k] == resource[k - b - 1]);
    }
    lemma_next_colon_at(s, 0, a);
    lemma_next_colon_at(s, a + 1, b);
    lemma_next_colon_at(s, b + 1, c);
    assert(s.subrange(0, a) =~= ty);
    assert(s.subrange(a + 1, b) =~= tenant);
    assert(s.subrange(b + 1, c) =~= resource);
    assert(s.subrange(c + 1, s.len() as int) =~= op);
}

/// Reprocessing keeps a stored key verbatim: its parts, joined again under the job's own
/// type, spell the key it was read from, whatever colons the last parts hold.
pub proof fn law_reprocessing_keeps_the_stored_key_verbatim(t: JobType, stored: Seq<char>)
    requires
        split_key(stored) matches Some(p) && p.0 == job_type_text(t),
    ensures
        split_key(stored) matches Some(p) && key_text(t, p.1, p.2, p.3) == stored,
{
    let a = next_colon(stored, 0);
    let b = next_colon(stored, a + 1);
    let c = next_colon(stored, b + 1);
    lemma_next_colon(stored, 0);
    lemma_next_colon(stored, a + 1);
    lemma_next_colon(stored, b + 1);
    assert(c < stored.len());
    assert(b < stored.len());
    assert(a < stored.len());
    let p = split_key(stored).unwrap();
    assert(key_text(t, p.1, p.2, p.3) =~= stored);
}

fn find_colon(s: &Vec<char>, from: usize) -> (r: usize)
    requires
        from <= s@.len(),
    ensures
        r == next_colon(s@, from as int),
{
    let mut i = from;
    while i < s.len() && s[i] != ':'
        invariant
            from <= i <= s@.len(),
            next_colon(s@, from as int) == next_colon(s@, i as int),
        decreases s@.len() - i,
    {
        i += 1;
    }
    i
}

fn chars_between(s: &Vec<char>, lo: usize, hi: usize) -> (r: String)
    requires
        lo <= hi <= s@.len(),
    ensures
        r@ == s@.subrange(lo as int, hi as int),
{
    let mut out = String::new();
    let mut i = lo;
    while i < hi
        invariant
            lo <= i <= hi <= s@.len(),
            out@ == s@.subrange(lo as int, i as int),
        decreases hi - i,
    {
        crate::text::push_char(&mut out, s[i]);
        assert(s@.subrange(lo as int, i + 1) == s@.subrange(lo as int, i as int).push(s@[i as int]));
        i += 1;
    }
    out
}

/// A dead-lettered job may be run again, under a new generation of the same logical key,
/// only with a reason and only from the failure queue; the stored key is kept verbatim.
pub fn reprocess_key(
    reason: &str,
    status: JobStatus,
    job_type_raw: &str,
    unique_key: &str,
) -> (r: Result<JobKey, ApiError>)
    ensures
        crate::text::is_blank(reason@) ==> (r matches Err(e) && e.code == ErrorCode::ValidationFailed
            && e.message@ == "재처리 사유를 입력해야 합니다."@),
        !crate::text::is_blank(reason@) && !(status == JobStatus::DeadLetter || status == JobStatus::Cancelled)
            ==> (r matches Err(e) && e.code == ErrorCode::InvalidStateTransition
            && e.message@ == "실패 큐에 있는 작업만 재처리할 수 있습니다."@),
        !crate::text::is_blank(reason@) && (status == JobStatus::DeadLetter || status == JobStatus::Cancelled)
            && (job_type_from_text(job_type_raw@) is None || split_key(unique_key@) is None)
            ==> (r matches Err(e) && e.code == ErrorCode::UnprocessableRequest),
        !crate::text::is_blank(reason@) && (status == JobStatus::DeadLetter || status == JobStatus::Cancelled)
            && job_type_from_text(job_type_raw@) is Some && split_key(unique_key@) is Some ==> r is Ok,
        r matches Ok(k) ==> {
            &&& !crate::text::is_blank(reason@)
            &&& (status == JobStatus::DeadLetter || status == JobStatus::Cancelled)
            &&& job_type_from_text(job_type_raw@) == Some(k.job_type)
            &&& split_key(unique_key@) matches Some(parts) && k.tenant@ == parts.1
                && k.resource@ == parts.2 && k.operation_version@ == parts.3
        },
{
    if crate::text::is_blank_str(reason) {
        return Err(ApiError::with_message(ErrorCode::ValidationFailed, "재처리 사유를 입력해야 합니다."));
    }
    match status {
        JobStatus::DeadLetter | JobStatus::Cancelled => {},
        _ => {
            return Err(ApiError::with_message(
                ErrorCode::InvalidStateTransition,
                "실패 큐에 있는 작업만 재처리할 수 있습니다.",
            ));
        },
    }
    let job_type = match JobType::from_db(job_type_raw) {
        Some(t) => t,
        None => {
            return Err(ApiError::new(ErrorCode::UnprocessableRequest).internal("unknown job type"));
        },
    };
    let chars = crate::text::chars_of(unique_key);
    let a = find_colon(&chars, 0);
    if a >= chars.len() {
        return Err(ApiError::new(ErrorCode::UnprocessableRequest).internal("malformed job key"));
    }
    let b = find_colon(&chars, a + 1);
    if b >= chars.len() {
        return Err(ApiError::new(ErrorCode::UnprocessableRequest).internal("malformed job key"));
    }
    let c = find_colon(&chars, b + 1);
    if c >= chars.len() {
        return Err(ApiError::new(ErrorCode::UnprocessableRequest).internal("malformed job key"));
    }
    proof {
        lemma_next_colon(chars@, 0);
        lemma_next_colon(chars@, a + 1);
        lemma_next_colon(chars@, b + 1);
    }
    Ok(JobKey::new(
        job_type,
        chars_between(&chars, a + 1, b),
        chars_between(&chars, b + 1, c),
        chars_between(&chars, c + 1, chars.len()),
    ))
}

/// Registers, claims and settles jobs.
#[derive(Debug, Clone, Copy, Default, PartialEq, Eq)]
pub struct JobService;

impl JobService {
    pub fn new() -> (s: JobService) {
        JobService
    }
}

/// Every job type reads back from its stored spelling.
pub proof fn law_job_types_round_trip_through_their_stored_spelling(x: JobType)
    ensures
        job_type_from_text(job_type_text(x)) == Some(x),
{
    reveal_strlit("purge_user_data");
    reveal_strlit("notify_event");
    reveal_strlit("execute_adjustment");
    reveal_strlit("build_campaign_audience");
    reveal_strlit("expire_coupons");
    reveal_strlit("aggregate_daily_stats");
    reveal_strlit("issue_campaign");
    reveal_strlit("revoke_campaign");
    match x {
        JobType::BuildCampaignAudience => {

        },
        JobType::IssueCampaign => {
            assert("issue_campaign"@.len() != "build_campaign_audience"@.len());
        },
        JobType::RevokeCampaign => {
            assert("revoke_campaign"@.len() != "build_campaign_audience"@.len());
            assert("revoke_campaign"@.len() != "issue_campaign"@.len());
        },
        JobType::ExpireCoupons => {
            assert("expire_coupons"@.len() != "build_campaign_audience"@.len());
            assert("expire_coupons"@[0] != "issue_campaign"@[0]);
            assert("expire_coupons"@.len() != "revoke_campaign"@.len());
        },
        JobType::ExecuteAdjustment => {
            assert("execute_adjustment"@.len() != "build_campaign_audience"@.len());
            assert("execute_adjustment"@.len() != "issue_campaign"@.len());
            assert("execute_adjustment"@.len() != "revoke_campaign"@.len());
            assert("execute_adjustment"@.len() != "expire_coupons"@.len());
        },
        JobType::NotifyEvent => {
            assert("notify_event"@.len() != "build_campaign_audience"@.len());
            assert("notify_event"@.len() != "issue_campaign"@.len());
            assert("notify_event"@.len() != "revoke_campaign"@.len());
            assert("notify_event"@.len() != "expire_coupons"@.len());
            assert("notify_event"@.len() != "execute_adjustment"@.len());
        },
        JobType::AggregateDailyStats => {
            assert("aggregate_daily_stats"@.len() != "build_campaign_audience"@.len());
            assert("aggregate_daily_stats"@.len() != "issue_campaign"@.len());
            assert("aggregate_daily_stats"@.len() != "revoke_campaign"@.len());
            assert("aggregate_daily_stats"@.len() != "expire_coupons"@.len());
            assert("aggregate_daily_stats"@.len() != "execute_adjustment"@.len());
            assert("aggregate_daily_stats"@.len() != "notify_event"@.len());
        },
        JobType::PurgeUserData => {
            assert("purge_user_data"@.len() != "build_campaign_audience"@.len());
            assert("purge_user_data"@.len() != "issue_campaign"@.len());
            assert("purge_user_data"@[0] != "revoke_campaign"@[0]);
            assert("purge_user_data"@.len() != "expire_coupons"@.len());
            assert("purge_user_data"@.len() != "execute_adjustment"@.len());
            assert("purge_user_data"@.len() != "notify_event"@.len());
            assert("purge_user_data"@.len() != "aggregate_daily_stats"@.len());
        },
    }
}

/// Every job status reads back from its stored spelling.
pub proof fn law_job_statuses_round_trip_through_their_stored_spelling(x: JobStatus)
    ensures
        job_status_from_text(job_status_text(x)) == x,
{
    reveal_strlit("PENDING_OUTBOX");
    reveal_strlit("PAUSE_REQUESTED");
    reveal_strlit("RUNNING");
    reveal_strlit("PAUSED");
    reveal_strlit("DEAD_LETTER");
    reveal_strlit("RETRY_WAIT");
    reveal_strlit("QUEUED");
    reveal_strlit("SUCCEEDED");
    reveal_strlit("CANCELLED");
    match x {
        JobStatus::PendingOutbox => {

        },
        JobStatus::Queued => {
            assert("QUEUED"@.len() != "PENDING_OUTBOX"@.len());
        },
        JobStatus::Running => {
            assert("RUNNING"@.len() != "PENDING_OUTBOX"@.len());
            assert("RUNNING"@.len() != "QUEUED"@.len());
        },
        JobStatus::RetryWait => {
            assert("RETRY_WAIT"@.len() != "PENDING_OUTBOX"@.len());
            assert("RETRY_WAIT"@.len() != "QUEUED"@.len());
            assert("RETRY_WAIT"@.len() != "RUNNING"@.len());
        },
        JobStatus::PauseRequested => {
            assert("PAUSE_REQUESTED"@.len() != "PENDING_OUTBOX"@.len());
            assert("PAUSE_REQUESTED"@.len() != "QUEUED"@.len());
            assert("PAUSE_REQUESTED"@.len() != "RUNNING"@.len());
            assert("PAUSE_REQUESTED"@.len() != "RETRY_WAIT"@.len());
        },
        JobStatus::Paused => {
            assert("PAUSED"@.len() != "PENDING_OUTBOX"@.len());
            assert("PAUSED"@[0] != "QUEUED"@[0]);
            assert("PAUSED"@.len() != "RUNNING"@.len());
            assert("PAUSED"@.len() != "RETRY_WAIT"@.len());
            assert("PAUSED"@.len() != "PAUSE_REQUESTED"@.len());
        },
        JobStatus::Succeeded => {
            assert("SUCCEEDED"@.len() != "PENDING_OUTBOX"@.len());
            assert("SUCCEEDED"@.len() != "QUEUED"@.len());
            assert("SUCCEEDED"@.len() != "RUNNING"@.len());
            assert("SUCCEEDED"@.len() != "RETRY_WAIT"@.len());
            assert("SUCCEEDED"@.len() != "PAUSE_REQUESTED"@.len());
            assert("SUCCEEDED"@.len() != "PAUSED"@.len());
        },
        JobStatus::DeadLetter => {
            assert("DEAD_LETTER"@.len() != "PENDING_OUTBOX"@.len());
            assert("DEAD_LETTER"@.len() != "QUEUED"@.len());
            assert("DEAD_LETTER"@.len() != "RUNNING"@.len());
            assert("DEAD_LETTER"@.len() != "RETRY_WAIT"@.len());
            assert("DEAD_LETTER"@.len() != "PAUSE_REQUESTED"@.len());
            assert("DEAD_LETTER"@.len() != "PAUSED"@.len());
            assert("DEAD_LETTER"@.len() != "SUCCEEDED"@.len());
            assert("DEAD_LETTER"@.len() != "CANCELLED"@.len());
        },
        JobStatus::Cancelled => {
            assert("CANCELLED"@.len() != "PENDING_OUTBOX"@.len());
            assert("CANCELLED"@.len() != "QUEUED"@.len());
            assert("CANCELLED"@.len() != "RUNNING"@.len());
            assert("CANCELLED"@.len() != "RETRY_WAIT"@.len());
            assert("CANCELLED"@.len() != "PAUSE_REQUESTED"@.len());
            assert("CANCELLED"@.len() != "PAUSED"@.len());
            assert("CANCELLED"@[0] != "SUCCEEDED"@[0]);
        },
    }
}

/// A job is either still in flight, holding its key, or settled for good; never both.
pub proof fn law_a_job_is_either_active_or_terminal(st: JobStatus)
    ensures
        status_is_active(st) != !status_is_active(st),
        status_is_active(st) <==> (st != JobStatus::Succeeded && st != JobStatus::DeadLetter && st != JobStatus::Cancelled),
{
}

/// The operation version makes a new run a new job: two generations of the same logical
/// job never share a key.
pub proof fn law_a_new_generation_is_a_new_job(t: JobType, tenant: Seq<char>, resource: Seq<char>, first: int, second: int)
    requires
        first != second,
    ensures
        key_text(t, tenant, resource, int_text(first)) != key_text(t, tenant, resource, int_text(second)),
{
    let a = key_text(t, tenant, resource, int_text(first));
    let b = key_text(t, tenant, resource, int_text(second));
    if a == b {
        let pre = job_type_text(t) + seq![':'] + tenant + seq![':'] + resource + seq![':'];
        assert(a =~= pre + int_text(first));
        assert(b =~= pre + int_text(second));
        assert(a.subrange(pre.len() as int, a.len() as int) =~= int_text(first));
        assert(b.subrange(pre.len() as int, b.len() as int) =~= int_text(second));
        lemma_int_text_injective(first, second);
    }
}

/// Jobs of different types never share a key, whatever the rest of the key holds.
pub proof fn law_different_job_types_never_share_a_key(
    a: JobType,
    tenant_a: Seq<char>,
    resource_a: Seq<char>,
    op_a: Seq<char>,
    b: JobType,
    tenant_b: Seq<char>,
    resource_b: Seq<char>,
    op_b: Seq<char>,
)
    requires
        a != b,
    ensures
        key_text(a, tenant_a, resource_a, op_a) != key_text(b, tenant_b, resource_b, op_b),
{
    reveal_strlit("build_campaign_audience");
    reveal_strlit("issue_campaign");
    reveal_strlit("revoke_campaign");
    reveal_strlit("expire_coupons");
    reveal_strlit("execute_adjustment");
    reveal_strlit("notify_event");
    reveal_strlit("aggregate_daily_stats");
    reveal_strlit("purge_user_data");
    let ka = key_text(a, tenant_a, resource_a, op_a);
    let kb = key_text(b, tenant_b, resource_b, op_b);
    assert(job_type_text(a).len() >= 3 && job_type_text(b).len() >= 3);
    assert(ka[0] == job_type_text(a)[0] && ka[2] == job_type_text(a)[2]);
    assert(kb[0] == job_type_text(b)[0] && kb[2] == job_type_text(b)[2]);
    assert(job_type_text(a)[0] != job_type_text(b)[0] || job_type_text(a)[2] != job_type_text(b)[2]);
}

} // verus!
