//! The decisions the job worker makes between database calls.

use vstd::prelude::*;

use crate::campaigns::{Campaign, CampaignStatus, IssueMode};
use crate::error::{code_text, ApiError, ErrorCode};
use crate::jobs::{JobControl, JobProgress};
use crate::notifications::delivery::DispatchOutcome;
use crate::notifications::NotificationEvent;
use crate::ident::{uuid_string, uuid_text};
use crate::notifications::templates::{with_entry, Variables};
use crate::text::{i64_string, int_text};
use crate::time::Duration;

verus! {

/// Why a campaign's state means an issuing run must stop for good, if it does.
pub open spec fn stop_reason_text(c: Campaign) -> Option<Seq<char>> {
    match c.status {
        CampaignStatus::Cancelled => Some("CAMPAIGN_CANCELLED"@),
        CampaignStatus::Ended => Some("CAMPAIGN_ENDED"@),
        CampaignStatus::Draft => Some("CAMPAIGN_NOT_PUBLISHED"@),
        _ => if c.issue_mode != IssueMode::Direct {
            Some("CAMPAIGN_NOT_DIRECT"@)
        } else {
            None
        },
    }
}

/// Whether a campaign's current state means the run must stop for good. A cancelled
/// campaign is a permanent failure; a paused one is not, because pausing is meant to be
/// resumed.
pub fn campaign_stop_reason(campaign: &Campaign) -> (r: Option<&'static str>)
    ensures
        match (r, stop_reason_text(*campaign)) {
            (Some(a), Some(b)) => a@ == b,
            (None, None) => true,
            _ => false,
        },
{
    match campaign.status {
        CampaignStatus::Cancelled => Some("CAMPAIGN_CANCELLED"),
        CampaignStatus::Ended => Some("CAMPAIGN_ENDED"),
        CampaignStatus::Draft => Some("CAMPAIGN_NOT_PUBLISHED"),
        CampaignStatus::Paused | CampaignStatus::Scheduled | CampaignStatus::Issuing => {
            if campaign.issue_mode != IssueMode::Direct {
                Some("CAMPAIGN_NOT_DIRECT")
            } else {
                None
            }
        },
    }
}

/// What an issuing run does with its next batch, judged on the campaign as read under
/// its lock before the batch.
#[derive(Debug, Clone, Copy, PartialEq, Eq)]
pub enum BatchStart {
    /// Stop for good, failing permanently with this reason.
    Stop(&'static str),
    /// Pause on this boundary, keeping the checkpoint, so a pause binds to the very next
    /// batch and nothing more is issued until the run is resumed.
    Pause,
    /// Issue the batch.
    Proceed,
}

/// The check an issuing run makes before every batch.
pub fn before_batch(campaign: &Campaign) -> (b: BatchStart)
    ensures
        match stop_reason_text(*campaign) {
            Some(reason) => b matches BatchStart::Stop(r) && r@ == reason,
            None => if campaign.status == CampaignStatus::Paused {
                b == BatchStart::Pause
            } else {
                b == BatchStart::Proceed
            },
        },
{
    match campaign_stop_reason(campaign) {
        Some(reason) => BatchStart::Stop(reason),
        None => {
            if campaign.status == CampaignStatus::Paused {
                BatchStart::Pause
            } else {
                BatchStart::Proceed
            }
        },
    }
}

/// Where a batched handler left off: the last id it processed, in the handler's stable
/// order, and how many batches it has committed.
#[derive(Debug, Clone, PartialEq, Eq)]
pub struct Checkpoint {
    pub after_id: Option<u128>,
    pub batches: i64,
    pub phase: Option<String>,
}

impl Default for Checkpoint {
    fn default() -> (c: Checkpoint)
        ensures
            c.after_id is None,
            c.batches == 0,
            c.phase is None,
    {
        Checkpoint { after_id: None, batches: 0, phase: None }
    }
}

impl Checkpoint {
    /// Record a committed batch whose last row was `last`.
    pub fn advance(&mut self, last: Option<u128>)
        requires
            old(self).batches < i64::MAX,
        ensures
            final(self).after_id == last,
            final(self).batches == old(self).batches + 1,
            final(self).phase == old(self).phase,
    {
        self.after_id = last;
        self.batches = self.batches + 1;
    }
}

/// What the heartbeat between two batches means for the handler: carry on, or stop on
/// this boundary with the control it was given.
pub fn stop_after_batch(control: JobControl) -> (r: Option<JobControl>)
    ensures
        r == (if control == JobControl::Continue { None } else { Some(control) }),
{
    match control {
        JobControl::Continue => None,
        other => Some(other),
    }
}

/// Whether the campaign's quotas leave room for one more coupon, counting what the
/// current batch has already issued: the total cap, and the business day's quantity when
/// the campaign has one.
pub open spec fn room_left(campaign_issued: int, batch_issued: int, cap: int, daily_issued: int, daily_limit: Option<i64>) -> bool {
    &&& campaign_issued + batch_issued < cap
    &&& match daily_limit {
        Some(d) => daily_issued + batch_issued < d,
        None => true,
    }
}

/// The quota check made before each member, because the counters move as the batch goes.
pub fn has_room(campaign_issued: i64, batch_issued: i64, cap: i64, daily_issued: i64, daily_limit: Option<i64>) -> (r: bool)
    ensures
        r == room_left(campaign_issued as int, batch_issued as int, cap as int, daily_issued as int, daily_limit),
{
    let committed = campaign_issued as i128 + batch_issued as i128;
    if committed >= cap as i128 {
        return false;
    }
    match daily_limit {
        Some(d) => daily_issued as i128 + (batch_issued as i128) < d as i128,
        None => true,
    }
}

/// A member who already holds everything the campaign allows one person is skipped.
pub fn per_user_exhausted(existing_count: i64, per_user_quantity: i32) -> (r: bool)
    ensures
        r == (existing_count >= per_user_quantity),
{
    existing_count >= per_user_quantity as i64
}

/// How one audience member is marked after the issuing step: `ISSUED`, `SKIPPED` or
/// `FAILED`, the coupon when one was made, and the reason when there is one.
#[derive(Debug, Clone, Copy, PartialEq, Eq)]
pub struct MemberMark {
    pub status: &'static str,
    pub coupon_id: Option<u128>,
    pub reason: Option<&'static str>,
}

/// The counts of an issuing batch: coupons made in it, and the job's progress.
#[derive(Debug, Clone, Copy, Default, PartialEq, Eq, Structural)]
pub struct IssueTally {
    pub issued: i64,
    pub progress: JobProgress,
}

impl IssueTally {
    pub fn new() -> (t: IssueTally)
        ensures
            t.issued == 0,
            t.progress == (JobProgress { processed: 0, succeeded: 0, failed: 0 }),
    {
        IssueTally { issued: 0, progress: JobProgress { processed: 0, succeeded: 0, failed: 0 } }
    }

    /// A member skipped for already holding the per-person allowance: processed, and
    /// neither a success nor a failure, since a resumed run sees this for every member
    /// the previous run reached.
    pub fn skip(&mut self) -> (m: MemberMark)
        requires
            old(self).progress.processed < i64::MAX,
        ensures
            m.status@ == "SKIPPED"@ && m.coupon_id is None && (m.reason matches Some(r) && r@ == "PER_USER_LIMIT"@),
            final(self).issued == old(self).issued,
            final(self).progress.processed == old(self).progress.processed + 1,
            final(self).progress.succeeded == old(self).progress.succeeded,
            final(self).progress.failed == old(self).progress.failed,
    {
        self.progress.processed = self.progress.processed + 1;
        MemberMark { status: "SKIPPED", coupon_id: None, reason: Some("PER_USER_LIMIT") }
    }

    /// Count the outcome of issuing to one member. A conflict means the coupon already
    /// exists, which is what a re-run of an interrupted job looks like, so it counts as a
    /// success without a new coupon; any other error fails this member only.
    pub fn record(&mut self, result: &Result<u128, ApiError>) -> (m: MemberMark)
        requires
            old(self).issued < i64::MAX,
            old(self).progress.processed < i64::MAX,
            old(self).progress.succeeded < i64::MAX,
            old(self).progress.failed < i64::MAX,
        ensures
            final(self).progress.processed == old(self).progress.processed + 1,
            match *result {
                Ok(id) => {
                    &&& m.status@ == "ISSUED"@ && m.coupon_id == Some(id) && m.reason is None
                    &&& final(self).issued == old(self).issued + 1
                    &&& final(self).progress.succeeded == old(self).progress.succeeded + 1
                    &&& final(self).progress.failed == old(self).progress.failed
                },
                Err(e) => if e.code == ErrorCode::Conflict {
                    &&& m.status@ == "ISSUED"@ && m.coupon_id is None
                    &&& m.reason matches Some(r) && r@ == "ALREADY_ISSUED"@
                    &&& final(self).issued == old(self).issued
                    &&& final(self).progress.succeeded == old(self).progress.succeeded + 1
                    &&& final(self).progress.failed == old(self).progress.failed
                } else {
                    &&& m.status@ == "FAILED"@ && m.coupon_id is None
                    &&& m.reason matches Some(r) && r@ == code_text(e.code)
                    &&& final(self).issued == old(self).issued
                    &&& final(self).progress.succeeded == old(self).progress.succeeded
                    &&& final(self).progress.failed == old(self).progress.failed + 1
                },
            },
    {
        self.progress.processed = self.progress.processed + 1;
        match result {
            Ok(id) => {
                self.issued = self.issued + 1;
                self.progress.succeeded = self.progress.succeeded + 1;
                MemberMark { status: "ISSUED", coupon_id: Some(*id), reason: None }
            },
            Err(e) => {
                if e.code == ErrorCode::Conflict {
                    self.progress.succeeded = self.progress.succeeded + 1;
                    MemberMark { status: "ISSUED", coupon_id: None, reason: Some("ALREADY_ISSUED") }
                } else {
                    self.progress.failed = self.progress.failed + 1;
                    MemberMark { status: "FAILED", coupon_id: None, reason: Some(e.code.as_str()) }
                }
            },
        }
    }
}

/// Why a revocation run must stop for good: the campaign no longer asks for its unused
/// coupons back.
pub fn revocation_stop_reason(revokes_unused: bool) -> (r: Option<&'static str>)
    ensures
        revokes_unused ==> r is None,
        !revokes_unused ==> (r matches Some(s) && s@ == "REVOCATION_WITHDRAWN"@),
{
    if revokes_unused {
        None
    } else {
        Some("REVOCATION_WITHDRAWN")
    }
}

/// The counts of a revocation batch: coupons taken back, and the job's progress. A
/// coupon that changed state under the batch is counted as a failure.
#[derive(Debug, Clone, Copy, Default, PartialEq, Eq, Structural)]
pub struct RevokeTally {
    pub revoked: i64,
    pub progress: JobProgress,
}

impl RevokeTally {
    pub fn new() -> (t: RevokeTally)
        ensures
            t.revoked == 0,
            t.progress == (JobProgress { processed: 0, succeeded: 0, failed: 0 }),
    {
        RevokeTally { revoked: 0, progress: JobProgress { processed: 0, succeeded: 0, failed: 0 } }
    }

    /// Count one coupon, `changed` when the update took it from an unused state.
    pub fn record(&mut self, changed: bool)
        requires
            old(self).revoked < i64::MAX,
            old(self).progress.processed < i64::MAX,
            old(self).progress.succeeded < i64::MAX,
            old(self).progress.failed < i64::MAX,
        ensures
            final(self).progress.processed == old(self).progress.processed + 1,
            changed ==> final(self).revoked == old(self).revoked + 1
                && final(self).progress.succeeded == old(self).progress.succeeded + 1
                && final(self).progress.failed == old(self).progress.failed,
            !changed ==> final(self).revoked == old(self).revoked
                && final(self).progress.succeeded == old(self).progress.succeeded
                && final(self).progress.failed == old(self).progress.failed + 1,
    {
        self.progress.processed = self.progress.processed + 1;
        if changed {
            self.revoked = self.revoked + 1;
            self.progress.succeeded = self.progress.succeeded + 1;
        } else {
            self.progress.failed = self.progress.failed + 1;
        }
    }
}

/// The campaign's issued and revoked counts after a batch revoked `batch` coupons: the
/// revoked count grows by the batch, and when the campaign frees the slots of revoked
/// coupons the issued count shrinks by it, never below zero.
pub fn revoked_counters(issued: i64, revoked: i64, batch: i64, restore_quantity: bool) -> (r: (i64, i64))
    requires
        batch >= 0,
        revoked + batch <= i64::MAX,
    ensures
        r.1 == revoked + batch,
        restore_quantity ==> r.0 == (if issued - batch > 0 { issued - batch } else { 0 }),
        !restore_quantity ==> r.0 == issued,
{
    let new_revoked = revoked + batch;
    if restore_quantity {
        let left = issued as i128 - batch as i128;
        (if left > 0 { left as i64 } else { 0 }, new_revoked)
    } else {
        (issued, new_revoked)
    }
}

/// Where a template variable's value comes from when an outbox event is relayed.
#[derive(Debug, Clone, Copy, PartialEq, Eq, Structural)]
pub enum PayloadValue {
    /// The payload field as text, only when it is a string; otherwise the variable is
    /// left unset.
    TextIfPresent,
    /// The payload field: a string as it stands, JSON null or absence as empty, any
    /// other value in its JSON form.
    Text,
    /// The payload field when it is a whole number that fits in `i64`, in decimal;
    /// empty otherwise.
    Number,
    /// The event's aggregate id, hyphenated.
    AggregateId,
    /// The relay time, in RFC 3339.
    RelayedAt,
}

/// One template variable of a relayed event: its name, the payload field it reads
/// (empty where it reads none) and how.
#[derive(Debug, Clone, Copy, PartialEq, Eq)]
pub struct VariableRule {
    pub name: &'static str,
    pub field: &'static str,
    pub value: PayloadValue,
}

pub open spec fn rule_view(r: VariableRule) -> (Seq<char>, Seq<char>, PayloadValue) {
    (r.name@, r.field@, r.value)
}

/// The variables each kind of event fills, in order; every kind starts with the store's
/// name, when the payload has one.
pub open spec fn variable_rules(kind: NotificationEvent) -> Seq<(Seq<char>, Seq<char>, PayloadValue)> {
    let store = seq![("store_name"@, "store_name"@, PayloadValue::TextIfPresent)];
    store + match kind {
        NotificationEvent::StampEarned => seq![
            ("quantity"@, "quantity"@, PayloadValue::Number),
            ("remaining"@, "remaining"@, PayloadValue::Number),
            ("expires_at"@, "expires_at"@, PayloadValue::Text),
        ],
        NotificationEvent::RewardIssued => seq![
            ("benefit"@, "benefit"@, PayloadValue::Text),
            ("expires_at"@, "expires_at"@, PayloadValue::Text),
        ],
        NotificationEvent::CouponIssued => seq![
            ("campaign_name"@, "campaign_name"@, PayloadValue::Text),
            ("benefit"@, "benefit"@, PayloadValue::Text),
            ("expires_at"@, "expires_at"@, PayloadValue::Text),
        ],
        NotificationEvent::CouponExpiring => seq![
            ("benefit"@, "benefit"@, PayloadValue::Text),
            ("days_left"@, "days_left"@, PayloadValue::Number),
            ("expires_at"@, "expires_at"@, PayloadValue::Text),
        ],
        NotificationEvent::CouponUsed => seq![
            ("used_at"@, "confirmed_at"@, PayloadValue::Text),
            ("discount_amount"@, "discount_amount"@, PayloadValue::Number),
            ("transaction_id"@, ""@, PayloadValue::AggregateId),
        ],
        NotificationEvent::TransactionVoided => seq![
            ("detail"@, "detail"@, PayloadValue::Text),
            ("restored"@, "restored"@, PayloadValue::Text),
        ],
        NotificationEvent::StoreSuspended | NotificationEvent::StoreClosed => seq![
            ("detail"@, "detail"@, PayloadValue::Text),
        ],
        NotificationEvent::SecurityAlert => seq![
            ("occurred_at"@, ""@, PayloadValue::RelayedAt),
            ("detail"@, "detail"@, PayloadValue::Text),
        ],
    }
}

fn rule(name: &'static str, field: &'static str, value: PayloadValue) -> (r: VariableRule)
    ensures
        rule_view(r) == (name@, field@, value),
{
    VariableRule { name, field, value }
}

/// The template variables a relayed event of this kind fills, and where each comes from.
pub fn event_variables(kind: NotificationEvent) -> (v: Vec<VariableRule>)
    ensures
        v@.map_values(|r: VariableRule| rule_view(r)) == variable_rules(kind),
{
    let mut v: Vec<VariableRule> = Vec::new();
    v.push(rule("store_name", "store_name", PayloadValue::TextIfPresent));
    match kind {
        NotificationEvent::StampEarned => {
            v.push(rule("quantity", "quantity", PayloadValue::Number));
            v.push(rule("remaining", "remaining", PayloadValue::Number));
            v.push(rule("expires_at", "expires_at", PayloadValue::Text));
        },
        NotificationEvent::RewardIssued => {
            v.push(rule("benefit", "benefit", PayloadValue::Text));
            v.push(rule("expires_at", "expires_at", PayloadValue::Text));
        },
        NotificationEvent::CouponIssued => {
            v.push(rule("campaign_name", "campaign_name", PayloadValue::Text));
            v.push(rule("benefit", "benefit", PayloadValue::Text));
            v.push(rule("expires_at", "expires_at", PayloadValue::Text));
        },
        NotificationEvent::CouponExpiring => {
            v.push(rule("benefit", "benefit", PayloadValue::Text));
            v.push(rule("days_left", "days_left", PayloadValue::Number));
            v.push(rule("expires_at", "expires_at", PayloadValue::Text));
        },
        NotificationEvent::CouponUsed => {
            v.push(rule("used_at", "confirmed_at", PayloadValue::Text));
            v.push(rule("discount_amount", "discount_amount", PayloadValue::Number));
            v.push(rule("transaction_id", "", PayloadValue::AggregateId));
        },
        NotificationEvent::TransactionVoided => {
            v.push(rule("detail", "detail", PayloadValue::Text));
            v.push(rule("restored", "restored", PayloadValue::Text));
        },
        NotificationEvent::StoreSuspended | NotificationEvent::StoreClosed => {
            v.push(rule("detail", "detail", PayloadValue::Text));
        },
        NotificationEvent::SecurityAlert => {
            v.push(rule("occurred_at", "", PayloadValue::RelayedAt));
            v.push(rule("detail", "detail", PayloadValue::Text));
        },
    }
    assert(v@.map_values(|r: VariableRule| rule_view(r)) =~= variable_rules(kind));
    v
}

/// One field of an outbox event's JSON payload, as the relay reads it.
#[derive(Debug, Clone, PartialEq, Eq)]
pub enum PayloadField {
    Absent,
    Null,
    Text(String),
    /// Any other value: its JSON text, and its value when it is a whole number that fits
    /// in `i64`.
    Other { json: String, integer: Option<i64> },
}

/// The value a rule gives its variable from the payload field it reads; `None` leaves
/// the variable unset.
pub open spec fn variable_value(rule: PayloadValue, field: PayloadField, aggregate_id: u128, relayed_at: Seq<char>) -> Option<Seq<char>> {
    match rule {
        PayloadValue::TextIfPresent => match field {
            PayloadField::Text(t) => Some(t@),
            _ => None,
        },
        PayloadValue::Text => match field {
            PayloadField::Text(t) => Some(t@),
            PayloadField::Other { json, .. } => Some(json@),
            _ => Some(Seq::empty()),
        },
        PayloadValue::Number => match field {
            PayloadField::Other { integer: Some(n), .. } => Some(int_text(n as int)),
            _ => Some(Seq::empty()),
        },
        PayloadValue::AggregateId => Some(uuid_text(aggregate_id)),
        PayloadValue::RelayedAt => Some(relayed_at),
    }
}

/// Fill one variable from its payload field.
pub fn fill_variable(rule: PayloadValue, field: &PayloadField, aggregate_id: u128, relayed_at: &str) -> (r: Option<String>)
    ensures
        match (r, variable_value(rule, *field, aggregate_id, relayed_at@)) {
            (Some(a), Some(b)) => a@ == b,
            (None, None) => true,
            _ => false,
        },
{
    match rule {
        PayloadValue::TextIfPresent => match field {
            PayloadField::Text(t) => Some(t.as_str().to_string()),
            _ => None,
        },
        PayloadValue::Text => match field {
            PayloadField::Text(t) => Some(t.as_str().to_string()),
            PayloadField::Other { json, .. } => Some(json.as_str().to_string()),
            _ => Some(String::new()),
        },
        PayloadValue::Number => match field {
            PayloadField::Other { integer: Some(n), .. } => Some(i64_string(*n)),
            _ => Some(String::new()),
        },
        PayloadValue::AggregateId => Some(uuid_string(aggregate_id)),
        PayloadValue::RelayedAt => Some(relayed_at.to_string()),
    }
}

/// The template variables the first `n` rules fill, from their fields in order.
pub open spec fn filled(
    rules: Seq<(Seq<char>, Seq<char>, PayloadValue)>,
    fields: Seq<PayloadField>,
    aggregate_id: u128,
    relayed_at: Seq<char>,
    n: int,
) -> Seq<(Seq<char>, Seq<char>)>
    decreases n,
{
    if n <= 0 {
        Seq::empty()
    } else {
        let before = filled(rules, fields, aggregate_id, relayed_at, n - 1);
        match variable_value(rules[n - 1].2, fields[n - 1], aggregate_id, relayed_at) {
            Some(v) => with_entry(before, rules[n - 1].0, v),
            None => before,
        }
    }
}

/// The template variables of a relayed event of this kind: `fields` holds the payload
/// field each of its rules reads, in the rules' order.
pub fn event_template_variables(
    kind: NotificationEvent,
    fields: &Vec<PayloadField>,
    aggregate_id: u128,
    relayed_at: &str,
) -> (v: Variables)
    requires
        fields@.len() == variable_rules(kind).len(),
    ensures
        v@ == filled(variable_rules(kind), fields@, aggregate_id, relayed_at@, variable_rules(kind).len() as int),
{
    let rules = event_variables(kind);
    let mut v = Variables::new();
    let mut i: usize = 0;
    while i < rules.len()
        invariant
            0 <= i <= rules@.len(),
            rules@.map_values(|r: VariableRule| rule_view(r)) == variable_rules(kind),
            fields@.len() == rules@.len(),
            v@ == filled(variable_rules(kind), fields@, aggregate_id, relayed_at@, i as int),
        decreases rules@.len() - i,
    {
        let rule = rules[i];
        assert(variable_rules(kind)[i as int] == rule_view(rule));
        match fill_variable(rule.value, &fields[i], aggregate_id, relayed_at) {
            Some(value) => v.insert(rule.name, value.as_str()),
            None => {},
        }
        i += 1;
    }
    v
}

/// What one dispatch of a notification job counts as, and how long to wait before the
/// job is offered again: every outcome but a permanent failure is the job doing its work,
/// a scheduled retry included, which is offered again after its delay.
pub fn notify_progress(outcome: &DispatchOutcome) -> (r: (JobProgress, Option<Duration>))
    ensures
        r.0.processed == 1,
        outcome is Failed ==> r.0.succeeded == 0 && r.0.failed == 1,
        !(outcome is Failed) ==> r.0.succeeded == 1 && r.0.failed == 0,
        match *outcome {
            DispatchOutcome::Retrying { after, .. } => r.1 == Some(after),
            _ => r.1 is None,
        },
{
    match outcome {
        DispatchOutcome::Failed { .. } => (JobProgress { processed: 1, succeeded: 0, failed: 1 }, None),
        DispatchOutcome::Retrying { after, .. } => (JobProgress { processed: 1, succeeded: 1, failed: 0 }, Some(*after)),
        _ => (JobProgress { processed: 1, succeeded: 1, failed: 0 }, None),
    }
}

} // verus!
