//! Delivery decisions: what a provider's answer, or its later callback, does to a
//! delivery.

use vstd::prelude::*;

use crate::http::concurrency::{all_digits, digits_value, header_chars, header_text, is_digit};
use crate::jobs::retry::{backoff_micros, RetryClass, RetryDecision};
use crate::jobs::RetryBudget;
use crate::notifications::providers::ProviderOutcome;
use crate::notifications::policy::{
    earliest_send_time, eligibility_of, evaluate, scheduled_send_time, ConsentSnapshot, Eligibility,
    NotificationPurpose, SuppressionReason, INSTANT_RANGE_MICROS,
};
use crate::notifications::{delivery_settled, DeliveryStatus, NotificationChannel};
use crate::text::{chars_of, trim_bounds, trimmed};
use crate::time::Duration;

verus! {

broadcast use vstd::seq_lib::group_seq_properties;

/// Sending a notification is retried at most five times.
pub const MAX_DELIVERY_ATTEMPTS: i32 = 5;

/// What one dispatch attempt did.
#[derive(Debug, Clone, PartialEq, Eq)]
pub enum DispatchOutcome {
    /// The provider accepted or delivered it.
    Sent { status: DeliveryStatus },
    /// Not sent, and not going to be.
    Suppressed { reason: SuppressionReason },
    /// Failed, and another attempt is scheduled.
    Retrying { after: Duration, code: String },
    /// Failed for good.
    Failed { code: String },
    /// The delivery had already settled; not an error.
    AlreadySettled { status: DeliveryStatus },
}

/// What recording a provider's callback did.
#[derive(Debug, Clone, Copy, PartialEq, Eq, Structural)]
pub enum CallbackOutcome {
    /// First time seen, and the delivery moved.
    Applied,
    /// Already seen; a callback's result is settled once.
    Duplicate,
    /// It names no delivery of ours, its signature failed, or the delivery had settled.
    Ignored,
}

/// ASCII letters upper-cased, everything else kept.
pub open spec fn ascii_upper(s: Seq<char>) -> Seq<char> {
    s.map_values(|c: char| if 'a' <= c && c <= 'z' { ((c as u32) - 32) as char } else { c })
}

/// The delivery status a provider's reported status means, whatever its letter case.
pub open spec fn reported_delivery_status(reported: Seq<char>) -> DeliveryStatus {
    let u = ascii_upper(reported);
    if u == "DELIVERED"@ || u == "SUCCESS"@ || u == "COMPLETED"@ {
        DeliveryStatus::Delivered
    } else if u == "FAILED"@ || u == "REJECTED"@ || u == "BOUNCED"@ {
        DeliveryStatus::FailedPermanent
    } else {
        DeliveryStatus::Sending
    }
}

fn upper_char(c: char) -> (u: char)
    ensures
        u == (if 'a' <= c && c <= 'z' { ((c as u32) - 32) as char } else { c }),
{
    if 'a' <= c && c <= 'z' {
        let n = (c as u32) - 32;
        assert(65 <= n <= 90);
        (n as u8) as char
    } else {
        c
    }
}

fn chars_equal_literal(a: &Vec<char>, b: &str) -> (r: bool)
    ensures
        r == (a@ == b@),
{
    let bv = chars_of(b);
    crate::text::chars_eq(a.as_slice(), bv.as_slice())
}

/// Map a provider's reported status onto the delivery statuses.
pub fn reported_status(reported: &str) -> (s: DeliveryStatus)
    ensures
        s == reported_delivery_status(reported@),
{
    let chars = chars_of(reported);
    let mut u: Vec<char> = Vec::new();
    let mut i: usize = 0;
    while i < chars.len()
        invariant
            0 <= i <= chars@.len(),
            chars@ == reported@,
            u@ == ascii_upper(chars@.take(i as int)),
        decreases chars@.len() - i,
    {
        u.push(upper_char(chars[i]));
        assert(ascii_upper(chars@.take(i + 1)) == ascii_upper(chars@.take(i as int)).push(u@.last()));
        i += 1;
    }
    assert(chars@.take(chars@.len() as int) == chars@);
    if chars_equal_literal(&u, "DELIVERED") || chars_equal_literal(&u, "SUCCESS") || chars_equal_literal(&u, "COMPLETED") {
        DeliveryStatus::Delivered
    } else if chars_equal_literal(&u, "FAILED") || chars_equal_literal(&u, "REJECTED") || chars_equal_literal(&u, "BOUNCED") {
        DeliveryStatus::FailedPermanent
    } else {
        DeliveryStatus::Sending
    }
}

/// What a callback does: a replay is recognised, a forged one is ignored (though kept as
/// evidence), one naming no delivery of ours is ignored, and a settled delivery is never
/// unsettled. Otherwise the delivery moves to the reported status.
pub open spec fn callback_effect(
    first_time: bool,
    signature_valid: bool,
    delivery: Option<DeliveryStatus>,
    reported: Seq<char>,
) -> (CallbackOutcome, Option<DeliveryStatus>) {
    if !first_time {
        (CallbackOutcome::Duplicate, None)
    } else if !signature_valid {
        (CallbackOutcome::Ignored, None)
    } else {
        match delivery {
            None => (CallbackOutcome::Ignored, None),
            Some(current) => if delivery_settled(current) {
                (CallbackOutcome::Ignored, None)
            } else {
                (CallbackOutcome::Applied, Some(reported_delivery_status(reported)))
            },
        }
    }
}

/// Decide a provider's callback: whether it was seen for the first time, whether its
/// signature held, the delivery it names (if any) and its reported status.
pub fn callback_decision(
    first_time: bool,
    signature_valid: bool,
    delivery: Option<DeliveryStatus>,
    reported: &str,
) -> (r: (CallbackOutcome, Option<DeliveryStatus>))
    ensures
        r == callback_effect(first_time, signature_valid, delivery, reported@),
{
    if !first_time {
        return (CallbackOutcome::Duplicate, None);
    }
    if !signature_valid {
        return (CallbackOutcome::Ignored, None);
    }
    match delivery {
        None => (CallbackOutcome::Ignored, None),
        Some(current) => {
            if current.is_terminal() {
                (CallbackOutcome::Ignored, None)
            } else {
                (CallbackOutcome::Applied, Some(reported_status(reported)))
            }
        },
    }
}

/// What a dispatch does with a delivery before any provider is called.
#[derive(Debug, Clone, Copy, PartialEq, Eq, Structural)]
pub enum SendDecision {
    /// Settled, or already handed to a provider: a second send would be a duplicate.
    AlreadySettled { status: DeliveryStatus },
    /// Not to be sent, for this reason.
    Suppress(SuppressionReason),
    /// Held back by the quiet hours; try again after this long.
    Wait { after: Duration },
    Send,
}

/// The first moment the purpose may be sent at `now` in a named zone.
pub open spec fn permitted_at(now: i64, zone: Seq<char>, purpose: NotificationPurpose) -> i64 {
    scheduled_send_time(now, zone, purpose)
}

/// The checks a dispatch makes, in order, on state it has just re-read: a settled or
/// handed-over delivery is left alone; one past its deadline is suppressed; consent is
/// judged now, not when the delivery was written; the quiet hours may have closed since it
/// was scheduled; and the pinned template must still be sendable.
pub open spec fn send_decision(
    status: DeliveryStatus,
    has_reference: bool,
    deliver_before: Option<i64>,
    now: i64,
    channel: NotificationChannel,
    purpose: NotificationPurpose,
    consent: ConsentSnapshot,
    zone: Seq<char>,
    template_sendable: Option<bool>,
) -> SendDecision {
    if delivery_settled(status) || (status == DeliveryStatus::Sending && has_reference) {
        SendDecision::AlreadySettled { status }
    } else if deliver_before matches Some(b) && now >= b {
        SendDecision::Suppress(SuppressionReason::ExpiredBeforeDelivery)
    } else if let Eligibility::Suppressed(reason) = eligibility_of(channel, purpose, consent) {
        SendDecision::Suppress(reason)
    } else if permitted_at(now, zone, purpose) > now {
        SendDecision::Wait { after: Duration { micros: (permitted_at(now, zone, purpose) - now) as i128 } }
    } else if template_sendable != Some(true) {
        SendDecision::Suppress(SuppressionReason::TemplateUnavailable)
    } else {
        SendDecision::Send
    }
}

/// Decide a dispatch. `zone` is the store's time zone when it has one (Seoul otherwise),
/// and `template_sendable` whether the pinned template version exists and may be sent.
pub fn dispatch_decision(
    status: DeliveryStatus,
    has_reference: bool,
    deliver_before: Option<i64>,
    now: i64,
    channel: NotificationChannel,
    purpose: NotificationPurpose,
    consent: &ConsentSnapshot,
    zone: Option<&str>,
    template_sendable: Option<bool>,
) -> (d: SendDecision)
    requires
        -INSTANT_RANGE_MICROS <= now <= INSTANT_RANGE_MICROS,
    ensures
        d == send_decision(
            status,
            has_reference,
            deliver_before,
            now,
            channel,
            purpose,
            *consent,
            match zone { Some(z) => z@, None => "Asia/Seoul"@ },
            template_sendable,
        ),
{
    if status.is_terminal() || (status == DeliveryStatus::Sending && has_reference) {
        return SendDecision::AlreadySettled { status };
    }
    if let Some(b) = deliver_before {
        if now >= b {
            return SendDecision::Suppress(SuppressionReason::ExpiredBeforeDelivery);
        }
    }
    if let Eligibility::Suppressed(reason) = evaluate(channel, purpose, consent) {
        return SendDecision::Suppress(reason);
    }
    let name = match zone {
        Some(z) => z,
        None => "Asia/Seoul",
    };
    let permitted = earliest_send_time(now, name, purpose);
    if permitted > now {
        return SendDecision::Wait { after: Duration { micros: permitted as i128 - now as i128 } };
    }
    match template_sendable {
        Some(true) => SendDecision::Send,
        _ => SendDecision::Suppress(SuppressionReason::TemplateUnavailable),
    }
}

/// The kind of answer a provider gave, without its details.
#[derive(Debug, Clone, Copy, PartialEq, Eq, Structural)]
pub enum OutcomeKind {
    Accepted,
    Delivered,
    Retryable,
    Permanent,
}

pub open spec fn outcome_kind(o: ProviderOutcome) -> OutcomeKind {
    match o {
        ProviderOutcome::Accepted { .. } => OutcomeKind::Accepted,
        ProviderOutcome::Delivered { .. } => OutcomeKind::Delivered,
        ProviderOutcome::RetryableFailure { .. } => OutcomeKind::Retryable,
        ProviderOutcome::PermanentFailure { .. } => OutcomeKind::Permanent,
    }
}

/// What a web push reports after one more device failed: once any device has failed in a
/// way worth retrying, the send stays retryable, since one dead device must not condemn a
/// send another could still take; otherwise the latest failure stands.
pub open spec fn kept_kind(best: Option<OutcomeKind>, latest: OutcomeKind) -> OutcomeKind {
    if best == Some(OutcomeKind::Retryable) {
        OutcomeKind::Retryable
    } else {
        latest
    }
}

/// The kind a web push reports after the devices' failures, in the order they were tried.
pub open spec fn settled_kind(failures: Seq<OutcomeKind>) -> Option<OutcomeKind>
    decreases failures.len(),
{
    if failures.len() == 0 {
        None
    } else {
        Some(kept_kind(settled_kind(failures.drop_last()), failures.last()))
    }
}

/// A device's answer ends the web push when it was taken.
pub fn ends_push(outcome: &ProviderOutcome) -> (r: bool)
    ensures
        r == (outcome is Accepted || outcome is Delivered),
{
    match outcome {
        ProviderOutcome::Accepted { .. } | ProviderOutcome::Delivered { .. } => true,
        _ => false,
    }
}

/// A device whose address the provider reports gone is never tried again.
pub fn retires_subscription(outcome: &ProviderOutcome) -> (r: bool)
    ensures
        r == (*outcome matches ProviderOutcome::PermanentFailure { recipient_gone, .. } && recipient_gone),
{
    match outcome {
        ProviderOutcome::PermanentFailure { recipient_gone, .. } => *recipient_gone,
        _ => false,
    }
}

/// Fold one more device's failure into what the web push will report.
pub fn keep_most_actionable(best: Option<ProviderOutcome>, latest: ProviderOutcome) -> (r: ProviderOutcome)
    ensures
        outcome_kind(r) == kept_kind(
            match best { Some(b) => Some(outcome_kind(b)), None => None },
            outcome_kind(latest),
        ),
        (best matches Some(ProviderOutcome::RetryableFailure { .. }) && !(latest is RetryableFailure))
            ==> (r matches ProviderOutcome::RetryableFailure { code, message, retry_after }
                && code@ == "PROVIDER_RETRY"@ && message@.len() == 0 && retry_after is None),
        !(best matches Some(ProviderOutcome::RetryableFailure { .. }) && !(latest is RetryableFailure)) ==> r == latest,
{
    let was_retryable = match &best {
        Some(ProviderOutcome::RetryableFailure { .. }) => true,
        _ => false,
    };
    let now_retryable = match &latest {
        ProviderOutcome::RetryableFailure { .. } => true,
        _ => false,
    };
    if was_retryable && !now_retryable {
        ProviderOutcome::RetryableFailure { code: "PROVIDER_RETRY".to_string(), message: String::new(), retry_after: None }
    } else {
        latest
    }
}

/// What a web push reports when no device took it: the folded failure, or, when no
/// device could even be tried, a permanent failure that marks the recipient gone.
/// `had_subscriptions` tells an account with no active subscription from one whose
/// subscriptions could none be used.
pub fn push_result(best: Option<ProviderOutcome>, had_subscriptions: bool) -> (r: ProviderOutcome)
    ensures
        best matches Some(b) ==> r == b,
        best is None ==> (r matches ProviderOutcome::PermanentFailure { code, message, recipient_gone }
            && code@ == "NO_ACTIVE_SUBSCRIPTION"@
            && recipient_gone
            && message@ == if had_subscriptions { "발송 가능한 구독이 없습니다."@ } else { "활성 푸시 구독이 없습니다."@ }),
{
    match best {
        Some(b) => b,
        None => ProviderOutcome::PermanentFailure {
            code: "NO_ACTIVE_SUBSCRIPTION".to_string(),
            message: if had_subscriptions {
                "발송 가능한 구독이 없습니다.".to_string()
            } else {
                "활성 푸시 구독이 없습니다.".to_string()
            },
            recipient_gone: true,
        },
    }
}

/// An Alimtalk for a recipient whose linked Kakao identity carries no phone number has
/// nobody to address: the delivery fails for good and marks the recipient gone.
pub fn no_alimtalk_recipient() -> (r: ProviderOutcome)
    ensures
        r matches ProviderOutcome::PermanentFailure { code, message, recipient_gone }
            && code@ == "RECIPIENT_UNREACHABLE"@
            && message@ == "알림톡을 보낼 연락처가 없습니다."@
            && recipient_gone,
{
    ProviderOutcome::PermanentFailure {
        code: "RECIPIENT_UNREACHABLE".to_string(),
        message: "알림톡을 보낼 연락처가 없습니다.".to_string(),
        recipient_gone: true,
    }
}

/// A web push that some device failed in a way worth retrying is retried, whatever the
/// other devices said; one that none did reports the last device's failure.
pub proof fn law_one_retryable_device_keeps_the_push_alive(failures: Seq<OutcomeKind>)
    ensures
        (exists|i: int| 0 <= i < failures.len() && failures[i] == OutcomeKind::Retryable)
            ==> settled_kind(failures) == Some(OutcomeKind::Retryable),
        failures.len() > 0 && (forall|i: int| 0 <= i < failures.len() ==> failures[i] != OutcomeKind::Retryable)
            ==> settled_kind(failures) == Some(failures.last()),
    decreases failures.len(),
{
    if failures.len() > 0 {
        let rest = failures.drop_last();
        law_one_retryable_device_keeps_the_push_alive(rest);
        if exists|i: int| 0 <= i < failures.len() && failures[i] == OutcomeKind::Retryable {
            let i = choose|i: int| 0 <= i < failures.len() && failures[i] == OutcomeKind::Retryable;
            if i < failures.len() - 1 {
                assert(rest[i] == OutcomeKind::Retryable);
            }
        }
        if forall|i: int| 0 <= i < failures.len() ==> failures[i] != OutcomeKind::Retryable {
            assert forall|i: int| 0 <= i < rest.len() implies rest[i] != OutcomeKind::Retryable by {
                assert(rest[i] == failures[i]);
            }
            if rest.len() > 0 {
                assert(settled_kind(rest) == Some(rest.last()));
                assert(rest.last() == failures[rest.len() - 1]);
            }
        }
    }
}

/// A delivery is only ever sent when it is still open and not already with a provider,
/// before its deadline, allowed by the consent as it stands now, outside the quiet hours
/// for its purpose, and on a template that may be sent.
pub proof fn law_a_send_needs_every_check_to_pass(
    status: DeliveryStatus,
    has_reference: bool,
    deliver_before: Option<i64>,
    now: i64,
    channel: NotificationChannel,
    purpose: NotificationPurpose,
    consent: ConsentSnapshot,
    zone: Seq<char>,
    template_sendable: Option<bool>,
)
    requires
        send_decision(status, has_reference, deliver_before, now, channel, purpose, consent, zone, template_sendable)
            == SendDecision::Send,
    ensures
        !delivery_settled(status),
        !(status == DeliveryStatus::Sending && has_reference),
        !(deliver_before matches Some(b) && now >= b),
        eligibility_of(channel, purpose, consent) == Eligibility::Allowed,
        permitted_at(now, zone, purpose) <= now,
        template_sendable == Some(true),
{
}

/// What a provider's answer does to the delivery.
#[derive(Debug, Clone, PartialEq, Eq)]
pub enum Settlement {
    /// Record `status`, with the provider's reference when it gave one, under `label`,
    /// and the error when the send failed.
    Settle { status: DeliveryStatus, reference: Option<String>, label: &'static str, error: Option<(String, String)> },
    /// Try again after `after`.
    Retry { after: Duration, code: String, message: String },
}

/// `Retry-After` in whole seconds: an optional `+` and digits, in range.
pub open spec fn parsed_u64(s: Seq<char>) -> Option<u64> {
    let body = if s.len() > 0 && s[0] == '+' { s.drop_first() } else { s };
    if all_digits(body) && digits_value(body) <= u64::MAX {
        Some(digits_value(body) as u64)
    } else {
        None
    }
}

/// `str::parse::<u64>` on characters.
pub fn parse_u64(s: &[char]) -> (r: Option<u64>)
    ensures
        r == parsed_u64(s@),
{
    let n = s.len();
    let signed = n > 0 && s[0] == '+';
    let start: usize = if signed { 1 } else { 0 };
    let ghost body = if signed { s@.drop_first() } else { s@ };
    assert(body == s@.subrange(start as int, n as int));
    if start >= n {
        return None;
    }
    let limit: u128 = 18_446_744_073_709_551_615;
    let mut acc: u128 = 0;
    let mut over = false;
    let mut i = start;
    while i < n
        invariant
            start <= i <= n == s@.len(),
            body == s@.subrange(start as int, n as int),
            body == (if s@.len() > 0 && s@[0] == '+' { s@.drop_first() } else { s@ }),
            limit == u64::MAX,
            forall|k: int| start <= k < i ==> is_digit(#[trigger] s@[k]),
            !over ==> acc == digits_value(body.take(i - start)) && acc <= limit,
            over ==> digits_value(body.take(i - start)) > limit,
        decreases n - i,
    {
        let c = s[i];
        if !('0' <= c && c <= '9') {
            proof {
                assert(body[i - start] == s@[i as int]);
                assert(!is_digit(body[i - start]));
                assert(!all_digits(body));
            }
            return None;
        }
        proof {
            let t = body.take(i + 1 - start);
            assert(t.drop_last() == body.take(i - start));
            assert(t.last() == c);
        }
        let d = (c as u32 - '0' as u32) as u128;
        if !over {
            let next = acc * 10 + d;
            if next > limit {
                over = true;
            } else {
                acc = next;
            }
        }
        i += 1;
    }
    proof {
        assert(body.take(n - start) == body);
        assert forall|k: int| 0 <= k < body.len() implies is_digit(#[trigger] body[k]) by {
            assert(body[k] == s@[k + start]);
        }
    }
    if over {
        return None;
    }
    Some(acc as u64)
}

/// A `Retry-After` header value read as a delay in seconds.
pub fn retry_after(raw: Option<&[u8]>) -> (d: Option<Duration>)
    ensures
        match match raw { Some(b) => header_text(b@), None => None } {
            None => d is None,
            Some(text) => match parsed_u64(trimmed(text)) {
                Some(secs) => d matches Some(x) && x.micros == secs * 1_000_000,
                None => d is None,
            },
        },
{
    let bytes = match raw {
        None => {
            return None;
        },
        Some(b) => b,
    };
    let text = match header_chars(bytes) {
        None => {
            return None;
        },
        Some(t) => t,
    };
    let (a, b) = trim_bounds(text.as_slice());
    let value = crate::http::concurrency::copy_range(&text, a, b);
    match parse_u64(value.as_slice()) {
        Some(secs) => Some(Duration::from_secs(secs)),
        None => None,
    }
}

/// The jittered delay of the attempt after `attempt_count`.
pub open spec fn next_backoff(attempt_count: i32, j: int) -> int {
    backoff_micros(attempt_count + 1, j)
}

/// What a provider's outcome does to a delivery that had been attempted
/// `attempt_count` times under a budget of `max_attempts`: an acceptance leaves it
/// sending, a delivery settles it, a permanent failure fails it, and a retryable failure
/// is retried (on the provider's schedule when it gave one) until the budget is spent.
pub open spec fn settled_by(o: ProviderOutcome, attempt_count: i32, max_attempts: i32, s: Settlement) -> bool {
    match o {
        ProviderOutcome::Accepted { provider_reference } => settles_as(s, DeliveryStatus::Sending, Some(provider_reference@), "ACCEPTED"@, None),
        ProviderOutcome::Delivered { provider_reference } => settles_as(s, DeliveryStatus::Delivered, Some(provider_reference@), "DELIVERED"@, None),
        ProviderOutcome::PermanentFailure { code, message, .. } => settles_as(s, DeliveryStatus::FailedPermanent, None, "PERMANENT"@, Some((code@, message@))),
        ProviderOutcome::RetryableFailure { code, message, retry_after } => {
            if attempt_count + 1 >= max_attempts {
                settles_as(s, DeliveryStatus::FailedPermanent, None, "RETRIES_EXHAUSTED"@, Some((code@, message@)))
            } else {
                match s {
                    Settlement::Retry { after, code: c, message: m } => {
                        &&& c@ == code@
                        &&& m@ == message@
                        &&& match retry_after {
                            Some(ra) => after.micros == (if ra.micros / 1_000_000 * 1_000_000 <= 1_800_000_000 {
                                ra.micros / 1_000_000 * 1_000_000
                            } else {
                                1_800_000_000
                            }),
                            None => exists|j: int| -1000 <= j <= 1000 && after.micros == #[trigger] next_backoff(attempt_count, j),
                        }
                    },
                    _ => false,
                }
            }
        },
    }
}

/// `s` settles the delivery as `status`, with `reference`, under `label`, with `error`.
pub open spec fn settles_as(
    s: Settlement,
    status: DeliveryStatus,
    reference: Option<Seq<char>>,
    label: Seq<char>,
    error: Option<(Seq<char>, Seq<char>)>,
) -> bool {
    match s {
        Settlement::Settle { status: st, reference: rf, label: lb, error: er } => {
            &&& st == status
            &&& match (rf, reference) {
                (Some(a), Some(b)) => a@ == b,
                (None, None) => true,
                _ => false,
            }
            &&& lb@ == label
            &&& match (er, error) {
                (Some(a), Some(b)) => a.0@ == b.0 && a.1@ == b.1,
                (None, None) => true,
                _ => false,
            }
        },
        _ => false,
    }
}

/// Turn a provider's answer into what happens to the delivery.
pub fn provider_settlement(outcome: ProviderOutcome, attempt_count: i32, max_attempts: i32) -> (s: Settlement)
    requires
        attempt_count < i32::MAX,
        outcome matches ProviderOutcome::RetryableFailure { retry_after: Some(ra), .. } ==> 0 <= ra.micros <= u64::MAX,
    ensures
        settled_by(outcome, attempt_count, max_attempts, s),
{
    match outcome {
        ProviderOutcome::Accepted { provider_reference } => Settlement::Settle {
            status: DeliveryStatus::Sending,
            reference: Some(provider_reference),
            label: "ACCEPTED",
            error: None,
        },
        ProviderOutcome::Delivered { provider_reference } => Settlement::Settle {
            status: DeliveryStatus::Delivered,
            reference: Some(provider_reference),
            label: "DELIVERED",
            error: None,
        },
        ProviderOutcome::PermanentFailure { code, message, .. } => Settlement::Settle {
            status: DeliveryStatus::FailedPermanent,
            reference: None,
            label: "PERMANENT",
            error: Some((code, message)),
        },
        ProviderOutcome::RetryableFailure { code, message, retry_after } => {
            let class = match retry_after {
                Some(after) => RetryClass::ProviderThrottled { retry_after_secs: (after.micros / 1_000_000) as u64 },
                None => RetryClass::Transient,
            };
            let budget = RetryBudget::Limited(max_attempts);
            let decision = class.decide(attempt_count + 1, budget);
            match decision {
                RetryDecision::Retry { after } => {
                    proof {
                        if retry_after is None {
                            let n = (attempt_count + 1) as i32;
                            let j = choose|j: int| -1000 <= j <= 1000 && crate::jobs::retry::decision_of(
                                class,
                                n,
                                budget,
                                backoff_micros(n as int, j),
                            ) == Some(after.micros as int);
                            assert(after.micros == next_backoff(attempt_count, j));
                        }
                    }
                    Settlement::Retry { after, code, message }
                },
                RetryDecision::DeadLetter => Settlement::Settle {
                    status: DeliveryStatus::FailedPermanent,
                    reference: None,
                    label: "RETRIES_EXHAUSTED",
                    error: Some((code, message)),
                },
            }
        },
    }
}

/// What the dispatch reports for a settlement.
pub fn dispatch_outcome(s: &Settlement) -> (d: DispatchOutcome)
    ensures
        match *s {
            Settlement::Settle { status, error, .. } => match error {
                Some(e) => d matches DispatchOutcome::Failed { code } && code@ == e.0@,
                None => d == DispatchOutcome::Sent { status },
            },
            Settlement::Retry { after, code, .. } => d matches DispatchOutcome::Retrying { after: a, code: c } && a == after && c@ == code@,
        },
{
    match s {
        Settlement::Settle { status, error, .. } => match error {
            Some(e) => DispatchOutcome::Failed { code: e.0.as_str().to_string() },
            None => DispatchOutcome::Sent { status: *status },
        },
        Settlement::Retry { after, code, .. } => DispatchOutcome::Retrying { after: *after, code: code.as_str().to_string() },
    }
}

/// A callback never unsettles a delivery, a replayed one is recognised and changes
/// nothing, and a forged one changes nothing either.
pub proof fn law_a_callback_is_applied_at_most_once_and_never_unsettles(
    first_time: bool,
    signature_valid: bool,
    delivery: Option<DeliveryStatus>,
    reported: Seq<char>,
)
    ensures
        !first_time ==> callback_effect(first_time, signature_valid, delivery, reported) == (CallbackOutcome::Duplicate, None::<DeliveryStatus>),
        !signature_valid ==> callback_effect(first_time, signature_valid, delivery, reported).1 is None,
        delivery matches Some(s) && delivery_settled(s) ==> callback_effect(first_time, signature_valid, delivery, reported).1 is None,
        callback_effect(first_time, signature_valid, delivery, reported).0 == CallbackOutcome::Applied
            ==> first_time && signature_valid && (delivery matches Some(s) && !delivery_settled(s)),
{
}

} // verus!
