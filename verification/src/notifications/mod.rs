//! Notifications: what a customer is told, on which channel, and when.
//!
//! Every event produces an in-app record; external channels are attempted only where
//! the purpose, the recipient's consent, an approved template and the quiet hours allow,
//! and each channel that is not used records why.

use vstd::prelude::*;

use crate::error::{fields_view, ApiError, ErrorCode, FieldError};
use crate::ident::{lemma_uuid_text_injective, uuid_string, uuid_text};
use crate::jobs::{job_key_text, key_text, JobKey, JobType};
use crate::notifications::policy::{
    earliest_send_time, eligibility_of, scheduled_send_time, ConsentSnapshot,
    Eligibility, NotificationPurpose, SuppressionReason, INSTANT_RANGE_MICROS,
};
use crate::text::{chars_of, i64_chars, int_text, lemma_int_text_injective, is_blank, is_blank_str, push_char, push_str, str_eq, string_of};
use crate::validation::{check_length, check_optional_length, length_issue, optional_length_issue, verdict, verdict_of};

pub mod delivery;
pub mod policy;
pub mod providers;
pub mod routes;
pub mod templates;

verus! {

/// A delivery channel.
#[derive(Debug, Clone, Copy, PartialEq, Eq, Structural)]
pub enum NotificationChannel {
    InApp,
    FcmWebPush,
    KakaoAlimtalk,
}

pub open spec fn channel_text(x: NotificationChannel) -> Seq<char> {
    match x {
        NotificationChannel::InApp => "IN_APP"@,
        NotificationChannel::FcmWebPush => "FCM_WEB_PUSH"@,
        NotificationChannel::KakaoAlimtalk => "KAKAO_ALIMTALK"@,
    }
}

pub open spec fn channel_token(x: NotificationChannel) -> Seq<char> {
    match x {
        NotificationChannel::InApp => "inapp"@,
        NotificationChannel::FcmWebPush => "fcm"@,
        NotificationChannel::KakaoAlimtalk => "alimtalk"@,
    }
}

pub open spec fn channel_from_text(raw: Seq<char>) -> Option<NotificationChannel> {
    if raw == "IN_APP"@ {
        Some(NotificationChannel::InApp)
    } else if raw == "FCM_WEB_PUSH"@ {
        Some(NotificationChannel::FcmWebPush)
    } else if raw == "KAKAO_ALIMTALK"@ {
        Some(NotificationChannel::KakaoAlimtalk)
    } else {
        None
    }
}

impl NotificationChannel {
    pub fn as_db(self) -> (s: &'static str)
        ensures
            s@ == channel_text(self),
    {
        match self {
            NotificationChannel::InApp => "IN_APP",
            NotificationChannel::FcmWebPush => "FCM_WEB_PUSH",
            NotificationChannel::KakaoAlimtalk => "KAKAO_ALIMTALK",
        }
    }

    pub fn from_db(raw: &str) -> (r: Option<NotificationChannel>)
        ensures
            r == channel_from_text(raw@),
    {
        if str_eq(raw, "IN_APP") {
            Some(NotificationChannel::InApp)
        } else if str_eq(raw, "FCM_WEB_PUSH") {
            Some(NotificationChannel::FcmWebPush)
        } else if str_eq(raw, "KAKAO_ALIMTALK") {
            Some(NotificationChannel::KakaoAlimtalk)
        } else {
            None
        }
    }

    /// The short form used in a job's unique key.
    pub fn key_token(self) -> (s: &'static str)
        ensures
            s@ == channel_token(self),
    {
        match self {
            NotificationChannel::InApp => "inapp",
            NotificationChannel::FcmWebPush => "fcm",
            NotificationChannel::KakaoAlimtalk => "alimtalk",
        }
    }

}

/// Where one delivery stands.
#[derive(Debug, Clone, Copy, PartialEq, Eq, Structural)]
pub enum DeliveryStatus {
    Pending,
    Sending,
    Delivered,
    FailedRetryable,
    FailedPermanent,
    Suppressed,
}

pub open spec fn delivery_status_text(x: DeliveryStatus) -> Seq<char> {
    match x {
        DeliveryStatus::Pending => "PENDING"@,
        DeliveryStatus::Sending => "SENDING"@,
        DeliveryStatus::Delivered => "DELIVERED"@,
        DeliveryStatus::FailedRetryable => "FAILED_RETRYABLE"@,
        DeliveryStatus::FailedPermanent => "FAILED_PERMANENT"@,
        DeliveryStatus::Suppressed => "SUPPRESSED"@,
    }
}

pub open spec fn delivery_status_from_text(raw: Seq<char>) -> DeliveryStatus {
    if raw == "SENDING"@ {
        DeliveryStatus::Sending
    } else if raw == "DELIVERED"@ {
        DeliveryStatus::Delivered
    } else if raw == "FAILED_RETRYABLE"@ {
        DeliveryStatus::FailedRetryable
    } else if raw == "FAILED_PERMANENT"@ {
        DeliveryStatus::FailedPermanent
    } else if raw == "SUPPRESSED"@ {
        DeliveryStatus::Suppressed
    } else {
        DeliveryStatus::Pending
    }
}

/// Whether nothing further will happen to a delivery. A retryable failure is a waiting
/// state between attempts, not an outcome.
pub open spec fn delivery_settled(s: DeliveryStatus) -> bool {
    s == DeliveryStatus::Delivered || s == DeliveryStatus::FailedPermanent || s == DeliveryStatus::Suppressed
}

impl DeliveryStatus {
    pub fn as_db(self) -> (s: &'static str)
        ensures
            s@ == delivery_status_text(self),
    {
        match self {
            DeliveryStatus::Pending => "PENDING",
            DeliveryStatus::Sending => "SENDING",
            DeliveryStatus::Delivered => "DELIVERED",
            DeliveryStatus::FailedRetryable => "FAILED_RETRYABLE",
            DeliveryStatus::FailedPermanent => "FAILED_PERMANENT",
            DeliveryStatus::Suppressed => "SUPPRESSED",
        }
    }

    /// Anything unrecognised reads as pending.
    pub fn from_db(raw: &str) -> (r: DeliveryStatus)
        ensures
            r == delivery_status_from_text(raw@),
    {
        if str_eq(raw, "SENDING") {
            DeliveryStatus::Sending
        } else if str_eq(raw, "DELIVERED") {
            DeliveryStatus::Delivered
        } else if str_eq(raw, "FAILED_RETRYABLE") {
            DeliveryStatus::FailedRetryable
        } else if str_eq(raw, "FAILED_PERMANENT") {
            DeliveryStatus::FailedPermanent
        } else if str_eq(raw, "SUPPRESSED") {
            DeliveryStatus::Suppressed
        } else {
            DeliveryStatus::Pending
        }
    }

    pub fn is_terminal(self) -> (r: bool)
        ensures
            r == delivery_settled(self),
    {
        match self {
            DeliveryStatus::Delivered | DeliveryStatus::FailedPermanent | DeliveryStatus::Suppressed => true,
            _ => false,
        }
    }
}

/// The events a customer is told about.
#[derive(Debug, Clone, Copy, PartialEq, Eq, Structural)]
pub enum NotificationEvent {
    StampEarned,
    RewardIssued,
    CouponIssued,
    CouponExpiring,
    CouponUsed,
    TransactionVoided,
    StoreSuspended,
    StoreClosed,
    SecurityAlert,
}

pub open spec fn event_code_text(x: NotificationEvent) -> Seq<char> {
    match x {
        NotificationEvent::StampEarned => "STAMP_EARNED"@,
        NotificationEvent::RewardIssued => "REWARD_ISSUED"@,
        NotificationEvent::CouponIssued => "COUPON_ISSUED"@,
        NotificationEvent::CouponExpiring => "COUPON_EXPIRING"@,
        NotificationEvent::CouponUsed => "COUPON_USED"@,
        NotificationEvent::TransactionVoided => "TRANSACTION_VOIDED"@,
        NotificationEvent::StoreSuspended => "STORE_SUSPENDED"@,
        NotificationEvent::StoreClosed => "STORE_CLOSED"@,
        NotificationEvent::SecurityAlert => "SECURITY_ALERT"@,
    }
}

pub open spec fn event_from_code(raw: Seq<char>) -> Option<NotificationEvent> {
    if raw == "STAMP_EARNED"@ {
        Some(NotificationEvent::StampEarned)
    } else if raw == "REWARD_ISSUED"@ {
        Some(NotificationEvent::RewardIssued)
    } else if raw == "COUPON_ISSUED"@ {
        Some(NotificationEvent::CouponIssued)
    } else if raw == "COUPON_EXPIRING"@ {
        Some(NotificationEvent::CouponExpiring)
    } else if raw == "COUPON_USED"@ {
        Some(NotificationEvent::CouponUsed)
    } else if raw == "TRANSACTION_VOIDED"@ {
        Some(NotificationEvent::TransactionVoided)
    } else if raw == "STORE_SUSPENDED"@ {
        Some(NotificationEvent::StoreSuspended)
    } else if raw == "STORE_CLOSED"@ {
        Some(NotificationEvent::StoreClosed)
    } else if raw == "SECURITY_ALERT"@ {
        Some(NotificationEvent::SecurityAlert)
    } else {
        None
    }
}

pub open spec fn event_from_outbox(raw: Seq<char>) -> Option<NotificationEvent> {
    if raw == "STAMP_EARNED"@ {
        Some(NotificationEvent::StampEarned)
    } else if raw == "REWARD_ISSUED"@ {
        Some(NotificationEvent::RewardIssued)
    } else if raw == "CAMPAIGN_COUPON_ISSUED"@ {
        Some(NotificationEvent::CouponIssued)
    } else if raw == "COUPON_EXPIRING"@ {
        Some(NotificationEvent::CouponExpiring)
    } else if raw == "COUPON_REDEEMED"@ {
        Some(NotificationEvent::CouponUsed)
    } else if raw == "TRANSACTION_VOIDED"@ {
        Some(NotificationEvent::TransactionVoided)
    } else if raw == "REDEMPTION_VOIDED"@ {
        Some(NotificationEvent::TransactionVoided)
    } else if raw == "STORE_SUSPENDED"@ {
        Some(NotificationEvent::StoreSuspended)
    } else if raw == "STORE_CLOSED"@ {
        Some(NotificationEvent::StoreClosed)
    } else if raw == "SECURITY_ALERT"@ {
        Some(NotificationEvent::SecurityAlert)
    } else {
        None
    }
}

/// Each event's purpose. An expiry warning about a benefit the customer already holds is
/// service information; a new campaign's coupon is marketing.
pub open spec fn event_purpose(e: NotificationEvent) -> NotificationPurpose {
    match e {
        NotificationEvent::StampEarned | NotificationEvent::RewardIssued | NotificationEvent::CouponUsed
        | NotificationEvent::TransactionVoided => NotificationPurpose::Transactional,
        NotificationEvent::CouponExpiring | NotificationEvent::StoreSuspended
        | NotificationEvent::StoreClosed => NotificationPurpose::Informational,
        NotificationEvent::CouponIssued => NotificationPurpose::Marketing,
        NotificationEvent::SecurityAlert => NotificationPurpose::Security,
    }
}

pub open spec fn event_priority(e: NotificationEvent) -> Seq<char> {
    match e {
        NotificationEvent::SecurityAlert => "URGENT"@,
        NotificationEvent::RewardIssued | NotificationEvent::CouponUsed | NotificationEvent::TransactionVoided
        | NotificationEvent::StoreSuspended | NotificationEvent::StoreClosed => "HIGH"@,
        _ => "NORMAL"@,
    }
}

/// The external channels attempted for an event. Store status changes stay in the app.
pub open spec fn event_channels(e: NotificationEvent) -> Seq<NotificationChannel> {
    match e {
        NotificationEvent::StoreSuspended | NotificationEvent::StoreClosed => Seq::empty(),
        _ => seq![NotificationChannel::FcmWebPush, NotificationChannel::KakaoAlimtalk],
    }
}

impl NotificationEvent {
    /// The template code, also stored as the notification's type.
    pub fn code(self) -> (s: &'static str)
        ensures
            s@ == event_code_text(self),
    {
        match self {
            NotificationEvent::StampEarned => "STAMP_EARNED",
            NotificationEvent::RewardIssued => "REWARD_ISSUED",
            NotificationEvent::CouponIssued => "COUPON_ISSUED",
            NotificationEvent::CouponExpiring => "COUPON_EXPIRING",
            NotificationEvent::CouponUsed => "COUPON_USED",
            NotificationEvent::TransactionVoided => "TRANSACTION_VOIDED",
            NotificationEvent::StoreSuspended => "STORE_SUSPENDED",
            NotificationEvent::StoreClosed => "STORE_CLOSED",
            NotificationEvent::SecurityAlert => "SECURITY_ALERT",
        }
    }

    pub fn from_code(raw: &str) -> (r: Option<NotificationEvent>)
        ensures
            r == event_from_code(raw@),
    {
        if str_eq(raw, "STAMP_EARNED") {
            Some(NotificationEvent::StampEarned)
        } else if str_eq(raw, "REWARD_ISSUED") {
            Some(NotificationEvent::RewardIssued)
        } else if str_eq(raw, "COUPON_ISSUED") {
            Some(NotificationEvent::CouponIssued)
        } else if str_eq(raw, "COUPON_EXPIRING") {
            Some(NotificationEvent::CouponExpiring)
        } else if str_eq(raw, "COUPON_USED") {
            Some(NotificationEvent::CouponUsed)
        } else if str_eq(raw, "TRANSACTION_VOIDED") {
            Some(NotificationEvent::TransactionVoided)
        } else if str_eq(raw, "STORE_SUSPENDED") {
            Some(NotificationEvent::StoreSuspended)
        } else if str_eq(raw, "STORE_CLOSED") {
            Some(NotificationEvent::StoreClosed)
        } else if str_eq(raw, "SECURITY_ALERT") {
            Some(NotificationEvent::SecurityAlert)
        } else {
            None
        }
    }

    /// The domain event names the outbox carries; both reversal events are a voided transaction to the customer.
    pub fn from_outbox_event(raw: &str) -> (r: Option<NotificationEvent>)
        ensures
            r == event_from_outbox(raw@),
    {
        if str_eq(raw, "STAMP_EARNED") {
            Some(NotificationEvent::StampEarned)
        } else if str_eq(raw, "REWARD_ISSUED") {
            Some(NotificationEvent::RewardIssued)
        } else if str_eq(raw, "CAMPAIGN_COUPON_ISSUED") {
            Some(NotificationEvent::CouponIssued)
        } else if str_eq(raw, "COUPON_EXPIRING") {
            Some(NotificationEvent::CouponExpiring)
        } else if str_eq(raw, "COUPON_REDEEMED") {
            Some(NotificationEvent::CouponUsed)
        } else if str_eq(raw, "TRANSACTION_VOIDED") {
            Some(NotificationEvent::TransactionVoided)
        } else if str_eq(raw, "REDEMPTION_VOIDED") {
            Some(NotificationEvent::TransactionVoided)
        } else if str_eq(raw, "STORE_SUSPENDED") {
            Some(NotificationEvent::StoreSuspended)
        } else if str_eq(raw, "STORE_CLOSED") {
            Some(NotificationEvent::StoreClosed)
        } else if str_eq(raw, "SECURITY_ALERT") {
            Some(NotificationEvent::SecurityAlert)
        } else {
            None
        }
    }

    pub fn purpose(self) -> (p: NotificationPurpose)
        ensures
            p == event_purpose(self),
    {
        match self {
            NotificationEvent::StampEarned | NotificationEvent::RewardIssued | NotificationEvent::CouponUsed
            | NotificationEvent::TransactionVoided => NotificationPurpose::Transactional,
            NotificationEvent::CouponExpiring | NotificationEvent::StoreSuspended
            | NotificationEvent::StoreClosed => NotificationPurpose::Informational,
            NotificationEvent::CouponIssued => NotificationPurpose::Marketing,
            NotificationEvent::SecurityAlert => NotificationPurpose::Security,
        }
    }

    pub fn priority(self) -> (s: &'static str)
        ensures
            s@ == event_priority(self),
    {
        match self {
            NotificationEvent::SecurityAlert => "URGENT",
            NotificationEvent::RewardIssued | NotificationEvent::CouponUsed | NotificationEvent::TransactionVoided
            | NotificationEvent::StoreSuspended | NotificationEvent::StoreClosed => "HIGH",
            _ => "NORMAL",
        }
    }

    pub fn external_channels(self) -> (v: Vec<NotificationChannel>)
        ensures
            v@ == event_channels(self),
    {
        let mut v: Vec<NotificationChannel> = Vec::new();
        match self {
            NotificationEvent::StoreSuspended | NotificationEvent::StoreClosed => {},
            _ => {
                v.push(NotificationChannel::FcmWebPush);
                v.push(NotificationChannel::KakaoAlimtalk);
            },
        }
        v
    }
}

/// What to do about one inbox entry.
#[derive(Debug, Clone, Copy, Default, PartialEq, Eq, Structural)]
pub enum NotificationAction {
    #[default]
    MarkRead,
    MarkUnread,
    /// Hide it from the inbox; the event's record lives in the ledger.
    Dismiss,
}

/// An inbox update: what to do, to which notifications, or to all of them.
#[derive(Debug, Clone, PartialEq, Eq)]
pub struct UpdateNotificationsRequest {
    pub notification_ids: Vec<u128>,
    pub all: bool,
    pub action: NotificationAction,
}

/// The most notifications one update may name.
pub const MAX_NOTIFICATIONS_PER_UPDATE: usize = 200;

impl UpdateNotificationsRequest {
    /// An update names at most 200 notifications, and must name some unless it is for all
    /// of them.
    pub fn check(&self) -> (r: Result<(), ApiError>)
        ensures
            self.notification_ids@.len() > MAX_NOTIFICATIONS_PER_UPDATE ==> (r matches Err(e)
                && e.code == ErrorCode::ValidationFailed
                && fields_view(e.field_errors@) == seq![(
                    "notification_ids"@, "length"@, "한 번에 200개까지 처리할 수 있습니다."@,
                )]),
            self.notification_ids@.len() <= MAX_NOTIFICATIONS_PER_UPDATE && self.notification_ids@.len() == 0 && !self.all
                ==> (r matches Err(e) && e.code == ErrorCode::ValidationFailed
                && e.message@ == "처리할 알림을 지정해 주세요."@),
            self.notification_ids@.len() <= MAX_NOTIFICATIONS_PER_UPDATE && (self.notification_ids@.len() > 0 || self.all)
                ==> r is Ok,
    {
        if self.notification_ids.len() > MAX_NOTIFICATIONS_PER_UPDATE {
            let mut fields: Vec<FieldError> = Vec::new();
            fields.push(FieldError::new("notification_ids", "length", "한 번에 200개까지 처리할 수 있습니다."));
            let e = ApiError::with_fields(ErrorCode::ValidationFailed, fields);
            assert(fields_view(e.field_errors@) =~= seq![(
                "notification_ids"@, "length"@, "한 번에 200개까지 처리할 수 있습니다."@,
            )]);
            return Err(e);
        }
        if self.notification_ids.len() == 0 && !self.all {
            return Err(ApiError::with_message(ErrorCode::ValidationFailed, "처리할 알림을 지정해 주세요."));
        }
        Ok(())
    }
}

/// What an inbox update did.
#[derive(Debug, Clone, Copy, PartialEq, Eq, Structural)]
pub struct NotificationUpdateResult {
    pub updated: i64,
    pub unread_count: i64,
}

/// A browser's push registration, as submitted.
#[derive(Debug, Clone, PartialEq, Eq)]
pub struct RegisterPushSubscriptionRequest {
    pub token: String,
    pub browser_family: Option<String>,
    pub device_label: Option<String>,
}

impl RegisterPushSubscriptionRequest {
    /// A token of 8 to 4096 characters; a browser family of at most 64 and a device
    /// label of at most 100, when given.
    pub fn check(&self) -> (r: Result<(), ApiError>)
        ensures
            verdict_of(
                length_issue("token"@, self.token@, 8, 4096, "푸시 토큰이 올바르지 않습니다."@)
                    + optional_length_issue("browser_family"@, self.browser_family, 0, 64, "length"@)
                    + optional_length_issue("device_label"@, self.device_label, 0, 100, "length"@),
                r,
            ),
    {
        let mut fields: Vec<FieldError> = Vec::new();
        check_length(&mut fields, "token", self.token.as_str(), 8, 4096, "푸시 토큰이 올바르지 않습니다.");
        check_optional_length(&mut fields, "browser_family", &self.browser_family, 0, 64, "length");
        check_optional_length(&mut fields, "device_label", &self.device_label, 0, 100, "length");
        verdict(fields)
    }
}

/// The seam other modules use to reach notification preferences.
#[derive(Debug, Clone, Copy, Default, PartialEq, Eq)]
pub struct NotificationPreferenceService;

impl NotificationPreferenceService {
    pub fn new() -> (s: NotificationPreferenceService) {
        NotificationPreferenceService
    }

    /// Whether a purpose (in its stored spelling) may currently be sent on a channel,
    /// given the preference stored for it, if any. A stored preference decides; an absent
    /// one means "never decided", which is a no for anything but transactional in-app
    /// messages.
    pub fn is_enabled(&self, stored: Option<bool>, purpose: &str, channel: NotificationChannel) -> (r: bool)
        ensures
            r == match stored {
                Some(b) => b,
                None => channel == NotificationChannel::InApp && purpose@ == "TRANSACTIONAL"@,
            },
    {
        match stored {
            Some(b) => b,
            None => channel == NotificationChannel::InApp && str_eq(purpose, "TRANSACTIONAL"),
        }
    }
}

/// `{event}|{channel}|{template}v{version}|{recipient}`: one send of one event to one
/// recipient on one channel under one template version.
pub open spec fn dedupe_text(event_id: u128, channel: NotificationChannel, template_code: Seq<char>, version: int, recipient: u128) -> Seq<char> {
    uuid_text(event_id) + seq!['|'] + channel_text(channel) + seq!['|'] + template_code + seq!['v'] + int_text(version)
        + seq!['|'] + uuid_text(recipient)
}

fn push_chars(s: &mut String, v: &Vec<char>)
    ensures
        final(s)@ == old(s)@ + v@,
{
    let ghost before = s@;
    let mut i: usize = 0;
    while i < v.len()
        invariant
            0 <= i <= v@.len(),
            s@ == before + v@.take(i as int),
        decreases v@.len() - i,
    {
        push_char(s, v[i]);
        assert(v@.take(i + 1) == v@.take(i as int).push(v@[i as int]));
        i += 1;
    }
    assert(v@.take(v@.len() as int) == v@);
}

/// The key that makes one send of an event happen at most once.
pub fn dedupe_key(
    event_id: u128,
    channel: NotificationChannel,
    template_code: &str,
    template_version: i32,
    recipient_user_id: u128,
) -> (k: String)
    ensures
        k@ == dedupe_text(event_id, channel, template_code@, template_version as int, recipient_user_id),
{
    let mut k = uuid_string(event_id);
    push_char(&mut k, '|');
    push_str(&mut k, channel.as_db());
    push_char(&mut k, '|');
    push_str(&mut k, template_code);
    push_char(&mut k, 'v');
    push_chars(&mut k, &i64_chars(template_version as i64));
    push_char(&mut k, '|');
    let recipient = uuid_string(recipient_user_id);
    push_str(&mut k, recipient.as_str());
    k
}

/// `value` if it has any non-whitespace content, otherwise `fallback`.
pub fn non_blank(value: &str, fallback: &str) -> (s: String)
    ensures
        s@ == if is_blank(value@) { fallback@ } else { value@ },
{
    if is_blank_str(value) {
        fallback.to_string()
    } else {
        value.to_string()
    }
}

/// The first `max_chars` characters of `value`.
pub fn truncate(value: &str, max_chars: usize) -> (s: String)
    ensures
        s@ == if value@.len() <= max_chars { value@ } else { value@.take(max_chars as int) },
{
    let chars = chars_of(value);
    if chars.len() <= max_chars {
        return value.to_string();
    }
    let mut out: Vec<char> = Vec::new();
    let mut i: usize = 0;
    while i < max_chars
        invariant
            0 <= i <= max_chars < chars@.len(),
            out@ == chars@.take(i as int),
        decreases max_chars - i,
    {
        out.push(chars[i]);
        assert(chars@.take(i + 1) == chars@.take(i as int).push(chars@[i as int]));
        i += 1;
    }
    string_of(out.as_slice())
}

impl JobKey {
    /// `notify_event:{user}:{event}:{channel}-template-{version}`. The template version
    /// rides along because a send under a new template version is a different logical
    /// job, not a retry of the old one.
    pub fn notify_event(user_id: u128, event_id: u128, channel: NotificationChannel, template_version: i32) -> (k: JobKey)
        ensures
            k.job_type == JobType::NotifyEvent,
            job_key_text(k) == key_text(
                JobType::NotifyEvent,
                uuid_text(user_id),
                uuid_text(event_id),
                channel_token(channel) + "-template-"@ + int_text(template_version as int),
            ),
    {
        let mut op = channel.key_token().to_string();
        push_str(&mut op, "-template-");
        push_chars(&mut op, &i64_chars(template_version as i64));
        JobKey::new(JobType::NotifyEvent, uuid_string(user_id), uuid_string(event_id), op)
    }
}

/// What becomes of one external channel for one notification.
#[derive(Debug, Clone, Copy, PartialEq, Eq, Structural)]
pub enum ChannelPlan {
    Suppress(SuppressionReason),
    /// Queue a delivery, first attempted at `scheduled_at`.
    Queue { scheduled_at: i64 },
}

/// The plan for one channel: no approved template, no consent, or a delay that would
/// outlive the message each suppress it, in that order; otherwise it is queued for the
/// first permitted moment.
pub open spec fn channel_plan(
    template_sendable: Option<bool>,
    channel: NotificationChannel,
    purpose: NotificationPurpose,
    consent: ConsentSnapshot,
    scheduled_at: i64,
    expires_at: Option<i64>,
) -> ChannelPlan {
    if !(template_sendable == Some(true)) {
        ChannelPlan::Suppress(SuppressionReason::TemplateUnavailable)
    } else if let Eligibility::Suppressed(reason) = eligibility_of(channel, purpose, consent) {
        ChannelPlan::Suppress(reason)
    } else if expires_at matches Some(e) && scheduled_at >= e {
        ChannelPlan::Suppress(SuppressionReason::ExpiredBeforeDelivery)
    } else {
        ChannelPlan::Queue { scheduled_at }
    }
}

/// Decide one external channel of a notification that occurred at `occurred_at`, with
/// the channel's template (`None` when there is none, otherwise whether it is sendable).
pub fn plan_channel(
    template_sendable: Option<bool>,
    channel: NotificationChannel,
    purpose: NotificationPurpose,
    consent: &ConsentSnapshot,
    occurred_at: i64,
    zone: &str,
    expires_at: Option<i64>,
) -> (p: ChannelPlan)
    requires
        -INSTANT_RANGE_MICROS <= occurred_at <= INSTANT_RANGE_MICROS,
    ensures
        p == channel_plan(
            template_sendable,
            channel,
            purpose,
            *consent,
            scheduled_send_time(occurred_at, zone@, purpose),
            expires_at,
        ),
        purpose != NotificationPurpose::Marketing ==> p == channel_plan(template_sendable, channel, purpose, *consent, occurred_at, expires_at),
{
    match template_sendable {
        Some(true) => {},
        _ => {
            return ChannelPlan::Suppress(SuppressionReason::TemplateUnavailable);
        },
    }
    if let Eligibility::Suppressed(reason) = crate::notifications::policy::evaluate(channel, purpose, consent) {
        return ChannelPlan::Suppress(reason);
    }
    let scheduled_at = earliest_send_time(occurred_at, zone, purpose);
    if let Some(e) = expires_at {
        if scheduled_at >= e {
            return ChannelPlan::Suppress(SuppressionReason::ExpiredBeforeDelivery);
        }
    }
    ChannelPlan::Queue { scheduled_at }
}

/// Every channel reads back from its stored spelling.
pub proof fn law_channels_round_trip_through_their_stored_spelling(x: NotificationChannel)
    ensures
        channel_from_text(channel_text(x)) == Some(x),
{
    reveal_strlit("IN_APP");
    reveal_strlit("KAKAO_ALIMTALK");
    reveal_strlit("FCM_WEB_PUSH");
    match x {
        NotificationChannel::InApp => {

        },
        NotificationChannel::FcmWebPush => {
            assert("FCM_WEB_PUSH"@.len() != "IN_APP"@.len());
        },
        NotificationChannel::KakaoAlimtalk => {
            assert("KAKAO_ALIMTALK"@.len() != "IN_APP"@.len());
            assert("KAKAO_ALIMTALK"@.len() != "FCM_WEB_PUSH"@.len());
        },
    }
}

/// Every delivery status reads back from its stored spelling.
pub proof fn law_delivery_statuses_round_trip_through_their_stored_spelling(x: DeliveryStatus)
    ensures
        delivery_status_from_text(delivery_status_text(x)) == x,
{
    reveal_strlit("FAILED_RETRYABLE");
    reveal_strlit("SENDING");
    reveal_strlit("DELIVERED");
    reveal_strlit("SUPPRESSED");
    reveal_strlit("PENDING");
    reveal_strlit("FAILED_PERMANENT");
    match x {
        DeliveryStatus::Pending => {
            assert("PENDING"@[0] != "SENDING"@[0]);
            assert("PENDING"@.len() != "DELIVERED"@.len());
            assert("PENDING"@.len() != "FAILED_RETRYABLE"@.len());
            assert("PENDING"@.len() != "FAILED_PERMANENT"@.len());
            assert("PENDING"@.len() != "SUPPRESSED"@.len());
        },
        DeliveryStatus::Sending => {

        },
        DeliveryStatus::Delivered => {
            assert("DELIVERED"@.len() != "SENDING"@.len());
        },
        DeliveryStatus::FailedRetryable => {
            assert("FAILED_RETRYABLE"@.len() != "SENDING"@.len());
            assert("FAILED_RETRYABLE"@.len() != "DELIVERED"@.len());
        },
        DeliveryStatus::FailedPermanent => {
            assert("FAILED_PERMANENT"@.len() != "SENDING"@.len());
            assert("FAILED_PERMANENT"@.len() != "DELIVERED"@.len());
            assert("FAILED_PERMANENT"@[7] != "FAILED_RETRYABLE"@[7]);
        },
        DeliveryStatus::Suppressed => {
            assert("SUPPRESSED"@.len() != "SENDING"@.len());
            assert("SUPPRESSED"@.len() != "DELIVERED"@.len());
            assert("SUPPRESSED"@.len() != "FAILED_RETRYABLE"@.len());
            assert("SUPPRESSED"@.len() != "FAILED_PERMANENT"@.len());
        },
    }
}

/// Every event reads back from its template code.
pub proof fn law_events_round_trip_through_their_template_codes(x: NotificationEvent)
    ensures
        event_from_code(event_code_text(x)) == Some(x),
{
    reveal_strlit("COUPON_USED");
    reveal_strlit("STORE_CLOSED");
    reveal_strlit("TRANSACTION_VOIDED");
    reveal_strlit("COUPON_EXPIRING");
    reveal_strlit("STORE_SUSPENDED");
    reveal_strlit("COUPON_ISSUED");
    reveal_strlit("SECURITY_ALERT");
    reveal_strlit("REWARD_ISSUED");
    reveal_strlit("STAMP_EARNED");
    match x {
        NotificationEvent::StampEarned => {

        },
        NotificationEvent::RewardIssued => {
            assert("REWARD_ISSUED"@.len() != "STAMP_EARNED"@.len());
        },
        NotificationEvent::CouponIssued => {
            assert("COUPON_ISSUED"@.len() != "STAMP_EARNED"@.len());
            assert("COUPON_ISSUED"@[0] != "REWARD_ISSUED"@[0]);
        },
        NotificationEvent::CouponExpiring => {
            assert("COUPON_EXPIRING"@.len() != "STAMP_EARNED"@.len());
            assert("COUPON_EXPIRING"@.len() != "REWARD_ISSUED"@.len());
            assert("COUPON_EXPIRING"@.len() != "COUPON_ISSUED"@.len());
        },
        NotificationEvent::CouponUsed => {
            assert("COUPON_USED"@.len() != "STAMP_EARNED"@.len());
            assert("COUPON_USED"@.len() != "REWARD_ISSUED"@.len());
            assert("COUPON_USED"@.len() != "COUPON_ISSUED"@.len());
            assert("COUPON_USED"@.len() != "COUPON_EXPIRING"@.len());
        },
        NotificationEvent::TransactionVoided => {
            assert("TRANSACTION_VOIDED"@.len() != "STAMP_EARNED"@.len());
            assert("TRANSACTION_VOIDED"@.len() != "REWARD_ISSUED"@.len());
            assert("TRANSACTION_VOIDED"@.len() != "COUPON_ISSUED"@.len());
            assert("TRANSACTION_VOIDED"@.len() != "COUPON_EXPIRING"@.len());
            assert("TRANSACTION_VOIDED"@.len() != "COUPON_USED"@.len());
        },
        NotificationEvent::StoreSuspended => {
            assert("STORE_SUSPENDED"@.len() != "STAMP_EARNED"@.len());
            assert("STORE_SUSPENDED"@.len() != "REWARD_ISSUED"@.len());
            assert("STORE_SUSPENDED"@.len() != "COUPON_ISSUED"@.len());
            assert("STORE_SUSPENDED"@[0] != "COUPON_EXPIRING"@[0]);
            assert("STORE_SUSPENDED"@.len() != "COUPON_USED"@.len());
            assert("STORE_SUSPENDED"@.len() != "TRANSACTION_VOIDED"@.len());
        },
        NotificationEvent::StoreClosed => {
            assert("STORE_CLOSED"@[2] != "STAMP_EARNED"@[2]);
            assert("STORE_CLOSED"@.len() != "REWARD_ISSUED"@.len());
            assert("STORE_CLOSED"@.len() != "COUPON_ISSUED"@.len());
            assert("STORE_CLOSED"@.len() != "COUPON_EXPIRING"@.len());
            assert("STORE_CLOSED"@.len() != "COUPON_USED"@.len());
            assert("STORE_CLOSED"@.len() != "TRANSACTION_VOIDED"@.len());
            assert("STORE_CLOSED"@.len() != "STORE_SUSPENDED"@.len());
        },
        NotificationEvent::SecurityAlert => {
            assert("SECURITY_ALERT"@.len() != "STAMP_EARNED"@.len());
            assert("SECURITY_ALERT"@.len() != "REWARD_ISSUED"@.len());
            assert("SECURITY_ALERT"@.len() != "COUPON_ISSUED"@.len());
            assert("SECURITY_ALERT"@.len() != "COUPON_EXPIRING"@.len());
            assert("SECURITY_ALERT"@.len() != "COUPON_USED"@.len());
            assert("SECURITY_ALERT"@.len() != "TRANSACTION_VOIDED"@.len());
            assert("SECURITY_ALERT"@.len() != "STORE_SUSPENDED"@.len());
            assert("SECURITY_ALERT"@.len() != "STORE_CLOSED"@.len());
        },
    }
}

/// Store status changes stay in the app; every other event is offered to both external
/// channels.
pub proof fn law_store_status_changes_stay_in_the_app(e: NotificationEvent)
    ensures
        (e == NotificationEvent::StoreSuspended || e == NotificationEvent::StoreClosed) <==> event_channels(e).len() == 0,
{
}

/// The dedupe key keeps every dimension apart: two sends under the same template code
/// that differ in the event, the channel, the template version or the recipient never
/// share a key.
pub proof fn law_the_dedupe_key_separates_every_dimension(
    event_a: u128,
    channel_a: NotificationChannel,
    version_a: int,
    recipient_a: u128,
    event_b: u128,
    channel_b: NotificationChannel,
    version_b: int,
    recipient_b: u128,
    template_code: Seq<char>,
)
    requires
        event_a != event_b || channel_a != channel_b || version_a != version_b || recipient_a != recipient_b,
    ensures
        dedupe_text(event_a, channel_a, template_code, version_a, recipient_a)
            != dedupe_text(event_b, channel_b, template_code, version_b, recipient_b),
{
    let ka = dedupe_text(event_a, channel_a, template_code, version_a, recipient_a);
    let kb = dedupe_text(event_b, channel_b, template_code, version_b, recipient_b);
    if ka == kb {
        assert(ka.subrange(0, 36) == uuid_text(event_a));
        assert(kb.subrange(0, 36) == uuid_text(event_b));
        lemma_uuid_text_injective(event_a, event_b);
        let n = ka.len() as int;
        assert(ka.subrange(n - 36, n) == uuid_text(recipient_a));
        assert(kb.subrange(n - 36, n) == uuid_text(recipient_b));
        lemma_uuid_text_injective(recipient_a, recipient_b);
        reveal_strlit("IN_APP");
        reveal_strlit("FCM_WEB_PUSH");
        reveal_strlit("KAKAO_ALIMTALK");
        assert(ka[37] == channel_text(channel_a)[0]);
        assert(kb[37] == channel_text(channel_b)[0]);
        let pre = uuid_text(event_a) + seq!['|'] + channel_text(channel_a) + seq!['|'] + template_code + seq!['v'];
        let post = seq!['|'] + uuid_text(recipient_a);
        assert(ka =~= pre + int_text(version_a) + post);
        assert(kb =~= pre + int_text(version_b) + post);
        let m = int_text(version_a).len() as int;
        assert(ka.subrange(pre.len() as int, pre.len() + m) =~= int_text(version_a));
        assert(kb.subrange(pre.len() as int, pre.len() + m) =~= int_text(version_b));
        lemma_int_text_injective(version_a, version_b);
    }
}

/// What happened to a customer's own stamps, rewards and transactions is transactional:
/// a stamp earned, a reward issued, a coupon used and a transaction voided. An issued
/// campaign coupon is the one marketing event.
pub proof fn law_only_a_campaign_coupon_is_marketing(e: NotificationEvent)
    ensures
        (e == NotificationEvent::StampEarned || e == NotificationEvent::RewardIssued
            || e == NotificationEvent::CouponUsed || e == NotificationEvent::TransactionVoided)
            ==> event_purpose(e) == NotificationPurpose::Transactional,
        event_purpose(e) == NotificationPurpose::Marketing <==> e == NotificationEvent::CouponIssued,
{
}

} // verus!
