//! Purpose, consent and quiet-hours judgements for notifications.
//!
//! Everything here is a function of a snapshot, and the decision is not durable: consent
//! is read again immediately before the provider call, so the same judgement runs twice,
//! once when the delivery is created and once with fresh data in the worker.

use vstd::prelude::*;

use crate::notifications::NotificationChannel;
use crate::text::str_eq;
use chrono::{TimeZone, Timelike};

verus! {

/// Why a message is being sent; it decides the legal basis of the send.
#[derive(Debug, Clone, Copy, PartialEq, Eq, Structural)]
pub enum NotificationPurpose {
    Transactional,
    Informational,
    Marketing,
    Security,
}

pub open spec fn purpose_text(x: NotificationPurpose) -> Seq<char> {
    match x {
        NotificationPurpose::Transactional => "TRANSACTIONAL"@,
        NotificationPurpose::Informational => "INFORMATIONAL"@,
        NotificationPurpose::Marketing => "MARKETING"@,
        NotificationPurpose::Security => "SECURITY"@,
    }
}

pub open spec fn purpose_from_text(raw: Seq<char>) -> Option<NotificationPurpose> {
    if raw == "TRANSACTIONAL"@ {
        Some(NotificationPurpose::Transactional)
    } else if raw == "INFORMATIONAL"@ {
        Some(NotificationPurpose::Informational)
    } else if raw == "MARKETING"@ {
        Some(NotificationPurpose::Marketing)
    } else if raw == "SECURITY"@ {
        Some(NotificationPurpose::Security)
    } else {
        None
    }
}

impl NotificationPurpose {
    pub fn as_db(self) -> (s: &'static str)
        ensures
            s@ == purpose_text(self),
    {
        match self {
            NotificationPurpose::Transactional => "TRANSACTIONAL",
            NotificationPurpose::Informational => "INFORMATIONAL",
            NotificationPurpose::Marketing => "MARKETING",
            NotificationPurpose::Security => "SECURITY",
        }
    }

    pub fn from_db(raw: &str) -> (r: Option<NotificationPurpose>)
        ensures
            r == purpose_from_text(raw@),
    {
        if str_eq(raw, "TRANSACTIONAL") {
            Some(NotificationPurpose::Transactional)
        } else if str_eq(raw, "INFORMATIONAL") {
            Some(NotificationPurpose::Informational)
        } else if str_eq(raw, "MARKETING") {
            Some(NotificationPurpose::Marketing)
        } else if str_eq(raw, "SECURITY") {
            Some(NotificationPurpose::Security)
        } else {
            None
        }
    }

    /// Only advertising is held back during quiet hours.
    pub fn is_quiet_hours_restricted(self) -> (r: bool)
        ensures
            r == (self == NotificationPurpose::Marketing),
    {
        self == NotificationPurpose::Marketing
    }
}

/// Why a channel was not used, recorded so that every unsent message has its reason.
#[derive(Debug, Clone, Copy, PartialEq, Eq, Structural)]
pub enum SuppressionReason {
    /// No consent, or it was withdrawn, including between enqueue and send.
    ConsentMissing,
    /// The account-wide and the store's marketing consent are not both given.
    StoreConsentMissing,
    /// The browser has no active push subscription.
    NoActiveSubscription,
    /// Marketing never travels on Alimtalk.
    ChannelNotPermittedForPurpose,
    /// No approved, active template for this code, channel and locale.
    TemplateUnavailable,
    /// A delayed message could not be delivered before it expired.
    ExpiredBeforeDelivery,
    /// The account is suspended or withdrawn.
    RecipientInactive,
    /// Consent exists but there is no address to send to.
    RecipientUnreachable,
}

pub open spec fn reason_text(x: SuppressionReason) -> Seq<char> {
    match x {
        SuppressionReason::ConsentMissing => "CONSENT_MISSING"@,
        SuppressionReason::StoreConsentMissing => "STORE_CONSENT_MISSING"@,
        SuppressionReason::NoActiveSubscription => "NO_ACTIVE_SUBSCRIPTION"@,
        SuppressionReason::ChannelNotPermittedForPurpose => "CHANNEL_NOT_PERMITTED"@,
        SuppressionReason::TemplateUnavailable => "TEMPLATE_UNAVAILABLE"@,
        SuppressionReason::ExpiredBeforeDelivery => "EXPIRED_BEFORE_DELIVERY"@,
        SuppressionReason::RecipientInactive => "RECIPIENT_INACTIVE"@,
        SuppressionReason::RecipientUnreachable => "RECIPIENT_UNREACHABLE"@,
    }
}

pub open spec fn reason_from_text(raw: Seq<char>) -> Option<SuppressionReason> {
    if raw == "CONSENT_MISSING"@ {
        Some(SuppressionReason::ConsentMissing)
    } else if raw == "STORE_CONSENT_MISSING"@ {
        Some(SuppressionReason::StoreConsentMissing)
    } else if raw == "NO_ACTIVE_SUBSCRIPTION"@ {
        Some(SuppressionReason::NoActiveSubscription)
    } else if raw == "CHANNEL_NOT_PERMITTED"@ {
        Some(SuppressionReason::ChannelNotPermittedForPurpose)
    } else if raw == "TEMPLATE_UNAVAILABLE"@ {
        Some(SuppressionReason::TemplateUnavailable)
    } else if raw == "EXPIRED_BEFORE_DELIVERY"@ {
        Some(SuppressionReason::ExpiredBeforeDelivery)
    } else if raw == "RECIPIENT_INACTIVE"@ {
        Some(SuppressionReason::RecipientInactive)
    } else if raw == "RECIPIENT_UNREACHABLE"@ {
        Some(SuppressionReason::RecipientUnreachable)
    } else {
        None
    }
}

impl SuppressionReason {
    pub fn as_db(self) -> (s: &'static str)
        ensures
            s@ == reason_text(self),
    {
        match self {
            SuppressionReason::ConsentMissing => "CONSENT_MISSING",
            SuppressionReason::StoreConsentMissing => "STORE_CONSENT_MISSING",
            SuppressionReason::NoActiveSubscription => "NO_ACTIVE_SUBSCRIPTION",
            SuppressionReason::ChannelNotPermittedForPurpose => "CHANNEL_NOT_PERMITTED",
            SuppressionReason::TemplateUnavailable => "TEMPLATE_UNAVAILABLE",
            SuppressionReason::ExpiredBeforeDelivery => "EXPIRED_BEFORE_DELIVERY",
            SuppressionReason::RecipientInactive => "RECIPIENT_INACTIVE",
            SuppressionReason::RecipientUnreachable => "RECIPIENT_UNREACHABLE",
        }
    }

    pub fn from_db(raw: &str) -> (r: Option<SuppressionReason>)
        ensures
            r == reason_from_text(raw@),
    {
        if str_eq(raw, "CONSENT_MISSING") {
            Some(SuppressionReason::ConsentMissing)
        } else if str_eq(raw, "STORE_CONSENT_MISSING") {
            Some(SuppressionReason::StoreConsentMissing)
        } else if str_eq(raw, "NO_ACTIVE_SUBSCRIPTION") {
            Some(SuppressionReason::NoActiveSubscription)
        } else if str_eq(raw, "CHANNEL_NOT_PERMITTED") {
            Some(SuppressionReason::ChannelNotPermittedForPurpose)
        } else if str_eq(raw, "TEMPLATE_UNAVAILABLE") {
            Some(SuppressionReason::TemplateUnavailable)
        } else if str_eq(raw, "EXPIRED_BEFORE_DELIVERY") {
            Some(SuppressionReason::ExpiredBeforeDelivery)
        } else if str_eq(raw, "RECIPIENT_INACTIVE") {
            Some(SuppressionReason::RecipientInactive)
        } else if str_eq(raw, "RECIPIENT_UNREACHABLE") {
            Some(SuppressionReason::RecipientUnreachable)
        } else {
            None
        }
    }

}

/// Every consent fact the judgement needs, read at the moment of the decision.
#[derive(Debug, Clone, Copy, PartialEq, Eq, Default, Structural)]
pub struct ConsentSnapshot {
    /// Web push for transactions.
    pub web_push_transactional: bool,
    /// Marketing over web push, account-wide.
    pub marketing_all_channels: bool,
    /// Marketing over web push, for the store the message is about.
    pub marketing_this_store: bool,
    /// Informational Alimtalk messages.
    pub alimtalk_informational: bool,
    /// At least one browser subscription is active.
    pub has_active_push_subscription: bool,
    /// The account can still receive anything at all.
    pub recipient_active: bool,
}

/// The judgement.
#[derive(Debug, Clone, Copy, PartialEq, Eq, Structural)]
pub enum Eligibility {
    Allowed,
    Suppressed(SuppressionReason),
}

impl Eligibility {
    pub fn is_allowed(self) -> (r: bool)
        ensures
            r == (self == Eligibility::Allowed),
    {
        match self {
            Eligibility::Allowed => true,
            Eligibility::Suppressed(_) => false,
        }
    }

    pub fn reason(self) -> (r: Option<SuppressionReason>)
        ensures
            r == match self {
                Eligibility::Allowed => None,
                Eligibility::Suppressed(reason) => Some(reason),
            },
    {
        match self {
            Eligibility::Allowed => None,
            Eligibility::Suppressed(reason) => Some(reason),
        }
    }
}

/// May this purpose travel on this channel, for this recipient, now? The in-app copy is
/// the record of the event and is never suppressed. An external channel needs a live
/// recipient; web push needs an active subscription, and then the consent its purpose
/// calls for (a security alert needs only the subscription; marketing needs both the
/// account-wide and the store's consent); Alimtalk never carries marketing and otherwise
/// needs its informational consent.
pub open spec fn eligibility_of(channel: NotificationChannel, purpose: NotificationPurpose, c: ConsentSnapshot) -> Eligibility {
    if channel == NotificationChannel::InApp {
        Eligibility::Allowed
    } else if !c.recipient_active {
        Eligibility::Suppressed(SuppressionReason::RecipientInactive)
    } else if channel == NotificationChannel::FcmWebPush {
        if !c.has_active_push_subscription {
            Eligibility::Suppressed(SuppressionReason::NoActiveSubscription)
        } else {
            match purpose {
                NotificationPurpose::Security => Eligibility::Allowed,
                NotificationPurpose::Transactional | NotificationPurpose::Informational => if c.web_push_transactional {
                    Eligibility::Allowed
                } else {
                    Eligibility::Suppressed(SuppressionReason::ConsentMissing)
                },
                NotificationPurpose::Marketing => if !c.marketing_all_channels {
                    Eligibility::Suppressed(SuppressionReason::ConsentMissing)
                } else if !c.marketing_this_store {
                    Eligibility::Suppressed(SuppressionReason::StoreConsentMissing)
                } else {
                    Eligibility::Allowed
                },
            }
        }
    } else if purpose == NotificationPurpose::Marketing {
        Eligibility::Suppressed(SuppressionReason::ChannelNotPermittedForPurpose)
    } else if c.alimtalk_informational {
        Eligibility::Allowed
    } else {
        Eligibility::Suppressed(SuppressionReason::ConsentMissing)
    }
}

pub fn evaluate(channel: NotificationChannel, purpose: NotificationPurpose, consent: &ConsentSnapshot) -> (e: Eligibility)
    ensures
        e == eligibility_of(channel, purpose, *consent),
{
    if channel == NotificationChannel::InApp {
        return Eligibility::Allowed;
    }
    if !consent.recipient_active {
        return Eligibility::Suppressed(SuppressionReason::RecipientInactive);
    }
    match channel {
        NotificationChannel::InApp => Eligibility::Allowed,
        NotificationChannel::FcmWebPush => {
            if !consent.has_active_push_subscription {
                return Eligibility::Suppressed(SuppressionReason::NoActiveSubscription);
            }
            match purpose {
                NotificationPurpose::Security => Eligibility::Allowed,
                NotificationPurpose::Transactional | NotificationPurpose::Informational => {
                    if consent.web_push_transactional {
                        Eligibility::Allowed
                    } else {
                        Eligibility::Suppressed(SuppressionReason::ConsentMissing)
                    }
                },
                NotificationPurpose::Marketing => {
                    if !consent.marketing_all_channels {
                        Eligibility::Suppressed(SuppressionReason::ConsentMissing)
                    } else if !consent.marketing_this_store {
                        Eligibility::Suppressed(SuppressionReason::StoreConsentMissing)
                    } else {
                        Eligibility::Allowed
                    }
                },
            }
        },
        NotificationChannel::KakaoAlimtalk => {
            if purpose == NotificationPurpose::Marketing {
                return Eligibility::Suppressed(SuppressionReason::ChannelNotPermittedForPurpose);
            }
            if consent.alimtalk_informational {
                Eligibility::Allowed
            } else {
                Eligibility::Suppressed(SuppressionReason::ConsentMissing)
            }
        },
    }
}

/// Advertising may not be sent from 21:00 to 08:00, local time.
pub const QUIET_HOURS_START_HOUR: u32 = 21;
pub const QUIET_HOURS_END_HOUR: u32 = 8;

/// Instants are microseconds since the epoch within this distance of it, the range a
/// calendar time can hold.
pub const INSTANT_RANGE_MICROS: i64 = 8_000_000_000_000_000_000;

/// Whether the time-zone database knows a zone by this name.
pub uninterp spec fn is_zone_name(name: Seq<char>) -> bool;

/// The hour of the day at an instant, in a named time zone.
pub uninterp spec fn local_hour_at(micros: i64, zone: Seq<char>) -> u32;

/// How a wall-clock time reads as instants in a zone: not at all (the clock skipped it),
/// once, or twice (the clock went back), each in microseconds since the epoch.
#[derive(Debug, Clone, Copy, PartialEq, Eq, Structural)]
pub enum LocalReading {
    Missing,
    Single(i64),
    /// The earlier reading, then the later one.
    Ambiguous(i64, i64),
}

/// The readings of `hour:minute:second` on the local date of `micros` in a named zone,
/// moved `days_ahead` days on; absent when that date or time does not exist.
pub uninterp spec fn local_readings(
    micros: i64,
    zone: Seq<char>,
    days_ahead: u64,
    hour: u32,
    minute: u32,
    second: u32,
) -> Option<LocalReading>;

/// The instant at which a named zone's wall clock reads `hour`:00 on the local date of
/// `micros` moved `days_ahead` days on: the later reading when the wall clock is
/// ambiguous, and none when it skipped that time.
pub open spec fn local_opening(micros: i64, zone: Seq<char>, days_ahead: u64, hour: u32) -> Option<i64> {
    match local_readings(micros, zone, days_ahead, hour, 0, 0) {
        Some(LocalReading::Single(t)) => Some(t),
        Some(LocalReading::Ambiguous(_, later)) => Some(later),
        _ => None,
    }
}

/// `name.parse::<chrono_tz::Tz>().is_ok()`: whether `chrono_tz`'s database has the name.
/// The answer is named rather than listed; the one name stated is `Asia/Seoul`, which the
/// database has.
#[verifier::external_body]
fn zone_known(name: &str) -> (r: bool)
    ensures
        r == is_zone_name(name@),
        name@ == "Asia/Seoul"@ ==> r,
{
    name.parse::<chrono_tz::Tz>().is_ok()
}

/// `chrono_tz`: the hour of `at` on the wall clock of the zone the name parses to.
/// The hour is named rather than written out; chrono documents it as 0 to 23. Every
/// instant within the range has a calendar time, so a known name always gives one.
#[verifier::external_body]
fn hour_in_zone(at: i64, zone: &str) -> (r: Option<u32>)
    requires
        -INSTANT_RANGE_MICROS <= at <= INSTANT_RANGE_MICROS,
        is_zone_name(zone@),
    ensures
        r is Some,
        r matches Some(h) ==> h == local_hour_at(at, zone@) && h < 24,
{
    let tz = zone.parse::<chrono_tz::Tz>().ok()?;
    let instant = chrono::DateTime::from_timestamp_micros(at)?;
    Some(instant.with_timezone(&tz).hour())
}

/// `chrono_tz`: the local date of `at` in the zone, moved on by `days_ahead` with
/// `NaiveDate::checked_add_days`, at `hour:minute:second` (`NaiveDate::and_hms_opt`),
/// mapped back with `TimeZone::from_local_datetime`; chrono's `LocalResult` variants
/// `None`, `Single` and `Ambiguous(earliest, latest)` become the three readings. Absent
/// when a step has no answer. The readings are named rather than written out.
#[verifier::external_body]
fn wall_clock_readings(at: i64, zone: &str, days_ahead: u64, hour: u32, minute: u32, second: u32) -> (r: Option<LocalReading>)
    requires
        -INSTANT_RANGE_MICROS <= at <= INSTANT_RANGE_MICROS,
        is_zone_name(zone@),
    ensures
        r == local_readings(at, zone@, days_ahead, hour, minute, second),
{
    let tz = zone.parse::<chrono_tz::Tz>().ok()?;
    let local = chrono::DateTime::from_timestamp_micros(at)?.with_timezone(&tz);
    let date = local.date_naive().checked_add_days(chrono::Days::new(days_ahead))?;
    let wall = date.and_hms_opt(hour, minute, second)?;
    match tz.from_local_datetime(&wall) {
        chrono::LocalResult::None => Some(LocalReading::Missing),
        chrono::LocalResult::Single(t) => Some(LocalReading::Single(t.timestamp_micros())),
        chrono::LocalResult::Ambiguous(a, b) => Some(LocalReading::Ambiguous(a.timestamp_micros(), b.timestamp_micros())),
    }
}

/// The opening of the permitted window: the later reading of `hour`:00 when the clock
/// went back, none when it skipped that time.
fn opening_in_zone(at: i64, zone: &str, days_ahead: u64, hour: u32) -> (t: Option<i64>)
    requires
        -INSTANT_RANGE_MICROS <= at <= INSTANT_RANGE_MICROS,
        is_zone_name(zone@),
    ensures
        t == local_opening(at, zone@, days_ahead, hour),
{
    match wall_clock_readings(at, zone, days_ahead, hour, 0, 0) {
        Some(LocalReading::Single(t)) => Some(t),
        Some(LocalReading::Ambiguous(_, later)) => Some(later),
        _ => None,
    }
}

/// The zone a store's clock is read in: its own when the database knows the name, Seoul
/// otherwise.
pub open spec fn zone_in_effect(zone: Seq<char>) -> Seq<char> {
    if is_zone_name(zone) {
        zone
    } else {
        "Asia/Seoul"@
    }
}

pub fn effective_zone(zone: &str) -> (z: &str)
    ensures
        z@ == zone_in_effect(zone@),
        is_zone_name(z@),
{
    if zone_known(zone) {
        zone
    } else {
        let seoul = "Asia/Seoul";
        let known = zone_known(seoul);
        assert(known);
        seoul
    }
}

/// When a message may first be sent, given the local hour at `at` and the next 08:00
/// (today's before 08:00, tomorrow's from 21:00): `at` itself for anything not held back
/// or inside the permitted window, otherwise the opening, or `at` when the wall clock
/// skipped it.
pub open spec fn send_time(at: i64, purpose: NotificationPurpose, hour: u32, opening: Option<i64>) -> i64 {
    if purpose != NotificationPurpose::Marketing || (8 <= hour && hour < 21) {
        at
    } else {
        match opening {
            Some(t) => t,
            None => at,
        }
    }
}

/// The quiet-hours rule over a local hour and an opening already read off the clock.
pub fn quiet_hours_send_time(at: i64, purpose: NotificationPurpose, hour: u32, opening: Option<i64>) -> (t: i64)
    ensures
        t == send_time(at, purpose, hour, opening),
{
    if !purpose.is_quiet_hours_restricted() || (QUIET_HOURS_END_HOUR <= hour && hour < QUIET_HOURS_START_HOUR) {
        return at;
    }
    match opening {
        Some(t) => t,
        None => at,
    }
}

/// When a message sent at `at` for this purpose may first go out, reading the clock in
/// the store's zone: the next 08:00 is today's before 08:00 and tomorrow's from 21:00.
pub open spec fn scheduled_send_time(at: i64, zone: Seq<char>, purpose: NotificationPurpose) -> i64 {
    let z = zone_in_effect(zone);
    let hour = local_hour_at(at, z);
    send_time(at, purpose, hour, local_opening(at, z, if hour >= QUIET_HOURS_END_HOUR { 1 } else { 0 }, QUIET_HOURS_END_HOUR))
}

/// When this message may first be sent.
pub fn earliest_send_time(at: i64, zone: &str, purpose: NotificationPurpose) -> (t: i64)
    requires
        -INSTANT_RANGE_MICROS <= at <= INSTANT_RANGE_MICROS,
    ensures
        t == scheduled_send_time(at, zone@, purpose),
        purpose != NotificationPurpose::Marketing ==> t == at,
{
    if !purpose.is_quiet_hours_restricted() {
        return at;
    }
    let z = effective_zone(zone);
    let hour = hour_in_zone(at, z).unwrap();
    if QUIET_HOURS_END_HOUR <= hour && hour < QUIET_HOURS_START_HOUR {
        return at;
    }
    let days_ahead: u64 = if hour >= QUIET_HOURS_END_HOUR { 1 } else { 0 };
    let opening = opening_in_zone(at, z, days_ahead, QUIET_HOURS_END_HOUR);
    quiet_hours_send_time(at, purpose, hour, opening)
}

/// The in-app copy is the record of every event and is never suppressed, whatever the
/// consent.
pub proof fn law_the_in_app_channel_is_never_suppressed(purpose: NotificationPurpose, c: ConsentSnapshot)
    ensures
        eligibility_of(NotificationChannel::InApp, purpose, c) == Eligibility::Allowed,
{
}

/// Marketing never travels on Alimtalk, and an inactive recipient gets no external
/// message at all.
pub proof fn law_marketing_never_travels_on_alimtalk_and_inactive_recipients_get_nothing_external(
    channel: NotificationChannel,
    purpose: NotificationPurpose,
    c: ConsentSnapshot,
)
    ensures
        c.recipient_active ==> eligibility_of(NotificationChannel::KakaoAlimtalk, NotificationPurpose::Marketing, c)
            == Eligibility::Suppressed(SuppressionReason::ChannelNotPermittedForPurpose),
        !c.recipient_active && channel != NotificationChannel::InApp ==> eligibility_of(channel, purpose, c)
            == Eligibility::Suppressed(SuppressionReason::RecipientInactive),
{
}

/// Marketing push needs both the account-wide and the store's consent; a security alert
/// needs only a live subscription.
pub proof fn law_marketing_push_needs_both_consents(c: ConsentSnapshot)
    ensures
        eligibility_of(NotificationChannel::FcmWebPush, NotificationPurpose::Marketing, c) == Eligibility::Allowed
            ==> c.marketing_all_channels && c.marketing_this_store && c.recipient_active && c.has_active_push_subscription,
        c.recipient_active && c.has_active_push_subscription ==>
            eligibility_of(NotificationChannel::FcmWebPush, NotificationPurpose::Security, c) == Eligibility::Allowed,
{
}

/// Only marketing is held back; anything else goes out when it happened.
pub proof fn law_only_marketing_waits_for_the_morning(at: i64, purpose: NotificationPurpose, hour: u32, opening: Option<i64>)
    ensures
        purpose != NotificationPurpose::Marketing ==> send_time(at, purpose, hour, opening) == at,
        8 <= hour < 21 ==> send_time(at, purpose, hour, opening) == at,
{
}

/// Every purpose reads back from its stored spelling.
pub proof fn law_purposes_round_trip_through_their_stored_spelling(x: NotificationPurpose)
    ensures
        purpose_from_text(purpose_text(x)) == Some(x),
{
    reveal_strlit("SECURITY");
    reveal_strlit("TRANSACTIONAL");
    reveal_strlit("INFORMATIONAL");
    reveal_strlit("MARKETING");
    match x {
        NotificationPurpose::Transactional => {

        },
        NotificationPurpose::Informational => {
            assert("INFORMATIONAL"@[0] != "TRANSACTIONAL"@[0]);
        },
        NotificationPurpose::Marketing => {
            assert("MARKETING"@.len() != "TRANSACTIONAL"@.len());
            assert("MARKETING"@.len() != "INFORMATIONAL"@.len());
        },
        NotificationPurpose::Security => {
            assert("SECURITY"@.len() != "TRANSACTIONAL"@.len());
            assert("SECURITY"@.len() != "INFORMATIONAL"@.len());
            assert("SECURITY"@.len() != "MARKETING"@.len());
        },
    }
}

/// Every suppression reason reads back from its stored spelling.
pub proof fn law_suppression_reasons_round_trip_through_their_stored_spelling(x: SuppressionReason)
    ensures
        reason_from_text(reason_text(x)) == Some(x),
{
    reveal_strlit("TEMPLATE_UNAVAILABLE");
    reveal_strlit("CHANNEL_NOT_PERMITTED");
    reveal_strlit("RECIPIENT_INACTIVE");
    reveal_strlit("NO_ACTIVE_SUBSCRIPTION");
    reveal_strlit("CONSENT_MISSING");
    reveal_strlit("EXPIRED_BEFORE_DELIVERY");
    reveal_strlit("RECIPIENT_UNREACHABLE");
    reveal_strlit("STORE_CONSENT_MISSING");
    match x {
        SuppressionReason::ConsentMissing => {

        },
        SuppressionReason::StoreConsentMissing => {
            assert("STORE_CONSENT_MISSING"@.len() != "CONSENT_MISSING"@.len());
        },
        SuppressionReason::NoActiveSubscription => {
            assert("NO_ACTIVE_SUBSCRIPTION"@.len() != "CONSENT_MISSING"@.len());
            assert("NO_ACTIVE_SUBSCRIPTION"@.len() != "STORE_CONSENT_MISSING"@.len());
        },
        SuppressionReason::ChannelNotPermittedForPurpose => {
            assert("CHANNEL_NOT_PERMITTED"@.len() != "CONSENT_MISSING"@.len());
            assert("CHANNEL_NOT_PERMITTED"@[0] != "STORE_CONSENT_MISSING"@[0]);
            assert("CHANNEL_NOT_PERMITTED"@.len() != "NO_ACTIVE_SUBSCRIPTION"@.len());
        },
        SuppressionReason::TemplateUnavailable => {
            assert("TEMPLATE_UNAVAILABLE"@.len() != "CONSENT_MISSING"@.len());
            assert("TEMPLATE_UNAVAILABLE"@.len() != "STORE_CONSENT_MISSING"@.len());
            assert("TEMPLATE_UNAVAILABLE"@.len() != "NO_ACTIVE_SUBSCRIPTION"@.len());
            assert("TEMPLATE_UNAVAILABLE"@.len() != "CHANNEL_NOT_PERMITTED"@.len());
        },
        SuppressionReason::ExpiredBeforeDelivery => {
            assert("EXPIRED_BEFORE_DELIVERY"@.len() != "CONSENT_MISSING"@.len());
            assert("EXPIRED_BEFORE_DELIVERY"@.len() != "STORE_CONSENT_MISSING"@.len());
            assert("EXPIRED_BEFORE_DELIVERY"@.len() != "NO_ACTIVE_SUBSCRIPTION"@.len());
            assert("EXPIRED_BEFORE_DELIVERY"@.len() != "CHANNEL_NOT_PERMITTED"@.len());
            assert("EXPIRED_BEFORE_DELIVERY"@.len() != "TEMPLATE_UNAVAILABLE"@.len());
        },
        SuppressionReason::RecipientInactive => {
            assert("RECIPIENT_INACTIVE"@.len() != "CONSENT_MISSING"@.len());
            assert("RECIPIENT_INACTIVE"@.len() != "STORE_CONSENT_MISSING"@.len());
            assert("RECIPIENT_INACTIVE"@.len() != "NO_ACTIVE_SUBSCRIPTION"@.len());
            assert("RECIPIENT_INACTIVE"@.len() != "CHANNEL_NOT_PERMITTED"@.len());
            assert("RECIPIENT_INACTIVE"@.len() != "TEMPLATE_UNAVAILABLE"@.len());
            assert("RECIPIENT_INACTIVE"@.len() != "EXPIRED_BEFORE_DELIVERY"@.len());
        },
        SuppressionReason::RecipientUnreachable => {
            assert("RECIPIENT_UNREACHABLE"@.len() != "CONSENT_MISSING"@.len());
            assert("RECIPIENT_UNREACHABLE"@[0] != "STORE_CONSENT_MISSING"@[0]);
            assert("RECIPIENT_UNREACHABLE"@.len() != "NO_ACTIVE_SUBSCRIPTION"@.len());
            assert("RECIPIENT_UNREACHABLE"@[0] != "CHANNEL_NOT_PERMITTED"@[0]);
            assert("RECIPIENT_UNREACHABLE"@.len() != "TEMPLATE_UNAVAILABLE"@.len());
            assert("RECIPIENT_UNREACHABLE"@.len() != "EXPIRED_BEFORE_DELIVERY"@.len());
            assert("RECIPIENT_UNREACHABLE"@.len() != "RECIPIENT_INACTIVE"@.len());
        },
    }
}

/// Alimtalk carries a message that is not marketing to an active recipient exactly when
/// the recipient consented to informational Alimtalk messages; without that consent the
/// message is suppressed for missing consent.
pub proof fn law_alimtalk_needs_informational_consent(purpose: NotificationPurpose, c: ConsentSnapshot)
    requires
        c.recipient_active,
        purpose != NotificationPurpose::Marketing,
    ensures
        c.alimtalk_informational ==> eligibility_of(NotificationChannel::KakaoAlimtalk, purpose, c) == Eligibility::Allowed,
        !c.alimtalk_informational ==> eligibility_of(NotificationChannel::KakaoAlimtalk, purpose, c)
            == Eligibility::Suppressed(SuppressionReason::ConsentMissing),
{
}

} // verus!
