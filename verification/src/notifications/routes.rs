//! What the provider webhooks trust: a signature over the timestamp and the body, made
//! inside a freshness window.

use vstd::prelude::*;

use crate::error::{ApiError, ErrorCode};
use crate::http::concurrency::{header_chars, header_text};
use crate::http::pagination::PageQuery;
use crate::ident::{hmac_sha256_tag, hmac_sha256_verify};
use crate::notifications::delivery::CallbackOutcome;
use crate::notifications::NotificationChannel;
use crate::text::{hex_decode, hex_decoded, str_eq, string_of, trim_chars, trimmed};
use crate::time::{quotient_toward_zero, Duration, MICROS_PER_SECOND};

verus! {

/// How far a callback's signing time may be from ours, either way, in whole seconds.
pub const CALLBACK_MAX_SKEW_SECS: i64 = 300;

/// Whether a callback signed at `signed_at` is fresh at `now` (both in microseconds):
/// the whole seconds between them, rounded toward zero, are at most the skew.
pub open spec fn fresh(now: i64, signed_at: i64) -> bool {
    let secs = quotient_toward_zero(now - signed_at, MICROS_PER_SECOND as int);
    -CALLBACK_MAX_SKEW_SECS <= secs <= CALLBACK_MAX_SKEW_SECS
}

/// The signed material: the timestamp, a dot, then the body. The timestamp is inside it,
/// so a captured body cannot be replayed under a fresh header.
pub open spec fn signed_material(timestamp: Seq<char>, body: Seq<u8>) -> Seq<u8> {
    vstd::utf8::encode_utf8(timestamp) + seq![46u8] + body
}

/// Whether a callback is genuine: fresh, carrying a hexadecimal signature (surrounding
/// whitespace ignored) that is the HMAC-SHA256 of the signed material under the secret.
pub open spec fn callback_verified(
    secret: Seq<char>,
    timestamp: Seq<char>,
    body: Seq<u8>,
    signature_hex: Seq<char>,
    now: i64,
    signed_at: i64,
) -> bool {
    &&& fresh(now, signed_at)
    &&& match hex_decoded(trimmed(signature_hex)) {
        Some(tag) => tag == hmac_sha256_tag(vstd::utf8::encode_utf8(secret), signed_material(timestamp, body)),
        None => false,
    }
}

fn append_bytes(v: &mut Vec<u8>, b: &[u8])
    ensures
        final(v)@ == old(v)@ + b@,
{
    let ghost before = v@;
    let mut i: usize = 0;
    while i < b.len()
        invariant
            0 <= i <= b@.len(),
            v@ == before + b@.take(i as int),
        decreases b@.len() - i,
    {
        v.push(b[i]);
        assert(b@.take(i + 1) == b@.take(i as int).push(b@[i as int]));
        i += 1;
    }
    assert(b@.take(b@.len() as int) == b@);
}

/// Signature and freshness together. A stale or future timestamp, a signature that is
/// not hexadecimal, and a signature that does not match all fail the same way.
pub fn verify_callback(
    secret: &str,
    timestamp: &str,
    body: &[u8],
    signature_hex: &str,
    now: i64,
    signed_at: i64,
) -> (ok: bool)
    ensures
        ok == callback_verified(secret@, timestamp@, body@, signature_hex@, now, signed_at),
{
    let elapsed = Duration { micros: now as i128 - signed_at as i128 };
    let secs = elapsed.num_seconds();
    if secs < -(CALLBACK_MAX_SKEW_SECS as i128) || secs > CALLBACK_MAX_SKEW_SECS as i128 {
        return false;
    }
    let trimmed_signature = trim_chars(signature_hex);
    let expected = match hex_decode(trimmed_signature.as_slice()) {
        Some(tag) => tag,
        None => {
            return false;
        },
    };
    let mut message: Vec<u8> = Vec::new();
    append_bytes(&mut message, timestamp.as_bytes());
    message.push(46u8);
    append_bytes(&mut message, body);
    assert(message@ == signed_material(timestamp@, body@));
    hmac_sha256_verify(secret.as_bytes(), message.as_slice(), expected.as_slice())
}

/// `?unread_only=&limit=&cursor=` on the consumer's inbox.
#[derive(Debug, Clone, Default, PartialEq, Eq)]
pub struct NotificationListQuery {
    pub unread_only: bool,
    pub limit: Option<u32>,
    pub cursor: Option<String>,
}

impl NotificationListQuery {
    /// The page the inbox query asks for.
    pub fn page(&self) -> (p: PageQuery)
        ensures
            p.limit == self.limit,
            p.cursor == self.cursor,
    {
        PageQuery { limit: self.limit, cursor: self.cursor.clone() }
    }
}

/// What a provider posts back about a send.
#[derive(Debug, Clone, PartialEq, Eq)]
pub struct ProviderCallbackBody {
    /// The provider's id for this callback; its uniqueness makes a replay recognisable.
    pub event_id: String,
    /// The id stored when the send was accepted.
    pub provider_reference: String,
    pub status: String,
    pub detail: Option<String>,
}

/// The answer to a callback.
#[derive(Debug, Clone, Copy, PartialEq, Eq, Structural)]
pub struct CallbackAck {
    pub outcome: CallbackOutcome,
}

/// With no callback secret configured nothing can tell a provider from anyone else, so
/// every callback is refused rather than applied unauthenticated.
pub fn callback_secret(configured: Option<&str>) -> (r: Result<&str, ApiError>)
    ensures
        match configured {
            Some(s) => r matches Ok(x) && x@ == s@,
            None => r matches Err(e) && e.code == ErrorCode::DependencyUnavailable
                && e.message@ == "알림 콜백을 처리할 수 없습니다."@
                && (e.internal matches Some(d) && d@ == "COUPON_NOTIFICATION_CALLBACK_SECRET is not configured"@),
        },
{
    match configured {
        Some(s) => Ok(s),
        None => Err(ApiError::with_message(ErrorCode::DependencyUnavailable, "알림 콜백을 처리할 수 없습니다.")
            .internal("COUPON_NOTIFICATION_CALLBACK_SECRET is not configured")),
    }
}

/// The channel a callback's path names: web push as `fcm` or `fcm-web-push`, Alimtalk as
/// `alimtalk` or `kakao-alimtalk`; any other provider is not ours.
pub open spec fn callback_channel_of(provider: Seq<char>) -> Option<NotificationChannel> {
    if provider == "fcm"@ || provider == "fcm-web-push"@ {
        Some(NotificationChannel::FcmWebPush)
    } else if provider == "alimtalk"@ || provider == "kakao-alimtalk"@ {
        Some(NotificationChannel::KakaoAlimtalk)
    } else {
        None
    }
}

pub fn callback_channel(provider: &str) -> (r: Result<NotificationChannel, ApiError>)
    ensures
        match callback_channel_of(provider@) {
            Some(c) => r == Ok::<NotificationChannel, ApiError>(c),
            None => r matches Err(e) && e.code == ErrorCode::NotFound,
        },
{
    if str_eq(provider, "fcm") || str_eq(provider, "fcm-web-push") {
        Ok(NotificationChannel::FcmWebPush)
    } else if str_eq(provider, "alimtalk") || str_eq(provider, "kakao-alimtalk") {
        Ok(NotificationChannel::KakaoAlimtalk)
    } else {
        Err(ApiError::new(ErrorCode::NotFound))
    }
}

/// A signature header's value. One that is missing, or is not visible ASCII text, is a
/// signature failure like any other: the caller learns nothing about which check failed.
pub fn signature_header(raw: Option<&[u8]>) -> (r: Result<String, ApiError>)
    ensures
        match raw {
            Some(b) => match header_text(b@) {
                Some(t) => r matches Ok(s) && s@ == t,
                None => r matches Err(e) && e.code == ErrorCode::WebhookSignatureInvalid,
            },
            None => r matches Err(e) && e.code == ErrorCode::WebhookSignatureInvalid,
        },
{
    match raw {
        Some(b) => match header_chars(b) {
            Some(v) => Ok(string_of(v.as_slice())),
            None => Err(ApiError::new(ErrorCode::WebhookSignatureInvalid)),
        },
        None => Err(ApiError::new(ErrorCode::WebhookSignatureInvalid)),
    }
}

} // verus!
