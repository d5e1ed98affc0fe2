//! What a provider said, in the delivery vocabulary.

use vstd::prelude::*;

use crate::text::{nat_text, push_char, push_str, str_eq};
use crate::time::Duration;

verus! {

broadcast use vstd::seq_lib::group_seq_properties;

/// Everything a provider may report.
#[derive(Debug, Clone, PartialEq, Eq)]
pub enum ProviderOutcome {
    /// Handed off; the provider will confirm by callback.
    Accepted { provider_reference: String },
    /// Delivered, by the provider's own definition; never a read receipt.
    Delivered { provider_reference: String },
    /// Worth another attempt, on the provider's schedule when it gave one.
    RetryableFailure { code: String, message: String, retry_after: Option<Duration> },
    /// Another attempt would fail the same way. `recipient_gone` marks an address that is
    /// dead and must not be tried again.
    PermanentFailure { code: String, message: String, recipient_gone: bool },
}

impl ProviderOutcome {
    pub fn provider_reference(&self) -> (r: Option<&str>)
        ensures
            match *self {
                ProviderOutcome::Accepted { provider_reference } | ProviderOutcome::Delivered { provider_reference } =>
                    r matches Some(s) && s@ == provider_reference@,
                _ => r is None,
            },
    {
        match self {
            ProviderOutcome::Accepted { provider_reference } | ProviderOutcome::Delivered { provider_reference } =>
                Some(provider_reference.as_str()),
            _ => None,
        }
    }
}

/// One field of a provider's JSON reply.
#[derive(Debug, Clone, PartialEq, Eq)]
pub enum JsonText {
    Absent,
    Text(String),
    /// Present, but not a string.
    Other,
}

/// A boolean field of a provider's JSON reply.
#[derive(Debug, Clone, Copy, PartialEq, Eq, Structural)]
pub enum JsonFlag {
    Absent,
    Bool(bool),
    Other,
}

/// The fields of a provider's reply that the classification reads.
#[derive(Debug, Clone, PartialEq, Eq)]
pub struct ReplyFields {
    pub provider_reference: JsonText,
    pub message_id: JsonText,
    pub delivered: JsonFlag,
    pub error_code: JsonText,
    pub code: JsonText,
    pub error: JsonText,
    pub message: JsonText,
}

/// The first field that is present, read as text (`None` when it is not a string).
pub open spec fn first_text(a: JsonText, b: JsonText) -> Option<Seq<char>> {
    match a {
        JsonText::Absent => match b {
            JsonText::Text(s) => Some(s@),
            _ => None,
        },
        JsonText::Text(s) => Some(s@),
        JsonText::Other => None,
    }
}

fn first_present(a: &JsonText, b: &JsonText) -> (r: Option<String>)
    ensures
        match (r, first_text(*a, *b)) {
            (Some(x), Some(y)) => x@ == y,
            (None, None) => true,
            _ => false,
        },
{
    match a {
        JsonText::Absent => match b {
            JsonText::Text(s) => Some(s.as_str().to_string()),
            _ => None,
        },
        JsonText::Text(s) => Some(s.as_str().to_string()),
        JsonText::Other => None,
    }
}

pub open spec fn or_empty(o: Option<Seq<char>>) -> Seq<char> {
    match o {
        Some(s) => s,
        None => Seq::empty(),
    }
}

/// `PROVIDER_HTTP_{status}`.
pub open spec fn http_code(status: u16) -> Seq<char> {
    "PROVIDER_HTTP_"@ + nat_text(status as nat)
}

/// Error codes that mean the address itself is gone.
pub open spec fn gone_code(code: Seq<char>) -> bool {
    code == "UNREGISTERED"@ || code == "NOT_FOUND"@ || code == "INVALID_TOKEN"@ || code == "RECIPIENT_UNSUBSCRIBED"@
}

/// The outcome an HTTP answer means, as `(kind, reference or code, message, flag)`:
/// a hand-off with a reference is an acceptance unless the reply says it was delivered;
/// a hand-off without one is delivered under a reference made from the provider's name;
/// a 429 is retryable on the provider's schedule; any other 4xx is permanent, and marks
/// the recipient gone for 404, 410 or a dead-address code; anything else is retryable.
pub open spec fn classified(provider: Seq<char>, status: u16, retry_after: Option<Duration>, r: ReplyFields, o: ProviderOutcome) -> bool {
    let reference = first_text(r.provider_reference, r.message_id);
    let code = or_empty(first_text(r.error_code, r.code));
    let message = or_empty(first_text(r.error, r.message));
    if 200 <= status <= 299 {
        match reference {
            Some(rf) => if r.delivered == JsonFlag::Bool(true) {
                o matches ProviderOutcome::Delivered { provider_reference } && provider_reference@ == rf
            } else {
                o matches ProviderOutcome::Accepted { provider_reference } && provider_reference@ == rf
            },
            None => o matches ProviderOutcome::Delivered { provider_reference }
                && provider_reference@ == provider + ":no-reference"@,
        }
    } else if status == 429 {
        o matches ProviderOutcome::RetryableFailure { code: c, message: m, retry_after: ra }
            && c@ == (if code.len() == 0 { "PROVIDER_THROTTLED"@ } else { code }) && m@ == message && ra == retry_after
    } else if 400 <= status <= 499 {
        o matches ProviderOutcome::PermanentFailure { code: c, message: m, recipient_gone }
            && c@ == (if code.len() == 0 { http_code(status) } else { code }) && m@ == message
            && recipient_gone == (status == 404 || status == 410 || gone_code(code))
    } else {
        o matches ProviderOutcome::RetryableFailure { code: c, message: m, retry_after: ra }
            && c@ == (if code.len() == 0 { http_code(status) } else { code }) && m@ == message && ra == retry_after
    }
}

fn http_code_string(status: u16) -> (s: String)
    ensures
        s@ == http_code(status),
{
    let mut s = "PROVIDER_HTTP_".to_string();
    let digits = crate::text::u64_chars(status as u64);
    let ghost before = s@;
    let mut i: usize = 0;
    while i < digits.len()
        invariant
            0 <= i <= digits@.len(),
            s@ == before + digits@.take(i as int),
        decreases digits@.len() - i,
    {
        push_char(&mut s, digits[i]);
        assert(digits@.take(i + 1) == digits@.take(i as int).push(digits@[i as int]));
        i += 1;
    }
    assert(digits@.take(digits@.len() as int) == digits@);
    s
}

/// Turn an HTTP answer into the delivery vocabulary.
pub fn classify(provider: &str, status: u16, retry_after: Option<Duration>, body: &ReplyFields) -> (o: ProviderOutcome)
    ensures
        classified(provider@, status, retry_after, *body, o),
{
    let reference = first_present(&body.provider_reference, &body.message_id);
    let code = match first_present(&body.error_code, &body.code) {
        Some(c) => c,
        None => String::new(),
    };
    let message = match first_present(&body.error, &body.message) {
        Some(m) => m,
        None => String::new(),
    };
    let empty_code = crate::text::chars_of(code.as_str()).len() == 0;
    if 200 <= status && status <= 299 {
        match reference {
            Some(r) => {
                if body.delivered == JsonFlag::Bool(true) {
                    ProviderOutcome::Delivered { provider_reference: r }
                } else {
                    ProviderOutcome::Accepted { provider_reference: r }
                }
            },
            None => {
                let mut r = provider.to_string();
                push_str(&mut r, ":no-reference");
                ProviderOutcome::Delivered { provider_reference: r }
            },
        }
    } else if status == 429 {
        let c = if empty_code { "PROVIDER_THROTTLED".to_string() } else { code };
        ProviderOutcome::RetryableFailure { code: c, message, retry_after }
    } else if 400 <= status && status <= 499 {
        let s = code.as_str();
        let gone = status == 404 || status == 410 || str_eq(s, "UNREGISTERED") || str_eq(s, "NOT_FOUND")
            || str_eq(s, "INVALID_TOKEN") || str_eq(s, "RECIPIENT_UNSUBSCRIBED");
        let c = if empty_code { http_code_string(status) } else { code };
        ProviderOutcome::PermanentFailure { code: c, message, recipient_gone: gone }
    } else {
        let c = if empty_code { http_code_string(status) } else { code };
        ProviderOutcome::RetryableFailure { code: c, message, retry_after }
    }
}

/// Alimtalk only goes out on an approved template. Without one the send is refused
/// before anything reaches the network, in the library's own words.
pub fn alimtalk_refusal(provider_template_id: Option<&str>) -> (r: Option<ProviderOutcome>)
    ensures
        provider_template_id is Some ==> r is None,
        provider_template_id is None ==> (r matches Some(ProviderOutcome::PermanentFailure { code, message, recipient_gone })
            && code@ == "TEMPLATE_NOT_APPROVED"@
            && message@ == "알림톡은 승인된 템플릿 없이 발송할 수 없습니다."@
            && !recipient_gone),
{
    match provider_template_id {
        Some(_) => None,
        None => Some(ProviderOutcome::PermanentFailure {
            code: "TEMPLATE_NOT_APPROVED".to_string(),
            message: "알림톡은 승인된 템플릿 없이 발송할 수 없습니다.".to_string(),
            recipient_gone: false,
        }),
    }
}

} // verus!
