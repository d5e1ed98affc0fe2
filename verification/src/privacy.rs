//! Erasure of personal data, and the retention policies that govern it.
//!
//! A request may only name categories the erasure job knows how to act on and that the
//! policy table marks erasable; naming anything else is refused rather than silently
//! ignored. Erased subjects keep a deterministic tombstone, so replaying the deletion
//! ledger after a restore reproduces the same one.

use vstd::prelude::*;

use crate::error::{fields_view, ApiError, ErrorCode, FieldError};
use crate::ident::{sha256, sha256_digest, uuid_string, uuid_text};
use crate::text::{hex_encode, hex_text, push_str, str_eq};
use crate::validation::{check_length, check_range, length_issue, range_issue, verdict, verdict_of};

verus! {

broadcast use vstd::seq_lib::group_seq_properties;

/// Every category the erasure job knows how to act on.
pub const ERASABLE_SCOPES: [&'static str; 3] = ["PROFILE", "NOTIFICATION", "AUTH_IDENTITY"];

/// The erasable categories, in order.
pub open spec fn erasable_scopes() -> Seq<Seq<char>> {
    seq!["PROFILE"@, "NOTIFICATION"@, "AUTH_IDENTITY"@]
}

/// One retention policy: how long a category is kept, why, and whether a subject may
/// have it erased on request.
#[derive(Debug, Clone, PartialEq, Eq)]
pub struct RetentionPolicy {
    pub data_category: String,
    pub retention_days: i32,
    pub legal_basis: String,
    pub erasable_on_request: bool,
    pub active: bool,
    /// Microseconds since the epoch.
    pub updated_at: i64,
}

/// A change to a retention policy.
#[derive(Debug, Clone, PartialEq, Eq)]
pub struct UpdateRetentionPolicyRequest {
    pub retention_days: i32,
    pub legal_basis: String,
    pub erasable_on_request: Option<bool>,
    /// Every administrative change carries a reason.
    pub reason: String,
}

impl UpdateRetentionPolicyRequest {
    /// A retention of 1 to 36500 days, a legal basis of 1 to 2000 characters and a reason
    /// of 1 to 1000.
    pub fn check(&self) -> (r: Result<(), ApiError>)
        ensures
            verdict_of(
                range_issue("retention_days"@, self.retention_days as int, 1, 36500, "보존기간은 1~36500일이어야 합니다."@)
                    + length_issue("legal_basis"@, self.legal_basis@, 1, 2000, "법적 근거를 입력해 주세요."@)
                    + length_issue("reason"@, self.reason@, 1, 1000, "변경 사유를 입력해 주세요."@),
                r,
            ),
    {
        let mut fields: Vec<FieldError> = Vec::new();
        check_range(&mut fields, "retention_days", self.retention_days as i64, 1, 36500, "보존기간은 1~36500일이어야 합니다.");
        check_length(&mut fields, "legal_basis", self.legal_basis.as_str(), 1, 2000, "법적 근거를 입력해 주세요.");
        check_length(&mut fields, "reason", self.reason.as_str(), 1, 1000, "변경 사유를 입력해 주세요.");
        verdict(fields)
    }
}

/// A request to erase a subject's personal data, on the case that records who asked.
#[derive(Debug, Clone, PartialEq, Eq)]
pub struct RequestErasureRequest {
    pub subject_user_id: u128,
    pub case_id: u128,
    pub reason: String,
    /// Categories to erase; empty means every category the policy table marks erasable.
    pub scopes: Vec<String>,
}

impl RequestErasureRequest {
    /// A reason of 1 to 1000 characters.
    pub fn check(&self) -> (r: Result<(), ApiError>)
        ensures
            verdict_of(length_issue("reason"@, self.reason@, 1, 1000, "파기 사유를 입력해 주세요."@), r),
    {
        let mut fields: Vec<FieldError> = Vec::new();
        check_length(&mut fields, "reason", self.reason.as_str(), 1, 1000, "파기 사유를 입력해 주세요.");
        assert(fields_view(fields@) =~= Seq::empty() + length_issue("reason"@, self.reason@, 1, 1000, "파기 사유를 입력해 주세요."@));
        verdict(fields)
    }
}

/// What replaying the deletion ledger did.
#[derive(Debug, Clone, Copy, PartialEq, Eq, Structural)]
pub struct ReapplyResult {
    pub examined: i64,
    /// Subjects found alive again and erased again.
    pub reapplied: i64,
}

pub open spec fn texts(v: Seq<String>) -> Seq<Seq<char>> {
    v.map_values(|s: String| s@)
}

/// The categories a request may act on: those the job implements that the policy table
/// marks erasable, where an authentication identity is always erasable.
pub open spec fn available_scopes(erasable: Seq<Seq<char>>) -> Seq<Seq<char>> {
    let s = if erasable.contains("PROFILE"@) { seq!["PROFILE"@] } else { Seq::empty() };
    let s = if erasable.contains("NOTIFICATION"@) { s.push("NOTIFICATION"@) } else { s };
    s.push("AUTH_IDENTITY"@)
}

fn contains_text(v: &Vec<String>, s: &str) -> (r: bool)
    ensures
        r == texts(v@).contains(s@),
{
    let mut i: usize = 0;
    while i < v.len()
        invariant
            0 <= i <= v@.len(),
            forall|k: int| 0 <= k < i ==> #[trigger] texts(v@)[k] != s@,
        decreases v@.len() - i,
    {
        if str_eq(v[i].as_str(), s) {
            assert(texts(v@)[i as int] == s@);
            return true;
        }
        i += 1;
    }
    false
}

fn available(erasable: &Vec<String>) -> (r: Vec<String>)
    ensures
        texts(r@) == available_scopes(texts(erasable@)),
{
    let mut r: Vec<String> = Vec::new();
    if contains_text(erasable, "PROFILE") {
        r.push("PROFILE".to_string());
    }
    if contains_text(erasable, "NOTIFICATION") {
        r.push("NOTIFICATION".to_string());
    }
    r.push("AUTH_IDENTITY".to_string());
    r
}

/// Which categories a request acts on: all available ones when it names none, otherwise
/// exactly those it names, provided each is available.
pub fn resolve_scopes(erasable: &Vec<String>, requested: &Vec<String>) -> (r: Result<Vec<String>, ApiError>)
    ensures
        requested@.len() == 0 ==> (r matches Ok(v) && texts(v@) == available_scopes(texts(erasable@))),
        requested@.len() > 0 && (forall|k: int| 0 <= k < requested@.len() ==>
            #[trigger] available_scopes(texts(erasable@)).contains(texts(requested@)[k]))
            ==> (r matches Ok(v) && texts(v@) == texts(requested@)),
        requested@.len() > 0 && (exists|k: int| 0 <= k < requested@.len() &&
            !#[trigger] available_scopes(texts(erasable@)).contains(texts(requested@)[k]))
            ==> (r matches Err(e) && e.code == ErrorCode::ValidationFailed),
{
    let available = available(erasable);
    if requested.len() == 0 {
        return Ok(available);
    }
    let mut i: usize = 0;
    while i < requested.len()
        invariant
            0 <= i <= requested@.len(),
            texts(available@) == available_scopes(texts(erasable@)),
            forall|k: int| 0 <= k < i ==> #[trigger] available_scopes(texts(erasable@)).contains(texts(requested@)[k]),
        decreases requested@.len() - i,
    {
        let scope = requested[i].as_str();
        assert(texts(requested@)[i as int] == scope@);
        if !contains_text(&available, scope) {
            assert(!available_scopes(texts(erasable@)).contains(texts(requested@)[i as int]));
            let mut message = "'".to_string();
            push_str(&mut message, scope);
            push_str(&mut message, "' 은(는) 파기 가능한 항목이 아닙니다.");
            return Err(ApiError::with_message(ErrorCode::ValidationFailed, message.as_str()));
        }
        i += 1;
    }
    let mut copy: Vec<String> = Vec::new();
    let mut j: usize = 0;
    while j < requested.len()
        invariant
            0 <= j <= requested@.len(),
            texts(copy@) == texts(requested@).take(j as int),
        decreases requested@.len() - j,
    {
        let ghost before = copy@;
        copy.push(requested[j].as_str().to_string());
        assert(texts(copy@) =~= texts(before).push(requested@[j as int]@));
        assert(texts(requested@).take(j + 1) =~= texts(requested@).take(j as int).push(requested@[j as int]@));
        j += 1;
    }
    assert(texts(requested@).take(requested@.len() as int) == texts(requested@));
    Ok(copy)
}

/// An erasure is registered only for a subject and a case that exist, and not while a
/// legal or dispute hold applies to the subject (`hold` is its end, as text).
pub fn erasure_gate(subject_exists: bool, case_exists: bool, hold: Option<&str>) -> (r: Result<(), ApiError>)
    ensures
        !subject_exists ==> (r matches Err(e) && e.code == ErrorCode::UserNotFound),
        subject_exists && !case_exists ==> (r matches Err(e) && e.code == ErrorCode::CaseNotFound),
        subject_exists && case_exists ==> match hold {
            Some(h) => r matches Err(e) && e.code == ErrorCode::LegalHoldActive
                && e.message@ == h@ + " 까지 법정·분쟁 보존이 적용되어 있습니다."@,
            None => r is Ok,
        },
{
    if !subject_exists {
        return Err(ApiError::new(ErrorCode::UserNotFound));
    }
    if !case_exists {
        return Err(ApiError::new(ErrorCode::CaseNotFound));
    }
    match hold {
        Some(h) => {
            let mut message = h.to_string();
            push_str(&mut message, " 까지 법정·분쟁 보존이 적용되어 있습니다.");
            Err(ApiError::with_message(ErrorCode::LegalHoldActive, message.as_str()))
        },
        None => Ok(()),
    }
}

/// The text a subject's tombstone is derived from.
pub open spec fn tombstone_seed(subject: u128) -> Seq<char> {
    "ddadan-tombstone:"@ + uuid_text(subject)
}

/// `탈퇴회원-` and the first four bytes, in hex, of the SHA-256 of the seed.
pub open spec fn pseudonym_text(subject: u128) -> Seq<char> {
    "탈퇴회원-"@ + hex_text(sha256_digest(vstd::utf8::encode_utf8(tombstone_seed(subject))).take(4))
}

/// The tombstone a subject's rows carry after erasure. Deterministic on purpose: a
/// replay after a restore must reproduce the same one, never mint a second.
pub fn pseudonym_label(subject_user_id: u128) -> (s: String)
    ensures
        s@ == pseudonym_text(subject_user_id),
{
    let mut seed = "ddadan-tombstone:".to_string();
    let id = uuid_string(subject_user_id);
    push_str(&mut seed, id.as_str());
    let digest = sha256(seed.as_str().as_bytes());
    let mut prefix: Vec<u8> = Vec::new();
    let mut i: usize = 0;
    while i < 4
        invariant
            0 <= i <= 4,
            digest@.len() == 32,
            prefix@ == digest@.take(i as int),
        decreases 4 - i,
    {
        prefix.push(digest[i]);
        assert(digest@.take(i + 1) == digest@.take(i as int).push(digest@[i as int]));
        i += 1;
    }
    let hex = hex_encode(prefix.as_slice());
    let mut label = "탈퇴회원-".to_string();
    push_str(&mut label, hex.as_str());
    label
}

/// The categories an erasure acts on, in the order it acts on them: the profile first,
/// then the sign-in identities, then the notification history; each once, and only if
/// the recorded scope names it.
pub open spec fn erasure_steps(scopes: Seq<Seq<char>>) -> Seq<Seq<char>> {
    let s = if scopes.contains("PROFILE"@) { seq!["PROFILE"@] } else { Seq::empty() };
    let s = if scopes.contains("AUTH_IDENTITY"@) { s.push("AUTH_IDENTITY"@) } else { s };
    if scopes.contains("NOTIFICATION"@) { s.push("NOTIFICATION"@) } else { s }
}

/// The categories, in order, that an erasure with this recorded scope applies; also
/// what it reports as applied.
pub fn erasure_plan(scopes: &Vec<String>) -> (r: Vec<String>)
    ensures
        texts(r@) == erasure_steps(texts(scopes@)),
{
    let mut r: Vec<String> = Vec::new();
    if contains_text(scopes, "PROFILE") {
        r.push("PROFILE".to_string());
    }
    if contains_text(scopes, "AUTH_IDENTITY") {
        r.push("AUTH_IDENTITY".to_string());
    }
    if contains_text(scopes, "NOTIFICATION") {
        r.push("NOTIFICATION".to_string());
    }
    r
}

/// The tombstone to write: the one the ledger recorded, or the derived one for a record
/// written before labels were kept.
pub fn subject_pseudonym(recorded: Option<&str>, subject_user_id: u128) -> (s: String)
    ensures
        s@ == match recorded {
            Some(p) => p@,
            None => pseudonym_text(subject_user_id),
        },
{
    match recorded {
        Some(p) => p.to_string(),
        None => pseudonym_label(subject_user_id),
    }
}

/// The external sign-in uid an erased profile is given in place of the real one:
/// derived from the subject, so the unique constraint still holds on a replay.
pub open spec fn firebase_tombstone_text(subject: u128) -> Seq<char> {
    "tombstone:"@ + uuid_text(subject)
}

pub fn firebase_tombstone(subject_user_id: u128) -> (s: String)
    ensures
        s@ == firebase_tombstone_text(subject_user_id),
{
    let mut s = "tombstone:".to_string();
    let id = uuid_string(subject_user_id);
    push_str(&mut s, id.as_str());
    s
}

/// What an erasure that meets a hold at execution time leaves behind: the reason the
/// ledger records, and the error the caller gets.
pub struct ExecutionBlock {
    pub blocked_reason: String,
    pub error: ApiError,
}

/// The hold is re-checked when the data is about to be destroyed, since a dispute can
/// open during the grace period; `hold` is its end, as text.
pub fn execution_block(hold: Option<&str>) -> (r: Option<ExecutionBlock>)
    ensures
        hold is None <==> r is None,
        hold matches Some(h) ==> (r matches Some(b)
            && b.blocked_reason@ == "legal hold until "@ + h@
            && b.error.code == ErrorCode::LegalHoldActive
            && b.error.message@ == "법정·분쟁 보존이 적용되어 파기를 진행하지 않았습니다."@),
{
    match hold {
        None => None,
        Some(h) => {
            let mut reason = "legal hold until ".to_string();
            push_str(&mut reason, h);
            Some(ExecutionBlock {
                blocked_reason: reason,
                error: ApiError::with_message(
                    ErrorCode::LegalHoldActive,
                    "법정·분쟁 보존이 적용되어 파기를 진행하지 않았습니다.",
                ),
            })
        },
    }
}

/// An erasure acts only on categories its recorded scope names and the job implements,
/// on each at most once, and acts on every implemented category the scope names.
pub proof fn law_an_erasure_acts_once_on_each_named_category(scopes: Seq<Seq<char>>)
    ensures
        forall|i: int| 0 <= i < erasure_steps(scopes).len() ==> {
            &&& scopes.contains(#[trigger] erasure_steps(scopes)[i])
            &&& erasable_scopes().contains(erasure_steps(scopes)[i])
        },
        forall|i: int, j: int| 0 <= i < j < erasure_steps(scopes).len() ==>
            #[trigger] erasure_steps(scopes)[i] != #[trigger] erasure_steps(scopes)[j],
        forall|c: Seq<char>| scopes.contains(c) && erasable_scopes().contains(c) ==> #[trigger] erasure_steps(scopes).contains(c),
{
    reveal_strlit("PROFILE");
    reveal_strlit("AUTH_IDENTITY");
    reveal_strlit("NOTIFICATION");
    let e = erasable_scopes();
    assert(e[0] == "PROFILE"@);
    assert(e[1] == "NOTIFICATION"@);
    assert(e[2] == "AUTH_IDENTITY"@);
    assert forall|c: Seq<char>| scopes.contains(c) && e.contains(c) implies #[trigger] erasure_steps(scopes).contains(c) by {
        let st = erasure_steps(scopes);
        if c == "PROFILE"@ {
            assert(st[0] == c);
        } else if c == "AUTH_IDENTITY"@ {
            assert(st[st.len() - 1] == c || st[st.len() - 2] == c);
        } else {
            assert(c == "NOTIFICATION"@);
            assert(st[st.len() - 1] == c);
        }
    }
}

/// A request only ever acts on categories the erasure job implements: whatever the
/// policy table says, the available categories are among the erasable scopes, and the
/// authentication identity is always among them.
pub proof fn law_only_implemented_categories_are_erased(erasable: Seq<Seq<char>>)
    ensures
        forall|i: int| 0 <= i < available_scopes(erasable).len() ==> erasable_scopes().contains(#[trigger] available_scopes(erasable)[i]),
        available_scopes(erasable).contains("AUTH_IDENTITY"@),
{
    let a = available_scopes(erasable);
    assert(erasable_scopes()[0] == "PROFILE"@);
    assert(erasable_scopes()[1] == "NOTIFICATION"@);
    assert(erasable_scopes()[2] == "AUTH_IDENTITY"@);
    assert(a[a.len() - 1] == "AUTH_IDENTITY"@);
}

} // verus!
