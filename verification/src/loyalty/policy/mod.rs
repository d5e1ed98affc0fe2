//! Stamp policy versions: what earning a stamp takes, and what a full board pays out.
//!
//! A live version is never edited in place. The owner drafts a new version and publishes
//! it, and the new terms apply to future accruals only.

use vstd::prelude::*;

use crate::catalog::{copy_ids, insert_all_sorted, ItemRestriction};
use crate::error::{code_text, fields_view, ApiError, ErrorCode, FieldError};
use crate::text::{is_blank, is_blank_str, str_eq};
use crate::time::{Duration, MICROS_PER_DAY, MICROS_PER_MINUTE};
use crate::validation::{check_length, check_optional_length, length_issue, optional_length_issue, verdict, verdict_of};

pub mod defaults;

verus! {

/// The stored lifecycle of a policy version.
#[derive(Debug, Clone, Copy, PartialEq, Eq, Structural)]
pub enum PolicyStatus {
    Draft,
    Scheduled,
    Active,
    Paused,
    Ended,
}

pub open spec fn policy_status_text(st: PolicyStatus) -> Seq<char> {
    match st {
        PolicyStatus::Draft => "DRAFT"@,
        PolicyStatus::Scheduled => "SCHEDULED"@,
        PolicyStatus::Active => "ACTIVE"@,
        PolicyStatus::Paused => "PAUSED"@,
        PolicyStatus::Ended => "ENDED"@,
    }
}

/// A stored status; anything unrecognised reads as ended.
pub open spec fn policy_status_from_text(raw: Seq<char>) -> PolicyStatus {
    if raw == "DRAFT"@ {
        PolicyStatus::Draft
    } else if raw == "SCHEDULED"@ {
        PolicyStatus::Scheduled
    } else if raw == "ACTIVE"@ {
        PolicyStatus::Active
    } else if raw == "PAUSED"@ {
        PolicyStatus::Paused
    } else {
        PolicyStatus::Ended
    }
}

impl PolicyStatus {
    pub fn as_db(self) -> (s: &'static str)
        ensures
            s@ == policy_status_text(self),
    {
        match self {
            PolicyStatus::Draft => "DRAFT",
            PolicyStatus::Scheduled => "SCHEDULED",
            PolicyStatus::Active => "ACTIVE",
            PolicyStatus::Paused => "PAUSED",
            PolicyStatus::Ended => "ENDED",
        }
    }

    /// Unknown statuses read as ended: a version this build does not understand must not
    /// accrue anything.
    pub fn from_db(raw: &str) -> (st: PolicyStatus)
        ensures
            st == policy_status_from_text(raw@),
    {
        if str_eq(raw, "DRAFT") {
            PolicyStatus::Draft
        } else if str_eq(raw, "SCHEDULED") {
            PolicyStatus::Scheduled
        } else if str_eq(raw, "ACTIVE") {
            PolicyStatus::Active
        } else if str_eq(raw, "PAUSED") {
            PolicyStatus::Paused
        } else {
            PolicyStatus::Ended
        }
    }

    /// Only a draft may be edited.
    pub fn is_editable(self) -> (r: bool)
        ensures
            r == (self == PolicyStatus::Draft),
    {
        self == PolicyStatus::Draft
    }
}

/// What kind of discount a reward gives.
#[derive(Debug, Clone, Copy, PartialEq, Eq, Structural)]
pub enum BenefitType {
    FixedAmount,
    Percentage,
    FreeItem,
}

pub open spec fn benefit_type_text(b: BenefitType) -> Seq<char> {
    match b {
        BenefitType::FixedAmount => "FIXED_AMOUNT"@,
        BenefitType::Percentage => "PERCENTAGE"@,
        BenefitType::FreeItem => "FREE_ITEM"@,
    }
}

impl BenefitType {
    pub fn as_db(self) -> (s: &'static str)
        ensures
            s@ == benefit_type_text(self),
    {
        match self {
            BenefitType::FixedAmount => "FIXED_AMOUNT",
            BenefitType::Percentage => "PERCENTAGE",
            BenefitType::FreeItem => "FREE_ITEM",
        }
    }

    /// Anything unrecognised reads as a fixed amount.
    pub fn from_db(raw: &str) -> (b: BenefitType)
        ensures
            b == (if raw@ == "PERCENTAGE"@ {
                BenefitType::Percentage
            } else if raw@ == "FREE_ITEM"@ {
                BenefitType::FreeItem
            } else {
                BenefitType::FixedAmount
            }),
    {
        if str_eq(raw, "PERCENTAGE") {
            BenefitType::Percentage
        } else if str_eq(raw, "FREE_ITEM") {
            BenefitType::FreeItem
        } else {
            BenefitType::FixedAmount
        }
    }
}

/// Everything a version says about earning a stamp.
#[derive(Debug, Clone, PartialEq, Eq)]
pub struct PolicyRules {
    /// 2 to 100, default 10.
    pub target_stamp_count: i16,
    /// 1 to 10, default 1.
    pub stamps_per_order: i16,
    /// Won, default 0.
    pub minimum_order_amount: i64,
    /// Accruals per business day, 1 to 20. `None` means unlimited.
    pub daily_earning_limit: Option<i16>,
    /// 1 to 60 minutes, default 5.
    pub duplicate_warning_minutes: i32,
    /// 1 to 730 days, default 180.
    pub stamp_validity_days: i16,
    pub eligible_item_ids: Vec<u128>,
    pub eligible_category_ids: Vec<u128>,
    pub excluded_item_ids: Vec<u128>,
}

impl Default for PolicyRules {
    fn default() -> (r: PolicyRules)
        ensures
            r.target_stamp_count == defaults::TARGET_STAMP_COUNT,
            r.stamps_per_order == defaults::STAMPS_PER_ORDER,
            r.minimum_order_amount == defaults::MINIMUM_ORDER_AMOUNT,
            r.daily_earning_limit == Some(defaults::DAILY_EARNING_LIMIT),
            r.duplicate_warning_minutes == defaults::DUPLICATE_WARNING_MINUTES,
            r.stamp_validity_days == defaults::STAMP_VALIDITY_DAYS,
            r.eligible_item_ids@.len() == 0,
            r.eligible_category_ids@.len() == 0,
            r.excluded_item_ids@.len() == 0,
    {
        PolicyRules {
            target_stamp_count: defaults::TARGET_STAMP_COUNT,
            stamps_per_order: defaults::STAMPS_PER_ORDER,
            minimum_order_amount: defaults::MINIMUM_ORDER_AMOUNT,
            daily_earning_limit: Some(defaults::DAILY_EARNING_LIMIT),
            duplicate_warning_minutes: defaults::DUPLICATE_WARNING_MINUTES,
            stamp_validity_days: defaults::STAMP_VALIDITY_DAYS,
            eligible_item_ids: Vec::new(),
            eligible_category_ids: Vec::new(),
            excluded_item_ids: Vec::new(),
        }
    }
}

impl PolicyRules {
    /// The item filter these rules carry, unchanged.
    pub fn restriction(&self) -> (r: ItemRestriction)
        ensures
            r.eligible_item_ids@ == self.eligible_item_ids@,
            r.eligible_category_ids@ == self.eligible_category_ids@,
            r.excluded_item_ids@ == self.excluded_item_ids@,
    {
        ItemRestriction {
            eligible_item_ids: copy_ids(&self.eligible_item_ids),
            eligible_category_ids: copy_ids(&self.eligible_category_ids),
            excluded_item_ids: copy_ids(&self.excluded_item_ids),
        }
    }

    /// How close together two accruals must be to draw a duplicate warning.
    pub fn duplicate_window(&self) -> (d: Duration)
        ensures
            d.micros == self.duplicate_warning_minutes * MICROS_PER_MINUTE,
    {
        Duration::minutes(self.duplicate_warning_minutes as i64)
    }

    /// How long a stamp earned under these rules stays spendable.
    pub fn stamp_validity(&self) -> (d: Duration)
        ensures
            d.micros == self.stamp_validity_days * MICROS_PER_DAY,
    {
        Duration::days(self.stamp_validity_days as i64)
    }
}

/// The reward a completed board pays out.
#[derive(Debug, Clone, PartialEq, Eq)]
pub struct RewardDefinition {
    pub benefit_type: BenefitType,
    pub fixed_amount: Option<i64>,
    /// 1 to 100.
    pub percentage: Option<i16>,
    pub maximum_discount_amount: Option<i64>,
    pub free_item_ids: Vec<u128>,
    pub minimum_order_amount: i64,
    /// 1 to 365 days, default 30.
    pub validity_days: i16,
    /// Shown on the wallet card.
    pub title: String,
    /// The usage conditions in the customer's words.
    pub description: String,
    /// The notice that must exist before a policy may go live.
    pub customer_notice: String,
}

impl Default for RewardDefinition {
    fn default() -> (r: RewardDefinition)
        ensures
            r.benefit_type == BenefitType::FixedAmount,
            r.fixed_amount is None,
            r.percentage is None,
            r.maximum_discount_amount is None,
            r.free_item_ids@.len() == 0,
            r.minimum_order_amount == 0,
            r.validity_days == defaults::REWARD_VALIDITY_DAYS,
            r.title@.len() == 0,
            r.description@.len() == 0,
            r.customer_notice@.len() == 0,
    {
        RewardDefinition {
            benefit_type: BenefitType::FixedAmount,
            fixed_amount: None,
            percentage: None,
            maximum_discount_amount: None,
            free_item_ids: Vec::new(),
            minimum_order_amount: 0,
            validity_days: defaults::REWARD_VALIDITY_DAYS,
            title: String::new(),
            description: String::new(),
            customer_notice: String::new(),
        }
    }
}

/// `s` with `issue` appended when `cond` holds.
pub open spec fn noted(
    s: Seq<(Seq<char>, Seq<char>, Seq<char>)>,
    cond: bool,
    issue: (Seq<char>, Seq<char>, Seq<char>),
) -> Seq<(Seq<char>, Seq<char>, Seq<char>)> {
    if cond {
        s.push(issue)
    } else {
        s
    }
}

fn note(errors: &mut Vec<FieldError>, cond: bool, field: &str, code: &str, message: &str)
    ensures
        fields_view(final(errors)@) == noted(fields_view(old(errors)@), cond, (field@, code@, message@)),
{
    if cond {
        let ghost before = errors@;
        errors.push(FieldError::new(field, code, message));
        assert(fields_view(errors@) == fields_view(before).push((field@, code@, message@)));
    }
}

/// The fields of `rules` outside their ranges, in the order they are checked, each as
/// `(field, code, message)`.
pub open spec fn rule_issues(r: PolicyRules) -> Seq<(Seq<char>, Seq<char>, Seq<char>)> {
    let s = Seq::empty();
    let s = noted(s, !(2 <= r.target_stamp_count <= 100), ("rules.target_stamp_count"@, "OUT_OF_RANGE"@, "목표 도장 수는 2~100개여야 합니다."@));
    let s = noted(s, !(1 <= r.stamps_per_order <= 10), ("rules.stamps_per_order"@, "OUT_OF_RANGE"@, "주문당 적립 수는 1~10개여야 합니다."@));
    let s = noted(s, !(0 <= r.minimum_order_amount <= 100_000_000), ("rules.minimum_order_amount"@, "OUT_OF_RANGE"@, "최소 주문액은 0~100,000,000원이어야 합니다."@));
    let s = noted(s, (r.daily_earning_limit matches Some(l) && !(1 <= l <= 20)), ("rules.daily_earning_limit"@, "OUT_OF_RANGE"@, "영업일당 적립 횟수는 1~20회이거나 무제한이어야 합니다."@));
    let s = noted(s, !(1 <= r.duplicate_warning_minutes <= 60), ("rules.duplicate_warning_minutes"@, "OUT_OF_RANGE"@, "중복 경고 구간은 1~60분이어야 합니다."@));
    let s = noted(s, !(1 <= r.stamp_validity_days <= 730), ("rules.stamp_validity_days"@, "OUT_OF_RANGE"@, "도장 유효기간은 1~730일이어야 합니다."@));
    s
}

/// Whether a validation outcome reports exactly `issues`: success when there are none,
/// otherwise a `VALIDATION_FAILED` error listing them.
pub open spec fn reports(r: Result<(), ApiError>, issues: Seq<(Seq<char>, Seq<char>, Seq<char>)>) -> bool {
    match r {
        Ok(()) => issues.len() == 0,
        Err(e) => {
            &&& issues.len() > 0
            &&& e.code == ErrorCode::ValidationFailed
            &&& e.message@ == code_text(ErrorCode::ValidationFailed)
            &&& e.internal is None
            &&& fields_view(e.field_errors@) == issues
        },
    }
}

fn finish(errors: Vec<FieldError>) -> (r: Result<(), ApiError>)
    ensures
        reports(r, fields_view(errors@)),
{
    if errors.len() == 0 {
        Ok(())
    } else {
        Err(ApiError::with_fields(ErrorCode::ValidationFailed, errors))
    }
}

/// Check a draft's numbers against their ranges, naming every field at fault.
pub fn validate_rules(rules: &PolicyRules) -> (r: Result<(), ApiError>)
    ensures
        reports(r, rule_issues(*rules)),
{
    let mut errors: Vec<FieldError> = Vec::new();
    assert(fields_view(errors@) == Seq::<(Seq<char>, Seq<char>, Seq<char>)>::empty());
    let c = !(2 <= rules.target_stamp_count && rules.target_stamp_count <= 100);
    note(&mut errors, c, "rules.target_stamp_count", "OUT_OF_RANGE", "목표 도장 수는 2~100개여야 합니다.");
    let c = !(1 <= rules.stamps_per_order && rules.stamps_per_order <= 10);
    note(&mut errors, c, "rules.stamps_per_order", "OUT_OF_RANGE", "주문당 적립 수는 1~10개여야 합니다.");
    let c = !(0 <= rules.minimum_order_amount && rules.minimum_order_amount <= 100_000_000);
    note(&mut errors, c, "rules.minimum_order_amount", "OUT_OF_RANGE", "최소 주문액은 0~100,000,000원이어야 합니다.");
    let c = match rules.daily_earning_limit { Some(l) => !(1 <= l && l <= 20), None => false };
    note(&mut errors, c, "rules.daily_earning_limit", "OUT_OF_RANGE", "영업일당 적립 횟수는 1~20회이거나 무제한이어야 합니다.");
    let c = !(1 <= rules.duplicate_warning_minutes && rules.duplicate_warning_minutes <= 60);
    note(&mut errors, c, "rules.duplicate_warning_minutes", "OUT_OF_RANGE", "중복 경고 구간은 1~60분이어야 합니다.");
    let c = !(1 <= rules.stamp_validity_days && rules.stamp_validity_days <= 730);
    note(&mut errors, c, "rules.stamp_validity_days", "OUT_OF_RANGE", "도장 유효기간은 1~730일이어야 합니다.");
    finish(errors)
}

/// What is wrong with `reward`, each as `(field, code, message)`. A draft is checked for
/// contradictions only; `for_publish` adds what a live reward must also have.
pub open spec fn reward_issues(w: RewardDefinition, for_publish: bool) -> Seq<(Seq<char>, Seq<char>, Seq<char>)> {
    let s = Seq::empty();
    let s = noted(s, !(1 <= w.validity_days <= 365), ("reward.validity_days"@, "OUT_OF_RANGE"@, "리워드 유효기간은 1~365일이어야 합니다."@));
    let s = noted(s, w.minimum_order_amount < 0, ("reward.minimum_order_amount"@, "OUT_OF_RANGE"@, "최소 주문액은 0원 이상이어야 합니다."@));
    let s = match w.benefit_type {
        BenefitType::FixedAmount => {
            let s = noted(s, (w.fixed_amount matches Some(a) && a <= 0) || (for_publish && w.fixed_amount is None),
                ("reward.fixed_amount"@, "REQUIRED"@, "정액 할인액을 입력해 주세요."@));
            noted(s, w.percentage is Some || w.free_item_ids@.len() > 0,
                ("reward.benefit_type"@, "CONFLICT"@, "정액 할인에는 할인율이나 무료 품목을 함께 지정할 수 없습니다."@))
        },
        BenefitType::Percentage => {
            let s = noted(s, (w.percentage matches Some(p) && !(1 <= p <= 100)) || (for_publish && w.percentage is None),
                ("reward.percentage"@, "OUT_OF_RANGE"@, "할인율은 1~100% 여야 합니다."@));
            let s = noted(s, (w.maximum_discount_amount matches Some(a) && a <= 0)
                || ((for_publish || w.percentage is Some) && w.maximum_discount_amount is None),
                ("reward.maximum_discount_amount"@, "REQUIRED"@, "정률 할인에는 최대 할인액이 필요합니다."@));
            noted(s, w.fixed_amount is Some || w.free_item_ids@.len() > 0,
                ("reward.benefit_type"@, "CONFLICT"@, "정률 할인에는 정액 할인액이나 무료 품목을 함께 지정할 수 없습니다."@))
        },
        BenefitType::FreeItem => {
            let s = noted(s, for_publish && w.free_item_ids@.len() == 0,
                ("reward.free_item_ids"@, "REQUIRED"@, "무료 제공할 품목을 하나 이상 선택해 주세요."@));
            noted(s, w.fixed_amount is Some || w.percentage is Some,
                ("reward.benefit_type"@, "CONFLICT"@, "무료 품목에는 할인액이나 할인율을 함께 지정할 수 없습니다."@))
        },
    };
    let s = noted(s, for_publish && is_blank(w.title@), ("reward.title"@, "REQUIRED"@, "리워드 이름을 입력해 주세요."@));
    let s = noted(s, for_publish && is_blank(w.description@), ("reward.description"@, "REQUIRED"@, "리워드 사용 조건을 입력해 주세요."@));
    noted(s, for_publish && is_blank(w.customer_notice@), ("reward.customer_notice"@, "REQUIRED"@, "고객 고지 문구를 입력해 주세요."@))
}

proof fn lemma_noted_grows(
    s1: Seq<(Seq<char>, Seq<char>, Seq<char>)>,
    s2: Seq<(Seq<char>, Seq<char>, Seq<char>)>,
    c1: bool,
    c2: bool,
    x: (Seq<char>, Seq<char>, Seq<char>),
)
    requires
        forall|y: (Seq<char>, Seq<char>, Seq<char>)| s1.contains(y) ==> s2.contains(y),
        c1 ==> c2,
    ensures
        forall|y: (Seq<char>, Seq<char>, Seq<char>)| noted(s1, c1, x).contains(y) ==> noted(s2, c2, x).contains(y),
{
    assert forall|y: (Seq<char>, Seq<char>, Seq<char>)| noted(s1, c1, x).contains(y) implies noted(s2, c2, x).contains(y) by {
        if c1 {
            let k = choose|k: int| 0 <= k < noted(s1, c1, x).len() && noted(s1, c1, x)[k] == y;
            if k == s1.len() {
                assert(noted(s2, c2, x)[s2.len() as int] == x);
            } else {
                assert(s1.contains(s1[k]));
                let m = choose|m: int| 0 <= m < s2.len() && s2[m] == y;
                assert(noted(s2, c2, x)[m] == y);
            }
        } else if c2 {
            let m = choose|m: int| 0 <= m < s2.len() && s2[m] == y;
            assert(noted(s2, c2, x)[m] == y);
        }
    }
}

/// A draft is checked by a subset of the publish rules: every issue the draft check
/// reports, the publish check reports too, so a reward fit to publish is a valid draft.
pub proof fn law_a_publishable_reward_is_a_valid_draft(w: RewardDefinition)
    ensures
        forall|y: (Seq<char>, Seq<char>, Seq<char>)| reward_issues(w, false).contains(y) ==> reward_issues(w, true).contains(y),
        reward_issues(w, true).len() == 0 ==> reward_issues(w, false).len() == 0,
{
    let e = Seq::<(Seq<char>, Seq<char>, Seq<char>)>::empty();
    let x1 = ("reward.validity_days"@, "OUT_OF_RANGE"@, "리워드 유효기간은 1~365일이어야 합니다."@);
    let c1 = !(1 <= w.validity_days <= 365);
    lemma_noted_grows(e, e, c1, c1, x1);
    let a1 = noted(e, c1, x1);
    let x2 = ("reward.minimum_order_amount"@, "OUT_OF_RANGE"@, "최소 주문액은 0원 이상이어야 합니다."@);
    let c2 = w.minimum_order_amount < 0;
    lemma_noted_grows(a1, a1, c2, c2, x2);
    let a2 = noted(a1, c2, x2);
    let (d3, p3) = match w.benefit_type {
        BenefitType::FixedAmount => {
            let x = ("reward.fixed_amount"@, "REQUIRED"@, "정액 할인액을 입력해 주세요."@);
            let cd = (w.fixed_amount matches Some(a) && a <= 0) || (false && w.fixed_amount is None);
            let cp = (w.fixed_amount matches Some(a) && a <= 0) || (true && w.fixed_amount is None);
            lemma_noted_grows(a2, a2, cd, cp, x);
            let y = ("reward.benefit_type"@, "CONFLICT"@, "정액 할인에는 할인율이나 무료 품목을 함께 지정할 수 없습니다."@);
            let c = w.percentage is Some || w.free_item_ids@.len() > 0;
            lemma_noted_grows(noted(a2, cd, x), noted(a2, cp, x), c, c, y);
            (noted(noted(a2, cd, x), c, y), noted(noted(a2, cp, x), c, y))
        },
        BenefitType::Percentage => {
            let x = ("reward.percentage"@, "OUT_OF_RANGE"@, "할인율은 1~100% 여야 합니다."@);
            let cd = (w.percentage matches Some(p) && !(1 <= p <= 100)) || (false && w.percentage is None);
            let cp = (w.percentage matches Some(p) && !(1 <= p <= 100)) || (true && w.percentage is None);
            lemma_noted_grows(a2, a2, cd, cp, x);
            let y = ("reward.maximum_discount_amount"@, "REQUIRED"@, "정률 할인에는 최대 할인액이 필요합니다."@);
            let yd = (w.maximum_discount_amount matches Some(a) && a <= 0)
                || ((false || w.percentage is Some) && w.maximum_discount_amount is None);
            let yp = (w.maximum_discount_amount matches Some(a) && a <= 0)
                || ((true || w.percentage is Some) && w.maximum_discount_amount is None);
            lemma_noted_grows(noted(a2, cd, x), noted(a2, cp, x), yd, yp, y);
            let z = ("reward.benefit_type"@, "CONFLICT"@, "정률 할인에는 정액 할인액이나 무료 품목을 함께 지정할 수 없습니다."@);
            let c = w.fixed_amount is Some || w.free_item_ids@.len() > 0;
            lemma_noted_grows(noted(noted(a2, cd, x), yd, y), noted(noted(a2, cp, x), yp, y), c, c, z);
            (noted(noted(noted(a2, cd, x), yd, y), c, z), noted(noted(noted(a2, cp, x), yp, y), c, z))
        },
        BenefitType::FreeItem => {
            let x = ("reward.free_item_ids"@, "REQUIRED"@, "무료 제공할 품목을 하나 이상 선택해 주세요."@);
            let cd = false && w.free_item_ids@.len() == 0;
            let cp = true && w.free_item_ids@.len() == 0;
            lemma_noted_grows(a2, a2, cd, cp, x);
            let y = ("reward.benefit_type"@, "CONFLICT"@, "무료 품목에는 할인액이나 할인율을 함께 지정할 수 없습니다."@);
            let c = w.fixed_amount is Some || w.percentage is Some;
            lemma_noted_grows(noted(a2, cd, x), noted(a2, cp, x), c, c, y);
            (noted(noted(a2, cd, x), c, y), noted(noted(a2, cp, x), c, y))
        },
    };
    let t = ("reward.title"@, "REQUIRED"@, "리워드 이름을 입력해 주세요."@);
    lemma_noted_grows(d3, p3, false && is_blank(w.title@), true && is_blank(w.title@), t);
    let d4 = noted(d3, false && is_blank(w.title@), t);
    let p4 = noted(p3, true && is_blank(w.title@), t);
    let u = ("reward.description"@, "REQUIRED"@, "리워드 사용 조건을 입력해 주세요."@);
    lemma_noted_grows(d4, p4, false && is_blank(w.description@), true && is_blank(w.description@), u);
    let d5 = noted(d4, false && is_blank(w.description@), u);
    let p5 = noted(p4, true && is_blank(w.description@), u);
    let v = ("reward.customer_notice"@, "REQUIRED"@, "고객 고지 문구를 입력해 주세요."@);
    lemma_noted_grows(d5, p5, false && is_blank(w.customer_notice@), true && is_blank(w.customer_notice@), v);
    assert(reward_issues(w, false) == noted(d5, false && is_blank(w.customer_notice@), v));
    assert(reward_issues(w, true) == noted(p5, true && is_blank(w.customer_notice@), v));
    if reward_issues(w, true).len() == 0 && reward_issues(w, false).len() > 0 {
        assert(reward_issues(w, false).contains(reward_issues(w, false)[0]));
    }
}

proof fn lemma_noted_keeps(
    s: Seq<(Seq<char>, Seq<char>, Seq<char>)>,
    c: bool,
    x: (Seq<char>, Seq<char>, Seq<char>),
)
    ensures
        forall|y: (Seq<char>, Seq<char>, Seq<char>)| s.contains(y) ==> noted(s, c, x).contains(y),
        c ==> noted(s, c, x).contains(x),
        forall|y: (Seq<char>, Seq<char>, Seq<char>)| noted(s, c, x).contains(y) ==> s.contains(y) || (c && y == x),
{
    assert forall|y: (Seq<char>, Seq<char>, Seq<char>)| s.contains(y) implies noted(s, c, x).contains(y) by {
        let k = choose|k: int| 0 <= k < s.len() && s[k] == y;
        assert(noted(s, c, x)[k] == y);
    }
    if c {
        assert(noted(s, c, x)[s.len() as int] == x);
    }
    assert forall|y: (Seq<char>, Seq<char>, Seq<char>)| noted(s, c, x).contains(y) implies s.contains(y) || (c && y == x) by {
        let k = choose|k: int| 0 <= k < noted(s, c, x).len() && noted(s, c, x)[k] == y;
        if k < s.len() {
            assert(s[k] == y);
        }
    }
}

proof fn lemma_noted_adds_no_code(
    s: Seq<(Seq<char>, Seq<char>, Seq<char>)>,
    c: bool,
    x: (Seq<char>, Seq<char>, Seq<char>),
    code: Seq<char>,
)
    requires
        forall|y: (Seq<char>, Seq<char>, Seq<char>)| s.contains(y) ==> y.1 != code,
        c ==> x.1 != code,
    ensures
        forall|y: (Seq<char>, Seq<char>, Seq<char>)| noted(s, c, x).contains(y) ==> y.1 != code,
{
    lemma_noted_keeps(s, c, x);
    assert forall|y: (Seq<char>, Seq<char>, Seq<char>)| noted(s, c, x).contains(y) implies y.1 != code by {
        assert(s.contains(y) || (c && y == x));
    }
}

/// A reward mixes benefits when it carries a benefit its type does not give: an amount
/// or free items beside a percentage, a percentage or free items beside an amount, an
/// amount or a percentage beside free items.
pub open spec fn mixes_benefits(w: RewardDefinition) -> bool {
    match w.benefit_type {
        BenefitType::FixedAmount => w.percentage is Some || w.free_item_ids@.len() > 0,
        BenefitType::Percentage => w.fixed_amount is Some || w.free_item_ids@.len() > 0,
        BenefitType::FreeItem => w.fixed_amount is Some || w.percentage is Some,
    }
}

/// A reward that mixes benefits is always reported with a `reward.benefit_type` conflict,
/// for a draft and for publishing alike, in words that name its own type; one that does
/// not is never reported with a conflict.
pub proof fn law_a_reward_gives_one_kind_of_benefit(w: RewardDefinition, for_publish: bool)
    ensures
        w.benefit_type == BenefitType::FixedAmount && (w.percentage is Some || w.free_item_ids@.len() > 0)
            ==> reward_issues(w, for_publish).contains(("reward.benefit_type"@, "CONFLICT"@,
                "정액 할인에는 할인율이나 무료 품목을 함께 지정할 수 없습니다."@)),
        w.benefit_type == BenefitType::Percentage && (w.fixed_amount is Some || w.free_item_ids@.len() > 0)
            ==> reward_issues(w, for_publish).contains(("reward.benefit_type"@, "CONFLICT"@,
                "정률 할인에는 정액 할인액이나 무료 품목을 함께 지정할 수 없습니다."@)),
        w.benefit_type == BenefitType::FreeItem && (w.fixed_amount is Some || w.percentage is Some)
            ==> reward_issues(w, for_publish).contains(("reward.benefit_type"@, "CONFLICT"@,
                "무료 품목에는 할인액이나 할인율을 함께 지정할 수 없습니다."@)),
        mixes_benefits(w) ==> reward_issues(w, for_publish).len() > 0,
        !mixes_benefits(w) ==> forall|k: int| 0 <= k < reward_issues(w, for_publish).len()
            ==> #[trigger] reward_issues(w, for_publish)[k].1 != "CONFLICT"@,
{
    reveal_strlit("CONFLICT");
    reveal_strlit("OUT_OF_RANGE");
    reveal_strlit("REQUIRED");
    let fp = for_publish;
    let e = Seq::<(Seq<char>, Seq<char>, Seq<char>)>::empty();
    let x1 = ("reward.validity_days"@, "OUT_OF_RANGE"@, "리워드 유효기간은 1~365일이어야 합니다."@);
    let c1 = !(1 <= w.validity_days <= 365);
    lemma_noted_keeps(e, c1, x1);
    let a1 = noted(e, c1, x1);
    let x2 = ("reward.minimum_order_amount"@, "OUT_OF_RANGE"@, "최소 주문액은 0원 이상이어야 합니다."@);
    let c2 = w.minimum_order_amount < 0;
    lemma_noted_keeps(a1, c2, x2);
    let a2 = noted(a1, c2, x2);
    let a3 = match w.benefit_type {
        BenefitType::FixedAmount => {
            let x = ("reward.fixed_amount"@, "REQUIRED"@, "정액 할인액을 입력해 주세요."@);
            let cx = (w.fixed_amount matches Some(a) && a <= 0) || (fp && w.fixed_amount is None);
            lemma_noted_keeps(a2, cx, x);
            let y = ("reward.benefit_type"@, "CONFLICT"@, "정액 할인에는 할인율이나 무료 품목을 함께 지정할 수 없습니다."@);
            let cy = w.percentage is Some || w.free_item_ids@.len() > 0;
            lemma_noted_keeps(noted(a2, cx, x), cy, y);
            noted(noted(a2, cx, x), cy, y)
        },
        BenefitType::Percentage => {
            let x = ("reward.percentage"@, "OUT_OF_RANGE"@, "할인율은 1~100% 여야 합니다."@);
            let cx = (w.percentage matches Some(p) && !(1 <= p <= 100)) || (fp && w.percentage is None);
            lemma_noted_keeps(a2, cx, x);
            let y = ("reward.maximum_discount_amount"@, "REQUIRED"@, "정률 할인에는 최대 할인액이 필요합니다."@);
            let cy = (w.maximum_discount_amount matches Some(a) && a <= 0)
                || ((fp || w.percentage is Some) && w.maximum_discount_amount is None);
            lemma_noted_keeps(noted(a2, cx, x), cy, y);
            let z = ("reward.benefit_type"@, "CONFLICT"@, "정률 할인에는 정액 할인액이나 무료 품목을 함께 지정할 수 없습니다."@);
            let cz = w.fixed_amount is Some || w.free_item_ids@.len() > 0;
            lemma_noted_keeps(noted(noted(a2, cx, x), cy, y), cz, z);
            noted(noted(noted(a2, cx, x), cy, y), cz, z)
        },
        BenefitType::FreeItem => {
            let x = ("reward.free_item_ids"@, "REQUIRED"@, "무료 제공할 품목을 하나 이상 선택해 주세요."@);
            let cx = fp && w.free_item_ids@.len() == 0;
            lemma_noted_keeps(a2, cx, x);
            let y = ("reward.benefit_type"@, "CONFLICT"@, "무료 품목에는 할인액이나 할인율을 함께 지정할 수 없습니다."@);
            let cy = w.fixed_amount is Some || w.percentage is Some;
            lemma_noted_keeps(noted(a2, cx, x), cy, y);
            noted(noted(a2, cx, x), cy, y)
        },
    };
    let t = ("reward.title"@, "REQUIRED"@, "리워드 이름을 입력해 주세요."@);
    lemma_noted_keeps(a3, fp && is_blank(w.title@), t);
    let a4 = noted(a3, fp && is_blank(w.title@), t);
    let u = ("reward.description"@, "REQUIRED"@, "리워드 사용 조건을 입력해 주세요."@);
    lemma_noted_keeps(a4, fp && is_blank(w.description@), u);
    let a5 = noted(a4, fp && is_blank(w.description@), u);
    let v = ("reward.customer_notice"@, "REQUIRED"@, "고객 고지 문구를 입력해 주세요."@);
    lemma_noted_keeps(a5, fp && is_blank(w.customer_notice@), v);
    let a6 = noted(a5, fp && is_blank(w.customer_notice@), v);
    assert(reward_issues(w, fp) == a6);
    if mixes_benefits(w) {
        let k = choose|k: int| 0 <= k < a3.len() && a3[k].1 == "CONFLICT"@;
        assert(a3.contains(a3[k]));
        assert(a6.contains(a3[k]));
    }
    if !mixes_benefits(w) {
        let cf = "CONFLICT"@;
        assert("REQUIRED"@ != cf) by {
            assert("REQUIRED"@[0] != cf[0]);
        }
        assert("OUT_OF_RANGE"@ != cf) by {
            assert("OUT_OF_RANGE"@.len() != cf.len());
        }
        lemma_noted_adds_no_code(e, c1, x1, cf);
        lemma_noted_adds_no_code(a1, c2, x2, cf);
        match w.benefit_type {
            BenefitType::FixedAmount => {
                let x = ("reward.fixed_amount"@, "REQUIRED"@, "정액 할인액을 입력해 주세요."@);
                let cx = (w.fixed_amount matches Some(a) && a <= 0) || (fp && w.fixed_amount is None);
                lemma_noted_adds_no_code(a2, cx, x, cf);
                let y = ("reward.benefit_type"@, "CONFLICT"@, "정액 할인에는 할인율이나 무료 품목을 함께 지정할 수 없습니다."@);
                lemma_noted_adds_no_code(noted(a2, cx, x), false, y, cf);
            },
            BenefitType::Percentage => {
                let x = ("reward.percentage"@, "OUT_OF_RANGE"@, "할인율은 1~100% 여야 합니다."@);
                let cx = (w.percentage matches Some(p) && !(1 <= p <= 100)) || (fp && w.percentage is None);
                lemma_noted_adds_no_code(a2, cx, x, cf);
                let y = ("reward.maximum_discount_amount"@, "REQUIRED"@, "정률 할인에는 최대 할인액이 필요합니다."@);
                let cy = (w.maximum_discount_amount matches Some(a) && a <= 0)
                    || ((fp || w.percentage is Some) && w.maximum_discount_amount is None);
                lemma_noted_adds_no_code(noted(a2, cx, x), cy, y, cf);
                let z = ("reward.benefit_type"@, "CONFLICT"@, "정률 할인에는 정액 할인액이나 무료 품목을 함께 지정할 수 없습니다."@);
                lemma_noted_adds_no_code(noted(noted(a2, cx, x), cy, y), false, z, cf);
            },
            BenefitType::FreeItem => {
                let x = ("reward.free_item_ids"@, "REQUIRED"@, "무료 제공할 품목을 하나 이상 선택해 주세요."@);
                let cx = fp && w.free_item_ids@.len() == 0;
                lemma_noted_adds_no_code(a2, cx, x, cf);
                let y = ("reward.benefit_type"@, "CONFLICT"@, "무료 품목에는 할인액이나 할인율을 함께 지정할 수 없습니다."@);
                lemma_noted_adds_no_code(noted(a2, cx, x), false, y, cf);
            },
        }
        lemma_noted_adds_no_code(a3, fp && is_blank(w.title@), t, cf);
        lemma_noted_adds_no_code(a4, fp && is_blank(w.description@), u, cf);
        lemma_noted_adds_no_code(a5, fp && is_blank(w.customer_notice@), v, cf);
        assert forall|k: int| 0 <= k < a6.len() implies #[trigger] a6[k].1 != "CONFLICT"@ by {
            assert(a6.contains(a6[k]));
        }
    }
}

/// Check a reward: contradictions always, completeness and wording only for publishing.
pub fn validate_reward(reward: &RewardDefinition, for_publish: bool) -> (r: Result<(), ApiError>)
    ensures
        reports(r, reward_issues(*reward, for_publish)),
{
    let mut errors: Vec<FieldError> = Vec::new();
    assert(fields_view(errors@) == Seq::<(Seq<char>, Seq<char>, Seq<char>)>::empty());
    let c = !(1 <= reward.validity_days && reward.validity_days <= 365);
    note(&mut errors, c, "reward.validity_days", "OUT_OF_RANGE", "리워드 유효기간은 1~365일이어야 합니다.");
    note(&mut errors, reward.minimum_order_amount < 0, "reward.minimum_order_amount", "OUT_OF_RANGE", "최소 주문액은 0원 이상이어야 합니다.");
    let has_items = reward.free_item_ids.len() > 0;
    match reward.benefit_type {
        BenefitType::FixedAmount => {
            let bad = match reward.fixed_amount { Some(a) => a <= 0, None => false };
            let c = bad || (for_publish && reward.fixed_amount.is_none());
            note(&mut errors, c, "reward.fixed_amount", "REQUIRED", "정액 할인액을 입력해 주세요.");
            let c = reward.percentage.is_some() || has_items;
            note(&mut errors, c, "reward.benefit_type", "CONFLICT", "정액 할인에는 할인율이나 무료 품목을 함께 지정할 수 없습니다.");
        },
        BenefitType::Percentage => {
            let bad = match reward.percentage { Some(p) => !(1 <= p && p <= 100), None => false };
            let c = bad || (for_publish && reward.percentage.is_none());
            note(&mut errors, c, "reward.percentage", "OUT_OF_RANGE", "할인율은 1~100% 여야 합니다.");
            let bad = match reward.maximum_discount_amount { Some(a) => a <= 0, None => false };
            let c = bad || ((for_publish || reward.percentage.is_some()) && reward.maximum_discount_amount.is_none());
            note(&mut errors, c, "reward.maximum_discount_amount", "REQUIRED", "정률 할인에는 최대 할인액이 필요합니다.");
            let c = reward.fixed_amount.is_some() || has_items;
            note(&mut errors, c, "reward.benefit_type", "CONFLICT", "정률 할인에는 정액 할인액이나 무료 품목을 함께 지정할 수 없습니다.");
        },
        BenefitType::FreeItem => {
            note(&mut errors, for_publish && !has_items, "reward.free_item_ids", "REQUIRED", "무료 제공할 품목을 하나 이상 선택해 주세요.");
            let c = reward.fixed_amount.is_some() || reward.percentage.is_some();
            note(&mut errors, c, "reward.benefit_type", "CONFLICT", "무료 품목에는 할인액이나 할인율을 함께 지정할 수 없습니다.");
        },
    }
    let c = for_publish && is_blank_str(reward.title.as_str());
    note(&mut errors, c, "reward.title", "REQUIRED", "리워드 이름을 입력해 주세요.");
    let c = for_publish && is_blank_str(reward.description.as_str());
    note(&mut errors, c, "reward.description", "REQUIRED", "리워드 사용 조건을 입력해 주세요.");
    let c = for_publish && is_blank_str(reward.customer_notice.as_str());
    note(&mut errors, c, "reward.customer_notice", "REQUIRED", "고객 고지 문구를 입력해 주세요.");
    finish(errors)
}

/// Only a draft can be edited; every other status is refused with words that say what
/// the owner should do instead.
pub fn edit_gate(status: PolicyStatus) -> (r: Result<(), ApiError>)
    ensures
        status == PolicyStatus::Draft ==> r is Ok,
        status == PolicyStatus::Active ==> (r matches Err(e) && e.code == ErrorCode::PolicyNotEditable
            && e.message@ == "활성 정책은 수정할 수 없습니다. 새 버전을 만들어 게시해 주세요."@),
        status == PolicyStatus::Scheduled ==> (r matches Err(e) && e.code == ErrorCode::PolicyNotEditable
            && e.message@ == "예약된 정책은 수정할 수 없습니다. 예약을 취소하거나 새 버전을 만들어 주세요."@),
        (status == PolicyStatus::Paused || status == PolicyStatus::Ended) ==> (r matches Err(e)
            && e.code == ErrorCode::PolicyNotEditable && e.message@ == "종료된 정책은 수정할 수 없습니다."@),
{
    match status {
        PolicyStatus::Draft => Ok(()),
        PolicyStatus::Active => Err(ApiError::with_message(
            ErrorCode::PolicyNotEditable,
            "활성 정책은 수정할 수 없습니다. 새 버전을 만들어 게시해 주세요.",
        )),
        PolicyStatus::Scheduled => Err(ApiError::with_message(
            ErrorCode::PolicyNotEditable,
            "예약된 정책은 수정할 수 없습니다. 예약을 취소하거나 새 버전을 만들어 주세요.",
        )),
        _ => Err(ApiError::with_message(ErrorCode::PolicyNotEditable, "종료된 정책은 수정할 수 없습니다.")),
    }
}

/// How a published draft goes live: at once, ending the version it replaces, or at a
/// later moment.
#[derive(Debug, Clone, Copy, PartialEq, Eq, Structural)]
pub enum PublishPlan {
    ActivateNow,
    Schedule { starts_at: i64 },
}

/// The publishing decision, checked in order: only a draft is published; its rules must
/// be in range; its reward must be complete; it may not end in the past; and a scheduled
/// start must come before its end. A start at or before `now`, or none, goes live now.
pub fn publish_plan(
    status: PolicyStatus,
    rules: &PolicyRules,
    reward: &RewardDefinition,
    ends_at: Option<i64>,
    effective_at: Option<i64>,
    now: i64,
) -> (r: Result<PublishPlan, ApiError>)
    ensures
        status != PolicyStatus::Draft ==> (r matches Err(e) && e.code == ErrorCode::InvalidStateTransition
            && e.message@ == "초안 상태의 정책만 게시할 수 있습니다."@),
        status == PolicyStatus::Draft && rule_issues(*rules).len() > 0
            ==> (r matches Err(e) && reports(Err(e), rule_issues(*rules))),
        status == PolicyStatus::Draft && rule_issues(*rules).len() == 0 && reward_issues(*reward, true).len() > 0
            ==> (r matches Err(e) && reports(Err(e), reward_issues(*reward, true))),
        status == PolicyStatus::Draft && rule_issues(*rules).len() == 0 && reward_issues(*reward, true).len() == 0 ==> {
            if ends_at matches Some(end) && end <= now {
                r matches Err(e) && e.code == ErrorCode::UnprocessableRequest
                    && e.message@ == "이미 지난 종료 시각으로는 게시할 수 없습니다."@
            } else {
                match effective_at {
                    Some(start) => if start <= now {
                        r == Ok::<PublishPlan, ApiError>(PublishPlan::ActivateNow)
                    } else if ends_at matches Some(end) && end <= start {
                        r matches Err(e) && e.code == ErrorCode::UnprocessableRequest
                            && e.message@ == "종료 시각은 시작 시각보다 뒤여야 합니다."@
                    } else {
                        r == Ok::<PublishPlan, ApiError>(PublishPlan::Schedule { starts_at: start })
                    },
                    None => r == Ok::<PublishPlan, ApiError>(PublishPlan::ActivateNow),
                }
            }
        },
{
    if status != PolicyStatus::Draft {
        return Err(ApiError::with_message(ErrorCode::InvalidStateTransition, "초안 상태의 정책만 게시할 수 있습니다."));
    }
    if let Err(e) = validate_rules(rules) {
        return Err(e);
    }
    if let Err(e) = validate_reward(reward, true) {
        return Err(e);
    }
    if let Some(end) = ends_at {
        if end <= now {
            return Err(ApiError::with_message(ErrorCode::UnprocessableRequest, "이미 지난 종료 시각으로는 게시할 수 없습니다."));
        }
    }
    match effective_at {
        None => Ok(PublishPlan::ActivateNow),
        Some(start) => {
            if start <= now {
                return Ok(PublishPlan::ActivateNow);
            }
            if let Some(end) = ends_at {
                if end <= start {
                    return Err(ApiError::with_message(ErrorCode::UnprocessableRequest, "종료 시각은 시작 시각보다 뒤여야 합니다."));
                }
            }
            Ok(PublishPlan::Schedule { starts_at: start })
        },
    }
}

/// Every catalog item a policy names, in the rules or as a free reward item, once each
/// and in increasing order: the items that must exist in the store and be selectable.
pub fn selectable_items(rules: &PolicyRules, reward: &RewardDefinition) -> (items: Vec<u128>)
    ensures
        forall|a: int, b: int| 0 <= a < b < items@.len() ==> items@[a] < items@[b],
        items@.to_set() == rules.eligible_item_ids@.to_set() + rules.excluded_item_ids@.to_set()
            + reward.free_item_ids@.to_set(),
{
    let mut items: Vec<u128> = Vec::new();
    insert_all_sorted(&mut items, &rules.eligible_item_ids);
    insert_all_sorted(&mut items, &rules.excluded_item_ids);
    insert_all_sorted(&mut items, &reward.free_item_ids);
    assert(Seq::<u128>::empty().to_set() =~= Set::<u128>::empty());
    assert(items@.to_set() =~= rules.eligible_item_ids@.to_set() + rules.excluded_item_ids@.to_set()
        + reward.free_item_ids@.to_set());
    items
}

/// The live policy an accrual finds must be inside its own window at `now`: started,
/// and not yet ended.
pub fn accrual_window_gate(starts_at: Option<i64>, ends_at: Option<i64>, now: i64) -> (r: Result<(), ApiError>)
    ensures
        (starts_at matches Some(s) && now < s) ==> (r matches Err(e) && e.code == ErrorCode::NoActivePolicy
            && e.message@ == "아직 시작되지 않은 정책입니다."@),
        !(starts_at matches Some(s) && now < s) && (ends_at matches Some(t) && now >= t)
            ==> (r matches Err(e) && e.code == ErrorCode::NoActivePolicy && e.message@ == "종료된 정책입니다."@),
        !(starts_at matches Some(s) && now < s) && !(ends_at matches Some(t) && now >= t) ==> r is Ok,
{
    if let Some(s) = starts_at {
        if now < s {
            return Err(ApiError::with_message(ErrorCode::NoActivePolicy, "아직 시작되지 않은 정책입니다."));
        }
    }
    if let Some(t) = ends_at {
        if now >= t {
            return Err(ApiError::with_message(ErrorCode::NoActivePolicy, "종료된 정책입니다."));
        }
    }
    Ok(())
}

/// A new policy draft. Omitted rules and reward take the defaults.
#[derive(Debug, Clone, PartialEq, Eq)]
pub struct CreatePolicyRequest {
    pub name: String,
    pub rules: Option<PolicyRules>,
    pub reward: Option<RewardDefinition>,
    /// An absolute end of the version, in microseconds since the epoch.
    pub ends_at: Option<i64>,
}

impl CreatePolicyRequest {
    /// A name of 1 to 160 characters.
    pub fn check(&self) -> (r: Result<(), ApiError>)
        ensures
            verdict_of(length_issue("name"@, self.name@, 1, 160, "정책 이름은 1~160자여야 합니다."@), r),
    {
        let mut fields: Vec<FieldError> = Vec::new();
        check_length(&mut fields, "name", self.name.as_str(), 1, 160, "정책 이름은 1~160자여야 합니다.");
        assert(fields_view(fields@) =~= length_issue("name"@, self.name@, 1, 160, "정책 이름은 1~160자여야 합니다."@));
        verdict(fields)
    }
}

/// A change to a draft; `version` is the one the editor read.
#[derive(Debug, Clone, PartialEq, Eq)]
pub struct UpdatePolicyRequest {
    pub name: Option<String>,
    pub rules: Option<PolicyRules>,
    pub reward: Option<RewardDefinition>,
    pub ends_at: Option<i64>,
    pub version: Option<i64>,
}

impl UpdatePolicyRequest {
    /// A new name, when given, of 1 to 160 characters.
    pub fn check(&self) -> (r: Result<(), ApiError>)
        ensures
            verdict_of(optional_length_issue("name"@, self.name, 1, 160, "정책 이름은 1~160자여야 합니다."@), r),
    {
        let mut fields: Vec<FieldError> = Vec::new();
        check_optional_length(&mut fields, "name", &self.name, 1, 160, "정책 이름은 1~160자여야 합니다.");
        assert(fields_view(fields@) =~= optional_length_issue("name"@, self.name, 1, 160, "정책 이름은 1~160자여야 합니다."@));
        verdict(fields)
    }
}

/// How a refused write of a policy row reads to the caller. A unique violation
/// (`sqlstate` 23505) on the one-live-policy or the one-scheduled-policy constraint is a
/// conflict the owner can act on; any other unique violation is a plain conflict, with
/// the database's `detail` kept for the logs. Anything else is `None`: the general
/// database mapping applies.
pub fn map_policy_conflict(sqlstate: Option<&str>, constraint: Option<&str>, detail: &str) -> (r: Option<ApiError>)
    ensures
        !(sqlstate matches Some(c) && c@ == "23505"@) ==> r is None,
        sqlstate matches Some(c) && c@ == "23505"@ ==> (r matches Some(e) && match constraint {
            Some(k) if k@ == "uq_loyalty_policies_active_store"@ =>
                e.code == ErrorCode::Conflict
                && e.message@ == "이미 활성화된 정책이 있습니다. 새로고침 후 다시 시도해 주세요."@
                && e.internal is None,
            Some(k) if k@ == "uq_loyalty_policies_scheduled_store"@ =>
                e.code == ErrorCode::PolicyAlreadyScheduled && e.internal is None,
            _ => e.code == ErrorCode::Conflict && (e.internal matches Some(d) && d@ == detail@),
        }),
{
    let unique = match sqlstate {
        Some(c) => str_eq(c, "23505"),
        None => false,
    };
    if !unique {
        return None;
    }
    match constraint {
        Some(k) if str_eq(k, "uq_loyalty_policies_active_store") => Some(ApiError::with_message(
            ErrorCode::Conflict,
            "이미 활성화된 정책이 있습니다. 새로고침 후 다시 시도해 주세요.",
        )),
        Some(k) if str_eq(k, "uq_loyalty_policies_scheduled_store") => Some(ApiError::new(ErrorCode::PolicyAlreadyScheduled)),
        _ => Some(ApiError::new(ErrorCode::Conflict).internal(detail)),
    }
}

/// Every policy status reads back from its stored spelling.
pub proof fn law_policy_statuses_round_trip(x: PolicyStatus)
    ensures
        policy_status_from_text(policy_status_text(x)) == x,
{
    reveal_strlit("SCHEDULED");
    reveal_strlit("DRAFT");
    reveal_strlit("PAUSED");
    reveal_strlit("ACTIVE");
    reveal_strlit("ENDED");
    match x {
        PolicyStatus::Draft => {

        },
        PolicyStatus::Scheduled => {
            assert("SCHEDULED"@.len() != "DRAFT"@.len());
        },
        PolicyStatus::Active => {
            assert("ACTIVE"@.len() != "DRAFT"@.len());
            assert("ACTIVE"@.len() != "SCHEDULED"@.len());
        },
        PolicyStatus::Paused => {
            assert("PAUSED"@.len() != "DRAFT"@.len());
            assert("PAUSED"@.len() != "SCHEDULED"@.len());
            assert("PAUSED"@[0] != "ACTIVE"@[0]);
        },
        PolicyStatus::Ended => {
            assert("ENDED"@[0] != "DRAFT"@[0]);
            assert("ENDED"@.len() != "SCHEDULED"@.len());
            assert("ENDED"@.len() != "ACTIVE"@.len());
            assert("ENDED"@.len() != "PAUSED"@.len());
        },
    }
}

/// The default terms are valid terms.
pub proof fn law_the_defaults_are_valid(r: PolicyRules)
    requires
        r.target_stamp_count == defaults::TARGET_STAMP_COUNT,
        r.stamps_per_order == defaults::STAMPS_PER_ORDER,
        r.minimum_order_amount == defaults::MINIMUM_ORDER_AMOUNT,
        r.daily_earning_limit == Some(defaults::DAILY_EARNING_LIMIT),
        r.duplicate_warning_minutes == defaults::DUPLICATE_WARNING_MINUTES,
        r.stamp_validity_days == defaults::STAMP_VALIDITY_DAYS,
    ensures
        rule_issues(r).len() == 0,
{
}

} // verus!
