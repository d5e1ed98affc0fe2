use coupon_api_server::loyalty::policy::{
    accrual_window_gate, map_policy_conflict, selectable_items, CreatePolicyRequest, UpdatePolicyRequest,
};
use coupon_api_server::error::ErrorCode;
use coupon_api_server::loyalty::policy::{
    edit_gate, publish_plan, validate_reward, validate_rules, BenefitType, PolicyRules, PolicyStatus, PublishPlan,
    RewardDefinition,
};

fn reward() -> RewardDefinition {
    RewardDefinition {
        benefit_type: BenefitType::FixedAmount,
        fixed_amount: Some(3_000),
        title: "아메리카노 3,000원 할인".to_owned(),
        description: "1만원 이상 주문 시 사용".to_owned(),
        customer_notice: "다른 할인과 중복 사용 불가".to_owned(),
        ..RewardDefinition::default()
    }
}

#[test]
fn the_defaults_are_the_documented_ones() {
    let rules = PolicyRules::default();
    assert_eq!(rules.target_stamp_count, 10);
    assert_eq!(rules.stamps_per_order, 1);
    assert_eq!(rules.minimum_order_amount, 0);
    assert_eq!(rules.daily_earning_limit, Some(1));
    assert_eq!(rules.stamp_validity_days, 180);
    assert_eq!(rules.duplicate_warning_minutes, 5);
    assert_eq!(RewardDefinition::default().validity_days, 30);
    validate_rules(&rules).expect("the defaults must be valid");
}

#[test]
fn every_range_boundary_is_accepted_and_the_step_outside_is_not() {
    let cases: [(&str, PolicyRules, bool); 12] = [
        ("target 2", PolicyRules { target_stamp_count: 2, ..Default::default() }, true),
        ("target 100", PolicyRules { target_stamp_count: 100, ..Default::default() }, true),
        ("target 1", PolicyRules { target_stamp_count: 1, ..Default::default() }, false),
        ("target 101", PolicyRules { target_stamp_count: 101, ..Default::default() }, false),
        ("per order 10", PolicyRules { stamps_per_order: 10, ..Default::default() }, true),
        ("per order 11", PolicyRules { stamps_per_order: 11, ..Default::default() }, false),
        ("daily 20", PolicyRules { daily_earning_limit: Some(20), ..Default::default() }, true),
        ("daily 21", PolicyRules { daily_earning_limit: Some(21), ..Default::default() }, false),
        ("validity 730", PolicyRules { stamp_validity_days: 730, ..Default::default() }, true),
        ("validity 731", PolicyRules { stamp_validity_days: 731, ..Default::default() }, false),
        ("window 60", PolicyRules { duplicate_warning_minutes: 60, ..Default::default() }, true),
        ("window 61", PolicyRules { duplicate_warning_minutes: 61, ..Default::default() }, false),
    ];
    for (label, rules, expected) in cases {
        assert_eq!(
            validate_rules(&rules).is_ok(),
            expected,
            "{label} should be {}",
            if expected { "accepted" } else { "rejected" }
        );
    }
}

#[test]
fn an_unlimited_daily_allowance_is_expressed_as_absent() {
    let rules = PolicyRules { daily_earning_limit: None, ..Default::default() };
    validate_rules(&rules).expect("무제한 is a valid configuration");
}

#[test]
fn a_draft_may_omit_customer_wording_but_a_published_version_may_not() {
    let bare = RewardDefinition { fixed_amount: Some(3_000), ..RewardDefinition::default() };
    validate_reward(&bare, false).expect("a draft is allowed to be incomplete");
    let error = validate_reward(&bare, true).expect_err("publishing must demand the wording");
    let fields: Vec<&str> = error.field_errors.iter().map(|field| field.field.as_str()).collect();
    assert!(fields.contains(&"reward.title"));
    assert!(fields.contains(&"reward.description"));
    assert!(fields.contains(&"reward.customer_notice"));
}

#[test]
fn a_benefit_must_carry_exactly_its_own_fields() {
    validate_reward(&reward(), true).expect("a well-formed fixed discount");
    let mixed = RewardDefinition { percentage: Some(10), ..reward() };
    assert!(validate_reward(&mixed, false).is_err(), "a fixed discount must not also carry a rate");
    let percentage = RewardDefinition {
        benefit_type: BenefitType::Percentage,
        fixed_amount: None,
        percentage: Some(10),
        maximum_discount_amount: Some(5_000),
        ..reward()
    };
    validate_reward(&percentage, true).expect("a well-formed rate discount");
    let uncapped = RewardDefinition { maximum_discount_amount: None, ..percentage.clone() };
    assert!(validate_reward(&uncapped, false).is_err(), "a percentage discount needs a cap");
    let free_item = RewardDefinition {
        benefit_type: BenefitType::FreeItem,
        fixed_amount: None,
        percentage: None,
        maximum_discount_amount: None,
        free_item_ids: vec![1],
        ..reward()
    };
    validate_reward(&free_item, true).expect("a well-formed free item");
    let no_items = RewardDefinition { free_item_ids: Vec::new(), ..free_item };
    validate_reward(&no_items, false).expect("an empty draft is allowed");
    assert!(validate_reward(&no_items, true).is_err());
}

#[test]
fn a_draft_is_checked_for_contradictions_but_not_for_being_unfinished() {
    validate_reward(&RewardDefinition::default(), false).expect("a blank draft reward is allowed");
    let nonsense = RewardDefinition { fixed_amount: Some(-1), ..RewardDefinition::default() };
    assert!(validate_reward(&nonsense, false).is_err());
    let bad_rate = RewardDefinition {
        benefit_type: BenefitType::Percentage,
        percentage: Some(140),
        maximum_discount_amount: Some(5_000),
        ..RewardDefinition::default()
    };
    assert!(validate_reward(&bad_rate, false).is_err());
    let uncapped = RewardDefinition {
        benefit_type: BenefitType::Percentage,
        percentage: Some(10),
        maximum_discount_amount: None,
        ..RewardDefinition::default()
    };
    assert!(validate_reward(&uncapped, false).is_err(), "a rate without a cap is a logic error, not an omission");
}

#[test]
fn only_a_draft_is_editable() {
    assert!(PolicyStatus::Draft.is_editable());
    for status in [PolicyStatus::Scheduled, PolicyStatus::Active, PolicyStatus::Paused, PolicyStatus::Ended] {
        assert!(!status.is_editable(), "{status:?} must not be editable");
    }
    assert_eq!(PolicyStatus::from_db("SOMETHING"), PolicyStatus::Ended);
}

#[test]
fn derived_durations_match_the_configured_numbers() {
    let rules = PolicyRules { duplicate_warning_minutes: 5, stamp_validity_days: 180, ..Default::default() };
    assert_eq!(rules.duplicate_window().num_seconds(), 300);
    assert_eq!(rules.stamp_validity().num_days(), 180);
}

#[test]
fn the_restriction_is_carried_over_unchanged() {
    let rules = PolicyRules { eligible_item_ids: vec![1], excluded_item_ids: vec![2], ..Default::default() };
    let restriction = rules.restriction();
    assert!(restriction.restricts_items());
    assert_eq!(restriction.eligible_item_ids, rules.eligible_item_ids);
    assert_eq!(restriction.excluded_item_ids, rules.excluded_item_ids);
    assert!(!PolicyRules::default().restriction().restricts_items());
}

#[test]
fn statuses_and_benefits_round_trip_through_their_stored_spelling() {
    for status in [PolicyStatus::Draft, PolicyStatus::Scheduled, PolicyStatus::Active, PolicyStatus::Paused, PolicyStatus::Ended] {
        assert_eq!(PolicyStatus::from_db(status.as_db()), status);
    }
    for benefit in [BenefitType::FixedAmount, BenefitType::Percentage, BenefitType::FreeItem] {
        assert_eq!(BenefitType::from_db(benefit.as_db()), benefit);
    }
}

#[test]
fn every_rule_out_of_range_is_reported_as_a_validation_failure() {
    let rules = PolicyRules {
        target_stamp_count: 1,
        stamps_per_order: 0,
        minimum_order_amount: -1,
        stamp_validity_days: 0,
        ..Default::default()
    };
    let error = validate_rules(&rules).expect_err("out of range");
    assert_eq!(error.code, ErrorCode::ValidationFailed);
    assert_eq!(error.field_errors.len(), 4);
}

#[test]
fn only_a_draft_passes_the_edit_gate() {
    assert!(edit_gate(PolicyStatus::Draft).is_ok());
    for status in [PolicyStatus::Scheduled, PolicyStatus::Active, PolicyStatus::Paused, PolicyStatus::Ended] {
        assert_eq!(edit_gate(status).expect_err("not editable").code, ErrorCode::PolicyNotEditable);
    }
    assert_eq!(
        edit_gate(PolicyStatus::Active).expect_err("active").message,
        "활성 정책은 수정할 수 없습니다. 새 버전을 만들어 게시해 주세요."
    );
}

#[test]
fn a_complete_draft_goes_live_now_or_at_its_start() {
    let rules = PolicyRules::default();
    assert_eq!(publish_plan(PolicyStatus::Draft, &rules, &reward(), None, None, 100).expect("live"), PublishPlan::ActivateNow);
    assert_eq!(publish_plan(PolicyStatus::Draft, &rules, &reward(), None, Some(100), 100).expect("live"), PublishPlan::ActivateNow);
    assert_eq!(
        publish_plan(PolicyStatus::Draft, &rules, &reward(), Some(500), Some(200), 100).expect("scheduled"),
        PublishPlan::Schedule { starts_at: 200 }
    );
}

#[test]
fn publishing_refuses_in_the_documented_order() {
    let rules = PolicyRules::default();
    assert_eq!(
        publish_plan(PolicyStatus::Active, &rules, &reward(), None, None, 100).expect_err("not a draft").code,
        ErrorCode::InvalidStateTransition
    );
    let bad_rules = PolicyRules { target_stamp_count: 1, ..Default::default() };
    let error = publish_plan(PolicyStatus::Draft, &bad_rules, &RewardDefinition::default(), None, None, 100).expect_err("rules");
    assert_eq!(error.field_errors[0].field, "rules.target_stamp_count");
    let error = publish_plan(PolicyStatus::Draft, &rules, &RewardDefinition::default(), None, None, 100).expect_err("reward");
    assert_eq!(error.code, ErrorCode::ValidationFailed);
    assert_eq!(
        publish_plan(PolicyStatus::Draft, &rules, &reward(), Some(100), None, 100).expect_err("ended").message,
        "이미 지난 종료 시각으로는 게시할 수 없습니다."
    );
    assert_eq!(
        publish_plan(PolicyStatus::Draft, &rules, &reward(), Some(150), Some(200), 100).expect_err("ends first").message,
        "종료 시각은 시작 시각보다 뒤여야 합니다."
    );
}

#[test]
fn a_policy_name_is_one_to_a_hundred_and_sixty_characters() {
    let create = CreatePolicyRequest { name: "단골 스탬프".to_string(), rules: None, reward: None, ends_at: None };
    assert!(create.check().is_ok());
    let error = CreatePolicyRequest { name: String::new(), ..create.clone() }.check().expect_err("rejected");
    assert_eq!(error.field_errors[0].field, "name");
    assert_eq!(error.field_errors[0].message, "정책 이름은 1~160자여야 합니다.");
    assert!(CreatePolicyRequest { name: "가".repeat(160), ..create.clone() }.check().is_ok());
    assert!(CreatePolicyRequest { name: "가".repeat(161), ..create }.check().is_err());
    let update = UpdatePolicyRequest { name: None, rules: None, reward: None, ends_at: None, version: Some(3) };
    assert!(update.check().is_ok());
    assert!(UpdatePolicyRequest { name: Some(String::new()), ..update }.check().is_err());
}

#[test]
fn the_items_a_policy_names_are_checked_once_each_in_order() {
    let rules = PolicyRules { eligible_item_ids: vec![9, 3], excluded_item_ids: vec![3, 5], ..PolicyRules::default() };
    let reward = RewardDefinition { free_item_ids: vec![5, 1], ..RewardDefinition::default() };
    assert_eq!(selectable_items(&rules, &reward), vec![1, 3, 5, 9]);
    assert_eq!(selectable_items(&PolicyRules::default(), &RewardDefinition::default()), Vec::<u128>::new());
}

#[test]
fn an_accrual_needs_a_policy_inside_its_window() {
    assert!(accrual_window_gate(None, None, 10).is_ok());
    assert!(accrual_window_gate(Some(10), Some(20), 10).is_ok());
    let early = accrual_window_gate(Some(11), None, 10).expect_err("not started");
    assert_eq!(early.code, ErrorCode::NoActivePolicy);
    assert_eq!(early.message, "아직 시작되지 않은 정책입니다.");
    let late = accrual_window_gate(Some(0), Some(10), 10).expect_err("ended");
    assert_eq!(late.message, "종료된 정책입니다.");
}

#[test]
fn a_second_live_or_scheduled_policy_is_a_conflict_the_owner_can_read() {
    let live = map_policy_conflict(Some("23505"), Some("uq_loyalty_policies_active_store"), "dup").expect("mapped");
    assert_eq!(live.code, ErrorCode::Conflict);
    assert_eq!(live.message, "이미 활성화된 정책이 있습니다. 새로고침 후 다시 시도해 주세요.");
    let scheduled = map_policy_conflict(Some("23505"), Some("uq_loyalty_policies_scheduled_store"), "dup").expect("mapped");
    assert_eq!(scheduled.code, ErrorCode::PolicyAlreadyScheduled);
    let other = map_policy_conflict(Some("23505"), Some("uq_other"), "duplicate key").expect("mapped");
    assert_eq!(other.code, ErrorCode::Conflict);
    assert_eq!(other.internal.as_deref(), Some("duplicate key"));
    assert!(map_policy_conflict(Some("40001"), None, "serialization").is_none());
    assert!(map_policy_conflict(None, None, "io").is_none());
}

#[test]
fn a_reward_fit_to_publish_is_a_valid_draft_but_not_the_other_way() {
    let draft = RewardDefinition { title: String::new(), ..reward() };
    assert!(validate_reward(&draft, false).is_ok());
    assert!(validate_reward(&draft, true).is_err());
    assert!(validate_reward(&reward(), true).is_ok());
    assert!(validate_reward(&reward(), false).is_ok());
    let broken = RewardDefinition { validity_days: 0, ..draft };
    let draft_fields: Vec<String> = validate_reward(&broken, false).expect_err("bad").field_errors.iter().map(|f| f.field.clone()).collect();
    let publish_fields: Vec<String> = validate_reward(&broken, true).expect_err("bad").field_errors.iter().map(|f| f.field.clone()).collect();
    assert!(draft_fields.iter().all(|f| publish_fields.contains(f)));
    assert!(publish_fields.len() > draft_fields.len());
}
