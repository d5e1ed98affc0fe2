use coupon_api_server::error::ErrorCode;
use coupon_api_server::privacy::{
    erasure_gate, erasure_plan, execution_block, firebase_tombstone, pseudonym_label, resolve_scopes, subject_pseudonym,
    RequestErasureRequest, UpdateRetentionPolicyRequest, ERASABLE_SCOPES,
};
use sha2::{Digest, Sha256};

#[test]
fn a_pseudonym_is_stable_for_a_subject_and_different_between_them() {
    assert_eq!(pseudonym_label(1), pseudonym_label(1));
    assert_ne!(pseudonym_label(1), pseudonym_label(2));
}

#[test]
fn a_pseudonym_does_not_leak_the_identifier_it_came_from() {
    let label = pseudonym_label(0x1234_5678);
    assert!(!label.contains("00000000-0000-0000-0000-000012345678"));
    assert!(label.starts_with("탈퇴회원-"));
}

#[test]
fn a_pseudonym_is_four_bytes_of_the_seeded_digest() {
    let digest = Sha256::digest(b"ddadan-tombstone:00000000-0000-0000-0000-000000000001");
    assert_eq!(pseudonym_label(1), format!("탈퇴회원-{}", hex::encode(&digest[..4])));
}

#[test]
fn the_erasable_scopes_are_the_ones_the_job_actually_implements() {
    assert_eq!(ERASABLE_SCOPES.len(), 3);
    for scope in ERASABLE_SCOPES {
        assert!(matches!(scope, "PROFILE" | "NOTIFICATION" | "AUTH_IDENTITY"), "{scope} has no branch in erase()");
    }
}

fn strings(v: &[&str]) -> Vec<String> {
    v.iter().map(|s| (*s).to_owned()).collect()
}

#[test]
fn an_unscoped_request_takes_every_available_category() {
    let erasable = strings(&["PROFILE", "NOTIFICATION", "STAMP_LEDGER"]);
    assert_eq!(resolve_scopes(&erasable, &Vec::new()).expect("scopes"), strings(&["PROFILE", "NOTIFICATION", "AUTH_IDENTITY"]));
    assert_eq!(resolve_scopes(&Vec::new(), &Vec::new()).expect("scopes"), strings(&["AUTH_IDENTITY"]));
}

#[test]
fn a_scoped_request_may_only_name_available_categories() {
    let erasable = strings(&["PROFILE"]);
    assert_eq!(
        resolve_scopes(&erasable, &strings(&["AUTH_IDENTITY", "PROFILE"])).expect("scopes"),
        strings(&["AUTH_IDENTITY", "PROFILE"])
    );
    let error = resolve_scopes(&erasable, &strings(&["NOTIFICATION"])).expect_err("not erasable");
    assert_eq!(error.code, ErrorCode::ValidationFailed);
    assert_eq!(error.message, "'NOTIFICATION' 은(는) 파기 가능한 항목이 아닙니다.");
}

#[test]
fn an_erasure_needs_a_subject_a_case_and_no_hold() {
    assert_eq!(erasure_gate(false, true, None).expect_err("no subject").code, ErrorCode::UserNotFound);
    assert_eq!(erasure_gate(true, false, None).expect_err("no case").code, ErrorCode::CaseNotFound);
    let held = erasure_gate(true, true, Some("2027-01-01")).expect_err("held");
    assert_eq!(held.code, ErrorCode::LegalHoldActive);
    assert_eq!(held.message, "2027-01-01 까지 법정·분쟁 보존이 적용되어 있습니다.");
    assert!(erasure_gate(true, true, None).is_ok());
}

#[test]
fn an_erasure_acts_on_the_profile_then_the_identities_then_the_history() {
    assert_eq!(
        erasure_plan(&strings(&["NOTIFICATION", "AUTH_IDENTITY", "PROFILE"])),
        strings(&["PROFILE", "AUTH_IDENTITY", "NOTIFICATION"])
    );
    assert_eq!(erasure_plan(&strings(&["NOTIFICATION", "NOTIFICATION"])), strings(&["NOTIFICATION"]));
    assert_eq!(erasure_plan(&strings(&["PAYMENT"])), Vec::<String>::new());
}

#[test]
fn a_recorded_pseudonym_is_kept_and_a_missing_one_is_derived() {
    assert_eq!(subject_pseudonym(Some("탈퇴회원-00000000"), 7), "탈퇴회원-00000000");
    assert_eq!(subject_pseudonym(None, 7), pseudonym_label(7));
}

#[test]
fn an_erased_profile_gets_a_derived_sign_in_uid() {
    assert_eq!(firebase_tombstone(1), "tombstone:00000000-0000-0000-0000-000000000001");
}

#[test]
fn a_hold_found_at_execution_blocks_the_erasure() {
    assert!(execution_block(None).is_none());
    let block = execution_block(Some("2027-01-01")).expect("blocked");
    assert_eq!(block.blocked_reason, "legal hold until 2027-01-01");
    assert_eq!(block.error.code, ErrorCode::LegalHoldActive);
}

fn field_names(error: &coupon_api_server::error::ApiError) -> Vec<(String, String)> {
    error.field_errors.iter().map(|f| (f.field.clone(), f.code.clone())).collect()
}

#[test]
fn a_retention_change_needs_a_sane_period_a_basis_and_a_reason() {
    let fine = UpdateRetentionPolicyRequest {
        retention_days: 365,
        legal_basis: "전자상거래법".to_string(),
        erasable_on_request: None,
        reason: "법령 개정".to_string(),
    };
    assert!(fine.check().is_ok());
    let bad = UpdateRetentionPolicyRequest { retention_days: 0, legal_basis: String::new(), reason: String::new(), ..fine.clone() };
    let error = bad.check().expect_err("rejected");
    assert_eq!(error.code, ErrorCode::ValidationFailed);
    assert_eq!(
        field_names(&error),
        vec![
            ("retention_days".to_string(), "range".to_string()),
            ("legal_basis".to_string(), "length".to_string()),
            ("reason".to_string(), "length".to_string()),
        ]
    );
    assert_eq!(error.field_errors[0].message, "보존기간은 1~36500일이어야 합니다.");
    assert!(UpdateRetentionPolicyRequest { retention_days: 36500, ..fine.clone() }.check().is_ok());
    assert!(UpdateRetentionPolicyRequest { retention_days: 36501, ..fine }.check().is_err());
}

#[test]
fn an_erasure_request_needs_a_reason() {
    let request = RequestErasureRequest { subject_user_id: 1, case_id: 2, reason: String::new(), scopes: Vec::new() };
    let error = request.check().expect_err("rejected");
    assert_eq!(field_names(&error), vec![("reason".to_string(), "length".to_string())]);
    assert_eq!(error.field_errors[0].message, "파기 사유를 입력해 주세요.");
    assert!(RequestErasureRequest { reason: "본인 요청".to_string(), ..request.clone() }.check().is_ok());
    assert!(RequestErasureRequest { reason: "가".repeat(1001), ..request }.check().is_err());
}
