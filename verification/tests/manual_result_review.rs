use workflow::outside::now_utc;
use workflow::workflow_command_composer::WorkflowCommandComposerId;
use workflow::workflow_command_review::WorkflowCommandReviewId;
use workflow::workflow_loop_controller::WorkflowLoopControllerId;
use workflow::workflow_manual_result::{
    WorkflowManualResult, WorkflowManualResultId, WorkflowManualResultStatus, WorkflowManualResultSummary,
    WorkflowManualResultValidationSnapshot,
};
use workflow::workflow_manual_result_review::{
    WorkflowManualResultReview, WorkflowManualResultReviewAcceptanceSnapshot, WorkflowManualResultReviewDecision,
    WorkflowManualResultReviewFeedback, WorkflowManualResultReviewId, WorkflowManualResultReviewRequest,
};
use workflow::workflow_manual_result_review_validation::validate_manual_result_review;
use workflow::workflow_run::WorkflowExecutionId;

/// The JSON text of the stored manual result whose digest a request names.
const RESULT_JSON: &str = "{\"result_id\":\"wmr_t\",\"status\":\"reported_succeeded\"}";

fn digest_of(text: &str) -> String {
    blake3::hash(text.as_bytes()).to_hex().to_string()
}

fn test_review(decision: WorkflowManualResultReviewDecision) -> WorkflowManualResultReview {
    WorkflowManualResultReview {
        review_id: WorkflowManualResultReviewId("wmrr_test".into()),
        workflow_execution_id: WorkflowExecutionId("wfx_t".into()),
        manual_result_id: WorkflowManualResultId("wmr_t".into()),
        command_review_id: WorkflowCommandReviewId("wcrv_t".into()),
        command_composer_id: WorkflowCommandComposerId("wcc_t".into()),
        loop_controller_id: WorkflowLoopControllerId("wlc_t".into()),
        manual_result_hash: "mrh".into(),
        command_review_hash: "crh".into(),
        command_composer_hash: "cch".into(),
        command_descriptor_hash: "cdh".into(),
        loop_controller_hash: "lch".into(),
        reviewer: "alice".into(),
        rationale: "ok".into(),
        feedback: None,
        acceptance_snapshot: WorkflowManualResultReviewAcceptanceSnapshot {
            accepts_reported_evidence: matches!(&decision, WorkflowManualResultReviewDecision::Accepted),
            verifies_external_state: false,
            reconciles_workflow_state: false,
            result_verified_by_openwand: false,
        },
        decision,
        verifies_external_state: false,
        reconciles_workflow_state: false,
        mutates_workflow_state: false,
        executes_command: false,
        invokes_shell: false,
        invokes_git: false,
        routes_action: false,
        resolves_approval: false,
        appends_trace: false,
        writes_memory: false,
        creates_execution_grant: false,
        execution_allowed_now: false,
        reviewed_at: now_utc(),
    }
}

fn test_manual_result() -> WorkflowManualResult {
    WorkflowManualResult {
        result_id: WorkflowManualResultId("wmr_t".into()),
        workflow_execution_id: WorkflowExecutionId("wfx_t".into()),
        command_review_id: WorkflowCommandReviewId("wcrv_t".into()),
        command_composer_id: WorkflowCommandComposerId("wcc_t".into()),
        loop_controller_id: WorkflowLoopControllerId("wlc_t".into()),
        command_review_hash: "crh".into(),
        command_composer_hash: "cch".into(),
        command_descriptor_hash: "cdh".into(),
        loop_controller_hash: "lch".into(),
        status: WorkflowManualResultStatus::ReportedSucceeded,
        operator: "tester".into(),
        summary: WorkflowManualResultSummary {
            operator_summary: "done".into(),
            operator_details: None,
            reported_status: WorkflowManualResultStatus::ReportedSucceeded,
            caveat: "Operator-reported, not verified by OpenWand.".into(),
        },
        artifact_references: vec![],
        validation_snapshot: WorkflowManualResultValidationSnapshot {
            command_review_was_acknowledged: true,
            command_review_hash_matched: true,
            command_composer_hash_matched: true,
            command_descriptor_hash_matched: true,
            loop_controller_hash_matched: true,
            command_review_marked_not_performed_by_openwand: true,
        },
        reported_by_operator: true,
        verified_by_openwand: false,
        command_executed_by_openwand: false,
        mutates_workflow_state: false,
        reconciles_outcome: false,
        routes_action: false,
        resolves_approval: false,
        appends_trace: false,
        writes_memory: false,
        invokes_shell: false,
        invokes_git: false,
        creates_execution_grant: false,
        execution_allowed_now: false,
        captured_at: now_utc(),
    }
}

fn valid_request_with(_mr: &WorkflowManualResult) -> WorkflowManualResultReviewRequest {
    WorkflowManualResultReviewRequest {
        workflow_execution_id: WorkflowExecutionId("wfx_t".into()),
        manual_result_id: WorkflowManualResultId("wmr_t".into()),
        command_review_id: WorkflowCommandReviewId("wcrv_t".into()),
        command_composer_id: WorkflowCommandComposerId("wcc_t".into()),
        loop_controller_id: WorkflowLoopControllerId("wlc_t".into()),
        expected_manual_result_hash: digest_of(RESULT_JSON),
        expected_command_review_hash: "crh".into(),
        expected_command_composer_hash: "cch".into(),
        expected_command_descriptor_hash: "cdh".into(),
        expected_loop_controller_hash: "lch".into(),
        decision: WorkflowManualResultReviewDecision::Accepted,
        reviewer: "alice".into(),
        rationale: "evidence sufficient".into(),
        feedback: None,
        reviewed_at: now_utc(),
        idempotency_key: "k1".into(),
    }
}

// --- review record ---

#[test]
fn manual_result_review_id_is_content_addressed() {
    let id = WorkflowManualResultReviewId("wmrr_deadbeef1234".into());
    assert!(id.0.starts_with("wmrr_"));
}

#[test]
fn manual_result_review_request_has_all_evidence_chain_hashes() {
    let req = WorkflowManualResultReviewRequest {
        workflow_execution_id: WorkflowExecutionId("wfx_t".into()),
        manual_result_id: WorkflowManualResultId("wmr_t".into()),
        command_review_id: WorkflowCommandReviewId("wcrv_t".into()),
        command_composer_id: WorkflowCommandComposerId("wcc_t".into()),
        loop_controller_id: WorkflowLoopControllerId("wlc_t".into()),
        expected_manual_result_hash: "mrh".into(),
        expected_command_review_hash: "crh".into(),
        expected_command_composer_hash: "cch".into(),
        expected_command_descriptor_hash: "cdh".into(),
        expected_loop_controller_hash: "lch".into(),
        decision: WorkflowManualResultReviewDecision::Accepted,
        reviewer: "r".into(),
        rationale: "ok".into(),
        feedback: None,
        reviewed_at: now_utc(),
        idempotency_key: "k".into(),
    };
    assert!(!req.expected_manual_result_hash.is_empty());
    assert!(!req.expected_command_review_hash.is_empty());
    assert!(!req.expected_command_composer_hash.is_empty());
    assert!(!req.expected_command_descriptor_hash.is_empty());
    assert!(!req.expected_loop_controller_hash.is_empty());
}

#[test]
fn accepted_review_accepts_reported_evidence_only() {
    let r = test_review(WorkflowManualResultReviewDecision::Accepted);
    assert!(r.acceptance_snapshot.accepts_reported_evidence);
    assert!(!r.acceptance_snapshot.verifies_external_state);
    assert!(!r.acceptance_snapshot.reconciles_workflow_state);
    assert!(!r.acceptance_snapshot.result_verified_by_openwand);
}

#[test]
fn accepted_review_does_not_verify_external_state() {
    let r = test_review(WorkflowManualResultReviewDecision::Accepted);
    assert!(!r.verifies_external_state);
}

#[test]
fn accepted_review_does_not_reconcile_workflow_state() {
    let r = test_review(WorkflowManualResultReviewDecision::Accepted);
    assert!(!r.reconciles_workflow_state);
    assert!(!r.mutates_workflow_state);
}

#[test]
fn accepted_review_does_not_mark_result_true() {
    let r = test_review(WorkflowManualResultReviewDecision::Accepted);
    assert!(!r.acceptance_snapshot.result_verified_by_openwand);
}

#[test]
fn manual_result_review_has_no_execution_authority() {
    let r = test_review(WorkflowManualResultReviewDecision::Accepted);
    assert!(!r.verifies_external_state);
    assert!(!r.reconciles_workflow_state);
    assert!(!r.mutates_workflow_state);
    assert!(!r.executes_command);
    assert!(!r.invokes_shell);
    assert!(!r.invokes_git);
    assert!(!r.routes_action);
    assert!(!r.resolves_approval);
    assert!(!r.appends_trace);
    assert!(!r.writes_memory);
    assert!(!r.creates_execution_grant);
    assert!(!r.execution_allowed_now);
}

#[test]
fn rejected_review_does_not_accept_reported_evidence() {
    let r = test_review(WorkflowManualResultReviewDecision::Rejected);
    assert!(!r.acceptance_snapshot.accepts_reported_evidence);
}

#[test]
fn changes_requested_review_does_not_accept_reported_evidence() {
    let r = test_review(WorkflowManualResultReviewDecision::ChangesRequested);
    assert!(!r.acceptance_snapshot.accepts_reported_evidence);
}

// --- review validation ---

fn validate(
    req: &WorkflowManualResultReviewRequest,
    mr: Option<&WorkflowManualResult>,
) -> Result<WorkflowManualResultReview, Vec<workflow::workflow_manual_result_review_validation::WorkflowManualResultReviewValidationResult>> {
    validate_manual_result_review(req, mr, None, None, None, RESULT_JSON)
}

#[test]
fn workflow_manual_result_review_validation_blocks_missing_manual_result() {
    let mr = test_manual_result();
    let req = valid_request_with(&mr);
    let r = validate(&req, None);
    assert!(r.is_err());
}

#[test]
fn blocks_manual_result_hash_mismatch() {
    let mr = test_manual_result();
    let mut req = valid_request_with(&mr);
    req.expected_manual_result_hash = "wrong".into();
    let r = validate(&req, Some(&mr));
    assert!(r.is_err());
}

#[test]
fn blocks_non_operator_reported_result() {
    let mut mr = test_manual_result();
    mr.reported_by_operator = false;
    let req = valid_request_with(&mr);
    let r = validate(&req, Some(&mr));
    assert!(r.is_err());
}

#[test]
fn blocks_result_verified_by_openwand() {
    let mut mr = test_manual_result();
    mr.verified_by_openwand = true;
    let req = valid_request_with(&mr);
    let r = validate(&req, Some(&mr));
    assert!(r.is_err());
}

#[test]
fn blocks_result_executed_by_openwand() {
    let mut mr = test_manual_result();
    mr.command_executed_by_openwand = true;
    let req = valid_request_with(&mr);
    let r = validate(&req, Some(&mr));
    assert!(r.is_err());
}

#[test]
fn workflow_manual_result_review_validation_blocks_empty_reviewer() {
    let mr = test_manual_result();
    let mut req = valid_request_with(&mr);
    req.reviewer = String::new();
    let r = validate(&req, Some(&mr));
    assert!(r.is_err());
}

#[test]
fn workflow_manual_result_review_validation_blocks_empty_rationale() {
    let mr = test_manual_result();
    let mut req = valid_request_with(&mr);
    req.rationale = String::new();
    let r = validate(&req, Some(&mr));
    assert!(r.is_err());
}

#[test]
fn blocks_rejection_without_blocking_reasons() {
    let mr = test_manual_result();
    let mut req = valid_request_with(&mr);
    req.decision = WorkflowManualResultReviewDecision::Rejected;
    req.feedback = None;
    let r = validate(&req, Some(&mr));
    assert!(r.is_err());
}

#[test]
fn blocks_changes_requested_without_requested_changes() {
    let mr = test_manual_result();
    let mut req = valid_request_with(&mr);
    req.decision = WorkflowManualResultReviewDecision::ChangesRequested;
    req.feedback = None;
    let r = validate(&req, Some(&mr));
    assert!(r.is_err());
}

#[test]
fn accepted_review_passes_all_rules() {
    let mr = test_manual_result();
    let req = valid_request_with(&mr);
    let r = validate(&req, Some(&mr));
    assert!(r.is_ok());
    let review = r.unwrap();
    assert!(review.acceptance_snapshot.accepts_reported_evidence);
    assert!(!review.verifies_external_state);
    assert!(!review.reconciles_workflow_state);
}

#[test]
fn rejected_review_passes_with_blocking_reasons() {
    let mr = test_manual_result();
    let mut req = valid_request_with(&mr);
    req.decision = WorkflowManualResultReviewDecision::Rejected;
    req.feedback = Some(WorkflowManualResultReviewFeedback {
        summary: "unsafe".into(),
        blocking_reasons: vec!["risk".into()],
        requested_changes: vec![],
        evidence_gaps: vec![],
    });
    let r = validate(&req, Some(&mr));
    assert!(r.is_ok());
    let review = r.unwrap();
    assert!(!review.acceptance_snapshot.accepts_reported_evidence);
}

#[test]
fn changes_requested_passes_with_requested_changes() {
    let mr = test_manual_result();
    let mut req = valid_request_with(&mr);
    req.decision = WorkflowManualResultReviewDecision::ChangesRequested;
    req.feedback = Some(WorkflowManualResultReviewFeedback {
        summary: "needs detail".into(),
        blocking_reasons: vec![],
        requested_changes: vec!["add evidence".into()],
        evidence_gaps: vec![],
    });
    let r = validate(&req, Some(&mr));
    assert!(r.is_ok());
}

#[test]
fn review_copies_evidence_chain_hashes_from_result() {
    let mr = test_manual_result();
    let req = valid_request_with(&mr);
    let review = validate(&req, Some(&mr)).unwrap();
    assert_eq!("crh", review.command_review_hash);
    assert_eq!("cch", review.command_composer_hash);
    assert_eq!("cdh", review.command_descriptor_hash);
    assert_eq!("lch", review.loop_controller_hash);
}

#[test]
fn review_id_is_content_addressed() {
    let mr = test_manual_result();
    let req = valid_request_with(&mr);
    let review = validate(&req, Some(&mr)).unwrap();
    assert!(review.review_id.0.starts_with("wmrr_"));
}

// --- own checks ---

#[test]
fn hash_is_checked_against_the_stored_result_text() {
    let mr = test_manual_result();
    let req = valid_request_with(&mr);
    let other = validate_manual_result_review(&req, Some(&mr), None, None, None, "{\"result_id\":\"other\"}");
    assert!(other.is_err());
    let failed: Vec<_> = other.unwrap_err().into_iter().filter(|c| !c.passed).map(|c| c.rule).collect();
    assert_eq!(1, failed.len());
}

#[test]
fn review_records_hash_of_stored_result() {
    let mr = test_manual_result();
    let req = valid_request_with(&mr);
    let review = validate(&req, Some(&mr)).unwrap();
    assert_eq!(digest_of(RESULT_JSON), review.manual_result_hash);
    assert_eq!(21, review.review_id.0.len());
}
