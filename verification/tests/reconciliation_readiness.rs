use workflow::outside::now_utc;
use workflow::workflow_command_composer::WorkflowCommandComposerId;
use workflow::workflow_command_review::WorkflowCommandReviewId;
use workflow::workflow_loop_controller::WorkflowLoopControllerId;
use workflow::workflow_manual_result::{
    WorkflowManualResult, WorkflowManualResultId, WorkflowManualResultStatus, WorkflowManualResultSummary,
    WorkflowManualResultValidationSnapshot,
};
use workflow::workflow_manual_result_reconciliation_readiness::{
    WorkflowManualResultReconciliationPreview, WorkflowManualResultReconciliationReadinessRequest,
    WorkflowManualResultReconciliationReadinessStatus,
};
use workflow::workflow_manual_result_reconciliation_readiness_evaluator::{
    evaluate_manual_result_reconciliation_readiness, WorkflowManualResultReconciliationReadinessContext,
};
use workflow::workflow_manual_result_review::{
    WorkflowManualResultReview, WorkflowManualResultReviewAcceptanceSnapshot, WorkflowManualResultReviewDecision,
    WorkflowManualResultReviewId,
};
use workflow::workflow_run::WorkflowExecutionId;

// The JSON texts of the stored manual result and of its review.
const RESULT_JSON: &str = "{\"result_id\":\"wmr_t\"}";
const REVIEW_JSON: &str = "{\"review_id\":\"wmrr_t\"}";

fn digest_of(text: &str) -> String {
    blake3::hash(text.as_bytes()).to_hex().to_string()
}

fn test_manual_result(status: WorkflowManualResultStatus) -> WorkflowManualResult {
    WorkflowManualResult {
        result_id: WorkflowManualResultId("wmr_t".into()),
        workflow_execution_id: WorkflowExecutionId("wfx_t".into()),
        command_review_id: WorkflowCommandReviewId("wcrv_t".into()),
        command_composer_id: WorkflowCommandComposerId("wcc_t".into()),
        loop_controller_id: WorkflowLoopControllerId("wlc_t".into()),
        command_review_hash: "crh".into(), command_composer_hash: "cch".into(),
        command_descriptor_hash: "cdh".into(), loop_controller_hash: "lch".into(),
        status: status.clone(),
        operator: "tester".into(),
        summary: WorkflowManualResultSummary {
            operator_summary: "done".into(), operator_details: None,
            reported_status: status, caveat: "Operator-reported".into(),
        },
        artifact_references: vec![],
        validation_snapshot: WorkflowManualResultValidationSnapshot {
            command_review_was_acknowledged: true,
            command_review_hash_matched: true, command_composer_hash_matched: true,
            command_descriptor_hash_matched: true, loop_controller_hash_matched: true,
            command_review_marked_not_performed_by_openwand: true,
        },
        reported_by_operator: true,
        verified_by_openwand: false, command_executed_by_openwand: false,
        mutates_workflow_state: false, reconciles_outcome: false,
        routes_action: false, resolves_approval: false,
        appends_trace: false, writes_memory: false,
        invokes_shell: false, invokes_git: false,
        creates_execution_grant: false, execution_allowed_now: false,
        captured_at: now_utc(),
    }
}

fn test_review() -> WorkflowManualResultReview {
    WorkflowManualResultReview {
        review_id: WorkflowManualResultReviewId("wmrr_t".into()),
        workflow_execution_id: WorkflowExecutionId("wfx_t".into()),
        manual_result_id: WorkflowManualResultId("wmr_t".into()),
        command_review_id: WorkflowCommandReviewId("wcrv_t".into()),
        command_composer_id: WorkflowCommandComposerId("wcc_t".into()),
        loop_controller_id: WorkflowLoopControllerId("wlc_t".into()),
        manual_result_hash: "mrh".into(), command_review_hash: "crh".into(),
        command_composer_hash: "cch".into(), command_descriptor_hash: "cdh".into(),
        loop_controller_hash: "lch".into(),
        decision: WorkflowManualResultReviewDecision::Accepted,
        reviewer: "r".into(), rationale: "ok".into(), feedback: None,
        acceptance_snapshot: WorkflowManualResultReviewAcceptanceSnapshot {
            accepts_reported_evidence: true, verifies_external_state: false,
            reconciles_workflow_state: false, result_verified_by_openwand: false,
        },
        verifies_external_state: false, reconciles_workflow_state: false,
        mutates_workflow_state: false, executes_command: false,
        invokes_shell: false, invokes_git: false,
        routes_action: false, resolves_approval: false,
        appends_trace: false, writes_memory: false,
        creates_execution_grant: false, execution_allowed_now: false,
        reviewed_at: now_utc(),
    }
}

fn valid_request(_mr: &WorkflowManualResult, _review: &WorkflowManualResultReview) -> WorkflowManualResultReconciliationReadinessRequest {
    WorkflowManualResultReconciliationReadinessRequest {
        workflow_execution_id: WorkflowExecutionId("wfx_t".into()),
        manual_result_id: WorkflowManualResultId("wmr_t".into()),
        manual_result_review_id: WorkflowManualResultReviewId("wmrr_t".into()),
        command_review_id: WorkflowCommandReviewId("wcrv_t".into()),
        command_composer_id: WorkflowCommandComposerId("wcc_t".into()),
        loop_controller_id: WorkflowLoopControllerId("wlc_t".into()),
        expected_manual_result_review_hash: digest_of(REVIEW_JSON),
        expected_manual_result_hash: digest_of(RESULT_JSON),
        expected_command_review_hash: "crh".into(),
        expected_command_composer_hash: "cch".into(),
        expected_command_descriptor_hash: "cdh".into(),
        expected_loop_controller_hash: "lch".into(),
        evaluator: "test".into(), evaluated_at: now_utc(), idempotency_key: "k1".into(),
    }
}

#[test] fn reported_succeeded_with_accepted_review_is_ready() {
    let mr = test_manual_result(WorkflowManualResultStatus::ReportedSucceeded);
    let review = test_review();
    let req = valid_request(&mr, &review);
    let ctx = WorkflowManualResultReconciliationReadinessContext {
        manual_result: Some(&mr), manual_result_review: Some(&review),
        latest_manual_result_review: Some(&review), existing_readiness_records: vec![],
        manual_result_json: RESULT_JSON, manual_result_review_json: REVIEW_JSON,
    };
    let rec = evaluate_manual_result_reconciliation_readiness(&req, &ctx);
    assert_eq!(WorkflowManualResultReconciliationReadinessStatus::Ready, rec.status);
    assert!(matches!(rec.reconciliation_preview, Some(WorkflowManualResultReconciliationPreview::CompleteStageFromReportedSuccess)));
}

#[test] fn reported_failed_with_accepted_review_is_ready() {
    let mr = test_manual_result(WorkflowManualResultStatus::ReportedFailed);
    let review = test_review();
    let req = valid_request(&mr, &review);
    let ctx = WorkflowManualResultReconciliationReadinessContext {
        manual_result: Some(&mr), manual_result_review: Some(&review),
        latest_manual_result_review: Some(&review), existing_readiness_records: vec![],
        manual_result_json: RESULT_JSON, manual_result_review_json: REVIEW_JSON,
    };
    let rec = evaluate_manual_result_reconciliation_readiness(&req, &ctx);
    assert_eq!(WorkflowManualResultReconciliationReadinessStatus::Ready, rec.status);
    assert!(matches!(rec.reconciliation_preview, Some(WorkflowManualResultReconciliationPreview::FailStageFromReportedFailure)));
}

#[test] fn reported_partial_is_inconclusive() {
    let mr = test_manual_result(WorkflowManualResultStatus::ReportedPartial);
    let review = test_review();
    let req = valid_request(&mr, &review);
    let ctx = WorkflowManualResultReconciliationReadinessContext {
        manual_result: Some(&mr), manual_result_review: Some(&review),
        latest_manual_result_review: Some(&review), existing_readiness_records: vec![],
        manual_result_json: RESULT_JSON, manual_result_review_json: REVIEW_JSON,
    };
    let rec = evaluate_manual_result_reconciliation_readiness(&req, &ctx);
    assert_eq!(WorkflowManualResultReconciliationReadinessStatus::Inconclusive, rec.status);
}

#[test] fn not_performed_is_blocked() {
    let mr = test_manual_result(WorkflowManualResultStatus::NotPerformed);
    let review = test_review();
    let req = valid_request(&mr, &review);
    let ctx = WorkflowManualResultReconciliationReadinessContext {
        manual_result: Some(&mr), manual_result_review: Some(&review),
        latest_manual_result_review: Some(&review), existing_readiness_records: vec![],
        manual_result_json: RESULT_JSON, manual_result_review_json: REVIEW_JSON,
    };
    let rec = evaluate_manual_result_reconciliation_readiness(&req, &ctx);
    assert_eq!(WorkflowManualResultReconciliationReadinessStatus::Blocked, rec.status);
}

#[test] fn inconclusive_result_is_inconclusive() {
    let mr = test_manual_result(WorkflowManualResultStatus::Inconclusive);
    let review = test_review();
    let req = valid_request(&mr, &review);
    let ctx = WorkflowManualResultReconciliationReadinessContext {
        manual_result: Some(&mr), manual_result_review: Some(&review),
        latest_manual_result_review: Some(&review), existing_readiness_records: vec![],
        manual_result_json: RESULT_JSON, manual_result_review_json: REVIEW_JSON,
    };
    let rec = evaluate_manual_result_reconciliation_readiness(&req, &ctx);
    assert_eq!(WorkflowManualResultReconciliationReadinessStatus::Inconclusive, rec.status);
}

#[test] fn workflow_manual_result_reconciliation_readiness_evaluator_blocks_missing_manual_result() {
    let mr = test_manual_result(WorkflowManualResultStatus::ReportedSucceeded);
    let review = test_review();
    let req = valid_request(&mr, &review);
    let ctx = WorkflowManualResultReconciliationReadinessContext {
        manual_result: None, manual_result_review: Some(&review),
        latest_manual_result_review: Some(&review), existing_readiness_records: vec![],
        manual_result_json: RESULT_JSON, manual_result_review_json: REVIEW_JSON,
    };
    let rec = evaluate_manual_result_reconciliation_readiness(&req, &ctx);
    assert_eq!(WorkflowManualResultReconciliationReadinessStatus::Blocked, rec.status);
}

#[test] fn workflow_manual_result_reconciliation_readiness_evaluator_blocks_missing_review() {
    let mr = test_manual_result(WorkflowManualResultStatus::ReportedSucceeded);
    let review = test_review();
    let req = valid_request(&mr, &review);
    let ctx = WorkflowManualResultReconciliationReadinessContext {
        manual_result: Some(&mr), manual_result_review: None,
        latest_manual_result_review: None, existing_readiness_records: vec![],
        manual_result_json: RESULT_JSON, manual_result_review_json: REVIEW_JSON,
    };
    let rec = evaluate_manual_result_reconciliation_readiness(&req, &ctx);
    assert_eq!(WorkflowManualResultReconciliationReadinessStatus::Blocked, rec.status);
}

#[test] fn workflow_manual_result_reconciliation_readiness_evaluator_blocks_rejected_review() {
    let mr = test_manual_result(WorkflowManualResultStatus::ReportedSucceeded);
    let mut review = test_review();
    review.decision = WorkflowManualResultReviewDecision::Rejected;
    let req = valid_request(&mr, &review);
    let ctx = WorkflowManualResultReconciliationReadinessContext {
        manual_result: Some(&mr), manual_result_review: Some(&review),
        latest_manual_result_review: Some(&review), existing_readiness_records: vec![],
        manual_result_json: RESULT_JSON, manual_result_review_json: REVIEW_JSON,
    };
    let rec = evaluate_manual_result_reconciliation_readiness(&req, &ctx);
    assert_eq!(WorkflowManualResultReconciliationReadinessStatus::Blocked, rec.status);
}

// Patch 2: latest review tests
#[test] fn workflow_manual_result_reconciliation_readiness_evaluator_blocks_non_latest_manual_result_review() {
    let mr = test_manual_result(WorkflowManualResultStatus::ReportedSucceeded);
    let review = test_review();
    let mut later_review = test_review();
    later_review.review_id = WorkflowManualResultReviewId("wmrr_later".into());
    let req = valid_request(&mr, &review);
    let ctx = WorkflowManualResultReconciliationReadinessContext {
        manual_result: Some(&mr), manual_result_review: Some(&review),
        latest_manual_result_review: Some(&later_review), existing_readiness_records: vec![],
        manual_result_json: RESULT_JSON, manual_result_review_json: REVIEW_JSON,
    };
    let rec = evaluate_manual_result_reconciliation_readiness(&req, &ctx);
    assert_eq!(WorkflowManualResultReconciliationReadinessStatus::Blocked, rec.status);
}

#[test] fn blocks_later_rejected_review_for_same_manual_result() {
    let mr = test_manual_result(WorkflowManualResultStatus::ReportedSucceeded);
    let review = test_review();
    let mut later = test_review();
    later.review_id = WorkflowManualResultReviewId("wmrr_rej".into());
    later.decision = WorkflowManualResultReviewDecision::Rejected;
    let req = valid_request(&mr, &review);
    let ctx = WorkflowManualResultReconciliationReadinessContext {
        manual_result: Some(&mr), manual_result_review: Some(&review),
        latest_manual_result_review: Some(&later), existing_readiness_records: vec![],
        manual_result_json: RESULT_JSON, manual_result_review_json: REVIEW_JSON,
    };
    let rec = evaluate_manual_result_reconciliation_readiness(&req, &ctx);
    assert_eq!(WorkflowManualResultReconciliationReadinessStatus::Blocked, rec.status);
}

#[test] fn blocks_later_changes_requested_review_for_same_manual_result() {
    let mr = test_manual_result(WorkflowManualResultStatus::ReportedSucceeded);
    let review = test_review();
    let mut later = test_review();
    later.review_id = WorkflowManualResultReviewId("wmrr_chg".into());
    later.decision = WorkflowManualResultReviewDecision::ChangesRequested;
    let req = valid_request(&mr, &review);
    let ctx = WorkflowManualResultReconciliationReadinessContext {
        manual_result: Some(&mr), manual_result_review: Some(&review),
        latest_manual_result_review: Some(&later), existing_readiness_records: vec![],
        manual_result_json: RESULT_JSON, manual_result_review_json: REVIEW_JSON,
    };
    let rec = evaluate_manual_result_reconciliation_readiness(&req, &ctx);
    assert_eq!(WorkflowManualResultReconciliationReadinessStatus::Blocked, rec.status);
}

#[test] fn readiness_does_not_reconcile_or_mutate() {
    let mr = test_manual_result(WorkflowManualResultStatus::ReportedSucceeded);
    let review = test_review();
    let req = valid_request(&mr, &review);
    let ctx = WorkflowManualResultReconciliationReadinessContext {
        manual_result: Some(&mr), manual_result_review: Some(&review),
        latest_manual_result_review: Some(&review), existing_readiness_records: vec![],
        manual_result_json: RESULT_JSON, manual_result_review_json: REVIEW_JSON,
    };
    let rec = evaluate_manual_result_reconciliation_readiness(&req, &ctx);
    assert!(!rec.verifies_external_state);
    assert!(!rec.reconciles_now);
    assert!(!rec.mutates_workflow_state);
    assert!(!rec.creates_run_revision);
}

#[test] fn readiness_id_starts_with_wmrrr() {
    let mr = test_manual_result(WorkflowManualResultStatus::ReportedSucceeded);
    let review = test_review();
    let req = valid_request(&mr, &review);
    let ctx = WorkflowManualResultReconciliationReadinessContext {
        manual_result: Some(&mr), manual_result_review: Some(&review),
        latest_manual_result_review: Some(&review), existing_readiness_records: vec![],
        manual_result_json: RESULT_JSON, manual_result_review_json: REVIEW_JSON,
    };
    let rec = evaluate_manual_result_reconciliation_readiness(&req, &ctx);
    assert!(rec.readiness_id.0.starts_with("wmrrr_"));
}

// --- own checks ---

fn ready_context<'a>(mr: &'a WorkflowManualResult, review: &'a WorkflowManualResultReview) -> WorkflowManualResultReconciliationReadinessContext<'a> {
    WorkflowManualResultReconciliationReadinessContext {
        manual_result: Some(mr), manual_result_review: Some(review),
        latest_manual_result_review: Some(review), existing_readiness_records: vec![],
        manual_result_json: RESULT_JSON, manual_result_review_json: REVIEW_JSON,
    }
}

#[test]
fn readiness_blocks_on_stored_hash_mismatch() {
    let mr = test_manual_result(WorkflowManualResultStatus::ReportedSucceeded);
    let review = test_review();
    let mut req = valid_request(&mr, &review);
    req.expected_manual_result_hash = digest_of("{}");
    let rec = evaluate_manual_result_reconciliation_readiness(&req, &ready_context(&mr, &review));
    assert_eq!(WorkflowManualResultReconciliationReadinessStatus::Blocked, rec.status);
    // the preview follows the reported status even when a check fails
    assert!(matches!(rec.reconciliation_preview, Some(WorkflowManualResultReconciliationPreview::CompleteStageFromReportedSuccess)));
}

#[test]
fn ready_record_copies_hashes_and_claims_nothing() {
    let mr = test_manual_result(WorkflowManualResultStatus::ReportedSucceeded);
    let review = test_review();
    let req = valid_request(&mr, &review);
    let rec = evaluate_manual_result_reconciliation_readiness(&req, &ready_context(&mr, &review));
    assert_eq!(digest_of(RESULT_JSON), rec.manual_result_hash);
    assert_eq!(digest_of(REVIEW_JSON), rec.manual_result_review_hash);
    assert_eq!("crh", rec.command_review_hash);
    assert!(!rec.routes_action);
    assert!(!rec.creates_execution_grant);
    assert_eq!("test", rec.evaluator);
    let again = evaluate_manual_result_reconciliation_readiness(&req, &ready_context(&mr, &review));
    assert_eq!(rec.readiness_id, again.readiness_id);
}
