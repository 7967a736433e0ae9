use workflow::outside::now_utc;
use workflow::workflow_command_composer::WorkflowCommandComposerId;
use workflow::workflow_command_descriptor::WorkflowManualCommandDescriptor;
use workflow::workflow_command_review::WorkflowCommandReviewId;
use workflow::workflow_loop_controller::{
    build_recommendation, WorkflowLoopControllerDecision, WorkflowLoopControllerId, WorkflowLoopControllerRecord,
    WorkflowLoopControllerStatus,
};
use workflow::workflow_loop_recommendation::{WorkflowLoopRecommendation, WorkflowManualOperationKind};
use workflow::workflow_loop_state::WorkflowDetectedLoopState;
use workflow::workflow_manual_operation::WorkflowManualCommandKind;
use workflow::workflow_manual_result::WorkflowManualResultId;
use workflow::workflow_manual_result_reconciliation_gate::{
    apply_manual_progression_to_stages, compute_manual_result_stage_progression, is_actionable_preview,
    WorkflowManualResultReconciliationGateDecision, WorkflowManualResultReconciliationGateId,
    WorkflowManualResultReconciliationGateRecord, WorkflowManualResultReconciliationGateRequest,
    WorkflowManualResultReconciliationGateStatus,
};
use workflow::workflow_manual_result_reconciliation_gate_validation::{gate_id_for, validate_gate_hashes};
use workflow::workflow_manual_result_reconciliation_readiness::{
    WorkflowManualResultReconciliationPreview, WorkflowManualResultReconciliationReadinessDecision,
    WorkflowManualResultReconciliationReadinessId, WorkflowManualResultReconciliationReadinessRecord,
    WorkflowManualResultReconciliationReadinessStatus,
};
use workflow::workflow_manual_result_reconciliation_readiness_validation::{
    reconciliation_readiness_id_for, validate_reconciliation_readiness_request,
};
use workflow::workflow_manual_result_review::WorkflowManualResultReviewId;
use workflow::workflow_proposal::WorkflowStageKind;
use workflow::workflow_reconciliation::WorkflowRunRevisionId;
use workflow::workflow_run::{WorkflowExecutionId, WorkflowStageLifecycleKind, WorkflowStageRun, WorkflowStageRunStatus};

// --- command descriptor ---

#[test]
fn workflow_command_descriptor_is_display_only() {
    let desc = WorkflowManualCommandDescriptor {
        command_kind: WorkflowManualCommandKind::WorkflowContinuationPropose,
        display_command: "openwand workflow-continuation propose".into(),
        arguments: vec![], missing_inputs: vec![], safety_warnings: vec![],
        evidence_links: vec![], copyable_text: "openwand workflow-continuation propose --workflow-execution-id wfx_1".into(),
        display_only: true, executable: false,
    };
    assert!(desc.display_only);
}

#[test]
fn workflow_command_descriptor_is_not_executable() {
    let desc = WorkflowManualCommandDescriptor {
        command_kind: WorkflowManualCommandKind::NoCommand,
        display_command: String::new(), arguments: vec![], missing_inputs: vec![],
        safety_warnings: vec![], evidence_links: vec![], copyable_text: String::new(),
        display_only: true, executable: false,
    };
    assert!(!desc.executable);
}

// --- loop recommendation, state and controller ---

#[test]
fn workflow_loop_command_hint_not_used_as_executable_input() {
    let hint = "openwand workflow-loop recommend --workflow-execution-id wfx_1";
    let rec = WorkflowLoopRecommendation {
        operation: WorkflowManualOperationKind::NoAction,
        command_hint: hint.into(),
        reason: "test".into(), required_inputs: vec![], evidence_links: vec![],
    };
    assert_eq!(rec.command_hint, hint);
}

#[test]
fn workflow_detected_loop_state_covers_manual_result_ladder_states() {
    let states = vec![
        WorkflowDetectedLoopState::NeedsInitialContinuationProposal,
        WorkflowDetectedLoopState::NeedsNextActionReview,
        WorkflowDetectedLoopState::NeedsRoutingReadiness,
        WorkflowDetectedLoopState::NeedsNextActionRouting,
        WorkflowDetectedLoopState::NeedsSessionRoutingObservation,
        WorkflowDetectedLoopState::NeedsApprovalOutcomeResolution,
        WorkflowDetectedLoopState::NeedsOutcomeReconciliation,
        WorkflowDetectedLoopState::NeedsContinuationAfterReconciliation,
        WorkflowDetectedLoopState::NeedsCommandDescriptor,
        WorkflowDetectedLoopState::NeedsCommandReview,
        WorkflowDetectedLoopState::NeedsManualResultCapture,
        WorkflowDetectedLoopState::NeedsManualResultReview,
        WorkflowDetectedLoopState::NeedsReconciliationReadiness,
        WorkflowDetectedLoopState::NeedsManualReconciliation,
        WorkflowDetectedLoopState::WorkflowComplete,
        WorkflowDetectedLoopState::WorkflowBlocked,
        WorkflowDetectedLoopState::Inconclusive,
    ];
    assert_eq!(17, states.len());
}

fn controller_record(status: WorkflowLoopControllerStatus, decision: WorkflowLoopControllerDecision) -> WorkflowLoopControllerRecord {
    WorkflowLoopControllerRecord {
        controller_id: WorkflowLoopControllerId("wlc_x".into()),
        workflow_execution_id: WorkflowExecutionId("wfx_x".into()),
        latest_run_revision_id: None,
        status, decision,
        loop_state: None, recommendation: None, predicates: vec![], evidence_links: vec![],
        creates_route: false, resolves_approval: false, reconciles_outcome: false,
        executes_tool: false, mutates_workflow_state: false,
        schedules_work: false, starts_worker: false, queues_operation: false,
        retries_operation: false, resumes_workflow: false,
        created_at: now_utc(),
    }
}

#[test]
fn workflow_loop_controller_id_is_content_addressed() {
    let hash = blake3::hash(b"test");
    let id = WorkflowLoopControllerId(format!("wlc_{}", hash.to_hex()));
    assert!(id.0.starts_with("wlc_"));
}

#[test]
fn workflow_loop_controller_requires_predicates() {
    let rec = controller_record(WorkflowLoopControllerStatus::Blocked,
        WorkflowLoopControllerDecision::Blocked { reason_code: "test".into(), summary: "test".into() });
    assert!(rec.predicates.is_empty());
    assert!(!rec.creates_route); assert!(!rec.schedules_work); assert!(!rec.retries_operation);
}

#[test]
fn recommendation_for_each_state() {
    let r = build_recommendation(&WorkflowDetectedLoopState::NeedsNextActionReview).unwrap();
    assert_eq!(r.operation, WorkflowManualOperationKind::ReviewNextActionProposal);
    assert_eq!(r.required_inputs, vec!["proposal_id".to_string(), "review_author".to_string(), "rationale".to_string()]);
    assert!(build_recommendation(&WorkflowDetectedLoopState::WorkflowComplete).is_none());
    assert!(build_recommendation(&WorkflowDetectedLoopState::NeedsCommandReview).is_none());
    let b = build_recommendation(&WorkflowDetectedLoopState::WorkflowBlocked).unwrap();
    assert_eq!(b.operation, WorkflowManualOperationKind::InspectBlockedWorkflow);
    assert_eq!(b.command_hint, "openwand workflow-loop recommend --workflow-execution-id <id>");
}

// --- reconciliation readiness ---

#[test]
fn readiness_id_is_content_addressed() {
    let id = WorkflowManualResultReconciliationReadinessId("wmrrr_deadbeef1234".into());
    assert!(id.0.starts_with("wmrrr_"));
}

fn test_ready_record() -> WorkflowManualResultReconciliationReadinessRecord {
    WorkflowManualResultReconciliationReadinessRecord {
        readiness_id: WorkflowManualResultReconciliationReadinessId("wmrrr_test".into()),
        workflow_execution_id: WorkflowExecutionId("wfx_t".into()),
        manual_result_id: WorkflowManualResultId("wmr_t".into()),
        manual_result_review_id: WorkflowManualResultReviewId("wmrr_t".into()),
        command_review_id: WorkflowCommandReviewId("wcrv_t".into()),
        command_composer_id: WorkflowCommandComposerId("wcc_t".into()),
        loop_controller_id: WorkflowLoopControllerId("wlc_t".into()),
        manual_result_review_hash: "rrh".into(),
        manual_result_hash: "mrh".into(),
        command_review_hash: "crh".into(),
        command_composer_hash: "cch".into(),
        command_descriptor_hash: "cdh".into(),
        loop_controller_hash: "lch".into(),
        status: WorkflowManualResultReconciliationReadinessStatus::Ready,
        decision: WorkflowManualResultReconciliationReadinessDecision::Ready { summary: "All predicates pass".into() },
        predicates: vec![],
        reconciliation_preview: Some(WorkflowManualResultReconciliationPreview::CompleteStageFromReportedSuccess),
        verifies_external_state: false,
        reconciles_now: false,
        mutates_workflow_state: false,
        creates_run_revision: false,
        appends_trace: false,
        writes_memory: false,
        routes_action: false,
        resolves_approval: false,
        creates_execution_grant: false,
        execution_allowed_now: false,
        evaluator: "test".into(),
        evaluated_at: now_utc(),
    }
}

#[test]
fn readiness_record_has_no_reconciliation_authority() {
    let r = test_ready_record();
    assert!(!r.verifies_external_state);
    assert!(!r.reconciles_now);
    assert!(!r.mutates_workflow_state);
    assert!(!r.creates_run_revision);
    assert!(!r.appends_trace);
    assert!(!r.writes_memory);
    assert!(!r.routes_action);
    assert!(!r.resolves_approval);
    assert!(!r.creates_execution_grant);
    assert!(!r.execution_allowed_now);
}

#[test]
fn ready_readiness_does_not_create_run_revision() {
    assert!(!test_ready_record().creates_run_revision);
}

#[test]
fn ready_readiness_does_not_verify_external_state() {
    assert!(!test_ready_record().verifies_external_state);
}

#[test]
fn ready_readiness_does_not_allow_execution_now() {
    assert!(!test_ready_record().execution_allowed_now);
}

#[test]
fn id_is_deterministic() {
    let id1 = reconciliation_readiness_id_for("wfx_1", "wmr_1", "wmrr_1", "k1");
    let id2 = reconciliation_readiness_id_for("wfx_1", "wmr_1", "wmrr_1", "k1");
    assert_eq!(id1, id2);
    assert!(id1.starts_with("wmrrr_"));
}

#[test]
fn id_differs_for_different_inputs() {
    let id1 = reconciliation_readiness_id_for("wfx_1", "wmr_1", "wmrr_1", "k1");
    let id2 = reconciliation_readiness_id_for("wfx_1", "wmr_1", "wmrr_1", "k2");
    assert_ne!(id1, id2);
}

#[test]
fn validation_blocks_empty_evaluator() {
    assert!(validate_reconciliation_readiness_request("", "h", "h").is_err());
}

#[test]
fn validation_blocks_empty_review_hash() {
    assert!(validate_reconciliation_readiness_request("e", "", "h").is_err());
}

#[test]
fn validation_passes_with_required_fields() {
    assert!(validate_reconciliation_readiness_request("e", "h", "h").is_ok());
}

#[test]
fn readiness_validation_lists_every_missing_field() {
    let errs = validate_reconciliation_readiness_request("", "", "").unwrap_err();
    assert_eq!(errs, vec![
        "evaluator is required".to_string(),
        "expected_manual_result_review_hash is required".to_string(),
        "expected_manual_result_hash is required".to_string(),
    ]);
    let hex = blake3::hash(b"reconciliation_readiness:v1:wfx_1:wmr_1:wmrr_1:k1").to_hex().to_string();
    assert_eq!(reconciliation_readiness_id_for("wfx_1", "wmr_1", "wmrr_1", "k1"), format!("wmrrr_{}", &hex[..16]));
}

// --- reconciliation gate ---

#[test]
fn gate_id_is_content_addressed() {
    let id = WorkflowManualResultReconciliationGateId("wmrrg_deadbeef1234".into());
    assert!(id.0.starts_with("wmrrg_"));
}

fn test_request() -> WorkflowManualResultReconciliationGateRequest {
    WorkflowManualResultReconciliationGateRequest {
        workflow_execution_id: WorkflowExecutionId("wfx_t".into()),
        manual_result_id: WorkflowManualResultId("wmr_t".into()),
        manual_result_review_id: WorkflowManualResultReviewId("wmrr_t".into()),
        reconciliation_readiness_id: WorkflowManualResultReconciliationReadinessId("wmrrr_t".into()),
        stage_id: "stage_1".into(),
        expected_workflow_run_hash: "wrh".into(),
        expected_reconciliation_readiness_hash: "rrh".into(),
        expected_manual_result_review_hash: "mrrh".into(),
        expected_manual_result_hash: "mrh".into(),
        expected_command_review_hash: "crh".into(),
        expected_command_composer_hash: "cch".into(),
        expected_command_descriptor_hash: "cdh".into(),
        expected_loop_controller_hash: "lch".into(),
        requested_by: "test".into(),
        requested_at: now_utc(),
        idempotency_key: "k1".into(),
    }
}

fn test_reconciled_record() -> WorkflowManualResultReconciliationGateRecord {
    WorkflowManualResultReconciliationGateRecord {
        gate_id: WorkflowManualResultReconciliationGateId("wmrrg_test".into()),
        workflow_execution_id: WorkflowExecutionId("wfx_t".into()),
        manual_result_id: WorkflowManualResultId("wmr_t".into()),
        manual_result_review_id: WorkflowManualResultReviewId("wmrr_t".into()),
        reconciliation_readiness_id: WorkflowManualResultReconciliationReadinessId("wmrrr_t".into()),
        command_review_id: WorkflowCommandReviewId("wcrv_t".into()),
        command_composer_id: WorkflowCommandComposerId("wcc_t".into()),
        loop_controller_id: WorkflowLoopControllerId("wlc_t".into()),
        stage_id: "stage_1".into(),
        workflow_run_hash: "wrh".into(),
        reconciliation_readiness_hash: "rrh".into(),
        manual_result_review_hash: "mrrh".into(),
        manual_result_hash: "mrh".into(),
        command_review_hash: "crh".into(),
        command_composer_hash: "cch".into(),
        command_descriptor_hash: "cdh".into(),
        loop_controller_hash: "lch".into(),
        status: WorkflowManualResultReconciliationGateStatus::Reconciled,
        decision: WorkflowManualResultReconciliationGateDecision::Reconciled {
            revision_id: Some("wrr_test".into()),
            summary: "ok".into(),
        },
        predicates: vec![],
        progression: None,
        new_run_revision_id: Some(WorkflowRunRevisionId("wrr_test".into())),
        creates_run_revision: true,
        mutates_original_workflow_run: false,
        verifies_external_truth: false,
        executes_command: false,
        routes_continuation: false,
        appends_trace: false,
        writes_memory: false,
        creates_execution_grant: false,
        execution_allowed_now: false,
        reconciled_by: "test".into(),
        reconciled_at: now_utc(),
    }
}

#[test]
fn gate_record_has_no_execution_authority() {
    let r = test_reconciled_record();
    assert!(!r.mutates_original_workflow_run);
    assert!(!r.verifies_external_truth);
    assert!(!r.executes_command);
    assert!(!r.routes_continuation);
    assert!(!r.appends_trace);
    assert!(!r.writes_memory);
    assert!(!r.creates_execution_grant);
    assert!(!r.execution_allowed_now);
}

#[test]
fn reconciled_gate_creates_run_revision_evidence() {
    assert!(test_reconciled_record().creates_run_revision, "Reconciled gate should create revision evidence");
}

#[test]
fn gate_does_not_mutate_original_workflow_run() {
    assert!(!test_reconciled_record().mutates_original_workflow_run);
}

#[test]
fn gate_does_not_verify_external_truth() {
    assert!(!test_reconciled_record().verifies_external_truth);
}

#[test]
fn gate_does_not_route_continuation() {
    assert!(!test_reconciled_record().routes_continuation);
}

#[test]
fn request_has_all_eight_hashes() {
    let req = test_request();
    assert!(!req.expected_workflow_run_hash.is_empty());
    assert!(!req.expected_reconciliation_readiness_hash.is_empty());
    assert!(!req.expected_manual_result_review_hash.is_empty());
    assert!(!req.expected_manual_result_hash.is_empty());
    assert!(!req.expected_command_review_hash.is_empty());
    assert!(!req.expected_command_composer_hash.is_empty());
    assert!(!req.expected_command_descriptor_hash.is_empty());
    assert!(!req.expected_loop_controller_hash.is_empty());
}

#[test]
fn is_actionable_preview_identifies_stage_targets() {
    assert!(is_actionable_preview(&WorkflowManualResultReconciliationPreview::CompleteStageFromReportedSuccess));
    assert!(is_actionable_preview(&WorkflowManualResultReconciliationPreview::FailStageFromReportedFailure));
    assert!(is_actionable_preview(&WorkflowManualResultReconciliationPreview::BlockStageFromReportedFailure));
    assert!(!is_actionable_preview(&WorkflowManualResultReconciliationPreview::PartialResultRequiresReview));
    assert!(!is_actionable_preview(&WorkflowManualResultReconciliationPreview::NotPerformedBlocksReconciliation));
    assert!(!is_actionable_preview(&WorkflowManualResultReconciliationPreview::InconclusiveBlocksReconciliation));
}

#[test]
fn gate_id_is_deterministic() {
    let a = gate_id_for("wfx_1", "wmr_1", "wmrr_1", "wmrrr_1", "s1", "k1");
    let b = gate_id_for("wfx_1", "wmr_1", "wmrr_1", "wmrrr_1", "s1", "k1");
    assert_eq!(a, b);
    assert!(a.starts_with("wmrrg_"));
}

#[test]
fn gate_id_differs_for_different_inputs() {
    let a = gate_id_for("wfx_1", "wmr_1", "wmrr_1", "wmrrr_1", "s1", "k1");
    let b = gate_id_for("wfx_2", "wmr_1", "wmrr_1", "wmrrr_1", "s1", "k1");
    assert_ne!(a, b);
}

#[test]
fn validate_gate_hashes_rejects_empty_workflow_run_hash() {
    assert!(validate_gate_hashes("", "h", "h", "h", "h", "h", "h", "h").is_err());
}

#[test]
fn validate_gate_hashes_rejects_empty_readiness_hash() {
    assert!(validate_gate_hashes("h", "", "h", "h", "h", "h", "h", "h").is_err());
}

#[test]
fn validate_gate_hashes_passes_with_all_8() {
    assert!(validate_gate_hashes("h", "h", "h", "h", "h", "h", "h", "h").is_ok());
}

#[test]
fn gate_hash_errors_and_id_exact() {
    let errs = validate_gate_hashes("", "h", "", "h", "h", "h", "h", "").unwrap_err();
    assert_eq!(errs, vec![
        "expected_workflow_run_hash is required".to_string(),
        "expected_manual_result_review_hash is required".to_string(),
        "expected_loop_controller_hash is required".to_string(),
    ]);
    let hex = blake3::hash(b"manual_reconciliation_gate:v1:wfx_1:wmr_1:wmrr_1:wmrrr_1:s1:k1").to_hex().to_string();
    assert_eq!(gate_id_for("wfx_1", "wmr_1", "wmrr_1", "wmrrr_1", "s1", "k1"), format!("wmrrg_{}", &hex[..16]));
}

fn stage(id: &str, status: WorkflowStageRunStatus) -> WorkflowStageRun {
    WorkflowStageRun {
        stage_id: id.into(), title: "t".into(), kind: WorkflowStageKind::ApplyChange, status, order: 0,
        depends_on: vec![], started_at: None, completed_at: None, summary: "s".into(),
    }
}

#[test]
fn stage_progression_moves_only_suspended_stage() {
    let p = compute_manual_result_stage_progression("s1", &WorkflowStageRunStatus::Suspended,
        &WorkflowManualResultReconciliationPreview::FailStageFromReportedFailure).unwrap();
    assert_eq!(p.new_status, WorkflowStageRunStatus::Failed);
    assert_eq!(p.lifecycle_event.event_id, "evt_s1_manual_failed");
    assert_eq!(p.lifecycle_event.event_kind, WorkflowStageLifecycleKind::StageFailed);
    assert_eq!(p.summary, "Stage failed from accepted operator-reported failure evidence.");
    assert!(compute_manual_result_stage_progression("s1", &WorkflowStageRunStatus::Pending,
        &WorkflowManualResultReconciliationPreview::CompleteStageFromReportedSuccess).is_none());
    assert!(compute_manual_result_stage_progression("s1", &WorkflowStageRunStatus::Suspended,
        &WorkflowManualResultReconciliationPreview::PartialResultRequiresReview).is_none());
    let stages = vec![stage("s0", WorkflowStageRunStatus::Completed), stage("s1", WorkflowStageRunStatus::Suspended)];
    let out = apply_manual_progression_to_stages(&stages, &p);
    assert_eq!(out.len(), 2);
    assert_eq!(out[0].status, WorkflowStageRunStatus::Completed);
    assert_eq!(out[1].status, WorkflowStageRunStatus::Failed);
    assert_eq!(out[1].completed_at, Some(p.lifecycle_event.occurred_at));
    assert_eq!(stages[1].status, WorkflowStageRunStatus::Suspended);
}
