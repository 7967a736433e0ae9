use workflow::outside::now_utc;
use workflow::plan::TaskPlanId;
use workflow::workflow_command_composer::WorkflowCommandComposerId;
use workflow::workflow_command_review::WorkflowCommandReviewId;
use workflow::workflow_loop_controller::WorkflowLoopControllerId;
use workflow::workflow_manual_result::{
    WorkflowManualResult, WorkflowManualResultId, WorkflowManualResultStatus, WorkflowManualResultSummary,
    WorkflowManualResultValidationSnapshot,
};
use workflow::workflow_manual_result_reconciliation_gate::{
    WorkflowManualResultReconciliationGateRequest, WorkflowManualResultReconciliationGateStatus,
};
use workflow::workflow_manual_result_reconciliation_gate_evaluator::{
    evaluate_manual_result_reconciliation_gate, WorkflowManualResultReconciliationGateContext,
};
use workflow::workflow_manual_result_reconciliation_readiness::{
    WorkflowManualResultReconciliationPreview, WorkflowManualResultReconciliationReadinessDecision,
    WorkflowManualResultReconciliationReadinessId, WorkflowManualResultReconciliationReadinessRecord,
    WorkflowManualResultReconciliationReadinessStatus,
};
use workflow::workflow_manual_result_review::{
    WorkflowManualResultReview, WorkflowManualResultReviewAcceptanceSnapshot, WorkflowManualResultReviewDecision,
    WorkflowManualResultReviewId,
};
use workflow::workflow_proposal::{WorkflowProposalId, WorkflowStageKind};
use workflow::workflow_proposal_review::WorkflowProposalReviewId;
use workflow::workflow_readiness::WorkflowReadinessId;
use workflow::workflow_run::{
    WorkflowAbortSnapshot, WorkflowExecutionDecision, WorkflowExecutionId, WorkflowRunRecord, WorkflowRunSnapshot,
    WorkflowRunStatus, WorkflowStageRun, WorkflowStageRunStatus,
};

fn test_manual_result(status: WorkflowManualResultStatus) -> WorkflowManualResult {
    WorkflowManualResult {
        result_id: WorkflowManualResultId("wmr_t".into()),
        workflow_execution_id: WorkflowExecutionId("wfx_t".into()),
        command_review_id: WorkflowCommandReviewId("wcrv_t".into()),
        command_composer_id: WorkflowCommandComposerId("wcc_t".into()),
        loop_controller_id: WorkflowLoopControllerId("wlc_t".into()),
        command_review_hash: "crh".into(), command_composer_hash: "cch".into(),
        command_descriptor_hash: "cdh".into(), loop_controller_hash: "lch".into(),
        status: status.clone(),
        operator: "tester".into(),
        summary: WorkflowManualResultSummary {
            operator_summary: "done".into(), operator_details: None,
            reported_status: status, caveat: "Operator-reported".into(),
        },
        artifact_references: vec![],
        validation_snapshot: WorkflowManualResultValidationSnapshot {
            command_review_was_acknowledged: true,
            command_review_hash_matched: true, command_composer_hash_matched: true,
            command_descriptor_hash_matched: true, loop_controller_hash_matched: true,
            command_review_marked_not_performed_by_openwand: true,
        },
        reported_by_operator: true,
        verified_by_openwand: false, command_executed_by_openwand: false,
        mutates_workflow_state: false, reconciles_outcome: false,
        routes_action: false, resolves_approval: false,
        appends_trace: false, writes_memory: false,
        invokes_shell: false, invokes_git: false,
        creates_execution_grant: false, execution_allowed_now: false,
        captured_at: now_utc(),
    }
}

fn test_review() -> WorkflowManualResultReview {
    WorkflowManualResultReview {
        review_id: WorkflowManualResultReviewId("wmrr_t".into()),
        workflow_execution_id: WorkflowExecutionId("wfx_t".into()),
        manual_result_id: WorkflowManualResultId("wmr_t".into()),
        command_review_id: WorkflowCommandReviewId("wcrv_t".into()),
        command_composer_id: WorkflowCommandComposerId("wcc_t".into()),
        loop_controller_id: WorkflowLoopControllerId("wlc_t".into()),
        manual_result_hash: "mrh".into(), command_review_hash: "crh".into(),
        command_composer_hash: "cch".into(), command_descriptor_hash: "cdh".into(),
        loop_controller_hash: "lch".into(),
        decision: WorkflowManualResultReviewDecision::Accepted,
        reviewer: "r".into(), rationale: "ok".into(), feedback: None,
        acceptance_snapshot: WorkflowManualResultReviewAcceptanceSnapshot {
            accepts_reported_evidence: true, verifies_external_state: false,
            reconciles_workflow_state: false, result_verified_by_openwand: false,
        },
        verifies_external_state: false, reconciles_workflow_state: false,
        mutates_workflow_state: false, executes_command: false,
        invokes_shell: false, invokes_git: false,
        routes_action: false, resolves_approval: false,
        appends_trace: false, writes_memory: false,
        creates_execution_grant: false, execution_allowed_now: false,
        reviewed_at: now_utc(),
    }
}

fn test_readiness(preview: WorkflowManualResultReconciliationPreview) -> WorkflowManualResultReconciliationReadinessRecord {
    WorkflowManualResultReconciliationReadinessRecord {
        readiness_id: WorkflowManualResultReconciliationReadinessId("wmrrr_t".into()),
        workflow_execution_id: WorkflowExecutionId("wfx_t".into()),
        manual_result_id: WorkflowManualResultId("wmr_t".into()),
        manual_result_review_id: WorkflowManualResultReviewId("wmrr_t".into()),
        command_review_id: WorkflowCommandReviewId("wcrv_t".into()),
        command_composer_id: WorkflowCommandComposerId("wcc_t".into()),
        loop_controller_id: WorkflowLoopControllerId("wlc_t".into()),
        manual_result_review_hash: "mrrh".into(), manual_result_hash: "mrh".into(),
        command_review_hash: "crh".into(), command_composer_hash: "cch".into(),
        command_descriptor_hash: "cdh".into(), loop_controller_hash: "lch".into(),
        status: WorkflowManualResultReconciliationReadinessStatus::Ready,
        decision: WorkflowManualResultReconciliationReadinessDecision::Ready { summary: "ok".into() },
        predicates: vec![],
        reconciliation_preview: Some(preview),
        verifies_external_state: false, reconciles_now: false,
        mutates_workflow_state: false, creates_run_revision: false,
        appends_trace: false, writes_memory: false,
        routes_action: false, resolves_approval: false,
        creates_execution_grant: false, execution_allowed_now: false,
        evaluator: "test".into(), evaluated_at: now_utc(),
    }
}

fn test_run(stage_status: WorkflowStageRunStatus) -> WorkflowRunRecord {
    WorkflowRunRecord {
        execution_id: WorkflowExecutionId("wfx_t".into()),
        readiness_id: WorkflowReadinessId("wfrd_t".into()),
        proposal_id: WorkflowProposalId("wfp_t".into()),
        proposal_review_id: WorkflowProposalReviewId("wfr_t".into()),
        source_task_plan_id: TaskPlanId("tpl_t".into()),
        status: WorkflowRunStatus::Suspended,
        decision: WorkflowExecutionDecision::Suspended { reason_code: "approval".into(), summary: "s".into() },
        predicates: vec![],
        run_snapshot: WorkflowRunSnapshot {
            readiness_id: "wfrd_t".into(), proposal_id: "wfp_t".into(),
            proposal_hash: "ph".into(), source_task_plan_hash: "sph".into(),
            readiness_status_at_execution: "ready".into(),
            proposal_review_decision_at_execution: "approved".into(),
        },
        stages: vec![WorkflowStageRun {
            stage_id: "stage_1".into(), title: "Stage 1".into(),
            kind: WorkflowStageKind::ApplyChange,
            status: stage_status, order: 0, depends_on: vec![],
            started_at: None, completed_at: None, summary: "test".into(),
        }],
        lifecycle_events: vec![], action_requests: vec![],
        abort_snapshot: WorkflowAbortSnapshot {
            abort_notes_available: false, rollback_notes_available: false,
            recovery_notes: vec![],
        },
        created_at: now_utc(), completed_at: None,
    }
}

fn valid_request() -> WorkflowManualResultReconciliationGateRequest {
    WorkflowManualResultReconciliationGateRequest {
        workflow_execution_id: WorkflowExecutionId("wfx_t".into()),
        manual_result_id: WorkflowManualResultId("wmr_t".into()),
        manual_result_review_id: WorkflowManualResultReviewId("wmrr_t".into()),
        reconciliation_readiness_id: WorkflowManualResultReconciliationReadinessId("wmrrr_t".into()),
        stage_id: "stage_1".into(),
        expected_workflow_run_hash: "wrh".into(),
        expected_reconciliation_readiness_hash: "rrh".into(),
        expected_manual_result_review_hash: "mrrh".into(),
        expected_manual_result_hash: "mrh".into(),
        expected_command_review_hash: "crh".into(),
        expected_command_composer_hash: "cch".into(),
        expected_command_descriptor_hash: "cdh".into(),
        expected_loop_controller_hash: "lch".into(),
        requested_by: "test".into(), requested_at: now_utc(),
        idempotency_key: "k1".into(),
    }
}

fn full_ctx<'a>(_mr: &'a WorkflowManualResult, review: &'a WorkflowManualResultReview, readiness: &'a WorkflowManualResultReconciliationReadinessRecord, run: &'a WorkflowRunRecord) -> WorkflowManualResultReconciliationGateContext<'a> {
    WorkflowManualResultReconciliationGateContext {
        workflow_run: Some(run), manual_result: Some(_mr),
        manual_result_review: Some(review), reconciliation_readiness: Some(readiness),
        latest_manual_result_review: Some(review), latest_reconciliation_readiness: Some(readiness),
        prior_gates: vec![],
    }
}

// Standard gate tests
#[test] fn workflow_manual_result_reconciliation_gate_evaluator_blocks_missing_workflow_run() {
    let mr = test_manual_result(WorkflowManualResultStatus::ReportedSucceeded);
    let review = test_review();
    let readiness = test_readiness(WorkflowManualResultReconciliationPreview::CompleteStageFromReportedSuccess);
    let run = test_run(WorkflowStageRunStatus::Suspended);
    let mut ctx = full_ctx(&mr, &review, &readiness, &run); ctx.workflow_run = None;
    let rec = evaluate_manual_result_reconciliation_gate(&valid_request(), &ctx);
    assert!(matches!(rec.status, WorkflowManualResultReconciliationGateStatus::Blocked));
}

#[test] fn workflow_manual_result_reconciliation_gate_evaluator_blocks_missing_manual_result() {
    let mr = test_manual_result(WorkflowManualResultStatus::ReportedSucceeded);
    let review = test_review();
    let readiness = test_readiness(WorkflowManualResultReconciliationPreview::CompleteStageFromReportedSuccess);
    let run = test_run(WorkflowStageRunStatus::Suspended);
    let mut ctx = full_ctx(&mr, &review, &readiness, &run); ctx.manual_result = None;
    let rec = evaluate_manual_result_reconciliation_gate(&valid_request(), &ctx);
    assert!(matches!(rec.status, WorkflowManualResultReconciliationGateStatus::Blocked));
}

#[test] fn workflow_manual_result_reconciliation_gate_evaluator_blocks_missing_review() {
    let mr = test_manual_result(WorkflowManualResultStatus::ReportedSucceeded);
    let review = test_review();
    let readiness = test_readiness(WorkflowManualResultReconciliationPreview::CompleteStageFromReportedSuccess);
    let run = test_run(WorkflowStageRunStatus::Suspended);
    let mut ctx = full_ctx(&mr, &review, &readiness, &run); ctx.manual_result_review = None;
    let rec = evaluate_manual_result_reconciliation_gate(&valid_request(), &ctx);
    assert!(matches!(rec.status, WorkflowManualResultReconciliationGateStatus::Blocked));
}

#[test] fn workflow_manual_result_reconciliation_gate_evaluator_blocks_missing_readiness() {
    let mr = test_manual_result(WorkflowManualResultStatus::ReportedSucceeded);
    let review = test_review();
    let readiness = test_readiness(WorkflowManualResultReconciliationPreview::CompleteStageFromReportedSuccess);
    let run = test_run(WorkflowStageRunStatus::Suspended);
    let mut ctx = full_ctx(&mr, &review, &readiness, &run); ctx.reconciliation_readiness = None;
    let rec = evaluate_manual_result_reconciliation_gate(&valid_request(), &ctx);
    assert!(matches!(rec.status, WorkflowManualResultReconciliationGateStatus::Blocked));
}

#[test] fn workflow_manual_result_reconciliation_gate_evaluator_blocks_non_ready_readiness() {
    let mr = test_manual_result(WorkflowManualResultStatus::ReportedSucceeded);
    let review = test_review();
    let mut readiness = test_readiness(WorkflowManualResultReconciliationPreview::CompleteStageFromReportedSuccess);
    readiness.status = WorkflowManualResultReconciliationReadinessStatus::Blocked;
    let run = test_run(WorkflowStageRunStatus::Suspended);
    let ctx = full_ctx(&mr, &review, &readiness, &run);
    let rec = evaluate_manual_result_reconciliation_gate(&valid_request(), &ctx);
    assert!(matches!(rec.status, WorkflowManualResultReconciliationGateStatus::Blocked));
}

#[test] fn workflow_manual_result_reconciliation_gate_evaluator_blocks_rejected_review() {
    let mr = test_manual_result(WorkflowManualResultStatus::ReportedSucceeded);
    let mut review = test_review();
    review.decision = WorkflowManualResultReviewDecision::Rejected;
    let readiness = test_readiness(WorkflowManualResultReconciliationPreview::CompleteStageFromReportedSuccess);
    let run = test_run(WorkflowStageRunStatus::Suspended);
    let ctx = full_ctx(&mr, &review, &readiness, &run);
    let rec = evaluate_manual_result_reconciliation_gate(&valid_request(), &ctx);
    assert!(matches!(rec.status, WorkflowManualResultReconciliationGateStatus::Blocked));
}

// Patch 1 tests
#[test] fn ready_succeeded_with_accepted_review_reconciles() {
    let mr = test_manual_result(WorkflowManualResultStatus::ReportedSucceeded);
    let review = test_review();
    let readiness = test_readiness(WorkflowManualResultReconciliationPreview::CompleteStageFromReportedSuccess);
    let run = test_run(WorkflowStageRunStatus::Suspended);
    let ctx = full_ctx(&mr, &review, &readiness, &run);
    let rec = evaluate_manual_result_reconciliation_gate(&valid_request(), &ctx);
    assert!(matches!(rec.status, WorkflowManualResultReconciliationGateStatus::Reconciled));
    assert!(rec.progression.is_some());
    assert_eq!(WorkflowStageRunStatus::Completed, rec.progression.unwrap().new_status);
    assert!(rec.creates_run_revision);
}

#[test] fn ready_failed_with_accepted_review_reconciles_to_failed() {
    let mr = test_manual_result(WorkflowManualResultStatus::ReportedFailed);
    let review = test_review();
    let readiness = test_readiness(WorkflowManualResultReconciliationPreview::FailStageFromReportedFailure);
    let run = test_run(WorkflowStageRunStatus::Suspended);
    let ctx = full_ctx(&mr, &review, &readiness, &run);
    let rec = evaluate_manual_result_reconciliation_gate(&valid_request(), &ctx);
    assert!(matches!(rec.status, WorkflowManualResultReconciliationGateStatus::Reconciled));
    assert_eq!(WorkflowStageRunStatus::Failed, rec.progression.unwrap().new_status);
}

#[test] fn blocks_ready_readiness_without_reconciliation_preview() {
    let mr = test_manual_result(WorkflowManualResultStatus::ReportedSucceeded);
    let review = test_review();
    let mut readiness = test_readiness(WorkflowManualResultReconciliationPreview::CompleteStageFromReportedSuccess);
    readiness.reconciliation_preview = None;
    let run = test_run(WorkflowStageRunStatus::Suspended);
    let ctx = full_ctx(&mr, &review, &readiness, &run);
    let rec = evaluate_manual_result_reconciliation_gate(&valid_request(), &ctx);
    assert!(matches!(rec.status, WorkflowManualResultReconciliationGateStatus::Blocked));
}

#[test] fn blocks_preview_status_mismatch() {
    // Preview says success but result is failed
    let mr = test_manual_result(WorkflowManualResultStatus::ReportedFailed);
    let review = test_review();
    let readiness = test_readiness(WorkflowManualResultReconciliationPreview::CompleteStageFromReportedSuccess);
    let run = test_run(WorkflowStageRunStatus::Suspended);
    let ctx = full_ctx(&mr, &review, &readiness, &run);
    let rec = evaluate_manual_result_reconciliation_gate(&valid_request(), &ctx);
    assert!(matches!(rec.status, WorkflowManualResultReconciliationGateStatus::Blocked));
}

#[test] fn reported_failed_uses_preview_to_choose_blocked_or_failed() {
    // Preview says BlockStage → stage should be Blocked, not Failed
    let mr = test_manual_result(WorkflowManualResultStatus::ReportedFailed);
    let review = test_review();
    let readiness = test_readiness(WorkflowManualResultReconciliationPreview::BlockStageFromReportedFailure);
    let run = test_run(WorkflowStageRunStatus::Suspended);
    let ctx = full_ctx(&mr, &review, &readiness, &run);
    let rec = evaluate_manual_result_reconciliation_gate(&valid_request(), &ctx);
    assert!(matches!(rec.status, WorkflowManualResultReconciliationGateStatus::Reconciled));
    assert_eq!(WorkflowStageRunStatus::Blocked, rec.progression.unwrap().new_status);
}

#[test] fn reported_partial_blocks_unless_preview_explicitly_allows_progression() {
    let mr = test_manual_result(WorkflowManualResultStatus::ReportedPartial);
    let review = test_review();
    let readiness = test_readiness(WorkflowManualResultReconciliationPreview::PartialResultRequiresReview);
    let run = test_run(WorkflowStageRunStatus::Suspended);
    let ctx = full_ctx(&mr, &review, &readiness, &run);
    let rec = evaluate_manual_result_reconciliation_gate(&valid_request(), &ctx);
    assert!(matches!(rec.status, WorkflowManualResultReconciliationGateStatus::Blocked));
}

// Patch 2 tests
#[test] fn blocks_manual_result_for_non_stage_operation() {
    let mr = test_manual_result(WorkflowManualResultStatus::ReportedSucceeded);
    let review = test_review();
    // Non-actionable preview = meta-operation
    let readiness = test_readiness(WorkflowManualResultReconciliationPreview::InconclusiveBlocksReconciliation);
    let run = test_run(WorkflowStageRunStatus::Suspended);
    let ctx = full_ctx(&mr, &review, &readiness, &run);
    let rec = evaluate_manual_result_reconciliation_gate(&valid_request(), &ctx);
    assert!(matches!(rec.status, WorkflowManualResultReconciliationGateStatus::Blocked));
}

#[test] fn blocks_manual_result_for_inspect_blocked_workflow() {
    let mr = test_manual_result(WorkflowManualResultStatus::ReportedSucceeded);
    let review = test_review();
    let readiness = test_readiness(WorkflowManualResultReconciliationPreview::NotPerformedBlocksReconciliation);
    let run = test_run(WorkflowStageRunStatus::Suspended);
    let ctx = full_ctx(&mr, &review, &readiness, &run);
    let rec = evaluate_manual_result_reconciliation_gate(&valid_request(), &ctx);
    assert!(matches!(rec.status, WorkflowManualResultReconciliationGateStatus::Blocked));
}

#[test] fn accepts_manual_result_only_when_readiness_preview_targets_stage_progression() {
    let mr = test_manual_result(WorkflowManualResultStatus::ReportedSucceeded);
    let review = test_review();
    let readiness = test_readiness(WorkflowManualResultReconciliationPreview::CompleteStageFromReportedSuccess);
    let run = test_run(WorkflowStageRunStatus::Suspended);
    let ctx = full_ctx(&mr, &review, &readiness, &run);
    let rec = evaluate_manual_result_reconciliation_gate(&valid_request(), &ctx);
    assert!(matches!(rec.status, WorkflowManualResultReconciliationGateStatus::Reconciled));
}

// Patch 4 tests
#[test] fn workflow_manual_result_reconciliation_gate_evaluator_blocks_non_latest_manual_result_review() {
    let mr = test_manual_result(WorkflowManualResultStatus::ReportedSucceeded);
    let review = test_review();
    let mut later = test_review(); later.review_id = WorkflowManualResultReviewId("wmrr_later".into());
    let readiness = test_readiness(WorkflowManualResultReconciliationPreview::CompleteStageFromReportedSuccess);
    let run = test_run(WorkflowStageRunStatus::Suspended);
    let mut ctx = full_ctx(&mr, &review, &readiness, &run);
    ctx.latest_manual_result_review = Some(&later);
    let rec = evaluate_manual_result_reconciliation_gate(&valid_request(), &ctx);
    assert!(matches!(rec.status, WorkflowManualResultReconciliationGateStatus::Blocked));
}

#[test] fn blocks_later_rejected_manual_result_review() {
    let mr = test_manual_result(WorkflowManualResultStatus::ReportedSucceeded);
    let review = test_review();
    let mut later = test_review();
    later.review_id = WorkflowManualResultReviewId("wmrr_rej".into());
    later.decision = WorkflowManualResultReviewDecision::Rejected;
    let readiness = test_readiness(WorkflowManualResultReconciliationPreview::CompleteStageFromReportedSuccess);
    let run = test_run(WorkflowStageRunStatus::Suspended);
    let mut ctx = full_ctx(&mr, &review, &readiness, &run);
    ctx.latest_manual_result_review = Some(&later);
    let rec = evaluate_manual_result_reconciliation_gate(&valid_request(), &ctx);
    assert!(matches!(rec.status, WorkflowManualResultReconciliationGateStatus::Blocked));
}

#[test] fn blocks_later_changes_requested_manual_result_review() {
    let mr = test_manual_result(WorkflowManualResultStatus::ReportedSucceeded);
    let review = test_review();
    let mut later = test_review();
    later.review_id = WorkflowManualResultReviewId("wmrr_chg".into());
    later.decision = WorkflowManualResultReviewDecision::ChangesRequested;
    let readiness = test_readiness(WorkflowManualResultReconciliationPreview::CompleteStageFromReportedSuccess);
    let run = test_run(WorkflowStageRunStatus::Suspended);
    let mut ctx = full_ctx(&mr, &review, &readiness, &run);
    ctx.latest_manual_result_review = Some(&later);
    let rec = evaluate_manual_result_reconciliation_gate(&valid_request(), &ctx);
    assert!(matches!(rec.status, WorkflowManualResultReconciliationGateStatus::Blocked));
}

#[test] fn blocks_non_latest_reconciliation_readiness() {
    let mr = test_manual_result(WorkflowManualResultStatus::ReportedSucceeded);
    let review = test_review();
    let readiness = test_readiness(WorkflowManualResultReconciliationPreview::CompleteStageFromReportedSuccess);
    let mut later = test_readiness(WorkflowManualResultReconciliationPreview::CompleteStageFromReportedSuccess);
    later.readiness_id = WorkflowManualResultReconciliationReadinessId("wmrrr_later".into());
    let run = test_run(WorkflowStageRunStatus::Suspended);
    let mut ctx = full_ctx(&mr, &review, &readiness, &run);
    ctx.latest_reconciliation_readiness = Some(&later);
    let rec = evaluate_manual_result_reconciliation_gate(&valid_request(), &ctx);
    assert!(matches!(rec.status, WorkflowManualResultReconciliationGateStatus::Blocked));
}

// Patch 5 tests
#[test] fn blocks_pending_stage_to_prevent_skip() {
    let mr = test_manual_result(WorkflowManualResultStatus::ReportedSucceeded);
    let review = test_review();
    let readiness = test_readiness(WorkflowManualResultReconciliationPreview::CompleteStageFromReportedSuccess);
    let run = test_run(WorkflowStageRunStatus::Pending);
    let ctx = full_ctx(&mr, &review, &readiness, &run);
    let rec = evaluate_manual_result_reconciliation_gate(&valid_request(), &ctx);
    assert!(matches!(rec.status, WorkflowManualResultReconciliationGateStatus::Blocked));
}

#[test] fn blocks_completed_stage() {
    let mr = test_manual_result(WorkflowManualResultStatus::ReportedSucceeded);
    let review = test_review();
    let readiness = test_readiness(WorkflowManualResultReconciliationPreview::CompleteStageFromReportedSuccess);
    let run = test_run(WorkflowStageRunStatus::Completed);
    let ctx = full_ctx(&mr, &review, &readiness, &run);
    let rec = evaluate_manual_result_reconciliation_gate(&valid_request(), &ctx);
    assert!(matches!(rec.status, WorkflowManualResultReconciliationGateStatus::Blocked));
}

#[test] fn blocks_failed_stage() {
    let mr = test_manual_result(WorkflowManualResultStatus::ReportedSucceeded);
    let review = test_review();
    let readiness = test_readiness(WorkflowManualResultReconciliationPreview::CompleteStageFromReportedSuccess);
    let run = test_run(WorkflowStageRunStatus::Failed);
    let ctx = full_ctx(&mr, &review, &readiness, &run);
    let rec = evaluate_manual_result_reconciliation_gate(&valid_request(), &ctx);
    assert!(matches!(rec.status, WorkflowManualResultReconciliationGateStatus::Blocked));
}

#[test] fn blocks_blocked_stage_unless_preview_explicitly_allows_block_update() {
    let mr = test_manual_result(WorkflowManualResultStatus::ReportedFailed);
    let review = test_review();
    let readiness = test_readiness(WorkflowManualResultReconciliationPreview::BlockStageFromReportedFailure);
    let run = test_run(WorkflowStageRunStatus::Blocked);
    let ctx = full_ctx(&mr, &review, &readiness, &run);
    let rec = evaluate_manual_result_reconciliation_gate(&valid_request(), &ctx);
    assert!(matches!(rec.status, WorkflowManualResultReconciliationGateStatus::Blocked));
}

#[test] fn accepts_suspended_stage_for_manual_reconciliation() {
    let mr = test_manual_result(WorkflowManualResultStatus::ReportedSucceeded);
    let review = test_review();
    let readiness = test_readiness(WorkflowManualResultReconciliationPreview::CompleteStageFromReportedSuccess);
    let run = test_run(WorkflowStageRunStatus::Suspended);
    let ctx = full_ctx(&mr, &review, &readiness, &run);
    let rec = evaluate_manual_result_reconciliation_gate(&valid_request(), &ctx);
    assert!(matches!(rec.status, WorkflowManualResultReconciliationGateStatus::Reconciled));
}

// Patch 7: idempotency tests
#[test] fn gate_id_starts_with_wmrrg() {
    let mr = test_manual_result(WorkflowManualResultStatus::ReportedSucceeded);
    let review = test_review();
    let readiness = test_readiness(WorkflowManualResultReconciliationPreview::CompleteStageFromReportedSuccess);
    let run = test_run(WorkflowStageRunStatus::Suspended);
    let ctx = full_ctx(&mr, &review, &readiness, &run);
    let rec = evaluate_manual_result_reconciliation_gate(&valid_request(), &ctx);
    assert!(rec.gate_id.0.starts_with("wmrrg_"));
}

#[test] fn gate_does_not_mutate_original_run() {
    let mr = test_manual_result(WorkflowManualResultStatus::ReportedSucceeded);
    let review = test_review();
    let readiness = test_readiness(WorkflowManualResultReconciliationPreview::CompleteStageFromReportedSuccess);
    let run = test_run(WorkflowStageRunStatus::Suspended);
    let ctx = full_ctx(&mr, &review, &readiness, &run);
    let rec = evaluate_manual_result_reconciliation_gate(&valid_request(), &ctx);
    assert!(!rec.mutates_original_workflow_run);
    // Original run stage is still Suspended
    assert_eq!(WorkflowStageRunStatus::Suspended, run.stages[0].status);
}

// --- own checks ---

#[test]
fn reconciled_gate_reports_stage_transition_and_revision() {
    let mr = test_manual_result(WorkflowManualResultStatus::ReportedSucceeded);
    let review = test_review();
    let readiness = test_readiness(WorkflowManualResultReconciliationPreview::CompleteStageFromReportedSuccess);
    let run = test_run(WorkflowStageRunStatus::Suspended);
    let ctx = full_ctx(&mr, &review, &readiness, &run);
    let rec = evaluate_manual_result_reconciliation_gate(&valid_request(), &ctx);
    let p = rec.progression.clone().unwrap();
    assert_eq!("stage_1", p.stage_id);
    assert_eq!(WorkflowStageRunStatus::Suspended, p.previous_status);
    assert!(rec.predicates.iter().all(|c| c.passed));
    let again = evaluate_manual_result_reconciliation_gate(&valid_request(), &ctx);
    assert_eq!(rec.gate_id, again.gate_id);
}

#[test]
fn blocked_gate_has_no_progression_and_no_revision() {
    let mr = test_manual_result(WorkflowManualResultStatus::ReportedSucceeded);
    let review = test_review();
    let readiness = test_readiness(WorkflowManualResultReconciliationPreview::CompleteStageFromReportedSuccess);
    let run = test_run(WorkflowStageRunStatus::Pending);
    let ctx = full_ctx(&mr, &review, &readiness, &run);
    let rec = evaluate_manual_result_reconciliation_gate(&valid_request(), &ctx);
    assert!(rec.progression.is_none());
    assert!(!rec.creates_run_revision);
    assert!(rec.predicates.iter().any(|c| !c.passed));
}

#[test]
fn unknown_stage_is_blocked() {
    let mr = test_manual_result(WorkflowManualResultStatus::ReportedSucceeded);
    let review = test_review();
    let readiness = test_readiness(WorkflowManualResultReconciliationPreview::CompleteStageFromReportedSuccess);
    let run = test_run(WorkflowStageRunStatus::Suspended);
    let ctx = full_ctx(&mr, &review, &readiness, &run);
    let mut req = valid_request();
    req.stage_id = "stage_9".into();
    let rec = evaluate_manual_result_reconciliation_gate(&req, &ctx);
    assert!(matches!(rec.status, WorkflowManualResultReconciliationGateStatus::Blocked));
}

#[test] fn gate_id_has_prefix_and_sixteen_hex_digits() {
    let mr = test_manual_result(WorkflowManualResultStatus::ReportedSucceeded);
    let review = test_review();
    let readiness = test_readiness(WorkflowManualResultReconciliationPreview::CompleteStageFromReportedSuccess);
    let run = test_run(WorkflowStageRunStatus::Suspended);
    let ctx = full_ctx(&mr, &review, &readiness, &run);
    let rec = evaluate_manual_result_reconciliation_gate(&valid_request(), &ctx);
    assert_eq!(22, rec.gate_id.0.len());
}
