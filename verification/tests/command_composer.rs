use workflow::outside::now_utc;
use workflow::workflow_command_composer::{
    compose_command_descriptor, WorkflowCommandComposerContext, WorkflowCommandComposerDecision,
    WorkflowCommandComposerId, WorkflowCommandComposerRecord, WorkflowCommandComposerRequest,
    WorkflowCommandComposerStatus,
};
use workflow::workflow_loop_controller::{
    WorkflowLoopControllerDecision, WorkflowLoopControllerId, WorkflowLoopControllerRecord,
    WorkflowLoopControllerStatus,
};
use workflow::workflow_loop_recommendation::{WorkflowLoopRecommendation, WorkflowManualOperationKind};
use workflow::workflow_manual_operation::WorkflowManualCommandKind;
use workflow::workflow_run::WorkflowExecutionId;

/// The JSON text of the stored loop-controller record.
const LC_JSON: &str = "{\"controller_id\":\"wlc_t\"}";

fn empty_ctx() -> WorkflowCommandComposerContext<'static> {
    WorkflowCommandComposerContext {
        loop_controller_record: None, workflow_run: None, latest_revision: None,
        loop_controller_json: "",
    }
}

fn test_request() -> WorkflowCommandComposerRequest {
    WorkflowCommandComposerRequest {
        workflow_execution_id: WorkflowExecutionId("wfx_t".into()),
        loop_controller_id: WorkflowLoopControllerId("wlc_t".into()),
        expected_loop_controller_hash: "h".into(),
        requested_by: "test".into(), requested_at: now_utc(),
        idempotency_key: "key1".into(),
    }
}

fn lc_with_op(op: WorkflowManualOperationKind) -> WorkflowLoopControllerRecord {
    WorkflowLoopControllerRecord {
        controller_id: WorkflowLoopControllerId("wlc_t".into()),
        workflow_execution_id: WorkflowExecutionId("wfx_t".into()),
        latest_run_revision_id: None,
        status: WorkflowLoopControllerStatus::RecommendationReady,
        decision: WorkflowLoopControllerDecision::Recommend {
            operation: op.clone(), summary: "test".into(),
        },
        loop_state: None,
        recommendation: Some(WorkflowLoopRecommendation {
            operation: op, command_hint: "test".into(), reason: "test".into(),
            required_inputs: vec![], evidence_links: vec![],
        }),
        predicates: vec![], evidence_links: vec![],
        creates_route: false, resolves_approval: false, reconciles_outcome: false,
        executes_tool: false, mutates_workflow_state: false,
        schedules_work: false, starts_worker: false, queues_operation: false,
        retries_operation: false, resumes_workflow: false, created_at: now_utc(),
    }
}

fn ctx_with_lc(lc: &WorkflowLoopControllerRecord) -> WorkflowCommandComposerContext<'_> {
    WorkflowCommandComposerContext {
        loop_controller_record: Some(lc), workflow_run: None, latest_revision: None,
        loop_controller_json: LC_JSON,
    }
}

fn plain_record(status: WorkflowCommandComposerStatus, decision: WorkflowCommandComposerDecision) -> WorkflowCommandComposerRecord {
    WorkflowCommandComposerRecord {
        composer_id: WorkflowCommandComposerId("wcc_a".into()),
        workflow_execution_id: WorkflowExecutionId("wfx_a".into()),
        loop_controller_id: WorkflowLoopControllerId("wlc_a".into()),
        loop_controller_hash: "h".into(),
        status,
        decision,
        predicates: vec![], descriptor: None, missing_inputs: vec![], evidence_links: vec![],
        executes_command: false, invokes_shell: false, invokes_git: false,
        routes_action: false, resolves_approval: false, reconciles_outcome: false,
        mutates_workflow_state: false, schedules_work: false, starts_worker: false,
        queues_operation: false, created_at: now_utc(),
    }
}

#[test]
fn workflow_command_composer_id_is_content_addressed() {
    let hash = blake3::hash(b"test");
    let id = WorkflowCommandComposerId(format!("wcc_{}", hash.to_hex()));
    assert!(id.0.starts_with("wcc_"));
}

#[test]
fn workflow_command_composer_requires_predicates() {
    let rec = plain_record(
        WorkflowCommandComposerStatus::Blocked,
        WorkflowCommandComposerDecision::Blocked { reason_code: "test".into(), summary: "test".into() },
    );
    assert!(rec.predicates.is_empty());
}

#[test]
fn workflow_command_composer_has_no_authority_flags() {
    let rec = plain_record(
        WorkflowCommandComposerStatus::DescriptorReady,
        WorkflowCommandComposerDecision::DescriptorReady { summary: "ok".into() },
    );
    assert!(!rec.executes_command); assert!(!rec.invokes_shell); assert!(!rec.invokes_git);
    assert!(!rec.routes_action); assert!(!rec.resolves_approval); assert!(!rec.reconciles_outcome);
    assert!(!rec.mutates_workflow_state); assert!(!rec.schedules_work);
    assert!(!rec.starts_worker); assert!(!rec.queues_operation);
}

#[test]
fn composes_continuation_propose_command() {
    let lc = lc_with_op(WorkflowManualOperationKind::CreateContinuationProposal);
    let ctx = ctx_with_lc(&lc);
    let rec = compose_command_descriptor(&test_request(), &ctx);
    assert!(matches!(rec.status, WorkflowCommandComposerStatus::DescriptorReady));
    let desc = rec.descriptor.unwrap();
    assert_eq!(WorkflowManualCommandKind::WorkflowContinuationPropose, desc.command_kind);
}

#[test]
fn composes_next_action_review_command_with_missing_decision() {
    let lc = lc_with_op(WorkflowManualOperationKind::ReviewNextActionProposal);
    let ctx = ctx_with_lc(&lc);
    let rec = compose_command_descriptor(&test_request(), &ctx);
    assert!(matches!(rec.status, WorkflowCommandComposerStatus::MissingInputs));
    assert!(rec.missing_inputs.iter().any(|m| m.name == "review_decision"));
}

#[test]
fn composes_routing_readiness_evaluate_command() {
    let lc = lc_with_op(WorkflowManualOperationKind::EvaluateRoutingReadiness);
    let ctx = ctx_with_lc(&lc);
    let rec = compose_command_descriptor(&test_request(), &ctx);
    assert!(matches!(rec.status, WorkflowCommandComposerStatus::DescriptorReady));
    assert_eq!(WorkflowManualCommandKind::WorkflowRoutingReadinessEvaluate, rec.descriptor.unwrap().command_kind);
}

#[test]
fn composes_next_action_routing_route_command() {
    let lc = lc_with_op(WorkflowManualOperationKind::RouteReviewedNextAction);
    let ctx = ctx_with_lc(&lc);
    let rec = compose_command_descriptor(&test_request(), &ctx);
    assert!(matches!(rec.status, WorkflowCommandComposerStatus::DescriptorReady));
    assert_eq!(WorkflowManualCommandKind::WorkflowNextActionRoutingRoute, rec.descriptor.unwrap().command_kind);
}

#[test]
fn composes_action_outcome_resolve_command_with_missing_resolution() {
    let lc = lc_with_op(WorkflowManualOperationKind::ResolveWorkflowApprovalOutcome);
    let ctx = ctx_with_lc(&lc);
    let rec = compose_command_descriptor(&test_request(), &ctx);
    assert!(matches!(rec.status, WorkflowCommandComposerStatus::MissingInputs));
    assert!(rec.missing_inputs.iter().any(|m| m.name == "approval_resolution"));
}

#[test]
fn composes_reconciliation_command() {
    let lc = lc_with_op(WorkflowManualOperationKind::ReconcileWorkflowOutcome);
    let ctx = ctx_with_lc(&lc);
    let rec = compose_command_descriptor(&test_request(), &ctx);
    assert!(matches!(rec.status, WorkflowCommandComposerStatus::DescriptorReady));
    assert_eq!(WorkflowManualCommandKind::WorkflowReconciliationReconcile, rec.descriptor.unwrap().command_kind);
}

#[test]
fn composes_inspect_blocked_workflow_command() {
    let lc = lc_with_op(WorkflowManualOperationKind::InspectBlockedWorkflow);
    let ctx = ctx_with_lc(&lc);
    let rec = compose_command_descriptor(&test_request(), &ctx);
    assert!(matches!(rec.status, WorkflowCommandComposerStatus::DescriptorReady));
    assert_eq!(WorkflowManualCommandKind::InspectBlockedWorkflow, rec.descriptor.unwrap().command_kind);
}

#[test]
fn no_action_produces_no_command_required() {
    let lc = lc_with_op(WorkflowManualOperationKind::NoAction);
    let ctx = ctx_with_lc(&lc);
    let rec = compose_command_descriptor(&test_request(), &ctx);
    assert!(matches!(rec.status, WorkflowCommandComposerStatus::NoCommandRequired));
    assert!(rec.descriptor.is_none());
}

#[test]
fn composer_copies_known_ids_and_hashes() {
    let lc = lc_with_op(WorkflowManualOperationKind::CreateContinuationProposal);
    let ctx = ctx_with_lc(&lc);
    let rec = compose_command_descriptor(&test_request(), &ctx);
    let desc = rec.descriptor.unwrap();
    assert!(desc.arguments.iter().any(|a| a.name == "workflow_execution_id" && a.value_preview.as_deref() == Some("wfx_t")));
}

#[test]
fn composer_never_guesses_missing_inputs() {
    let lc = lc_with_op(WorkflowManualOperationKind::ReviewNextActionProposal);
    let ctx = ctx_with_lc(&lc);
    let rec = compose_command_descriptor(&test_request(), &ctx);
    for mi in &rec.missing_inputs {
        assert!(rec.descriptor.as_ref().map_or(true, |d| !d.arguments.iter().any(|a| a.name == mi.name && !a.missing)));
    }
}

#[test]
fn composer_is_deterministic_for_same_loop_record() {
    let lc = lc_with_op(WorkflowManualOperationKind::CreateContinuationProposal);
    let ctx = ctx_with_lc(&lc);
    let r1 = compose_command_descriptor(&test_request(), &ctx);
    let r2 = compose_command_descriptor(&test_request(), &ctx);
    assert_eq!(r1.composer_id, r2.composer_id);
    assert_eq!(r1.descriptor.unwrap().display_command, r2.descriptor.unwrap().display_command);
}

#[test]
fn review_command_requires_operator_review_decision_missing_input() {
    let lc = lc_with_op(WorkflowManualOperationKind::ReviewNextActionProposal);
    let ctx = ctx_with_lc(&lc);
    let rec = compose_command_descriptor(&test_request(), &ctx);
    let mi = rec.missing_inputs.iter().find(|m| m.name == "review_decision").unwrap();
    assert!(mi.reason.contains("approve"));
    assert!(mi.reason.contains("reject"));
}

#[test]
fn approval_outcome_command_requires_operator_resolution_missing_input() {
    let lc = lc_with_op(WorkflowManualOperationKind::ResolveWorkflowApprovalOutcome);
    let ctx = ctx_with_lc(&lc);
    let rec = compose_command_descriptor(&test_request(), &ctx);
    let mi = rec.missing_inputs.iter().find(|m| m.name == "approval_resolution").unwrap();
    assert!(mi.reason.contains("approve"));
    assert!(mi.reason.contains("reject"));
}

#[test]
fn composer_never_defaults_to_approve_or_reject() {
    let lc = lc_with_op(WorkflowManualOperationKind::ReviewNextActionProposal);
    let ctx = ctx_with_lc(&lc);
    let rec = compose_command_descriptor(&test_request(), &ctx);
    let desc = rec.descriptor.unwrap();
    assert!(!desc.display_command.contains("--decision approve"));
    assert!(!desc.display_command.contains("--decision reject"));
    assert!(desc.display_command.contains("<review-decision>"));
}

#[test]
fn workflow_command_composer_blocks_missing_loop_controller_record() {
    let rec = compose_command_descriptor(&test_request(), &empty_ctx());
    assert!(matches!(rec.status, WorkflowCommandComposerStatus::Blocked));
}

#[test]
fn workflow_command_composer_blocks_loop_controller_hash_mismatch() {
    let lc = lc_with_op(WorkflowManualOperationKind::CreateContinuationProposal);
    let ctx = ctx_with_lc(&lc);
    let mut req = test_request();
    req.expected_loop_controller_hash = String::new();
    let rec = compose_command_descriptor(&req, &ctx);
    assert!(matches!(rec.status, WorkflowCommandComposerStatus::Blocked));
}

#[test]
fn blocks_workflow_run_mismatch() {
    let mut lc = lc_with_op(WorkflowManualOperationKind::CreateContinuationProposal);
    lc.workflow_execution_id = WorkflowExecutionId("wfx_other".into());
    let ctx = ctx_with_lc(&lc);
    let rec = compose_command_descriptor(&test_request(), &ctx);
    assert!(matches!(rec.status, WorkflowCommandComposerStatus::Blocked));
}

#[test]
fn no_command_required_for_no_action() {
    let lc = lc_with_op(WorkflowManualOperationKind::NoAction);
    let ctx = ctx_with_lc(&lc);
    let rec = compose_command_descriptor(&test_request(), &ctx);
    assert!(matches!(rec.status, WorkflowCommandComposerStatus::NoCommandRequired));
}

#[test]
fn descriptor_ready_when_required_arguments_resolved() {
    let lc = lc_with_op(WorkflowManualOperationKind::ReconcileWorkflowOutcome);
    let ctx = ctx_with_lc(&lc);
    let rec = compose_command_descriptor(&test_request(), &ctx);
    assert!(matches!(rec.status, WorkflowCommandComposerStatus::DescriptorReady));
}

#[test]
fn missing_inputs_when_required_arguments_unavailable() {
    let lc = lc_with_op(WorkflowManualOperationKind::ReviewNextActionProposal);
    let ctx = ctx_with_lc(&lc);
    let rec = compose_command_descriptor(&test_request(), &ctx);
    assert!(matches!(rec.status, WorkflowCommandComposerStatus::MissingInputs));
    assert!(!rec.missing_inputs.is_empty());
}

#[test]
fn copyable_text_is_display_only() {
    let lc = lc_with_op(WorkflowManualOperationKind::CreateContinuationProposal);
    let ctx = ctx_with_lc(&lc);
    let rec = compose_command_descriptor(&test_request(), &ctx);
    let desc = rec.descriptor.unwrap();
    assert!(desc.display_only);
    assert!(!desc.executable);
    assert!(desc.copyable_text.starts_with("openwand"));
}

#[test]
fn idempotency_key_returns_existing_descriptor() {
    let lc = lc_with_op(WorkflowManualOperationKind::CreateContinuationProposal);
    let ctx = ctx_with_lc(&lc);
    let r1 = compose_command_descriptor(&test_request(), &ctx);
    let r2 = compose_command_descriptor(&test_request(), &ctx);
    assert_eq!(r1.composer_id, r2.composer_id);
}

// --- own checks ---

#[test]
fn composer_id_is_digest_of_run_controller_and_key() {
    let lc = lc_with_op(WorkflowManualOperationKind::NoAction);
    let ctx = ctx_with_lc(&lc);
    let rec = compose_command_descriptor(&test_request(), &ctx);
    let hex = blake3::hash(b"command_composer:v1:wfx_t:wlc_t:key1").to_hex().to_string();
    assert_eq!(format!("wcc_{}", &hex[..16]), rec.composer_id.0);
    assert_eq!(blake3::hash(LC_JSON.as_bytes()).to_hex().to_string(), rec.loop_controller_hash);
}

#[test]
fn blocked_summary_lists_failed_predicates_in_lowercase() {
    let mut req = test_request();
    req.expected_loop_controller_hash = String::new();
    let rec = compose_command_descriptor(&req, &empty_ctx());
    match rec.decision {
        WorkflowCommandComposerDecision::Blocked { reason_code, summary } => {
            assert_eq!("predicate_failed", reason_code);
            assert_eq!(
                "loopcontrollerrecordexists, loopcontrollerhashmatchesrequest, looprecommendationexists",
                summary
            );
        }
        _ => panic!("expected a blocked decision"),
    }
    assert!(rec.descriptor.is_none());
    assert_eq!("", rec.loop_controller_hash);
}

#[test]
fn continuation_descriptor_marks_revision_argument_missing_without_revision() {
    let lc = lc_with_op(WorkflowManualOperationKind::CreateContinuationProposal);
    let ctx = ctx_with_lc(&lc);
    let rec = compose_command_descriptor(&test_request(), &ctx);
    let desc = rec.descriptor.unwrap();
    let rev = desc.arguments.iter().find(|a| a.name == "run_revision_id").unwrap();
    assert!(rev.missing);
    assert!(rev.value_preview.is_none());
    assert_eq!(
        "openwand workflow-continuation propose --workflow-execution-id wfx_t",
        desc.display_command
    );
}

#[test]
fn missing_inputs_summary_names_the_inputs() {
    let lc = lc_with_op(WorkflowManualOperationKind::ResolveWorkflowApprovalOutcome);
    let ctx = ctx_with_lc(&lc);
    let rec = compose_command_descriptor(&test_request(), &ctx);
    match rec.decision {
        WorkflowCommandComposerDecision::MissingInputs { summary } => assert_eq!("Missing: approval_resolution", summary),
        _ => panic!("expected missing inputs"),
    }
}
