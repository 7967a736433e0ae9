use workflow::outside::now_utc;
use workflow::plan::TaskPlanId;
use workflow::workflow_action_outcome::{WorkflowActionOutcomeDecision, WorkflowActionOutcomeId, WorkflowActionOutcomeRecord, WorkflowActionOutcomeRequest, WorkflowActionOutcomeStatus, WorkflowApprovalResolution};
use workflow::workflow_action_outcome_gate::{evaluate_action_outcome, WorkflowActionOutcomeContext};
use workflow::workflow_action_outcome_validation::{action_outcome_id_for, validate_resolution_rationale};
use workflow::workflow_action_route::{WorkflowActionRouteDecision, WorkflowActionRouteId, WorkflowActionRoutePrompt, WorkflowActionRouteRecord, WorkflowActionRouteStatus, WorkflowSessionRouteSnapshot};
use workflow::workflow_proposal::WorkflowProposalId;
use workflow::workflow_proposal_review::WorkflowProposalReviewId;
use workflow::workflow_readiness::WorkflowReadinessId;
use workflow::workflow_run::{WorkflowAbortSnapshot, WorkflowExecutionDecision, WorkflowExecutionId, WorkflowRunRecord, WorkflowRunSnapshot, WorkflowRunStatus};

#[test]
fn outcome_id_is_content_addressed() {
    let hash = blake3::hash(b"test-content");
    let id = WorkflowActionOutcomeId(format!("wao_{}", hash.to_hex()));
    assert!(id.0.starts_with("wao_"));
    assert_eq!(id.0.len(), 4 + 64);
}

#[test]
fn approval_resolution_requires_rationale() {
    let approve = WorkflowApprovalResolution::Approve { rationale: "safe to proceed".into() };
    let reject = WorkflowApprovalResolution::Reject { rationale: "too risky".into() };
    match (&approve, &reject) {
        (WorkflowApprovalResolution::Approve { rationale: a }, WorkflowApprovalResolution::Reject { rationale: r }) => {
            assert!(!a.is_empty());
            assert!(!r.is_empty());
        }
        _ => panic!("Unexpected resolution combination"),
    }
    assert!(validate_resolution_rationale(&approve).is_ok());
    assert!(validate_resolution_rationale(&reject).is_ok());
}

#[test]
fn outcome_id_is_deterministic() {
    let id1 = action_outcome_id_for("wfx_1", "war_1", "arid_1", "key");
    let id2 = action_outcome_id_for("wfx_1", "war_1", "arid_1", "key");
    assert_eq!(id1, id2);
    assert_eq!(format!("wao_{}", blake3::hash(b"wfx_1:war_1:arid_1:key").to_hex()), id1.0);
}

#[test]
fn outcome_id_differs_for_different_inputs() {
    let id1 = action_outcome_id_for("wfx_1", "war_1", "arid_1", "key1");
    let id2 = action_outcome_id_for("wfx_1", "war_1", "arid_1", "key2");
    assert_ne!(id1, id2);
}

#[test]
fn validate_approve_rationale_ok() {
    let r = WorkflowApprovalResolution::Approve { rationale: "safe".into() };
    assert!(validate_resolution_rationale(&r).is_ok());
}

#[test]
fn validate_approve_rationale_empty_fails() {
    let r = WorkflowApprovalResolution::Approve { rationale: "  ".into() };
    assert!(validate_resolution_rationale(&r).is_err());
}

#[test]
fn validate_reject_rationale_ok() {
    let r = WorkflowApprovalResolution::Reject { rationale: "too risky".into() };
    assert!(validate_resolution_rationale(&r).is_ok());
}

#[test]
fn validate_reject_rationale_empty_fails() {
    let r = WorkflowApprovalResolution::Reject { rationale: "".into() };
    assert_eq!(
        Err("Approval resolution requires non-empty rationale".to_string()),
        validate_resolution_rationale(&r)
    );
}

fn suspended_route() -> WorkflowActionRouteRecord {
    WorkflowActionRouteRecord {
        route_id: WorkflowActionRouteId("war_test".into()),
        workflow_execution_id: WorkflowExecutionId("wfx_test".into()),
        readiness_id: WorkflowReadinessId("wfrd_t".into()),
        proposal_id: WorkflowProposalId("wfp_t".into()),
        stage_id: "stage_tool".into(),
        action_request_id: "ar_1".into(),
        action_request_hash: "h".into(),
        status: WorkflowActionRouteStatus::SuspendedForApproval,
        decision: WorkflowActionRouteDecision::SuspendedForApproval {
            approval_request_id: "arid_1".into(), summary: "awaiting".into(),
        },
        predicates: vec![],
        session_route: Some(WorkflowSessionRouteSnapshot {
            session_id: "sess_1".into(), session_run_id: Some("run_1".into()),
            trace_ids: vec!["trace_1".into()],
            pending_approval_id: Some("arid_1".into()),
            tool_call_id: Some("tc_1".into()),
            tool_name_observed_from_session: Some("local__file_write".into()),
            session_status: "suspended_for_approval".into(),
        }),
        route_prompt: WorkflowActionRoutePrompt {
            capability_category: "c".into(), purpose: "p".into(),
            expected_input_summary: "i".into(), expected_output_summary: "o".into(),
            safety_constraints: vec![],
        },
        created_at: now_utc(), completed_at: None,
    }
}

fn test_request() -> WorkflowActionOutcomeRequest {
    WorkflowActionOutcomeRequest {
        workflow_execution_id: WorkflowExecutionId("wfx_test".into()),
        route_id: WorkflowActionRouteId("war_test".into()),
        stage_id: "stage_tool".into(),
        action_request_id: "ar_1".into(),
        session_id: "sess_1".into(),
        pending_approval_id: "arid_1".into(),
        tool_call_id: Some("tc_1".into()),
        expected_route_hash: "rh".into(),
        expected_workflow_run_hash: "wrh".into(),
        resolution: WorkflowApprovalResolution::Approve { rationale: "safe".into() },
        requested_by: "test".into(), requested_at: now_utc(), idempotency_key: "key1".into(),
    }
}

fn full_context<'a>(route: &'a WorkflowActionRouteRecord) -> WorkflowActionOutcomeContext<'a> {
    WorkflowActionOutcomeContext {
        workflow_run: None, route_record: Some(route), prior_outcomes: vec![],
        approval_bridge_available: true, workflow_run_hash: "wrh".into(), route_hash: "rh".into(),
    }
}

fn full_context_with_run<'a>(route: &'a WorkflowActionRouteRecord, run: &'a WorkflowRunRecord) -> WorkflowActionOutcomeContext<'a> {
    WorkflowActionOutcomeContext {
        workflow_run: Some(run), route_record: Some(route), prior_outcomes: vec![],
        approval_bridge_available: true, workflow_run_hash: "wrh".into(), route_hash: "rh".into(),
    }
}

fn test_run() -> WorkflowRunRecord {
    WorkflowRunRecord {
        execution_id: WorkflowExecutionId("wfx_test".into()),
        readiness_id: WorkflowReadinessId("wfrd_t".into()),
        proposal_id: WorkflowProposalId("wfp_t".into()),
        proposal_review_id: WorkflowProposalReviewId("wfr_t".into()),
        source_task_plan_id: TaskPlanId("tpl_t".into()),
        status: WorkflowRunStatus::Suspended,
        decision: WorkflowExecutionDecision::RunCreated,
        predicates: vec![], run_snapshot: WorkflowRunSnapshot {
            readiness_id: "r".into(), proposal_id: "p".into(), proposal_hash: "h".into(),
            source_task_plan_hash: "s".into(), readiness_status_at_execution: "ready".into(),
            proposal_review_decision_at_execution: "approved".into(),
        },
        stages: vec![], lifecycle_events: vec![], action_requests: vec![],
        abort_snapshot: WorkflowAbortSnapshot { abort_notes_available: false, rollback_notes_available: false, recovery_notes: vec![] },
        created_at: now_utc(), completed_at: None,
    }
}

#[test] fn workflow_action_outcome_gate_blocks_missing_workflow_run() {
    let route = suspended_route(); let req = test_request();
    let ctx = full_context(&route);
    let rec = evaluate_action_outcome(&req, &ctx);
    assert_eq!(WorkflowActionOutcomeStatus::Blocked, rec.status);
}
#[test] fn workflow_action_outcome_gate_blocks_workflow_run_hash_mismatch() {
    let route = suspended_route(); let mut req = test_request();
    req.expected_workflow_run_hash = String::new();
    let ctx = full_context(&route);
    let rec = evaluate_action_outcome(&req, &ctx);
    assert_eq!(WorkflowActionOutcomeStatus::Blocked, rec.status);
}
#[test] fn blocks_missing_route_record() {
    let route = suspended_route(); let req = test_request();
    let mut ctx = full_context(&route); ctx.route_record = None;
    let rec = evaluate_action_outcome(&req, &ctx);
    assert_eq!(WorkflowActionOutcomeStatus::Blocked, rec.status);
}
#[test] fn blocks_route_hash_mismatch() {
    let route = suspended_route(); let mut req = test_request();
    req.expected_route_hash = String::new();
    let ctx = full_context(&route);
    let rec = evaluate_action_outcome(&req, &ctx);
    assert_eq!(WorkflowActionOutcomeStatus::Blocked, rec.status);
}
#[test] fn blocks_route_not_suspended_for_approval() {
    let mut route = suspended_route();
    route.status = WorkflowActionRouteStatus::Completed;
    let req = test_request(); let ctx = full_context(&route);
    let rec = evaluate_action_outcome(&req, &ctx);
    assert_eq!(WorkflowActionOutcomeStatus::Blocked, rec.status);
}
#[test] fn blocks_route_workflow_run_mismatch() {
    let route = suspended_route(); let mut req = test_request();
    req.workflow_execution_id = WorkflowExecutionId("wfx_other".into());
    let ctx = full_context(&route);
    let rec = evaluate_action_outcome(&req, &ctx);
    assert_eq!(WorkflowActionOutcomeStatus::Blocked, rec.status);
}
#[test] fn blocks_route_stage_mismatch() {
    let route = suspended_route(); let mut req = test_request();
    req.stage_id = "other_stage".into();
    let ctx = full_context(&route);
    let rec = evaluate_action_outcome(&req, &ctx);
    assert_eq!(WorkflowActionOutcomeStatus::Blocked, rec.status);
}
#[test] fn blocks_route_action_request_mismatch() {
    let route = suspended_route(); let mut req = test_request();
    req.action_request_id = "ar_other".into();
    let ctx = full_context(&route);
    let rec = evaluate_action_outcome(&req, &ctx);
    assert_eq!(WorkflowActionOutcomeStatus::Blocked, rec.status);
}
#[test] fn blocks_route_session_mismatch() {
    let route = suspended_route(); let mut req = test_request();
    req.session_id = "sess_other".into();
    let ctx = full_context(&route);
    let rec = evaluate_action_outcome(&req, &ctx);
    assert_eq!(WorkflowActionOutcomeStatus::Blocked, rec.status);
}
#[test] fn blocks_route_without_pending_approval() {
    let mut route = suspended_route();
    route.session_route.as_mut().unwrap().pending_approval_id = None;
    let req = test_request(); let ctx = full_context(&route);
    let rec = evaluate_action_outcome(&req, &ctx);
    assert_eq!(WorkflowActionOutcomeStatus::Blocked, rec.status);
}
#[test] fn blocks_route_with_ambiguous_pending_approval() {
    let mut route = suspended_route();
    route.session_route = None;
    let req = test_request(); let ctx = full_context(&route);
    let rec = evaluate_action_outcome(&req, &ctx);
    assert_eq!(WorkflowActionOutcomeStatus::Blocked, rec.status);
}
#[test] fn blocks_pending_approval_id_mismatch() {
    let route = suspended_route(); let mut req = test_request();
    req.pending_approval_id = "arid_other".into();
    let ctx = full_context(&route);
    let rec = evaluate_action_outcome(&req, &ctx);
    assert_eq!(WorkflowActionOutcomeStatus::Blocked, rec.status);
}
#[test] fn blocks_tool_call_id_mismatch() {
    let route = suspended_route(); let mut req = test_request();
    req.tool_call_id = Some("tc_other".into());
    let ctx = full_context(&route);
    let rec = evaluate_action_outcome(&req, &ctx);
    assert_eq!(WorkflowActionOutcomeStatus::Blocked, rec.status);
}
#[test] fn blocks_missing_rationale() {
    let route = suspended_route(); let mut req = test_request();
    req.resolution = WorkflowApprovalResolution::Approve { rationale: "  ".into() };
    let ctx = full_context(&route);
    let rec = evaluate_action_outcome(&req, &ctx);
    assert_eq!(WorkflowActionOutcomeStatus::Blocked, rec.status);
}
#[test] fn blocks_missing_approval_bridge() {
    let route = suspended_route(); let req = test_request();
    let mut ctx = full_context(&route); ctx.approval_bridge_available = false;
    let rec = evaluate_action_outcome(&req, &ctx);
    assert_eq!(WorkflowActionOutcomeStatus::Blocked, rec.status);
}
#[test] fn blocks_prior_conflicting_outcome() {
    let route = suspended_route(); let req = test_request();
    let t = now_utc();
    let prior = WorkflowActionOutcomeRecord {
        outcome_id: WorkflowActionOutcomeId("wao_prior".into()),
        workflow_execution_id: WorkflowExecutionId("wfx_test".into()),
        route_id: WorkflowActionRouteId("war_test".into()),
        stage_id: "stage_tool".into(), action_request_id: "ar_1".into(),
        session_id: "sess_1".into(), pending_approval_id: "arid_1".into(),
        tool_call_id: Some("tc_1".into()), route_hash: "rh".into(), workflow_run_hash: "wrh".into(),
        status: WorkflowActionOutcomeStatus::ToolCompleted,
        decision: WorkflowActionOutcomeDecision::ToolCompleted { summary: "done".into() },
        predicates: vec![], approval_resolution: WorkflowApprovalResolution::Approve { rationale: "ok".into() },
        session_outcome: None, created_at: t, completed_at: Some(t),
    };
    let mut ctx = full_context(&route); ctx.prior_outcomes = vec![&prior];
    let rec = evaluate_action_outcome(&req, &ctx);
    assert_eq!(WorkflowActionOutcomeStatus::Blocked, rec.status);
}
#[test] fn ready_to_resolve_when_all_predicates_pass() {
    let route = suspended_route(); let req = test_request();
    let run = test_run();
    let ctx = full_context_with_run(&route, &run);
    let rec = evaluate_action_outcome(&req, &ctx);
    assert_eq!(WorkflowActionOutcomeStatus::ApprovalResolved, rec.status);
    assert!(rec.predicates.iter().all(|p| p.passed));
    assert_eq!(16, rec.predicates.len());
    match rec.decision {
        WorkflowActionOutcomeDecision::ApprovalResolved { summary } => assert_eq!("Ready to resolve", summary),
        _ => panic!("expected approval resolved"),
    }
}
#[test] fn missing_run_blocks_with_two_named_failures() {
    let route = suspended_route(); let req = test_request();
    let ctx = full_context(&route);
    let rec = evaluate_action_outcome(&req, &ctx);
    match rec.decision {
        WorkflowActionOutcomeDecision::Blocked { reason_code, summary } => {
            assert_eq!("predicate_failed_2", reason_code);
            assert_eq!("WorkflowRunExists, WorkflowRunHashMatchesRequest", summary);
        }
        _ => panic!("expected blocked"),
    }
    assert_eq!("No workflow run", rec.predicates[0].reason);
}

#[test]
fn outcome_requires_predicates() {
    let record = WorkflowActionOutcomeRecord {
        outcome_id: WorkflowActionOutcomeId("wao_x".into()),
        workflow_execution_id: WorkflowExecutionId("wfx_x".into()),
        route_id: WorkflowActionRouteId("war_x".into()),
        stage_id: "s".into(), action_request_id: "ar".into(),
        session_id: "sess".into(), pending_approval_id: "arid".into(),
        tool_call_id: None, route_hash: "rh".into(), workflow_run_hash: "wrh".into(),
        status: WorkflowActionOutcomeStatus::Blocked,
        decision: WorkflowActionOutcomeDecision::Blocked { reason_code: "test".into(), summary: "test".into() },
        predicates: vec![], approval_resolution: WorkflowApprovalResolution::Approve { rationale: "ok".into() },
        session_outcome: None, created_at: now_utc(), completed_at: None,
    };
    assert!(record.predicates.is_empty());
}
