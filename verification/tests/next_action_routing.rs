use workflow::outside::now_utc;
use workflow::workflow_action_route::WorkflowActionRouteId;
use workflow::workflow_continuation::{
    WorkflowContinuationReadinessId, WorkflowNextActionCandidate, WorkflowNextActionKind, WorkflowNextActionProposal,
    WorkflowNextActionProposalId,
};
use workflow::workflow_next_action_review::{
    WorkflowNextActionFeedback, WorkflowNextActionReview, WorkflowNextActionReviewDecision, WorkflowNextActionReviewId,
};
use workflow::workflow_next_action_routing_gate::{
    evaluate_next_action_routing, WorkflowNextActionRoutingContext, WorkflowNextActionRoutingDecision,
    WorkflowNextActionRoutingId, WorkflowNextActionRoutingPredicate, WorkflowNextActionRoutingRecord,
    WorkflowNextActionRoutingRequest, WorkflowNextActionRoutingStatus,
};
use workflow::workflow_proposal::WorkflowStageKind;
use workflow::workflow_reconciliation::{WorkflowReconciliationId, WorkflowRunRevision, WorkflowRunRevisionId};
use workflow::workflow_routing_readiness::{
    WorkflowRouteRequestPreview, WorkflowRoutingReadinessDecision, WorkflowRoutingReadinessId,
    WorkflowRoutingReadinessRecord, WorkflowRoutingReadinessStatus,
};
use workflow::workflow_run::{
    WorkflowActionRequest, WorkflowActionRoutingStatus, WorkflowExecutionId, WorkflowStageRun, WorkflowStageRunStatus,
};

fn candidate() -> WorkflowNextActionCandidate {
    WorkflowNextActionCandidate {
        stage_id: "s1".into(), action_request_id: Some("ar_1".into()),
        candidate_kind: WorkflowNextActionKind::RoutePreparedAction,
        stage_title: "Stage 1".into(), reason: "deps met".into(), dependency_evidence: vec![],
    }
}

fn review(id: &str) -> WorkflowNextActionReview {
    WorkflowNextActionReview {
        review_id: WorkflowNextActionReviewId(id.into()),
        proposal_id: WorkflowNextActionProposalId("wnap_t".into()),
        proposal_hash: "ph".into(),
        source_run_revision_id: WorkflowRunRevisionId("wrr_t".into()),
        source_run_revision_hash: "h2".into(),
        decision: WorkflowNextActionReviewDecision::Approved,
        reviewer: "alice".into(), rationale: "safe".into(), feedback: None,
        creates_route: false, routes_action_now: false,
        executes_tool_now: false, mutates_workflow_state_now: false,
        reviewed_at: now_utc(),
    }
}

fn stage(id: &str, title: &str, kind: WorkflowStageKind, status: WorkflowStageRunStatus, order: u32, deps: Vec<String>, summary: &str) -> WorkflowStageRun {
    WorkflowStageRun {
        stage_id: id.into(), title: title.into(), kind, status, order,
        depends_on: deps, started_at: None, completed_at: None, summary: summary.into(),
    }
}

fn routing_record(id: &str, status: WorkflowNextActionRoutingStatus, decision: WorkflowNextActionRoutingDecision, created: Option<WorkflowActionRouteId>) -> WorkflowNextActionRoutingRecord {
    WorkflowNextActionRoutingRecord {
        routing_id: WorkflowNextActionRoutingId(id.into()),
        routing_readiness_id: WorkflowRoutingReadinessId("wrrd_t".into()),
        next_action_proposal_id: WorkflowNextActionProposalId("wnap_t".into()),
        next_action_review_id: WorkflowNextActionReviewId("wnar_t".into()),
        workflow_execution_id: WorkflowExecutionId("wfx_t".into()),
        source_run_revision_id: WorkflowRunRevisionId("wrr_t".into()),
        status, decision,
        predicates: vec![], route_request_preview_hash: "ph".into(),
        created_route_id: created, created_at: now_utc(), completed_at: None,
    }
}

struct Fixtures {
    readiness: WorkflowRoutingReadinessRecord,
    proposal: WorkflowNextActionProposal,
    review: WorkflowNextActionReview,
    revision: WorkflowRunRevision,
    action: WorkflowActionRequest,
}

impl Fixtures {
    fn ready() -> Self {
        Self {
            readiness: WorkflowRoutingReadinessRecord {
                readiness_id: WorkflowRoutingReadinessId("wrrd_t".into()),
                proposal_id: WorkflowNextActionProposalId("wnap_t".into()),
                review_id: WorkflowNextActionReviewId("wnar_t".into()),
                workflow_execution_id: WorkflowExecutionId("wfx_t".into()),
                source_run_revision_id: WorkflowRunRevisionId("wrr_t".into()),
                proposal_hash: "ph".into(), run_revision_hash: "h2".into(),
                status: WorkflowRoutingReadinessStatus::Ready,
                decision: WorkflowRoutingReadinessDecision::Ready { summary: "ok".into() },
                predicates: vec![],
                candidate: Some(candidate()),
                route_request_preview: Some(WorkflowRouteRequestPreview {
                    workflow_execution_id: WorkflowExecutionId("wfx_t".into()),
                    stage_id: "s1".into(), action_request_id: "ar_1".into(),
                    source_proposal_id: WorkflowNextActionProposalId("wnap_t".into()),
                    source_review_id: WorkflowNextActionReviewId("wnar_t".into()),
                    descriptive_only: true, creates_route_now: false,
                }),
                created_at: now_utc(),
            },
            proposal: WorkflowNextActionProposal {
                proposal_id: WorkflowNextActionProposalId("wnap_t".into()),
                readiness_id: WorkflowContinuationReadinessId("wcr_t".into()),
                workflow_execution_id: WorkflowExecutionId("wfx_t".into()),
                source_run_revision_id: WorkflowRunRevisionId("wrr_t".into()),
                source_run_revision_hash: "h2".into(),
                candidate: candidate(),
                predicates: vec![], evidence_links: vec![],
                creates_route: false, routes_action_now: false,
                executes_tool_now: false, mutates_workflow_state_now: false,
                proposal_hash: "ph".into(), created_at: now_utc(),
            },
            review: review("wnar_t"),
            action: WorkflowActionRequest {
                action_request_id: "ar_1".into(), stage_id: "s1".into(),
                capability_category: "file-write".into(), purpose: "write".into(),
                expected_input_summary: "path".into(), expected_output_summary: "ok".into(),
                routing_status: WorkflowActionRoutingStatus::PreparedForFutureSessionRouting,
                session_bridge_required: true, policy_gate_required: true,
            },
            revision: WorkflowRunRevision {
                revision_id: WorkflowRunRevisionId("wrr_t".into()),
                workflow_execution_id: WorkflowExecutionId("wfx_t".into()),
                previous_revision_id: None,
                source_reconciliation_id: WorkflowReconciliationId("wrc_t".into()),
                run_hash_before: "h1".into(), run_hash_after: "h2".into(),
                stages: vec![
                    stage("s0", "Done", WorkflowStageKind::Verify, WorkflowStageRunStatus::Completed, 0, vec![], "done"),
                    stage("s1", "Next", WorkflowStageKind::ApplyChange, WorkflowStageRunStatus::Pending, 1, vec!["s0".into()], "next"),
                ],
                lifecycle_events: vec![], aggregate_status: None, created_at: now_utc(),
            },
        }
    }

    fn ctx(&self) -> WorkflowNextActionRoutingContext<'_> {
        WorkflowNextActionRoutingContext {
            routing_readiness: Some(&self.readiness),
            next_action_proposal: Some(&self.proposal),
            next_action_review: Some(&self.review),
            latest_review: Some(&self.review),
            run_revision: Some(&self.revision),
            action_request: Some(&self.action),
            prior_routings: vec![],
        }
    }

    fn request() -> WorkflowNextActionRoutingRequest {
        WorkflowNextActionRoutingRequest {
            routing_readiness_id: WorkflowRoutingReadinessId("wrrd_t".into()),
            next_action_proposal_id: WorkflowNextActionProposalId("wnap_t".into()),
            next_action_review_id: WorkflowNextActionReviewId("wnar_t".into()),
            workflow_execution_id: WorkflowExecutionId("wfx_t".into()),
            source_run_revision_id: WorkflowRunRevisionId("wrr_t".into()),
            expected_routing_readiness_hash: "rrh".into(),
            expected_proposal_hash: "ph".into(),
            expected_review_hash: "rvh".into(),
            expected_run_revision_hash: "h2".into(),
            expected_action_request_hash: "arh".into(),
            requested_by: "test".into(), requested_at: now_utc(),
            idempotency_key: "key1".into(),
        }
    }
}

fn is_blocked(r: &WorkflowNextActionRoutingRecord) -> bool {
    matches!(r.status, WorkflowNextActionRoutingStatus::Blocked)
}

#[test]
fn next_action_routing_requires_predicates() {
    let record = routing_record("wnaroute_x", WorkflowNextActionRoutingStatus::Blocked,
        WorkflowNextActionRoutingDecision::Blocked { reason_code: "test".into(), summary: "test".into() }, None);
    assert!(record.predicates.is_empty());
}

#[test]
fn next_action_routing_routed_links_route_id() {
    let route_id = WorkflowActionRouteId("war_linked".into());
    let record = routing_record("wnaroute_r", WorkflowNextActionRoutingStatus::Routed,
        WorkflowNextActionRoutingDecision::Routed { route_id: route_id.clone(), summary: "routed".into() },
        Some(route_id.clone()));
    assert!(record.created_route_id.is_some());
    if let WorkflowNextActionRoutingDecision::Routed { route_id: rid, .. } = &record.decision {
        assert_eq!(&route_id, rid);
    }
}

#[test] fn blocks_missing_routing_readiness() {
    let f = Fixtures::ready(); let mut ctx = f.ctx(); ctx.routing_readiness = None;
    assert!(is_blocked(&evaluate_next_action_routing(&Fixtures::request(), &ctx)));
}
#[test] fn blocks_non_ready_routing_readiness() {
    let mut f = Fixtures::ready(); f.readiness.status = WorkflowRoutingReadinessStatus::Blocked;
    assert!(is_blocked(&evaluate_next_action_routing(&Fixtures::request(), &f.ctx())));
}
#[test] fn blocks_routing_readiness_hash_mismatch() {
    let f = Fixtures::ready();
    let mut req = Fixtures::request(); req.expected_routing_readiness_hash = String::new();
    assert!(is_blocked(&evaluate_next_action_routing(&req, &f.ctx())));
}
#[test] fn blocks_missing_next_action_proposal() {
    let f = Fixtures::ready(); let mut ctx = f.ctx(); ctx.next_action_proposal = None;
    assert!(is_blocked(&evaluate_next_action_routing(&Fixtures::request(), &ctx)));
}
#[test] fn blocks_missing_next_action_review() {
    let f = Fixtures::ready(); let mut ctx = f.ctx(); ctx.next_action_review = None;
    assert!(is_blocked(&evaluate_next_action_routing(&Fixtures::request(), &ctx)));
}
#[test] fn blocks_non_latest_next_action_review() {
    let f = Fixtures::ready(); let mut ctx = f.ctx();
    let later = review("wnar_later");
    ctx.latest_review = Some(&later);
    assert!(is_blocked(&evaluate_next_action_routing(&Fixtures::request(), &ctx)));
}
#[test] fn blocks_unapproved_next_action_review() {
    let mut f = Fixtures::ready();
    f.review.decision = WorkflowNextActionReviewDecision::Rejected;
    f.review.feedback = Some(WorkflowNextActionFeedback {
        summary: "unsafe".into(), blocking_reasons: vec!["risk".into()],
        requested_changes: vec![], evidence_gaps: vec![],
    });
    assert!(is_blocked(&evaluate_next_action_routing(&Fixtures::request(), &f.ctx())));
}
#[test] fn workflow_next_action_routing_gate_blocks_proposal_hash_mismatch() {
    let f = Fixtures::ready();
    let mut req = Fixtures::request(); req.expected_proposal_hash = "wrong".into();
    assert!(is_blocked(&evaluate_next_action_routing(&req, &f.ctx())));
}
#[test] fn blocks_review_hash_mismatch() {
    let f = Fixtures::ready();
    let mut req = Fixtures::request(); req.expected_review_hash = String::new();
    assert!(is_blocked(&evaluate_next_action_routing(&req, &f.ctx())));
}
#[test] fn workflow_next_action_routing_gate_blocks_run_revision_hash_mismatch() {
    let f = Fixtures::ready();
    let mut req = Fixtures::request(); req.expected_run_revision_hash = "wrong".into();
    assert!(is_blocked(&evaluate_next_action_routing(&req, &f.ctx())));
}
#[test] fn blocks_candidate_stage_missing() {
    let mut f = Fixtures::ready();
    f.revision.stages.retain(|s| s.stage_id != "s1");
    assert!(is_blocked(&evaluate_next_action_routing(&Fixtures::request(), &f.ctx())));
}
#[test] fn blocks_candidate_stage_no_longer_pending() {
    let mut f = Fixtures::ready();
    f.revision.stages[1].status = WorkflowStageRunStatus::Running;
    assert!(is_blocked(&evaluate_next_action_routing(&Fixtures::request(), &f.ctx())));
}
#[test] fn blocks_candidate_dependencies_no_longer_terminal() {
    let mut f = Fixtures::ready();
    f.revision.stages[0].status = WorkflowStageRunStatus::Pending;
    assert!(is_blocked(&evaluate_next_action_routing(&Fixtures::request(), &f.ctx())));
}
#[test] fn blocks_selector_no_skip_violation() {
    let mut f = Fixtures::ready();
    f.revision.stages.insert(1, stage("s0b", "Running", WorkflowStageKind::Analyze, WorkflowStageRunStatus::Running, 0, vec![], "running"));
    assert!(is_blocked(&evaluate_next_action_routing(&Fixtures::request(), &f.ctx())));
}
#[test] fn workflow_next_action_routing_gate_blocks_missing_action_request() {
    let f = Fixtures::ready(); let mut ctx = f.ctx(); ctx.action_request = None;
    assert!(is_blocked(&evaluate_next_action_routing(&Fixtures::request(), &ctx)));
}
#[test] fn blocks_action_request_not_prepared_for_routing() {
    let mut f = Fixtures::ready();
    f.action.routing_status = WorkflowActionRoutingStatus::Blocked;
    assert!(is_blocked(&evaluate_next_action_routing(&Fixtures::request(), &f.ctx())));
}
#[test] fn workflow_next_action_routing_gate_blocks_executable_action_request() {
    let f = Fixtures::ready();
    let r = evaluate_next_action_routing(&Fixtures::request(), &f.ctx());
    let p = r.predicates.iter().find(|p| matches!(p.predicate, WorkflowNextActionRoutingPredicate::ActionRequestRemainsNonExecutable)).unwrap();
    assert!(p.passed);
}
#[test] fn blocks_missing_route_preview() {
    let mut f = Fixtures::ready(); f.readiness.route_request_preview = None;
    assert!(is_blocked(&evaluate_next_action_routing(&Fixtures::request(), &f.ctx())));
}
#[test] fn blocks_route_preview_that_claims_route_creation() {
    let mut f = Fixtures::ready();
    f.readiness.route_request_preview.as_mut().unwrap().creates_route_now = true;
    assert!(is_blocked(&evaluate_next_action_routing(&Fixtures::request(), &f.ctx())));
}
#[test] fn workflow_next_action_routing_gate_blocks_prior_conflicting_route() {
    let f = Fixtures::ready();
    let prior = routing_record("wnaroute_prior", WorkflowNextActionRoutingStatus::Routed,
        WorkflowNextActionRoutingDecision::Routed { route_id: WorkflowActionRouteId("war_prior".into()), summary: "done".into() },
        Some(WorkflowActionRouteId("war_prior".into())));
    let mut ctx = f.ctx(); ctx.prior_routings = vec![&prior];
    assert!(is_blocked(&evaluate_next_action_routing(&Fixtures::request(), &ctx)));
}
#[test] fn workflow_next_action_routing_gate_ready_to_route_when_all_predicates_pass() {
    let f = Fixtures::ready();
    let r = evaluate_next_action_routing(&Fixtures::request(), &f.ctx());
    assert!(matches!(r.status, WorkflowNextActionRoutingStatus::Routed));
    assert!(r.predicates.iter().all(|p| p.passed));
    assert!(r.created_route_id.is_some());
}
#[test] fn blocks_proposal_review_readiness_cross_reference_mismatch() {
    let mut f = Fixtures::ready();
    f.readiness.proposal_id = WorkflowNextActionProposalId("wnap_other".into());
    assert!(is_blocked(&evaluate_next_action_routing(&Fixtures::request(), &f.ctx())));
}
#[test] fn workflow_next_action_routing_gate_blocks_action_request_hash_mismatch() {
    let f = Fixtures::ready();
    let mut req = Fixtures::request(); req.expected_action_request_hash = String::new();
    assert!(is_blocked(&evaluate_next_action_routing(&req, &f.ctx())));
}

#[test]
fn routing_record_exact_values() {
    let f = Fixtures::ready();
    let r = evaluate_next_action_routing(&Fixtures::request(), &f.ctx());
    assert_eq!(r.predicates.len(), 31);
    let hex = blake3::hash(b"next_action_routing:v1:wrrd_t:wnap_t:wnar_t:key1").to_hex().to_string();
    assert_eq!(r.routing_id.0, format!("wnaroute_{}", &hex[..16]));
    assert_eq!(r.route_request_preview_hash, blake3::hash(b"wfx_t:s1:ar_1:true").to_hex().to_string());
    assert_eq!(r.completed_at, Some(r.created_at));
    let mut req = Fixtures::request(); req.expected_review_hash = String::new();
    let b = evaluate_next_action_routing(&req, &f.ctx());
    match &b.decision {
        WorkflowNextActionRoutingDecision::Blocked { reason_code, summary } => {
            assert_eq!(reason_code, "predicate_failed");
            assert_eq!(summary, "Blocked: reviewhashmatchesreadiness, reviewhashmatchesrequest");
        }
        other => panic!("unexpected {:?}", other),
    }
    assert!(b.completed_at.is_none());
    let mut f2 = Fixtures::ready(); f2.readiness.route_request_preview = None;
    assert_eq!(evaluate_next_action_routing(&Fixtures::request(), &f2.ctx()).route_request_preview_hash, "");
}

#[test]
fn next_action_routing_id_is_content_addressed() {
    let hash = blake3::hash(b"test-content");
    let id = WorkflowNextActionRoutingId(format!("wnaroute_{}", hash.to_hex()));
    assert!(id.0.starts_with("wnaroute_"));
    assert_eq!(id.0.len(), 9 + 64);
}

#[test]
fn routing_id_has_prefix_and_sixteen_hex_digits() {
    let f = Fixtures::ready();
    let r = evaluate_next_action_routing(&Fixtures::request(), &f.ctx());
    assert_eq!(25, r.routing_id.0.len());
    assert!(r.routing_id.0["wnaroute_".len()..].chars().all(|c| c.is_ascii_hexdigit()));
}
