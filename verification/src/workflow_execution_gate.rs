//! Workflow execution gate: revalidates readiness, proposal, review, source plan,
//! tool intents and policy at execution time, and creates a suspended run.
//!
//! No tool is called, no provider is invoked, no shell or git is run.
use vstd::prelude::*;
use crate::gate::{
    all_checks_pass, all_pass, build_checks, check_views, checks_from, failed_check_name_reasons, failed_name_reasons,
    table_view, CheckResult,
};
use crate::outside::now_utc;
use crate::plan::{TaskPlan, TaskPlanId};
use crate::plan_review::TaskPlanReview;
use crate::text::{join, join_strings, lowercase_of, to_lowercase, views};
use crate::tool_intent_resolution::{resolution_of, resolve_tool_intent};
use crate::workflow_proposal::{WorkflowProposal, WorkflowProposalId, WorkflowStageProposal};
use crate::workflow_proposal_review::{WorkflowProposalReview, WorkflowProposalReviewDecision, WorkflowProposalReviewId};
use crate::workflow_readiness::{ToolIntentResolutionStatus, WorkflowReadinessId, WorkflowReadinessRecord, WorkflowReadinessStatus};
use crate::workflow_run::{
    stage_view, WorkflowAbortSnapshot, WorkflowExecutionDecision, WorkflowExecutionPredicate,
    WorkflowExecutionPredicateResult, WorkflowExecutionRequest, WorkflowRunRecord, WorkflowRunSnapshot,
    WorkflowRunStatus, WorkflowStageRun, WorkflowStageRunStatus,
};
use crate::workflow_run_validation::{execution_preimage, workflow_execution_id_for};

verus! {

/// Evidence for an execution gate evaluation.
#[derive(Debug, Clone)]
pub struct WorkflowExecutionContext {
    pub readiness: Option<WorkflowReadinessRecord>,
    pub proposal: Option<WorkflowProposal>,
    pub proposal_review: Option<WorkflowProposalReview>,
    pub latest_proposal_review: Option<WorkflowProposalReview>,
    pub source_task_plan: Option<TaskPlan>,
    pub source_task_plan_review: Option<TaskPlanReview>,
    pub latest_source_task_plan_review: Option<TaskPlanReview>,
    pub provider_config_available: bool,
    pub session_runtime_available: bool,
    pub existing_runs: Vec<WorkflowRunRecord>,
}

/// Every tool intent of the proposal resolves acceptably (trivially without a proposal).
pub open spec fn proposal_intents_ok(context: WorkflowExecutionContext, resolved: bool) -> bool {
    match context.proposal {
        Some(p) => stages_intents_ok(p.stages@, resolved),
        None => true,
    }
}

/// No proposed stage requires approval before execution.
pub open spec fn no_approval_stage(stages: Seq<WorkflowStageProposal>) -> bool {
    forall|i: int| 0 <= i < stages.len() ==> !(#[trigger] stages[i]).requires_approval_before_execution
}

/// A completed run of the same proposal and review exists.
pub open spec fn completed_run_exists(runs: Seq<WorkflowRunRecord>, request: WorkflowExecutionRequest) -> bool {
    exists|i: int|
        0 <= i < runs.len() && (#[trigger] runs[i]).status == WorkflowRunStatus::Completed && runs[i].proposal_id.0@
            == request.proposal_id.0@ && runs[i].proposal_review_id.0@ == request.proposal_review_id.0@
}

/// The execution predicates in order, each with its reason when passing and when failing.
pub open spec fn execution_table() -> Seq<(WorkflowExecutionPredicate, Seq<char>, Seq<char>)> {
    seq![
        (WorkflowExecutionPredicate::ReadinessRecordExists, "Readiness loaded"@, "Readiness not found"@),
        (WorkflowExecutionPredicate::ReadinessIsReady, "Readiness is Ready"@, "Readiness is not Ready"@),
        (WorkflowExecutionPredicate::ReadinessHashMatchesRequest, "Readiness matches request"@, "Readiness does not match request"@),
        (WorkflowExecutionPredicate::ProposalExists, "Proposal loaded"@, "Proposal not found"@),
        (WorkflowExecutionPredicate::ProposalHashMatchesReadiness, "Proposal hash matches readiness"@, "Proposal hash mismatch"@),
        (WorkflowExecutionPredicate::ProposalHashMatchesRequest, "Proposal hash matches request"@, "Proposal hash does not match request"@),
        (WorkflowExecutionPredicate::ProposalReviewExists, "Review loaded"@, "Review not found"@),
        (WorkflowExecutionPredicate::ProposalReviewIsLatest, "Review is latest"@, "Review is not latest"@),
        (WorkflowExecutionPredicate::ProposalReviewApproved, "Review is Approved"@, "Review is not Approved"@),
        (WorkflowExecutionPredicate::SourceTaskPlanExists, "Source plan loaded"@, "Source plan not found"@),
        (WorkflowExecutionPredicate::SourceTaskPlanHashMatchesProposal, "Source plan hash matches"@, "Source plan hash mismatch"@),
        (WorkflowExecutionPredicate::ToolIntentResolutionStillValid, "All tool intents resolved"@, "Some tool intents unresolved"@),
        (WorkflowExecutionPredicate::ToolIntentsRemainNonExecutable, "No executable tool intents"@, "Executable tool intents detected"@),
        (WorkflowExecutionPredicate::ApprovalRequirementsRepresented, "Approval requirements represented"@, "Missing approval requirements"@),
        (WorkflowExecutionPredicate::PolicyConstraintsRepresented, "Policy constraints represented"@, "No policy constraints"@),
        (WorkflowExecutionPredicate::PolicyAllowsWorkflowRunCreation, "Policy allows run creation (Wave 26 observation-only)"@, "Policy allows run creation (Wave 26 observation-only)"@),
        (WorkflowExecutionPredicate::ProviderConfigurationAvailable, "Provider available"@, "Provider not available"@),
        (WorkflowExecutionPredicate::SessionRuntimeAvailable, "Session available"@, "Session not available"@),
        (WorkflowExecutionPredicate::RollbackAbortEvidencePresent, "Rollback evidence present"@, "No rollback evidence"@),
        (WorkflowExecutionPredicate::NoPriorConflictingWorkflowRun, "No conflicting prior run"@, "Prior completed run exists"@),
        (WorkflowExecutionPredicate::IdempotencyKeyUnusedOrMatchesExisting, "Idempotency check passed"@, "Idempotency check passed"@),
    ]
}

fn execution_table_exec() -> (v: Vec<(WorkflowExecutionPredicate, &'static str, &'static str)>)
    ensures
        table_view(v@) == execution_table(),
{
    let v = vec![
        (WorkflowExecutionPredicate::ReadinessRecordExists, "Readiness loaded", "Readiness not found"),
        (WorkflowExecutionPredicate::ReadinessIsReady, "Readiness is Ready", "Readiness is not Ready"),
        (WorkflowExecutionPredicate::ReadinessHashMatchesRequest, "Readiness matches request", "Readiness does not match request"),
        (WorkflowExecutionPredicate::ProposalExists, "Proposal loaded", "Proposal not found"),
        (WorkflowExecutionPredicate::ProposalHashMatchesReadiness, "Proposal hash matches readiness", "Proposal hash mismatch"),
        (WorkflowExecutionPredicate::ProposalHashMatchesRequest, "Proposal hash matches request", "Proposal hash does not match request"),
        (WorkflowExecutionPredicate::ProposalReviewExists, "Review loaded", "Review not found"),
        (WorkflowExecutionPredicate::ProposalReviewIsLatest, "Review is latest", "Review is not latest"),
        (WorkflowExecutionPredicate::ProposalReviewApproved, "Review is Approved", "Review is not Approved"),
        (WorkflowExecutionPredicate::SourceTaskPlanExists, "Source plan loaded", "Source plan not found"),
        (WorkflowExecutionPredicate::SourceTaskPlanHashMatchesProposal, "Source plan hash matches", "Source plan hash mismatch"),
        (WorkflowExecutionPredicate::ToolIntentResolutionStillValid, "All tool intents resolved", "Some tool intents unresolved"),
        (WorkflowExecutionPredicate::ToolIntentsRemainNonExecutable, "No executable tool intents", "Executable tool intents detected"),
        (WorkflowExecutionPredicate::ApprovalRequirementsRepresented, "Approval requirements represented", "Missing approval requirements"),
        (WorkflowExecutionPredicate::PolicyConstraintsRepresented, "Policy constraints represented", "No policy constraints"),
        (WorkflowExecutionPredicate::PolicyAllowsWorkflowRunCreation, "Policy allows run creation (Wave 26 observation-only)", "Policy allows run creation (Wave 26 observation-only)"),
        (WorkflowExecutionPredicate::ProviderConfigurationAvailable, "Provider available", "Provider not available"),
        (WorkflowExecutionPredicate::SessionRuntimeAvailable, "Session available", "Session not available"),
        (WorkflowExecutionPredicate::RollbackAbortEvidencePresent, "Rollback evidence present", "No rollback evidence"),
        (WorkflowExecutionPredicate::NoPriorConflictingWorkflowRun, "No conflicting prior run", "Prior completed run exists"),
        (WorkflowExecutionPredicate::IdempotencyKeyUnusedOrMatchesExisting, "Idempotency check passed", "Idempotency check passed"),
    ];
    assert(table_view(v@) =~= execution_table());
    v
}

/// The outcome of each execution predicate, in table order.
pub open spec fn execution_flags(request: WorkflowExecutionRequest, context: WorkflowExecutionContext) -> Seq<bool> {
    execution_chain_flags(request, context) + execution_policy_flags(request, context)
}

/// Outcomes of the readiness, proposal, review and source plan predicates.
pub open spec fn execution_chain_flags(request: WorkflowExecutionRequest, context: WorkflowExecutionContext) -> Seq<bool> {
    let readiness = context.readiness;
    let proposal = context.proposal;
    let review = context.proposal_review;
    let plan = context.source_task_plan;
    let prop_rd = match (proposal, readiness) { (Some(p), Some(r)) => p.proposal_hash@ == r.proposal_hash@, _ => false };
    let review_latest = match (review, context.latest_proposal_review) { (Some(r), Some(l)) => l.review_id.0@ == r.review_id.0@, _ => false };
    let source_ok = match (plan, proposal) { (Some(sp), Some(p)) => sp.plan_hash@ == p.source_task_plan_hash@, _ => false };
    seq![
        readiness is Some,
        readiness matches Some(r) && r.status == WorkflowReadinessStatus::Ready,
        readiness matches Some(r) && r.proposal_id.0@ == request.proposal_id.0@,
        proposal is Some,
        prop_rd,
        proposal matches Some(p) && p.proposal_hash@ == request.expected_proposal_hash@,
        review is Some,
        review_latest,
        review matches Some(r) && r.decision == WorkflowProposalReviewDecision::Approved,
        plan is Some,
        source_ok,
    ]
}

/// Outcomes of the tool intent, approval, policy, environment and conflict predicates.
pub open spec fn execution_policy_flags(request: WorkflowExecutionRequest, context: WorkflowExecutionContext) -> Seq<bool> {
    let proposal = context.proposal;
    let approvals_ok = match proposal { Some(p) => no_approval_stage(p.stages@) || p.required_approvals@.len() > 0, None => false };
    seq![
        proposal_intents_ok(context, true),
        proposal_intents_ok(context, false),
        approvals_ok,
        proposal matches Some(p) && (p.risks@.len() > 0 || p.required_approvals@.len() > 0),
        true,
        context.provider_config_available,
        context.session_runtime_available,
        proposal matches Some(p) && p.abort_rollback_notes@.len() > 0,
        !completed_run_exists(context.existing_runs@, request),
        true,
    ]
}


/// The twenty-one execution predicates, in order, with their outcomes and reasons.
pub open spec fn execution_checks(request: WorkflowExecutionRequest, context: WorkflowExecutionContext) -> Seq<
    (WorkflowExecutionPredicate, bool, Seq<char>),
> {
    checks_from(execution_table(), execution_flags(request, context))
}

/// A stage run initialised from a proposed stage: pending, not started.
pub open spec fn initial_stage(r: WorkflowStageRun, s: WorkflowStageProposal) -> bool {
    &&& r.stage_id@ == s.stage_id@
    &&& r.title@ == s.title@
    &&& r.kind == s.kind
    &&& r.status == WorkflowStageRunStatus::Pending
    &&& r.order == s.order
    &&& views(r.depends_on@) == views(s.depends_on@)
    &&& r.started_at is None
    &&& r.completed_at is None
    &&& r.summary@ == "Initialized from proposal stage"@
}

/// The run record an execution request and its evidence give.
pub open spec fn execution_record_ok(rec: WorkflowRunRecord, request: WorkflowExecutionRequest, context: WorkflowExecutionContext) -> bool {
    let checks = execution_checks(request, context);
    let proposal = context.proposal;
    &&& rec.execution_id.0@ == text_id16_of_execution(request)
    &&& rec.readiness_id.0@ == request.readiness_id.0@
    &&& rec.proposal_id.0@ == request.proposal_id.0@
    &&& rec.proposal_review_id.0@ == request.proposal_review_id.0@
    &&& rec.source_task_plan_id.0@ == match proposal { Some(p) => p.source_task_plan_id.0@, None => "unknown"@ }
    &&& check_views(rec.predicates@) == checks
    &&& if all_pass(checks) {
        rec.status == WorkflowRunStatus::Suspended && rec.decision is RunCreated
    } else {
        &&& rec.status == WorkflowRunStatus::Blocked
        &&& rec.decision matches WorkflowExecutionDecision::Blocked { reason_code, summary }
        &&& reason_code@ == "predicate_failed"@
        &&& summary@ == join(failed_name_reasons(checks), "; "@)
    }
    &&& rec.run_snapshot.readiness_id@ == request.readiness_id.0@
    &&& rec.run_snapshot.proposal_id@ == request.proposal_id.0@
    &&& rec.run_snapshot.proposal_hash@ == match proposal { Some(p) => p.proposal_hash@, None => Seq::empty() }
    &&& rec.run_snapshot.source_task_plan_hash@ == match proposal { Some(p) => p.source_task_plan_hash@, None => Seq::empty() }
    &&& rec.run_snapshot.readiness_status_at_execution@ == match context.readiness {
        Some(r) => lowercase_of(r.status.debug_view()),
        None => Seq::empty(),
    }
    &&& rec.run_snapshot.proposal_review_decision_at_execution@ == match context.proposal_review {
        Some(r) => lowercase_of(r.decision.debug_view()),
        None => Seq::empty(),
    }
    &&& rec.abort_snapshot.abort_notes_available == (proposal matches Some(p) && p.abort_rollback_notes@.len() > 0)
    &&& rec.abort_snapshot.rollback_notes_available == (proposal matches Some(p) && p.abort_rollback_notes@.len() > 0)
    &&& views(rec.abort_snapshot.recovery_notes@) == match proposal {
        Some(p) => p.abort_rollback_notes@.map_values(|n: crate::workflow_proposal::WorkflowAbortRollbackNote| n.summary@),
        None => Seq::empty(),
    }
    &&& match proposal {
        Some(p) => rec.stages@.len() == p.stages@.len() && forall|i: int|
            0 <= i < p.stages@.len() ==> initial_stage(#[trigger] rec.stages@[i], p.stages@[i]),
        None => rec.stages@.len() == 0,
    }
    &&& rec.lifecycle_events@.len() == 0
    &&& rec.action_requests@.len() == 0
    &&& rec.completed_at is None
}

/// A run is created only on evidence that lines up. The review-is-latest predicate
/// passes exactly when the review used has the id of the latest review, so a run
/// never rests on a superseded review. A created run also needs a ready readiness
/// record for the requested proposal, a proposal whose hash matches both the
/// readiness record and the request, an approved review, a source plan whose hash
/// the proposal names, an available provider and session, rollback notes, and no
/// completed run for the same proposal and review.
pub proof fn lemma_run_created_only_on_consistent_evidence(
    rec: WorkflowRunRecord,
    request: WorkflowExecutionRequest,
    context: WorkflowExecutionContext,
)
    requires
        execution_record_ok(rec, request, context),
    ensures
        rec.predicates@.len() == 21,
        rec.predicates@[7].predicate == WorkflowExecutionPredicate::ProposalReviewIsLatest,
        rec.predicates@[7].passed == (match (context.proposal_review, context.latest_proposal_review) {
            (Some(r), Some(l)) => l.review_id.0@ == r.review_id.0@,
            _ => false,
        }),
        (rec.status == WorkflowRunStatus::Suspended) == (rec.decision is RunCreated),
        rec.decision is RunCreated ==> {
            &&& (match (context.proposal_review, context.latest_proposal_review) {
                (Some(r), Some(l)) => l.review_id.0@ == r.review_id.0@,
                _ => false,
            })
            &&& (match context.proposal_review {
                Some(r) => r.decision == WorkflowProposalReviewDecision::Approved,
                None => false,
            })
            &&& (match context.readiness {
                Some(r) => r.status == WorkflowReadinessStatus::Ready && r.proposal_id.0@ == request.proposal_id.0@,
                None => false,
            })
            &&& (match (context.proposal, context.readiness) {
                (Some(p), Some(r)) => p.proposal_hash@ == r.proposal_hash@ && p.proposal_hash@
                    == request.expected_proposal_hash@ && p.abort_rollback_notes@.len() > 0,
                _ => false,
            })
            &&& (match (context.source_task_plan, context.proposal) {
                (Some(sp), Some(p)) => sp.plan_hash@ == p.source_task_plan_hash@,
                _ => false,
            })
            &&& context.provider_config_available
            &&& context.session_runtime_available
            &&& forall|i: int|
                0 <= i < context.existing_runs@.len() ==> !((#[trigger] context.existing_runs@[i]).status
                    == WorkflowRunStatus::Completed && context.existing_runs@[i].proposal_id.0@
                    == request.proposal_id.0@ && context.existing_runs@[i].proposal_review_id.0@
                    == request.proposal_review_id.0@)
        },
{
    let checks = execution_checks(request, context);
    let flags = execution_flags(request, context);
    assert(check_views(rec.predicates@)[7] == rec.predicates@[7].check_view());
    assert(checks[7] == (execution_table()[7].0, flags[7], if flags[7] { execution_table()[7].1 } else { execution_table()[7].2 }));
    if rec.decision is RunCreated {
        assert(all_pass(checks));
        assert(checks[0].1 && checks[1].1 && checks[2].1 && checks[3].1 && checks[4].1 && checks[5].1);
        assert(checks[6].1 && checks[7].1 && checks[8].1 && checks[9].1 && checks[10].1);
        assert(checks[16].1 && checks[17].1 && checks[18].1 && checks[19].1);
        assert forall|i: int|
            0 <= i < context.existing_runs@.len() implies !((#[trigger] context.existing_runs@[i]).status
                == WorkflowRunStatus::Completed && context.existing_runs@[i].proposal_id.0@
                == request.proposal_id.0@ && context.existing_runs@[i].proposal_review_id.0@
                == request.proposal_review_id.0@) by {
            if context.existing_runs@[i].status == WorkflowRunStatus::Completed && context.existing_runs@[i].proposal_id.0@
                == request.proposal_id.0@ && context.existing_runs@[i].proposal_review_id.0@
                == request.proposal_review_id.0@ {
                assert(completed_run_exists(context.existing_runs@, request));
            }
        }
    }
}

/// When every piece of evidence lines up, the run is created: a ready readiness
/// record for the requested proposal, a proposal whose hash matches both the
/// readiness record and the request, the latest review and an approving one, a
/// source plan whose hash the proposal names, tool intents that resolve and stay
/// non-executable, approval requirements and policy constraints represented, an
/// available provider and session, rollback notes, and no completed run for the
/// same proposal and review.
pub proof fn lemma_consistent_evidence_creates_run(
    rec: WorkflowRunRecord,
    request: WorkflowExecutionRequest,
    context: WorkflowExecutionContext,
)
    requires
        execution_record_ok(rec, request, context),
        context.readiness matches Some(r) && r.status == WorkflowReadinessStatus::Ready && r.proposal_id.0@
            == request.proposal_id.0@,
        context.proposal matches Some(p) && context.readiness matches Some(r) && p.proposal_hash@ == r.proposal_hash@
            && p.proposal_hash@ == request.expected_proposal_hash@ && p.abort_rollback_notes@.len() > 0 && (
        p.risks@.len() > 0 || p.required_approvals@.len() > 0) && (no_approval_stage(p.stages@)
            || p.required_approvals@.len() > 0),
        context.proposal_review matches Some(r) && context.latest_proposal_review matches Some(l)
            && l.review_id.0@ == r.review_id.0@ && r.decision == WorkflowProposalReviewDecision::Approved,
        context.source_task_plan matches Some(sp) && context.proposal matches Some(p) && sp.plan_hash@
            == p.source_task_plan_hash@,
        proposal_intents_ok(context, true),
        proposal_intents_ok(context, false),
        context.provider_config_available,
        context.session_runtime_available,
        forall|i: int|
            0 <= i < context.existing_runs@.len() ==> !((#[trigger] context.existing_runs@[i]).status
                == WorkflowRunStatus::Completed && context.existing_runs@[i].proposal_id.0@
                == request.proposal_id.0@ && context.existing_runs@[i].proposal_review_id.0@
                == request.proposal_review_id.0@),
    ensures
        rec.status == WorkflowRunStatus::Suspended,
        rec.decision is RunCreated,
{
    let checks = execution_checks(request, context);
    assert(!completed_run_exists(context.existing_runs@, request));
    assert forall|i: int| 0 <= i < checks.len() implies (#[trigger] checks[i]).1 by {
        assert(checks[i].1 == execution_flags(request, context)[i]);
    }
    assert(all_pass(checks));
}

/// The execution id a request names, over the size of the execution predicate table.
pub open spec fn text_id16_of_execution(request: WorkflowExecutionRequest) -> Seq<char> {
    crate::ids::text_id16(
        "wfx_"@,
        execution_preimage(request.readiness_id.0@, request.proposal_id.0@, request.idempotency_key@, 21),
    )
}

/// One tool intent's capability resolves acceptably: to a category (`resolved`),
/// or at least not to an executable tool.
pub open spec fn intent_ok(capability: Seq<char>, resolved: bool) -> bool {
    if resolved {
        resolution_of(capability).0 == ToolIntentResolutionStatus::ResolvedCategory
    } else {
        resolution_of(capability).0 != ToolIntentResolutionStatus::RejectedExecutable
    }
}

/// Every tool intent of every stage resolves acceptably.
pub open spec fn stages_intents_ok(stages: Seq<WorkflowStageProposal>, resolved: bool) -> bool {
    forall|i: int, j: int|
        0 <= i < stages.len() && 0 <= j < stages[i].tool_intents@.len() ==> intent_ok(
            #[trigger] stages[i].tool_intents@[j].capability@,
            resolved,
        )
}

fn intents_all_exec(stages: &Vec<WorkflowStageProposal>, resolved: bool) -> (b: bool)
    ensures
        b == stages_intents_ok(stages@, resolved),
{
    let mut i: usize = 0;
    while i < stages.len()
        invariant
            i <= stages.len(),
            forall|a: int, b: int|
                0 <= a < i && 0 <= b < stages@[a].tool_intents@.len() ==> intent_ok(
                    #[trigger] stages@[a].tool_intents@[b].capability@,
                    resolved,
                ),
        decreases stages.len() - i,
    {
        let s = &stages[i];
        let mut j: usize = 0;
        while j < s.tool_intents.len()
            invariant
                i < stages.len(),
                *s == stages@[i as int],
                j <= s.tool_intents.len(),
                forall|a: int, b: int|
                    0 <= a < i && 0 <= b < stages@[a].tool_intents@.len() ==> intent_ok(
                        #[trigger] stages@[a].tool_intents@[b].capability@,
                        resolved,
                    ),
                forall|b: int| 0 <= b < j ==> intent_ok(#[trigger] s.tool_intents@[b].capability@, resolved),
            decreases s.tool_intents.len() - j,
        {
            let ti = &s.tool_intents[j];
            let snap = resolve_tool_intent(ti.intent_id.as_str(), ti.capability.as_str());
            let ok = if resolved {
                snap.resolution_status == ToolIntentResolutionStatus::ResolvedCategory
            } else {
                snap.resolution_status != ToolIntentResolutionStatus::RejectedExecutable
            };
            if !ok {
                assert(!intent_ok(stages@[i as int].tool_intents@[j as int].capability@, resolved));
                return false;
            }
            j += 1;
        }
        i += 1;
    }
    true
}

fn no_approval_stage_exec(stages: &Vec<WorkflowStageProposal>) -> (b: bool)
    ensures
        b == no_approval_stage(stages@),
{
    let mut i: usize = 0;
    while i < stages.len()
        invariant
            i <= stages.len(),
            forall|k: int| 0 <= k < i ==> !(#[trigger] stages@[k]).requires_approval_before_execution,
        decreases stages.len() - i,
    {
        if stages[i].requires_approval_before_execution {
            return false;
        }
        i += 1;
    }
    true
}

fn completed_run_exec(runs: &Vec<WorkflowRunRecord>, request: &WorkflowExecutionRequest) -> (b: bool)
    ensures
        b == completed_run_exists(runs@, *request),
{
    let mut i: usize = 0;
    while i < runs.len()
        invariant
            i <= runs.len(),
            forall|k: int|
                0 <= k < i ==> !((#[trigger] runs@[k]).status == WorkflowRunStatus::Completed && runs@[k].proposal_id.0@
                    == request.proposal_id.0@ && runs@[k].proposal_review_id.0@ == request.proposal_review_id.0@),
        decreases runs.len() - i,
    {
        let r = &runs[i];
        if r.status == WorkflowRunStatus::Completed && r.proposal_id.0 == request.proposal_id.0
            && r.proposal_review_id.0 == request.proposal_review_id.0 {
            return true;
        }
        i += 1;
    }
    false
}

fn execution_chain_flags_exec(request: &WorkflowExecutionRequest, context: &WorkflowExecutionContext) -> (f: Vec<bool>)
    ensures
        f@ == execution_chain_flags(*request, *context),
{
    let readiness = &context.readiness;
    let proposal: Option<&WorkflowProposal> = match &context.proposal {
        Some(p) => Some(p),
        None => None,
    };
    let review = &context.proposal_review;
    let plan = &context.source_task_plan;
    let ready = match readiness {
        Some(r) => r.status == WorkflowReadinessStatus::Ready,
        None => false,
    };
    let rd_matches = match readiness {
        Some(r) => r.proposal_id.0 == request.proposal_id.0,
        None => false,
    };
    let prop_rd = match (proposal, readiness) {
        (Some(p), Some(r)) => p.proposal_hash == r.proposal_hash,
        _ => false,
    };
    let prop_req = match proposal {
        Some(p) => p.proposal_hash == request.expected_proposal_hash,
        None => false,
    };
    let review_latest = match (review, &context.latest_proposal_review) {
        (Some(r), Some(l)) => l.review_id.0 == r.review_id.0,
        _ => false,
    };
    let approved = match review {
        Some(r) => r.decision == WorkflowProposalReviewDecision::Approved,
        None => false,
    };
    let source_ok = match (plan, proposal) {
        (Some(sp), Some(p)) => sp.plan_hash == p.source_task_plan_hash,
        _ => false,
    };
    let flags = vec![
        readiness.is_some(), ready, rd_matches, proposal.is_some(), prop_rd, prop_req, review.is_some(), review_latest,
        approved, plan.is_some(), source_ok,
    ];
    assert(flags@ =~= execution_chain_flags(*request, *context));
    flags
}

fn execution_policy_flags_exec(request: &WorkflowExecutionRequest, context: &WorkflowExecutionContext) -> (f: Vec<bool>)
    ensures
        f@ == execution_policy_flags(*request, *context),
{
    let proposal: Option<&WorkflowProposal> = match &context.proposal {
        Some(p) => Some(p),
        None => None,
    };
    let (all_resolved, none_executable) = match proposal {
        Some(p) => (intents_all_exec(&p.stages, true), intents_all_exec(&p.stages, false)),
        None => (true, true),
    };
    let approvals_ok = match proposal {
        Some(p) => no_approval_stage_exec(&p.stages) || p.required_approvals.len() > 0,
        None => false,
    };
    let policy_ok = match proposal {
        Some(p) => p.risks.len() > 0 || p.required_approvals.len() > 0,
        None => false,
    };
    let rollback_ok = match proposal {
        Some(p) => p.abort_rollback_notes.len() > 0,
        None => false,
    };
    let no_conflict = !completed_run_exec(&context.existing_runs, request);
    let f = vec![
        all_resolved, none_executable, approvals_ok, policy_ok, true, context.provider_config_available,
        context.session_runtime_available, rollback_ok, no_conflict, true,
    ];
    assert(f@ =~= execution_policy_flags(*request, *context));
    f
}

fn execution_predicates(request: &WorkflowExecutionRequest, context: &WorkflowExecutionContext) -> (p: Vec<WorkflowExecutionPredicateResult>)
    ensures
        check_views(p@) == execution_checks(*request, *context),
{
    let mut flags = execution_chain_flags_exec(request, context);
    let mut rest = execution_policy_flags_exec(request, context);
    flags.append(&mut rest);
    let table = execution_table_exec();
    assert(table_view(table@).len() == table@.len());
    build_checks(&table, &flags)
}

/// Initialises pending stage runs from the proposed stages.
pub fn initialize_stage_runs(proposal: &WorkflowProposal) -> (out: Vec<WorkflowStageRun>)
    ensures
        out@.len() == proposal.stages@.len(),
        forall|i: int| 0 <= i < proposal.stages@.len() ==> initial_stage(#[trigger] out@[i], proposal.stages@[i]),
{
    let mut out: Vec<WorkflowStageRun> = Vec::new();
    let mut i: usize = 0;
    while i < proposal.stages.len()
        invariant
            i <= proposal.stages.len(),
            out@.len() == i,
            forall|k: int| 0 <= k < i ==> initial_stage(#[trigger] out@[k], proposal.stages@[k]),
        decreases proposal.stages.len() - i,
    {
        let s = &proposal.stages[i];
        out.push(WorkflowStageRun {
            stage_id: s.stage_id.clone(),
            title: s.title.clone(),
            kind: s.kind,
            status: WorkflowStageRunStatus::Pending,
            order: s.order,
            depends_on: crate::text::copy_strings(&s.depends_on),
            started_at: None,
            completed_at: None,
            summary: String::from_str("Initialized from proposal stage"),
        });
        i += 1;
    }
    out
}

/// Evaluates the twenty-one execution predicates and returns the run record:
/// suspended when every predicate passes, blocked otherwise.
pub fn evaluate_workflow_execution(request: &WorkflowExecutionRequest, context: &WorkflowExecutionContext) -> (rec: WorkflowRunRecord)
    ensures
        rec.execution_id.0@.len() == 20,
        execution_record_ok(rec, *request, *context),
{
    proof {
        reveal_strlit("wfx_");
    }
    let predicates = execution_predicates(request, context);
    let (status, decision) = if all_checks_pass(&predicates) {
        (WorkflowRunStatus::Suspended, WorkflowExecutionDecision::RunCreated)
    } else {
        let parts = failed_check_name_reasons(&predicates);
        let summary = join_strings(&parts, "; ");
        (WorkflowRunStatus::Blocked, WorkflowExecutionDecision::Blocked { reason_code: String::from_str("predicate_failed"), summary })
    };
    let execution_id = workflow_execution_id_for(
        request.readiness_id.0.as_str(),
        request.proposal_id.0.as_str(),
        request.idempotency_key.as_str(),
        predicates.len(),
    );
    let proposal: Option<&WorkflowProposal> = match &context.proposal {
        Some(p) => Some(p),
        None => None,
    };
    let source_plan_id = match proposal {
        Some(p) => TaskPlanId(p.source_task_plan_id.0.clone()),
        None => TaskPlanId(String::from_str("unknown")),
    };
    let run_snapshot = WorkflowRunSnapshot {
        readiness_id: request.readiness_id.0.clone(),
        proposal_id: request.proposal_id.0.clone(),
        proposal_hash: match proposal {
            Some(p) => p.proposal_hash.clone(),
            None => String::new(),
        },
        source_task_plan_hash: match proposal {
            Some(p) => p.source_task_plan_hash.clone(),
            None => String::new(),
        },
        readiness_status_at_execution: match &context.readiness {
            Some(r) => to_lowercase(r.status.debug_name()),
            None => String::new(),
        },
        proposal_review_decision_at_execution: match &context.proposal_review {
            Some(r) => to_lowercase(r.decision.debug_name()),
            None => String::new(),
        },
    };
    let notes_available = match proposal {
        Some(p) => p.abort_rollback_notes.len() > 0,
        None => false,
    };
    let mut recovery_notes: Vec<String> = Vec::new();
    match proposal {
        Some(p) => {
            let mut i: usize = 0;
            while i < p.abort_rollback_notes.len()
                invariant
                    i <= p.abort_rollback_notes.len(),
                    recovery_notes@.len() == i,
                    forall|k: int| 0 <= k < i ==> #[trigger] recovery_notes@[k]@ == p.abort_rollback_notes@[k].summary@,
                decreases p.abort_rollback_notes.len() - i,
            {
                recovery_notes.push(p.abort_rollback_notes[i].summary.clone());
                i += 1;
            }
            assert(views(recovery_notes@) =~= p.abort_rollback_notes@.map_values(
                |n: crate::workflow_proposal::WorkflowAbortRollbackNote| n.summary@,
            ));
        },
        None => {
            assert(views(recovery_notes@) =~= Seq::<Seq<char>>::empty());
        },
    }
    let stages = match proposal {
        Some(p) => initialize_stage_runs(p),
        None => Vec::new(),
    };
    WorkflowRunRecord {
        execution_id,
        readiness_id: WorkflowReadinessId(request.readiness_id.0.clone()),
        proposal_id: WorkflowProposalId(request.proposal_id.0.clone()),
        proposal_review_id: WorkflowProposalReviewId(request.proposal_review_id.0.clone()),
        source_task_plan_id: source_plan_id,
        status,
        decision,
        predicates,
        run_snapshot,
        stages,
        lifecycle_events: Vec::new(),
        action_requests: Vec::new(),
        abort_snapshot: WorkflowAbortSnapshot {
            abort_notes_available: notes_available,
            rollback_notes_available: notes_available,
            recovery_notes,
        },
        created_at: now_utc(),
        completed_at: None,
    }
}

} // verus!
