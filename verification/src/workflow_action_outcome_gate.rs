//! Outcome predicate gate: deterministic evaluation of approval-resolution readiness.
use vstd::prelude::*;
use crate::gate::{
    build_checks, checks_from, table_view, all_checks_pass, all_pass, check_views, failed_check_names, failed_names, failed_names_joined,
    lemma_failed_empty_iff_all_pass, push_check,
};
use crate::ids::text_id;
use crate::outside::now_utc;
use crate::text::{copy_opt, decimal, is_blank, join, opt_view, push_decimal};
use crate::workflow_action_outcome::{
    WorkflowActionOutcomeDecision, WorkflowActionOutcomeId, WorkflowActionOutcomePredicate,
    WorkflowActionOutcomePredicateResult, WorkflowActionOutcomeRecord, WorkflowActionOutcomeRequest,
    WorkflowActionOutcomeStatus, WorkflowApprovalResolution,
};
use crate::workflow_action_outcome_validation::{
    action_outcome_id_for, outcome_preimage, validate_resolution_rationale,
};
use crate::workflow_action_route::{WorkflowActionRouteId, WorkflowActionRouteRecord, WorkflowActionRouteStatus};
use crate::workflow_run::{WorkflowExecutionId, WorkflowRunRecord};

verus! {

/// Evidence for outcome predicate evaluation.
#[derive(Debug, Clone)]
pub struct WorkflowActionOutcomeContext<'a> {
    pub workflow_run: Option<&'a WorkflowRunRecord>,
    pub route_record: Option<&'a WorkflowActionRouteRecord>,
    pub prior_outcomes: Vec<&'a WorkflowActionOutcomeRecord>,
    pub approval_bridge_available: bool,
    pub workflow_run_hash: String,
    pub route_hash: String,
}

/// The outcome id a request names.
pub open spec fn outcome_id_of(request: WorkflowActionOutcomeRequest) -> Seq<char> {
    text_id(
        "wao_"@,
        outcome_preimage(
            request.workflow_execution_id.0@,
            request.route_id.0@,
            request.pending_approval_id@,
            request.idempotency_key@,
        ),
    )
}

/// A prior outcome with the same id exists.
pub open spec fn existing_outcome(prior: Seq<&WorkflowActionOutcomeRecord>, request: WorkflowActionOutcomeRequest) -> bool {
    exists|i: int| 0 <= i < prior.len() && #[trigger] prior[i].outcome_id.0@ == outcome_id_of(request)
}

/// A prior outcome for the same route and pending approval.
pub open spec fn same_approval(o: WorkflowActionOutcomeRecord, request: WorkflowActionOutcomeRequest) -> bool {
    o.route_id.0@ == request.route_id.0@ && o.pending_approval_id@ == request.pending_approval_id@
}

/// A prior completed or denied outcome for the same route and pending approval exists.
pub open spec fn conflicting_outcome(prior: Seq<&WorkflowActionOutcomeRecord>, request: WorkflowActionOutcomeRequest) -> bool {
    exists|i: int|
        0 <= i < prior.len() && (prior[i].status == WorkflowActionOutcomeStatus::ToolCompleted
            || prior[i].status == WorkflowActionOutcomeStatus::ToolDenied) && same_approval(
            *#[trigger] prior[i],
            request,
        )
}

/// No prior outcome is for the same route and pending approval.
pub open spec fn no_outcome_for_approval(prior: Seq<&WorkflowActionOutcomeRecord>, request: WorkflowActionOutcomeRequest) -> bool {
    forall|i: int| 0 <= i < prior.len() ==> !same_approval(*#[trigger] prior[i], request)
}

/// The outcome predicates in order, each with its reason when passing and when failing.
pub open spec fn outcome_table() -> Seq<(WorkflowActionOutcomePredicate, Seq<char>, Seq<char>)> {
    seq![
        (WorkflowActionOutcomePredicate::WorkflowRunExists, "Workflow run found"@, "No workflow run"@),
        (WorkflowActionOutcomePredicate::WorkflowRunHashMatchesRequest, "Hash provided"@, "Missing hash"@),
        (WorkflowActionOutcomePredicate::RouteRecordExists, "Route found"@, "No route"@),
        (WorkflowActionOutcomePredicate::RouteHashMatchesRequest, "Hash provided"@, "Missing hash"@),
        (WorkflowActionOutcomePredicate::RouteIsSuspendedForApproval, "Route suspended for approval"@, "Route not suspended"@),
        (WorkflowActionOutcomePredicate::RouteLinksSameWorkflowRun, "Same workflow run"@, "Workflow run mismatch"@),
        (WorkflowActionOutcomePredicate::RouteLinksSameStage, "Same stage"@, "Stage mismatch"@),
        (WorkflowActionOutcomePredicate::RouteLinksSameActionRequest, "Same action request"@, "Action request mismatch"@),
        (WorkflowActionOutcomePredicate::RouteLinksSameSession, "Same session"@, "Session mismatch"@),
        (WorkflowActionOutcomePredicate::RouteHasExactlyOnePendingApproval, "Route has exactly one pending approval"@, "Route has no or ambiguous pending approval"@),
        (WorkflowActionOutcomePredicate::PendingApprovalIdMatchesRoute, "Pending approval matches"@, "Pending approval mismatch"@),
        (WorkflowActionOutcomePredicate::ToolCallIdMatchesWhenPresent, "Tool call ID matches or not required"@, "Tool call ID mismatch"@),
        (WorkflowActionOutcomePredicate::ResolutionRationalePresent, "Rationale present"@, "Missing rationale"@),
        (WorkflowActionOutcomePredicate::ApprovalBridgeAvailable, "Bridge available"@, "No bridge"@),
        (WorkflowActionOutcomePredicate::NoPriorConflictingOutcome, "No conflict"@, "Prior completed/denied outcome exists"@),
        (WorkflowActionOutcomePredicate::IdempotencyKeyUnusedOrMatchesExisting, "Idempotency valid"@, "Conflicting key"@),
    ]
}

fn outcome_table_exec() -> (v: Vec<(WorkflowActionOutcomePredicate, &'static str, &'static str)>)
    ensures
        table_view(v@) == outcome_table(),
{
    let v = vec![
        (WorkflowActionOutcomePredicate::WorkflowRunExists, "Workflow run found", "No workflow run"),
        (WorkflowActionOutcomePredicate::WorkflowRunHashMatchesRequest, "Hash provided", "Missing hash"),
        (WorkflowActionOutcomePredicate::RouteRecordExists, "Route found", "No route"),
        (WorkflowActionOutcomePredicate::RouteHashMatchesRequest, "Hash provided", "Missing hash"),
        (WorkflowActionOutcomePredicate::RouteIsSuspendedForApproval, "Route suspended for approval", "Route not suspended"),
        (WorkflowActionOutcomePredicate::RouteLinksSameWorkflowRun, "Same workflow run", "Workflow run mismatch"),
        (WorkflowActionOutcomePredicate::RouteLinksSameStage, "Same stage", "Stage mismatch"),
        (WorkflowActionOutcomePredicate::RouteLinksSameActionRequest, "Same action request", "Action request mismatch"),
        (WorkflowActionOutcomePredicate::RouteLinksSameSession, "Same session", "Session mismatch"),
        (WorkflowActionOutcomePredicate::RouteHasExactlyOnePendingApproval, "Route has exactly one pending approval", "Route has no or ambiguous pending approval"),
        (WorkflowActionOutcomePredicate::PendingApprovalIdMatchesRoute, "Pending approval matches", "Pending approval mismatch"),
        (WorkflowActionOutcomePredicate::ToolCallIdMatchesWhenPresent, "Tool call ID matches or not required", "Tool call ID mismatch"),
        (WorkflowActionOutcomePredicate::ResolutionRationalePresent, "Rationale present", "Missing rationale"),
        (WorkflowActionOutcomePredicate::ApprovalBridgeAvailable, "Bridge available", "No bridge"),
        (WorkflowActionOutcomePredicate::NoPriorConflictingOutcome, "No conflict", "Prior completed/denied outcome exists"),
        (WorkflowActionOutcomePredicate::IdempotencyKeyUnusedOrMatchesExisting, "Idempotency valid", "Conflicting key"),
    ];
    assert(table_view(v@) =~= outcome_table());
    v
}

/// The outcome of each outcome predicate, in table order.
pub open spec fn outcome_flags(request: WorkflowActionOutcomeRequest, context: WorkflowActionOutcomeContext) -> Seq<bool> {
    let run = context.workflow_run;
    let route = context.route_record;
    let run_hash_ok = run is Some && request.expected_workflow_run_hash@.len() > 0;
    let route_hash_ok = route is Some && request.expected_route_hash@.len() > 0;
    let suspended = route matches Some(r) && r.status == WorkflowActionRouteStatus::SuspendedForApproval;
    let run_match = route matches Some(r) && r.workflow_execution_id.0@ == request.workflow_execution_id.0@;
    let stage_match = route matches Some(r) && r.stage_id@ == request.stage_id@;
    let ar_match = route matches Some(r) && r.action_request_id@ == request.action_request_id@;
    let sess_match = route matches Some(r) && r.session_route matches Some(sr) && sr.session_id@
        == request.session_id@;
    let one_approval = route matches Some(r) && r.session_route matches Some(sr)
        && sr.pending_approval_id is Some;
    let approval_match = route matches Some(r) && r.session_route matches Some(sr)
        && opt_view(sr.pending_approval_id) == Some(request.pending_approval_id@);
    let tc_match = match request.tool_call_id {
        Some(tc) => route matches Some(r) && r.session_route matches Some(sr) && opt_view(
            sr.tool_call_id,
        ) == Some(tc@),
        None => true,
    };
    let rationale_ok = !is_blank(request.resolution.rationale_view());
    let no_conflict = !conflicting_outcome(context.prior_outcomes@, request);
    let idempotent = existing_outcome(context.prior_outcomes@, request) || no_outcome_for_approval(
        context.prior_outcomes@,
        request,
    );
    seq![
        run is Some,
        run_hash_ok,
        route is Some,
        route_hash_ok,
        suspended,
        run_match,
        stage_match,
        ar_match,
        sess_match,
        one_approval,
        approval_match,
        tc_match,
        rationale_ok,
        context.approval_bridge_available,
        no_conflict,
        idempotent,
    ]
}

/// The sixteen outcome predicates, in order, with their outcomes and reasons.
pub open spec fn outcome_checks(request: WorkflowActionOutcomeRequest, context: WorkflowActionOutcomeContext) -> Seq<
    (WorkflowActionOutcomePredicate, bool, Seq<char>),
> {
    checks_from(outcome_table(), outcome_flags(request, context))
}

/// Status and decision of an outcome record for a request: an existing outcome wins, then any failed check blocks.
pub open spec fn outcome_decision_ok(
    rec: WorkflowActionOutcomeRecord,
    request: WorkflowActionOutcomeRequest,
    context: WorkflowActionOutcomeContext,
) -> bool {
    let checks = outcome_checks(request, context);
    if existing_outcome(context.prior_outcomes@, request) {
        &&& rec.status == WorkflowActionOutcomeStatus::AlreadyResolved
        &&& rec.decision matches WorkflowActionOutcomeDecision::ApprovalResolved { summary }
        &&& summary@ == "Existing"@
    } else if !all_pass(checks) {
        &&& rec.status == WorkflowActionOutcomeStatus::Blocked
        &&& rec.decision matches WorkflowActionOutcomeDecision::Blocked { reason_code, summary }
        &&& reason_code@ == "predicate_failed_"@ + decimal(failed_names(checks).len())
        &&& summary@ == join(failed_names(checks), ", "@)
    } else {
        &&& rec.status == WorkflowActionOutcomeStatus::ApprovalResolved
        &&& rec.decision matches WorkflowActionOutcomeDecision::ApprovalResolved { summary }
        &&& summary@ == "Ready to resolve"@
    }
}

fn find_existing_outcome(
    prior: &Vec<&WorkflowActionOutcomeRecord>,
    request: &WorkflowActionOutcomeRequest,
    id: &WorkflowActionOutcomeId,
) -> (found: bool)
    requires
        id.0@ == outcome_id_of(*request),
    ensures
        found == existing_outcome(prior@, *request),
{
    let mut i: usize = 0;
    while i < prior.len()
        invariant
            id.0@ == outcome_id_of(*request),
            i <= prior.len(),
            forall|k: int| 0 <= k < i ==> #[trigger] prior@[k].outcome_id.0@ != outcome_id_of(*request),
        decreases prior.len() - i,
    {
        if prior[i].outcome_id.0 == id.0 {
            return true;
        }
        i += 1;
    }
    false
}

fn find_conflicting_outcome(prior: &Vec<&WorkflowActionOutcomeRecord>, request: &WorkflowActionOutcomeRequest) -> (found: bool)
    ensures
        found == conflicting_outcome(prior@, *request),
{
    let mut i: usize = 0;
    while i < prior.len()
        invariant
            i <= prior.len(),
            forall|k: int|
                0 <= k < i ==> !((prior@[k].status == WorkflowActionOutcomeStatus::ToolCompleted
                    || prior@[k].status == WorkflowActionOutcomeStatus::ToolDenied) && same_approval(
                    *#[trigger] prior@[k],
                    *request,
                )),
        decreases prior.len() - i,
    {
        let o = prior[i];
        if (o.status == WorkflowActionOutcomeStatus::ToolCompleted || o.status
            == WorkflowActionOutcomeStatus::ToolDenied) && o.route_id.0 == request.route_id.0
            && o.pending_approval_id == request.pending_approval_id {
            return true;
        }
        i += 1;
    }
    false
}

fn any_outcome_for_approval(prior: &Vec<&WorkflowActionOutcomeRecord>, request: &WorkflowActionOutcomeRequest) -> (found: bool)
    ensures
        found == !no_outcome_for_approval(prior@, *request),
{
    let mut i: usize = 0;
    while i < prior.len()
        invariant
            i <= prior.len(),
            forall|k: int| 0 <= k < i ==> !same_approval(*#[trigger] prior@[k], *request),
        decreases prior.len() - i,
    {
        let o = prior[i];
        if o.route_id.0 == request.route_id.0 && o.pending_approval_id == request.pending_approval_id {
            return true;
        }
        i += 1;
    }
    false
}

fn outcome_predicate_results(
    request: &WorkflowActionOutcomeRequest,
    context: &WorkflowActionOutcomeContext,
    existing: bool,
) -> (predicates: Vec<WorkflowActionOutcomePredicateResult>)
    requires
        existing == existing_outcome(context.prior_outcomes@, *request),
    ensures
        check_views(predicates@) == outcome_checks(*request, *context),
{
    let run = context.workflow_run;
    let route = context.route_record;
    let run_hash_ok = run.is_some() && !request.expected_workflow_run_hash.as_str().is_empty();
    let route_hash_ok = route.is_some() && !request.expected_route_hash.as_str().is_empty();
    let (suspended, run_match, stage_match, ar_match) = match route {
        Some(r) => (
            r.status == WorkflowActionRouteStatus::SuspendedForApproval,
            r.workflow_execution_id.0 == request.workflow_execution_id.0,
            r.stage_id == request.stage_id,
            r.action_request_id == request.action_request_id,
        ),
        None => (false, false, false, false),
    };
    let (sess_match, one_approval, approval_match, tc_seen) = match route {
        Some(r) => match &r.session_route {
            Some(sr) => (
                sr.session_id == request.session_id,
                sr.pending_approval_id.is_some(),
                match &sr.pending_approval_id {
                    Some(id) => *id == request.pending_approval_id,
                    None => false,
                },
                match (&request.tool_call_id, &sr.tool_call_id) {
                    (Some(a), Some(b)) => *a == *b,
                    _ => false,
                },
            ),
            None => (false, false, false, false),
        },
        None => (false, false, false, false),
    };
    let tc_match = match &request.tool_call_id {
        Some(_) => tc_seen,
        None => true,
    };
    let rationale_ok = validate_resolution_rationale(&request.resolution).is_ok();
    let no_conflict = !find_conflicting_outcome(&context.prior_outcomes, request);
    let idempotent = existing || !any_outcome_for_approval(&context.prior_outcomes, request);
    let flags = vec![
        run.is_some(), run_hash_ok, route.is_some(), route_hash_ok, suspended, run_match,
        stage_match, ar_match, sess_match, one_approval, approval_match, tc_match, rationale_ok,
        context.approval_bridge_available, no_conflict, idempotent,
    ];
    assert(flags@ =~= outcome_flags(*request, *context));
    let table = outcome_table_exec();
    assert(table_view(table@).len() == table@.len());
    build_checks(&table, &flags)
}

fn copy_resolution(r: &WorkflowApprovalResolution) -> (c: WorkflowApprovalResolution)
    ensures
        c == *r,
{
    match r {
        WorkflowApprovalResolution::Approve { rationale } => WorkflowApprovalResolution::Approve { rationale: rationale.clone() },
        WorkflowApprovalResolution::Reject { rationale } => WorkflowApprovalResolution::Reject { rationale: rationale.clone() },
    }
}

/// Evaluates the sixteen outcome predicates and returns the outcome record.
pub fn evaluate_action_outcome(
    request: &WorkflowActionOutcomeRequest,
    context: &WorkflowActionOutcomeContext,
) -> (rec: WorkflowActionOutcomeRecord)
    ensures
        rec.outcome_id.0@.len() == 68,
        rec.outcome_id.0@ == outcome_id_of(*request),
        check_views(rec.predicates@) == outcome_checks(*request, *context),
        outcome_decision_ok(rec, *request, *context),
        rec.workflow_execution_id.0@ == request.workflow_execution_id.0@,
        rec.route_id.0@ == request.route_id.0@,
        rec.stage_id@ == request.stage_id@,
        rec.action_request_id@ == request.action_request_id@,
        rec.session_id@ == request.session_id@,
        rec.pending_approval_id@ == request.pending_approval_id@,
        opt_view(rec.tool_call_id) == opt_view(request.tool_call_id),
        rec.route_hash@ == context.route_hash@,
        rec.workflow_run_hash@ == context.workflow_run_hash@,
        rec.approval_resolution == request.resolution,
        rec.session_outcome is None,
        rec.completed_at == if rec.status == WorkflowActionOutcomeStatus::Blocked {
            None
        } else {
            Some(rec.created_at)
        },
{
    proof {
        reveal_strlit("wao_");
    }
    let outcome_id = action_outcome_id_for(
        request.workflow_execution_id.0.as_str(),
        request.route_id.0.as_str(),
        request.pending_approval_id.as_str(),
        request.idempotency_key.as_str(),
    );
    let ghost checks = outcome_checks(*request, *context);
    let existing = find_existing_outcome(&context.prior_outcomes, request, &outcome_id);
    let predicates = outcome_predicate_results(request, context, existing);
    let all_ok = all_checks_pass(&predicates);
    let now = now_utc();
    let (status, decision) = if existing {
        (WorkflowActionOutcomeStatus::AlreadyResolved, WorkflowActionOutcomeDecision::ApprovalResolved { summary: String::from_str("Existing") })
    } else if !all_ok {
        let names = failed_names_joined(&predicates);
        proof {
            lemma_failed_empty_iff_all_pass(checks);
        }
        let mut reason_code = String::from_str("predicate_failed_");
        let n = failed_check_names(&predicates).len();
        push_decimal(&mut reason_code, n);
        (WorkflowActionOutcomeStatus::Blocked, WorkflowActionOutcomeDecision::Blocked { reason_code, summary: names })
    } else {
        (WorkflowActionOutcomeStatus::ApprovalResolved, WorkflowActionOutcomeDecision::ApprovalResolved { summary: String::from_str("Ready to resolve") })
    };
    let is_blocked = status == WorkflowActionOutcomeStatus::Blocked;
    WorkflowActionOutcomeRecord {
        outcome_id,
        workflow_execution_id: WorkflowExecutionId(request.workflow_execution_id.0.clone()),
        route_id: WorkflowActionRouteId(request.route_id.0.clone()),
        stage_id: request.stage_id.clone(),
        action_request_id: request.action_request_id.clone(),
        session_id: request.session_id.clone(),
        pending_approval_id: request.pending_approval_id.clone(),
        tool_call_id: copy_opt(&request.tool_call_id),
        route_hash: context.route_hash.clone(),
        workflow_run_hash: context.workflow_run_hash.clone(),
        status,
        decision,
        predicates,
        approval_resolution: copy_resolution(&request.resolution),
        session_outcome: None,
        created_at: now,
        completed_at: if is_blocked { None } else { Some(now) },
    }
}

} // verus!
