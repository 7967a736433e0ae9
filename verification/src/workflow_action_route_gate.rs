//! Route predicate gate: deterministic evaluation of routing readiness.
//!
//! No tool runs, no policy engine is called, nothing is appended to a trace.
//! All inputs are evidence loaded beforehand.
use vstd::prelude::*;
use crate::gate::{build_checks, checks_from, table_view, all_checks_pass, all_pass, check_views, failed_names, failed_names_joined, lemma_failed_empty_iff_all_pass};
use crate::ids::text_id;
use crate::outside::now_utc;
use crate::text::{decimal, join, lowercase_of, push_decimal, views};
use crate::workflow_action_route::{
    WorkflowActionRouteDecision, WorkflowActionRouteId, WorkflowActionRoutePredicate,
    WorkflowActionRoutePredicateResult, WorkflowActionRoutePrompt, WorkflowActionRouteRecord,
    WorkflowActionRouteRequest, WorkflowActionRouteStatus,
};
use crate::workflow_action_route_validation::{
    action_route_id_for, first_pattern_hit, prompt_forbidden_hit, prompt_forbidden_patterns,
    prompt_text, route_preimage, validate_route_prompt_no_executable_fields,
};
use crate::workflow_run::{
    WorkflowActionRequest, WorkflowActionRoutingStatus, WorkflowRunRecord, WorkflowRunStatus,
    WorkflowStageRun, WorkflowStageRunStatus,
};

verus! {

/// Evidence for route predicate evaluation. Nothing here executes.
#[derive(Debug, Clone)]
pub struct WorkflowActionRouteContext<'a> {
    pub workflow_run: Option<&'a WorkflowRunRecord>,
    pub target_stage: Option<&'a WorkflowStageRun>,
    pub target_action_request: Option<&'a WorkflowActionRequest>,
    pub prior_routes: Vec<&'a WorkflowActionRouteRecord>,
    pub session_bridge_available: bool,
    pub session_runner_available: bool,
    pub workflow_run_hash: String,
    pub action_request_hash: String,
}

/// The route id a request names.
pub open spec fn route_id_of(request: WorkflowActionRouteRequest) -> Seq<char> {
    text_id(
        "war_"@,
        route_preimage(
            request.workflow_execution_id.0@,
            request.stage_id@,
            request.action_request_id@,
            request.idempotency_key@,
        ),
    )
}

/// The descriptive text of the prompt built for an action request (or for none).
pub open spec fn route_prompt_text_for(a: Option<&WorkflowActionRequest>) -> Seq<char> {
    match a {
        Some(a) => a.capability_category@ + a.purpose@ + a.expected_input_summary@
            + a.expected_output_summary@ + if a.policy_gate_required {
            "Policy gate required"@
        } else {
            Seq::empty()
        },
        None => "unknown"@ + "unknown"@ + "unknown"@ + "unknown"@,
    }
}

/// The prompt built for an action request holds exactly its descriptive fields.
pub open spec fn route_prompt_is(p: WorkflowActionRoutePrompt, a: Option<&WorkflowActionRequest>) -> bool {
    match a {
        Some(a) => {
            &&& p.capability_category@ == a.capability_category@
            &&& p.purpose@ == a.purpose@
            &&& p.expected_input_summary@ == a.expected_input_summary@
            &&& p.expected_output_summary@ == a.expected_output_summary@
            &&& views(p.safety_constraints@) == if a.policy_gate_required {
                seq!["Policy gate required"@]
            } else {
                Seq::empty()
            }
        },
        None => {
            &&& p.capability_category@ == "unknown"@
            &&& p.purpose@ == "unknown"@
            &&& p.expected_input_summary@ == "unknown"@
            &&& p.expected_output_summary@ == "unknown"@
            &&& p.safety_constraints@.len() == 0
        },
    }
}

/// A prior route targets the same run, stage and action request.
pub open spec fn same_route_target(r: WorkflowActionRouteRecord, request: WorkflowActionRouteRequest) -> bool {
    &&& r.workflow_execution_id.0@ == request.workflow_execution_id.0@
    &&& r.stage_id@ == request.stage_id@
    &&& r.action_request_id@ == request.action_request_id@
}

/// A prior route with the same target and the same route id exists.
pub open spec fn existing_route(prior: Seq<&WorkflowActionRouteRecord>, request: WorkflowActionRouteRequest) -> bool {
    exists|i: int|
        0 <= i < prior.len() && same_route_target(*prior[i], request) && #[trigger] prior[i].route_id.0@
            == route_id_of(request)
}

/// A prior completed or approval-suspended route exists for the action request.
pub open spec fn conflicting_route(prior: Seq<&WorkflowActionRouteRecord>, request: WorkflowActionRouteRequest) -> bool {
    exists|i: int|
        0 <= i < prior.len() && (prior[i].status == WorkflowActionRouteStatus::Completed
            || prior[i].status == WorkflowActionRouteStatus::SuspendedForApproval)
            && #[trigger] prior[i].action_request_id@ == request.action_request_id@
}

/// No prior route has the same target.
pub open spec fn no_route_with_target(prior: Seq<&WorkflowActionRouteRecord>, request: WorkflowActionRouteRequest) -> bool {
    forall|i: int| 0 <= i < prior.len() ==> !same_route_target(*#[trigger] prior[i], request)
}

/// The route predicates in order, each with its reason when passing and when failing.
pub open spec fn route_table() -> Seq<(WorkflowActionRoutePredicate, Seq<char>, Seq<char>)> {
    seq![
        (WorkflowActionRoutePredicate::WorkflowRunExists, "Workflow run found"@, "No workflow run"@),
        (WorkflowActionRoutePredicate::WorkflowRunIsSuspended, "Run is suspended"@, "Run is not suspended"@),
        (WorkflowActionRoutePredicate::StageExists, "Stage found"@, "No matching stage"@),
        (WorkflowActionRoutePredicate::StageIsSuspended, "Stage is suspended"@, "Stage is not suspended"@),
        (WorkflowActionRoutePredicate::ActionRequestExists, "Action request found"@, "No action request"@),
        (WorkflowActionRoutePredicate::ActionRequestPreparedForSessionRouting, "Action request prepared for routing"@, "Action request not prepared"@),
        (WorkflowActionRoutePredicate::ActionRequestHashMatchesRequest, "Action request hash provided"@, "Missing action request hash"@),
        (WorkflowActionRoutePredicate::WorkflowRunHashMatchesRequest, "Workflow run hash provided"@, "Missing workflow run hash"@),
        (WorkflowActionRoutePredicate::ActionRequestStillNonExecutable, "Action request is non-executable"@, "Action request has executable fields"@),
        (WorkflowActionRoutePredicate::RoutePromptContainsNoToolArgs, "Route prompt is clean"@, "Route prompt contains forbidden fields"@),
        (WorkflowActionRoutePredicate::SessionBridgeAvailable, "Session bridge available"@, "No session bridge"@),
        (WorkflowActionRoutePredicate::SessionRunnerAvailable, "Session runner available"@, "No session runner"@),
        (WorkflowActionRoutePredicate::NoPriorConflictingRoute, "No conflicting prior route"@, "Prior completed/suspended route exists"@),
        (WorkflowActionRoutePredicate::IdempotencyKeyUnusedOrMatchesExisting, "Idempotency key valid"@, "Conflicting idempotency key"@),
    ]
}

fn route_table_exec() -> (v: Vec<(WorkflowActionRoutePredicate, &'static str, &'static str)>)
    ensures
        table_view(v@) == route_table(),
{
    let v = vec![
        (WorkflowActionRoutePredicate::WorkflowRunExists, "Workflow run found", "No workflow run"),
        (WorkflowActionRoutePredicate::WorkflowRunIsSuspended, "Run is suspended", "Run is not suspended"),
        (WorkflowActionRoutePredicate::StageExists, "Stage found", "No matching stage"),
        (WorkflowActionRoutePredicate::StageIsSuspended, "Stage is suspended", "Stage is not suspended"),
        (WorkflowActionRoutePredicate::ActionRequestExists, "Action request found", "No action request"),
        (WorkflowActionRoutePredicate::ActionRequestPreparedForSessionRouting, "Action request prepared for routing", "Action request not prepared"),
        (WorkflowActionRoutePredicate::ActionRequestHashMatchesRequest, "Action request hash provided", "Missing action request hash"),
        (WorkflowActionRoutePredicate::WorkflowRunHashMatchesRequest, "Workflow run hash provided", "Missing workflow run hash"),
        (WorkflowActionRoutePredicate::ActionRequestStillNonExecutable, "Action request is non-executable", "Action request has executable fields"),
        (WorkflowActionRoutePredicate::RoutePromptContainsNoToolArgs, "Route prompt is clean", "Route prompt contains forbidden fields"),
        (WorkflowActionRoutePredicate::SessionBridgeAvailable, "Session bridge available", "No session bridge"),
        (WorkflowActionRoutePredicate::SessionRunnerAvailable, "Session runner available", "No session runner"),
        (WorkflowActionRoutePredicate::NoPriorConflictingRoute, "No conflicting prior route", "Prior completed/suspended route exists"),
        (WorkflowActionRoutePredicate::IdempotencyKeyUnusedOrMatchesExisting, "Idempotency key valid", "Conflicting idempotency key"),
    ];
    assert(table_view(v@) =~= route_table());
    v
}

/// The outcome of each route predicate, in table order.
pub open spec fn route_flags(request: WorkflowActionRouteRequest, context: WorkflowActionRouteContext) -> Seq<bool> {
    let run = context.workflow_run;
    let stage = context.target_stage;
    let ar = context.target_action_request;
    let run_suspended = run matches Some(r) && r.status == WorkflowRunStatus::Suspended;
    let stage_suspended = stage matches Some(s) && s.status == WorkflowStageRunStatus::Suspended;
    let prepared = ar matches Some(a) && a.routing_status
        == WorkflowActionRoutingStatus::PreparedForFutureSessionRouting;
    let hash_ok = request.expected_action_request_hash@.len() > 0;
    let run_hash_ok = request.expected_workflow_run_hash@.len() > 0;
    let prompt_clean = first_pattern_hit(
        lowercase_of(route_prompt_text_for(ar)),
        prompt_forbidden_patterns(),
        0,
    ) is None;
    let no_conflict = !conflicting_route(context.prior_routes@, request);
    let idempotent = existing_route(context.prior_routes@, request) || no_route_with_target(
        context.prior_routes@,
        request,
    );
    seq![
        run is Some,
        run_suspended,
        stage is Some,
        stage_suspended,
        ar is Some,
        prepared,
        hash_ok,
        run_hash_ok,
        ar is Some,
        prompt_clean,
        context.session_bridge_available,
        context.session_runner_available,
        no_conflict,
        idempotent,
    ]
}

/// The fourteen routing predicates, in order, with their outcomes and reasons.
pub open spec fn route_checks(request: WorkflowActionRouteRequest, context: WorkflowActionRouteContext) -> Seq<
    (WorkflowActionRoutePredicate, bool, Seq<char>),
> {
    checks_from(route_table(), route_flags(request, context))
}
/// Status and decision of a route record for a request: an existing
/// identical route wins, then any failed check blocks.
/// its predicates: an existing identical route wins, then any failure blocks.
pub open spec fn route_outcome_ok(
    rec: WorkflowActionRouteRecord,
    request: WorkflowActionRouteRequest,
    context: WorkflowActionRouteContext,
) -> bool {
    let checks = route_checks(request, context);
    if existing_route(context.prior_routes@, request) {
        rec.status == WorkflowActionRouteStatus::AlreadyRouted && rec.decision is Routed
    } else if !all_pass(checks) {
        &&& rec.status == WorkflowActionRouteStatus::Blocked
        &&& rec.decision matches WorkflowActionRouteDecision::Blocked { reason_code, summary }
        &&& reason_code@ == "predicate_failed_"@ + decimal(failed_names(checks).len())
        &&& summary@ == join(failed_names(checks), ", "@)
    } else {
        rec.status == WorkflowActionRouteStatus::Routed && rec.decision is Routed
    }
}

/// Builds a route prompt from an action request's descriptive fields.
fn build_route_prompt(action_req: Option<&WorkflowActionRequest>) -> (p: WorkflowActionRoutePrompt)
    ensures
        route_prompt_is(p, action_req),
        prompt_text(p) == route_prompt_text_for(action_req),
{
    match action_req {
        Some(a) => {
            let safety = if a.policy_gate_required {
                vec![String::from_str("Policy gate required")]
            } else {
                Vec::new()
            };
            assert(views(safety@) =~= if a.policy_gate_required {
                seq!["Policy gate required"@]
            } else {
                Seq::<Seq<char>>::empty()
            });
            let p = WorkflowActionRoutePrompt {
                capability_category: a.capability_category.clone(),
                purpose: a.purpose.clone(),
                expected_input_summary: a.expected_input_summary.clone(),
                expected_output_summary: a.expected_output_summary.clone(),
                safety_constraints: safety,
            };
            assert(join(views(p.safety_constraints@), ""@) == if a.policy_gate_required {
                "Policy gate required"@
            } else {
                Seq::<char>::empty()
            });
            p
        },
        None => {
            let p = WorkflowActionRoutePrompt {
                capability_category: String::from_str("unknown"),
                purpose: String::from_str("unknown"),
                expected_input_summary: String::from_str("unknown"),
                expected_output_summary: String::from_str("unknown"),
                safety_constraints: Vec::new(),
            };
            assert(views(p.safety_constraints@) =~= Seq::<Seq<char>>::empty());
            assert(join(views(p.safety_constraints@), ""@) == Seq::<char>::empty());
            p
        },
    }
}

fn find_existing_route(
    prior: &Vec<&WorkflowActionRouteRecord>,
    request: &WorkflowActionRouteRequest,
    route_id: &WorkflowActionRouteId,
) -> (found: bool)
    requires
        route_id.0@ == route_id_of(*request),
    ensures
        found == existing_route(prior@, *request),
{
    let mut i: usize = 0;
    while i < prior.len()
        invariant
            route_id.0@ == route_id_of(*request),
            i <= prior.len(),
            forall|k: int|
                0 <= k < i ==> !(same_route_target(*prior@[k], *request) && #[trigger] prior@[k].route_id.0@
                    == route_id_of(*request)),
        decreases prior.len() - i,
    {
        let r = prior[i];
        if r.workflow_execution_id.0 == request.workflow_execution_id.0 && r.stage_id == request.stage_id
            && r.action_request_id == request.action_request_id && r.route_id.0 == route_id.0 {
            return true;
        }
        i += 1;
    }
    false
}

fn find_conflicting_route(prior: &Vec<&WorkflowActionRouteRecord>, request: &WorkflowActionRouteRequest) -> (found: bool)
    ensures
        found == conflicting_route(prior@, *request),
{
    let mut i: usize = 0;
    while i < prior.len()
        invariant
            i <= prior.len(),
            forall|k: int|
                0 <= k < i ==> !((prior@[k].status == WorkflowActionRouteStatus::Completed
                    || prior@[k].status == WorkflowActionRouteStatus::SuspendedForApproval)
                    && #[trigger] prior@[k].action_request_id@ == request.action_request_id@),
        decreases prior.len() - i,
    {
        let r = prior[i];
        if (r.status == WorkflowActionRouteStatus::Completed || r.status
            == WorkflowActionRouteStatus::SuspendedForApproval) && r.action_request_id
            == request.action_request_id {
            return true;
        }
        i += 1;
    }
    false
}

fn any_route_with_target(prior: &Vec<&WorkflowActionRouteRecord>, request: &WorkflowActionRouteRequest) -> (found: bool)
    ensures
        found == !no_route_with_target(prior@, *request),
{
    let mut i: usize = 0;
    while i < prior.len()
        invariant
            i <= prior.len(),
            forall|k: int| 0 <= k < i ==> !same_route_target(*#[trigger] prior@[k], *request),
        decreases prior.len() - i,
    {
        let r = prior[i];
        if r.workflow_execution_id.0 == request.workflow_execution_id.0 && r.stage_id == request.stage_id
            && r.action_request_id == request.action_request_id {
            return true;
        }
        i += 1;
    }
    false
}

fn route_predicate_results(
    request: &WorkflowActionRouteRequest,
    context: &WorkflowActionRouteContext,
    prompt: &WorkflowActionRoutePrompt,
    existing: bool,
) -> (predicates: Vec<WorkflowActionRoutePredicateResult>)
    requires
        prompt_text(*prompt) == route_prompt_text_for(context.target_action_request),
        existing == existing_route(context.prior_routes@, *request),
    ensures
        check_views(predicates@) == route_checks(*request, *context),
{

    let run = context.workflow_run;
    let run_suspended = match run {
        Some(r) => r.status == WorkflowRunStatus::Suspended,
        None => false,
    };
    let stage = context.target_stage;
    let stage_suspended = match stage {
        Some(s) => s.status == WorkflowStageRunStatus::Suspended,
        None => false,
    };
    let action_req = context.target_action_request;
    let prepared = match action_req {
        Some(a) => a.routing_status == WorkflowActionRoutingStatus::PreparedForFutureSessionRouting,
        None => false,
    };
    let hash_ok = !request.expected_action_request_hash.as_str().is_empty();
    let run_hash_ok = !request.expected_workflow_run_hash.as_str().is_empty();
    // An action request carries no executable field by construction.
    let non_exec = action_req.is_some();
    let prompt_clean = validate_route_prompt_no_executable_fields(&prompt).is_ok();
    let no_conflict = !find_conflicting_route(&context.prior_routes, request);
    let idempotent = existing || !any_route_with_target(&context.prior_routes, request);
    let flags = vec![
        run.is_some(), run_suspended, stage.is_some(), stage_suspended, action_req.is_some(),
        prepared, hash_ok, run_hash_ok, non_exec, prompt_clean, context.session_bridge_available,
        context.session_runner_available, no_conflict, idempotent,
    ];
    assert(flags@ =~= route_flags(*request, *context));
    let table = route_table_exec();
    assert(table_view(table@).len() == table@.len());
    build_checks(&table, &flags)
}

/// Evaluates the fourteen routing predicates and returns the route record.
pub fn evaluate_action_route(
    request: &WorkflowActionRouteRequest,
    context: &WorkflowActionRouteContext,
) -> (rec: WorkflowActionRouteRecord)
    ensures
        rec.route_id.0@.len() == 68,
        rec.route_id.0@ == route_id_of(*request),
        check_views(rec.predicates@) == route_checks(*request, *context),
        route_outcome_ok(rec, *request, *context),
        rec.workflow_execution_id.0@ == request.workflow_execution_id.0@,
        rec.readiness_id.0@ == request.readiness_id.0@,
        rec.proposal_id.0@ == request.proposal_id.0@,
        rec.stage_id@ == request.stage_id@,
        rec.action_request_id@ == request.action_request_id@,
        rec.action_request_hash@ == context.action_request_hash@,
        rec.session_route is None,
        route_prompt_is(rec.route_prompt, context.target_action_request),
        rec.completed_at == if rec.status == WorkflowActionRouteStatus::Blocked {
            None
        } else {
            Some(rec.created_at)
        },
{
    proof {
        reveal_strlit("war_");
    }
    let route_id = action_route_id_for(
        request.workflow_execution_id.0.as_str(),
        request.stage_id.as_str(),
        request.action_request_id.as_str(),
        request.idempotency_key.as_str(),
    );
    let ghost checks = route_checks(*request, *context);
    let prompt = build_route_prompt(context.target_action_request);
    let existing = find_existing_route(&context.prior_routes, request, &route_id);
    let predicates = route_predicate_results(request, context, &prompt, existing);

    let all_ok = all_checks_pass(&predicates);
    let now = now_utc();
    let (status, decision) = if existing {
        (WorkflowActionRouteStatus::AlreadyRouted, WorkflowActionRouteDecision::Routed)
    } else if !all_ok {
        let names = failed_names_joined(&predicates);
        proof {
            lemma_failed_empty_iff_all_pass(checks);
        }
        let mut reason_code = String::from_str("predicate_failed_");
        let ghost failed = failed_names(checks);
        let n = crate::gate::failed_check_names(&predicates).len();
        push_decimal(&mut reason_code, n);
        (WorkflowActionRouteStatus::Blocked, WorkflowActionRouteDecision::Blocked { reason_code, summary: names })
    } else {
        (WorkflowActionRouteStatus::Routed, WorkflowActionRouteDecision::Routed)
    };
    let is_blocked = status == WorkflowActionRouteStatus::Blocked;
    WorkflowActionRouteRecord {
        route_id,
        workflow_execution_id: crate::workflow_run::WorkflowExecutionId(request.workflow_execution_id.0.clone()),
        readiness_id: crate::workflow_readiness::WorkflowReadinessId(request.readiness_id.0.clone()),
        proposal_id: crate::workflow_proposal::WorkflowProposalId(request.proposal_id.0.clone()),
        stage_id: request.stage_id.clone(),
        action_request_id: request.action_request_id.clone(),
        action_request_hash: context.action_request_hash.clone(),
        status,
        decision,
        predicates,
        session_route: None,
        route_prompt: prompt,
        created_at: now,
        completed_at: if is_blocked { None } else { Some(now) },
    }
}

} // verus!
