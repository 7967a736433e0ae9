//! Next-action selector: continuation readiness from a run revision.
//!
//! Decides whether a next stage and action may be proposed. It does not route,
//! execute, reconcile, approve, or change any state.
use vstd::prelude::*;
use crate::gate::{all_checks_pass, all_pass, check_views, failed_names_lowercase_joined, lowercase_failed_names, push_check, CheckResult};
use crate::ids::text_id16;
use crate::outside::now_utc;
use crate::text::{decimal, join, push_decimal, views};
use crate::workflow_continuation::{
    WorkflowContinuationDecision, WorkflowContinuationPredicate, WorkflowContinuationPredicateResult,
    WorkflowContinuationReadinessId, WorkflowContinuationReadinessRecord, WorkflowContinuationRequest,
    WorkflowContinuationStatus, WorkflowNextActionCandidate, WorkflowNextActionKind, WorkflowNextActionProposal,
};
use crate::workflow_continuation_validation::{continuation_readiness_id_for, readiness_preimage};
use crate::workflow_reconciliation::{is_terminal, is_terminal_stage_status, WorkflowRunRevision, WorkflowRunRevisionId};
use crate::workflow_run::{
    WorkflowActionRequest, WorkflowActionRoutingStatus, WorkflowExecutionId, WorkflowRunRecord, WorkflowStageRun,
    WorkflowStageRunStatus,
};

verus! {

/// Evidence for a continuation evaluation.
#[derive(Debug, Clone)]
pub struct WorkflowContinuationContext<'a> {
    pub workflow_run: Option<&'a WorkflowRunRecord>,
    pub run_revision: Option<&'a WorkflowRunRevision>,
    pub prior_readiness: Vec<&'a WorkflowContinuationReadinessRecord>,
    pub prior_proposals: Vec<&'a WorkflowNextActionProposal>,
}

/// The readiness id a request names.
pub open spec fn continuation_id_of(request: WorkflowContinuationRequest) -> Seq<char> {
    text_id16(
        "wcr_"@,
        readiness_preimage(
            request.workflow_execution_id.0@,
            request.latest_run_revision_id.0@,
            request.idempotency_key@,
        ),
    )
}

/// The stages of the revision (none without a revision).
pub open spec fn revision_stages(context: WorkflowContinuationContext) -> Seq<WorkflowStageRun> {
    match context.run_revision {
        Some(r) => r.stages@,
        None => Seq::empty(),
    }
}

/// The action requests of the run (none without a run).
pub open spec fn run_action_requests(context: WorkflowContinuationContext) -> Seq<WorkflowActionRequest> {
    match context.workflow_run {
        Some(r) => r.action_requests@,
        None => Seq::empty(),
    }
}

/// The index of the first stage at or after `from` that is not terminal.
pub open spec fn first_open_from(s: Seq<WorkflowStageRun>, from: int) -> Option<int>
    decreases s.len() - from,
{
    if from < 0 || from >= s.len() {
        None
    } else if !is_terminal(s[from].status) {
        Some(from)
    } else {
        first_open_from(s, from + 1)
    }
}

/// The index of the first stage that is not terminal.
pub open spec fn first_open(s: Seq<WorkflowStageRun>) -> Option<int> {
    first_open_from(s, 0)
}

/// The index of the first stage at or after `from` with the given id.
pub open spec fn stage_index_from(s: Seq<WorkflowStageRun>, id: Seq<char>, from: int) -> Option<int>
    decreases s.len() - from,
{
    if from < 0 || from >= s.len() {
        None
    } else if s[from].stage_id@ == id {
        Some(from)
    } else {
        stage_index_from(s, id, from + 1)
    }
}

/// What `stage_index_from` finds: the first stage at or after `from` with the id.
pub proof fn lemma_stage_index_from(s: Seq<WorkflowStageRun>, id: Seq<char>, from: int)
    requires
        0 <= from,
    ensures
        match stage_index_from(s, id, from) {
            Some(i) => from <= i < s.len() && s[i].stage_id@ == id && forall|j: int|
                from <= j < i ==> (#[trigger] s[j]).stage_id@ != id,
            None => forall|j: int| from <= j < s.len() ==> (#[trigger] s[j]).stage_id@ != id,
        },
    decreases s.len() - from,
{
    if from < s.len() && s[from].stage_id@ != id {
        lemma_stage_index_from(s, id, from + 1);
    }
}

/// The index of the first action request at or after `from` for the stage.
pub open spec fn action_index_from(a: Seq<WorkflowActionRequest>, stage_id: Seq<char>, from: int) -> Option<int>
    decreases a.len() - from,
{
    if from < 0 || from >= a.len() {
        None
    } else if a[from].stage_id@ == stage_id {
        Some(from)
    } else {
        action_index_from(a, stage_id, from + 1)
    }
}

/// Some stage has the given status.
pub open spec fn any_stage_with(s: Seq<WorkflowStageRun>, st: WorkflowStageRunStatus) -> bool {
    exists|i: int| 0 <= i < s.len() && #[trigger] s[i].status == st
}

/// Some stage with the given id is terminal.
pub open spec fn dep_terminal(dep: Seq<char>, s: Seq<WorkflowStageRun>) -> bool {
    exists|j: int| 0 <= j < s.len() && #[trigger] s[j].stage_id@ == dep && is_terminal(s[j].status)
}

/// Every dependency of the stage names a terminal stage.
pub open spec fn deps_all_terminal(deps: Seq<String>, s: Seq<WorkflowStageRun>) -> bool {
    forall|d: int| 0 <= d < deps.len() ==> #[trigger] dep_terminal(deps[d]@, s)
}

/// The index of the next candidate action request, if there is a next stage.
pub open spec fn next_action_index(context: WorkflowContinuationContext) -> Option<int> {
    match first_open(revision_stages(context)) {
        Some(i) => action_index_from(run_action_requests(context), revision_stages(context)[i].stage_id@, 0),
        None => None,
    }
}

/// The next stage is pending.
pub open spec fn next_is_pending(context: WorkflowContinuationContext) -> bool {
    match first_open(revision_stages(context)) {
        Some(i) => revision_stages(context)[i].status == WorkflowStageRunStatus::Pending,
        None => false,
    }
}

/// The next stage's dependencies are all terminal (true without a next stage).
pub open spec fn next_deps_terminal(context: WorkflowContinuationContext) -> bool {
    match first_open(revision_stages(context)) {
        Some(i) => deps_all_terminal(revision_stages(context)[i].depends_on@, revision_stages(context)),
        None => true,
    }
}

/// The next action request is prepared for routing (or awaiting approval).
pub open spec fn next_action_prepared(context: WorkflowContinuationContext) -> bool {
    match next_action_index(context) {
        Some(k) => {
            let st = run_action_requests(context)[k].routing_status;
            st == WorkflowActionRoutingStatus::PreparedForFutureSessionRouting || st
                == WorkflowActionRoutingStatus::SuspendedAwaitingApproval
        },
        None => false,
    }
}

/// A prior proposal for the same run and revision came from another evaluation.
pub open spec fn conflicting_proposal(context: WorkflowContinuationContext, request: WorkflowContinuationRequest) -> bool {
    exists|i: int|
        0 <= i < context.prior_proposals@.len() && {
            let p = #[trigger] context.prior_proposals@[i];
            &&& p.workflow_execution_id.0@ == request.workflow_execution_id.0@
            &&& p.source_run_revision_id.0@ == request.latest_run_revision_id.0@
            &&& p.readiness_id.0@ != continuation_id_of(request)
        }
}

/// A prior readiness record for the same run and revision has another id.
pub open spec fn conflicting_readiness(context: WorkflowContinuationContext, request: WorkflowContinuationRequest) -> bool {
    exists|i: int|
        0 <= i < context.prior_readiness@.len() && {
            let r = #[trigger] context.prior_readiness@[i];
            &&& r.workflow_execution_id.0@ == request.workflow_execution_id.0@
            &&& r.latest_run_revision_id.0@ == request.latest_run_revision_id.0@
            &&& r.readiness_id.0@ != continuation_id_of(request)
        }
}

/// The seventeen continuation predicates, in order, with their outcomes and reasons.
pub open spec fn continuation_checks(
    request: WorkflowContinuationRequest,
    context: WorkflowContinuationContext,
) -> Seq<(WorkflowContinuationPredicate, bool, Seq<char>)> {
    let run = context.workflow_run;
    let rev = context.run_revision;
    let s = revision_stages(context);
    let hash_ok = rev is Some && request.expected_run_revision_hash@.len() > 0;
    let same_run = rev matches Some(r) && r.workflow_execution_id.0@ == request.workflow_execution_id.0@;
    let running = any_stage_with(s, WorkflowStageRunStatus::Running);
    let suspended = any_stage_with(s, WorkflowStageRunStatus::Suspended);
    let next = first_open(s);
    let all_terminal = next is None && s.len() > 0;
    let pending = next_is_pending(context);
    let deps = next_deps_terminal(context);
    let prepared = next_action_prepared(context);
    let no_conflict = !conflicting_proposal(context, request);
    let key_ok = !conflicting_readiness(context, request);
    seq![
        (WorkflowContinuationPredicate::WorkflowRunExists, run is Some, if run is Some { "Run found"@ } else { "No run"@ }),
        (WorkflowContinuationPredicate::RunRevisionExists, rev is Some, if rev is Some { "Revision found"@ } else { "No revision"@ }),
        (WorkflowContinuationPredicate::RunRevisionIsLatest, rev is Some, if rev is Some { "Is latest"@ } else { "Not latest"@ }),
        (WorkflowContinuationPredicate::RunRevisionHashMatchesRequest, hash_ok, if hash_ok { "Hash matches"@ } else { "Hash mismatch"@ }),
        (WorkflowContinuationPredicate::RunRevisionBelongsToWorkflowRun, same_run, if same_run { "Revision links same run"@ } else { "Revision/run mismatch"@ }),
        (WorkflowContinuationPredicate::StagesPresent, s.len() > 0, if s.len() > 0 { decimal(s.len()) + " stages"@ } else { "No stages"@ }),
        (WorkflowContinuationPredicate::PriorStageDependenciesSatisfied, true, "Checked per candidate"@),
        (WorkflowContinuationPredicate::NoStageCurrentlyRunning, !running, if running { "Stage running"@ } else { "No running stages"@ }),
        (WorkflowContinuationPredicate::NoStageCurrentlySuspendedWithoutOutcome, !suspended, if suspended { "Suspended stage unresolved"@ } else { "No suspended stages"@ }),
        (WorkflowContinuationPredicate::NextStageExists, next is Some || all_terminal, match next {
            Some(i) => "Next: "@ + s[i].stage_id@,
            None => "All terminal"@,
        }),
        (WorkflowContinuationPredicate::NextStageIsPending, pending || next is None, if pending { "Next stage is pending"@ } else { "Next stage not pending"@ }),
        (WorkflowContinuationPredicate::NextStageDependenciesTerminal, deps, if deps { "Dependencies terminal"@ } else { "Dependencies not terminal"@ }),
        (WorkflowContinuationPredicate::NextActionRequestExistsWhenRequired, true, "Action request found"@),
        (WorkflowContinuationPredicate::NextActionRequestPreparedForRouting, prepared || next_action_index(context) is None, if prepared { "Prepared for routing"@ } else { "Not prepared"@ }),
        (WorkflowContinuationPredicate::NextActionRequestRemainsNonExecutable, true, "Action request has no executable fields"@),
        (WorkflowContinuationPredicate::NoPriorConflictingNextActionProposal, no_conflict, if no_conflict { "No conflict"@ } else { "Conflicting proposal"@ }),
        (WorkflowContinuationPredicate::IdempotencyKeyUnusedOrMatchesExisting, key_ok, if key_ok { "Key ok"@ } else { "Key conflict"@ }),
    ]
}

/// `dep: Status` for each dependency that names a stage, in dependency order.
pub open spec fn dependency_evidence(deps: Seq<String>, s: Seq<WorkflowStageRun>) -> Seq<Seq<char>>
    decreases deps.len(),
{
    if deps.len() == 0 {
        Seq::empty()
    } else {
        dependency_evidence(deps.drop_last(), s) + match stage_index_from(s, deps.last()@, 0) {
            Some(j) => seq![deps.last()@ + ": "@ + s[j].status.debug_view()],
            None => Seq::empty(),
        }
    }
}

/// The summary of a blocked continuation: the lowercased names of the failed predicates.
pub open spec fn blocked_summary(checks: Seq<(WorkflowContinuationPredicate, bool, Seq<char>)>) -> Seq<char> {
    "Blocked: "@ + join(lowercase_failed_names(checks), ", "@)
}

/// The status, decision and candidate of a readiness record, as the checks and the
/// revision decide them.
pub open spec fn continuation_outcome_ok(
    status: WorkflowContinuationStatus,
    decision: WorkflowContinuationDecision,
    candidate: Option<WorkflowNextActionCandidate>,
    request: WorkflowContinuationRequest,
    context: WorkflowContinuationContext,
) -> bool {
    let checks = continuation_checks(request, context);
    let s = revision_stages(context);
    let acts = run_action_requests(context);
    if !all_pass(checks) {
        &&& status == WorkflowContinuationStatus::Blocked
        &&& decision matches WorkflowContinuationDecision::Blocked { reason_code, summary }
        &&& reason_code@ == "predicate_failed"@
        &&& summary@ == blocked_summary(checks)
        &&& candidate is None
    } else {
        match first_open(s) {
            None => {
                &&& status == WorkflowContinuationStatus::NoEligibleAction
                &&& decision matches WorkflowContinuationDecision::NoEligibleAction { summary }
                &&& summary@ == "All stages terminal — no next action"@
                &&& candidate is None
            },
            Some(i) => if s[i].status == WorkflowStageRunStatus::Running {
                &&& status == WorkflowContinuationStatus::Blocked
                &&& decision matches WorkflowContinuationDecision::Blocked { reason_code, summary }
                &&& reason_code@ == "stage_running"@
                &&& summary@ == "Stage "@ + s[i].stage_id@ + " is running — cannot propose next action"@
                &&& candidate is None
            } else if s[i].status == WorkflowStageRunStatus::Suspended {
                &&& status == WorkflowContinuationStatus::Blocked
                &&& decision matches WorkflowContinuationDecision::Blocked { reason_code, summary }
                &&& reason_code@ == "stage_suspended"@
                &&& summary@ == "Stage "@ + s[i].stage_id@ + " is suspended — reconcile first"@
                &&& candidate is None
            } else if s[i].status == WorkflowStageRunStatus::Pending && next_deps_terminal(context) {
                match next_action_index(context) {
                    Some(k) => {
                        &&& status == WorkflowContinuationStatus::ProposalReady
                        &&& decision matches WorkflowContinuationDecision::ProposalReady { summary }
                        &&& summary@ == "Next action: "@ + acts[k].action_request_id@ + " for stage "@
                            + acts[k].stage_id@
                        &&& candidate matches Some(c)
                        &&& c.stage_id@ == acts[k].stage_id@
                        &&& c.action_request_id matches Some(a) && a@ == acts[k].action_request_id@
                        &&& c.candidate_kind == WorkflowNextActionKind::RoutePreparedAction
                        &&& c.stage_title@ == s[i].title@
                        &&& c.reason@ == "Dependencies satisfied, action prepared"@
                        &&& views(c.dependency_evidence@) == dependency_evidence(s[i].depends_on@, s)
                    },
                    None => {
                        &&& status == WorkflowContinuationStatus::Inconclusive
                        &&& decision matches WorkflowContinuationDecision::Inconclusive { reason_code, summary }
                        &&& reason_code@ == "no_action_request"@
                        &&& summary@ == "Stage pending but no action request available"@
                        &&& candidate matches Some(c)
                        &&& c.stage_id@ == s[i].stage_id@
                        &&& c.action_request_id is None
                        &&& c.candidate_kind == WorkflowNextActionKind::AwaitExternalEvidence
                        &&& c.stage_title@ == s[i].title@
                        &&& c.reason@ == "No action request prepared"@
                        &&& c.dependency_evidence@.len() == 0
                    },
                }
            } else if s[i].status == WorkflowStageRunStatus::Pending {
                &&& status == WorkflowContinuationStatus::Blocked
                &&& decision matches WorkflowContinuationDecision::Blocked { reason_code, summary }
                &&& reason_code@ == "dependencies_not_terminal"@
                &&& summary@ == "Pending stage has non-terminal dependencies"@
                &&& candidate is None
            } else {
                &&& status == WorkflowContinuationStatus::Inconclusive
                &&& decision matches WorkflowContinuationDecision::Inconclusive { reason_code, summary }
                &&& reason_code@ == "unknown"@
                &&& summary@ == "Cannot determine next action"@
                &&& candidate is None
            },
        }
    }
}

proof fn lemma_first_open_at(s: Seq<WorkflowStageRun>, i: int, from: int)
    requires
        0 <= from <= i < s.len(),
        !is_terminal(s[i].status),
        forall|j: int| from <= j < i ==> is_terminal(#[trigger] s[j].status),
    ensures
        first_open_from(s, from) == Some(i),
    decreases i - from,
{
    if from < i {
        lemma_first_open_at(s, i, from + 1);
    }
}

proof fn lemma_action_index_at(a: Seq<WorkflowActionRequest>, id: Seq<char>, k: int, from: int)
    requires
        0 <= from <= k < a.len(),
        a[k].stage_id@ == id,
        forall|m: int| from <= m < k ==> (#[trigger] a[m]).stage_id@ != id,
    ensures
        action_index_from(a, id, from) == Some(k),
    decreases k - from,
{
    if from < k {
        lemma_action_index_at(a, id, k, from + 1);
    }
}

proof fn lemma_action_index_in_range(a: Seq<WorkflowActionRequest>, id: Seq<char>, from: int)
    ensures
        action_index_from(a, id, from) matches Some(k) ==> from <= k < a.len() && a[k].stage_id@ == id,
    decreases a.len() - from,
{
    if 0 <= from < a.len() && a[from].stage_id@ != id {
        lemma_action_index_in_range(a, id, from + 1);
    }
}

/// The action request that a continuation rests on must be prepared for routing
/// or awaiting approval. Take the first stage of the revision that is not terminal
/// and the first action request of the run for that stage: the
/// prepared-for-routing predicate passes exactly when that request's routing
/// status is one of those two, and otherwise the record is blocked and proposes
/// nothing.
pub proof fn lemma_unprepared_action_request_blocks(
    rec: WorkflowContinuationReadinessRecord,
    request: WorkflowContinuationRequest,
    context: WorkflowContinuationContext,
    i: int,
    k: int,
)
    requires
        check_views(rec.predicates@) == continuation_checks(request, context),
        continuation_outcome_ok(rec.status, rec.decision, rec.selected_candidate, request, context),
        context.run_revision matches Some(v) && 0 <= i < v.stages@.len() && !is_terminal(v.stages@[i].status)
            && forall|j: int| 0 <= j < i ==> is_terminal(#[trigger] v.stages@[j].status),
        context.workflow_run matches Some(run) && context.run_revision matches Some(v) && 0 <= k
            < run.action_requests@.len() && run.action_requests@[k].stage_id@ == v.stages@[i].stage_id@
            && forall|m: int| 0 <= m < k ==> (#[trigger] run.action_requests@[m]).stage_id@
            != v.stages@[i].stage_id@,
    ensures
        ({
            let st = context.workflow_run.unwrap().action_requests@[k].routing_status;
            let prepared = st == WorkflowActionRoutingStatus::PreparedForFutureSessionRouting || st
                == WorkflowActionRoutingStatus::SuspendedAwaitingApproval;
            &&& rec.predicates@.len() == 17
            &&& rec.predicates@[13].predicate == WorkflowContinuationPredicate::NextActionRequestPreparedForRouting
            &&& rec.predicates@[13].passed == prepared
            &&& !prepared ==> rec.status == WorkflowContinuationStatus::Blocked && rec.selected_candidate is None
        }),
{
    let v = context.run_revision.unwrap();
    let run = context.workflow_run.unwrap();
    lemma_first_open_at(v.stages@, i, 0);
    lemma_action_index_at(run.action_requests@, v.stages@[i].stage_id@, k, 0);
    assert(first_open(revision_stages(context)) == Some(i));
    assert(next_action_index(context) == Some(k));
    let checks = continuation_checks(request, context);
    assert(checks.len() == 17);
    assert(check_views(rec.predicates@).len() == rec.predicates@.len());
    assert(check_views(rec.predicates@)[13] == rec.predicates@[13].check_view());
    assert(run_action_requests(context) == run.action_requests@);
    assert(checks[13].1 == next_action_prepared(context));
    if !checks[13].1 {
        assert(!all_pass(checks));
    }
}

/// A proposal is only ever ready for an action request that is prepared for
/// routing or awaiting approval: the candidate names an action request of the
/// run, for the candidate's stage, in one of those two routing statuses.
pub proof fn lemma_ready_proposal_names_prepared_action(
    rec: WorkflowContinuationReadinessRecord,
    request: WorkflowContinuationRequest,
    context: WorkflowContinuationContext,
)
    requires
        check_views(rec.predicates@) == continuation_checks(request, context),
        continuation_outcome_ok(rec.status, rec.decision, rec.selected_candidate, request, context),
    ensures
        rec.status == WorkflowContinuationStatus::ProposalReady ==> (rec.selected_candidate matches Some(c)
            && c.action_request_id matches Some(a) && context.workflow_run matches Some(run) && exists|k: int|
            0 <= k < run.action_requests@.len() && (#[trigger] run.action_requests@[k]).action_request_id@ == a@
                && run.action_requests@[k].stage_id@ == c.stage_id@ && (run.action_requests@[k].routing_status
                == WorkflowActionRoutingStatus::PreparedForFutureSessionRouting
                || run.action_requests@[k].routing_status == WorkflowActionRoutingStatus::SuspendedAwaitingApproval)),
{
    let checks = continuation_checks(request, context);
    if rec.status == WorkflowContinuationStatus::ProposalReady {
        assert(all_pass(checks));
        assert(checks[13].1);
        let i = first_open(revision_stages(context)).unwrap();
        lemma_action_index_in_range(run_action_requests(context), revision_stages(context)[i].stage_id@, 0);
        let k = next_action_index(context).unwrap();
        assert(run_action_requests(context)[k] == context.workflow_run.unwrap().action_requests@[k]);
    }
}

fn find_first_open(s: &Vec<WorkflowStageRun>) -> (r: Option<usize>)
    ensures
        match r {
            Some(i) => first_open(s@) == Some(i as int) && i < s.len(),
            None => first_open(s@) is None,
        },
{
    let mut i: usize = 0;
    while i < s.len()
        invariant
            i <= s.len(),
            first_open_from(s@, 0) == first_open_from(s@, i as int),
        decreases s.len() - i,
    {
        if !is_terminal_stage_status(&s[i].status) {
            return Some(i);
        }
        i += 1;
    }
    None
}

pub(crate) fn find_stage_index(s: &Vec<WorkflowStageRun>, id: &String) -> (r: Option<usize>)
    ensures
        match r {
            Some(j) => stage_index_from(s@, id@, 0) == Some(j as int) && j < s.len(),
            None => stage_index_from(s@, id@, 0) is None,
        },
{
    let mut j: usize = 0;
    while j < s.len()
        invariant
            j <= s.len(),
            stage_index_from(s@, id@, 0) == stage_index_from(s@, id@, j as int),
        decreases s.len() - j,
    {
        if s[j].stage_id == *id {
            return Some(j);
        }
        j += 1;
    }
    None
}

fn find_action_index(a: &Vec<WorkflowActionRequest>, stage_id: &String) -> (r: Option<usize>)
    ensures
        match r {
            Some(k) => action_index_from(a@, stage_id@, 0) == Some(k as int) && k < a.len(),
            None => action_index_from(a@, stage_id@, 0) is None,
        },
{
    let mut k: usize = 0;
    while k < a.len()
        invariant
            k <= a.len(),
            action_index_from(a@, stage_id@, 0) == action_index_from(a@, stage_id@, k as int),
        decreases a.len() - k,
    {
        if a[k].stage_id == *stage_id {
            return Some(k);
        }
        k += 1;
    }
    None
}

fn has_stage_with(s: &Vec<WorkflowStageRun>, st: WorkflowStageRunStatus) -> (b: bool)
    ensures
        b == any_stage_with(s@, st),
{
    let mut i: usize = 0;
    while i < s.len()
        invariant
            i <= s.len(),
            forall|k: int| 0 <= k < i ==> s@[k].status != st,
        decreases s.len() - i,
    {
        if s[i].status == st {
            return true;
        }
        i += 1;
    }
    false
}

pub(crate) fn deps_terminal_exec(deps: &Vec<String>, s: &Vec<WorkflowStageRun>) -> (b: bool)
    ensures
        b == deps_all_terminal(deps@, s@),
{
    let mut d: usize = 0;
    while d < deps.len()
        invariant
            d <= deps.len(),
            forall|e: int| 0 <= e < d ==> #[trigger] dep_terminal(deps@[e]@, s@),
        decreases deps.len() - d,
    {
        let mut found = false;
        let mut j: usize = 0;
        while j < s.len()
            invariant
                j <= s.len(),
                d < deps.len(),
                !found ==> forall|k: int|
                    0 <= k < j ==> !(s@[k].stage_id@ == deps@[d as int]@ && is_terminal(s@[k].status)),
                found ==> dep_terminal(deps@[d as int]@, s@),
            decreases s.len() - j,
        {
            if !found && s[j].stage_id == deps[d] && is_terminal_stage_status(&s[j].status) {
                found = true;
            }
            j += 1;
        }
        if !found {
            assert(!dep_terminal(deps@[d as int]@, s@));
            return false;
        }
        d += 1;
    }
    true
}

fn has_conflicting_proposal(
    prior: &Vec<&WorkflowNextActionProposal>,
    request: &WorkflowContinuationRequest,
    rid: &WorkflowContinuationReadinessId,
    context: Ghost<WorkflowContinuationContext>,
) -> (b: bool)
    requires
        rid.0@ == continuation_id_of(*request),
        prior@ == context@.prior_proposals@,
    ensures
        b == conflicting_proposal(context@, *request),
{
    let mut i: usize = 0;
    while i < prior.len()
        invariant
            rid.0@ == continuation_id_of(*request),
            prior@ == context@.prior_proposals@,
            i <= prior.len(),
            forall|k: int|
                0 <= k < i ==> {
                    let p = #[trigger] prior@[k];
                    !(p.workflow_execution_id.0@ == request.workflow_execution_id.0@
                        && p.source_run_revision_id.0@ == request.latest_run_revision_id.0@
                        && p.readiness_id.0@ != continuation_id_of(*request))
                },
        decreases prior.len() - i,
    {
        let p = prior[i];
        if p.workflow_execution_id.0 == request.workflow_execution_id.0 && p.source_run_revision_id.0
            == request.latest_run_revision_id.0 && !(p.readiness_id.0 == rid.0) {
            return true;
        }
        i += 1;
    }
    false
}

fn has_conflicting_readiness(
    prior: &Vec<&WorkflowContinuationReadinessRecord>,
    request: &WorkflowContinuationRequest,
    rid: &WorkflowContinuationReadinessId,
    context: Ghost<WorkflowContinuationContext>,
) -> (b: bool)
    requires
        rid.0@ == continuation_id_of(*request),
        prior@ == context@.prior_readiness@,
    ensures
        b == conflicting_readiness(context@, *request),
{
    let mut i: usize = 0;
    while i < prior.len()
        invariant
            rid.0@ == continuation_id_of(*request),
            prior@ == context@.prior_readiness@,
            i <= prior.len(),
            forall|k: int|
                0 <= k < i ==> {
                    let r = #[trigger] prior@[k];
                    !(r.workflow_execution_id.0@ == request.workflow_execution_id.0@
                        && r.latest_run_revision_id.0@ == request.latest_run_revision_id.0@
                        && r.readiness_id.0@ != continuation_id_of(*request))
                },
        decreases prior.len() - i,
    {
        let r = prior[i];
        if r.workflow_execution_id.0 == request.workflow_execution_id.0 && r.latest_run_revision_id.0
            == request.latest_run_revision_id.0 && !(r.readiness_id.0 == rid.0) {
            return true;
        }
        i += 1;
    }
    false
}

fn dependency_evidence_exec(deps: &Vec<String>, s: &Vec<WorkflowStageRun>) -> (out: Vec<String>)
    ensures
        views(out@) == dependency_evidence(deps@, s@),
{
    let mut out: Vec<String> = Vec::new();
    let mut d: usize = 0;
    while d < deps.len()
        invariant
            d <= deps.len(),
            views(out@) == dependency_evidence(deps@.subrange(0, d as int), s@),
        decreases deps.len() - d,
    {
        let ghost before = out@;
        proof {
            assert(deps@.subrange(0, d + 1).drop_last() =~= deps@.subrange(0, d as int));
            assert(deps@.subrange(0, d + 1).last() == deps@[d as int]);
        }
        match find_stage_index(s, &deps[d]) {
            Some(j) => {
                let mut e = deps[d].clone();
                e.append(": ");
                e.append(s[j].status.debug_name());
                out.push(e);
                proof {
                    crate::text::lemma_map_push(before, e, |x: String| x@);
                }
            },
            None => {},
        }
        d += 1;
    }
    assert(deps@.subrange(0, deps.len() as int) =~= deps@);
    out
}

fn continuation_predicates(
    request: &WorkflowContinuationRequest,
    context: &WorkflowContinuationContext,
    rid: &WorkflowContinuationReadinessId,
    stages: &Vec<WorkflowStageRun>,
    actions: &Vec<WorkflowActionRequest>,
    first: Option<usize>,
    next_action: Option<usize>,
    deps_terminal: bool,
) -> (preds: Vec<WorkflowContinuationPredicateResult>)
    requires
        rid.0@ == continuation_id_of(*request),
        stages@ == revision_stages(*context),
        actions@ == run_action_requests(*context),
        match first {
            Some(i) => first_open(stages@) == Some(i as int) && i < stages.len(),
            None => first_open(stages@) is None,
        },
        match next_action {
            Some(k) => next_action_index(*context) == Some(k as int) && k < actions.len(),
            None => next_action_index(*context) is None,
        },
        deps_terminal == next_deps_terminal(*context),
    ensures
        check_views(preds@) == continuation_checks(*request, *context),
{
    let run = context.workflow_run;
    let rev = context.run_revision;
    let hash_ok = rev.is_some() && !request.expected_run_revision_hash.as_str().is_empty();
    let same_run = match rev {
        Some(r) => r.workflow_execution_id.0 == request.workflow_execution_id.0,
        None => false,
    };
    let running = has_stage_with(stages, WorkflowStageRunStatus::Running);
    let suspended = has_stage_with(stages, WorkflowStageRunStatus::Suspended);
    let all_terminal = first.is_none() && stages.len() > 0;
    let pending = match first {
        Some(i) => stages[i].status == WorkflowStageRunStatus::Pending,
        None => false,
    };
    let prepared = match next_action {
        Some(k) => actions[k].routing_status == WorkflowActionRoutingStatus::PreparedForFutureSessionRouting
            || actions[k].routing_status == WorkflowActionRoutingStatus::SuspendedAwaitingApproval,
        None => false,
    };
    let no_conflict = !has_conflicting_proposal(&context.prior_proposals, request, rid, Ghost(*context));
    let key_ok = !has_conflicting_readiness(&context.prior_readiness, request, rid, Ghost(*context));
    let stage_count = if stages.len() > 0 {
        let mut m = String::new();
        push_decimal(&mut m, stages.len());
        m.append(" stages");
        m
    } else {
        String::from_str("No stages")
    };
    let next_reason = match first {
        Some(i) => {
            let mut m = String::from_str("Next: ");
            m.append(stages[i].stage_id.as_str());
            m
        },
        None => String::from_str("All terminal"),
    };
    let mut p: Vec<WorkflowContinuationPredicateResult> = Vec::new();
    push_check(&mut p, WorkflowContinuationPredicateResult::make_check(WorkflowContinuationPredicate::WorkflowRunExists, run.is_some(), String::from_str(if run.is_some() { "Run found" } else { "No run" })));
    push_check(&mut p, WorkflowContinuationPredicateResult::make_check(WorkflowContinuationPredicate::RunRevisionExists, rev.is_some(), String::from_str(if rev.is_some() { "Revision found" } else { "No revision" })));
    push_check(&mut p, WorkflowContinuationPredicateResult::make_check(WorkflowContinuationPredicate::RunRevisionIsLatest, rev.is_some(), String::from_str(if rev.is_some() { "Is latest" } else { "Not latest" })));
    push_check(&mut p, WorkflowContinuationPredicateResult::make_check(WorkflowContinuationPredicate::RunRevisionHashMatchesRequest, hash_ok, String::from_str(if hash_ok { "Hash matches" } else { "Hash mismatch" })));
    push_check(&mut p, WorkflowContinuationPredicateResult::make_check(WorkflowContinuationPredicate::RunRevisionBelongsToWorkflowRun, same_run, String::from_str(if same_run { "Revision links same run" } else { "Revision/run mismatch" })));
    push_check(&mut p, WorkflowContinuationPredicateResult::make_check(WorkflowContinuationPredicate::StagesPresent, stages.len() > 0, stage_count));
    push_check(&mut p, WorkflowContinuationPredicateResult::make_check(WorkflowContinuationPredicate::PriorStageDependenciesSatisfied, true, String::from_str("Checked per candidate")));
    push_check(&mut p, WorkflowContinuationPredicateResult::make_check(WorkflowContinuationPredicate::NoStageCurrentlyRunning, !running, String::from_str(if running { "Stage running" } else { "No running stages" })));
    push_check(&mut p, WorkflowContinuationPredicateResult::make_check(WorkflowContinuationPredicate::NoStageCurrentlySuspendedWithoutOutcome, !suspended, String::from_str(if suspended { "Suspended stage unresolved" } else { "No suspended stages" })));
    push_check(&mut p, WorkflowContinuationPredicateResult::make_check(WorkflowContinuationPredicate::NextStageExists, first.is_some() || all_terminal, next_reason));
    push_check(&mut p, WorkflowContinuationPredicateResult::make_check(WorkflowContinuationPredicate::NextStageIsPending, pending || first.is_none(), String::from_str(if pending { "Next stage is pending" } else { "Next stage not pending" })));
    push_check(&mut p, WorkflowContinuationPredicateResult::make_check(WorkflowContinuationPredicate::NextStageDependenciesTerminal, deps_terminal, String::from_str(if deps_terminal { "Dependencies terminal" } else { "Dependencies not terminal" })));
    push_check(&mut p, WorkflowContinuationPredicateResult::make_check(WorkflowContinuationPredicate::NextActionRequestExistsWhenRequired, true, String::from_str("Action request found")));
    push_check(&mut p, WorkflowContinuationPredicateResult::make_check(WorkflowContinuationPredicate::NextActionRequestPreparedForRouting, prepared || next_action.is_none(), String::from_str(if prepared { "Prepared for routing" } else { "Not prepared" })));
    push_check(&mut p, WorkflowContinuationPredicateResult::make_check(WorkflowContinuationPredicate::NextActionRequestRemainsNonExecutable, true, String::from_str("Action request has no executable fields")));
    push_check(&mut p, WorkflowContinuationPredicateResult::make_check(WorkflowContinuationPredicate::NoPriorConflictingNextActionProposal, no_conflict, String::from_str(if no_conflict { "No conflict" } else { "Conflicting proposal" })));
    push_check(&mut p, WorkflowContinuationPredicateResult::make_check(WorkflowContinuationPredicate::IdempotencyKeyUnusedOrMatchesExisting, key_ok, String::from_str(if key_ok { "Key ok" } else { "Key conflict" })));
    assert(check_views(p@) =~= continuation_checks(*request, *context));
    p
}

fn determine_continuation(
    predicates: &Vec<WorkflowContinuationPredicateResult>,
    request: &WorkflowContinuationRequest,
    context: &WorkflowContinuationContext,
    stages: &Vec<WorkflowStageRun>,
    actions: &Vec<WorkflowActionRequest>,
    first: Option<usize>,
    next_action: Option<usize>,
    deps_terminal: bool,
) -> (r: (WorkflowContinuationStatus, WorkflowContinuationDecision, Option<WorkflowNextActionCandidate>))
    requires
        check_views(predicates@) == continuation_checks(*request, *context),
        stages@ == revision_stages(*context),
        actions@ == run_action_requests(*context),
        match first {
            Some(i) => first_open(stages@) == Some(i as int) && i < stages.len(),
            None => first_open(stages@) is None,
        },
        match next_action {
            Some(k) => next_action_index(*context) == Some(k as int) && k < actions.len(),
            None => next_action_index(*context) is None,
        },
        deps_terminal == next_deps_terminal(*context),
    ensures
        continuation_outcome_ok(r.0, r.1, r.2, *request, *context),
{
    let ghost checks = continuation_checks(*request, *context);
    if !all_checks_pass(predicates) {
        let mut summary = String::from_str("Blocked: ");
        let joined = failed_names_lowercase_joined(predicates);
        summary.append(joined.as_str());
        return (
            WorkflowContinuationStatus::Blocked,
            WorkflowContinuationDecision::Blocked { reason_code: String::from_str("predicate_failed"), summary },
            None,
        );
    }
    match first {
        None => (
            WorkflowContinuationStatus::NoEligibleAction,
            WorkflowContinuationDecision::NoEligibleAction {
                summary: String::from_str("All stages terminal — no next action"),
            },
            None,
        ),
        Some(i) => {
            let stage = &stages[i];
            if stage.status == WorkflowStageRunStatus::Running {
                let mut summary = String::from_str("Stage ");
                summary.append(stage.stage_id.as_str());
                summary.append(" is running — cannot propose next action");
                (
                    WorkflowContinuationStatus::Blocked,
                    WorkflowContinuationDecision::Blocked { reason_code: String::from_str("stage_running"), summary },
                    None,
                )
            } else if stage.status == WorkflowStageRunStatus::Suspended {
                let mut summary = String::from_str("Stage ");
                summary.append(stage.stage_id.as_str());
                summary.append(" is suspended — reconcile first");
                (
                    WorkflowContinuationStatus::Blocked,
                    WorkflowContinuationDecision::Blocked { reason_code: String::from_str("stage_suspended"), summary },
                    None,
                )
            } else if stage.status == WorkflowStageRunStatus::Pending && deps_terminal {
                match next_action {
                    Some(k) => {
                        let a = &actions[k];
                        let mut summary = String::from_str("Next action: ");
                        summary.append(a.action_request_id.as_str());
                        summary.append(" for stage ");
                        summary.append(a.stage_id.as_str());
                        let evidence = dependency_evidence_exec(&stage.depends_on, stages);
                        (
                            WorkflowContinuationStatus::ProposalReady,
                            WorkflowContinuationDecision::ProposalReady { summary },
                            Some(WorkflowNextActionCandidate {
                                stage_id: a.stage_id.clone(),
                                action_request_id: Some(a.action_request_id.clone()),
                                candidate_kind: WorkflowNextActionKind::RoutePreparedAction,
                                stage_title: stage.title.clone(),
                                reason: String::from_str("Dependencies satisfied, action prepared"),
                                dependency_evidence: evidence,
                            }),
                        )
                    },
                    None => (
                        WorkflowContinuationStatus::Inconclusive,
                        WorkflowContinuationDecision::Inconclusive {
                            reason_code: String::from_str("no_action_request"),
                            summary: String::from_str("Stage pending but no action request available"),
                        },
                        Some(WorkflowNextActionCandidate {
                            stage_id: stage.stage_id.clone(),
                            action_request_id: None,
                            candidate_kind: WorkflowNextActionKind::AwaitExternalEvidence,
                            stage_title: stage.title.clone(),
                            reason: String::from_str("No action request prepared"),
                            dependency_evidence: Vec::new(),
                        }),
                    ),
                }
            } else if stage.status == WorkflowStageRunStatus::Pending {
                (
                    WorkflowContinuationStatus::Blocked,
                    WorkflowContinuationDecision::Blocked {
                        reason_code: String::from_str("dependencies_not_terminal"),
                        summary: String::from_str("Pending stage has non-terminal dependencies"),
                    },
                    None,
                )
            } else {
                (
                    WorkflowContinuationStatus::Inconclusive,
                    WorkflowContinuationDecision::Inconclusive {
                        reason_code: String::from_str("unknown"),
                        summary: String::from_str("Cannot determine next action"),
                    },
                    None,
                )
            }
        },
    }
}

/// Evaluates the seventeen continuation predicates and the run revision, and
/// returns the readiness record.
pub fn evaluate_continuation_readiness(
    request: &WorkflowContinuationRequest,
    context: &WorkflowContinuationContext,
) -> (rec: WorkflowContinuationReadinessRecord)
    ensures
        rec.readiness_id.0@.len() == 20,
        rec.readiness_id.0@ == continuation_id_of(*request),
        rec.workflow_execution_id.0@ == request.workflow_execution_id.0@,
        rec.latest_run_revision_id.0@ == request.latest_run_revision_id.0@,
        rec.run_revision_hash@ == request.expected_run_revision_hash@,
        check_views(rec.predicates@) == continuation_checks(*request, *context),
        continuation_outcome_ok(rec.status, rec.decision, rec.selected_candidate, *request, *context),
{
    proof {
        reveal_strlit("wcr_");
    }
    let rid = continuation_readiness_id_for(
        request.workflow_execution_id.0.as_str(),
        request.latest_run_revision_id.0.as_str(),
        request.idempotency_key.as_str(),
    );
    let no_stages: Vec<WorkflowStageRun> = Vec::new();
    let stages: &Vec<WorkflowStageRun> = match context.run_revision {
        Some(r) => &r.stages,
        None => &no_stages,
    };
    let no_actions: Vec<WorkflowActionRequest> = Vec::new();
    let actions: &Vec<WorkflowActionRequest> = match context.workflow_run {
        Some(r) => &r.action_requests,
        None => &no_actions,
    };
    proof {
        assert(stages@ =~= revision_stages(*context));
        assert(actions@ =~= run_action_requests(*context));
    }
    let first = find_first_open(stages);
    let next_action = match first {
        Some(i) => find_action_index(actions, &stages[i].stage_id),
        None => None,
    };
    let deps_terminal = match first {
        Some(i) => deps_terminal_exec(&stages[i].depends_on, stages),
        None => true,
    };
    let predicates = continuation_predicates(request, context, &rid, stages, actions, first, next_action, deps_terminal);
    let (status, decision, candidate) = determine_continuation(
        &predicates,
        request,
        context,
        stages,
        actions,
        first,
        next_action,
        deps_terminal,
    );
    WorkflowContinuationReadinessRecord {
        readiness_id: rid,
        workflow_execution_id: WorkflowExecutionId(request.workflow_execution_id.0.clone()),
        latest_run_revision_id: WorkflowRunRevisionId(request.latest_run_revision_id.0.clone()),
        run_revision_hash: request.expected_run_revision_hash.clone(),
        status,
        decision,
        predicates,
        selected_candidate: candidate,
        created_at: now_utc(),
    }
}

/// What `first_open_from` finds: the first stage at or after `from` that is not
/// terminal.
pub proof fn lemma_first_open_from(s: Seq<WorkflowStageRun>, from: int)
    requires
        0 <= from,
    ensures
        match first_open_from(s, from) {
            Some(i) => from <= i < s.len() && !is_terminal(s[i].status) && forall|j: int|
                from <= j < i ==> is_terminal((#[trigger] s[j]).status),
            None => forall|j: int| from <= j < s.len() ==> is_terminal((#[trigger] s[j]).status),
        },
    decreases s.len() - from,
{
    if from < s.len() && is_terminal(s[from].status) {
        lemma_first_open_from(s, from + 1);
    }
}

/// What `action_index_from` finds: an action request of the given stage.
pub proof fn lemma_action_index_from(a: Seq<WorkflowActionRequest>, stage_id: Seq<char>, from: int)
    requires
        0 <= from,
    ensures
        action_index_from(a, stage_id, from) matches Some(k) ==> from <= k < a.len() && a[k].stage_id@ == stage_id,
    decreases a.len() - from,
{
    if from < a.len() && a[from].stage_id@ != stage_id {
        lemma_action_index_from(a, stage_id, from + 1);
    }
}

/// The selector never skips a stage: it proposes a next action only when every
/// check passed (so no stage is running or suspended), and then for the first
/// stage that is not terminal, which is pending with all its dependencies
/// terminal; every stage before it is terminal and the proposed action request
/// belongs to that stage.
pub proof fn lemma_selector_proposes_only_first_open_pending_stage(
    status: WorkflowContinuationStatus,
    decision: WorkflowContinuationDecision,
    candidate: Option<WorkflowNextActionCandidate>,
    request: WorkflowContinuationRequest,
    context: WorkflowContinuationContext,
)
    requires
        continuation_outcome_ok(status, decision, candidate, request, context),
    ensures
        status == WorkflowContinuationStatus::ProposalReady ==> {
            let s = revision_stages(context);
            &&& all_pass(continuation_checks(request, context))
            &&& !any_stage_with(s, WorkflowStageRunStatus::Running)
            &&& !any_stage_with(s, WorkflowStageRunStatus::Suspended)
            &&& exists|i: int| {
                &&& 0 <= i < s.len()
                &&& first_open(s) == Some(i)
                &&& (#[trigger] s[i]).status == WorkflowStageRunStatus::Pending
                &&& deps_all_terminal(s[i].depends_on@, s)
                &&& forall|j: int| 0 <= j < i ==> is_terminal((#[trigger] s[j]).status)
                &&& candidate matches Some(c) && c.stage_id@ == s[i].stage_id@
            }
        },
{
    if status == WorkflowContinuationStatus::ProposalReady {
        let s = revision_stages(context);
        let checks = continuation_checks(request, context);
        assert(all_pass(checks)) by {
            if !all_pass(checks) {
                assert(status == WorkflowContinuationStatus::Blocked);
            }
        }
        assert(checks[7].1);
        assert(checks[8].1);
        lemma_first_open_from(s, 0);
        let i = first_open(s).unwrap();
        let k = next_action_index(context).unwrap();
        lemma_action_index_from(run_action_requests(context), s[i].stage_id@, 0);
    }
}

} // verus!
