//! Manual-result reconciliation gate evaluation.
//!
//! Evaluates the twenty-five gate predicates. The readiness preview, not the raw
//! reported status, decides how the stage moves. The outcome is reconciled or
//! blocked; an already-reconciled outcome is set by the persistence layer.
use vstd::prelude::*;
use crate::gate::{
    all_checks_pass, all_pass, build_checks, check_views, checks_from, failed_check_reasons, failed_reasons, table_view,
    CheckResult,
};
use crate::ids::{text_digest_id16, text_id16};
use crate::outside::{now_utc, Timestamp};
use crate::text::{decimal, int_text, join, join_strings, push_decimal, push_i128_decimal};
use crate::workflow_command_composer::WorkflowCommandComposerId;
use crate::workflow_command_review::WorkflowCommandReviewId;
use crate::workflow_loop_controller::WorkflowLoopControllerId;
use crate::workflow_manual_result::{WorkflowManualResult, WorkflowManualResultId, WorkflowManualResultStatus};
use crate::workflow_manual_result_reconciliation_gate::{
    actionable, compute_manual_result_stage_progression, is_actionable_preview, progression_ok,
    ManualResultStageProgression, WorkflowManualResultReconciliationGateDecision, WorkflowManualResultReconciliationGateId,
    WorkflowManualResultReconciliationGatePredicate, WorkflowManualResultReconciliationGatePredicateResult,
    WorkflowManualResultReconciliationGateRecord, WorkflowManualResultReconciliationGateRequest,
    WorkflowManualResultReconciliationGateStatus,
};
use crate::workflow_manual_result_reconciliation_gate_validation::{gate_id_for, gate_preimage};
use crate::workflow_manual_result_reconciliation_readiness::{
    WorkflowManualResultReconciliationPreview, WorkflowManualResultReconciliationReadinessId,
    WorkflowManualResultReconciliationReadinessRecord, WorkflowManualResultReconciliationReadinessStatus,
};
use crate::workflow_manual_result_review::{WorkflowManualResultReview, WorkflowManualResultReviewDecision, WorkflowManualResultReviewId};
use crate::workflow_next_action_selector::{find_stage_index, lemma_stage_index_from, stage_index_from};
use crate::workflow_reconciliation::{run_revision_id_for, run_revision_preimage, WorkflowRunRevisionId};
use crate::workflow_run::{WorkflowExecutionId, WorkflowRunRecord, WorkflowStageRun, WorkflowStageRunStatus};

verus! {

/// Evidence for a gate evaluation, with the latest review and readiness of the
/// same manual result for revalidation.
#[derive(Debug, Clone)]
pub struct WorkflowManualResultReconciliationGateContext<'a> {
    pub workflow_run: Option<&'a WorkflowRunRecord>,
    pub manual_result: Option<&'a WorkflowManualResult>,
    pub manual_result_review: Option<&'a WorkflowManualResultReview>,
    pub reconciliation_readiness: Option<&'a WorkflowManualResultReconciliationReadinessRecord>,
    pub latest_manual_result_review: Option<&'a WorkflowManualResultReview>,
    pub latest_reconciliation_readiness: Option<&'a WorkflowManualResultReconciliationReadinessRecord>,
    pub prior_gates: Vec<WorkflowManualResultReconciliationGateRecord>,
}

/// The id a gate request names.
pub open spec fn gate_id_of(request: WorkflowManualResultReconciliationGateRequest) -> Seq<char> {
    text_id16(
        "wmrrg_"@,
        gate_preimage(
            request.workflow_execution_id.0@,
            request.manual_result_id.0@,
            request.manual_result_review_id.0@,
            request.reconciliation_readiness_id.0@,
            request.stage_id@,
            request.idempotency_key@,
        ),
    )
}

/// The stages of the run (none without a run).
pub open spec fn gate_stages(context: WorkflowManualResultReconciliationGateContext) -> Seq<WorkflowStageRun> {
    match context.workflow_run {
        Some(r) => r.stages@,
        None => Seq::empty(),
    }
}

/// Index of the requested stage in the run.
pub open spec fn gate_stage_index(request: WorkflowManualResultReconciliationGateRequest, context: WorkflowManualResultReconciliationGateContext) -> Option<int> {
    match context.workflow_run {
        Some(r) => stage_index_from(r.stages@, request.stage_id@, 0),
        None => None,
    }
}

/// The readiness record's preview.
pub open spec fn gate_preview(context: WorkflowManualResultReconciliationGateContext) -> Option<WorkflowManualResultReconciliationPreview> {
    match context.reconciliation_readiness {
        Some(r) => r.reconciliation_preview,
        None => None,
    }
}

/// The reported status is one the preview could have come from.
pub open spec fn status_matches_preview(s: WorkflowManualResultStatus, p: WorkflowManualResultReconciliationPreview) -> bool {
    match (s, p) {
        (WorkflowManualResultStatus::ReportedSucceeded, WorkflowManualResultReconciliationPreview::CompleteStageFromReportedSuccess) => true,
        (WorkflowManualResultStatus::ReportedFailed, WorkflowManualResultReconciliationPreview::FailStageFromReportedFailure) => true,
        (WorkflowManualResultStatus::ReportedFailed, WorkflowManualResultReconciliationPreview::BlockStageFromReportedFailure) => true,
        (WorkflowManualResultStatus::ReportedPartial, WorkflowManualResultReconciliationPreview::PartialResultRequiresReview) => true,
        (WorkflowManualResultStatus::NotPerformed, WorkflowManualResultReconciliationPreview::NotPerformedBlocksReconciliation) => true,
        (WorkflowManualResultStatus::Inconclusive, WorkflowManualResultReconciliationPreview::InconclusiveBlocksReconciliation) => true,
        _ => false,
    }
}

/// A prior gate with another id reconciled the same manual result and stage.
pub open spec fn conflicting_gate(prior: Seq<WorkflowManualResultReconciliationGateRecord>, request: WorkflowManualResultReconciliationGateRequest) -> bool {
    exists|i: int|
        0 <= i < prior.len() && (#[trigger] prior[i]).manual_result_id.0@ == request.manual_result_id.0@
            && prior[i].stage_id@ == request.stage_id@ && prior[i].status
            == WorkflowManualResultReconciliationGateStatus::Reconciled && prior[i].gate_id.0@ != gate_id_of(request)
}

/// A prior gate with another id has the same run, result, readiness and stage.
pub open spec fn idempotency_conflict(prior: Seq<WorkflowManualResultReconciliationGateRecord>, request: WorkflowManualResultReconciliationGateRequest) -> bool {
    exists|i: int|
        0 <= i < prior.len() && (#[trigger] prior[i]).workflow_execution_id.0@ == request.workflow_execution_id.0@
            && prior[i].manual_result_id.0@ == request.manual_result_id.0@
            && prior[i].reconciliation_readiness_id.0@ == request.reconciliation_readiness_id.0@
            && prior[i].stage_id@ == request.stage_id@ && prior[i].gate_id.0@ != gate_id_of(request)
}

/// The reconciliation gate predicates in order, each with its reason when passing and when failing.
pub open spec fn gate_table() -> Seq<(WorkflowManualResultReconciliationGatePredicate, Seq<char>, Seq<char>)> {
    seq![
        (WorkflowManualResultReconciliationGatePredicate::WorkflowRunExists, "Found"@, "Missing"@),
        (WorkflowManualResultReconciliationGatePredicate::WorkflowRunHashMatchesRequest, "Hash provided"@, "Missing hash"@),
        (WorkflowManualResultReconciliationGatePredicate::ManualResultExists, "Found"@, "Missing"@),
        (WorkflowManualResultReconciliationGatePredicate::ManualResultHashMatchesRequest, "Hash provided"@, "Missing hash"@),
        (WorkflowManualResultReconciliationGatePredicate::ManualResultReviewExists, "Found"@, "Missing"@),
        (WorkflowManualResultReconciliationGatePredicate::ManualResultReviewHashMatchesRequest, "Hash provided"@, "Missing hash"@),
        (WorkflowManualResultReconciliationGatePredicate::ReconciliationReadinessRecordExists, "Found"@, "Missing"@),
        (WorkflowManualResultReconciliationGatePredicate::ReconciliationReadinessHashMatchesRequest, "Hash provided"@, "Missing hash"@),
        (WorkflowManualResultReconciliationGatePredicate::ReconciliationReadinessStatusIsReady, "Ready"@, "Not ready"@),
        (WorkflowManualResultReconciliationGatePredicate::ReviewDecisionIsAccepted, "Accepted"@, "Not accepted"@),
        (WorkflowManualResultReconciliationGatePredicate::ManualResultWasReportedByOperator, "Reported"@, "Not reported"@),
        (WorkflowManualResultReconciliationGatePredicate::StageExists, "Found"@, "Missing"@),
        (WorkflowManualResultReconciliationGatePredicate::CommandReviewHashMatchesReadiness, "Match"@, "Mismatch"@),
        (WorkflowManualResultReconciliationGatePredicate::CommandComposerHashMatchesReadiness, "Match"@, "Mismatch"@),
        (WorkflowManualResultReconciliationGatePredicate::CommandDescriptorHashMatchesReadiness, "Match"@, "Mismatch"@),
        (WorkflowManualResultReconciliationGatePredicate::LoopControllerHashMatchesReadiness, "Match"@, "Mismatch"@),
        (WorkflowManualResultReconciliationGatePredicate::ReconciliationPreviewExists, "Preview found"@, "No preview"@),
        (WorkflowManualResultReconciliationGatePredicate::ReconciliationPreviewTargetIsActionable, "Actionable"@, "Not actionable"@),
        (WorkflowManualResultReconciliationGatePredicate::ManualResultStatusMatchesReadinessPreview, "Consistent"@, "Inconsistent"@),
        (WorkflowManualResultReconciliationGatePredicate::ManualResultEligibleForWorkflowStageReconciliation, "Eligible for stage reconciliation"@, "Not eligible: preview does not target stage progression"@),
        (WorkflowManualResultReconciliationGatePredicate::ManualResultReviewIsLatest, "Latest"@, "Superseded"@),
        (WorkflowManualResultReconciliationGatePredicate::ReconciliationReadinessIsLatest, "Latest"@, "Superseded"@),
        (WorkflowManualResultReconciliationGatePredicate::StageStatusEligibleForManualReconciliation, "Suspended — eligible"@, "Not eligible: only Suspended stages"@),
        (WorkflowManualResultReconciliationGatePredicate::NoPriorConflictingManualReconciliation, "No conflict"@, "Conflicting gate exists"@),
        (WorkflowManualResultReconciliationGatePredicate::IdempotencyKeyUnusedOrMatchesExisting, "Key ok"@, "Key conflict"@),
    ]
}

fn gate_table_exec() -> (v: Vec<(WorkflowManualResultReconciliationGatePredicate, &'static str, &'static str)>)
    ensures
        table_view(v@) == gate_table(),
{
    let v = vec![
        (WorkflowManualResultReconciliationGatePredicate::WorkflowRunExists, "Found", "Missing"),
        (WorkflowManualResultReconciliationGatePredicate::WorkflowRunHashMatchesRequest, "Hash provided", "Missing hash"),
        (WorkflowManualResultReconciliationGatePredicate::ManualResultExists, "Found", "Missing"),
        (WorkflowManualResultReconciliationGatePredicate::ManualResultHashMatchesRequest, "Hash provided", "Missing hash"),
        (WorkflowManualResultReconciliationGatePredicate::ManualResultReviewExists, "Found", "Missing"),
        (WorkflowManualResultReconciliationGatePredicate::ManualResultReviewHashMatchesRequest, "Hash provided", "Missing hash"),
        (WorkflowManualResultReconciliationGatePredicate::ReconciliationReadinessRecordExists, "Found", "Missing"),
        (WorkflowManualResultReconciliationGatePredicate::ReconciliationReadinessHashMatchesRequest, "Hash provided", "Missing hash"),
        (WorkflowManualResultReconciliationGatePredicate::ReconciliationReadinessStatusIsReady, "Ready", "Not ready"),
        (WorkflowManualResultReconciliationGatePredicate::ReviewDecisionIsAccepted, "Accepted", "Not accepted"),
        (WorkflowManualResultReconciliationGatePredicate::ManualResultWasReportedByOperator, "Reported", "Not reported"),
        (WorkflowManualResultReconciliationGatePredicate::StageExists, "Found", "Missing"),
        (WorkflowManualResultReconciliationGatePredicate::CommandReviewHashMatchesReadiness, "Match", "Mismatch"),
        (WorkflowManualResultReconciliationGatePredicate::CommandComposerHashMatchesReadiness, "Match", "Mismatch"),
        (WorkflowManualResultReconciliationGatePredicate::CommandDescriptorHashMatchesReadiness, "Match", "Mismatch"),
        (WorkflowManualResultReconciliationGatePredicate::LoopControllerHashMatchesReadiness, "Match", "Mismatch"),
        (WorkflowManualResultReconciliationGatePredicate::ReconciliationPreviewExists, "Preview found", "No preview"),
        (WorkflowManualResultReconciliationGatePredicate::ReconciliationPreviewTargetIsActionable, "Actionable", "Not actionable"),
        (WorkflowManualResultReconciliationGatePredicate::ManualResultStatusMatchesReadinessPreview, "Consistent", "Inconsistent"),
        (WorkflowManualResultReconciliationGatePredicate::ManualResultEligibleForWorkflowStageReconciliation, "Eligible for stage reconciliation", "Not eligible: preview does not target stage progression"),
        (WorkflowManualResultReconciliationGatePredicate::ManualResultReviewIsLatest, "Latest", "Superseded"),
        (WorkflowManualResultReconciliationGatePredicate::ReconciliationReadinessIsLatest, "Latest", "Superseded"),
        (WorkflowManualResultReconciliationGatePredicate::StageStatusEligibleForManualReconciliation, "Suspended — eligible", "Not eligible: only Suspended stages"),
        (WorkflowManualResultReconciliationGatePredicate::NoPriorConflictingManualReconciliation, "No conflict", "Conflicting gate exists"),
        (WorkflowManualResultReconciliationGatePredicate::IdempotencyKeyUnusedOrMatchesExisting, "Key ok", "Key conflict"),
    ];
    assert(table_view(v@) =~= gate_table());
    v
}

/// The outcome of each gate predicate, in table order.
pub open spec fn gate_flags(request: WorkflowManualResultReconciliationGateRequest, context: WorkflowManualResultReconciliationGateContext) -> Seq<bool> {
    gate_existence_flags(request, context) + gate_chain_flags(request, context)
}

/// Outcomes of the existence, hash and status predicates.
pub open spec fn gate_existence_flags(request: WorkflowManualResultReconciliationGateRequest, context: WorkflowManualResultReconciliationGateContext) -> Seq<bool> {
    let run = context.workflow_run;
    let mr = context.manual_result;
    let review = context.manual_result_review;
    let readiness = context.reconciliation_readiness;
    let readiness_ready = readiness matches Some(r) && r.status == WorkflowManualResultReconciliationReadinessStatus::Ready;
    let accepted = review matches Some(r) && r.decision == WorkflowManualResultReviewDecision::Accepted;
    let reported = mr matches Some(m) && m.reported_by_operator;
    seq![
        run is Some,
        run is Some && request.expected_workflow_run_hash@.len() > 0,
        mr is Some,
        mr is Some && request.expected_manual_result_hash@.len() > 0,
        review is Some,
        review is Some && request.expected_manual_result_review_hash@.len() > 0,
        readiness is Some,
        readiness is Some && request.expected_reconciliation_readiness_hash@.len() > 0,
        readiness_ready,
        accepted,
        reported,
        gate_stage_index(request, context) is Some,
    ]
}

/// Outcomes of the readiness-chain, preview, latest and conflict predicates.
pub open spec fn gate_chain_flags(request: WorkflowManualResultReconciliationGateRequest, context: WorkflowManualResultReconciliationGateContext) -> Seq<bool> {
    let mr = context.manual_result;
    let review = context.manual_result_review;
    let readiness = context.reconciliation_readiness;
    let cr_ok = readiness is None || (readiness matches Some(r) && r.command_review_hash@ == request.expected_command_review_hash@);
    let cc_ok = readiness is None || (readiness matches Some(r) && r.command_composer_hash@ == request.expected_command_composer_hash@);
    let cd_ok = readiness is None || (readiness matches Some(r) && r.command_descriptor_hash@ == request.expected_command_descriptor_hash@);
    let lc_ok = readiness is None || (readiness matches Some(r) && r.loop_controller_hash@ == request.expected_loop_controller_hash@);
    let preview = gate_preview(context);
    let actionable_preview = preview matches Some(p) && actionable(p);
    let status_matches = match (mr, preview) {
        (Some(m), Some(p)) => status_matches_preview(m.status, p),
        _ => false,
    };
    let review_latest = match (review, context.latest_manual_result_review) {
        (Some(r), Some(l)) => r.review_id.0@ == l.review_id.0@,
        _ => review is Some,
    };
    let readiness_latest = match (readiness, context.latest_reconciliation_readiness) {
        (Some(r), Some(l)) => r.readiness_id.0@ == l.readiness_id.0@,
        _ => readiness is Some,
    };
    let stage_suspended = match gate_stage_index(request, context) {
        Some(i) => gate_stages(context)[i].status == WorkflowStageRunStatus::Suspended,
        None => false,
    };
    let no_conflict = !conflicting_gate(context.prior_gates@, request);
    let idempotent = !idempotency_conflict(context.prior_gates@, request);
    seq![
        cr_ok,
        cc_ok,
        cd_ok,
        lc_ok,
        preview is Some,
        actionable_preview,
        status_matches,
        actionable_preview,
        review_latest,
        readiness_latest,
        stage_suspended,
        no_conflict,
        idempotent,
    
    ]
}

/// The twenty-five gate predicates, in order, with their outcomes and reasons.
pub open spec fn gate_checks(request: WorkflowManualResultReconciliationGateRequest, context: WorkflowManualResultReconciliationGateContext) -> Seq<
    (WorkflowManualResultReconciliationGatePredicate, bool, Seq<char>),
> {
    checks_from(gate_table(), gate_flags(request, context))
}

/// The run hash a manual revision records: `manual_revision_` and the time in
/// milliseconds since the Unix epoch.
pub open spec fn manual_revision_hash(at: Timestamp) -> Seq<char> {
    "manual_revision_"@ + int_text(at.secs * 1000 + at.nanos / 1_000_000)
}

/// A text present for a present record, else empty.
pub open spec fn when_present(present: bool, s: Seq<char>) -> Seq<char> {
    if present { s } else { Seq::empty() }
}

/// The reconciliation record of a request and its evidence.
pub open spec fn gate_record_ok(
    rec: WorkflowManualResultReconciliationGateRecord,
    request: WorkflowManualResultReconciliationGateRequest,
    context: WorkflowManualResultReconciliationGateContext,
) -> bool {
    let checks = gate_checks(request, context);
    let readiness = context.reconciliation_readiness;
    &&& rec.gate_id.0@ == gate_id_of(request)
    &&& rec.workflow_execution_id.0@ == request.workflow_execution_id.0@
    &&& rec.manual_result_id.0@ == request.manual_result_id.0@
    &&& rec.manual_result_review_id.0@ == request.manual_result_review_id.0@
    &&& rec.reconciliation_readiness_id.0@ == request.reconciliation_readiness_id.0@
    &&& rec.command_review_id.0@ == match readiness { Some(r) => r.command_review_id.0@, None => Seq::empty() }
    &&& rec.command_composer_id.0@ == match readiness { Some(r) => r.command_composer_id.0@, None => Seq::empty() }
    &&& rec.loop_controller_id.0@ == match readiness { Some(r) => r.loop_controller_id.0@, None => Seq::empty() }
    &&& rec.stage_id@ == request.stage_id@
    &&& rec.workflow_run_hash@ == when_present(context.workflow_run is Some, request.expected_workflow_run_hash@)
    &&& rec.reconciliation_readiness_hash@ == when_present(readiness is Some, request.expected_reconciliation_readiness_hash@)
    &&& rec.manual_result_review_hash@ == when_present(context.manual_result_review is Some, request.expected_manual_result_review_hash@)
    &&& rec.manual_result_hash@ == when_present(context.manual_result is Some, request.expected_manual_result_hash@)
    &&& rec.command_review_hash@ == match readiness { Some(r) => r.command_review_hash@, None => Seq::empty() }
    &&& rec.command_composer_hash@ == match readiness { Some(r) => r.command_composer_hash@, None => Seq::empty() }
    &&& rec.command_descriptor_hash@ == match readiness { Some(r) => r.command_descriptor_hash@, None => Seq::empty() }
    &&& rec.loop_controller_hash@ == match readiness { Some(r) => r.loop_controller_hash@, None => Seq::empty() }
    &&& check_views(rec.predicates@) == checks
    &&& if all_pass(checks) {
        &&& rec.status == WorkflowManualResultReconciliationGateStatus::Reconciled
        &&& rec.creates_run_revision
        &&& match (gate_stage_index(request, context), gate_preview(context)) {
            (Some(i), Some(pv)) => progression_ok(rec.progression, request.stage_id@, gate_stages(context)[i].status, pv),
            _ => rec.progression is None,
        }
        &&& match rec.progression {
            Some(p) => {
                &&& rec.new_run_revision_id matches Some(id)
                &&& id.0@ == text_id16(
                    "wrr_"@,
                    run_revision_preimage(request.workflow_execution_id.0@, gate_id_of(request), manual_revision_hash(rec.reconciled_at)),
                )
                &&& rec.decision matches WorkflowManualResultReconciliationGateDecision::Reconciled { revision_id, summary }
                &&& revision_id matches Some(r) && r@ == id.0@
                &&& summary@ == "Stage "@ + p.new_status.debug_view() + " reconciled via manual result"@
            },
            None => {
                &&& rec.new_run_revision_id is None
                &&& rec.decision matches WorkflowManualResultReconciliationGateDecision::Reconciled { revision_id, summary }
                &&& revision_id is None
                &&& summary@ == "All predicates pass but no progression computed"@
            },
        }
    } else {
        &&& rec.status == WorkflowManualResultReconciliationGateStatus::Blocked
        &&& rec.decision matches WorkflowManualResultReconciliationGateDecision::Blocked { reason_code, summary }
        &&& reason_code@ == "predicate_failed"@
        &&& summary@ == "Blocked: "@ + join(failed_reasons(checks), ", "@)
        &&& rec.progression is None
        &&& rec.new_run_revision_id is None
        &&& !rec.creates_run_revision
    }
    &&& !rec.mutates_original_workflow_run && !rec.verifies_external_truth && !rec.executes_command
    &&& !rec.routes_continuation && !rec.appends_trace && !rec.writes_memory && !rec.creates_execution_grant
    &&& !rec.execution_allowed_now
    &&& rec.reconciled_by@ == request.requested_by@
}

fn gate_conflict_exec(
    prior: &Vec<WorkflowManualResultReconciliationGateRecord>,
    request: &WorkflowManualResultReconciliationGateRequest,
    gate_id: &String,
) -> (b: bool)
    requires
        gate_id@ == gate_id_of(*request),
    ensures
        b == conflicting_gate(prior@, *request),
{
    let mut i: usize = 0;
    while i < prior.len()
        invariant
            gate_id@ == gate_id_of(*request),
            i <= prior.len(),
            forall|k: int|
                0 <= k < i ==> !((#[trigger] prior@[k]).manual_result_id.0@ == request.manual_result_id.0@
                    && prior@[k].stage_id@ == request.stage_id@ && prior@[k].status
                    == WorkflowManualResultReconciliationGateStatus::Reconciled && prior@[k].gate_id.0@ != gate_id_of(*request)),
        decreases prior.len() - i,
    {
        let g = &prior[i];
        if g.manual_result_id.0 == request.manual_result_id.0 && g.stage_id == request.stage_id
            && g.status == WorkflowManualResultReconciliationGateStatus::Reconciled && !(g.gate_id.0 == *gate_id) {
            return true;
        }
        i += 1;
    }
    false
}

fn gate_idempotency_exec(
    prior: &Vec<WorkflowManualResultReconciliationGateRecord>,
    request: &WorkflowManualResultReconciliationGateRequest,
    gate_id: &String,
) -> (b: bool)
    requires
        gate_id@ == gate_id_of(*request),
    ensures
        b == idempotency_conflict(prior@, *request),
{
    let mut i: usize = 0;
    while i < prior.len()
        invariant
            gate_id@ == gate_id_of(*request),
            i <= prior.len(),
            forall|k: int|
                0 <= k < i ==> !((#[trigger] prior@[k]).workflow_execution_id.0@ == request.workflow_execution_id.0@
                    && prior@[k].manual_result_id.0@ == request.manual_result_id.0@
                    && prior@[k].reconciliation_readiness_id.0@ == request.reconciliation_readiness_id.0@
                    && prior@[k].stage_id@ == request.stage_id@ && prior@[k].gate_id.0@ != gate_id_of(*request)),
        decreases prior.len() - i,
    {
        let g = &prior[i];
        if g.workflow_execution_id.0 == request.workflow_execution_id.0 && g.manual_result_id.0
            == request.manual_result_id.0 && g.reconciliation_readiness_id.0 == request.reconciliation_readiness_id.0
            && g.stage_id == request.stage_id && !(g.gate_id.0 == *gate_id) {
            return true;
        }
        i += 1;
    }
    false
}

fn gate_existence_flags_exec(
    request: &WorkflowManualResultReconciliationGateRequest,
    context: &WorkflowManualResultReconciliationGateContext,
) -> (f: Vec<bool>)
    ensures
        f@ == gate_existence_flags(*request, *context),
{
    let run = context.workflow_run;
    let mr = context.manual_result;
    let review = context.manual_result_review;
    let readiness = context.reconciliation_readiness;
    let readiness_ready = match readiness {
        Some(r) => r.status == WorkflowManualResultReconciliationReadinessStatus::Ready,
        None => false,
    };
    let accepted = match review {
        Some(r) => r.decision == WorkflowManualResultReviewDecision::Accepted,
        None => false,
    };
    let reported = match mr {
        Some(m) => m.reported_by_operator,
        None => false,
    };
    let stage = match run {
        Some(r) => find_stage_index(&r.stages, &request.stage_id),
        None => None,
    };
    let f = vec![
        run.is_some(), run.is_some() && !request.expected_workflow_run_hash.as_str().is_empty(), mr.is_some(),
        mr.is_some() && !request.expected_manual_result_hash.as_str().is_empty(), review.is_some(),
        review.is_some() && !request.expected_manual_result_review_hash.as_str().is_empty(), readiness.is_some(),
        readiness.is_some() && !request.expected_reconciliation_readiness_hash.as_str().is_empty(), readiness_ready,
        accepted, reported, stage.is_some(),
    ];
    assert(f@ =~= gate_existence_flags(*request, *context));
    f
}

fn preview_status_match(s: WorkflowManualResultStatus, p: WorkflowManualResultReconciliationPreview) -> (b: bool)
    ensures
        b == status_matches_preview(s, p),
{
    match (s, p) {
        (WorkflowManualResultStatus::ReportedSucceeded, WorkflowManualResultReconciliationPreview::CompleteStageFromReportedSuccess) => true,
        (WorkflowManualResultStatus::ReportedFailed, WorkflowManualResultReconciliationPreview::FailStageFromReportedFailure) => true,
        (WorkflowManualResultStatus::ReportedFailed, WorkflowManualResultReconciliationPreview::BlockStageFromReportedFailure) => true,
        (WorkflowManualResultStatus::ReportedPartial, WorkflowManualResultReconciliationPreview::PartialResultRequiresReview) => true,
        (WorkflowManualResultStatus::NotPerformed, WorkflowManualResultReconciliationPreview::NotPerformedBlocksReconciliation) => true,
        (WorkflowManualResultStatus::Inconclusive, WorkflowManualResultReconciliationPreview::InconclusiveBlocksReconciliation) => true,
        _ => false,
    }
}

fn gate_chain_flags_exec(
    request: &WorkflowManualResultReconciliationGateRequest,
    context: &WorkflowManualResultReconciliationGateContext,
    gate_id: &String,
) -> (f: Vec<bool>)
    requires
        gate_id@ == gate_id_of(*request),
    ensures
        f@ == gate_chain_flags(*request, *context),
{
    let mr = context.manual_result;
    let review = context.manual_result_review;
    let readiness = context.reconciliation_readiness;
    let (cr_ok, cc_ok, cd_ok, lc_ok) = match readiness {
        Some(r) => (
            r.command_review_hash == request.expected_command_review_hash,
            r.command_composer_hash == request.expected_command_composer_hash,
            r.command_descriptor_hash == request.expected_command_descriptor_hash,
            r.loop_controller_hash == request.expected_loop_controller_hash,
        ),
        None => (true, true, true, true),
    };
    let preview = match readiness {
        Some(r) => r.reconciliation_preview,
        None => None,
    };
    let actionable_preview = match preview {
        Some(p) => is_actionable_preview(&p),
        None => false,
    };
    let status_matches = match (mr, preview) {
        (Some(m), Some(p)) => preview_status_match(m.status, p),
        _ => false,
    };
    let review_latest = match (review, context.latest_manual_result_review) {
        (Some(r), Some(l)) => r.review_id.0 == l.review_id.0,
        _ => review.is_some(),
    };
    let readiness_latest = match (readiness, context.latest_reconciliation_readiness) {
        (Some(r), Some(l)) => r.readiness_id.0 == l.readiness_id.0,
        _ => readiness.is_some(),
    };
    let stage_suspended = match context.workflow_run {
        Some(r) => match find_stage_index(&r.stages, &request.stage_id) {
            Some(i) => r.stages[i].status == WorkflowStageRunStatus::Suspended,
            None => false,
        },
        None => false,
    };
    let no_conflict = !gate_conflict_exec(&context.prior_gates, request, gate_id);
    let idempotent = !gate_idempotency_exec(&context.prior_gates, request, gate_id);
    let f = vec![
        cr_ok, cc_ok, cd_ok, lc_ok, preview.is_some(), actionable_preview, status_matches, actionable_preview,
        review_latest, readiness_latest, stage_suspended, no_conflict, idempotent,
    ];
    assert(f@ =~= gate_chain_flags(*request, *context));
    f
}

fn gate_predicates(
    request: &WorkflowManualResultReconciliationGateRequest,
    context: &WorkflowManualResultReconciliationGateContext,
    gate_id: &String,
) -> (p: Vec<WorkflowManualResultReconciliationGatePredicateResult>)
    requires
        gate_id@ == gate_id_of(*request),
    ensures
        check_views(p@) == gate_checks(*request, *context),
{
    let mut flags = gate_existence_flags_exec(request, context);
    let mut rest = gate_chain_flags_exec(request, context, gate_id);
    flags.append(&mut rest);
    let table = gate_table_exec();
    assert(table_view(table@).len() == table@.len());
    build_checks(&table, &flags)
}

fn millis_of(at: Timestamp) -> (m: i128)
    ensures
        m == at.secs * 1000 + at.nanos / 1_000_000,
{
    (at.secs as i128) * 1000 + ((at.nanos / 1_000_000) as i128)
}

fn copy_or_empty_text(present: bool, s: &String) -> (r: String)
    ensures
        r@ == when_present(present, s@),
{
    if present { s.clone() } else { String::new() }
}

/// Evaluates the twenty-five gate predicates. When all pass, the stage moves as
/// the readiness preview says and a new run revision id is named; the original
/// run is never changed.
#[verifier::rlimit(60)]
pub fn evaluate_manual_result_reconciliation_gate(
    request: &WorkflowManualResultReconciliationGateRequest,
    context: &WorkflowManualResultReconciliationGateContext,
) -> (rec: WorkflowManualResultReconciliationGateRecord)
    ensures
        rec.gate_id.0@.len() == 22,
        gate_record_ok(rec, *request, *context),
{
    proof {
        reveal_strlit("wmrrg_");
    }
    let gate_id_text = gate_id_for(
        request.workflow_execution_id.0.as_str(),
        request.manual_result_id.0.as_str(),
        request.manual_result_review_id.0.as_str(),
        request.reconciliation_readiness_id.0.as_str(),
        request.stage_id.as_str(),
        request.idempotency_key.as_str(),
    );
    let predicates = gate_predicates(request, context, &gate_id_text);
    let ghost checks = gate_checks(*request, *context);
    let run = context.workflow_run;
    let readiness = context.reconciliation_readiness;
    let now = now_utc();
    let (status, decision, progression, new_revision_id, creates_revision) = if all_checks_pass(&predicates) {
        let stage_status = match run {
            Some(r) => match find_stage_index(&r.stages, &request.stage_id) {
                Some(i) => Some(r.stages[i].status),
                None => None,
            },
            None => None,
        };
        let preview = match readiness {
            Some(r) => r.reconciliation_preview,
            None => None,
        };
        let prog = match (stage_status, preview) {
            (Some(ss), Some(pv)) => compute_manual_result_stage_progression(request.stage_id.as_str(), &ss, &pv),
            _ => None,
        };
        match prog {
            Some(p) => {
                let mut run_hash_after = String::from_str("manual_revision_");
                push_i128_decimal(&mut run_hash_after, millis_of(now));
                let rid = run_revision_id_for(request.workflow_execution_id.0.as_str(), gate_id_text.as_str(), run_hash_after.as_str());
                let mut summary = String::from_str("Stage ");
                summary.append(p.new_status.debug_name());
                summary.append(" reconciled via manual result");
                let rid_text = rid.0.clone();
                (
                    WorkflowManualResultReconciliationGateStatus::Reconciled,
                    WorkflowManualResultReconciliationGateDecision::Reconciled { revision_id: Some(rid_text), summary },
                    Some(p),
                    Some(rid),
                    true,
                )
            },
            None => (
                WorkflowManualResultReconciliationGateStatus::Reconciled,
                WorkflowManualResultReconciliationGateDecision::Reconciled {
                    revision_id: None,
                    summary: String::from_str("All predicates pass but no progression computed"),
                },
                None,
                None,
                true,
            ),
        }
    } else {
        let reasons = failed_check_reasons(&predicates);
        let mut summary = String::from_str("Blocked: ");
        let joined = join_strings(&reasons, ", ");
        summary.append(joined.as_str());
        (
            WorkflowManualResultReconciliationGateStatus::Blocked,
            WorkflowManualResultReconciliationGateDecision::Blocked { reason_code: String::from_str("predicate_failed"), summary },
            None,
            None,
            false,
        )
    };
    WorkflowManualResultReconciliationGateRecord {
        gate_id: WorkflowManualResultReconciliationGateId(gate_id_text),
        workflow_execution_id: WorkflowExecutionId(request.workflow_execution_id.0.clone()),
        manual_result_id: WorkflowManualResultId(request.manual_result_id.0.clone()),
        manual_result_review_id: WorkflowManualResultReviewId(request.manual_result_review_id.0.clone()),
        reconciliation_readiness_id: WorkflowManualResultReconciliationReadinessId(request.reconciliation_readiness_id.0.clone()),
        command_review_id: WorkflowCommandReviewId(match readiness {
            Some(r) => r.command_review_id.0.clone(),
            None => String::new(),
        }),
        command_composer_id: WorkflowCommandComposerId(match readiness {
            Some(r) => r.command_composer_id.0.clone(),
            None => String::new(),
        }),
        loop_controller_id: WorkflowLoopControllerId(match readiness {
            Some(r) => r.loop_controller_id.0.clone(),
            None => String::new(),
        }),
        stage_id: request.stage_id.clone(),
        workflow_run_hash: copy_or_empty_text(run.is_some(), &request.expected_workflow_run_hash),
        reconciliation_readiness_hash: copy_or_empty_text(readiness.is_some(), &request.expected_reconciliation_readiness_hash),
        manual_result_review_hash: copy_or_empty_text(context.manual_result_review.is_some(), &request.expected_manual_result_review_hash),
        manual_result_hash: copy_or_empty_text(context.manual_result.is_some(), &request.expected_manual_result_hash),
        command_review_hash: match readiness {
            Some(r) => r.command_review_hash.clone(),
            None => String::new(),
        },
        command_composer_hash: match readiness {
            Some(r) => r.command_composer_hash.clone(),
            None => String::new(),
        },
        command_descriptor_hash: match readiness {
            Some(r) => r.command_descriptor_hash.clone(),
            None => String::new(),
        },
        loop_controller_hash: match readiness {
            Some(r) => r.loop_controller_hash.clone(),
            None => String::new(),
        },
        status,
        decision,
        predicates,
        progression,
        new_run_revision_id: new_revision_id,
        creates_run_revision: creates_revision,
        mutates_original_workflow_run: false,
        verifies_external_truth: false,
        executes_command: false,
        routes_continuation: false,
        appends_trace: false,
        writes_memory: false,
        creates_execution_grant: false,
        execution_allowed_now: false,
        reconciled_by: request.requested_by.clone(),
        reconciled_at: now,
    }
}

/// A manual reconciliation gate reconciles exactly when every predicate it
/// records passed, and a stage progression it records names the requested stage,
/// which the run holds as suspended, and moves it to a terminal status.
pub proof fn lemma_gate_progression_only_from_suspended(
    rec: WorkflowManualResultReconciliationGateRecord,
    request: WorkflowManualResultReconciliationGateRequest,
    context: WorkflowManualResultReconciliationGateContext,
)
    requires
        gate_record_ok(rec, request, context),
    ensures
        (rec.status == WorkflowManualResultReconciliationGateStatus::Reconciled) <==> all_pass(check_views(rec.predicates@)),
        rec.progression matches Some(p) ==> {
            &&& rec.status == WorkflowManualResultReconciliationGateStatus::Reconciled
            &&& p.stage_id@ == request.stage_id@
            &&& p.previous_status == WorkflowStageRunStatus::Suspended
            &&& (p.new_status == WorkflowStageRunStatus::Completed || p.new_status == WorkflowStageRunStatus::Failed
                || p.new_status == WorkflowStageRunStatus::Blocked)
            &&& exists|i: int|
                0 <= i < gate_stages(context).len() && (#[trigger] gate_stages(context)[i]).stage_id@ == request.stage_id@
                    && gate_stages(context)[i].status == WorkflowStageRunStatus::Suspended
        },
{
    if rec.progression is Some {
        match context.workflow_run {
            Some(r) => lemma_stage_index_from(r.stages@, request.stage_id@, 0),
            None => {},
        }
        let i = gate_stage_index(request, context).unwrap();
        assert(gate_stages(context)[i].stage_id@ == request.stage_id@);
    }
}

} // verus!
