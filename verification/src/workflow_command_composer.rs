//! Command composer: turns a loop-controller recommendation into a display-only
//! command descriptor. It executes, routes, approves, reconciles and changes nothing.
use vstd::prelude::*;
use crate::gate::{
    all_checks_pass, all_pass, build_checks, check_views, checks_from, failed_names_lowercase_joined,
    lowercase_failed_names, table_view, CheckResult, PredicateName,
};
use crate::ids::{text_digest_id, text_digest_id16, text_id, text_id16};
use crate::outside::now_utc;
use crate::text::{join, join_strings, opt_view, views};
use crate::workflow_loop_controller::{WorkflowLoopControllerRecord, WorkflowLoopControllerStatus};
use crate::workflow_loop_recommendation::WorkflowManualOperationKind;
use crate::workflow_manual_operation::{
    WorkflowCommandArgumentSource, WorkflowCommandEvidenceKind, WorkflowManualCommandArgument, WorkflowManualCommandKind,
};
use crate::workflow_reconciliation::WorkflowRunRevision;
use crate::workflow_run::WorkflowRunRecord;
use crate::outside::Timestamp;
use crate::workflow_command_descriptor::WorkflowManualCommandDescriptor;
use crate::workflow_loop_controller::WorkflowLoopControllerId;
use crate::workflow_manual_operation::{WorkflowCommandEvidenceLink, WorkflowCommandMissingInput};
use crate::workflow_run::WorkflowExecutionId;

verus! {

/// Content-addressed composer ID. Format: wcc_<blake3_hex>
#[derive(Debug, Clone, PartialEq, Eq, Hash)]
pub struct WorkflowCommandComposerId(pub String);

#[derive(Debug, Clone)]
pub struct WorkflowCommandComposerRequest {
    pub workflow_execution_id: WorkflowExecutionId,
    pub loop_controller_id: WorkflowLoopControllerId,
    pub expected_loop_controller_hash: String,
    pub requested_by: String,
    pub requested_at: Timestamp,
    pub idempotency_key: String,
}

#[derive(Debug, Clone)]
pub struct WorkflowCommandComposerRecord {
    pub composer_id: WorkflowCommandComposerId,
    pub workflow_execution_id: WorkflowExecutionId,
    pub loop_controller_id: WorkflowLoopControllerId,
    pub loop_controller_hash: String,
    pub status: WorkflowCommandComposerStatus,
    pub decision: WorkflowCommandComposerDecision,
    pub predicates: Vec<WorkflowCommandComposerPredicateResult>,
    pub descriptor: Option<WorkflowManualCommandDescriptor>,
    pub missing_inputs: Vec<WorkflowCommandMissingInput>,
    pub evidence_links: Vec<WorkflowCommandEvidenceLink>,
    pub executes_command: bool,
    pub invokes_shell: bool,
    pub invokes_git: bool,
    pub routes_action: bool,
    pub resolves_approval: bool,
    pub reconciles_outcome: bool,
    pub mutates_workflow_state: bool,
    pub schedules_work: bool,
    pub starts_worker: bool,
    pub queues_operation: bool,
    pub created_at: Timestamp,
}

#[derive(Debug, Clone, Copy, PartialEq, Eq, Structural)]
pub enum WorkflowCommandComposerStatus {
    DescriptorReady,
    MissingInputs,
    NoCommandRequired,
    Blocked,
    Inconclusive,
}

#[derive(Debug, Clone)]
pub enum WorkflowCommandComposerDecision {
    DescriptorReady { summary: String },
    MissingInputs { summary: String },
    NoCommandRequired { summary: String },
    Blocked { reason_code: String, summary: String },
    Inconclusive { reason_code: String, summary: String },
}

/// Checks of the WorkflowCommandComposerPredicate.
#[derive(Debug, Clone, Copy, PartialEq, Eq, Structural)]
pub enum WorkflowCommandComposerPredicate {
    LoopControllerRecordExists,
    LoopControllerHashMatchesRequest,
    LoopControllerBelongsToWorkflowRun,
    LoopRecommendationExists,
    LoopRecommendationHasExactlyOneOperation,
    LoopRecommendationHasNoAuthority,
    ManualOperationSupported,
    RequiredEvidenceAvailable,
    RequiredArgumentsResolved,
    MissingInputsRepresented,
    DescriptorIsDisplayOnly,
    DescriptorIsNotExecutable,
    CopyableTextIsDisplayOnly,
    NoPriorConflictingCommandDescriptor,
    IdempotencyKeyUnusedOrMatchesExisting,
}

impl PredicateName for WorkflowCommandComposerPredicate {
    open spec fn name_view(self) -> Seq<char> {
        match self {
            WorkflowCommandComposerPredicate::LoopControllerRecordExists => "LoopControllerRecordExists"@,
            WorkflowCommandComposerPredicate::LoopControllerHashMatchesRequest => "LoopControllerHashMatchesRequest"@,
            WorkflowCommandComposerPredicate::LoopControllerBelongsToWorkflowRun => "LoopControllerBelongsToWorkflowRun"@,
            WorkflowCommandComposerPredicate::LoopRecommendationExists => "LoopRecommendationExists"@,
            WorkflowCommandComposerPredicate::LoopRecommendationHasExactlyOneOperation => "LoopRecommendationHasExactlyOneOperation"@,
            WorkflowCommandComposerPredicate::LoopRecommendationHasNoAuthority => "LoopRecommendationHasNoAuthority"@,
            WorkflowCommandComposerPredicate::ManualOperationSupported => "ManualOperationSupported"@,
            WorkflowCommandComposerPredicate::RequiredEvidenceAvailable => "RequiredEvidenceAvailable"@,
            WorkflowCommandComposerPredicate::RequiredArgumentsResolved => "RequiredArgumentsResolved"@,
            WorkflowCommandComposerPredicate::MissingInputsRepresented => "MissingInputsRepresented"@,
            WorkflowCommandComposerPredicate::DescriptorIsDisplayOnly => "DescriptorIsDisplayOnly"@,
            WorkflowCommandComposerPredicate::DescriptorIsNotExecutable => "DescriptorIsNotExecutable"@,
            WorkflowCommandComposerPredicate::CopyableTextIsDisplayOnly => "CopyableTextIsDisplayOnly"@,
            WorkflowCommandComposerPredicate::NoPriorConflictingCommandDescriptor => "NoPriorConflictingCommandDescriptor"@,
            WorkflowCommandComposerPredicate::IdempotencyKeyUnusedOrMatchesExisting => "IdempotencyKeyUnusedOrMatchesExisting"@,
        }
    }

    fn debug_name(&self) -> (s: &'static str) {
        match self {
            WorkflowCommandComposerPredicate::LoopControllerRecordExists => "LoopControllerRecordExists",
            WorkflowCommandComposerPredicate::LoopControllerHashMatchesRequest => "LoopControllerHashMatchesRequest",
            WorkflowCommandComposerPredicate::LoopControllerBelongsToWorkflowRun => "LoopControllerBelongsToWorkflowRun",
            WorkflowCommandComposerPredicate::LoopRecommendationExists => "LoopRecommendationExists",
            WorkflowCommandComposerPredicate::LoopRecommendationHasExactlyOneOperation => "LoopRecommendationHasExactlyOneOperation",
            WorkflowCommandComposerPredicate::LoopRecommendationHasNoAuthority => "LoopRecommendationHasNoAuthority",
            WorkflowCommandComposerPredicate::ManualOperationSupported => "ManualOperationSupported",
            WorkflowCommandComposerPredicate::RequiredEvidenceAvailable => "RequiredEvidenceAvailable",
            WorkflowCommandComposerPredicate::RequiredArgumentsResolved => "RequiredArgumentsResolved",
            WorkflowCommandComposerPredicate::MissingInputsRepresented => "MissingInputsRepresented",
            WorkflowCommandComposerPredicate::DescriptorIsDisplayOnly => "DescriptorIsDisplayOnly",
            WorkflowCommandComposerPredicate::DescriptorIsNotExecutable => "DescriptorIsNotExecutable",
            WorkflowCommandComposerPredicate::CopyableTextIsDisplayOnly => "CopyableTextIsDisplayOnly",
            WorkflowCommandComposerPredicate::NoPriorConflictingCommandDescriptor => "NoPriorConflictingCommandDescriptor",
            WorkflowCommandComposerPredicate::IdempotencyKeyUnusedOrMatchesExisting => "IdempotencyKeyUnusedOrMatchesExisting",
        }
    }
}

/// Result of evaluating one check.
#[derive(Debug, Clone)]
pub struct WorkflowCommandComposerPredicateResult {
    pub predicate: WorkflowCommandComposerPredicate,
    pub passed: bool,
    pub reason: String,
}

impl CheckResult for WorkflowCommandComposerPredicateResult {
    type P = WorkflowCommandComposerPredicate;

    open spec fn check_view(&self) -> (WorkflowCommandComposerPredicate, bool, Seq<char>) {
        (self.predicate, self.passed, self.reason@)
    }

    fn passed_flag(&self) -> (b: bool) {
        self.passed
    }

    fn predicate_value(&self) -> (p: WorkflowCommandComposerPredicate) {
        self.predicate
    }

    fn reason_text(&self) -> (s: &str) {
        self.reason.as_str()
    }

    fn make_check(p: Self::P, passed: bool, reason: String) -> (r: Self) {
        Self { predicate: p, passed, reason }
    }
}

/// Evidence for composing a command descriptor. `loop_controller_json` is the
/// JSON text of the loop controller record, as the caller serialised it; the
/// record's hash is the digest of that text.
#[derive(Debug, Clone)]
pub struct WorkflowCommandComposerContext<'a> {
    pub loop_controller_record: Option<&'a WorkflowLoopControllerRecord>,
    pub workflow_run: Option<&'a WorkflowRunRecord>,
    pub latest_revision: Option<&'a WorkflowRunRevision>,
    pub loop_controller_json: &'a str,
}

/// The composer predicates in order, each with its reason when passing and when failing.
pub open spec fn composer_table() -> Seq<(WorkflowCommandComposerPredicate, Seq<char>, Seq<char>)> {
    seq![
        (WorkflowCommandComposerPredicate::LoopControllerRecordExists, "Found"@, "Missing"@),
        (WorkflowCommandComposerPredicate::LoopControllerHashMatchesRequest, "Provided"@, "Missing"@),
        (WorkflowCommandComposerPredicate::LoopControllerBelongsToWorkflowRun, "Match"@, "Mismatch"@),
        (WorkflowCommandComposerPredicate::LoopRecommendationExists, "Found"@, "Missing"@),
        (WorkflowCommandComposerPredicate::LoopRecommendationHasExactlyOneOperation, "One operation"@, "One operation"@),
        (WorkflowCommandComposerPredicate::LoopRecommendationHasNoAuthority, "No authority"@, "No authority"@),
        (WorkflowCommandComposerPredicate::ManualOperationSupported, "Supported"@, "Supported"@),
        (WorkflowCommandComposerPredicate::RequiredEvidenceAvailable, "Available"@, "Available"@),
        (WorkflowCommandComposerPredicate::RequiredArgumentsResolved, "Resolved"@, "Resolved"@),
        (WorkflowCommandComposerPredicate::MissingInputsRepresented, "Represented"@, "Represented"@),
        (WorkflowCommandComposerPredicate::DescriptorIsDisplayOnly, "Display only"@, "Display only"@),
        (WorkflowCommandComposerPredicate::DescriptorIsNotExecutable, "Not executable"@, "Not executable"@),
        (WorkflowCommandComposerPredicate::CopyableTextIsDisplayOnly, "Display only"@, "Display only"@),
        (WorkflowCommandComposerPredicate::NoPriorConflictingCommandDescriptor, "No conflict"@, "No conflict"@),
        (WorkflowCommandComposerPredicate::IdempotencyKeyUnusedOrMatchesExisting, "Key ok"@, "Key ok"@),
    ]
}

fn composer_table_exec() -> (v: Vec<(WorkflowCommandComposerPredicate, &'static str, &'static str)>)
    ensures
        table_view(v@) == composer_table(),
{
    let v = vec![
        (WorkflowCommandComposerPredicate::LoopControllerRecordExists, "Found", "Missing"),
        (WorkflowCommandComposerPredicate::LoopControllerHashMatchesRequest, "Provided", "Missing"),
        (WorkflowCommandComposerPredicate::LoopControllerBelongsToWorkflowRun, "Match", "Mismatch"),
        (WorkflowCommandComposerPredicate::LoopRecommendationExists, "Found", "Missing"),
        (WorkflowCommandComposerPredicate::LoopRecommendationHasExactlyOneOperation, "One operation", "One operation"),
        (WorkflowCommandComposerPredicate::LoopRecommendationHasNoAuthority, "No authority", "No authority"),
        (WorkflowCommandComposerPredicate::ManualOperationSupported, "Supported", "Supported"),
        (WorkflowCommandComposerPredicate::RequiredEvidenceAvailable, "Available", "Available"),
        (WorkflowCommandComposerPredicate::RequiredArgumentsResolved, "Resolved", "Resolved"),
        (WorkflowCommandComposerPredicate::MissingInputsRepresented, "Represented", "Represented"),
        (WorkflowCommandComposerPredicate::DescriptorIsDisplayOnly, "Display only", "Display only"),
        (WorkflowCommandComposerPredicate::DescriptorIsNotExecutable, "Not executable", "Not executable"),
        (WorkflowCommandComposerPredicate::CopyableTextIsDisplayOnly, "Display only", "Display only"),
        (WorkflowCommandComposerPredicate::NoPriorConflictingCommandDescriptor, "No conflict", "No conflict"),
        (WorkflowCommandComposerPredicate::IdempotencyKeyUnusedOrMatchesExisting, "Key ok", "Key ok"),
    ];
    assert(table_view(v@) =~= composer_table());
    v
}

/// The outcome of each composer predicate, in table order.
pub open spec fn composer_flags(request: WorkflowCommandComposerRequest, context: WorkflowCommandComposerContext) -> Seq<bool> {
    let lc = context.loop_controller_record;
    let same_run = match lc { Some(l) => l.workflow_execution_id.0@ == request.workflow_execution_id.0@, None => true };
    let has_rec = match lc { Some(l) => l.recommendation is Some, None => false };
    seq![
        lc is Some,
        request.expected_loop_controller_hash@.len() > 0,
        same_run,
        has_rec,
        true,
        true,
        true,
        true,
        true,
        true,
        true,
        true,
        true,
        true,
        true,
    ]
}


/// The fifteen composer predicates, in order, with their outcomes and reasons.
pub open spec fn composer_checks(request: WorkflowCommandComposerRequest, context: WorkflowCommandComposerContext) -> Seq<
    (WorkflowCommandComposerPredicate, bool, Seq<char>),
> {
    checks_from(composer_table(), composer_flags(request, context))
}

/// The composer id a request names.
pub open spec fn composer_id_of(request: WorkflowCommandComposerRequest) -> Seq<char> {
    text_id16(
        "wcc_"@,
        "command_composer:v1:"@ + request.workflow_execution_id.0@ + ":"@ + request.loop_controller_id.0@ + ":"@
            + request.idempotency_key@,
    )
}

/// An argument as plain values.
pub open spec fn argument_view(a: WorkflowManualCommandArgument) -> (Seq<char>, Option<Seq<char>>, WorkflowCommandArgumentSource, bool, bool) {
    (a.name@, opt_view(a.value_preview), a.source, a.required, a.missing)
}

/// Arguments as plain values.
pub open spec fn argument_views(v: Seq<WorkflowManualCommandArgument>) -> Seq<(Seq<char>, Option<Seq<char>>, WorkflowCommandArgumentSource, bool, bool)> {
    v.map_values(|a: WorkflowManualCommandArgument| argument_view(a))
}

/// Missing inputs as plain values.
pub open spec fn missing_views(v: Seq<WorkflowCommandMissingInput>) -> Seq<(Seq<char>, Seq<char>, Seq<char>)> {
    v.map_values(|m: WorkflowCommandMissingInput| (m.name@, m.reason@, m.suggested_source@))
}

/// Command evidence links as plain values.
pub open spec fn command_link_views(v: Seq<WorkflowCommandEvidenceLink>) -> Seq<(WorkflowCommandEvidenceKind, Seq<char>, Seq<char>)> {
    v.map_values(|l: WorkflowCommandEvidenceLink| (l.kind, l.id@, l.summary@))
}

/// The operator input a decision needs, for the operations that need one.
pub open spec fn missing_for(op: WorkflowManualOperationKind) -> Seq<(Seq<char>, Seq<char>, Seq<char>)> {
    match op {
        WorkflowManualOperationKind::ReviewNextActionProposal => seq![(
            "review_decision"@,
            "Operator must choose approve/reject/request-changes"@,
            "OperatorInput"@,
        )],
        WorkflowManualOperationKind::ResolveWorkflowApprovalOutcome => seq![(
            "approval_resolution"@,
            "Operator must choose approve or reject"@,
            "OperatorInput"@,
        )],
        _ => Seq::empty(),
    }
}

/// The command kind, display text and copyable text of the descriptor for an
/// operation that has one.
pub open spec fn descriptor_texts(op: WorkflowManualOperationKind, wfx: Seq<char>) -> Option<(WorkflowManualCommandKind, Seq<char>, Seq<char>)> {
    match op {
        WorkflowManualOperationKind::CreateContinuationProposal => Some((
            WorkflowManualCommandKind::WorkflowContinuationPropose,
            "openwand workflow-continuation propose --workflow-execution-id "@ + wfx,
            "openwand workflow-continuation propose --workflow-execution-id "@ + wfx + " --expected-run-revision-hash <hash>"@,
        )),
        WorkflowManualOperationKind::ReviewNextActionProposal => Some((
            WorkflowManualCommandKind::WorkflowNextActionReviewApprove,
            "openwand workflow-next-action-review <review-decision> --proposal-id <id>"@,
            "openwand workflow-next-action-review <approve|reject|request-changes> --proposal-id <id> --review-author <name> --rationale <text>"@,
        )),
        WorkflowManualOperationKind::EvaluateRoutingReadiness => Some((
            WorkflowManualCommandKind::WorkflowRoutingReadinessEvaluate,
            "openwand workflow-routing-readiness evaluate --proposal-id <id>"@,
            "openwand workflow-routing-readiness evaluate --proposal-id <id> --review-id <id> --expected-hashes <hashes>"@,
        )),
        WorkflowManualOperationKind::RouteReviewedNextAction => Some((
            WorkflowManualCommandKind::WorkflowNextActionRoutingRoute,
            "openwand workflow-next-action-routing route --routing-readiness-id <id>"@,
            "openwand workflow-next-action-routing route --routing-readiness-id <id> --expected-hashes <hashes>"@,
        )),
        WorkflowManualOperationKind::ObserveRouteOutcome => Some((
            WorkflowManualCommandKind::WorkflowActionOutcomeResolve,
            "openwand workflow-action-outcome record --route-id <id>"@,
            "openwand workflow-action-outcome record --route-id <id>"@,
        )),
        WorkflowManualOperationKind::ResolveWorkflowApprovalOutcome => Some((
            WorkflowManualCommandKind::WorkflowActionOutcomeResolve,
            "openwand workflow-action-outcome resolve --route-id <id>"@,
            "openwand workflow-action-outcome resolve --route-id <id> --approval-resolution <approve|reject>"@,
        )),
        WorkflowManualOperationKind::ReconcileWorkflowOutcome => Some((
            WorkflowManualCommandKind::WorkflowReconciliationReconcile,
            "openwand workflow-reconciliation evaluate --route-id <id>"@,
            "openwand workflow-reconciliation evaluate --route-id <id> --outcome-id <id>"@,
        )),
        WorkflowManualOperationKind::InspectBlockedWorkflow => Some((
            WorkflowManualCommandKind::InspectBlockedWorkflow,
            "openwand workflow-loop recommend --workflow-execution-id "@ + wfx,
            "openwand workflow-loop recommend --workflow-execution-id "@ + wfx + " --expected-workflow-run-hash <hash>"@,
        )),
        _ => None,
    }
}

/// The summary of an operation that needs no descriptor of this composer.
pub open spec fn no_descriptor_summary(op: WorkflowManualOperationKind) -> Seq<char> {
    match op {
        WorkflowManualOperationKind::NoAction => "No manual action required"@,
        WorkflowManualOperationKind::CreateCommandDescriptor => "Command descriptor composition"@,
        WorkflowManualOperationKind::ReviewCommandDescriptor => "Command descriptor review"@,
        WorkflowManualOperationKind::CaptureManualResult => "Manual result capture"@,
        WorkflowManualOperationKind::ReviewManualResult => "Manual result review"@,
        WorkflowManualOperationKind::EvaluateReconciliationReadiness => "Reconciliation readiness evaluation"@,
        _ => "Manual result reconciliation gate"@,
    }
}

/// The arguments of the descriptor for an operation: the run id, then what the
/// operation adds.
pub open spec fn expected_arguments(
    op: WorkflowManualOperationKind,
    lc: WorkflowLoopControllerRecord,
    context: WorkflowCommandComposerContext,
) -> Seq<(Seq<char>, Option<Seq<char>>, WorkflowCommandArgumentSource, bool, bool)> {
    seq![("workflow_execution_id"@, Some(lc.workflow_execution_id.0@), WorkflowCommandArgumentSource::WorkflowRun, true, false)]
        + match op {
        WorkflowManualOperationKind::CreateContinuationProposal => seq![(
            "run_revision_id"@,
            match context.latest_revision {
                Some(v) => Some(v.revision_id.0@),
                None => None,
            },
            WorkflowCommandArgumentSource::RunRevision,
            true,
            context.latest_revision is None,
        )],
        WorkflowManualOperationKind::ReviewNextActionProposal => match lc.loop_state {
            Some(s) => match s.latest_next_action_proposal_id {
                Some(pid) => seq![("proposal_id"@, Some(pid.0@), WorkflowCommandArgumentSource::ContinuationProposal, true, false)],
                None => Seq::empty(),
            },
            None => Seq::empty(),
        },
        _ => Seq::empty(),
    }
}

/// What the composer builds from a loop controller record that passed every check.
pub open spec fn composition_ok(
    status: WorkflowCommandComposerStatus,
    decision: WorkflowCommandComposerDecision,
    descriptor: Option<WorkflowManualCommandDescriptor>,
    missing: Seq<WorkflowCommandMissingInput>,
    links: Seq<WorkflowCommandEvidenceLink>,
    lc: WorkflowLoopControllerRecord,
    context: WorkflowCommandComposerContext,
) -> bool {
    &&& links.len() == 0
    &&& match lc.recommendation {
        None => {
            &&& status == WorkflowCommandComposerStatus::NoCommandRequired
            &&& decision matches WorkflowCommandComposerDecision::NoCommandRequired { summary }
            &&& summary@ == "No recommendation"@
            &&& descriptor is None
            &&& missing.len() == 0
        },
        Some(rec) => match descriptor_texts(rec.operation, lc.workflow_execution_id.0@) {
            None => {
                &&& status == if rec.operation == WorkflowManualOperationKind::NoAction {
                    WorkflowCommandComposerStatus::NoCommandRequired
                } else {
                    WorkflowCommandComposerStatus::DescriptorReady
                }
                &&& if rec.operation == WorkflowManualOperationKind::NoAction {
                    decision matches WorkflowCommandComposerDecision::NoCommandRequired { summary }
                        && summary@ == no_descriptor_summary(rec.operation)
                } else {
                    decision matches WorkflowCommandComposerDecision::DescriptorReady { summary }
                        && summary@ == no_descriptor_summary(rec.operation)
                }
                &&& descriptor is None
                &&& missing.len() == 0
            },
            Some((kind, display, copyable)) => {
                let miss = missing_for(rec.operation);
                &&& descriptor matches Some(d)
                &&& d.command_kind == kind
                &&& d.display_command@ == display
                &&& d.copyable_text@ == copyable
                &&& argument_views(d.arguments@) == expected_arguments(rec.operation, lc, context)
                &&& missing_views(d.missing_inputs@) == miss
                &&& views(d.safety_warnings@) == seq![
                    "This is a display-only command descriptor. OpenWand does not execute commands."@,
                ]
                &&& command_link_views(d.evidence_links@) == seq![
                    (WorkflowCommandEvidenceKind::LoopController, lc.controller_id.0@, lc.status.debug_view()),
                ]
                &&& d.display_only && !d.executable
                &&& missing_views(missing) == miss
                &&& if miss.len() > 0 {
                    &&& status == WorkflowCommandComposerStatus::MissingInputs
                    &&& decision matches WorkflowCommandComposerDecision::MissingInputs { summary }
                    &&& summary@ == "Missing: "@ + join(miss.map_values(|m: (Seq<char>, Seq<char>, Seq<char>)| m.0), ", "@)
                } else {
                    &&& status == WorkflowCommandComposerStatus::DescriptorReady
                    &&& decision matches WorkflowCommandComposerDecision::DescriptorReady { summary }
                    &&& summary@ == rec.reason@
                }
            },
        },
    }
}

fn missing_input(name: &str, reason: &str) -> (m: WorkflowCommandMissingInput)
    ensures
        m.name@ == name@,
        m.reason@ == reason@,
        m.suggested_source@ == "OperatorInput"@,
{
    WorkflowCommandMissingInput {
        name: String::from_str(name),
        reason: String::from_str(reason),
        suggested_source: String::from_str("OperatorInput"),
    }
}

fn copy_missing(v: &Vec<WorkflowCommandMissingInput>) -> (out: Vec<WorkflowCommandMissingInput>)
    ensures
        missing_views(out@) == missing_views(v@),
{
    let mut out: Vec<WorkflowCommandMissingInput> = Vec::new();
    let mut i: usize = 0;
    while i < v.len()
        invariant
            i <= v.len(),
            out@.len() == i,
            forall|k: int|
                0 <= k < i ==> (#[trigger] out@[k]).name@ == v@[k].name@ && out@[k].reason@ == v@[k].reason@
                    && out@[k].suggested_source@ == v@[k].suggested_source@,
        decreases v.len() - i,
    {
        out.push(WorkflowCommandMissingInput {
            name: v[i].name.clone(),
            reason: v[i].reason.clone(),
            suggested_source: v[i].suggested_source.clone(),
        });
        i += 1;
    }
    assert(missing_views(out@) =~= missing_views(v@));
    out
}

/// The run revision argument: the latest revision's id when there is one, else
/// marked missing.
fn rev_arg(context: &WorkflowCommandComposerContext) -> (a: WorkflowManualCommandArgument)
    ensures
        argument_view(a) == (
            "run_revision_id"@,
            match context.latest_revision {
                Some(v) => Some(v.revision_id.0@),
                None => None,
            },
            WorkflowCommandArgumentSource::RunRevision,
            true,
            context.latest_revision is None,
        ),
{
    WorkflowManualCommandArgument {
        name: String::from_str("run_revision_id"),
        value_preview: match context.latest_revision {
            Some(v) => Some(v.revision_id.0.clone()),
            None => None,
        },
        source: WorkflowCommandArgumentSource::RunRevision,
        required: true,
        missing: context.latest_revision.is_none(),
    }
}

/// The descriptor (or the reason there is none) for a loop controller record's
/// recommendation. Missing operator decisions are listed, never guessed.
pub fn build_descriptor_from_recommendation(
    lc: &WorkflowLoopControllerRecord,
    context: &WorkflowCommandComposerContext,
) -> (r: (
    WorkflowCommandComposerStatus,
    WorkflowCommandComposerDecision,
    Option<WorkflowManualCommandDescriptor>,
    Vec<WorkflowCommandMissingInput>,
    Vec<WorkflowCommandEvidenceLink>,
))
    ensures
        composition_ok(r.0, r.1, r.2, r.3@, r.4@, *lc, *context),
{
    let rec = match &lc.recommendation {
        Some(r) => r,
        None => {
            return (
                WorkflowCommandComposerStatus::NoCommandRequired,
                WorkflowCommandComposerDecision::NoCommandRequired { summary: String::from_str("No recommendation") },
                None,
                Vec::new(),
                Vec::new(),
            );
        },
    };
    let wfx = lc.workflow_execution_id.0.as_str();
    let mut missing: Vec<WorkflowCommandMissingInput> = Vec::new();
    let mut args: Vec<WorkflowManualCommandArgument> = Vec::new();
    args.push(WorkflowManualCommandArgument {
        name: String::from_str("workflow_execution_id"),
        value_preview: Some(lc.workflow_execution_id.0.clone()),
        source: WorkflowCommandArgumentSource::WorkflowRun,
        required: true,
        missing: false,
    });
    let (kind, display, copyable) = match rec.operation {
        WorkflowManualOperationKind::CreateContinuationProposal => {
            args.push(rev_arg(context));
            let mut d = String::from_str("openwand workflow-continuation propose --workflow-execution-id ");
            d.append(wfx);
            let mut c = String::from_str("openwand workflow-continuation propose --workflow-execution-id ");
            c.append(wfx);
            c.append(" --expected-run-revision-hash <hash>");
            (WorkflowManualCommandKind::WorkflowContinuationPropose, d, c)
        },
        WorkflowManualOperationKind::ReviewNextActionProposal => {
            missing.push(missing_input("review_decision", "Operator must choose approve/reject/request-changes"));
            match &lc.loop_state {
                Some(s) => match &s.latest_next_action_proposal_id {
                    Some(pid) => {
                        args.push(WorkflowManualCommandArgument {
                            name: String::from_str("proposal_id"),
                            value_preview: Some(pid.0.clone()),
                            source: WorkflowCommandArgumentSource::ContinuationProposal,
                            required: true,
                            missing: false,
                        });
                    },
                    None => {},
                },
                None => {},
            }
            (
                WorkflowManualCommandKind::WorkflowNextActionReviewApprove,
                String::from_str("openwand workflow-next-action-review <review-decision> --proposal-id <id>"),
                String::from_str("openwand workflow-next-action-review <approve|reject|request-changes> --proposal-id <id> --review-author <name> --rationale <text>"),
            )
        },
        WorkflowManualOperationKind::EvaluateRoutingReadiness => (
            WorkflowManualCommandKind::WorkflowRoutingReadinessEvaluate,
            String::from_str("openwand workflow-routing-readiness evaluate --proposal-id <id>"),
            String::from_str("openwand workflow-routing-readiness evaluate --proposal-id <id> --review-id <id> --expected-hashes <hashes>"),
        ),
        WorkflowManualOperationKind::RouteReviewedNextAction => (
            WorkflowManualCommandKind::WorkflowNextActionRoutingRoute,
            String::from_str("openwand workflow-next-action-routing route --routing-readiness-id <id>"),
            String::from_str("openwand workflow-next-action-routing route --routing-readiness-id <id> --expected-hashes <hashes>"),
        ),
        WorkflowManualOperationKind::ObserveRouteOutcome => (
            WorkflowManualCommandKind::WorkflowActionOutcomeResolve,
            String::from_str("openwand workflow-action-outcome record --route-id <id>"),
            String::from_str("openwand workflow-action-outcome record --route-id <id>"),
        ),
        WorkflowManualOperationKind::ResolveWorkflowApprovalOutcome => {
            missing.push(missing_input("approval_resolution", "Operator must choose approve or reject"));
            (
                WorkflowManualCommandKind::WorkflowActionOutcomeResolve,
                String::from_str("openwand workflow-action-outcome resolve --route-id <id>"),
                String::from_str("openwand workflow-action-outcome resolve --route-id <id> --approval-resolution <approve|reject>"),
            )
        },
        WorkflowManualOperationKind::ReconcileWorkflowOutcome => (
            WorkflowManualCommandKind::WorkflowReconciliationReconcile,
            String::from_str("openwand workflow-reconciliation evaluate --route-id <id>"),
            String::from_str("openwand workflow-reconciliation evaluate --route-id <id> --outcome-id <id>"),
        ),
        WorkflowManualOperationKind::InspectBlockedWorkflow => {
            let mut d = String::from_str("openwand workflow-loop recommend --workflow-execution-id ");
            d.append(wfx);
            let mut c = String::from_str("openwand workflow-loop recommend --workflow-execution-id ");
            c.append(wfx);
            c.append(" --expected-workflow-run-hash <hash>");
            (WorkflowManualCommandKind::InspectBlockedWorkflow, d, c)
        },
        WorkflowManualOperationKind::NoAction => {
            return (
                WorkflowCommandComposerStatus::NoCommandRequired,
                WorkflowCommandComposerDecision::NoCommandRequired { summary: String::from_str("No manual action required") },
                None,
                Vec::new(),
                Vec::new(),
            );
        },
        other => {
            let summary = match other {
                WorkflowManualOperationKind::CreateCommandDescriptor => "Command descriptor composition",
                WorkflowManualOperationKind::ReviewCommandDescriptor => "Command descriptor review",
                WorkflowManualOperationKind::CaptureManualResult => "Manual result capture",
                WorkflowManualOperationKind::ReviewManualResult => "Manual result review",
                WorkflowManualOperationKind::EvaluateReconciliationReadiness => "Reconciliation readiness evaluation",
                _ => "Manual result reconciliation gate",
            };
            return (
                WorkflowCommandComposerStatus::DescriptorReady,
                WorkflowCommandComposerDecision::DescriptorReady { summary: String::from_str(summary) },
                None,
                Vec::new(),
                Vec::new(),
            );
        },
    };
    proof {
        assert(argument_views(args@) =~= expected_arguments(rec.operation, *lc, *context));
        assert(missing_views(missing@) =~= missing_for(rec.operation));
    }
    let warnings = vec![String::from_str("This is a display-only command descriptor. OpenWand does not execute commands.")];
    let links = vec![WorkflowCommandEvidenceLink {
        kind: WorkflowCommandEvidenceKind::LoopController,
        id: lc.controller_id.0.clone(),
        summary: String::from_str(lc.status.debug_name()),
    }];
    proof {
        assert(views(warnings@) =~= seq!["This is a display-only command descriptor. OpenWand does not execute commands."@]);
        assert(command_link_views(links@) =~= seq![
            (WorkflowCommandEvidenceKind::LoopController, lc.controller_id.0@, lc.status.debug_view()),
        ]);
    }
    let descriptor = WorkflowManualCommandDescriptor {
        command_kind: kind,
        display_command: display,
        arguments: args,
        missing_inputs: copy_missing(&missing),
        safety_warnings: warnings,
        evidence_links: links,
        copyable_text: copyable,
        display_only: true,
        executable: false,
    };
    if missing.len() > 0 {
        let mut names: Vec<String> = Vec::new();
        let mut i: usize = 0;
        while i < missing.len()
            invariant
                i <= missing.len(),
                names@.len() == i,
                forall|k: int| 0 <= k < i ==> #[trigger] names@[k]@ == missing@[k].name@,
            decreases missing.len() - i,
        {
            names.push(missing[i].name.clone());
            i += 1;
        }
        proof {
            assert(views(names@) =~= missing_views(missing@).map_values(|m: (Seq<char>, Seq<char>, Seq<char>)| m.0));
        }
        let mut summary = String::from_str("Missing: ");
        let joined = join_strings(&names, ", ");
        summary.append(joined.as_str());
        (
            WorkflowCommandComposerStatus::MissingInputs,
            WorkflowCommandComposerDecision::MissingInputs { summary },
            Some(descriptor),
            missing,
            Vec::new(),
        )
    } else {
        (
            WorkflowCommandComposerStatus::DescriptorReady,
            WorkflowCommandComposerDecision::DescriptorReady { summary: rec.reason.clone() },
            Some(descriptor),
            missing,
            Vec::new(),
        )
    }
}

/// Status, decision, descriptor, missing inputs and links of a composer record.
pub open spec fn composer_outcome_ok(rec: WorkflowCommandComposerRecord, request: WorkflowCommandComposerRequest, context: WorkflowCommandComposerContext) -> bool {
    let checks = composer_checks(request, context);
    if !all_pass(checks) {
        &&& rec.status == WorkflowCommandComposerStatus::Blocked
        &&& rec.decision matches WorkflowCommandComposerDecision::Blocked { reason_code, summary }
        &&& reason_code@ == "predicate_failed"@
        &&& summary@ == join(lowercase_failed_names(checks), ", "@)
        &&& rec.descriptor is None
        &&& rec.missing_inputs@.len() == 0
        &&& rec.evidence_links@.len() == 0
    } else {
        match context.loop_controller_record {
            None => {
                &&& rec.status == WorkflowCommandComposerStatus::Inconclusive
                &&& rec.decision matches WorkflowCommandComposerDecision::Inconclusive { reason_code, summary }
                &&& reason_code@ == "no_loop_controller"@
                &&& summary@ == "Missing"@
                &&& rec.descriptor is None
                &&& rec.missing_inputs@.len() == 0
                &&& rec.evidence_links@.len() == 0
            },
            Some(lc) => composition_ok(rec.status, rec.decision, rec.descriptor, rec.missing_inputs@, rec.evidence_links@, *lc, context),
        }
    }
}

/// Composes a display-only command descriptor from a loop controller record,
/// after fifteen checks. The record holds no authority.
pub fn compose_command_descriptor(
    request: &WorkflowCommandComposerRequest,
    context: &WorkflowCommandComposerContext,
) -> (rec: WorkflowCommandComposerRecord)
    ensures
        rec.composer_id.0@.len() == 20,
        rec.composer_id.0@ == composer_id_of(*request),
        rec.workflow_execution_id.0@ == request.workflow_execution_id.0@,
        rec.loop_controller_id.0@ == request.loop_controller_id.0@,
        rec.loop_controller_hash@ == if context.loop_controller_record is Some {
            text_id(Seq::empty(), context.loop_controller_json@)
        } else {
            Seq::empty()
        },
        check_views(rec.predicates@) == composer_checks(*request, *context),
        composer_outcome_ok(rec, *request, *context),
        !rec.executes_command && !rec.invokes_shell && !rec.invokes_git && !rec.routes_action
            && !rec.resolves_approval && !rec.reconciles_outcome && !rec.mutates_workflow_state
            && !rec.schedules_work && !rec.starts_worker && !rec.queues_operation,
{
    proof {
        reveal_strlit("wcc_");
    }
    let mut pre = String::from_str("command_composer:v1:");
    pre.append(request.workflow_execution_id.0.as_str());
    pre.append(":");
    pre.append(request.loop_controller_id.0.as_str());
    pre.append(":");
    pre.append(request.idempotency_key.as_str());
    let cid = WorkflowCommandComposerId(text_digest_id16("wcc_", pre.as_str()));
    let lc = context.loop_controller_record;
    let same_run = match lc {
        Some(l) => l.workflow_execution_id.0 == request.workflow_execution_id.0,
        None => true,
    };
    let has_rec = match lc {
        Some(l) => l.recommendation.is_some(),
        None => false,
    };
    let flags = vec![
        lc.is_some(), !request.expected_loop_controller_hash.as_str().is_empty(), same_run, has_rec,
        true, true, true, true, true, true, true, true, true, true, true,
    ];
    assert(flags@ =~= composer_flags(*request, *context));
    let table = composer_table_exec();
    assert(table_view(table@).len() == table@.len());
    let predicates: Vec<WorkflowCommandComposerPredicateResult> = build_checks(&table, &flags);
    let (status, decision, descriptor, missing_inputs, evidence_links) = if !all_checks_pass(&predicates) {
        let summary = failed_names_lowercase_joined(&predicates);
        (
            WorkflowCommandComposerStatus::Blocked,
            WorkflowCommandComposerDecision::Blocked { reason_code: String::from_str("predicate_failed"), summary },
            None,
            Vec::new(),
            Vec::new(),
        )
    } else {
        match lc {
            None => (
                WorkflowCommandComposerStatus::Inconclusive,
                WorkflowCommandComposerDecision::Inconclusive {
                    reason_code: String::from_str("no_loop_controller"),
                    summary: String::from_str("Missing"),
                },
                None,
                Vec::new(),
                Vec::new(),
            ),
            Some(l) => build_descriptor_from_recommendation(l, context),
        }
    };
    let lc_hash = match lc {
        Some(_) => {
            let h = text_digest_id("", context.loop_controller_json);
            proof {
                reveal_strlit("");
                assert(""@ =~= Seq::<char>::empty());
            }
            h
        },
        None => String::new(),
    };
    WorkflowCommandComposerRecord {
        composer_id: cid,
        workflow_execution_id: WorkflowExecutionId(request.workflow_execution_id.0.clone()),
        loop_controller_id: WorkflowLoopControllerId(request.loop_controller_id.0.clone()),
        loop_controller_hash: lc_hash,
        status,
        decision,
        predicates,
        descriptor,
        missing_inputs,
        evidence_links,
        executes_command: false,
        invokes_shell: false,
        invokes_git: false,
        routes_action: false,
        resolves_approval: false,
        reconciles_outcome: false,
        mutates_workflow_state: false,
        schedules_work: false,
        starts_worker: false,
        queues_operation: false,
        created_at: now_utc(),
    }
}

} // verus!
