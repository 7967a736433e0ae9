//! Loop controller: recommends the next manual operation. It does not perform,
//! advance, retry, schedule, route, approve or reconcile anything.
use vstd::prelude::*;
use crate::gate::{check_views, push_check, CheckResult, PredicateName};
use crate::ids::{text_digest_id16, text_id16};
use crate::outside::now_utc;
use crate::text::{lowercase_of, to_lowercase, views};
use crate::workflow_action_outcome::{WorkflowActionOutcomeRecord, WorkflowActionOutcomeStatus};
use crate::workflow_action_route::{WorkflowActionRouteRecord, WorkflowActionRouteStatus};
use crate::workflow_continuation::{WorkflowContinuationReadinessRecord, WorkflowNextActionProposal};
use crate::workflow_loop_state::{WorkflowDetectedLoopState, WorkflowLoopStageSummary};
use crate::workflow_next_action_review::{WorkflowNextActionReview, WorkflowNextActionReviewDecision};
use crate::workflow_next_action_routing_gate::WorkflowNextActionRoutingRecord;
use crate::workflow_reconciliation::{is_terminal, is_terminal_stage_status, WorkflowReconciliationRecord, WorkflowReconciliationStatus, WorkflowRunRevision};
use crate::workflow_routing_readiness::{WorkflowRoutingReadinessRecord, WorkflowRoutingReadinessStatus};
use crate::workflow_run::{WorkflowRunRecord, WorkflowStageRun, WorkflowStageRunStatus};
use crate::outside::Timestamp;
use crate::workflow_loop_recommendation::{WorkflowLoopEvidenceLink, WorkflowLoopRecommendation, WorkflowManualOperationKind};
use crate::workflow_loop_state::WorkflowLoopState;
use crate::workflow_reconciliation::WorkflowRunRevisionId;
use crate::workflow_run::WorkflowExecutionId;

verus! {

/// Content-addressed controller ID. Format: wlc_<blake3_hex>
#[derive(Debug, Clone, PartialEq, Eq, Hash)]
pub struct WorkflowLoopControllerId(pub String);

#[derive(Debug, Clone)]
pub struct WorkflowLoopControllerRequest {
    pub workflow_execution_id: WorkflowExecutionId,
    pub latest_run_revision_id: Option<WorkflowRunRevisionId>,
    pub expected_workflow_run_hash: String,
    pub expected_latest_revision_hash: Option<String>,
    pub requested_by: String,
    pub requested_at: Timestamp,
    pub idempotency_key: String,
}

#[derive(Debug, Clone)]
pub struct WorkflowLoopControllerRecord {
    pub controller_id: WorkflowLoopControllerId,
    pub workflow_execution_id: WorkflowExecutionId,
    pub latest_run_revision_id: Option<WorkflowRunRevisionId>,
    pub status: WorkflowLoopControllerStatus,
    pub decision: WorkflowLoopControllerDecision,
    pub loop_state: Option<WorkflowLoopState>,
    pub recommendation: Option<WorkflowLoopRecommendation>,
    pub predicates: Vec<WorkflowLoopPredicateResult>,
    pub evidence_links: Vec<WorkflowLoopEvidenceLink>,
    /// Always false — controller never creates routes.
    pub creates_route: bool,
    /// Always false — controller never resolves approvals.
    pub resolves_approval: bool,
    /// Always false — controller never reconciles outcomes.
    pub reconciles_outcome: bool,
    /// Always false — controller never executes tools.
    pub executes_tool: bool,
    /// Always false — controller never mutates workflow state.
    pub mutates_workflow_state: bool,
    /// Always false — controller never schedules work.
    pub schedules_work: bool,
    /// Always false — controller never starts workers.
    pub starts_worker: bool,
    /// Always false — controller never queues operations.
    pub queues_operation: bool,
    /// Always false — controller never retries operations.
    pub retries_operation: bool,
    /// Always false — controller never resumes workflows.
    pub resumes_workflow: bool,
    pub created_at: Timestamp,
}

#[derive(Debug, Clone, Copy, PartialEq, Eq, Structural)]
pub enum WorkflowLoopControllerStatus {
    RecommendationReady,
    NoManualActionRequired,
    Blocked,
    Inconclusive,
}

impl WorkflowLoopControllerStatus {
    /// The `Debug` name of the value.
    pub open spec fn debug_view(self) -> Seq<char> {
        match self {
            WorkflowLoopControllerStatus::RecommendationReady => "RecommendationReady"@,
            WorkflowLoopControllerStatus::NoManualActionRequired => "NoManualActionRequired"@,
            WorkflowLoopControllerStatus::Blocked => "Blocked"@,
            WorkflowLoopControllerStatus::Inconclusive => "Inconclusive"@,
        }
    }

    pub fn debug_name(&self) -> (s: &'static str)
        ensures
            s@ == self.debug_view(),
    {
        match self {
            WorkflowLoopControllerStatus::RecommendationReady => "RecommendationReady",
            WorkflowLoopControllerStatus::NoManualActionRequired => "NoManualActionRequired",
            WorkflowLoopControllerStatus::Blocked => "Blocked",
            WorkflowLoopControllerStatus::Inconclusive => "Inconclusive",
        }
    }
}

#[derive(Debug, Clone)]
pub enum WorkflowLoopControllerDecision {
    Recommend { operation: WorkflowManualOperationKind, summary: String },
    NoManualActionRequired { summary: String },
    Blocked { reason_code: String, summary: String },
    Inconclusive { reason_code: String, summary: String },
}

/// Checks of the WorkflowLoopPredicate.
#[derive(Debug, Clone, Copy, PartialEq, Eq, Structural)]
pub enum WorkflowLoopPredicate {
    WorkflowRunExists,
    WorkflowRunHashMatchesRequest,
    LatestRunRevisionResolved,
    LatestRunRevisionHashMatchesRequest,
    EvidenceChainLoadable,
    EvidenceChainReferencesSameWorkflowRun,
    NoConflictingLatestRecords,
    StageStateReadable,
    RouteStateReadable,
    OutcomeStateReadable,
    ReconciliationStateReadable,
    ContinuationStateReadable,
    ReviewStateReadable,
    RoutingReadinessStateReadable,
    NextActionRoutingStateReadable,
    ManualOperationDetermined,
    RecommendationDoesNotCreateRoute,
    RecommendationDoesNotResolveApproval,
    RecommendationDoesNotReconcileOutcome,
    RecommendationDoesNotExecuteTool,
    RecommendationDoesNotMutateWorkflowState,
    IdempotencyKeyUnusedOrMatchesExisting,
}

impl PredicateName for WorkflowLoopPredicate {
    open spec fn name_view(self) -> Seq<char> {
        match self {
            WorkflowLoopPredicate::WorkflowRunExists => "WorkflowRunExists"@,
            WorkflowLoopPredicate::WorkflowRunHashMatchesRequest => "WorkflowRunHashMatchesRequest"@,
            WorkflowLoopPredicate::LatestRunRevisionResolved => "LatestRunRevisionResolved"@,
            WorkflowLoopPredicate::LatestRunRevisionHashMatchesRequest => "LatestRunRevisionHashMatchesRequest"@,
            WorkflowLoopPredicate::EvidenceChainLoadable => "EvidenceChainLoadable"@,
            WorkflowLoopPredicate::EvidenceChainReferencesSameWorkflowRun => "EvidenceChainReferencesSameWorkflowRun"@,
            WorkflowLoopPredicate::NoConflictingLatestRecords => "NoConflictingLatestRecords"@,
            WorkflowLoopPredicate::StageStateReadable => "StageStateReadable"@,
            WorkflowLoopPredicate::RouteStateReadable => "RouteStateReadable"@,
            WorkflowLoopPredicate::OutcomeStateReadable => "OutcomeStateReadable"@,
            WorkflowLoopPredicate::ReconciliationStateReadable => "ReconciliationStateReadable"@,
            WorkflowLoopPredicate::ContinuationStateReadable => "ContinuationStateReadable"@,
            WorkflowLoopPredicate::ReviewStateReadable => "ReviewStateReadable"@,
            WorkflowLoopPredicate::RoutingReadinessStateReadable => "RoutingReadinessStateReadable"@,
            WorkflowLoopPredicate::NextActionRoutingStateReadable => "NextActionRoutingStateReadable"@,
            WorkflowLoopPredicate::ManualOperationDetermined => "ManualOperationDetermined"@,
            WorkflowLoopPredicate::RecommendationDoesNotCreateRoute => "RecommendationDoesNotCreateRoute"@,
            WorkflowLoopPredicate::RecommendationDoesNotResolveApproval => "RecommendationDoesNotResolveApproval"@,
            WorkflowLoopPredicate::RecommendationDoesNotReconcileOutcome => "RecommendationDoesNotReconcileOutcome"@,
            WorkflowLoopPredicate::RecommendationDoesNotExecuteTool => "RecommendationDoesNotExecuteTool"@,
            WorkflowLoopPredicate::RecommendationDoesNotMutateWorkflowState => "RecommendationDoesNotMutateWorkflowState"@,
            WorkflowLoopPredicate::IdempotencyKeyUnusedOrMatchesExisting => "IdempotencyKeyUnusedOrMatchesExisting"@,
        }
    }

    fn debug_name(&self) -> (s: &'static str) {
        match self {
            WorkflowLoopPredicate::WorkflowRunExists => "WorkflowRunExists",
            WorkflowLoopPredicate::WorkflowRunHashMatchesRequest => "WorkflowRunHashMatchesRequest",
            WorkflowLoopPredicate::LatestRunRevisionResolved => "LatestRunRevisionResolved",
            WorkflowLoopPredicate::LatestRunRevisionHashMatchesRequest => "LatestRunRevisionHashMatchesRequest",
            WorkflowLoopPredicate::EvidenceChainLoadable => "EvidenceChainLoadable",
            WorkflowLoopPredicate::EvidenceChainReferencesSameWorkflowRun => "EvidenceChainReferencesSameWorkflowRun",
            WorkflowLoopPredicate::NoConflictingLatestRecords => "NoConflictingLatestRecords",
            WorkflowLoopPredicate::StageStateReadable => "StageStateReadable",
            WorkflowLoopPredicate::RouteStateReadable => "RouteStateReadable",
            WorkflowLoopPredicate::OutcomeStateReadable => "OutcomeStateReadable",
            WorkflowLoopPredicate::ReconciliationStateReadable => "ReconciliationStateReadable",
            WorkflowLoopPredicate::ContinuationStateReadable => "ContinuationStateReadable",
            WorkflowLoopPredicate::ReviewStateReadable => "ReviewStateReadable",
            WorkflowLoopPredicate::RoutingReadinessStateReadable => "RoutingReadinessStateReadable",
            WorkflowLoopPredicate::NextActionRoutingStateReadable => "NextActionRoutingStateReadable",
            WorkflowLoopPredicate::ManualOperationDetermined => "ManualOperationDetermined",
            WorkflowLoopPredicate::RecommendationDoesNotCreateRoute => "RecommendationDoesNotCreateRoute",
            WorkflowLoopPredicate::RecommendationDoesNotResolveApproval => "RecommendationDoesNotResolveApproval",
            WorkflowLoopPredicate::RecommendationDoesNotReconcileOutcome => "RecommendationDoesNotReconcileOutcome",
            WorkflowLoopPredicate::RecommendationDoesNotExecuteTool => "RecommendationDoesNotExecuteTool",
            WorkflowLoopPredicate::RecommendationDoesNotMutateWorkflowState => "RecommendationDoesNotMutateWorkflowState",
            WorkflowLoopPredicate::IdempotencyKeyUnusedOrMatchesExisting => "IdempotencyKeyUnusedOrMatchesExisting",
        }
    }
}

/// Result of evaluating one check.
#[derive(Debug, Clone)]
pub struct WorkflowLoopPredicateResult {
    pub predicate: WorkflowLoopPredicate,
    pub passed: bool,
    pub reason: String,
}

impl CheckResult for WorkflowLoopPredicateResult {
    type P = WorkflowLoopPredicate;

    open spec fn check_view(&self) -> (WorkflowLoopPredicate, bool, Seq<char>) {
        (self.predicate, self.passed, self.reason@)
    }

    fn passed_flag(&self) -> (b: bool) {
        self.passed
    }

    fn predicate_value(&self) -> (p: WorkflowLoopPredicate) {
        self.predicate
    }

    fn reason_text(&self) -> (s: &str) {
        self.reason.as_str()
    }

    fn make_check(p: Self::P, passed: bool, reason: String) -> (r: Self) {
        Self { predicate: p, passed, reason }
    }
}

/// Evidence for the loop controller: the latest record of each kind, already
/// resolved by the caller. Nothing here executes.
#[derive(Debug, Clone)]
pub struct WorkflowLoopContext<'a> {
    pub workflow_run: Option<&'a WorkflowRunRecord>,
    pub latest_revision: Option<&'a WorkflowRunRevision>,
    pub latest_route: Option<&'a WorkflowActionRouteRecord>,
    pub latest_outcome: Option<&'a WorkflowActionOutcomeRecord>,
    pub latest_reconciliation: Option<&'a WorkflowReconciliationRecord>,
    pub latest_continuation: Option<&'a WorkflowContinuationReadinessRecord>,
    pub latest_proposal: Option<&'a WorkflowNextActionProposal>,
    pub latest_review: Option<&'a WorkflowNextActionReview>,
    pub latest_routing_readiness: Option<&'a WorkflowRoutingReadinessRecord>,
    pub latest_next_action_routing: Option<&'a WorkflowNextActionRoutingRecord>,
}

/// The controller id a request names.
pub open spec fn controller_id_of(request: WorkflowLoopControllerRequest) -> Seq<char> {
    text_id16(
        "wlc_"@,
        "loop_controller:v1:"@ + request.workflow_execution_id.0@ + ":"@ + request.idempotency_key@,
    )
}

/// Every stage of the revision is terminal.
pub open spec fn all_stages_terminal(s: Seq<WorkflowStageRun>) -> bool {
    forall|i: int| 0 <= i < s.len() ==> is_terminal(#[trigger] s[i].status)
}

/// The latest reconciliation is reconciled.
pub open spec fn reconciled(context: WorkflowLoopContext) -> bool {
    match context.latest_reconciliation {
        Some(r) => r.status == WorkflowReconciliationStatus::Reconciled,
        None => false,
    }
}

/// The latest routing record was made from the latest revision (never, without a
/// revision).
pub open spec fn routing_from_latest_revision(context: WorkflowLoopContext) -> bool {
    match (context.latest_next_action_routing, context.latest_revision) {
        (Some(nar), Some(v)) => nar.source_run_revision_id.0@ == v.revision_id.0@,
        _ => false,
    }
}

/// The latest outcome is terminal: a tool completed or was denied, or an approval was resolved.
pub open spec fn terminal_outcome(context: WorkflowLoopContext) -> bool {
    match context.latest_outcome {
        Some(o) => o.status == WorkflowActionOutcomeStatus::ToolCompleted || o.status
            == WorkflowActionOutcomeStatus::ToolDenied || o.status == WorkflowActionOutcomeStatus::ApprovalResolved,
        None => false,
    }
}

/// The latest route has the given status.
pub open spec fn route_in(context: WorkflowLoopContext, st: WorkflowActionRouteStatus) -> bool {
    match context.latest_route {
        Some(r) => r.status == st,
        None => false,
    }
}

/// The latest routing readiness is ready.
pub open spec fn readiness_ready(context: WorkflowLoopContext) -> bool {
    match context.latest_routing_readiness {
        Some(r) => r.status == WorkflowRoutingReadinessStatus::Ready,
        None => false,
    }
}

/// The latest review approved the proposal.
pub open spec fn review_approved(context: WorkflowLoopContext) -> bool {
    match context.latest_review {
        Some(r) => r.decision == WorkflowNextActionReviewDecision::Approved,
        None => false,
    }
}

/// Every stage of the latest revision is terminal.
pub open spec fn revision_complete(context: WorkflowLoopContext) -> bool {
    match context.latest_revision {
        Some(v) => all_stages_terminal(v.stages@),
        None => false,
    }
}

/// The state of the loop, found by walking the evidence chain from its newest
/// step down and stopping at the first step that is not resolved.
pub open spec fn detected_state(context: WorkflowLoopContext) -> WorkflowDetectedLoopState {
    if context.workflow_run is None {
        WorkflowDetectedLoopState::Inconclusive
    } else if revision_complete(context) {
        WorkflowDetectedLoopState::WorkflowComplete
    } else if reconciled(context) && (context.latest_proposal is None || routing_from_latest_revision(context)) {
        WorkflowDetectedLoopState::NeedsContinuationAfterReconciliation
    } else if terminal_outcome(context) && context.latest_reconciliation is None {
        WorkflowDetectedLoopState::NeedsOutcomeReconciliation
    } else if route_in(context, WorkflowActionRouteStatus::SuspendedForApproval) && context.latest_outcome is None {
        WorkflowDetectedLoopState::NeedsApprovalOutcomeResolution
    } else if route_in(context, WorkflowActionRouteStatus::Routed) && context.latest_outcome is None {
        WorkflowDetectedLoopState::NeedsSessionRoutingObservation
    } else if readiness_ready(context) && context.latest_next_action_routing is None {
        WorkflowDetectedLoopState::NeedsNextActionRouting
    } else if review_approved(context) && context.latest_routing_readiness is None {
        WorkflowDetectedLoopState::NeedsRoutingReadiness
    } else if context.latest_proposal is Some && context.latest_review is None {
        WorkflowDetectedLoopState::NeedsNextActionReview
    } else if context.latest_revision is Some && context.latest_continuation is None && context.latest_proposal is None {
        WorkflowDetectedLoopState::NeedsInitialContinuationProposal
    } else {
        WorkflowDetectedLoopState::Inconclusive
    }
}

/// The detected state always rests on the evidence that state speaks of. A run
/// that awaits session observation has a routed route and no outcome; one that
/// awaits approval resolution has a route suspended for approval and no outcome;
/// every other state likewise names what is present and what is missing. The
/// command and manual-result states and the blocked state are never detected
/// from the evidence chain.
pub proof fn lemma_detected_state_rests_on_evidence(context: WorkflowLoopContext)
    ensures
        ({
            let d = detected_state(context);
            &&& d != WorkflowDetectedLoopState::Inconclusive ==> context.workflow_run is Some
            &&& d == WorkflowDetectedLoopState::WorkflowComplete ==> (context.latest_revision matches Some(v)
                && forall|i: int| 0 <= i < v.stages@.len() ==> (#[trigger] v.stages@[i]).status
                    == WorkflowStageRunStatus::Completed || v.stages@[i].status == WorkflowStageRunStatus::Failed
                    || v.stages@[i].status == WorkflowStageRunStatus::Blocked)
            &&& d == WorkflowDetectedLoopState::NeedsContinuationAfterReconciliation
                ==> (context.latest_reconciliation matches Some(c) && c.status == WorkflowReconciliationStatus::Reconciled)
            &&& d == WorkflowDetectedLoopState::NeedsOutcomeReconciliation ==> (context.latest_reconciliation is None
                && (context.latest_outcome matches Some(o) && (o.status == WorkflowActionOutcomeStatus::ToolCompleted
                || o.status == WorkflowActionOutcomeStatus::ToolDenied || o.status
                == WorkflowActionOutcomeStatus::ApprovalResolved)))
            &&& d == WorkflowDetectedLoopState::NeedsApprovalOutcomeResolution ==> (context.latest_outcome is None
                && (context.latest_route matches Some(r) && r.status == WorkflowActionRouteStatus::SuspendedForApproval))
            &&& d == WorkflowDetectedLoopState::NeedsSessionRoutingObservation ==> (context.latest_outcome is None
                && (context.latest_route matches Some(r) && r.status == WorkflowActionRouteStatus::Routed))
            &&& d == WorkflowDetectedLoopState::NeedsNextActionRouting ==> (context.latest_next_action_routing is None
                && (context.latest_routing_readiness matches Some(r) && r.status == WorkflowRoutingReadinessStatus::Ready))
            &&& d == WorkflowDetectedLoopState::NeedsRoutingReadiness ==> (context.latest_routing_readiness is None
                && (context.latest_review matches Some(r) && r.decision == WorkflowNextActionReviewDecision::Approved))
            &&& d == WorkflowDetectedLoopState::NeedsNextActionReview ==> (context.latest_proposal is Some
                && context.latest_review is None)
            &&& d == WorkflowDetectedLoopState::NeedsInitialContinuationProposal ==> (context.latest_revision is Some
                && context.latest_continuation is None && context.latest_proposal is None)
            &&& d != WorkflowDetectedLoopState::NeedsCommandDescriptor
            &&& d != WorkflowDetectedLoopState::NeedsCommandReview
            &&& d != WorkflowDetectedLoopState::NeedsManualResultCapture
            &&& d != WorkflowDetectedLoopState::NeedsManualResultReview
            &&& d != WorkflowDetectedLoopState::NeedsReconciliationReadiness
            &&& d != WorkflowDetectedLoopState::NeedsManualReconciliation
            &&& d != WorkflowDetectedLoopState::WorkflowBlocked
        }),
{
}

/// The loop walks its evidence from the newest step down. Without a run nothing
/// can be told. A run whose latest revision is not wholly terminal and that has no
/// reconciliation then goes by its outcome and route: a terminal outcome awaits
/// reconciliation; with no outcome, a route suspended for approval awaits approval
/// resolution and a routed route awaits session observation. With a reconciled
/// reconciliation and no proposal, the loop awaits continuation.
pub proof fn lemma_detection_follows_the_chain(context: WorkflowLoopContext)
    ensures
        context.workflow_run is None ==> detected_state(context) == WorkflowDetectedLoopState::Inconclusive,
        ({
            let open = context.workflow_run is Some && !(context.latest_revision matches Some(v) && forall|i: int|
                0 <= i < v.stages@.len() ==> (#[trigger] v.stages@[i]).status == WorkflowStageRunStatus::Completed
                    || v.stages@[i].status == WorkflowStageRunStatus::Failed || v.stages@[i].status
                    == WorkflowStageRunStatus::Blocked);
            &&& (context.workflow_run is Some && (context.latest_revision matches Some(v) && forall|i: int|
                0 <= i < v.stages@.len() ==> (#[trigger] v.stages@[i]).status == WorkflowStageRunStatus::Completed
                    || v.stages@[i].status == WorkflowStageRunStatus::Failed || v.stages@[i].status
                    == WorkflowStageRunStatus::Blocked)) ==> detected_state(context)
                == WorkflowDetectedLoopState::WorkflowComplete
            &&& (open && (context.latest_reconciliation matches Some(c) && c.status
                == WorkflowReconciliationStatus::Reconciled && context.latest_proposal is None)) ==> detected_state(context)
                == WorkflowDetectedLoopState::NeedsContinuationAfterReconciliation
            &&& (open && context.latest_reconciliation is None && (context.latest_outcome matches Some(o) && (o.status
                == WorkflowActionOutcomeStatus::ToolCompleted || o.status == WorkflowActionOutcomeStatus::ToolDenied
                || o.status == WorkflowActionOutcomeStatus::ApprovalResolved))) ==> detected_state(context)
                == WorkflowDetectedLoopState::NeedsOutcomeReconciliation
            &&& (open && context.latest_reconciliation is None && context.latest_outcome is None
                && (context.latest_route matches Some(r) && r.status == WorkflowActionRouteStatus::SuspendedForApproval))
                ==> detected_state(context) == WorkflowDetectedLoopState::NeedsApprovalOutcomeResolution
            &&& (open && context.latest_reconciliation is None && context.latest_outcome is None
                && (context.latest_route matches Some(r) && r.status == WorkflowActionRouteStatus::Routed))
                ==> detected_state(context) == WorkflowDetectedLoopState::NeedsSessionRoutingObservation
        }),
{
}

fn stages_all_terminal(s: &Vec<WorkflowStageRun>) -> (b: bool)
    ensures
        b == all_stages_terminal(s@),
{
    let mut i: usize = 0;
    while i < s.len()
        invariant
            i <= s.len(),
            forall|k: int| 0 <= k < i ==> is_terminal(#[trigger] s@[k].status),
        decreases s.len() - i,
    {
        if !is_terminal_stage_status(&s[i].status) {
            return false;
        }
        i += 1;
    }
    true
}

/// Walks the evidence chain and reports the loop's state.
pub fn detect_loop_state(context: &WorkflowLoopContext) -> (d: WorkflowDetectedLoopState)
    ensures
        d == detected_state(*context),
{
    let rev = context.latest_revision;
    if context.workflow_run.is_none() {
        return WorkflowDetectedLoopState::Inconclusive;
    }
    if let Some(v) = rev {
        if stages_all_terminal(&v.stages) {
            return WorkflowDetectedLoopState::WorkflowComplete;
        }
    }
    if let Some(recon) = context.latest_reconciliation {
        if recon.status == WorkflowReconciliationStatus::Reconciled {
            let after = match context.latest_proposal {
                None => true,
                Some(_) => match context.latest_next_action_routing {
                    Some(nar) => match rev {
                        Some(v) => nar.source_run_revision_id.0 == v.revision_id.0,
                        None => false,
                    },
                    None => false,
                },
            };
            if after {
                return WorkflowDetectedLoopState::NeedsContinuationAfterReconciliation;
            }
        }
    }
    if let Some(o) = context.latest_outcome {
        if (o.status == WorkflowActionOutcomeStatus::ToolCompleted || o.status == WorkflowActionOutcomeStatus::ToolDenied
            || o.status == WorkflowActionOutcomeStatus::ApprovalResolved) && context.latest_reconciliation.is_none() {
            return WorkflowDetectedLoopState::NeedsOutcomeReconciliation;
        }
    }
    if let Some(r) = context.latest_route {
        if r.status == WorkflowActionRouteStatus::SuspendedForApproval && context.latest_outcome.is_none() {
            return WorkflowDetectedLoopState::NeedsApprovalOutcomeResolution;
        }
        if r.status == WorkflowActionRouteStatus::Routed && context.latest_outcome.is_none() {
            return WorkflowDetectedLoopState::NeedsSessionRoutingObservation;
        }
    }
    if let Some(r) = context.latest_routing_readiness {
        if r.status == WorkflowRoutingReadinessStatus::Ready && context.latest_next_action_routing.is_none() {
            return WorkflowDetectedLoopState::NeedsNextActionRouting;
        }
    }
    if let Some(r) = context.latest_review {
        if r.decision == WorkflowNextActionReviewDecision::Approved && context.latest_routing_readiness.is_none() {
            return WorkflowDetectedLoopState::NeedsRoutingReadiness;
        }
    }
    if context.latest_proposal.is_some() && context.latest_review.is_none() {
        return WorkflowDetectedLoopState::NeedsNextActionReview;
    }
    if rev.is_some() && context.latest_continuation.is_none() && context.latest_proposal.is_none() {
        return WorkflowDetectedLoopState::NeedsInitialContinuationProposal;
    }
    WorkflowDetectedLoopState::Inconclusive
}

/// A recommendation with the given fields and no evidence links.
pub open spec fn recommendation_is(
    r: WorkflowLoopRecommendation,
    op: WorkflowManualOperationKind,
    hint: Seq<char>,
    reason: Seq<char>,
    inputs: Seq<Seq<char>>,
) -> bool {
    &&& r.operation == op
    &&& r.command_hint@ == hint
    &&& r.reason@ == reason
    &&& views(r.required_inputs@) == inputs
    &&& r.evidence_links@.len() == 0
}

/// The recommendation for each detected state (none for a complete or
/// inconclusive workflow, and none for the manual-result states).
pub open spec fn recommendation_for(r: Option<WorkflowLoopRecommendation>, d: WorkflowDetectedLoopState) -> bool {
    match d {
        WorkflowDetectedLoopState::NeedsInitialContinuationProposal => r matches Some(x) && recommendation_is(x,
            WorkflowManualOperationKind::CreateContinuationProposal,
            "openwand workflow-continuation propose --workflow-execution-id <id> ..."@,
            "No continuation proposal exists for this workflow run"@, seq!["workflow_execution_id"@, "latest_run_revision_id"@]),
        WorkflowDetectedLoopState::NeedsNextActionReview => r matches Some(x) && recommendation_is(x,
            WorkflowManualOperationKind::ReviewNextActionProposal,
            "openwand workflow-next-action-review approve --proposal-id <id> ..."@,
            "Next-action proposal exists but has not been reviewed"@, seq!["proposal_id"@, "review_author"@, "rationale"@]),
        WorkflowDetectedLoopState::NeedsRoutingReadiness => r matches Some(x) && recommendation_is(x,
            WorkflowManualOperationKind::EvaluateRoutingReadiness,
            "openwand workflow-routing-readiness evaluate --proposal-id <id> ..."@,
            "Next-action review is approved but routing readiness has not been evaluated"@, seq!["proposal_id"@, "review_id"@, "expected hashes"@]),
        WorkflowDetectedLoopState::NeedsNextActionRouting => r matches Some(x) && recommendation_is(x,
            WorkflowManualOperationKind::RouteReviewedNextAction,
            "openwand workflow-next-action-routing route --routing-readiness-id <id> ..."@,
            "Routing readiness is Ready but no route has been created"@, seq!["routing_readiness_id"@, "expected hashes"@]),
        WorkflowDetectedLoopState::NeedsSessionRoutingObservation => r matches Some(x) && recommendation_is(x,
            WorkflowManualOperationKind::ObserveRouteOutcome,
            "openwand workflow-action-outcome record --route-id <id> ..."@,
            "Route exists but no outcome has been recorded"@, seq!["route_id"@]),
        WorkflowDetectedLoopState::NeedsApprovalOutcomeResolution => r matches Some(x) && recommendation_is(x,
            WorkflowManualOperationKind::ResolveWorkflowApprovalOutcome,
            "openwand workflow-action-outcome record --route-id <id> --approval-resolved ..."@,
            "Route is suspended for approval but no outcome recorded"@, seq!["route_id"@, "approval_decision"@]),
        WorkflowDetectedLoopState::NeedsOutcomeReconciliation => r matches Some(x) && recommendation_is(x,
            WorkflowManualOperationKind::ReconcileWorkflowOutcome,
            "openwand workflow-reconciliation evaluate --route-id <id> ..."@,
            "Terminal outcome exists but no reconciliation performed"@, seq!["outcome_id"@, "route_id"@]),
        WorkflowDetectedLoopState::NeedsContinuationAfterReconciliation => r matches Some(x) && recommendation_is(x,
            WorkflowManualOperationKind::CreateContinuationProposal,
            "openwand workflow-continuation propose --workflow-execution-id <id> ..."@,
            "Reconciliation complete; new continuation proposal needed"@, seq!["workflow_execution_id"@]),
        WorkflowDetectedLoopState::WorkflowBlocked => r matches Some(x) && recommendation_is(x,
            WorkflowManualOperationKind::InspectBlockedWorkflow,
            "openwand workflow-loop recommend --workflow-execution-id <id>"@,
            "Workflow is blocked; inspect evidence to determine cause"@, seq!["workflow_execution_id"@]),
        _ => r is None,
    }
}

fn strings_of(v: Vec<&str>) -> (out: Vec<String>)
    ensures
        views(out@) == v@.map_values(|s: &str| s@),
{
    let mut out: Vec<String> = Vec::new();
    let mut i: usize = 0;
    while i < v.len()
        invariant
            i <= v.len(),
            out@.len() == i,
            forall|k: int| 0 <= k < i ==> #[trigger] out@[k]@ == v@[k]@,
        decreases v.len() - i,
    {
        out.push(String::from_str(v[i]));
        i += 1;
    }
    assert(views(out@) =~= v@.map_values(|s: &str| s@));
    out
}

fn make_recommendation(op: WorkflowManualOperationKind, hint: &str, reason: &str, inputs: Vec<&str>) -> (r: WorkflowLoopRecommendation)
    ensures
        recommendation_is(r, op, hint@, reason@, inputs@.map_values(|s: &str| s@)),
{
    WorkflowLoopRecommendation {
        operation: op,
        command_hint: String::from_str(hint),
        reason: String::from_str(reason),
        required_inputs: strings_of(inputs),
        evidence_links: Vec::new(),
    }
}

/// The display-only recommendation for a detected loop state.
pub fn build_recommendation(detected: &WorkflowDetectedLoopState) -> (r: Option<WorkflowLoopRecommendation>)
    ensures
        recommendation_for(r, *detected),
{
    match detected {
        WorkflowDetectedLoopState::NeedsInitialContinuationProposal => {
            let v = vec!["workflow_execution_id", "latest_run_revision_id"];
            let r = make_recommendation(WorkflowManualOperationKind::CreateContinuationProposal,
                "openwand workflow-continuation propose --workflow-execution-id <id> ...",
                "No continuation proposal exists for this workflow run", v);
            assert(v@.map_values(|s: &str| s@) =~= seq!["workflow_execution_id"@, "latest_run_revision_id"@]);
            Some(r)
        },
        WorkflowDetectedLoopState::NeedsNextActionReview => {
            let v = vec!["proposal_id", "review_author", "rationale"];
            let r = make_recommendation(WorkflowManualOperationKind::ReviewNextActionProposal,
                "openwand workflow-next-action-review approve --proposal-id <id> ...",
                "Next-action proposal exists but has not been reviewed", v);
            assert(v@.map_values(|s: &str| s@) =~= seq!["proposal_id"@, "review_author"@, "rationale"@]);
            Some(r)
        },
        WorkflowDetectedLoopState::NeedsRoutingReadiness => {
            let v = vec!["proposal_id", "review_id", "expected hashes"];
            let r = make_recommendation(WorkflowManualOperationKind::EvaluateRoutingReadiness,
                "openwand workflow-routing-readiness evaluate --proposal-id <id> ...",
                "Next-action review is approved but routing readiness has not been evaluated", v);
            assert(v@.map_values(|s: &str| s@) =~= seq!["proposal_id"@, "review_id"@, "expected hashes"@]);
            Some(r)
        },
        WorkflowDetectedLoopState::NeedsNextActionRouting => {
            let v = vec!["routing_readiness_id", "expected hashes"];
            let r = make_recommendation(WorkflowManualOperationKind::RouteReviewedNextAction,
                "openwand workflow-next-action-routing route --routing-readiness-id <id> ...",
                "Routing readiness is Ready but no route has been created", v);
            assert(v@.map_values(|s: &str| s@) =~= seq!["routing_readiness_id"@, "expected hashes"@]);
            Some(r)
        },
        WorkflowDetectedLoopState::NeedsSessionRoutingObservation => {
            let v = vec!["route_id"];
            let r = make_recommendation(WorkflowManualOperationKind::ObserveRouteOutcome,
                "openwand workflow-action-outcome record --route-id <id> ...",
                "Route exists but no outcome has been recorded", v);
            assert(v@.map_values(|s: &str| s@) =~= seq!["route_id"@]);
            Some(r)
        },
        WorkflowDetectedLoopState::NeedsApprovalOutcomeResolution => {
            let v = vec!["route_id", "approval_decision"];
            let r = make_recommendation(WorkflowManualOperationKind::ResolveWorkflowApprovalOutcome,
                "openwand workflow-action-outcome record --route-id <id> --approval-resolved ...",
                "Route is suspended for approval but no outcome recorded", v);
            assert(v@.map_values(|s: &str| s@) =~= seq!["route_id"@, "approval_decision"@]);
            Some(r)
        },
        WorkflowDetectedLoopState::NeedsOutcomeReconciliation => {
            let v = vec!["outcome_id", "route_id"];
            let r = make_recommendation(WorkflowManualOperationKind::ReconcileWorkflowOutcome,
                "openwand workflow-reconciliation evaluate --route-id <id> ...",
                "Terminal outcome exists but no reconciliation performed", v);
            assert(v@.map_values(|s: &str| s@) =~= seq!["outcome_id"@, "route_id"@]);
            Some(r)
        },
        WorkflowDetectedLoopState::NeedsContinuationAfterReconciliation => {
            let v = vec!["workflow_execution_id"];
            let r = make_recommendation(WorkflowManualOperationKind::CreateContinuationProposal,
                "openwand workflow-continuation propose --workflow-execution-id <id> ...",
                "Reconciliation complete; new continuation proposal needed", v);
            assert(v@.map_values(|s: &str| s@) =~= seq!["workflow_execution_id"@]);
            Some(r)
        },
        WorkflowDetectedLoopState::WorkflowBlocked => {
            let v = vec!["workflow_execution_id"];
            let r = make_recommendation(WorkflowManualOperationKind::InspectBlockedWorkflow,
                "openwand workflow-loop recommend --workflow-execution-id <id>",
                "Workflow is blocked; inspect evidence to determine cause", v);
            assert(v@.map_values(|s: &str| s@) =~= seq!["workflow_execution_id"@]);
            Some(r)
        },
        _ => None,
    }
}

/// The twenty-two controller predicates, in order, with their outcomes and reasons.
pub open spec fn loop_checks(request: WorkflowLoopControllerRequest, context: WorkflowLoopContext) -> Seq<(WorkflowLoopPredicate, bool, Seq<char>)> {
    let run = context.workflow_run;
    let rev = context.latest_revision;
    let hash_ok = request.expected_workflow_run_hash@.len() > 0;
    let rev_hash_ok = match request.expected_latest_revision_hash {
        Some(h) => h@.len() > 0,
        None => true,
    };
    let same_run = match (run, rev) {
        (Some(r), Some(v)) => v.workflow_execution_id.0@ == r.execution_id.0@,
        _ => true,
    };
    seq![
        (WorkflowLoopPredicate::WorkflowRunExists, run is Some, if run is Some { "Run found"@ } else { "No run"@ }),
        (WorkflowLoopPredicate::WorkflowRunHashMatchesRequest, hash_ok, if hash_ok { "Hash provided"@ } else { "Missing"@ }),
        (WorkflowLoopPredicate::LatestRunRevisionResolved, true, "Revision resolved by loader"@),
        (WorkflowLoopPredicate::LatestRunRevisionHashMatchesRequest, rev_hash_ok, if rev_hash_ok { "Consistent"@ } else { "Mismatch"@ }),
        (WorkflowLoopPredicate::EvidenceChainLoadable, true, "All evidence loaded"@),
        (WorkflowLoopPredicate::EvidenceChainReferencesSameWorkflowRun, same_run, if same_run { "Consistent"@ } else { "Mismatch"@ }),
        (WorkflowLoopPredicate::NoConflictingLatestRecords, true, "No conflicts detected"@),
        (WorkflowLoopPredicate::StageStateReadable, true, if rev is Some { "Readable"@ } else { "No data"@ }),
        (WorkflowLoopPredicate::RouteStateReadable, true, "Readable"@),
        (WorkflowLoopPredicate::OutcomeStateReadable, true, "Readable"@),
        (WorkflowLoopPredicate::ReconciliationStateReadable, true, "Readable"@),
        (WorkflowLoopPredicate::ContinuationStateReadable, true, "Readable"@),
        (WorkflowLoopPredicate::ReviewStateReadable, true, "Readable"@),
        (WorkflowLoopPredicate::RoutingReadinessStateReadable, true, "Readable"@),
        (WorkflowLoopPredicate::NextActionRoutingStateReadable, true, "Readable"@),
        (WorkflowLoopPredicate::ManualOperationDetermined, true, "Operation determined"@),
        (WorkflowLoopPredicate::RecommendationDoesNotCreateRoute, true, "Hardcoded false"@),
        (WorkflowLoopPredicate::RecommendationDoesNotResolveApproval, true, "Hardcoded false"@),
        (WorkflowLoopPredicate::RecommendationDoesNotReconcileOutcome, true, "Hardcoded false"@),
        (WorkflowLoopPredicate::RecommendationDoesNotExecuteTool, true, "Hardcoded false"@),
        (WorkflowLoopPredicate::RecommendationDoesNotMutateWorkflowState, true, "Hardcoded false"@),
        (WorkflowLoopPredicate::IdempotencyKeyUnusedOrMatchesExisting, true, "Key valid"@),
    ]
}

/// Evidence links as plain values.
pub open spec fn loop_link_views(v: Seq<WorkflowLoopEvidenceLink>) -> Seq<(Seq<char>, Seq<char>, Seq<char>)> {
    v.map_values(|l: WorkflowLoopEvidenceLink| (l.link_kind@, l.record_id@, l.summary@))
}

/// The evidence links of a controller record: the latest route, outcome and
/// reconciliation, each with its status.
pub open spec fn loop_links(context: WorkflowLoopContext) -> Seq<(Seq<char>, Seq<char>, Seq<char>)> {
    (match context.latest_route {
        Some(r) => seq![("route"@, r.route_id.0@, r.status.debug_view())],
        None => Seq::empty(),
    }) + (match context.latest_outcome {
        Some(o) => seq![("outcome"@, o.outcome_id.0@, o.status.debug_view())],
        None => Seq::empty(),
    }) + (match context.latest_reconciliation {
        Some(c) => seq![("reconciliation"@, c.reconciliation_id.0@, c.status.debug_view())],
        None => Seq::empty(),
    })
}

/// A stage summary shows the stage's id, title, lowercased status and order.
pub open spec fn stage_summary_is(x: WorkflowLoopStageSummary, s: WorkflowStageRun) -> bool {
    &&& x.stage_id@ == s.stage_id@
    &&& x.title@ == s.title@
    &&& x.status@ == lowercase_of(s.status.debug_view())
    &&& x.order == s.order
    &&& !x.has_action_request
}

/// The observed loop state of a controller record.
pub open spec fn loop_state_ok(
    st: WorkflowLoopState,
    request: WorkflowLoopControllerRequest,
    context: WorkflowLoopContext,
) -> bool {
    let stages = match context.latest_revision {
        Some(v) => v.stages@,
        None => Seq::empty(),
    };
    &&& st.workflow_execution_id.0@ == request.workflow_execution_id.0@
    &&& (match (st.latest_run_revision_id, context.latest_revision) {
        (Some(a), Some(b)) => a.0@ == b.revision_id.0@,
        (None, None) => true,
        _ => false,
    })
    &&& st.run_status@ == match context.workflow_run {
        Some(r) => lowercase_of(r.status.debug_view()),
        None => "unknown"@,
    }
    &&& st.stage_summary@.len() == stages.len()
    &&& forall|i: int| 0 <= i < stages.len() ==> stage_summary_is(#[trigger] st.stage_summary@[i], stages[i])
    &&& (match (st.latest_route_id, context.latest_route) {
        (Some(a), Some(b)) => a.0@ == b.route_id.0@,
        (None, None) => true,
        _ => false,
    })
    &&& (match (st.latest_outcome_id, context.latest_outcome) {
        (Some(a), Some(b)) => a.0@ == b.outcome_id.0@,
        (None, None) => true,
        _ => false,
    })
    &&& (match (st.latest_reconciliation_id, context.latest_reconciliation) {
        (Some(a), Some(b)) => a.0@ == b.reconciliation_id.0@,
        (None, None) => true,
        _ => false,
    })
    &&& (match (st.latest_continuation_readiness_id, context.latest_continuation) {
        (Some(a), Some(b)) => a.0@ == b.readiness_id.0@,
        (None, None) => true,
        _ => false,
    })
    &&& (match (st.latest_next_action_proposal_id, context.latest_proposal) {
        (Some(a), Some(b)) => a.0@ == b.proposal_id.0@,
        (None, None) => true,
        _ => false,
    })
    &&& (match (st.latest_next_action_review_id, context.latest_review) {
        (Some(a), Some(b)) => a.0@ == b.review_id.0@,
        (None, None) => true,
        _ => false,
    })
    &&& (match (st.latest_routing_readiness_id, context.latest_routing_readiness) {
        (Some(a), Some(b)) => a.0@ == b.readiness_id.0@,
        (None, None) => true,
        _ => false,
    })
    &&& (match (st.latest_next_action_routing_id, context.latest_next_action_routing) {
        (Some(a), Some(b)) => a.0@ == b.routing_id.0@,
        (None, None) => true,
        _ => false,
    })
    &&& st.latest_command_composer_id is None
    &&& st.latest_command_review_id is None
    &&& st.latest_manual_result_id is None
    &&& st.latest_manual_result_review_id is None
    &&& st.latest_reconciliation_readiness_id is None
    &&& st.latest_manual_reconciliation_gate_id is None
    &&& st.detected_state == detected_state(context)
}

/// Status and decision of a controller record for the detected state.
pub open spec fn controller_outcome_ok(
    status: WorkflowLoopControllerStatus,
    decision: WorkflowLoopControllerDecision,
    recommendation: Option<WorkflowLoopRecommendation>,
    d: WorkflowDetectedLoopState,
) -> bool {
    match d {
        WorkflowDetectedLoopState::WorkflowComplete => {
            &&& status == WorkflowLoopControllerStatus::NoManualActionRequired
            &&& decision matches WorkflowLoopControllerDecision::NoManualActionRequired { summary }
            &&& summary@ == "All stages terminal"@
        },
        WorkflowDetectedLoopState::WorkflowBlocked => {
            &&& status == WorkflowLoopControllerStatus::Blocked
            &&& decision matches WorkflowLoopControllerDecision::Blocked { reason_code, summary }
            &&& reason_code@ == "workflow_blocked"@
            &&& summary@ == "Workflow is blocked"@
        },
        WorkflowDetectedLoopState::Inconclusive => {
            &&& status == WorkflowLoopControllerStatus::Inconclusive
            &&& decision matches WorkflowLoopControllerDecision::Inconclusive { reason_code, summary }
            &&& reason_code@ == "missing_evidence"@
            &&& summary@ == "Cannot determine state"@
        },
        _ => {
            &&& status == WorkflowLoopControllerStatus::RecommendationReady
            &&& decision matches WorkflowLoopControllerDecision::Recommend { operation, summary }
            &&& operation == match recommendation {
                Some(r) => r.operation,
                None => WorkflowManualOperationKind::NoAction,
            }
            &&& summary@ == match recommendation {
                Some(r) => r.reason@,
                None => Seq::empty(),
            }
        },
    }
}

fn stage_summaries(stages: &Vec<WorkflowStageRun>) -> (out: Vec<WorkflowLoopStageSummary>)
    ensures
        out@.len() == stages@.len(),
        forall|i: int| 0 <= i < stages@.len() ==> stage_summary_is(#[trigger] out@[i], stages@[i]),
{
    let mut out: Vec<WorkflowLoopStageSummary> = Vec::new();
    let mut i: usize = 0;
    while i < stages.len()
        invariant
            i <= stages.len(),
            out@.len() == i,
            forall|k: int| 0 <= k < i ==> stage_summary_is(#[trigger] out@[k], stages@[k]),
        decreases stages.len() - i,
    {
        let s = &stages[i];
        out.push(WorkflowLoopStageSummary {
            stage_id: s.stage_id.clone(),
            title: s.title.clone(),
            status: to_lowercase(s.status.debug_name()),
            order: s.order,
            has_action_request: false,
        });
        i += 1;
    }
    out
}

fn build_loop_state(
    request: &WorkflowLoopControllerRequest,
    context: &WorkflowLoopContext,
    detected: WorkflowDetectedLoopState,
) -> (st: WorkflowLoopState)
    requires
        detected == detected_state(*context),
    ensures
        loop_state_ok(st, *request, *context),
{
    let run_status = match context.workflow_run {
        Some(r) => to_lowercase(r.status.debug_name()),
        None => String::from_str("unknown"),
    };
    let stage_summary = match context.latest_revision {
        Some(v) => stage_summaries(&v.stages),
        None => Vec::new(),
    };
    WorkflowLoopState {
        workflow_execution_id: WorkflowExecutionId(request.workflow_execution_id.0.clone()),
        latest_run_revision_id: match context.latest_revision {
            Some(v) => Some(WorkflowRunRevisionId(v.revision_id.0.clone())),
            None => None,
        },
        run_status,
        stage_summary,
        latest_route_id: match context.latest_route {
            Some(r) => Some(crate::workflow_action_route::WorkflowActionRouteId(r.route_id.0.clone())),
            None => None,
        },
        latest_outcome_id: match context.latest_outcome {
            Some(o) => Some(crate::workflow_action_outcome::WorkflowActionOutcomeId(o.outcome_id.0.clone())),
            None => None,
        },
        latest_reconciliation_id: match context.latest_reconciliation {
            Some(c) => Some(crate::workflow_reconciliation::WorkflowReconciliationId(c.reconciliation_id.0.clone())),
            None => None,
        },
        latest_continuation_readiness_id: match context.latest_continuation {
            Some(c) => Some(crate::workflow_continuation::WorkflowContinuationReadinessId(c.readiness_id.0.clone())),
            None => None,
        },
        latest_next_action_proposal_id: match context.latest_proposal {
            Some(p) => Some(crate::workflow_continuation::WorkflowNextActionProposalId(p.proposal_id.0.clone())),
            None => None,
        },
        latest_next_action_review_id: match context.latest_review {
            Some(r) => Some(crate::workflow_next_action_review::WorkflowNextActionReviewId(r.review_id.0.clone())),
            None => None,
        },
        latest_routing_readiness_id: match context.latest_routing_readiness {
            Some(r) => Some(crate::workflow_routing_readiness::WorkflowRoutingReadinessId(r.readiness_id.0.clone())),
            None => None,
        },
        latest_next_action_routing_id: match context.latest_next_action_routing {
            Some(r) => Some(crate::workflow_next_action_routing_gate::WorkflowNextActionRoutingId(r.routing_id.0.clone())),
            None => None,
        },
        latest_command_composer_id: None,
        latest_command_review_id: None,
        latest_manual_result_id: None,
        latest_manual_result_review_id: None,
        latest_reconciliation_readiness_id: None,
        latest_manual_reconciliation_gate_id: None,
        detected_state: detected,
    }
}

fn loop_predicates(request: &WorkflowLoopControllerRequest, context: &WorkflowLoopContext) -> (p: Vec<WorkflowLoopPredicateResult>)
    ensures
        check_views(p@) == loop_checks(*request, *context),
{
    let run = context.workflow_run;
    let rev = context.latest_revision;
    let hash_ok = !request.expected_workflow_run_hash.as_str().is_empty();
    let rev_hash_ok = match &request.expected_latest_revision_hash {
        Some(h) => !h.as_str().is_empty(),
        None => true,
    };
    let same_run = match (run, rev) {
        (Some(r), Some(v)) => v.workflow_execution_id.0 == r.execution_id.0,
        _ => true,
    };
    let mut p: Vec<WorkflowLoopPredicateResult> = Vec::new();
    push_check(&mut p, WorkflowLoopPredicateResult::make_check(WorkflowLoopPredicate::WorkflowRunExists, run.is_some(), String::from_str(if run.is_some() { "Run found" } else { "No run" })));
    push_check(&mut p, WorkflowLoopPredicateResult::make_check(WorkflowLoopPredicate::WorkflowRunHashMatchesRequest, hash_ok, String::from_str(if hash_ok { "Hash provided" } else { "Missing" })));
    push_check(&mut p, WorkflowLoopPredicateResult::make_check(WorkflowLoopPredicate::LatestRunRevisionResolved, true, String::from_str("Revision resolved by loader")));
    push_check(&mut p, WorkflowLoopPredicateResult::make_check(WorkflowLoopPredicate::LatestRunRevisionHashMatchesRequest, rev_hash_ok, String::from_str(if rev_hash_ok { "Consistent" } else { "Mismatch" })));
    push_check(&mut p, WorkflowLoopPredicateResult::make_check(WorkflowLoopPredicate::EvidenceChainLoadable, true, String::from_str("All evidence loaded")));
    push_check(&mut p, WorkflowLoopPredicateResult::make_check(WorkflowLoopPredicate::EvidenceChainReferencesSameWorkflowRun, same_run, String::from_str(if same_run { "Consistent" } else { "Mismatch" })));
    push_check(&mut p, WorkflowLoopPredicateResult::make_check(WorkflowLoopPredicate::NoConflictingLatestRecords, true, String::from_str("No conflicts detected")));
    push_check(&mut p, WorkflowLoopPredicateResult::make_check(WorkflowLoopPredicate::StageStateReadable, true, String::from_str(if rev.is_some() { "Readable" } else { "No data" })));
    push_check(&mut p, WorkflowLoopPredicateResult::make_check(WorkflowLoopPredicate::RouteStateReadable, true, String::from_str("Readable")));
    push_check(&mut p, WorkflowLoopPredicateResult::make_check(WorkflowLoopPredicate::OutcomeStateReadable, true, String::from_str("Readable")));
    push_check(&mut p, WorkflowLoopPredicateResult::make_check(WorkflowLoopPredicate::ReconciliationStateReadable, true, String::from_str("Readable")));
    push_check(&mut p, WorkflowLoopPredicateResult::make_check(WorkflowLoopPredicate::ContinuationStateReadable, true, String::from_str("Readable")));
    push_check(&mut p, WorkflowLoopPredicateResult::make_check(WorkflowLoopPredicate::ReviewStateReadable, true, String::from_str("Readable")));
    push_check(&mut p, WorkflowLoopPredicateResult::make_check(WorkflowLoopPredicate::RoutingReadinessStateReadable, true, String::from_str("Readable")));
    push_check(&mut p, WorkflowLoopPredicateResult::make_check(WorkflowLoopPredicate::NextActionRoutingStateReadable, true, String::from_str("Readable")));
    push_check(&mut p, WorkflowLoopPredicateResult::make_check(WorkflowLoopPredicate::ManualOperationDetermined, true, String::from_str("Operation determined")));
    push_check(&mut p, WorkflowLoopPredicateResult::make_check(WorkflowLoopPredicate::RecommendationDoesNotCreateRoute, true, String::from_str("Hardcoded false")));
    push_check(&mut p, WorkflowLoopPredicateResult::make_check(WorkflowLoopPredicate::RecommendationDoesNotResolveApproval, true, String::from_str("Hardcoded false")));
    push_check(&mut p, WorkflowLoopPredicateResult::make_check(WorkflowLoopPredicate::RecommendationDoesNotReconcileOutcome, true, String::from_str("Hardcoded false")));
    push_check(&mut p, WorkflowLoopPredicateResult::make_check(WorkflowLoopPredicate::RecommendationDoesNotExecuteTool, true, String::from_str("Hardcoded false")));
    push_check(&mut p, WorkflowLoopPredicateResult::make_check(WorkflowLoopPredicate::RecommendationDoesNotMutateWorkflowState, true, String::from_str("Hardcoded false")));
    push_check(&mut p, WorkflowLoopPredicateResult::make_check(WorkflowLoopPredicate::IdempotencyKeyUnusedOrMatchesExisting, true, String::from_str("Key valid")));
    assert(check_views(p@) =~= loop_checks(*request, *context));
    p
}

fn loop_evidence_links(context: &WorkflowLoopContext) -> (out: Vec<WorkflowLoopEvidenceLink>)
    ensures
        loop_link_views(out@) == loop_links(*context),
{
    let mut out: Vec<WorkflowLoopEvidenceLink> = Vec::new();
    if let Some(r) = context.latest_route {
        out.push(WorkflowLoopEvidenceLink {
            link_kind: String::from_str("route"),
            record_id: r.route_id.0.clone(),
            summary: String::from_str(r.status.debug_name()),
        });
    }
    let ghost a = out@;
    if let Some(o) = context.latest_outcome {
        out.push(WorkflowLoopEvidenceLink {
            link_kind: String::from_str("outcome"),
            record_id: o.outcome_id.0.clone(),
            summary: String::from_str(o.status.debug_name()),
        });
    }
    let ghost b = out@;
    if let Some(c) = context.latest_reconciliation {
        out.push(WorkflowLoopEvidenceLink {
            link_kind: String::from_str("reconciliation"),
            record_id: c.reconciliation_id.0.clone(),
            summary: String::from_str(c.status.debug_name()),
        });
    }
    assert(loop_link_views(out@) =~= loop_links(*context));
    out
}

/// Evaluates the loop controller: its twenty-two predicates, the detected loop
/// state, and the recommendation for that state. The record holds no authority.
pub fn evaluate_loop_controller(
    request: &WorkflowLoopControllerRequest,
    context: &WorkflowLoopContext,
) -> (rec: WorkflowLoopControllerRecord)
    ensures
        rec.controller_id.0@.len() == 20,
        rec.controller_id.0@ == controller_id_of(*request),
        rec.workflow_execution_id.0@ == request.workflow_execution_id.0@,
        (match (rec.latest_run_revision_id, context.latest_revision) {
            (Some(a), Some(b)) => a.0@ == b.revision_id.0@,
            (None, None) => true,
            _ => false,
        }),
        check_views(rec.predicates@) == loop_checks(*request, *context),
        recommendation_for(rec.recommendation, detected_state(*context)),
        controller_outcome_ok(rec.status, rec.decision, rec.recommendation, detected_state(*context)),
        rec.loop_state matches Some(st) && loop_state_ok(st, *request, *context),
        loop_link_views(rec.evidence_links@) == loop_links(*context),
        !rec.creates_route && !rec.resolves_approval && !rec.reconciles_outcome && !rec.executes_tool
            && !rec.mutates_workflow_state && !rec.schedules_work && !rec.starts_worker && !rec.queues_operation
            && !rec.retries_operation && !rec.resumes_workflow,
{
    proof {
        reveal_strlit("wlc_");
    }
    let mut pre = String::from_str("loop_controller:v1:");
    pre.append(request.workflow_execution_id.0.as_str());
    pre.append(":");
    pre.append(request.idempotency_key.as_str());
    let cid = WorkflowLoopControllerId(text_digest_id16("wlc_", pre.as_str()));
    let predicates = loop_predicates(request, context);
    let detected = detect_loop_state(context);
    let recommendation = build_recommendation(&detected);
    let loop_state = build_loop_state(request, context, detected);
    let (status, decision) = match detected {
        WorkflowDetectedLoopState::WorkflowComplete => (
            WorkflowLoopControllerStatus::NoManualActionRequired,
            WorkflowLoopControllerDecision::NoManualActionRequired { summary: String::from_str("All stages terminal") },
        ),
        WorkflowDetectedLoopState::WorkflowBlocked => (
            WorkflowLoopControllerStatus::Blocked,
            WorkflowLoopControllerDecision::Blocked {
                reason_code: String::from_str("workflow_blocked"),
                summary: String::from_str("Workflow is blocked"),
            },
        ),
        WorkflowDetectedLoopState::Inconclusive => (
            WorkflowLoopControllerStatus::Inconclusive,
            WorkflowLoopControllerDecision::Inconclusive {
                reason_code: String::from_str("missing_evidence"),
                summary: String::from_str("Cannot determine state"),
            },
        ),
        _ => {
            let (operation, summary) = match &recommendation {
                Some(r) => (r.operation, r.reason.clone()),
                None => (WorkflowManualOperationKind::NoAction, String::new()),
            };
            (WorkflowLoopControllerStatus::RecommendationReady, WorkflowLoopControllerDecision::Recommend { operation, summary })
        },
    };
    let evidence_links = loop_evidence_links(context);
    WorkflowLoopControllerRecord {
        controller_id: cid,
        workflow_execution_id: WorkflowExecutionId(request.workflow_execution_id.0.clone()),
        latest_run_revision_id: match context.latest_revision {
            Some(v) => Some(WorkflowRunRevisionId(v.revision_id.0.clone())),
            None => None,
        },
        status,
        decision,
        loop_state: Some(loop_state),
        recommendation,
        predicates,
        evidence_links,
        creates_route: false,
        resolves_approval: false,
        reconciles_outcome: false,
        executes_tool: false,
        mutates_workflow_state: false,
        schedules_work: false,
        starts_worker: false,
        queues_operation: false,
        retries_operation: false,
        resumes_workflow: false,
        created_at: now_utc(),
    }
}

} // verus!
