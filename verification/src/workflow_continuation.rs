//! Continuation readiness records and next-action proposals.
//!
//! Both are evidence records. They do not route actions, resolve approvals,
//! execute tools, append trace, or change workflow run or revision state.
use vstd::prelude::*;
use crate::gate::{CheckResult, PredicateName};
use crate::outside::Timestamp;
use crate::workflow_reconciliation::WorkflowRunRevisionId;
use crate::workflow_run::WorkflowExecutionId;

verus! {

/// Content-addressed continuation readiness id (`wcr_` and 16 hex digits).
#[derive(Debug, Clone, PartialEq, Eq, Hash)]
pub struct WorkflowContinuationReadinessId(pub String);

/// Content-addressed next-action proposal id (`wnap_` and 16 hex digits).
#[derive(Debug, Clone, PartialEq, Eq, Hash)]
pub struct WorkflowNextActionProposalId(pub String);

/// Request to evaluate continuation readiness from a run revision.
#[derive(Debug, Clone)]
pub struct WorkflowContinuationRequest {
    pub workflow_execution_id: WorkflowExecutionId,
    pub latest_run_revision_id: WorkflowRunRevisionId,
    pub expected_run_revision_hash: String,
    pub requested_by: String,
    pub requested_at: Timestamp,
    pub idempotency_key: String,
}

/// Durable readiness evaluation record.
#[derive(Debug, Clone)]
pub struct WorkflowContinuationReadinessRecord {
    pub readiness_id: WorkflowContinuationReadinessId,
    pub workflow_execution_id: WorkflowExecutionId,
    pub latest_run_revision_id: WorkflowRunRevisionId,
    pub run_revision_hash: String,
    pub status: WorkflowContinuationStatus,
    pub decision: WorkflowContinuationDecision,
    pub predicates: Vec<WorkflowContinuationPredicateResult>,
    pub selected_candidate: Option<WorkflowNextActionCandidate>,
    pub created_at: Timestamp,
}

/// Continuation status.
#[derive(Debug, Clone, Copy, PartialEq, Eq, Structural)]
pub enum WorkflowContinuationStatus {
    ProposalReady,
    NoEligibleAction,
    Blocked,
    Inconclusive,
}

/// What the continuation evaluation determined.
#[derive(Debug, Clone)]
pub enum WorkflowContinuationDecision {
    ProposalReady { summary: String },
    NoEligibleAction { summary: String },
    Blocked { reason_code: String, summary: String },
    Inconclusive { reason_code: String, summary: String },
}

/// Durable next-action proposal: evidence only, it never routes or executes.
#[derive(Debug, Clone)]
pub struct WorkflowNextActionProposal {
    pub proposal_id: WorkflowNextActionProposalId,
    pub readiness_id: WorkflowContinuationReadinessId,
    pub workflow_execution_id: WorkflowExecutionId,
    pub source_run_revision_id: WorkflowRunRevisionId,
    pub source_run_revision_hash: String,
    pub candidate: WorkflowNextActionCandidate,
    pub predicates: Vec<WorkflowContinuationPredicateResult>,
    pub evidence_links: Vec<WorkflowContinuationEvidenceLink>,
    /// Always false: proposals never create routes.
    pub creates_route: bool,
    /// Always false: proposals never route actions.
    pub routes_action_now: bool,
    /// Always false: proposals never execute tools.
    pub executes_tool_now: bool,
    /// Always false: proposals never change workflow state.
    pub mutates_workflow_state_now: bool,
    pub proposal_hash: String,
    pub created_at: Timestamp,
}

/// Candidate stage and action taken from the latest run revision.
#[derive(Debug, Clone)]
pub struct WorkflowNextActionCandidate {
    pub stage_id: String,
    pub action_request_id: Option<String>,
    pub candidate_kind: WorkflowNextActionKind,
    pub stage_title: String,
    pub reason: String,
    pub dependency_evidence: Vec<String>,
}

/// Kind of next-action candidate.
#[derive(Debug, Clone, Copy, PartialEq, Eq, Structural)]
pub enum WorkflowNextActionKind {
    RoutePreparedAction,
    AwaitExternalEvidence,
    ManualReviewRequired,
    NoAction,
}

/// Evidence link from a continuation to a prior record.
#[derive(Debug, Clone)]
pub struct WorkflowContinuationEvidenceLink {
    pub kind: WorkflowContinuationEvidenceKind,
    pub id: String,
    pub summary: String,
}

/// Kind of continuation evidence link.
#[derive(Debug, Clone, Copy, PartialEq, Eq, Structural)]
pub enum WorkflowContinuationEvidenceKind {
    WorkflowRun,
    WorkflowRunRevision,
    Stage,
    LifecycleEvent,
    Reconciliation,
    Outcome,
    Route,
    ActionRequest,
}

/// Continuation predicates: deterministic eligibility checks.
#[derive(Debug, Clone, Copy, PartialEq, Eq, Structural)]
pub enum WorkflowContinuationPredicate {
    WorkflowRunExists,
    RunRevisionExists,
    RunRevisionIsLatest,
    RunRevisionHashMatchesRequest,
    RunRevisionBelongsToWorkflowRun,
    StagesPresent,
    PriorStageDependenciesSatisfied,
    NoStageCurrentlyRunning,
    NoStageCurrentlySuspendedWithoutOutcome,
    NextStageExists,
    NextStageIsPending,
    NextStageDependenciesTerminal,
    NextActionRequestExistsWhenRequired,
    NextActionRequestPreparedForRouting,
    NextActionRequestRemainsNonExecutable,
    NoPriorConflictingNextActionProposal,
    IdempotencyKeyUnusedOrMatchesExisting,
}

impl PredicateName for WorkflowContinuationPredicate {
    open spec fn name_view(self) -> Seq<char> {
        match self {
            WorkflowContinuationPredicate::WorkflowRunExists => "WorkflowRunExists"@,
            WorkflowContinuationPredicate::RunRevisionExists => "RunRevisionExists"@,
            WorkflowContinuationPredicate::RunRevisionIsLatest => "RunRevisionIsLatest"@,
            WorkflowContinuationPredicate::RunRevisionHashMatchesRequest => "RunRevisionHashMatchesRequest"@,
            WorkflowContinuationPredicate::RunRevisionBelongsToWorkflowRun => "RunRevisionBelongsToWorkflowRun"@,
            WorkflowContinuationPredicate::StagesPresent => "StagesPresent"@,
            WorkflowContinuationPredicate::PriorStageDependenciesSatisfied => "PriorStageDependenciesSatisfied"@,
            WorkflowContinuationPredicate::NoStageCurrentlyRunning => "NoStageCurrentlyRunning"@,
            WorkflowContinuationPredicate::NoStageCurrentlySuspendedWithoutOutcome => "NoStageCurrentlySuspendedWithoutOutcome"@,
            WorkflowContinuationPredicate::NextStageExists => "NextStageExists"@,
            WorkflowContinuationPredicate::NextStageIsPending => "NextStageIsPending"@,
            WorkflowContinuationPredicate::NextStageDependenciesTerminal => "NextStageDependenciesTerminal"@,
            WorkflowContinuationPredicate::NextActionRequestExistsWhenRequired => "NextActionRequestExistsWhenRequired"@,
            WorkflowContinuationPredicate::NextActionRequestPreparedForRouting => "NextActionRequestPreparedForRouting"@,
            WorkflowContinuationPredicate::NextActionRequestRemainsNonExecutable => "NextActionRequestRemainsNonExecutable"@,
            WorkflowContinuationPredicate::NoPriorConflictingNextActionProposal => "NoPriorConflictingNextActionProposal"@,
            WorkflowContinuationPredicate::IdempotencyKeyUnusedOrMatchesExisting => "IdempotencyKeyUnusedOrMatchesExisting"@,
        }
    }

    fn debug_name(&self) -> (s: &'static str) {
        match self {
            WorkflowContinuationPredicate::WorkflowRunExists => "WorkflowRunExists",
            WorkflowContinuationPredicate::RunRevisionExists => "RunRevisionExists",
            WorkflowContinuationPredicate::RunRevisionIsLatest => "RunRevisionIsLatest",
            WorkflowContinuationPredicate::RunRevisionHashMatchesRequest => "RunRevisionHashMatchesRequest",
            WorkflowContinuationPredicate::RunRevisionBelongsToWorkflowRun => "RunRevisionBelongsToWorkflowRun",
            WorkflowContinuationPredicate::StagesPresent => "StagesPresent",
            WorkflowContinuationPredicate::PriorStageDependenciesSatisfied => "PriorStageDependenciesSatisfied",
            WorkflowContinuationPredicate::NoStageCurrentlyRunning => "NoStageCurrentlyRunning",
            WorkflowContinuationPredicate::NoStageCurrentlySuspendedWithoutOutcome => "NoStageCurrentlySuspendedWithoutOutcome",
            WorkflowContinuationPredicate::NextStageExists => "NextStageExists",
            WorkflowContinuationPredicate::NextStageIsPending => "NextStageIsPending",
            WorkflowContinuationPredicate::NextStageDependenciesTerminal => "NextStageDependenciesTerminal",
            WorkflowContinuationPredicate::NextActionRequestExistsWhenRequired => "NextActionRequestExistsWhenRequired",
            WorkflowContinuationPredicate::NextActionRequestPreparedForRouting => "NextActionRequestPreparedForRouting",
            WorkflowContinuationPredicate::NextActionRequestRemainsNonExecutable => "NextActionRequestRemainsNonExecutable",
            WorkflowContinuationPredicate::NoPriorConflictingNextActionProposal => "NoPriorConflictingNextActionProposal",
            WorkflowContinuationPredicate::IdempotencyKeyUnusedOrMatchesExisting => "IdempotencyKeyUnusedOrMatchesExisting",
        }
    }
}

/// Result of evaluating one continuation predicate.
#[derive(Debug, Clone)]
pub struct WorkflowContinuationPredicateResult {
    pub predicate: WorkflowContinuationPredicate,
    pub passed: bool,
    pub reason: String,
}

impl CheckResult for WorkflowContinuationPredicateResult {
    type P = WorkflowContinuationPredicate;

    open spec fn check_view(&self) -> (WorkflowContinuationPredicate, bool, Seq<char>) {
        (self.predicate, self.passed, self.reason@)
    }

    fn passed_flag(&self) -> (b: bool) {
        self.passed
    }

    fn predicate_value(&self) -> (p: WorkflowContinuationPredicate) {
        self.predicate
    }

    fn reason_text(&self) -> (s: &str) {
        self.reason.as_str()
    }

    fn make_check(p: Self::P, passed: bool, reason: String) -> (r: Self) {
        Self { predicate: p, passed, reason }
    }
}

} // verus!
