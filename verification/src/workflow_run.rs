//! Workflow run records: the run, its stages, lifecycle events and prepared
//! (non-executable) action requests.
use vstd::prelude::*;
use crate::outside::Timestamp;
use crate::plan::TaskPlanId;
use crate::workflow_proposal::{WorkflowProposalId, WorkflowStageKind};
use crate::workflow_proposal_review::WorkflowProposalReviewId;
use crate::workflow_readiness::WorkflowReadinessId;
use crate::text::{copy_strings, views};
use crate::gate::{CheckResult, PredicateName};

verus! {

/// Content-addressed workflow execution id.
#[derive(Debug, Clone, PartialEq, Eq, Hash)]
pub struct WorkflowExecutionId(pub String);

/// Status of a workflow run.
#[derive(Debug, Clone, Copy, PartialEq, Eq, Structural)]
pub enum WorkflowRunStatus {
    Running,
    Suspended,
    Completed,
    Blocked,
}

impl WorkflowRunStatus {
    /// The `Debug` name of the value.
    pub open spec fn debug_view(self) -> Seq<char> {
        match self {
            WorkflowRunStatus::Running => "Running"@,
            WorkflowRunStatus::Suspended => "Suspended"@,
            WorkflowRunStatus::Completed => "Completed"@,
            WorkflowRunStatus::Blocked => "Blocked"@,
        }
    }

    pub fn debug_name(&self) -> (s: &'static str)
        ensures
            s@ == self.debug_view(),
    {
        match self {
            WorkflowRunStatus::Running => "Running",
            WorkflowRunStatus::Suspended => "Suspended",
            WorkflowRunStatus::Completed => "Completed",
            WorkflowRunStatus::Blocked => "Blocked",
        }
    }
}

/// Status of one stage of a run.
#[derive(Debug, Clone, Copy, PartialEq, Eq, Structural)]
pub enum WorkflowStageRunStatus {
    Pending,
    Running,
    Suspended,
    Completed,
    Failed,
    Blocked,
}

impl WorkflowStageRunStatus {
    /// The `Debug` name of the status.
    pub open spec fn debug_view(self) -> Seq<char> {
        match self {
            WorkflowStageRunStatus::Pending => "Pending"@,
            WorkflowStageRunStatus::Running => "Running"@,
            WorkflowStageRunStatus::Suspended => "Suspended"@,
            WorkflowStageRunStatus::Completed => "Completed"@,
            WorkflowStageRunStatus::Failed => "Failed"@,
            WorkflowStageRunStatus::Blocked => "Blocked"@,
        }
    }

    pub fn debug_name(&self) -> (s: &'static str)
        ensures
            s@ == self.debug_view(),
    {
        match self {
            WorkflowStageRunStatus::Pending => "Pending",
            WorkflowStageRunStatus::Running => "Running",
            WorkflowStageRunStatus::Suspended => "Suspended",
            WorkflowStageRunStatus::Completed => "Completed",
            WorkflowStageRunStatus::Failed => "Failed",
            WorkflowStageRunStatus::Blocked => "Blocked",
        }
    }
}

/// One stage of a workflow run.
#[derive(Debug, Clone)]
pub struct WorkflowStageRun {
    pub stage_id: String,
    pub title: String,
    pub kind: WorkflowStageKind,
    pub status: WorkflowStageRunStatus,
    pub order: u32,
    pub depends_on: Vec<String>,
    pub started_at: Option<Timestamp>,
    pub completed_at: Option<Timestamp>,
    pub summary: String,
}

/// A stage as plain values.
pub open spec fn stage_view(s: WorkflowStageRun) -> (Seq<char>, Seq<char>, WorkflowStageKind, WorkflowStageRunStatus, u32, Seq<Seq<char>>, Option<Timestamp>, Option<Timestamp>, Seq<char>) {
    (s.stage_id@, s.title@, s.kind, s.status, s.order, views(s.depends_on@), s.started_at, s.completed_at, s.summary@)
}

/// A field-by-field copy of a stage.
pub fn copy_stage(s: &WorkflowStageRun) -> (r: WorkflowStageRun)
    ensures
        stage_view(r) == stage_view(*s),
{
    WorkflowStageRun {
        stage_id: s.stage_id.clone(),
        title: s.title.clone(),
        kind: s.kind,
        status: s.status,
        order: s.order,
        depends_on: copy_strings(&s.depends_on),
        started_at: s.started_at,
        completed_at: s.completed_at,
        summary: s.summary.clone(),
    }
}

/// Kind of a stage lifecycle event.
#[derive(Debug, Clone, Copy, PartialEq, Eq, Structural)]
pub enum WorkflowStageLifecycleKind {
    StageStarted,
    StageSuspended,
    StageCompleted,
    StageFailed,
    StageBlocked,
}

/// A stage lifecycle event.
#[derive(Debug, Clone)]
pub struct WorkflowStageLifecycleEvent {
    pub event_id: String,
    pub stage_id: String,
    pub event_kind: WorkflowStageLifecycleKind,
    pub summary: String,
    pub occurred_at: Timestamp,
}

/// Routing status of a prepared action request.
#[derive(Debug, Clone, Copy, PartialEq, Eq, Structural)]
pub enum WorkflowActionRoutingStatus {
    NotRequired,
    PreparedForFutureSessionRouting,
    SuspendedAwaitingApproval,
    Blocked,
}

/// A descriptive action request prepared for a stage. It holds no executable field.
#[derive(Debug, Clone)]
pub struct WorkflowActionRequest {
    pub action_request_id: String,
    pub stage_id: String,
    pub capability_category: String,
    pub purpose: String,
    pub expected_input_summary: String,
    pub expected_output_summary: String,
    pub routing_status: WorkflowActionRoutingStatus,
    pub session_bridge_required: bool,
    pub policy_gate_required: bool,
}

/// Decision of the execution gate.
#[derive(Debug, Clone)]
pub enum WorkflowExecutionDecision {
    RunCreated,
    Suspended { reason_code: String, summary: String },
    Blocked { reason_code: String, summary: String },
}

/// Execution gate predicates.
#[derive(Debug, Clone, Copy, PartialEq, Eq, Structural)]
pub enum WorkflowExecutionPredicate {
    ReadinessRecordExists,
    ReadinessIsReady,
    ReadinessHashMatchesRequest,
    ProposalExists,
    ProposalHashMatchesReadiness,
    ProposalHashMatchesRequest,
    ProposalReviewExists,
    ProposalReviewIsLatest,
    ProposalReviewApproved,
    SourceTaskPlanExists,
    SourceTaskPlanHashMatchesProposal,
    ToolIntentResolutionStillValid,
    ToolIntentsRemainNonExecutable,
    ApprovalRequirementsRepresented,
    PolicyConstraintsRepresented,
    PolicyAllowsWorkflowRunCreation,
    ProviderConfigurationAvailable,
    SessionRuntimeAvailable,
    RollbackAbortEvidencePresent,
    NoPriorConflictingWorkflowRun,
    IdempotencyKeyUnusedOrMatchesExisting,
}

impl PredicateName for WorkflowExecutionPredicate {
    open spec fn name_view(self) -> Seq<char> {
        match self {
            WorkflowExecutionPredicate::ReadinessRecordExists => "ReadinessRecordExists"@,
            WorkflowExecutionPredicate::ReadinessIsReady => "ReadinessIsReady"@,
            WorkflowExecutionPredicate::ReadinessHashMatchesRequest => "ReadinessHashMatchesRequest"@,
            WorkflowExecutionPredicate::ProposalExists => "ProposalExists"@,
            WorkflowExecutionPredicate::ProposalHashMatchesReadiness => "ProposalHashMatchesReadiness"@,
            WorkflowExecutionPredicate::ProposalHashMatchesRequest => "ProposalHashMatchesRequest"@,
            WorkflowExecutionPredicate::ProposalReviewExists => "ProposalReviewExists"@,
            WorkflowExecutionPredicate::ProposalReviewIsLatest => "ProposalReviewIsLatest"@,
            WorkflowExecutionPredicate::ProposalReviewApproved => "ProposalReviewApproved"@,
            WorkflowExecutionPredicate::SourceTaskPlanExists => "SourceTaskPlanExists"@,
            WorkflowExecutionPredicate::SourceTaskPlanHashMatchesProposal => "SourceTaskPlanHashMatchesProposal"@,
            WorkflowExecutionPredicate::ToolIntentResolutionStillValid => "ToolIntentResolutionStillValid"@,
            WorkflowExecutionPredicate::ToolIntentsRemainNonExecutable => "ToolIntentsRemainNonExecutable"@,
            WorkflowExecutionPredicate::ApprovalRequirementsRepresented => "ApprovalRequirementsRepresented"@,
            WorkflowExecutionPredicate::PolicyConstraintsRepresented => "PolicyConstraintsRepresented"@,
            WorkflowExecutionPredicate::PolicyAllowsWorkflowRunCreation => "PolicyAllowsWorkflowRunCreation"@,
            WorkflowExecutionPredicate::ProviderConfigurationAvailable => "ProviderConfigurationAvailable"@,
            WorkflowExecutionPredicate::SessionRuntimeAvailable => "SessionRuntimeAvailable"@,
            WorkflowExecutionPredicate::RollbackAbortEvidencePresent => "RollbackAbortEvidencePresent"@,
            WorkflowExecutionPredicate::NoPriorConflictingWorkflowRun => "NoPriorConflictingWorkflowRun"@,
            WorkflowExecutionPredicate::IdempotencyKeyUnusedOrMatchesExisting => "IdempotencyKeyUnusedOrMatchesExisting"@,
        }
    }

    fn debug_name(&self) -> (s: &'static str) {
        match self {
            WorkflowExecutionPredicate::ReadinessRecordExists => "ReadinessRecordExists",
            WorkflowExecutionPredicate::ReadinessIsReady => "ReadinessIsReady",
            WorkflowExecutionPredicate::ReadinessHashMatchesRequest => "ReadinessHashMatchesRequest",
            WorkflowExecutionPredicate::ProposalExists => "ProposalExists",
            WorkflowExecutionPredicate::ProposalHashMatchesReadiness => "ProposalHashMatchesReadiness",
            WorkflowExecutionPredicate::ProposalHashMatchesRequest => "ProposalHashMatchesRequest",
            WorkflowExecutionPredicate::ProposalReviewExists => "ProposalReviewExists",
            WorkflowExecutionPredicate::ProposalReviewIsLatest => "ProposalReviewIsLatest",
            WorkflowExecutionPredicate::ProposalReviewApproved => "ProposalReviewApproved",
            WorkflowExecutionPredicate::SourceTaskPlanExists => "SourceTaskPlanExists",
            WorkflowExecutionPredicate::SourceTaskPlanHashMatchesProposal => "SourceTaskPlanHashMatchesProposal",
            WorkflowExecutionPredicate::ToolIntentResolutionStillValid => "ToolIntentResolutionStillValid",
            WorkflowExecutionPredicate::ToolIntentsRemainNonExecutable => "ToolIntentsRemainNonExecutable",
            WorkflowExecutionPredicate::ApprovalRequirementsRepresented => "ApprovalRequirementsRepresented",
            WorkflowExecutionPredicate::PolicyConstraintsRepresented => "PolicyConstraintsRepresented",
            WorkflowExecutionPredicate::PolicyAllowsWorkflowRunCreation => "PolicyAllowsWorkflowRunCreation",
            WorkflowExecutionPredicate::ProviderConfigurationAvailable => "ProviderConfigurationAvailable",
            WorkflowExecutionPredicate::SessionRuntimeAvailable => "SessionRuntimeAvailable",
            WorkflowExecutionPredicate::RollbackAbortEvidencePresent => "RollbackAbortEvidencePresent",
            WorkflowExecutionPredicate::NoPriorConflictingWorkflowRun => "NoPriorConflictingWorkflowRun",
            WorkflowExecutionPredicate::IdempotencyKeyUnusedOrMatchesExisting => "IdempotencyKeyUnusedOrMatchesExisting",
        }
    }
}

/// Result of one execution gate predicate.
#[derive(Debug, Clone)]
pub struct WorkflowExecutionPredicateResult {
    pub predicate: WorkflowExecutionPredicate,
    pub passed: bool,
    pub reason: String,
}

impl CheckResult for WorkflowExecutionPredicateResult {
    type P = WorkflowExecutionPredicate;

    open spec fn check_view(&self) -> (WorkflowExecutionPredicate, bool, Seq<char>) {
        (self.predicate, self.passed, self.reason@)
    }

    fn passed_flag(&self) -> (b: bool) {
        self.passed
    }

    fn predicate_value(&self) -> (p: WorkflowExecutionPredicate) {
        self.predicate
    }

    fn reason_text(&self) -> (s: &str) {
        self.reason.as_str()
    }

    fn make_check(p: Self::P, passed: bool, reason: String) -> (r: Self) {
        Self { predicate: p, passed, reason }
    }
}

/// What the run was created from.
#[derive(Debug, Clone)]
pub struct WorkflowRunSnapshot {
    pub readiness_id: String,
    pub proposal_id: String,
    pub proposal_hash: String,
    pub source_task_plan_hash: String,
    pub readiness_status_at_execution: String,
    pub proposal_review_decision_at_execution: String,
}

/// Abort and rollback evidence of a run.
#[derive(Debug, Clone)]
pub struct WorkflowAbortSnapshot {
    pub abort_notes_available: bool,
    pub rollback_notes_available: bool,
    pub recovery_notes: Vec<String>,
}

/// A workflow run record.
#[derive(Debug, Clone)]
pub struct WorkflowRunRecord {
    pub execution_id: WorkflowExecutionId,
    pub readiness_id: WorkflowReadinessId,
    pub proposal_id: WorkflowProposalId,
    pub proposal_review_id: WorkflowProposalReviewId,
    pub source_task_plan_id: TaskPlanId,
    pub status: WorkflowRunStatus,
    pub decision: WorkflowExecutionDecision,
    pub predicates: Vec<WorkflowExecutionPredicateResult>,
    pub run_snapshot: WorkflowRunSnapshot,
    pub stages: Vec<WorkflowStageRun>,
    pub lifecycle_events: Vec<WorkflowStageLifecycleEvent>,
    pub action_requests: Vec<WorkflowActionRequest>,
    pub abort_snapshot: WorkflowAbortSnapshot,
    pub created_at: Timestamp,
    pub completed_at: Option<Timestamp>,
}

/// Request to create a workflow run.
#[derive(Debug, Clone)]
pub struct WorkflowExecutionRequest {
    pub readiness_id: WorkflowReadinessId,
    pub proposal_id: WorkflowProposalId,
    pub proposal_review_id: WorkflowProposalReviewId,
    pub expected_readiness_hash: String,
    pub expected_proposal_hash: String,
    pub requested_by: String,
    pub requested_at: Timestamp,
    pub idempotency_key: String,
}

} // verus!
