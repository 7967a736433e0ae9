//! Workflow action outcome records.
//!
//! An outcome record links an approval resolution to session, tool and trace
//! evidence. The workflow correlates; it never creates approval records, changes
//! pending state, runs tools or appends to a trace.
use vstd::prelude::*;
use crate::gate::{CheckResult, PredicateName};
use crate::outside::Timestamp;
use crate::workflow_action_route::WorkflowActionRouteId;
use crate::workflow_run::WorkflowExecutionId;

verus! {

/// Content-addressed outcome id: `wao_` followed by a BLAKE3 hex digest.
#[derive(Debug, Clone, PartialEq, Eq, Hash)]
pub struct WorkflowActionOutcomeId(pub String);

/// Request to resolve a workflow-routed pending approval.
#[derive(Debug, Clone)]
pub struct WorkflowActionOutcomeRequest {
    pub workflow_execution_id: WorkflowExecutionId,
    pub route_id: WorkflowActionRouteId,
    pub stage_id: String,
    pub action_request_id: String,
    pub session_id: String,
    pub pending_approval_id: String,
    pub tool_call_id: Option<String>,
    pub expected_route_hash: String,
    pub expected_workflow_run_hash: String,
    pub resolution: WorkflowApprovalResolution,
    pub requested_by: String,
    pub requested_at: Timestamp,
    pub idempotency_key: String,
}

/// Approval resolution intent. It maps to the session approval input only and
/// never constructs, saves or changes approval records.
#[derive(Debug, Clone)]
pub enum WorkflowApprovalResolution {
    Approve { rationale: String },
    Reject { rationale: String },
}

impl WorkflowApprovalResolution {
    /// The rationale text, whichever way the resolution goes.
    pub open spec fn rationale_view(self) -> Seq<char> {
        match self {
            WorkflowApprovalResolution::Approve { rationale } => rationale@,
            WorkflowApprovalResolution::Reject { rationale } => rationale@,
        }
    }
}

/// Durable outcome linkage evidence.
#[derive(Debug, Clone)]
pub struct WorkflowActionOutcomeRecord {
    pub outcome_id: WorkflowActionOutcomeId,
    pub workflow_execution_id: WorkflowExecutionId,
    pub route_id: WorkflowActionRouteId,
    pub stage_id: String,
    pub action_request_id: String,
    pub session_id: String,
    pub pending_approval_id: String,
    pub tool_call_id: Option<String>,
    pub route_hash: String,
    pub workflow_run_hash: String,
    pub status: WorkflowActionOutcomeStatus,
    pub decision: WorkflowActionOutcomeDecision,
    pub predicates: Vec<WorkflowActionOutcomePredicateResult>,
    pub approval_resolution: WorkflowApprovalResolution,
    pub session_outcome: Option<WorkflowSessionActionOutcomeSnapshot>,
    pub created_at: Timestamp,
    pub completed_at: Option<Timestamp>,
}

/// Outcome status.
#[derive(Debug, Clone, Copy, PartialEq, Eq, Structural)]
pub enum WorkflowActionOutcomeStatus {
    Blocked,
    ApprovalResolved,
    ToolCompleted,
    ToolDenied,
    Failed,
    AlreadyResolved,
}

impl WorkflowActionOutcomeStatus {
    /// The `Debug` name of the value.
    pub open spec fn debug_view(self) -> Seq<char> {
        match self {
            WorkflowActionOutcomeStatus::Blocked => "Blocked"@,
            WorkflowActionOutcomeStatus::ApprovalResolved => "ApprovalResolved"@,
            WorkflowActionOutcomeStatus::ToolCompleted => "ToolCompleted"@,
            WorkflowActionOutcomeStatus::ToolDenied => "ToolDenied"@,
            WorkflowActionOutcomeStatus::Failed => "Failed"@,
            WorkflowActionOutcomeStatus::AlreadyResolved => "AlreadyResolved"@,
        }
    }

    pub fn debug_name(&self) -> (s: &'static str)
        ensures
            s@ == self.debug_view(),
    {
        match self {
            WorkflowActionOutcomeStatus::Blocked => "Blocked",
            WorkflowActionOutcomeStatus::ApprovalResolved => "ApprovalResolved",
            WorkflowActionOutcomeStatus::ToolCompleted => "ToolCompleted",
            WorkflowActionOutcomeStatus::ToolDenied => "ToolDenied",
            WorkflowActionOutcomeStatus::Failed => "Failed",
            WorkflowActionOutcomeStatus::AlreadyResolved => "AlreadyResolved",
        }
    }
}

/// Outcome decision: what happened, not what was executed.
#[derive(Debug, Clone)]
pub enum WorkflowActionOutcomeDecision {
    ApprovalResolved { summary: String },
    ToolCompleted { summary: String },
    ToolDenied { summary: String },
    Blocked { reason_code: String, summary: String },
    Failed { reason_code: String, summary: String },
}

/// Session-produced result after approval resolution; every field is observed
/// from session output, never constructed by the workflow.
#[derive(Debug, Clone)]
pub struct WorkflowSessionActionOutcomeSnapshot {
    pub session_id: String,
    pub session_run_id: Option<String>,
    pub trace_ids: Vec<String>,
    pub approval_request_id_observed: String,
    pub approval_resolution_observed: String,
    pub tool_call_id_observed_from_session: Option<String>,
    pub tool_name_observed_from_session: Option<String>,
    pub tool_status_observed_from_session: Option<String>,
    pub safe_result_summary: Option<String>,
}

/// Outcome predicates: readiness to resolve.
#[derive(Debug, Clone, Copy, PartialEq, Eq, Structural)]
pub enum WorkflowActionOutcomePredicate {
    WorkflowRunExists,
    WorkflowRunHashMatchesRequest,
    RouteRecordExists,
    RouteHashMatchesRequest,
    RouteIsSuspendedForApproval,
    RouteLinksSameWorkflowRun,
    RouteLinksSameStage,
    RouteLinksSameActionRequest,
    RouteLinksSameSession,
    RouteHasExactlyOnePendingApproval,
    PendingApprovalIdMatchesRoute,
    ToolCallIdMatchesWhenPresent,
    ResolutionRationalePresent,
    ApprovalBridgeAvailable,
    NoPriorConflictingOutcome,
    IdempotencyKeyUnusedOrMatchesExisting,
}

impl PredicateName for WorkflowActionOutcomePredicate {
    open spec fn name_view(self) -> Seq<char> {
        match self {
            WorkflowActionOutcomePredicate::WorkflowRunExists => "WorkflowRunExists"@,
            WorkflowActionOutcomePredicate::WorkflowRunHashMatchesRequest => "WorkflowRunHashMatchesRequest"@,
            WorkflowActionOutcomePredicate::RouteRecordExists => "RouteRecordExists"@,
            WorkflowActionOutcomePredicate::RouteHashMatchesRequest => "RouteHashMatchesRequest"@,
            WorkflowActionOutcomePredicate::RouteIsSuspendedForApproval => "RouteIsSuspendedForApproval"@,
            WorkflowActionOutcomePredicate::RouteLinksSameWorkflowRun => "RouteLinksSameWorkflowRun"@,
            WorkflowActionOutcomePredicate::RouteLinksSameStage => "RouteLinksSameStage"@,
            WorkflowActionOutcomePredicate::RouteLinksSameActionRequest => "RouteLinksSameActionRequest"@,
            WorkflowActionOutcomePredicate::RouteLinksSameSession => "RouteLinksSameSession"@,
            WorkflowActionOutcomePredicate::RouteHasExactlyOnePendingApproval => "RouteHasExactlyOnePendingApproval"@,
            WorkflowActionOutcomePredicate::PendingApprovalIdMatchesRoute => "PendingApprovalIdMatchesRoute"@,
            WorkflowActionOutcomePredicate::ToolCallIdMatchesWhenPresent => "ToolCallIdMatchesWhenPresent"@,
            WorkflowActionOutcomePredicate::ResolutionRationalePresent => "ResolutionRationalePresent"@,
            WorkflowActionOutcomePredicate::ApprovalBridgeAvailable => "ApprovalBridgeAvailable"@,
            WorkflowActionOutcomePredicate::NoPriorConflictingOutcome => "NoPriorConflictingOutcome"@,
            WorkflowActionOutcomePredicate::IdempotencyKeyUnusedOrMatchesExisting => "IdempotencyKeyUnusedOrMatchesExisting"@,
        }
    }

    fn debug_name(&self) -> (s: &'static str) {
        match self {
            WorkflowActionOutcomePredicate::WorkflowRunExists => "WorkflowRunExists",
            WorkflowActionOutcomePredicate::WorkflowRunHashMatchesRequest => "WorkflowRunHashMatchesRequest",
            WorkflowActionOutcomePredicate::RouteRecordExists => "RouteRecordExists",
            WorkflowActionOutcomePredicate::RouteHashMatchesRequest => "RouteHashMatchesRequest",
            WorkflowActionOutcomePredicate::RouteIsSuspendedForApproval => "RouteIsSuspendedForApproval",
            WorkflowActionOutcomePredicate::RouteLinksSameWorkflowRun => "RouteLinksSameWorkflowRun",
            WorkflowActionOutcomePredicate::RouteLinksSameStage => "RouteLinksSameStage",
            WorkflowActionOutcomePredicate::RouteLinksSameActionRequest => "RouteLinksSameActionRequest",
            WorkflowActionOutcomePredicate::RouteLinksSameSession => "RouteLinksSameSession",
            WorkflowActionOutcomePredicate::RouteHasExactlyOnePendingApproval => "RouteHasExactlyOnePendingApproval",
            WorkflowActionOutcomePredicate::PendingApprovalIdMatchesRoute => "PendingApprovalIdMatchesRoute",
            WorkflowActionOutcomePredicate::ToolCallIdMatchesWhenPresent => "ToolCallIdMatchesWhenPresent",
            WorkflowActionOutcomePredicate::ResolutionRationalePresent => "ResolutionRationalePresent",
            WorkflowActionOutcomePredicate::ApprovalBridgeAvailable => "ApprovalBridgeAvailable",
            WorkflowActionOutcomePredicate::NoPriorConflictingOutcome => "NoPriorConflictingOutcome",
            WorkflowActionOutcomePredicate::IdempotencyKeyUnusedOrMatchesExisting => "IdempotencyKeyUnusedOrMatchesExisting",
        }
    }
}

/// Result of evaluating one outcome predicate.
#[derive(Debug, Clone)]
pub struct WorkflowActionOutcomePredicateResult {
    pub predicate: WorkflowActionOutcomePredicate,
    pub passed: bool,
    pub reason: String,
}

impl CheckResult for WorkflowActionOutcomePredicateResult {
    type P = WorkflowActionOutcomePredicate;

    open spec fn check_view(&self) -> (WorkflowActionOutcomePredicate, bool, Seq<char>) {
        (self.predicate, self.passed, self.reason@)
    }

    fn passed_flag(&self) -> (b: bool) {
        self.passed
    }

    fn predicate_value(&self) -> (p: WorkflowActionOutcomePredicate) {
        self.predicate
    }

    fn reason_text(&self) -> (s: &str) {
        self.reason.as_str()
    }

    fn make_check(p: Self::P, passed: bool, reason: String) -> (r: Self) {
        Self { predicate: p, passed, reason }
    }
}

} // verus!
