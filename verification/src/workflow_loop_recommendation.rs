//! Loop recommendations. A recommendation is display-only: its command hint is
//! a label, never a command, and it carries no executable field.
use vstd::prelude::*;

verus! {

#[derive(Debug, Clone, Copy, PartialEq, Eq, Structural)]
pub enum WorkflowManualOperationKind {
    CreateContinuationProposal,
    ReviewNextActionProposal,
    EvaluateRoutingReadiness,
    RouteReviewedNextAction,
    ObserveRouteOutcome,
    ResolveWorkflowApprovalOutcome,
    ReconcileWorkflowOutcome,
    InspectBlockedWorkflow,
    NoAction,
    CreateCommandDescriptor,
    ReviewCommandDescriptor,
    CaptureManualResult,
    ReviewManualResult,
    EvaluateReconciliationReadiness,
    ReconcileManualResult,
}

#[derive(Debug, Clone)]
pub struct WorkflowLoopRecommendation {
    pub operation: WorkflowManualOperationKind,
    /// Display text only. Not parsed, not executed, not copied into shell APIs.
    pub command_hint: String,
    pub reason: String,
    pub required_inputs: Vec<String>,
    pub evidence_links: Vec<WorkflowLoopEvidenceLink>,
}

#[derive(Debug, Clone)]
pub struct WorkflowLoopEvidenceLink {
    pub link_kind: String,
    pub record_id: String,
    pub summary: String,
}

} // verus!
