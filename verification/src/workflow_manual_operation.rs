//! Vocabulary of manual operator commands: kinds, arguments, missing inputs
//! and evidence links. All of it is display data.
use vstd::prelude::*;

verus! {

#[derive(Debug, Clone, Copy, PartialEq, Eq, Structural)]
pub enum WorkflowManualCommandKind {
    WorkflowContinuationPropose,
    WorkflowNextActionReviewApprove,
    WorkflowRoutingReadinessEvaluate,
    WorkflowNextActionRoutingRoute,
    WorkflowActionOutcomeResolve,
    WorkflowReconciliationReconcile,
    WorkflowLoopRecommend,
    InspectBlockedWorkflow,
    NoCommand,
    // manual-result ladder command kinds
    WorkflowCommandCompose,
    WorkflowCommandReviewAcknowledge,
    WorkflowManualResultCapture,
    WorkflowManualResultReviewAccept,
    WorkflowManualResultReconciliationReadinessEvaluate,
    WorkflowManualResultReconciliationGateReconcile,
}

#[derive(Debug, Clone)]
pub struct WorkflowManualCommandArgument {
    pub name: String,
    pub value_preview: Option<String>,
    pub source: WorkflowCommandArgumentSource,
    pub required: bool,
    pub missing: bool,
}

#[derive(Debug, Clone, Copy, PartialEq, Eq, Structural)]
pub enum WorkflowCommandArgumentSource {
    LoopController,
    WorkflowRun,
    RunRevision,
    ContinuationProposal,
    NextActionReview,
    RoutingReadiness,
    NextActionRouting,
    ActionRoute,
    ActionOutcome,
    Reconciliation,
    OperatorInput,
}

#[derive(Debug, Clone)]
pub struct WorkflowCommandMissingInput {
    pub name: String,
    pub reason: String,
    pub suggested_source: String,
}

#[derive(Debug, Clone)]
pub struct WorkflowCommandEvidenceLink {
    pub kind: WorkflowCommandEvidenceKind,
    pub id: String,
    pub summary: String,
}

#[derive(Debug, Clone, Copy, PartialEq, Eq, Structural)]
pub enum WorkflowCommandEvidenceKind {
    LoopController,
    WorkflowRun,
    RunRevision,
    ContinuationProposal,
    NextActionReview,
    RoutingReadiness,
    NextActionRouting,
    ActionRoute,
    ActionOutcome,
    Reconciliation,
}

} // verus!
