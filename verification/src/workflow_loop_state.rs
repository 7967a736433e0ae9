//! Loop state: a read-only observation of a workflow run and its evidence
//! chain. A detected state advances, routes, approves and reconciles nothing.
use vstd::prelude::*;
use crate::workflow_action_outcome::WorkflowActionOutcomeId;
use crate::workflow_action_route::WorkflowActionRouteId;
use crate::workflow_command_composer::WorkflowCommandComposerId;
use crate::workflow_command_review::WorkflowCommandReviewId;
use crate::workflow_continuation::{WorkflowContinuationReadinessId, WorkflowNextActionProposalId};
use crate::workflow_manual_result::WorkflowManualResultId;
use crate::workflow_manual_result_reconciliation_gate::WorkflowManualResultReconciliationGateId;
use crate::workflow_manual_result_reconciliation_readiness::WorkflowManualResultReconciliationReadinessId;
use crate::workflow_manual_result_review::WorkflowManualResultReviewId;
use crate::workflow_next_action_review::WorkflowNextActionReviewId;
use crate::workflow_next_action_routing_gate::WorkflowNextActionRoutingId;
use crate::workflow_reconciliation::{WorkflowReconciliationId, WorkflowRunRevisionId};
use crate::workflow_routing_readiness::WorkflowRoutingReadinessId;
use crate::workflow_run::WorkflowExecutionId;

verus! {

/// Observed state of a workflow run and its linked evidence chain.
#[derive(Debug, Clone)]
pub struct WorkflowLoopState {
    pub workflow_execution_id: WorkflowExecutionId,
    pub latest_run_revision_id: Option<WorkflowRunRevisionId>,
    pub run_status: String,
    pub stage_summary: Vec<WorkflowLoopStageSummary>,
    pub latest_route_id: Option<WorkflowActionRouteId>,
    pub latest_outcome_id: Option<WorkflowActionOutcomeId>,
    pub latest_reconciliation_id: Option<WorkflowReconciliationId>,
    pub latest_continuation_readiness_id: Option<WorkflowContinuationReadinessId>,
    pub latest_next_action_proposal_id: Option<WorkflowNextActionProposalId>,
    pub latest_next_action_review_id: Option<WorkflowNextActionReviewId>,
    pub latest_routing_readiness_id: Option<WorkflowRoutingReadinessId>,
    pub latest_next_action_routing_id: Option<WorkflowNextActionRoutingId>,
    pub latest_command_composer_id: Option<WorkflowCommandComposerId>,
    pub latest_command_review_id: Option<WorkflowCommandReviewId>,
    pub latest_manual_result_id: Option<WorkflowManualResultId>,
    pub latest_manual_result_review_id: Option<WorkflowManualResultReviewId>,
    pub latest_reconciliation_readiness_id: Option<WorkflowManualResultReconciliationReadinessId>,
    pub latest_manual_reconciliation_gate_id: Option<WorkflowManualResultReconciliationGateId>,
    pub detected_state: WorkflowDetectedLoopState,
}

#[derive(Debug, Clone)]
pub struct WorkflowLoopStageSummary {
    pub stage_id: String,
    pub title: String,
    pub status: String,
    pub order: u32,
    pub has_action_request: bool,
}

#[derive(Debug, Clone, Copy, PartialEq, Eq, Structural)]
pub enum WorkflowDetectedLoopState {
    NeedsInitialContinuationProposal,
    NeedsNextActionReview,
    NeedsRoutingReadiness,
    NeedsNextActionRouting,
    NeedsSessionRoutingObservation,
    NeedsApprovalOutcomeResolution,
    NeedsOutcomeReconciliation,
    NeedsContinuationAfterReconciliation,
    NeedsCommandDescriptor,
    NeedsCommandReview,
    NeedsManualResultCapture,
    NeedsManualResultReview,
    NeedsReconciliationReadiness,
    NeedsManualReconciliation,
    WorkflowComplete,
    WorkflowBlocked,
    Inconclusive,
}

impl WorkflowDetectedLoopState {
    /// The `Debug` name of the value.
    pub open spec fn debug_view(self) -> Seq<char> {
        match self {
            WorkflowDetectedLoopState::NeedsInitialContinuationProposal => "NeedsInitialContinuationProposal"@,
            WorkflowDetectedLoopState::NeedsNextActionReview => "NeedsNextActionReview"@,
            WorkflowDetectedLoopState::NeedsRoutingReadiness => "NeedsRoutingReadiness"@,
            WorkflowDetectedLoopState::NeedsNextActionRouting => "NeedsNextActionRouting"@,
            WorkflowDetectedLoopState::NeedsSessionRoutingObservation => "NeedsSessionRoutingObservation"@,
            WorkflowDetectedLoopState::NeedsApprovalOutcomeResolution => "NeedsApprovalOutcomeResolution"@,
            WorkflowDetectedLoopState::NeedsOutcomeReconciliation => "NeedsOutcomeReconciliation"@,
            WorkflowDetectedLoopState::NeedsContinuationAfterReconciliation => "NeedsContinuationAfterReconciliation"@,
            WorkflowDetectedLoopState::NeedsCommandDescriptor => "NeedsCommandDescriptor"@,
            WorkflowDetectedLoopState::NeedsCommandReview => "NeedsCommandReview"@,
            WorkflowDetectedLoopState::NeedsManualResultCapture => "NeedsManualResultCapture"@,
            WorkflowDetectedLoopState::NeedsManualResultReview => "NeedsManualResultReview"@,
            WorkflowDetectedLoopState::NeedsReconciliationReadiness => "NeedsReconciliationReadiness"@,
            WorkflowDetectedLoopState::NeedsManualReconciliation => "NeedsManualReconciliation"@,
            WorkflowDetectedLoopState::WorkflowComplete => "WorkflowComplete"@,
            WorkflowDetectedLoopState::WorkflowBlocked => "WorkflowBlocked"@,
            WorkflowDetectedLoopState::Inconclusive => "Inconclusive"@,
        }
    }

    pub fn debug_name(&self) -> (s: &'static str)
        ensures
            s@ == self.debug_view(),
    {
        match self {
            WorkflowDetectedLoopState::NeedsInitialContinuationProposal => "NeedsInitialContinuationProposal",
            WorkflowDetectedLoopState::NeedsNextActionReview => "NeedsNextActionReview",
            WorkflowDetectedLoopState::NeedsRoutingReadiness => "NeedsRoutingReadiness",
            WorkflowDetectedLoopState::NeedsNextActionRouting => "NeedsNextActionRouting",
            WorkflowDetectedLoopState::NeedsSessionRoutingObservation => "NeedsSessionRoutingObservation",
            WorkflowDetectedLoopState::NeedsApprovalOutcomeResolution => "NeedsApprovalOutcomeResolution",
            WorkflowDetectedLoopState::NeedsOutcomeReconciliation => "NeedsOutcomeReconciliation",
            WorkflowDetectedLoopState::NeedsContinuationAfterReconciliation => "NeedsContinuationAfterReconciliation",
            WorkflowDetectedLoopState::NeedsCommandDescriptor => "NeedsCommandDescriptor",
            WorkflowDetectedLoopState::NeedsCommandReview => "NeedsCommandReview",
            WorkflowDetectedLoopState::NeedsManualResultCapture => "NeedsManualResultCapture",
            WorkflowDetectedLoopState::NeedsManualResultReview => "NeedsManualResultReview",
            WorkflowDetectedLoopState::NeedsReconciliationReadiness => "NeedsReconciliationReadiness",
            WorkflowDetectedLoopState::NeedsManualReconciliation => "NeedsManualReconciliation",
            WorkflowDetectedLoopState::WorkflowComplete => "WorkflowComplete",
            WorkflowDetectedLoopState::WorkflowBlocked => "WorkflowBlocked",
            WorkflowDetectedLoopState::Inconclusive => "Inconclusive",
        }
    }
}

} // verus!
