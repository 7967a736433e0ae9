//! Workflow readiness identifiers and tool-intent resolution snapshots.
use vstd::prelude::*;
use crate::outside::Timestamp;
use crate::workflow_proposal::WorkflowProposalId;
use crate::workflow_proposal_review::WorkflowProposalReviewId;

verus! {

/// Content-addressed workflow readiness id.
#[derive(Debug, Clone, PartialEq, Eq, Hash)]
pub struct WorkflowReadinessId(pub String);

/// How a tool intent's capability resolved.
#[derive(Debug, Clone, Copy, PartialEq, Eq, Structural)]
pub enum ToolIntentResolutionStatus {
    ResolvedCategory,
    Unresolved,
    Ambiguous,
    RejectedExecutable,
}

/// The outcome of resolving one tool intent: descriptive only, never a tool call.
#[derive(Debug, Clone)]
pub struct ToolIntentResolutionSnapshot {
    pub intent_id: String,
    pub capability: String,
    pub resolution_status: ToolIntentResolutionStatus,
    pub matched_capability_category: Option<String>,
    pub reason: String,
}

/// Status of a workflow readiness evaluation.
#[derive(Debug, Clone, Copy, PartialEq, Eq, Structural)]
pub enum WorkflowReadinessStatus {
    Ready,
    Blocked,
    Inconclusive,
}

impl WorkflowReadinessStatus {
    /// The `Debug` name of the value.
    pub open spec fn debug_view(self) -> Seq<char> {
        match self {
            WorkflowReadinessStatus::Ready => "Ready"@,
            WorkflowReadinessStatus::Blocked => "Blocked"@,
            WorkflowReadinessStatus::Inconclusive => "Inconclusive"@,
        }
    }

    pub fn debug_name(&self) -> (s: &'static str)
        ensures
            s@ == self.debug_view(),
    {
        match self {
            WorkflowReadinessStatus::Ready => "Ready",
            WorkflowReadinessStatus::Blocked => "Blocked",
            WorkflowReadinessStatus::Inconclusive => "Inconclusive",
        }
    }
}

/// Whether a reviewed workflow proposal is ready to run.
#[derive(Debug, Clone)]
pub struct WorkflowReadinessRecord {
    pub readiness_id: WorkflowReadinessId,
    pub proposal_id: WorkflowProposalId,
    pub review_id: WorkflowProposalReviewId,
    pub proposal_hash: String,
    pub status: WorkflowReadinessStatus,
    pub tool_intent_resolutions: Vec<ToolIntentResolutionSnapshot>,
    pub created_at: Timestamp,
}

} // verus!
