//! Workflow proposal review identifiers and decisions.
use vstd::prelude::*;
use crate::outside::Timestamp;
use crate::plan::TaskPlanId;
use crate::workflow_proposal::WorkflowProposalId;

verus! {

/// Content-addressed workflow proposal review id.
#[derive(Debug, Clone, PartialEq, Eq, Hash)]
pub struct WorkflowProposalReviewId(pub String);

/// Decision of a workflow proposal review.
#[derive(Debug, Clone, Copy, PartialEq, Eq, Structural)]
pub enum WorkflowProposalReviewDecision {
    Approved,
    Rejected,
    ChangesRequested,
}

impl WorkflowProposalReviewDecision {
    /// The `Debug` name of the value.
    pub open spec fn debug_view(self) -> Seq<char> {
        match self {
            WorkflowProposalReviewDecision::Approved => "Approved"@,
            WorkflowProposalReviewDecision::Rejected => "Rejected"@,
            WorkflowProposalReviewDecision::ChangesRequested => "ChangesRequested"@,
        }
    }

    pub fn debug_name(&self) -> (s: &'static str)
        ensures
            s@ == self.debug_view(),
    {
        match self {
            WorkflowProposalReviewDecision::Approved => "Approved",
            WorkflowProposalReviewDecision::Rejected => "Rejected",
            WorkflowProposalReviewDecision::ChangesRequested => "ChangesRequested",
        }
    }
}

/// A human review of a workflow proposal. It grants no execution.
#[derive(Debug, Clone)]
pub struct WorkflowProposalReview {
    pub review_id: WorkflowProposalReviewId,
    pub proposal_id: WorkflowProposalId,
    pub source_task_plan_id: TaskPlanId,
    pub proposal_hash: String,
    pub decision: WorkflowProposalReviewDecision,
    pub reviewer: String,
    pub rationale: String,
    pub feedback: Option<String>,
    pub creates_execution_grant: bool,
    pub execution_allowed_now: bool,
    pub reviewed_at: Timestamp,
}

} // verus!
