//! Routing readiness records: a reviewed next action judged ready to be routed,
//! with a descriptive preview of the route it would request.
use vstd::prelude::*;
use crate::outside::Timestamp;
use crate::workflow_continuation::{WorkflowNextActionCandidate, WorkflowNextActionProposalId};
use crate::workflow_next_action_review::WorkflowNextActionReviewId;
use crate::workflow_reconciliation::WorkflowRunRevisionId;
use crate::workflow_run::WorkflowExecutionId;

verus! {

/// Content-addressed routing readiness id.
#[derive(Debug, Clone, PartialEq, Eq, Hash)]
pub struct WorkflowRoutingReadinessId(pub String);

/// Routing readiness status.
#[derive(Debug, Clone, Copy, PartialEq, Eq, Structural)]
pub enum WorkflowRoutingReadinessStatus {
    Ready,
    Blocked,
}

/// Routing readiness decision.
#[derive(Debug, Clone)]
pub enum WorkflowRoutingReadinessDecision {
    Ready { summary: String },
    Blocked { reason_code: String, summary: String },
}

/// Descriptive preview of the route a ready next action would request. It creates
/// no route.
#[derive(Debug, Clone)]
pub struct WorkflowRouteRequestPreview {
    pub workflow_execution_id: WorkflowExecutionId,
    pub stage_id: String,
    pub action_request_id: String,
    pub source_proposal_id: WorkflowNextActionProposalId,
    pub source_review_id: WorkflowNextActionReviewId,
    pub descriptive_only: bool,
    pub creates_route_now: bool,
}

/// Durable routing readiness record.
#[derive(Debug, Clone)]
pub struct WorkflowRoutingReadinessRecord {
    pub readiness_id: WorkflowRoutingReadinessId,
    pub proposal_id: WorkflowNextActionProposalId,
    pub review_id: WorkflowNextActionReviewId,
    pub workflow_execution_id: WorkflowExecutionId,
    pub source_run_revision_id: WorkflowRunRevisionId,
    pub proposal_hash: String,
    pub run_revision_hash: String,
    pub status: WorkflowRoutingReadinessStatus,
    pub decision: WorkflowRoutingReadinessDecision,
    /// The checks that were evaluated, as text.
    pub predicates: Vec<String>,
    pub candidate: Option<WorkflowNextActionCandidate>,
    pub route_request_preview: Option<WorkflowRouteRequestPreview>,
    pub created_at: Timestamp,
}

} // verus!
