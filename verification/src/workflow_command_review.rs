//! Operator acknowledgments of display-only command descriptors. A review does
//! not execute the command, grant execution, route, approve or change state.
use vstd::prelude::*;
use crate::outside::Timestamp;
use crate::text::{copy_strings, views};
use crate::workflow_command_composer::WorkflowCommandComposerId;
use crate::workflow_loop_controller::WorkflowLoopControllerId;
use crate::workflow_run::WorkflowExecutionId;

verus! {

/// Content-addressed review ID. Format: wcrv_<blake3_hex>
#[derive(Debug, Clone, PartialEq, Eq, Hash)]
pub struct WorkflowCommandReviewId(pub String);

#[derive(Debug, Clone)]
pub struct WorkflowCommandReviewRequest {
    pub workflow_execution_id: WorkflowExecutionId,
    pub command_composer_id: WorkflowCommandComposerId,
    pub loop_controller_id: WorkflowLoopControllerId,
    /// hash of the composer record (not just the descriptor projection)
    pub expected_command_composer_hash: String,
    /// Hash of the descriptor projection inside the composer record
    pub expected_command_descriptor_hash: String,
    pub expected_loop_controller_hash: String,
    pub decision: WorkflowCommandReviewDecision,
    pub reviewer: String,
    pub rationale: String,
    pub feedback: Option<WorkflowCommandReviewFeedback>,
    pub reviewed_at: Timestamp,
    pub idempotency_key: String,
}

#[derive(Debug, Clone)]
pub struct WorkflowCommandReview {
    pub review_id: WorkflowCommandReviewId,
    pub workflow_execution_id: WorkflowExecutionId,
    pub command_composer_id: WorkflowCommandComposerId,
    pub loop_controller_id: WorkflowLoopControllerId,
    pub command_composer_hash: String,
    pub command_descriptor_hash: String,
    pub loop_controller_hash: String,
    pub decision: WorkflowCommandReviewDecision,
    pub reviewer: String,
    pub rationale: String,
    pub feedback: Option<WorkflowCommandReviewFeedback>,
    pub acknowledgment_snapshot: WorkflowCommandAcknowledgmentSnapshot,
    pub executes_command: bool,
    pub invokes_shell: bool,
    pub invokes_git: bool,
    pub routes_action: bool,
    pub resolves_approval: bool,
    pub reconciles_outcome: bool,
    pub mutates_workflow_state: bool,
    pub schedules_work: bool,
    pub starts_worker: bool,
    pub queues_operation: bool,
    pub creates_execution_grant: bool,
    pub execution_allowed_now: bool,
    pub reviewed_at: Timestamp,
}

#[derive(Debug, Clone, Copy, PartialEq, Eq, Structural)]
pub enum WorkflowCommandReviewDecision {
    Acknowledged,
    Rejected,
    ChangesRequested,
}

#[derive(Debug, Clone)]
pub struct WorkflowCommandReviewFeedback {
    pub summary: String,
    pub blocking_reasons: Vec<String>,
    pub requested_changes: Vec<String>,
    pub evidence_gaps: Vec<String>,
}

#[derive(Debug, Clone)]
pub struct WorkflowCommandAcknowledgmentSnapshot {
    pub descriptor_display_command: String,
    pub descriptor_copyable_text_hash: String,
    pub descriptor_display_only: bool,
    pub descriptor_executable: bool,
    pub descriptor_missing_inputs: Vec<String>,
    pub loop_detected_state: String,
    pub loop_recommended_operation: String,
    /// acknowledgment records review only, not command performance.
    pub acknowledges_review_only: bool,
    /// the command was not performed by this acknowledgment.
    pub command_performed_now: bool,
}

/// Feedback as plain values.
pub open spec fn command_feedback_view(f: WorkflowCommandReviewFeedback) -> (Seq<char>, Seq<Seq<char>>, Seq<Seq<char>>, Seq<Seq<char>>) {
    (f.summary@, views(f.blocking_reasons@), views(f.requested_changes@), views(f.evidence_gaps@))
}

/// A field-by-field copy of optional feedback.
pub fn copy_command_feedback(f: &Option<WorkflowCommandReviewFeedback>) -> (r: Option<WorkflowCommandReviewFeedback>)
    ensures
        match (r, *f) {
            (Some(a), Some(b)) => command_feedback_view(a) == command_feedback_view(b),
            (None, None) => true,
            _ => false,
        },
{
    match f {
        Some(b) => Some(WorkflowCommandReviewFeedback {
            summary: b.summary.clone(),
            blocking_reasons: copy_strings(&b.blocking_reasons),
            requested_changes: copy_strings(&b.requested_changes),
            evidence_gaps: copy_strings(&b.evidence_gaps),
        }),
        None => None,
    }
}

} // verus!
