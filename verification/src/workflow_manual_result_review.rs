//! Reviews of operator-reported manual results. Accepting a result accepts the
//! reported evidence only; it verifies nothing outside.
use vstd::prelude::*;
use crate::outside::Timestamp;
use crate::text::{copy_strings, views};
use crate::workflow_command_composer::WorkflowCommandComposerId;
use crate::workflow_command_review::WorkflowCommandReviewId;
use crate::workflow_loop_controller::WorkflowLoopControllerId;
use crate::workflow_manual_result::WorkflowManualResultId;
use crate::workflow_run::WorkflowExecutionId;

verus! {

/// Content-addressed review ID. Format: wmrr_<blake3_hex>
#[derive(Debug, Clone, PartialEq, Eq, Hash)]
pub struct WorkflowManualResultReviewId(pub String);

/// Request to review a reported manual result.
#[derive(Debug, Clone)]
pub struct WorkflowManualResultReviewRequest {
    pub workflow_execution_id: WorkflowExecutionId,
    pub manual_result_id: WorkflowManualResultId,
    pub command_review_id: WorkflowCommandReviewId,
    pub command_composer_id: WorkflowCommandComposerId,
    pub loop_controller_id: WorkflowLoopControllerId,
    // full evidence chain hashes
    pub expected_manual_result_hash: String,
    pub expected_command_review_hash: String,
    pub expected_command_composer_hash: String,
    pub expected_command_descriptor_hash: String,
    pub expected_loop_controller_hash: String,
    pub decision: WorkflowManualResultReviewDecision,
    pub reviewer: String,
    pub rationale: String,
    pub feedback: Option<WorkflowManualResultReviewFeedback>,
    pub reviewed_at: Timestamp,
    pub idempotency_key: String,
}

/// Sealed review record.
#[derive(Debug, Clone)]
pub struct WorkflowManualResultReview {
    pub review_id: WorkflowManualResultReviewId,
    pub workflow_execution_id: WorkflowExecutionId,
    pub manual_result_id: WorkflowManualResultId,
    pub command_review_id: WorkflowCommandReviewId,
    pub command_composer_id: WorkflowCommandComposerId,
    pub loop_controller_id: WorkflowLoopControllerId,
    // stored hashes from evidence chain
    pub manual_result_hash: String,
    pub command_review_hash: String,
    pub command_composer_hash: String,
    pub command_descriptor_hash: String,
    pub loop_controller_hash: String,
    pub decision: WorkflowManualResultReviewDecision,
    pub reviewer: String,
    pub rationale: String,
    pub feedback: Option<WorkflowManualResultReviewFeedback>,
    // acceptance semantics snapshot
    pub acceptance_snapshot: WorkflowManualResultReviewAcceptanceSnapshot,
    pub verifies_external_state: bool,
    pub reconciles_workflow_state: bool,
    pub mutates_workflow_state: bool,
    pub executes_command: bool,
    pub invokes_shell: bool,
    pub invokes_git: bool,
    pub routes_action: bool,
    pub resolves_approval: bool,
    pub appends_trace: bool,
    pub writes_memory: bool,
    pub creates_execution_grant: bool,
    pub execution_allowed_now: bool,
    pub reviewed_at: Timestamp,
}

/// Review decision.
#[derive(Debug, Clone, Copy, PartialEq, Eq, Structural)]
pub enum WorkflowManualResultReviewDecision {
    Accepted,
    Rejected,
    ChangesRequested,
}

/// Structured feedback for rejection or change request.
#[derive(Debug, Clone)]
pub struct WorkflowManualResultReviewFeedback {
    pub summary: String,
    pub blocking_reasons: Vec<String>,
    pub requested_changes: Vec<String>,
    pub evidence_gaps: Vec<String>,
}

/// acceptance semantics snapshot.
#[derive(Debug, Clone)]
pub struct WorkflowManualResultReviewAcceptanceSnapshot {
    pub accepts_reported_evidence: bool,
    pub verifies_external_state: bool,
    pub reconciles_workflow_state: bool,
    pub result_verified_by_openwand: bool,
}

/// Feedback as plain values.
pub open spec fn result_feedback_view(f: WorkflowManualResultReviewFeedback) -> (Seq<char>, Seq<Seq<char>>, Seq<Seq<char>>, Seq<Seq<char>>) {
    (f.summary@, views(f.blocking_reasons@), views(f.requested_changes@), views(f.evidence_gaps@))
}

/// A field-by-field copy of optional feedback.
pub fn copy_result_feedback(f: &Option<WorkflowManualResultReviewFeedback>) -> (r: Option<WorkflowManualResultReviewFeedback>)
    ensures
        match (r, *f) {
            (Some(a), Some(b)) => result_feedback_view(a) == result_feedback_view(b),
            (None, None) => true,
            _ => false,
        },
{
    match f {
        Some(b) => Some(WorkflowManualResultReviewFeedback {
            summary: b.summary.clone(),
            blocking_reasons: copy_strings(&b.blocking_reasons),
            requested_changes: copy_strings(&b.requested_changes),
            evidence_gaps: copy_strings(&b.evidence_gaps),
        }),
        None => None,
    }
}

} // verus!
