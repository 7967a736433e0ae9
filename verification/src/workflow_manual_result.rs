//! Operator-reported results of manual commands. A result is evidence reported
//! by the operator; it is never verified, executed or reconciled here.
use vstd::prelude::*;
use crate::outside::Timestamp;
use crate::text::{copy_opt, opt_view};
use crate::workflow_command_composer::WorkflowCommandComposerId;
use crate::workflow_command_review::WorkflowCommandReviewId;
use crate::workflow_loop_controller::WorkflowLoopControllerId;
use crate::workflow_run::WorkflowExecutionId;

verus! {

/// Content-addressed result ID. Format: wmr_<blake3_hex>
#[derive(Debug, Clone, PartialEq, Eq, Hash)]
pub struct WorkflowManualResultId(pub String);

#[derive(Debug, Clone)]
pub struct WorkflowManualResultRequest {
    pub workflow_execution_id: WorkflowExecutionId,
    pub command_review_id: WorkflowCommandReviewId,
    pub command_composer_id: WorkflowCommandComposerId,
    pub loop_controller_id: WorkflowLoopControllerId,
    pub expected_command_review_hash: String,
    pub expected_command_composer_hash: String,
    pub expected_command_descriptor_hash: String,
    pub expected_loop_controller_hash: String,
    pub status: WorkflowManualResultStatus,
    pub operator: String,
    pub summary: String,
    pub details: Option<String>,
    pub artifact_references: Vec<WorkflowManualArtifactReference>,
    pub captured_at: Timestamp,
    pub idempotency_key: String,
}

#[derive(Debug, Clone)]
pub struct WorkflowManualResult {
    pub result_id: WorkflowManualResultId,
    pub workflow_execution_id: WorkflowExecutionId,
    pub command_review_id: WorkflowCommandReviewId,
    pub command_composer_id: WorkflowCommandComposerId,
    pub loop_controller_id: WorkflowLoopControllerId,
    pub command_review_hash: String,
    pub command_composer_hash: String,
    pub command_descriptor_hash: String,
    pub loop_controller_hash: String,
    pub status: WorkflowManualResultStatus,
    pub operator: String,
    pub summary: WorkflowManualResultSummary,
    pub artifact_references: Vec<WorkflowManualArtifactReference>,
    pub validation_snapshot: WorkflowManualResultValidationSnapshot,
    // Evidence classification
    pub reported_by_operator: bool,
    // Authority/verification flags — all false
    pub verified_by_openwand: bool,
    pub command_executed_by_openwand: bool,
    pub mutates_workflow_state: bool,
    pub reconciles_outcome: bool,
    pub routes_action: bool,
    pub resolves_approval: bool,
    pub appends_trace: bool,
    pub writes_memory: bool,
    pub invokes_shell: bool,
    pub invokes_git: bool,
    pub creates_execution_grant: bool,
    pub execution_allowed_now: bool,
    pub captured_at: Timestamp,
}

#[derive(Debug, Clone, Copy, PartialEq, Eq, Structural)]
pub enum WorkflowManualResultStatus {
    ReportedSucceeded,
    ReportedFailed,
    ReportedPartial,
    NotPerformed,
    Inconclusive,
}

#[derive(Debug, Clone)]
pub struct WorkflowManualResultSummary {
    pub operator_summary: String,
    pub operator_details: Option<String>,
    pub reported_status: WorkflowManualResultStatus,
    pub caveat: String,
}

#[derive(Debug, Clone)]
pub struct WorkflowManualArtifactReference {
    pub artifact_id: String,
    pub label: String,
    pub kind: WorkflowManualArtifactKind,
    /// Metadata-only reference string. Not read, fetched, or verified by OpenWand.
    pub reference: String,
    /// stored verbatim. OpenWand never recomputes this from file/URL contents.
    pub operator_supplied_hash: Option<String>,
    pub description: Option<String>,
}

#[derive(Debug, Clone, Copy, PartialEq, Eq, Structural)]
pub enum WorkflowManualArtifactKind {
    LogExcerpt,
    Screenshot,
    FilePathReference,
    ExternalUrl,
    PlainTextNote,
    Other,
}

#[derive(Debug, Clone)]
pub struct WorkflowManualResultValidationSnapshot {
    pub command_review_was_acknowledged: bool,
    pub command_review_hash_matched: bool,
    pub command_composer_hash_matched: bool,
    pub command_descriptor_hash_matched: bool,
    pub loop_controller_hash_matched: bool,
    pub command_review_marked_not_performed_by_openwand: bool,
}

/// An artifact reference as plain values.
pub open spec fn artifact_view(a: WorkflowManualArtifactReference) -> (Seq<char>, Seq<char>, WorkflowManualArtifactKind, Seq<char>, Option<Seq<char>>, Option<Seq<char>>) {
    (a.artifact_id@, a.label@, a.kind, a.reference@, opt_view(a.operator_supplied_hash), opt_view(a.description))
}

/// Artifact references as plain values.
pub open spec fn artifact_views(v: Seq<WorkflowManualArtifactReference>) -> Seq<(Seq<char>, Seq<char>, WorkflowManualArtifactKind, Seq<char>, Option<Seq<char>>, Option<Seq<char>>)> {
    v.map_values(|a: WorkflowManualArtifactReference| artifact_view(a))
}

/// A field-by-field copy of artifact references.
pub fn copy_artifacts(v: &Vec<WorkflowManualArtifactReference>) -> (out: Vec<WorkflowManualArtifactReference>)
    ensures
        artifact_views(out@) == artifact_views(v@),
{
    let mut out: Vec<WorkflowManualArtifactReference> = Vec::new();
    let mut i: usize = 0;
    while i < v.len()
        invariant
            i <= v.len(),
            out@.len() == i,
            forall|k: int| 0 <= k < i ==> artifact_view(#[trigger] out@[k]) == artifact_view(v@[k]),
        decreases v.len() - i,
    {
        let a = &v[i];
        out.push(WorkflowManualArtifactReference {
            artifact_id: a.artifact_id.clone(),
            label: a.label.clone(),
            kind: a.kind,
            reference: a.reference.clone(),
            operator_supplied_hash: copy_opt(&a.operator_supplied_hash),
            description: copy_opt(&a.description),
        });
        i += 1;
    }
    assert(artifact_views(out@) =~= artifact_views(v@));
    out
}

} // verus!
