//! Run revisions: the stage state of a workflow run after a reconciliation.
use vstd::prelude::*;
use crate::ids::{text_digest_id16, text_id16};
use crate::outside::Timestamp;
use crate::workflow_run::{
    WorkflowExecutionId, WorkflowRunStatus, WorkflowStageLifecycleEvent, WorkflowStageRun,
    WorkflowStageRunStatus,
};

verus! {

/// Content-addressed run revision id.
#[derive(Debug, Clone, PartialEq, Eq, Hash)]
pub struct WorkflowRunRevisionId(pub String);

/// Content-addressed reconciliation id.
#[derive(Debug, Clone, PartialEq, Eq, Hash)]
pub struct WorkflowReconciliationId(pub String);

/// A revision of a workflow run's stages, written by a reconciliation.
#[derive(Debug, Clone)]
pub struct WorkflowRunRevision {
    pub revision_id: WorkflowRunRevisionId,
    pub workflow_execution_id: WorkflowExecutionId,
    pub previous_revision_id: Option<WorkflowRunRevisionId>,
    pub source_reconciliation_id: WorkflowReconciliationId,
    pub run_hash_before: String,
    pub run_hash_after: String,
    pub stages: Vec<WorkflowStageRun>,
    pub lifecycle_events: Vec<WorkflowStageLifecycleEvent>,
    pub aggregate_status: Option<WorkflowRunStatus>,
    pub created_at: Timestamp,
}

/// Status of a reconciliation.
#[derive(Debug, Clone, Copy, PartialEq, Eq, Structural)]
pub enum WorkflowReconciliationStatus {
    Reconciled,
    Blocked,
}

impl WorkflowReconciliationStatus {
    /// The `Debug` name of the value.
    pub open spec fn debug_view(self) -> Seq<char> {
        match self {
            WorkflowReconciliationStatus::Reconciled => "Reconciled"@,
            WorkflowReconciliationStatus::Blocked => "Blocked"@,
        }
    }

    pub fn debug_name(&self) -> (s: &'static str)
        ensures
            s@ == self.debug_view(),
    {
        match self {
            WorkflowReconciliationStatus::Reconciled => "Reconciled",
            WorkflowReconciliationStatus::Blocked => "Blocked",
        }
    }
}

/// A reconciliation of a workflow run with an observed outcome.
#[derive(Debug, Clone)]
pub struct WorkflowReconciliationRecord {
    pub reconciliation_id: WorkflowReconciliationId,
    pub workflow_execution_id: WorkflowExecutionId,
    pub status: WorkflowReconciliationStatus,
    pub created_at: Timestamp,
}

/// A stage in this status will not change again: it completed, failed or was blocked.
pub open spec fn is_terminal(s: WorkflowStageRunStatus) -> bool {
    s == WorkflowStageRunStatus::Completed || s == WorkflowStageRunStatus::Failed || s
        == WorkflowStageRunStatus::Blocked
}

/// Whether a stage status is terminal.
pub fn is_terminal_stage_status(s: &WorkflowStageRunStatus) -> (b: bool)
    ensures
        b == is_terminal(*s),
{
    match s {
        WorkflowStageRunStatus::Completed | WorkflowStageRunStatus::Failed | WorkflowStageRunStatus::Blocked => true,
        _ => false,
    }
}

/// The text hashed into a run revision id.
pub open spec fn run_revision_preimage(execution_id: Seq<char>, source_id: Seq<char>, run_hash_after: Seq<char>) -> Seq<char> {
    "run_revision:v1:"@ + execution_id + ":"@ + source_id + ":"@ + run_hash_after
}

/// Content-addressed run revision id (`wrr_` and 16 hex digits) from the run, the
/// record that produced the revision, and the run hash after it.
pub fn run_revision_id_for(workflow_execution_id: &str, source_id: &str, run_hash_after: &str) -> (id: WorkflowRunRevisionId)
    ensures
        id.0@.len() == 20,
        id.0@ == text_id16("wrr_"@, run_revision_preimage(workflow_execution_id@, source_id@, run_hash_after@)),
{
    proof {
        reveal_strlit("wrr_");
    }
    let mut pre = String::from_str("run_revision:v1:");
    pre.append(workflow_execution_id);
    pre.append(":");
    pre.append(source_id);
    pre.append(":");
    pre.append(run_hash_after);
    WorkflowRunRevisionId(text_digest_id16("wrr_", pre.as_str()))
}

} // verus!
