//! Manual-result reconciliation gate: turns an accepted, ready manual result into
//! a new run revision whose one stage progresses as the readiness preview says.
use vstd::prelude::*;
use crate::gate::{CheckResult, PredicateName};
use crate::outside::now_utc;
use crate::workflow_run::{copy_stage, stage_view};
use crate::outside::Timestamp;
use crate::workflow_proposal::WorkflowStageKind;
use crate::workflow_command_composer::WorkflowCommandComposerId;
use crate::workflow_command_review::WorkflowCommandReviewId;
use crate::workflow_loop_controller::WorkflowLoopControllerId;
use crate::workflow_manual_result::WorkflowManualResultId;
use crate::workflow_manual_result_reconciliation_readiness::{WorkflowManualResultReconciliationPreview, WorkflowManualResultReconciliationReadinessId};
use crate::workflow_manual_result_review::WorkflowManualResultReviewId;
use crate::workflow_reconciliation::WorkflowRunRevisionId;
use crate::workflow_run::{WorkflowExecutionId, WorkflowStageLifecycleEvent, WorkflowStageLifecycleKind, WorkflowStageRun, WorkflowStageRunStatus};

verus! {

/// Content-addressed gate ID. Format: wmrrg_<blake3_hex>
#[derive(Debug, Clone, PartialEq, Eq, Hash)]
pub struct WorkflowManualResultReconciliationGateId(pub String);

/// full hash-bound request.
#[derive(Debug, Clone)]
pub struct WorkflowManualResultReconciliationGateRequest {
    pub workflow_execution_id: WorkflowExecutionId,
    pub manual_result_id: WorkflowManualResultId,
    pub manual_result_review_id: WorkflowManualResultReviewId,
    pub reconciliation_readiness_id: WorkflowManualResultReconciliationReadinessId,
    pub stage_id: String,
    pub expected_workflow_run_hash: String,
    pub expected_reconciliation_readiness_hash: String,
    pub expected_manual_result_review_hash: String,
    pub expected_manual_result_hash: String,
    pub expected_command_review_hash: String,
    pub expected_command_composer_hash: String,
    pub expected_command_descriptor_hash: String,
    pub expected_loop_controller_hash: String,
    pub requested_by: String,
    pub requested_at: Timestamp,
    pub idempotency_key: String,
}

/// Sealed gate record.
#[derive(Debug, Clone)]
pub struct WorkflowManualResultReconciliationGateRecord {
    pub gate_id: WorkflowManualResultReconciliationGateId,
    pub workflow_execution_id: WorkflowExecutionId,
    pub manual_result_id: WorkflowManualResultId,
    pub manual_result_review_id: WorkflowManualResultReviewId,
    pub reconciliation_readiness_id: WorkflowManualResultReconciliationReadinessId,
    pub command_review_id: WorkflowCommandReviewId,
    pub command_composer_id: WorkflowCommandComposerId,
    pub loop_controller_id: WorkflowLoopControllerId,
    pub stage_id: String,
    pub workflow_run_hash: String,
    pub reconciliation_readiness_hash: String,
    pub manual_result_review_hash: String,
    pub manual_result_hash: String,
    pub command_review_hash: String,
    pub command_composer_hash: String,
    pub command_descriptor_hash: String,
    pub loop_controller_hash: String,
    pub status: WorkflowManualResultReconciliationGateStatus,
    pub decision: WorkflowManualResultReconciliationGateDecision,
    pub predicates: Vec<WorkflowManualResultReconciliationGatePredicateResult>,
    pub progression: Option<ManualResultStageProgression>,
    pub new_run_revision_id: Option<WorkflowRunRevisionId>,
    pub creates_run_revision: bool,
    pub mutates_original_workflow_run: bool,
    pub verifies_external_truth: bool,
    pub executes_command: bool,
    pub routes_continuation: bool,
    pub appends_trace: bool,
    pub writes_memory: bool,
    pub creates_execution_grant: bool,
    pub execution_allowed_now: bool,
    pub reconciled_by: String,
    pub reconciled_at: Timestamp,
}

/// gate status.
#[derive(Debug, Clone, Copy, PartialEq, Eq, Structural)]
pub enum WorkflowManualResultReconciliationGateStatus {
    Reconciled,
    Blocked,
    Failed,
    AlreadyReconciled,
}

/// gate decision.
#[derive(Debug, Clone)]
pub enum WorkflowManualResultReconciliationGateDecision {
    Reconciled { revision_id: Option<String>, summary: String },
    Blocked { reason_code: String, summary: String },
    Failed { reason_code: String, summary: String },
    AlreadyReconciled { revision_id: Option<String>, summary: String },
}

/// preview-driven stage progression.
#[derive(Debug, Clone)]
pub struct ManualResultStageProgression {
    pub stage_id: String,
    pub previous_status: WorkflowStageRunStatus,
    pub new_status: WorkflowStageRunStatus,
    pub preview_target: WorkflowManualResultReconciliationPreview,
    pub lifecycle_event: WorkflowStageLifecycleEvent,
    pub summary: String,
}

/// 25 gate predicates.
#[derive(Debug, Clone, Copy, PartialEq, Eq, Structural)]
pub enum WorkflowManualResultReconciliationGatePredicate {
    WorkflowRunExists,
    ManualResultExists,
    ManualResultReviewExists,
    ReconciliationReadinessRecordExists,
    StageExists,
    WorkflowRunHashMatchesRequest,
    ManualResultHashMatchesRequest,
    ManualResultReviewHashMatchesRequest,
    ReconciliationReadinessHashMatchesRequest,
    CommandReviewHashMatchesReadiness,
    CommandComposerHashMatchesReadiness,
    CommandDescriptorHashMatchesReadiness,
    LoopControllerHashMatchesReadiness,
    ReconciliationReadinessStatusIsReady,
    ReviewDecisionIsAccepted,
    ManualResultWasReportedByOperator,
    ReconciliationPreviewExists,
    ReconciliationPreviewTargetIsActionable,
    ManualResultStatusMatchesReadinessPreview,
    ManualResultEligibleForWorkflowStageReconciliation,
    ManualResultReviewIsLatest,
    ReconciliationReadinessIsLatest,
    StageStatusEligibleForManualReconciliation,
    NoPriorConflictingManualReconciliation,
    IdempotencyKeyUnusedOrMatchesExisting,
}

impl PredicateName for WorkflowManualResultReconciliationGatePredicate {
    open spec fn name_view(self) -> Seq<char> {
        match self {
            WorkflowManualResultReconciliationGatePredicate::WorkflowRunExists => "WorkflowRunExists"@,
            WorkflowManualResultReconciliationGatePredicate::ManualResultExists => "ManualResultExists"@,
            WorkflowManualResultReconciliationGatePredicate::ManualResultReviewExists => "ManualResultReviewExists"@,
            WorkflowManualResultReconciliationGatePredicate::ReconciliationReadinessRecordExists => "ReconciliationReadinessRecordExists"@,
            WorkflowManualResultReconciliationGatePredicate::StageExists => "StageExists"@,
            WorkflowManualResultReconciliationGatePredicate::WorkflowRunHashMatchesRequest => "WorkflowRunHashMatchesRequest"@,
            WorkflowManualResultReconciliationGatePredicate::ManualResultHashMatchesRequest => "ManualResultHashMatchesRequest"@,
            WorkflowManualResultReconciliationGatePredicate::ManualResultReviewHashMatchesRequest => "ManualResultReviewHashMatchesRequest"@,
            WorkflowManualResultReconciliationGatePredicate::ReconciliationReadinessHashMatchesRequest => "ReconciliationReadinessHashMatchesRequest"@,
            WorkflowManualResultReconciliationGatePredicate::CommandReviewHashMatchesReadiness => "CommandReviewHashMatchesReadiness"@,
            WorkflowManualResultReconciliationGatePredicate::CommandComposerHashMatchesReadiness => "CommandComposerHashMatchesReadiness"@,
            WorkflowManualResultReconciliationGatePredicate::CommandDescriptorHashMatchesReadiness => "CommandDescriptorHashMatchesReadiness"@,
            WorkflowManualResultReconciliationGatePredicate::LoopControllerHashMatchesReadiness => "LoopControllerHashMatchesReadiness"@,
            WorkflowManualResultReconciliationGatePredicate::ReconciliationReadinessStatusIsReady => "ReconciliationReadinessStatusIsReady"@,
            WorkflowManualResultReconciliationGatePredicate::ReviewDecisionIsAccepted => "ReviewDecisionIsAccepted"@,
            WorkflowManualResultReconciliationGatePredicate::ManualResultWasReportedByOperator => "ManualResultWasReportedByOperator"@,
            WorkflowManualResultReconciliationGatePredicate::ReconciliationPreviewExists => "ReconciliationPreviewExists"@,
            WorkflowManualResultReconciliationGatePredicate::ReconciliationPreviewTargetIsActionable => "ReconciliationPreviewTargetIsActionable"@,
            WorkflowManualResultReconciliationGatePredicate::ManualResultStatusMatchesReadinessPreview => "ManualResultStatusMatchesReadinessPreview"@,
            WorkflowManualResultReconciliationGatePredicate::ManualResultEligibleForWorkflowStageReconciliation => "ManualResultEligibleForWorkflowStageReconciliation"@,
            WorkflowManualResultReconciliationGatePredicate::ManualResultReviewIsLatest => "ManualResultReviewIsLatest"@,
            WorkflowManualResultReconciliationGatePredicate::ReconciliationReadinessIsLatest => "ReconciliationReadinessIsLatest"@,
            WorkflowManualResultReconciliationGatePredicate::StageStatusEligibleForManualReconciliation => "StageStatusEligibleForManualReconciliation"@,
            WorkflowManualResultReconciliationGatePredicate::NoPriorConflictingManualReconciliation => "NoPriorConflictingManualReconciliation"@,
            WorkflowManualResultReconciliationGatePredicate::IdempotencyKeyUnusedOrMatchesExisting => "IdempotencyKeyUnusedOrMatchesExisting"@,
        }
    }

    fn debug_name(&self) -> (s: &'static str) {
        match self {
            WorkflowManualResultReconciliationGatePredicate::WorkflowRunExists => "WorkflowRunExists",
            WorkflowManualResultReconciliationGatePredicate::ManualResultExists => "ManualResultExists",
            WorkflowManualResultReconciliationGatePredicate::ManualResultReviewExists => "ManualResultReviewExists",
            WorkflowManualResultReconciliationGatePredicate::ReconciliationReadinessRecordExists => "ReconciliationReadinessRecordExists",
            WorkflowManualResultReconciliationGatePredicate::StageExists => "StageExists",
            WorkflowManualResultReconciliationGatePredicate::WorkflowRunHashMatchesRequest => "WorkflowRunHashMatchesRequest",
            WorkflowManualResultReconciliationGatePredicate::ManualResultHashMatchesRequest => "ManualResultHashMatchesRequest",
            WorkflowManualResultReconciliationGatePredicate::ManualResultReviewHashMatchesRequest => "ManualResultReviewHashMatchesRequest",
            WorkflowManualResultReconciliationGatePredicate::ReconciliationReadinessHashMatchesRequest => "ReconciliationReadinessHashMatchesRequest",
            WorkflowManualResultReconciliationGatePredicate::CommandReviewHashMatchesReadiness => "CommandReviewHashMatchesReadiness",
            WorkflowManualResultReconciliationGatePredicate::CommandComposerHashMatchesReadiness => "CommandComposerHashMatchesReadiness",
            WorkflowManualResultReconciliationGatePredicate::CommandDescriptorHashMatchesReadiness => "CommandDescriptorHashMatchesReadiness",
            WorkflowManualResultReconciliationGatePredicate::LoopControllerHashMatchesReadiness => "LoopControllerHashMatchesReadiness",
            WorkflowManualResultReconciliationGatePredicate::ReconciliationReadinessStatusIsReady => "ReconciliationReadinessStatusIsReady",
            WorkflowManualResultReconciliationGatePredicate::ReviewDecisionIsAccepted => "ReviewDecisionIsAccepted",
            WorkflowManualResultReconciliationGatePredicate::ManualResultWasReportedByOperator => "ManualResultWasReportedByOperator",
            WorkflowManualResultReconciliationGatePredicate::ReconciliationPreviewExists => "ReconciliationPreviewExists",
            WorkflowManualResultReconciliationGatePredicate::ReconciliationPreviewTargetIsActionable => "ReconciliationPreviewTargetIsActionable",
            WorkflowManualResultReconciliationGatePredicate::ManualResultStatusMatchesReadinessPreview => "ManualResultStatusMatchesReadinessPreview",
            WorkflowManualResultReconciliationGatePredicate::ManualResultEligibleForWorkflowStageReconciliation => "ManualResultEligibleForWorkflowStageReconciliation",
            WorkflowManualResultReconciliationGatePredicate::ManualResultReviewIsLatest => "ManualResultReviewIsLatest",
            WorkflowManualResultReconciliationGatePredicate::ReconciliationReadinessIsLatest => "ReconciliationReadinessIsLatest",
            WorkflowManualResultReconciliationGatePredicate::StageStatusEligibleForManualReconciliation => "StageStatusEligibleForManualReconciliation",
            WorkflowManualResultReconciliationGatePredicate::NoPriorConflictingManualReconciliation => "NoPriorConflictingManualReconciliation",
            WorkflowManualResultReconciliationGatePredicate::IdempotencyKeyUnusedOrMatchesExisting => "IdempotencyKeyUnusedOrMatchesExisting",
        }
    }
}

/// Result of evaluating one check.
#[derive(Debug, Clone)]
pub struct WorkflowManualResultReconciliationGatePredicateResult {
    pub predicate: WorkflowManualResultReconciliationGatePredicate,
    pub passed: bool,
    pub reason: String,
}

impl CheckResult for WorkflowManualResultReconciliationGatePredicateResult {
    type P = WorkflowManualResultReconciliationGatePredicate;

    open spec fn check_view(&self) -> (WorkflowManualResultReconciliationGatePredicate, bool, Seq<char>) {
        (self.predicate, self.passed, self.reason@)
    }

    fn passed_flag(&self) -> (b: bool) {
        self.passed
    }

    fn predicate_value(&self) -> (p: WorkflowManualResultReconciliationGatePredicate) {
        self.predicate
    }

    fn reason_text(&self) -> (s: &str) {
        self.reason.as_str()
    }

    fn make_check(p: Self::P, passed: bool, reason: String) -> (r: Self) {
        Self { predicate: p, passed, reason }
    }
}

/// Previews that move a stage: complete it, fail it or block it.
pub open spec fn actionable(p: WorkflowManualResultReconciliationPreview) -> bool {
    p == WorkflowManualResultReconciliationPreview::CompleteStageFromReportedSuccess || p
        == WorkflowManualResultReconciliationPreview::FailStageFromReportedFailure || p
        == WorkflowManualResultReconciliationPreview::BlockStageFromReportedFailure
}

/// Whether the preview target moves a stage.
pub fn is_actionable_preview(preview: &WorkflowManualResultReconciliationPreview) -> (b: bool)
    ensures
        b == actionable(*preview),
{
    match preview {
        WorkflowManualResultReconciliationPreview::CompleteStageFromReportedSuccess
        | WorkflowManualResultReconciliationPreview::FailStageFromReportedFailure
        | WorkflowManualResultReconciliationPreview::BlockStageFromReportedFailure => true,
        _ => false,
    }
}

/// The new status, event-id suffix, event kind and summary an actionable preview gives.
pub open spec fn progression_target(p: WorkflowManualResultReconciliationPreview) -> (WorkflowStageRunStatus, Seq<char>, WorkflowStageLifecycleKind, Seq<char>) {
    match p {
        WorkflowManualResultReconciliationPreview::CompleteStageFromReportedSuccess => (
            WorkflowStageRunStatus::Completed,
            "_manual_completed"@,
            WorkflowStageLifecycleKind::StageCompleted,
            "Stage completed from accepted operator-reported success evidence."@,
        ),
        WorkflowManualResultReconciliationPreview::FailStageFromReportedFailure => (
            WorkflowStageRunStatus::Failed,
            "_manual_failed"@,
            WorkflowStageLifecycleKind::StageFailed,
            "Stage failed from accepted operator-reported failure evidence."@,
        ),
        _ => (
            WorkflowStageRunStatus::Blocked,
            "_manual_blocked"@,
            WorkflowStageLifecycleKind::StageBlocked,
            "Stage blocked from accepted operator-reported failure evidence."@,
        ),
    }
}

/// The progression a suspended stage gets from an actionable preview.
pub open spec fn progression_ok(
    r: Option<ManualResultStageProgression>,
    stage_id: Seq<char>,
    current: WorkflowStageRunStatus,
    preview: WorkflowManualResultReconciliationPreview,
) -> bool {
    if current != WorkflowStageRunStatus::Suspended || !actionable(preview) {
        r is None
    } else {
        let (status, suffix, kind, summary) = progression_target(preview);
        &&& r matches Some(p)
        &&& p.stage_id@ == stage_id
        &&& p.previous_status == current
        &&& p.new_status == status
        &&& p.preview_target == preview
        &&& p.lifecycle_event.event_id@ == "evt_"@ + stage_id + suffix
        &&& p.lifecycle_event.stage_id@ == stage_id
        &&& p.lifecycle_event.event_kind == kind
        &&& p.lifecycle_event.summary@ == summary
        &&& p.summary@ == summary
    }
}

/// The stage progression a readiness preview gives: only a suspended stage moves,
/// and only for an actionable preview. The event time is the time of the call.
pub fn compute_manual_result_stage_progression(
    stage_id: &str,
    current_status: &WorkflowStageRunStatus,
    preview: &WorkflowManualResultReconciliationPreview,
) -> (r: Option<ManualResultStageProgression>)
    ensures
        progression_ok(r, stage_id@, *current_status, *preview),
{
    if *current_status != WorkflowStageRunStatus::Suspended {
        return None;
    }
    let (status, suffix, kind, summary) = match preview {
        WorkflowManualResultReconciliationPreview::CompleteStageFromReportedSuccess => (
            WorkflowStageRunStatus::Completed,
            "_manual_completed",
            WorkflowStageLifecycleKind::StageCompleted,
            "Stage completed from accepted operator-reported success evidence.",
        ),
        WorkflowManualResultReconciliationPreview::FailStageFromReportedFailure => (
            WorkflowStageRunStatus::Failed,
            "_manual_failed",
            WorkflowStageLifecycleKind::StageFailed,
            "Stage failed from accepted operator-reported failure evidence.",
        ),
        WorkflowManualResultReconciliationPreview::BlockStageFromReportedFailure => (
            WorkflowStageRunStatus::Blocked,
            "_manual_blocked",
            WorkflowStageLifecycleKind::StageBlocked,
            "Stage blocked from accepted operator-reported failure evidence.",
        ),
        _ => {
            return None;
        },
    };
    let mut event_id = String::from_str("evt_");
    event_id.append(stage_id);
    event_id.append(suffix);
    Some(ManualResultStageProgression {
        stage_id: String::from_str(stage_id),
        previous_status: *current_status,
        new_status: status,
        preview_target: *preview,
        lifecycle_event: WorkflowStageLifecycleEvent {
            event_id,
            stage_id: String::from_str(stage_id),
            event_kind: kind,
            summary: String::from_str(summary),
            occurred_at: now_utc(),
        },
        summary: String::from_str(summary),
    })
}

/// A stage after a progression: the progressed stage takes the new status and the
/// event time as its completion time; every other stage is unchanged.
pub open spec fn progressed_stage(s: WorkflowStageRun, p: ManualResultStageProgression) -> (Seq<char>, Seq<char>, WorkflowStageKind, WorkflowStageRunStatus, u32, Seq<Seq<char>>, Option<Timestamp>, Option<Timestamp>, Seq<char>) {
    if s.stage_id@ == p.stage_id@ {
        let v = stage_view(s);
        (v.0, v.1, v.2, p.new_status, v.4, v.5, v.6, Some(p.lifecycle_event.occurred_at), v.8)
    } else {
        stage_view(s)
    }
}

/// Applies a progression to a copy of the stages; the given stages are untouched.
pub fn apply_manual_progression_to_stages(
    stages: &Vec<WorkflowStageRun>,
    progression: &ManualResultStageProgression,
) -> (out: Vec<WorkflowStageRun>)
    ensures
        out@.len() == stages@.len(),
        forall|i: int| 0 <= i < stages@.len() ==> stage_view(#[trigger] out@[i]) == progressed_stage(stages@[i], *progression),
{
    let mut out: Vec<WorkflowStageRun> = Vec::new();
    let mut i: usize = 0;
    while i < stages.len()
        invariant
            i <= stages.len(),
            out@.len() == i,
            forall|k: int| 0 <= k < i ==> stage_view(#[trigger] out@[k]) == progressed_stage(stages@[k], *progression),
        decreases stages.len() - i,
    {
        let mut s = copy_stage(&stages[i]);
        if s.stage_id == progression.stage_id {
            s.status = progression.new_status;
            s.completed_at = Some(progression.lifecycle_event.occurred_at);
        }
        out.push(s);
        i += 1;
    }
    out
}

/// Manual reconciliation only moves a suspended stage, and only forward to a
/// terminal status: a progression exists exactly when the stage is suspended and
/// the preview targets a stage progression; applying it gives the stages named by
/// it the new status and leaves every other stage exactly as it was.
pub proof fn lemma_manual_progression_moves_only_suspended_stage(
    stages: Seq<WorkflowStageRun>,
    k: int,
    preview: WorkflowManualResultReconciliationPreview,
    r: Option<ManualResultStageProgression>,
)
    requires
        0 <= k < stages.len(),
        progression_ok(r, stages[k].stage_id@, stages[k].status, preview),
    ensures
        r is Some <==> (stages[k].status == WorkflowStageRunStatus::Suspended && actionable(preview)),
        r matches Some(p) ==> {
            &&& p.previous_status == WorkflowStageRunStatus::Suspended
            &&& (p.new_status == WorkflowStageRunStatus::Completed || p.new_status == WorkflowStageRunStatus::Failed
                || p.new_status == WorkflowStageRunStatus::Blocked)
            &&& forall|i: int|
                0 <= i < stages.len() ==> (#[trigger] progressed_stage(stages[i], p)).3 == if stages[i].stage_id@
                    == stages[k].stage_id@ {
                    p.new_status
                } else {
                    stages[i].status
                }
            &&& forall|i: int|
                0 <= i < stages.len() && stages[i].stage_id@ != stages[k].stage_id@ ==> #[trigger] progressed_stage(
                    stages[i],
                    p,
                ) == stage_view(stages[i])
        },
{
}

} // verus!
