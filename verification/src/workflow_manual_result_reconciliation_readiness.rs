//! Reconciliation readiness of a reviewed manual result: evidence that the result
//! could be reconciled, and a preview of what reconciliation would target.
use vstd::prelude::*;
use crate::gate::{CheckResult, PredicateName};
use crate::outside::Timestamp;
use crate::workflow_command_composer::WorkflowCommandComposerId;
use crate::workflow_command_review::WorkflowCommandReviewId;
use crate::workflow_loop_controller::WorkflowLoopControllerId;
use crate::workflow_manual_result::WorkflowManualResultId;
use crate::workflow_manual_result_review::WorkflowManualResultReviewId;
use crate::workflow_run::WorkflowExecutionId;

verus! {

/// Content-addressed readiness ID. Format: wmrrr_<blake3_hex>
#[derive(Debug, Clone, PartialEq, Eq, Hash)]
pub struct WorkflowManualResultReconciliationReadinessId(pub String);

/// Request to evaluate reconciliation readiness.
#[derive(Debug, Clone)]
pub struct WorkflowManualResultReconciliationReadinessRequest {
    pub workflow_execution_id: WorkflowExecutionId,
    pub manual_result_id: WorkflowManualResultId,
    pub manual_result_review_id: WorkflowManualResultReviewId,
    pub command_review_id: WorkflowCommandReviewId,
    pub command_composer_id: WorkflowCommandComposerId,
    pub loop_controller_id: WorkflowLoopControllerId,
    // full evidence chain hashes
    pub expected_manual_result_review_hash: String,
    pub expected_manual_result_hash: String,
    pub expected_command_review_hash: String,
    pub expected_command_composer_hash: String,
    pub expected_command_descriptor_hash: String,
    pub expected_loop_controller_hash: String,
    pub evaluator: String,
    pub evaluated_at: Timestamp,
    pub idempotency_key: String,
}

/// Sealed readiness evidence record.
#[derive(Debug, Clone)]
pub struct WorkflowManualResultReconciliationReadinessRecord {
    pub readiness_id: WorkflowManualResultReconciliationReadinessId,
    pub workflow_execution_id: WorkflowExecutionId,
    pub manual_result_id: WorkflowManualResultId,
    pub manual_result_review_id: WorkflowManualResultReviewId,
    pub command_review_id: WorkflowCommandReviewId,
    pub command_composer_id: WorkflowCommandComposerId,
    pub loop_controller_id: WorkflowLoopControllerId,
    pub manual_result_review_hash: String,
    pub manual_result_hash: String,
    pub command_review_hash: String,
    pub command_composer_hash: String,
    pub command_descriptor_hash: String,
    pub loop_controller_hash: String,
    pub status: WorkflowManualResultReconciliationReadinessStatus,
    pub decision: WorkflowManualResultReconciliationReadinessDecision,
    pub predicates: Vec<WorkflowManualResultReconciliationReadinessPredicateResult>,
    // reconciliation preview — what reconciliation would do
    pub reconciliation_preview: Option<WorkflowManualResultReconciliationPreview>,
    // hardcoded-false authority flags
    pub verifies_external_state: bool,
    pub reconciles_now: bool,
    pub mutates_workflow_state: bool,
    pub creates_run_revision: bool,
    pub appends_trace: bool,
    pub writes_memory: bool,
    pub routes_action: bool,
    pub resolves_approval: bool,
    pub creates_execution_grant: bool,
    pub execution_allowed_now: bool,
    pub evaluator: String,
    pub evaluated_at: Timestamp,
}

#[derive(Debug, Clone, Copy, PartialEq, Eq, Structural)]
pub enum WorkflowManualResultReconciliationReadinessStatus {
    Ready,
    Blocked,
    Inconclusive,
}

#[derive(Debug, Clone)]
pub enum WorkflowManualResultReconciliationReadinessDecision {
    Ready { summary: String },
    Blocked { reason_code: String, summary: String },
    Inconclusive { reason_code: String, summary: String },
}

/// preview of what reconciliation would target.
#[derive(Debug, Clone, Copy, PartialEq, Eq, Structural)]
pub enum WorkflowManualResultReconciliationPreview {
    CompleteStageFromReportedSuccess,
    BlockStageFromReportedFailure,
    FailStageFromReportedFailure,
    PartialResultRequiresReview,
    NotPerformedBlocksReconciliation,
    InconclusiveBlocksReconciliation,
}

/// Readiness predicates.
#[derive(Debug, Clone, Copy, PartialEq, Eq, Structural)]
pub enum WorkflowManualResultReconciliationReadinessPredicate {
    ManualResultRecordExists,
    ManualResultReviewExists,
    ReviewDecisionIsAccepted,
    ManualResultWasReportedByOperator,
    ManualResultNotVerifiedByOpenwand,
    ReviewAcceptsReportedEvidenceOnly,
    ManualResultReviewHashMatchesRequest,
    ManualResultHashMatchesRequest,
    CommandReviewHashMatchesRequest,
    CommandComposerHashMatchesRequest,
    CommandDescriptorHashMatchesRequest,
    LoopControllerHashMatchesRequest,
    ManualResultReviewIsLatest,
    NoPriorConflictingReconciliationReadiness,
}

impl PredicateName for WorkflowManualResultReconciliationReadinessPredicate {
    open spec fn name_view(self) -> Seq<char> {
        match self {
            WorkflowManualResultReconciliationReadinessPredicate::ManualResultRecordExists => "ManualResultRecordExists"@,
            WorkflowManualResultReconciliationReadinessPredicate::ManualResultReviewExists => "ManualResultReviewExists"@,
            WorkflowManualResultReconciliationReadinessPredicate::ReviewDecisionIsAccepted => "ReviewDecisionIsAccepted"@,
            WorkflowManualResultReconciliationReadinessPredicate::ManualResultWasReportedByOperator => "ManualResultWasReportedByOperator"@,
            WorkflowManualResultReconciliationReadinessPredicate::ManualResultNotVerifiedByOpenwand => "ManualResultNotVerifiedByOpenwand"@,
            WorkflowManualResultReconciliationReadinessPredicate::ReviewAcceptsReportedEvidenceOnly => "ReviewAcceptsReportedEvidenceOnly"@,
            WorkflowManualResultReconciliationReadinessPredicate::ManualResultReviewHashMatchesRequest => "ManualResultReviewHashMatchesRequest"@,
            WorkflowManualResultReconciliationReadinessPredicate::ManualResultHashMatchesRequest => "ManualResultHashMatchesRequest"@,
            WorkflowManualResultReconciliationReadinessPredicate::CommandReviewHashMatchesRequest => "CommandReviewHashMatchesRequest"@,
            WorkflowManualResultReconciliationReadinessPredicate::CommandComposerHashMatchesRequest => "CommandComposerHashMatchesRequest"@,
            WorkflowManualResultReconciliationReadinessPredicate::CommandDescriptorHashMatchesRequest => "CommandDescriptorHashMatchesRequest"@,
            WorkflowManualResultReconciliationReadinessPredicate::LoopControllerHashMatchesRequest => "LoopControllerHashMatchesRequest"@,
            WorkflowManualResultReconciliationReadinessPredicate::ManualResultReviewIsLatest => "ManualResultReviewIsLatest"@,
            WorkflowManualResultReconciliationReadinessPredicate::NoPriorConflictingReconciliationReadiness => "NoPriorConflictingReconciliationReadiness"@,
        }
    }

    fn debug_name(&self) -> (s: &'static str) {
        match self {
            WorkflowManualResultReconciliationReadinessPredicate::ManualResultRecordExists => "ManualResultRecordExists",
            WorkflowManualResultReconciliationReadinessPredicate::ManualResultReviewExists => "ManualResultReviewExists",
            WorkflowManualResultReconciliationReadinessPredicate::ReviewDecisionIsAccepted => "ReviewDecisionIsAccepted",
            WorkflowManualResultReconciliationReadinessPredicate::ManualResultWasReportedByOperator => "ManualResultWasReportedByOperator",
            WorkflowManualResultReconciliationReadinessPredicate::ManualResultNotVerifiedByOpenwand => "ManualResultNotVerifiedByOpenwand",
            WorkflowManualResultReconciliationReadinessPredicate::ReviewAcceptsReportedEvidenceOnly => "ReviewAcceptsReportedEvidenceOnly",
            WorkflowManualResultReconciliationReadinessPredicate::ManualResultReviewHashMatchesRequest => "ManualResultReviewHashMatchesRequest",
            WorkflowManualResultReconciliationReadinessPredicate::ManualResultHashMatchesRequest => "ManualResultHashMatchesRequest",
            WorkflowManualResultReconciliationReadinessPredicate::CommandReviewHashMatchesRequest => "CommandReviewHashMatchesRequest",
            WorkflowManualResultReconciliationReadinessPredicate::CommandComposerHashMatchesRequest => "CommandComposerHashMatchesRequest",
            WorkflowManualResultReconciliationReadinessPredicate::CommandDescriptorHashMatchesRequest => "CommandDescriptorHashMatchesRequest",
            WorkflowManualResultReconciliationReadinessPredicate::LoopControllerHashMatchesRequest => "LoopControllerHashMatchesRequest",
            WorkflowManualResultReconciliationReadinessPredicate::ManualResultReviewIsLatest => "ManualResultReviewIsLatest",
            WorkflowManualResultReconciliationReadinessPredicate::NoPriorConflictingReconciliationReadiness => "NoPriorConflictingReconciliationReadiness",
        }
    }
}

/// Result of evaluating one readiness predicate.
#[derive(Debug, Clone)]
pub struct WorkflowManualResultReconciliationReadinessPredicateResult {
    pub predicate: WorkflowManualResultReconciliationReadinessPredicate,
    pub passed: bool,
    pub reason: String,
}

impl CheckResult for WorkflowManualResultReconciliationReadinessPredicateResult {
    type P = WorkflowManualResultReconciliationReadinessPredicate;

    open spec fn check_view(&self) -> (WorkflowManualResultReconciliationReadinessPredicate, bool, Seq<char>) {
        (self.predicate, self.passed, self.reason@)
    }

    fn passed_flag(&self) -> (b: bool) {
        self.passed
    }

    fn predicate_value(&self) -> (p: WorkflowManualResultReconciliationReadinessPredicate) {
        self.predicate
    }

    fn reason_text(&self) -> (s: &str) {
        self.reason.as_str()
    }

    fn make_check(p: Self::P, passed: bool, reason: String) -> (r: Self) {
        Self { predicate: p, passed, reason }
    }
}

} // verus!
