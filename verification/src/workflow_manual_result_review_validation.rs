//! Manual result review checks: the result exists with the expected hash, was
//! reported by the operator, and was neither verified nor executed here; the
//! review carries an author, a rationale and the feedback its decision needs.
use vstd::prelude::*;
use crate::gate::{all_checks_pass, all_pass, check_views, push_check, CheckResult, PredicateName};
use crate::ids::{text_digest_id16, text_id, text_id16};
use crate::workflow_command_composer::{WorkflowCommandComposerId, WorkflowCommandComposerRecord};
use crate::workflow_command_review::{WorkflowCommandReview, WorkflowCommandReviewId};
use crate::workflow_loop_controller::{WorkflowLoopControllerId, WorkflowLoopControllerRecord};
use crate::workflow_manual_result::{WorkflowManualResult, WorkflowManualResultId};
use crate::workflow_manual_result_review::{
    copy_result_feedback, result_feedback_view, WorkflowManualResultReview, WorkflowManualResultReviewAcceptanceSnapshot,
    WorkflowManualResultReviewDecision, WorkflowManualResultReviewId, WorkflowManualResultReviewRequest,
};
use crate::workflow_manual_result_validation::{digest_matches, digest_or_empty};
use crate::workflow_run::WorkflowExecutionId;

verus! {

/// Checks of the WorkflowManualResultReviewValidationRule.
#[derive(Debug, Clone, Copy, PartialEq, Eq, Structural)]
pub enum WorkflowManualResultReviewValidationRule {
    ManualResultExists,
    ManualResultHashMatches,
    ManualResultWasReportedByOperator,
    ManualResultNotVerifiedByOpenwand,
    ManualResultNotExecutedByOpenwand,
    ReviewerNonEmpty,
    RationaleNonEmpty,
    RejectionRequiresBlockingReasons,
    ChangesRequestedRequiresRequestedChanges,
    AcceptedDoesNotVerifyExternalState,
    AcceptedDoesNotReconcileWorkflowState,
}

impl PredicateName for WorkflowManualResultReviewValidationRule {
    open spec fn name_view(self) -> Seq<char> {
        match self {
            WorkflowManualResultReviewValidationRule::ManualResultExists => "ManualResultExists"@,
            WorkflowManualResultReviewValidationRule::ManualResultHashMatches => "ManualResultHashMatches"@,
            WorkflowManualResultReviewValidationRule::ManualResultWasReportedByOperator => "ManualResultWasReportedByOperator"@,
            WorkflowManualResultReviewValidationRule::ManualResultNotVerifiedByOpenwand => "ManualResultNotVerifiedByOpenwand"@,
            WorkflowManualResultReviewValidationRule::ManualResultNotExecutedByOpenwand => "ManualResultNotExecutedByOpenwand"@,
            WorkflowManualResultReviewValidationRule::ReviewerNonEmpty => "ReviewerNonEmpty"@,
            WorkflowManualResultReviewValidationRule::RationaleNonEmpty => "RationaleNonEmpty"@,
            WorkflowManualResultReviewValidationRule::RejectionRequiresBlockingReasons => "RejectionRequiresBlockingReasons"@,
            WorkflowManualResultReviewValidationRule::ChangesRequestedRequiresRequestedChanges => "ChangesRequestedRequiresRequestedChanges"@,
            WorkflowManualResultReviewValidationRule::AcceptedDoesNotVerifyExternalState => "AcceptedDoesNotVerifyExternalState"@,
            WorkflowManualResultReviewValidationRule::AcceptedDoesNotReconcileWorkflowState => "AcceptedDoesNotReconcileWorkflowState"@,
        }
    }

    fn debug_name(&self) -> (s: &'static str) {
        match self {
            WorkflowManualResultReviewValidationRule::ManualResultExists => "ManualResultExists",
            WorkflowManualResultReviewValidationRule::ManualResultHashMatches => "ManualResultHashMatches",
            WorkflowManualResultReviewValidationRule::ManualResultWasReportedByOperator => "ManualResultWasReportedByOperator",
            WorkflowManualResultReviewValidationRule::ManualResultNotVerifiedByOpenwand => "ManualResultNotVerifiedByOpenwand",
            WorkflowManualResultReviewValidationRule::ManualResultNotExecutedByOpenwand => "ManualResultNotExecutedByOpenwand",
            WorkflowManualResultReviewValidationRule::ReviewerNonEmpty => "ReviewerNonEmpty",
            WorkflowManualResultReviewValidationRule::RationaleNonEmpty => "RationaleNonEmpty",
            WorkflowManualResultReviewValidationRule::RejectionRequiresBlockingReasons => "RejectionRequiresBlockingReasons",
            WorkflowManualResultReviewValidationRule::ChangesRequestedRequiresRequestedChanges => "ChangesRequestedRequiresRequestedChanges",
            WorkflowManualResultReviewValidationRule::AcceptedDoesNotVerifyExternalState => "AcceptedDoesNotVerifyExternalState",
            WorkflowManualResultReviewValidationRule::AcceptedDoesNotReconcileWorkflowState => "AcceptedDoesNotReconcileWorkflowState",
        }
    }
}

/// Result of evaluating one check.
#[derive(Debug, Clone)]
pub struct WorkflowManualResultReviewValidationResult {
    pub rule: WorkflowManualResultReviewValidationRule,
    pub passed: bool,
    pub reason: String,
}

impl CheckResult for WorkflowManualResultReviewValidationResult {
    type P = WorkflowManualResultReviewValidationRule;

    open spec fn check_view(&self) -> (WorkflowManualResultReviewValidationRule, bool, Seq<char>) {
        (self.rule, self.passed, self.reason@)
    }

    fn passed_flag(&self) -> (b: bool) {
        self.passed
    }

    fn predicate_value(&self) -> (p: WorkflowManualResultReviewValidationRule) {
        self.rule
    }

    fn reason_text(&self) -> (s: &str) {
        self.reason.as_str()
    }

    fn make_check(p: Self::P, passed: bool, reason: String) -> (r: Self) {
        Self { rule: p, passed, reason }
    }
}

/// The eleven review checks, in order, with their outcomes and reasons.
pub open spec fn result_review_checks(
    request: WorkflowManualResultReviewRequest,
    manual_result: Option<&WorkflowManualResult>,
    result_json: Seq<char>,
) -> Seq<(WorkflowManualResultReviewValidationRule, bool, Seq<char>)> {
    let hash_ok = digest_matches(manual_result is Some, result_json, request.expected_manual_result_hash@);
    let reported = match manual_result {
        Some(m) => m.reported_by_operator,
        None => true,
    };
    let not_verified = match manual_result {
        Some(m) => !m.verified_by_openwand,
        None => true,
    };
    let not_executed = match manual_result {
        Some(m) => !m.command_executed_by_openwand,
        None => true,
    };
    let reject_ok = request.decision != WorkflowManualResultReviewDecision::Rejected || (request.feedback matches Some(f)
        && f.blocking_reasons@.len() > 0);
    let changes_ok = request.decision != WorkflowManualResultReviewDecision::ChangesRequested || (
    request.feedback matches Some(f) && f.requested_changes@.len() > 0);
    seq![
        (WorkflowManualResultReviewValidationRule::ManualResultExists, manual_result is Some, if manual_result is Some { "Found"@ } else { "Missing"@ }),
        (WorkflowManualResultReviewValidationRule::ManualResultHashMatches, hash_ok || manual_result is None, if hash_ok { "Match"@ } else { "Mismatch"@ }),
        (WorkflowManualResultReviewValidationRule::ManualResultWasReportedByOperator, reported, if reported { "Reported"@ } else { "Not reported"@ }),
        (WorkflowManualResultReviewValidationRule::ManualResultNotVerifiedByOpenwand, not_verified, if not_verified { "Not verified"@ } else { "Claims verified"@ }),
        (WorkflowManualResultReviewValidationRule::ManualResultNotExecutedByOpenwand, not_executed, if not_executed { "Not executed"@ } else { "Claims executed"@ }),
        (WorkflowManualResultReviewValidationRule::ReviewerNonEmpty, request.reviewer@.len() > 0, if request.reviewer@.len() == 0 { "Empty"@ } else { "Provided"@ }),
        (WorkflowManualResultReviewValidationRule::RationaleNonEmpty, request.rationale@.len() > 0, if request.rationale@.len() == 0 { "Empty"@ } else { "Provided"@ }),
        (WorkflowManualResultReviewValidationRule::RejectionRequiresBlockingReasons, reject_ok, if reject_ok { "Ok"@ } else { "Missing blocking reasons"@ }),
        (WorkflowManualResultReviewValidationRule::ChangesRequestedRequiresRequestedChanges, changes_ok, if changes_ok { "Ok"@ } else { "Missing requested changes"@ }),
        (WorkflowManualResultReviewValidationRule::AcceptedDoesNotVerifyExternalState, true, "No external verification"@),
        (WorkflowManualResultReviewValidationRule::AcceptedDoesNotReconcileWorkflowState, true, "No reconciliation"@),
    ]
}

/// The review id a request names.
pub open spec fn result_review_id_of(request: WorkflowManualResultReviewRequest) -> Seq<char> {
    text_id16(
        "wmrr_"@,
        "manual_result_review:v1:"@ + request.workflow_execution_id.0@ + ":"@ + request.manual_result_id.0@ + ":"@
            + request.idempotency_key@,
    )
}

/// A hash a present result carries, or the empty text.
pub open spec fn carried(m: Option<&WorkflowManualResult>, h: spec_fn(WorkflowManualResult) -> Seq<char>) -> Seq<char> {
    match m {
        Some(x) => h(*x),
        None => Seq::empty(),
    }
}

/// The sealed review built from a request that passed every check.
pub open spec fn result_review_ok(
    r: WorkflowManualResultReview,
    request: WorkflowManualResultReviewRequest,
    manual_result: Option<&WorkflowManualResult>,
    result_json: Seq<char>,
) -> bool {
    &&& r.review_id.0@ == result_review_id_of(request)
    &&& r.workflow_execution_id.0@ == request.workflow_execution_id.0@
    &&& r.manual_result_id.0@ == request.manual_result_id.0@
    &&& r.command_review_id.0@ == request.command_review_id.0@
    &&& r.command_composer_id.0@ == request.command_composer_id.0@
    &&& r.loop_controller_id.0@ == request.loop_controller_id.0@
    &&& r.manual_result_hash@ == digest_or_empty(manual_result is Some, result_json)
    &&& r.command_review_hash@ == carried(manual_result, |m: WorkflowManualResult| m.command_review_hash@)
    &&& r.command_composer_hash@ == carried(manual_result, |m: WorkflowManualResult| m.command_composer_hash@)
    &&& r.command_descriptor_hash@ == carried(manual_result, |m: WorkflowManualResult| m.command_descriptor_hash@)
    &&& r.loop_controller_hash@ == carried(manual_result, |m: WorkflowManualResult| m.loop_controller_hash@)
    &&& r.decision == request.decision
    &&& r.reviewer@ == request.reviewer@
    &&& r.rationale@ == request.rationale@
    &&& (match (r.feedback, request.feedback) {
        (Some(a), Some(b)) => result_feedback_view(a) == result_feedback_view(b),
        (None, None) => true,
        _ => false,
    })
    &&& r.acceptance_snapshot.accepts_reported_evidence == (request.decision == WorkflowManualResultReviewDecision::Accepted)
    &&& !r.acceptance_snapshot.verifies_external_state
    &&& !r.acceptance_snapshot.reconciles_workflow_state
    &&& r.acceptance_snapshot.result_verified_by_openwand == (manual_result matches Some(m) && m.verified_by_openwand)
    &&& !r.verifies_external_state && !r.reconciles_workflow_state && !r.mutates_workflow_state
    &&& !r.executes_command && !r.invokes_shell && !r.invokes_git && !r.routes_action && !r.resolves_approval
    &&& !r.appends_trace && !r.writes_memory && !r.creates_execution_grant && !r.execution_allowed_now
    &&& r.reviewed_at == request.reviewed_at
}

pub(crate) fn copy_or_empty(m: Option<&WorkflowManualResult>, which: u8) -> (s: String)
    requires
        which < 4,
    ensures
        s@ == match m {
            Some(x) => if which == 0 {
                x.command_review_hash@
            } else if which == 1 {
                x.command_composer_hash@
            } else if which == 2 {
                x.command_descriptor_hash@
            } else {
                x.loop_controller_hash@
            },
            None => Seq::empty(),
        },
{
    match m {
        Some(x) => if which == 0 {
            x.command_review_hash.clone()
        } else if which == 1 {
            x.command_composer_hash.clone()
        } else if which == 2 {
            x.command_descriptor_hash.clone()
        } else {
            x.loop_controller_hash.clone()
        },
        None => String::new(),
    }
}

/// Checks a review of an operator-reported manual result. On success it returns
/// the sealed review, which accepts reported evidence only; otherwise every
/// check's result. `manual_result_json` is the JSON text of the manual result,
/// whose digest must equal the expected hash. Prior reviews are checked elsewhere.
pub fn validate_manual_result_review(
    request: &WorkflowManualResultReviewRequest,
    manual_result: Option<&WorkflowManualResult>,
    review_record: Option<&WorkflowCommandReview>,
    composer_record: Option<&WorkflowCommandComposerRecord>,
    loop_controller_record: Option<&WorkflowLoopControllerRecord>,
    manual_result_json: &str,
) -> (r: Result<WorkflowManualResultReview, Vec<WorkflowManualResultReviewValidationResult>>)
    ensures
        ({
            let checks = result_review_checks(*request, manual_result, manual_result_json@);
            &&& (r is Ok <==> all_pass(checks))
            &&& (r matches Err(e) ==> check_views(e@) == checks)
            &&& (r matches Ok(rv) ==> result_review_ok(rv, *request, manual_result, manual_result_json@))
            &&& (r matches Ok(rv) ==> rv.review_id.0@.len() == 21)
        }),
{
    proof {
        reveal_strlit("wmrr_");
    }
    let present = manual_result.is_some();
    let hash_ok = if present {
        let h = crate::ids::text_digest_id("", manual_result_json);
        proof {
            reveal_strlit("");
            assert(""@ =~= Seq::<char>::empty());
        }
        h == request.expected_manual_result_hash
    } else {
        false
    };
    let reported = match manual_result {
        Some(m) => m.reported_by_operator,
        None => true,
    };
    let not_verified = match manual_result {
        Some(m) => !m.verified_by_openwand,
        None => true,
    };
    let not_executed = match manual_result {
        Some(m) => !m.command_executed_by_openwand,
        None => true,
    };
    let reject_ok = request.decision != WorkflowManualResultReviewDecision::Rejected || match &request.feedback {
        Some(f) => f.blocking_reasons.len() > 0,
        None => false,
    };
    let changes_ok = request.decision != WorkflowManualResultReviewDecision::ChangesRequested || match &request.feedback {
        Some(f) => f.requested_changes.len() > 0,
        None => false,
    };
    let author_empty = request.reviewer.as_str().is_empty();
    let rationale_empty = request.rationale.as_str().is_empty();
    let mut p: Vec<WorkflowManualResultReviewValidationResult> = Vec::new();
    push_check(&mut p, WorkflowManualResultReviewValidationResult::make_check(WorkflowManualResultReviewValidationRule::ManualResultExists, present, String::from_str(if present { "Found" } else { "Missing" })));
    push_check(&mut p, WorkflowManualResultReviewValidationResult::make_check(WorkflowManualResultReviewValidationRule::ManualResultHashMatches, hash_ok || !present, String::from_str(if hash_ok { "Match" } else { "Mismatch" })));
    push_check(&mut p, WorkflowManualResultReviewValidationResult::make_check(WorkflowManualResultReviewValidationRule::ManualResultWasReportedByOperator, reported, String::from_str(if reported { "Reported" } else { "Not reported" })));
    push_check(&mut p, WorkflowManualResultReviewValidationResult::make_check(WorkflowManualResultReviewValidationRule::ManualResultNotVerifiedByOpenwand, not_verified, String::from_str(if not_verified { "Not verified" } else { "Claims verified" })));
    push_check(&mut p, WorkflowManualResultReviewValidationResult::make_check(WorkflowManualResultReviewValidationRule::ManualResultNotExecutedByOpenwand, not_executed, String::from_str(if not_executed { "Not executed" } else { "Claims executed" })));
    push_check(&mut p, WorkflowManualResultReviewValidationResult::make_check(WorkflowManualResultReviewValidationRule::ReviewerNonEmpty, !author_empty, String::from_str(if author_empty { "Empty" } else { "Provided" })));
    push_check(&mut p, WorkflowManualResultReviewValidationResult::make_check(WorkflowManualResultReviewValidationRule::RationaleNonEmpty, !rationale_empty, String::from_str(if rationale_empty { "Empty" } else { "Provided" })));
    push_check(&mut p, WorkflowManualResultReviewValidationResult::make_check(WorkflowManualResultReviewValidationRule::RejectionRequiresBlockingReasons, reject_ok, String::from_str(if reject_ok { "Ok" } else { "Missing blocking reasons" })));
    push_check(&mut p, WorkflowManualResultReviewValidationResult::make_check(WorkflowManualResultReviewValidationRule::ChangesRequestedRequiresRequestedChanges, changes_ok, String::from_str(if changes_ok { "Ok" } else { "Missing requested changes" })));
    push_check(&mut p, WorkflowManualResultReviewValidationResult::make_check(WorkflowManualResultReviewValidationRule::AcceptedDoesNotVerifyExternalState, true, String::from_str("No external verification")));
    push_check(&mut p, WorkflowManualResultReviewValidationResult::make_check(WorkflowManualResultReviewValidationRule::AcceptedDoesNotReconcileWorkflowState, true, String::from_str("No reconciliation")));
    assert(check_views(p@) =~= result_review_checks(*request, manual_result, manual_result_json@));
    if !all_checks_pass(&p) {
        return Err(p);
    }
    let mr_hash = if present {
        let h = crate::ids::text_digest_id("", manual_result_json);
        proof {
            reveal_strlit("");
            assert(""@ =~= Seq::<char>::empty());
        }
        h
    } else {
        String::new()
    };
    let mut pre = String::from_str("manual_result_review:v1:");
    pre.append(request.workflow_execution_id.0.as_str());
    pre.append(":");
    pre.append(request.manual_result_id.0.as_str());
    pre.append(":");
    pre.append(request.idempotency_key.as_str());
    let review_id = WorkflowManualResultReviewId(text_digest_id16("wmrr_", pre.as_str()));
    let result_verified = match manual_result {
        Some(m) => m.verified_by_openwand,
        None => false,
    };
    Ok(WorkflowManualResultReview {
        review_id,
        workflow_execution_id: WorkflowExecutionId(request.workflow_execution_id.0.clone()),
        manual_result_id: WorkflowManualResultId(request.manual_result_id.0.clone()),
        command_review_id: WorkflowCommandReviewId(request.command_review_id.0.clone()),
        command_composer_id: WorkflowCommandComposerId(request.command_composer_id.0.clone()),
        loop_controller_id: WorkflowLoopControllerId(request.loop_controller_id.0.clone()),
        manual_result_hash: mr_hash,
        command_review_hash: copy_or_empty(manual_result, 0),
        command_composer_hash: copy_or_empty(manual_result, 1),
        command_descriptor_hash: copy_or_empty(manual_result, 2),
        loop_controller_hash: copy_or_empty(manual_result, 3),
        decision: request.decision,
        reviewer: request.reviewer.clone(),
        rationale: request.rationale.clone(),
        feedback: copy_result_feedback(&request.feedback),
        acceptance_snapshot: WorkflowManualResultReviewAcceptanceSnapshot {
            accepts_reported_evidence: request.decision == WorkflowManualResultReviewDecision::Accepted,
            verifies_external_state: false,
            reconciles_workflow_state: false,
            result_verified_by_openwand: result_verified,
        },
        verifies_external_state: false,
        reconciles_workflow_state: false,
        mutates_workflow_state: false,
        executes_command: false,
        invokes_shell: false,
        invokes_git: false,
        routes_action: false,
        resolves_approval: false,
        appends_trace: false,
        writes_memory: false,
        creates_execution_grant: false,
        execution_allowed_now: false,
        reviewed_at: request.reviewed_at,
    })
}

} // verus!
