//! Reconciliation readiness evaluation for an accepted manual result review.
//!
//! Deterministic: no model, tool, provider, shell or git is involved, and
//! nothing is reconciled.
use vstd::prelude::*;
use crate::gate::{all_checks_pass, all_pass, check_views, failed_check_reasons, failed_reasons, push_check, CheckResult};
use crate::ids::{text_digest_id, text_digest_id16, text_id, text_id16};
use crate::text::{join, join_strings};
use crate::workflow_command_composer::WorkflowCommandComposerId;
use crate::workflow_command_review::WorkflowCommandReviewId;
use crate::workflow_loop_controller::WorkflowLoopControllerId;
use crate::workflow_manual_result::{WorkflowManualResult, WorkflowManualResultId, WorkflowManualResultStatus};
use crate::workflow_manual_result_reconciliation_readiness::{
    WorkflowManualResultReconciliationPreview, WorkflowManualResultReconciliationReadinessDecision,
    WorkflowManualResultReconciliationReadinessId, WorkflowManualResultReconciliationReadinessPredicate,
    WorkflowManualResultReconciliationReadinessPredicateResult, WorkflowManualResultReconciliationReadinessRecord,
    WorkflowManualResultReconciliationReadinessRequest, WorkflowManualResultReconciliationReadinessStatus,
};
use crate::workflow_manual_result_reconciliation_readiness_validation::readiness_preimage;
use crate::workflow_manual_result_review::{WorkflowManualResultReview, WorkflowManualResultReviewDecision, WorkflowManualResultReviewId};
use crate::workflow_manual_result_validation::{digest_check, digest_matches, digest_or_empty, digest_text};
use crate::workflow_manual_result_review_validation::copy_or_empty;
use crate::workflow_run::WorkflowExecutionId;

verus! {

/// Evidence for a readiness evaluation, with the JSON texts of the manual result
/// and of its review as the caller serialised them.
#[derive(Debug, Clone)]
pub struct WorkflowManualResultReconciliationReadinessContext<'a> {
    pub manual_result: Option<&'a WorkflowManualResult>,
    pub manual_result_review: Option<&'a WorkflowManualResultReview>,
    /// The latest review of the same manual result.
    pub latest_manual_result_review: Option<&'a WorkflowManualResultReview>,
    pub existing_readiness_records: Vec<WorkflowManualResultReconciliationReadinessRecord>,
    pub manual_result_json: &'a str,
    pub manual_result_review_json: &'a str,
}

/// A hash a present manual result carries equals the expected one.
pub open spec fn carried_matches(m: Option<&WorkflowManualResult>, h: spec_fn(WorkflowManualResult) -> Seq<char>, expected: Seq<char>) -> bool {
    match m {
        Some(x) => h(*x) == expected,
        None => false,
    }
}

/// A prior readiness record for the same review is ready.
pub open spec fn conflicting_readiness(
    records: Seq<WorkflowManualResultReconciliationReadinessRecord>,
    request: WorkflowManualResultReconciliationReadinessRequest,
) -> bool {
    exists|i: int|
        0 <= i < records.len() && (#[trigger] records[i]).manual_result_review_id.0@
            == request.manual_result_review_id.0@ && records[i].status
            == WorkflowManualResultReconciliationReadinessStatus::Ready && records[i].readiness_id.0@ != "wmrrr_"@
}

/// The fourteen readiness predicates, in order, with their outcomes and reasons.
pub open spec fn readiness_checks(
    request: WorkflowManualResultReconciliationReadinessRequest,
    context: WorkflowManualResultReconciliationReadinessContext,
) -> Seq<(WorkflowManualResultReconciliationReadinessPredicate, bool, Seq<char>)> {
    let mr = context.manual_result;
    let review = context.manual_result_review;
    let accepted = review matches Some(r) && r.decision == WorkflowManualResultReviewDecision::Accepted;
    let reported = mr matches Some(m) && m.reported_by_operator;
    let not_verified = mr matches Some(m) && !m.verified_by_openwand;
    let evidence_only = review matches Some(r) && r.acceptance_snapshot.accepts_reported_evidence
        && !r.acceptance_snapshot.verifies_external_state;
    let review_ok = digest_matches(review is Some, context.manual_result_review_json@, request.expected_manual_result_review_hash@);
    let mr_ok = digest_matches(mr is Some, context.manual_result_json@, request.expected_manual_result_hash@);
    let cr_ok = carried_matches(mr, |m: WorkflowManualResult| m.command_review_hash@, request.expected_command_review_hash@);
    let cc_ok = carried_matches(mr, |m: WorkflowManualResult| m.command_composer_hash@, request.expected_command_composer_hash@);
    let cd_ok = carried_matches(mr, |m: WorkflowManualResult| m.command_descriptor_hash@, request.expected_command_descriptor_hash@);
    let lc_ok = carried_matches(mr, |m: WorkflowManualResult| m.loop_controller_hash@, request.expected_loop_controller_hash@);
    let latest = match (review, context.latest_manual_result_review) {
        (Some(r), Some(l)) => r.review_id.0@ == l.review_id.0@,
        _ => review is Some,
    };
    let no_conflict = !conflicting_readiness(context.existing_readiness_records@, request);
    seq![
        (WorkflowManualResultReconciliationReadinessPredicate::ManualResultRecordExists, mr is Some, if mr is Some { "Found"@ } else { "Missing"@ }),
        (WorkflowManualResultReconciliationReadinessPredicate::ManualResultReviewExists, review is Some, if review is Some { "Found"@ } else { "Missing"@ }),
        (WorkflowManualResultReconciliationReadinessPredicate::ReviewDecisionIsAccepted, accepted, if accepted { "Accepted"@ } else { "Not accepted"@ }),
        (WorkflowManualResultReconciliationReadinessPredicate::ManualResultWasReportedByOperator, reported, if reported { "Reported"@ } else { "Not reported"@ }),
        (WorkflowManualResultReconciliationReadinessPredicate::ManualResultNotVerifiedByOpenwand, not_verified, if not_verified { "Not verified"@ } else { "Claims verified"@ }),
        (WorkflowManualResultReconciliationReadinessPredicate::ReviewAcceptsReportedEvidenceOnly, evidence_only, if evidence_only { "Reported evidence only"@ } else { "Claims more than reported evidence"@ }),
        (WorkflowManualResultReconciliationReadinessPredicate::ManualResultReviewHashMatchesRequest, review_ok || review is None, if review_ok { "Match"@ } else { "Mismatch"@ }),
        (WorkflowManualResultReconciliationReadinessPredicate::ManualResultHashMatchesRequest, mr_ok || mr is None, if mr_ok { "Match"@ } else { "Mismatch"@ }),
        (WorkflowManualResultReconciliationReadinessPredicate::CommandReviewHashMatchesRequest, cr_ok || mr is None, if cr_ok { "Match"@ } else { "Mismatch"@ }),
        (WorkflowManualResultReconciliationReadinessPredicate::CommandComposerHashMatchesRequest, cc_ok || mr is None, if cc_ok { "Match"@ } else { "Mismatch"@ }),
        (WorkflowManualResultReconciliationReadinessPredicate::CommandDescriptorHashMatchesRequest, cd_ok || mr is None, if cd_ok { "Match"@ } else { "Mismatch"@ }),
        (WorkflowManualResultReconciliationReadinessPredicate::LoopControllerHashMatchesRequest, lc_ok || mr is None, if lc_ok { "Match"@ } else { "Mismatch"@ }),
        (WorkflowManualResultReconciliationReadinessPredicate::ManualResultReviewIsLatest, latest, if latest { "Latest"@ } else { "Superseded"@ }),
        (WorkflowManualResultReconciliationReadinessPredicate::NoPriorConflictingReconciliationReadiness, no_conflict, if no_conflict { "No conflict"@ } else { "Conflicting readiness exists"@ }),
    ]
}

/// The reconciliation target a reported status previews.
pub open spec fn preview_for(s: WorkflowManualResultStatus) -> WorkflowManualResultReconciliationPreview {
    match s {
        WorkflowManualResultStatus::ReportedSucceeded => WorkflowManualResultReconciliationPreview::CompleteStageFromReportedSuccess,
        WorkflowManualResultStatus::ReportedFailed => WorkflowManualResultReconciliationPreview::FailStageFromReportedFailure,
        WorkflowManualResultStatus::ReportedPartial => WorkflowManualResultReconciliationPreview::PartialResultRequiresReview,
        WorkflowManualResultStatus::NotPerformed => WorkflowManualResultReconciliationPreview::NotPerformedBlocksReconciliation,
        WorkflowManualResultStatus::Inconclusive => WorkflowManualResultReconciliationPreview::InconclusiveBlocksReconciliation,
    }
}

/// Status and decision of a readiness record: failures block with their reasons;
/// otherwise the preview decides.
pub open spec fn readiness_outcome_ok(
    status: WorkflowManualResultReconciliationReadinessStatus,
    decision: WorkflowManualResultReconciliationReadinessDecision,
    checks: Seq<(WorkflowManualResultReconciliationReadinessPredicate, bool, Seq<char>)>,
    preview: Option<WorkflowManualResultReconciliationPreview>,
) -> bool {
    if !all_pass(checks) {
        &&& status == WorkflowManualResultReconciliationReadinessStatus::Blocked
        &&& decision matches WorkflowManualResultReconciliationReadinessDecision::Blocked { reason_code, summary }
        &&& reason_code@ == "predicate_failed"@
        &&& summary@ == "Failed: "@ + join(failed_reasons(checks), ", "@)
    } else {
        match preview {
            Some(WorkflowManualResultReconciliationPreview::CompleteStageFromReportedSuccess) => {
                &&& status == WorkflowManualResultReconciliationReadinessStatus::Ready
                &&& decision matches WorkflowManualResultReconciliationReadinessDecision::Ready { summary }
                &&& summary@ == "All predicates pass. Reported success with accepted review."@
            },
            Some(WorkflowManualResultReconciliationPreview::FailStageFromReportedFailure) => {
                &&& status == WorkflowManualResultReconciliationReadinessStatus::Ready
                &&& decision matches WorkflowManualResultReconciliationReadinessDecision::Ready { summary }
                &&& summary@ == "All predicates pass. Reported failure with accepted review."@
            },
            Some(WorkflowManualResultReconciliationPreview::BlockStageFromReportedFailure) => {
                &&& status == WorkflowManualResultReconciliationReadinessStatus::Ready
                &&& decision matches WorkflowManualResultReconciliationReadinessDecision::Ready { summary }
                &&& summary@ == "All predicates pass. Reported failure with accepted review — block stage."@
            },
            Some(WorkflowManualResultReconciliationPreview::PartialResultRequiresReview) => {
                &&& status == WorkflowManualResultReconciliationReadinessStatus::Inconclusive
                &&& decision matches WorkflowManualResultReconciliationReadinessDecision::Inconclusive { reason_code, summary }
                &&& reason_code@ == "partial_result"@
                &&& summary@ == "Partial result requires further review before reconciliation."@
            },
            Some(WorkflowManualResultReconciliationPreview::NotPerformedBlocksReconciliation) => {
                &&& status == WorkflowManualResultReconciliationReadinessStatus::Blocked
                &&& decision matches WorkflowManualResultReconciliationReadinessDecision::Blocked { reason_code, summary }
                &&& reason_code@ == "not_performed"@
                &&& summary@ == "Result not performed blocks reconciliation."@
            },
            Some(WorkflowManualResultReconciliationPreview::InconclusiveBlocksReconciliation) => {
                &&& status == WorkflowManualResultReconciliationReadinessStatus::Inconclusive
                &&& decision matches WorkflowManualResultReconciliationReadinessDecision::Inconclusive { reason_code, summary }
                &&& reason_code@ == "inconclusive_result"@
                &&& summary@ == "Inconclusive result blocks reconciliation."@
            },
            None => {
                &&& status == WorkflowManualResultReconciliationReadinessStatus::Blocked
                &&& decision matches WorkflowManualResultReconciliationReadinessDecision::Blocked { reason_code, summary }
                &&& reason_code@ == "no_result"@
                &&& summary@ == "No manual result record."@
            },
        }
    }
}

/// The readiness record of a request and its evidence.
pub open spec fn readiness_record_ok(
    rec: WorkflowManualResultReconciliationReadinessRecord,
    request: WorkflowManualResultReconciliationReadinessRequest,
    context: WorkflowManualResultReconciliationReadinessContext,
) -> bool {
    let mr = context.manual_result;
    let checks = readiness_checks(request, context);
    let preview = match mr {
        Some(m) => Some(preview_for(m.status)),
        None => None,
    };
    &&& rec.readiness_id.0@ == text_id16(
        "wmrrr_"@,
        readiness_preimage(
            request.workflow_execution_id.0@,
            request.manual_result_id.0@,
            request.manual_result_review_id.0@,
            request.idempotency_key@,
        ),
    )
    &&& rec.workflow_execution_id.0@ == request.workflow_execution_id.0@
    &&& rec.manual_result_id.0@ == request.manual_result_id.0@
    &&& rec.manual_result_review_id.0@ == request.manual_result_review_id.0@
    &&& rec.command_review_id.0@ == request.command_review_id.0@
    &&& rec.command_composer_id.0@ == request.command_composer_id.0@
    &&& rec.loop_controller_id.0@ == request.loop_controller_id.0@
    &&& rec.manual_result_review_hash@ == digest_or_empty(context.manual_result_review is Some, context.manual_result_review_json@)
    &&& rec.manual_result_hash@ == digest_or_empty(mr is Some, context.manual_result_json@)
    &&& rec.command_review_hash@ == crate::workflow_manual_result_review_validation::carried(mr, |m: WorkflowManualResult| m.command_review_hash@)
    &&& rec.command_composer_hash@ == crate::workflow_manual_result_review_validation::carried(mr, |m: WorkflowManualResult| m.command_composer_hash@)
    &&& rec.command_descriptor_hash@ == crate::workflow_manual_result_review_validation::carried(mr, |m: WorkflowManualResult| m.command_descriptor_hash@)
    &&& rec.loop_controller_hash@ == crate::workflow_manual_result_review_validation::carried(mr, |m: WorkflowManualResult| m.loop_controller_hash@)
    &&& check_views(rec.predicates@) == checks
    &&& rec.reconciliation_preview == preview
    &&& readiness_outcome_ok(rec.status, rec.decision, checks, preview)
    &&& !rec.verifies_external_state && !rec.reconciles_now && !rec.mutates_workflow_state && !rec.creates_run_revision
    &&& !rec.appends_trace && !rec.writes_memory && !rec.routes_action && !rec.resolves_approval
    &&& !rec.creates_execution_grant && !rec.execution_allowed_now
    &&& rec.evaluator@ == request.evaluator@
    &&& rec.evaluated_at == request.evaluated_at
}

fn carried_check(m: Option<&WorkflowManualResult>, which: u8, expected: &String) -> (b: bool)
    requires
        which < 4,
    ensures
        b == match m {
            Some(x) => (if which == 0 {
                x.command_review_hash@
            } else if which == 1 {
                x.command_composer_hash@
            } else if which == 2 {
                x.command_descriptor_hash@
            } else {
                x.loop_controller_hash@
            }) == expected@,
            None => false,
        },
{
    match m {
        Some(_) => {
            let h = copy_or_empty(m, which);
            h == *expected
        },
        None => false,
    }
}

fn readiness_conflict_exec(
    records: &Vec<WorkflowManualResultReconciliationReadinessRecord>,
    request: &WorkflowManualResultReconciliationReadinessRequest,
) -> (b: bool)
    ensures
        b == conflicting_readiness(records@, *request),
{
    let mut i: usize = 0;
    while i < records.len()
        invariant
            i <= records.len(),
            forall|k: int|
                0 <= k < i ==> !((#[trigger] records@[k]).manual_result_review_id.0@
                    == request.manual_result_review_id.0@ && records@[k].status
                    == WorkflowManualResultReconciliationReadinessStatus::Ready && records@[k].readiness_id.0@ != "wmrrr_"@),
        decreases records.len() - i,
    {
        let r = &records[i];
        if r.manual_result_review_id.0 == request.manual_result_review_id.0
            && r.status == WorkflowManualResultReconciliationReadinessStatus::Ready
            && !crate::text::str_eq(r.readiness_id.0.as_str(), "wmrrr_") {
            return true;
        }
        i += 1;
    }
    false
}

#[verifier::rlimit(60)]
fn readiness_predicates(
    request: &WorkflowManualResultReconciliationReadinessRequest,
    context: &WorkflowManualResultReconciliationReadinessContext,
) -> (p: Vec<WorkflowManualResultReconciliationReadinessPredicateResult>)
    ensures
        check_views(p@) == readiness_checks(*request, *context),
{
    let mr = context.manual_result;
    let review = context.manual_result_review;
    let accepted = match review {
        Some(r) => r.decision == WorkflowManualResultReviewDecision::Accepted,
        None => false,
    };
    let reported = match mr {
        Some(m) => m.reported_by_operator,
        None => false,
    };
    let not_verified = match mr {
        Some(m) => !m.verified_by_openwand,
        None => false,
    };
    let evidence_only = match review {
        Some(r) => r.acceptance_snapshot.accepts_reported_evidence && !r.acceptance_snapshot.verifies_external_state,
        None => false,
    };
    let review_ok = digest_check(review.is_some(), context.manual_result_review_json, &request.expected_manual_result_review_hash);
    let mr_ok = digest_check(mr.is_some(), context.manual_result_json, &request.expected_manual_result_hash);
    let cr_ok = carried_check(mr, 0, &request.expected_command_review_hash);
    let cc_ok = carried_check(mr, 1, &request.expected_command_composer_hash);
    let cd_ok = carried_check(mr, 2, &request.expected_command_descriptor_hash);
    let lc_ok = carried_check(mr, 3, &request.expected_loop_controller_hash);
    let latest = match (review, context.latest_manual_result_review) {
        (Some(r), Some(l)) => r.review_id.0 == l.review_id.0,
        _ => review.is_some(),
    };
    let no_conflict = !readiness_conflict_exec(&context.existing_readiness_records, request);
    let mut p: Vec<WorkflowManualResultReconciliationReadinessPredicateResult> = Vec::new();
    push_check(&mut p, WorkflowManualResultReconciliationReadinessPredicateResult::make_check(WorkflowManualResultReconciliationReadinessPredicate::ManualResultRecordExists, mr.is_some(), String::from_str(if mr.is_some() { "Found" } else { "Missing" })));
    push_check(&mut p, WorkflowManualResultReconciliationReadinessPredicateResult::make_check(WorkflowManualResultReconciliationReadinessPredicate::ManualResultReviewExists, review.is_some(), String::from_str(if review.is_some() { "Found" } else { "Missing" })));
    push_check(&mut p, WorkflowManualResultReconciliationReadinessPredicateResult::make_check(WorkflowManualResultReconciliationReadinessPredicate::ReviewDecisionIsAccepted, accepted, String::from_str(if accepted { "Accepted" } else { "Not accepted" })));
    push_check(&mut p, WorkflowManualResultReconciliationReadinessPredicateResult::make_check(WorkflowManualResultReconciliationReadinessPredicate::ManualResultWasReportedByOperator, reported, String::from_str(if reported { "Reported" } else { "Not reported" })));
    push_check(&mut p, WorkflowManualResultReconciliationReadinessPredicateResult::make_check(WorkflowManualResultReconciliationReadinessPredicate::ManualResultNotVerifiedByOpenwand, not_verified, String::from_str(if not_verified { "Not verified" } else { "Claims verified" })));
    push_check(&mut p, WorkflowManualResultReconciliationReadinessPredicateResult::make_check(WorkflowManualResultReconciliationReadinessPredicate::ReviewAcceptsReportedEvidenceOnly, evidence_only, String::from_str(if evidence_only { "Reported evidence only" } else { "Claims more than reported evidence" })));
    push_check(&mut p, WorkflowManualResultReconciliationReadinessPredicateResult::make_check(WorkflowManualResultReconciliationReadinessPredicate::ManualResultReviewHashMatchesRequest, review_ok || review.is_none(), String::from_str(if review_ok { "Match" } else { "Mismatch" })));
    push_check(&mut p, WorkflowManualResultReconciliationReadinessPredicateResult::make_check(WorkflowManualResultReconciliationReadinessPredicate::ManualResultHashMatchesRequest, mr_ok || mr.is_none(), String::from_str(if mr_ok { "Match" } else { "Mismatch" })));
    push_check(&mut p, WorkflowManualResultReconciliationReadinessPredicateResult::make_check(WorkflowManualResultReconciliationReadinessPredicate::CommandReviewHashMatchesRequest, cr_ok || mr.is_none(), String::from_str(if cr_ok { "Match" } else { "Mismatch" })));
    push_check(&mut p, WorkflowManualResultReconciliationReadinessPredicateResult::make_check(WorkflowManualResultReconciliationReadinessPredicate::CommandComposerHashMatchesRequest, cc_ok || mr.is_none(), String::from_str(if cc_ok { "Match" } else { "Mismatch" })));
    push_check(&mut p, WorkflowManualResultReconciliationReadinessPredicateResult::make_check(WorkflowManualResultReconciliationReadinessPredicate::CommandDescriptorHashMatchesRequest, cd_ok || mr.is_none(), String::from_str(if cd_ok { "Match" } else { "Mismatch" })));
    push_check(&mut p, WorkflowManualResultReconciliationReadinessPredicateResult::make_check(WorkflowManualResultReconciliationReadinessPredicate::LoopControllerHashMatchesRequest, lc_ok || mr.is_none(), String::from_str(if lc_ok { "Match" } else { "Mismatch" })));
    push_check(&mut p, WorkflowManualResultReconciliationReadinessPredicateResult::make_check(WorkflowManualResultReconciliationReadinessPredicate::ManualResultReviewIsLatest, latest, String::from_str(if latest { "Latest" } else { "Superseded" })));
    push_check(&mut p, WorkflowManualResultReconciliationReadinessPredicateResult::make_check(WorkflowManualResultReconciliationReadinessPredicate::NoPriorConflictingReconciliationReadiness, no_conflict, String::from_str(if no_conflict { "No conflict" } else { "Conflicting readiness exists" })));
    assert(check_views(p@) =~= readiness_checks(*request, *context));
    p
}

fn preview_exec(s: WorkflowManualResultStatus) -> (p: WorkflowManualResultReconciliationPreview)
    ensures
        p == preview_for(s),
{
    match s {
        WorkflowManualResultStatus::ReportedSucceeded => WorkflowManualResultReconciliationPreview::CompleteStageFromReportedSuccess,
        WorkflowManualResultStatus::ReportedFailed => WorkflowManualResultReconciliationPreview::FailStageFromReportedFailure,
        WorkflowManualResultStatus::ReportedPartial => WorkflowManualResultReconciliationPreview::PartialResultRequiresReview,
        WorkflowManualResultStatus::NotPerformed => WorkflowManualResultReconciliationPreview::NotPerformedBlocksReconciliation,
        WorkflowManualResultStatus::Inconclusive => WorkflowManualResultReconciliationPreview::InconclusiveBlocksReconciliation,
    }
}

fn readiness_decision(
    predicates: &Vec<WorkflowManualResultReconciliationReadinessPredicateResult>,
    preview: Option<WorkflowManualResultReconciliationPreview>,
) -> (r: (WorkflowManualResultReconciliationReadinessStatus, WorkflowManualResultReconciliationReadinessDecision))
    ensures
        readiness_outcome_ok(r.0, r.1, check_views(predicates@), preview),
{
    if !all_checks_pass(predicates) {
        let reasons = failed_check_reasons(predicates);
        let mut summary = String::from_str("Failed: ");
        let joined = join_strings(&reasons, ", ");
        summary.append(joined.as_str());
        return (
            WorkflowManualResultReconciliationReadinessStatus::Blocked,
            WorkflowManualResultReconciliationReadinessDecision::Blocked { reason_code: String::from_str("predicate_failed"), summary },
        );
    }
    match preview {
        Some(WorkflowManualResultReconciliationPreview::CompleteStageFromReportedSuccess) => (
            WorkflowManualResultReconciliationReadinessStatus::Ready,
            WorkflowManualResultReconciliationReadinessDecision::Ready {
                summary: String::from_str("All predicates pass. Reported success with accepted review."),
            },
        ),
        Some(WorkflowManualResultReconciliationPreview::FailStageFromReportedFailure) => (
            WorkflowManualResultReconciliationReadinessStatus::Ready,
            WorkflowManualResultReconciliationReadinessDecision::Ready {
                summary: String::from_str("All predicates pass. Reported failure with accepted review."),
            },
        ),
        Some(WorkflowManualResultReconciliationPreview::BlockStageFromReportedFailure) => (
            WorkflowManualResultReconciliationReadinessStatus::Ready,
            WorkflowManualResultReconciliationReadinessDecision::Ready {
                summary: String::from_str("All predicates pass. Reported failure with accepted review — block stage."),
            },
        ),
        Some(WorkflowManualResultReconciliationPreview::PartialResultRequiresReview) => (
            WorkflowManualResultReconciliationReadinessStatus::Inconclusive,
            WorkflowManualResultReconciliationReadinessDecision::Inconclusive {
                reason_code: String::from_str("partial_result"),
                summary: String::from_str("Partial result requires further review before reconciliation."),
            },
        ),
        Some(WorkflowManualResultReconciliationPreview::NotPerformedBlocksReconciliation) => (
            WorkflowManualResultReconciliationReadinessStatus::Blocked,
            WorkflowManualResultReconciliationReadinessDecision::Blocked {
                reason_code: String::from_str("not_performed"),
                summary: String::from_str("Result not performed blocks reconciliation."),
            },
        ),
        Some(WorkflowManualResultReconciliationPreview::InconclusiveBlocksReconciliation) => (
            WorkflowManualResultReconciliationReadinessStatus::Inconclusive,
            WorkflowManualResultReconciliationReadinessDecision::Inconclusive {
                reason_code: String::from_str("inconclusive_result"),
                summary: String::from_str("Inconclusive result blocks reconciliation."),
            },
        ),
        None => (
            WorkflowManualResultReconciliationReadinessStatus::Blocked,
            WorkflowManualResultReconciliationReadinessDecision::Blocked {
                reason_code: String::from_str("no_result"),
                summary: String::from_str("No manual result record."),
            },
        ),
    }
}

/// Evaluates the fourteen readiness predicates of an accepted manual result
/// review and previews what reconciliation would target. Nothing is reconciled.
pub fn evaluate_manual_result_reconciliation_readiness(
    request: &WorkflowManualResultReconciliationReadinessRequest,
    context: &WorkflowManualResultReconciliationReadinessContext,
) -> (rec: WorkflowManualResultReconciliationReadinessRecord)
    ensures
        rec.readiness_id.0@.len() == 22,
        readiness_record_ok(rec, *request, *context),
{
    proof {
        reveal_strlit("wmrrr_");
    }
    let predicates = readiness_predicates(request, context);
    let mr = context.manual_result;
    let review = context.manual_result_review;
    let review_hash = if review.is_some() { digest_text(context.manual_result_review_json) } else { String::new() };
    let mr_hash = if mr.is_some() { digest_text(context.manual_result_json) } else { String::new() };
    let readiness_id = WorkflowManualResultReconciliationReadinessId(
        crate::workflow_manual_result_reconciliation_readiness_validation::reconciliation_readiness_id_for(
            request.workflow_execution_id.0.as_str(),
            request.manual_result_id.0.as_str(),
            request.manual_result_review_id.0.as_str(),
            request.idempotency_key.as_str(),
        ),
    );
    let preview = match mr {
        Some(m) => Some(preview_exec(m.status)),
        None => None,
    };
    let (status, decision) = readiness_decision(&predicates, preview);
    WorkflowManualResultReconciliationReadinessRecord {
        readiness_id,
        workflow_execution_id: WorkflowExecutionId(request.workflow_execution_id.0.clone()),
        manual_result_id: WorkflowManualResultId(request.manual_result_id.0.clone()),
        manual_result_review_id: WorkflowManualResultReviewId(request.manual_result_review_id.0.clone()),
        command_review_id: WorkflowCommandReviewId(request.command_review_id.0.clone()),
        command_composer_id: WorkflowCommandComposerId(request.command_composer_id.0.clone()),
        loop_controller_id: WorkflowLoopControllerId(request.loop_controller_id.0.clone()),
        manual_result_review_hash: review_hash,
        manual_result_hash: mr_hash,
        command_review_hash: copy_or_empty(mr, 0),
        command_composer_hash: copy_or_empty(mr, 1),
        command_descriptor_hash: copy_or_empty(mr, 2),
        loop_controller_hash: copy_or_empty(mr, 3),
        status,
        decision,
        predicates,
        reconciliation_preview: preview,
        verifies_external_state: false,
        reconciles_now: false,
        mutates_workflow_state: false,
        creates_run_revision: false,
        appends_trace: false,
        writes_memory: false,
        routes_action: false,
        resolves_approval: false,
        creates_execution_grant: false,
        execution_allowed_now: false,
        evaluator: request.evaluator.clone(),
        evaluated_at: request.evaluated_at,
    }
}

} // verus!
