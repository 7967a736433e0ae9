//! Manual result checks: the command review was acknowledged, every hash of the
//! chain matches, and the reported status carries what it needs. Nothing outside
//! is verified.
use vstd::prelude::*;
use crate::gate::{all_checks_pass, all_pass, check_views, push_check, CheckResult, PredicateName};
use crate::ids::{text_digest_id, text_digest_id16, text_id, text_id16};
use crate::text::{copy_opt, opt_view};
use crate::workflow_command_composer::{WorkflowCommandComposerId, WorkflowCommandComposerRecord};
use crate::workflow_command_review::{WorkflowCommandReview, WorkflowCommandReviewDecision, WorkflowCommandReviewId};
use crate::workflow_command_review_validation::composer_descriptor;
use crate::workflow_loop_controller::{WorkflowLoopControllerId, WorkflowLoopControllerRecord};
use crate::workflow_manual_result::{
    artifact_views, copy_artifacts, WorkflowManualResult, WorkflowManualResultId, WorkflowManualResultRequest,
    WorkflowManualResultStatus, WorkflowManualResultSummary, WorkflowManualResultValidationSnapshot,
};
use crate::workflow_run::WorkflowExecutionId;

verus! {

/// Checks of the WorkflowManualResultValidationRule.
#[derive(Debug, Clone, Copy, PartialEq, Eq, Structural)]
pub enum WorkflowManualResultValidationRule {
    CommandReviewExists,
    CommandComposerExists,
    LoopControllerExists,
    CommandReviewHashMatches,
    CommandComposerHashMatches,
    DescriptorHashMatches,
    LoopControllerHashMatches,
    CommandReviewIsAcknowledged,
    CommandReviewNotPerformedByOpenwand,
    OperatorNonEmpty,
    SummaryNonEmpty,
    ReportedFailedRequiresDetailsOrArtifact,
    ReportedPartialRequiresDetails,
    ArtifactsAreReferencesOnly,
    AcknowledgedDoesNotGrantExecution,
}

impl PredicateName for WorkflowManualResultValidationRule {
    open spec fn name_view(self) -> Seq<char> {
        match self {
            WorkflowManualResultValidationRule::CommandReviewExists => "CommandReviewExists"@,
            WorkflowManualResultValidationRule::CommandComposerExists => "CommandComposerExists"@,
            WorkflowManualResultValidationRule::LoopControllerExists => "LoopControllerExists"@,
            WorkflowManualResultValidationRule::CommandReviewHashMatches => "CommandReviewHashMatches"@,
            WorkflowManualResultValidationRule::CommandComposerHashMatches => "CommandComposerHashMatches"@,
            WorkflowManualResultValidationRule::DescriptorHashMatches => "DescriptorHashMatches"@,
            WorkflowManualResultValidationRule::LoopControllerHashMatches => "LoopControllerHashMatches"@,
            WorkflowManualResultValidationRule::CommandReviewIsAcknowledged => "CommandReviewIsAcknowledged"@,
            WorkflowManualResultValidationRule::CommandReviewNotPerformedByOpenwand => "CommandReviewNotPerformedByOpenwand"@,
            WorkflowManualResultValidationRule::OperatorNonEmpty => "OperatorNonEmpty"@,
            WorkflowManualResultValidationRule::SummaryNonEmpty => "SummaryNonEmpty"@,
            WorkflowManualResultValidationRule::ReportedFailedRequiresDetailsOrArtifact => "ReportedFailedRequiresDetailsOrArtifact"@,
            WorkflowManualResultValidationRule::ReportedPartialRequiresDetails => "ReportedPartialRequiresDetails"@,
            WorkflowManualResultValidationRule::ArtifactsAreReferencesOnly => "ArtifactsAreReferencesOnly"@,
            WorkflowManualResultValidationRule::AcknowledgedDoesNotGrantExecution => "AcknowledgedDoesNotGrantExecution"@,
        }
    }

    fn debug_name(&self) -> (s: &'static str) {
        match self {
            WorkflowManualResultValidationRule::CommandReviewExists => "CommandReviewExists",
            WorkflowManualResultValidationRule::CommandComposerExists => "CommandComposerExists",
            WorkflowManualResultValidationRule::LoopControllerExists => "LoopControllerExists",
            WorkflowManualResultValidationRule::CommandReviewHashMatches => "CommandReviewHashMatches",
            WorkflowManualResultValidationRule::CommandComposerHashMatches => "CommandComposerHashMatches",
            WorkflowManualResultValidationRule::DescriptorHashMatches => "DescriptorHashMatches",
            WorkflowManualResultValidationRule::LoopControllerHashMatches => "LoopControllerHashMatches",
            WorkflowManualResultValidationRule::CommandReviewIsAcknowledged => "CommandReviewIsAcknowledged",
            WorkflowManualResultValidationRule::CommandReviewNotPerformedByOpenwand => "CommandReviewNotPerformedByOpenwand",
            WorkflowManualResultValidationRule::OperatorNonEmpty => "OperatorNonEmpty",
            WorkflowManualResultValidationRule::SummaryNonEmpty => "SummaryNonEmpty",
            WorkflowManualResultValidationRule::ReportedFailedRequiresDetailsOrArtifact => "ReportedFailedRequiresDetailsOrArtifact",
            WorkflowManualResultValidationRule::ReportedPartialRequiresDetails => "ReportedPartialRequiresDetails",
            WorkflowManualResultValidationRule::ArtifactsAreReferencesOnly => "ArtifactsAreReferencesOnly",
            WorkflowManualResultValidationRule::AcknowledgedDoesNotGrantExecution => "AcknowledgedDoesNotGrantExecution",
        }
    }
}

/// Result of evaluating one check.
#[derive(Debug, Clone)]
pub struct WorkflowManualResultValidationResult {
    pub rule: WorkflowManualResultValidationRule,
    pub passed: bool,
    pub reason: String,
}

impl CheckResult for WorkflowManualResultValidationResult {
    type P = WorkflowManualResultValidationRule;

    open spec fn check_view(&self) -> (WorkflowManualResultValidationRule, bool, Seq<char>) {
        (self.rule, self.passed, self.reason@)
    }

    fn passed_flag(&self) -> (b: bool) {
        self.passed
    }

    fn predicate_value(&self) -> (p: WorkflowManualResultValidationRule) {
        self.rule
    }

    fn reason_text(&self) -> (s: &str) {
        self.reason.as_str()
    }

    fn make_check(p: Self::P, passed: bool, reason: String) -> (r: Self) {
        Self { rule: p, passed, reason }
    }
}

/// The evidence a manual result is checked against, with the JSON text of each
/// record as the caller serialised it (the hashes are digests of these texts).
#[derive(Debug, Clone)]
pub struct ManualResultEvidence<'a> {
    pub review_record: Option<&'a WorkflowCommandReview>,
    pub composer_record: Option<&'a WorkflowCommandComposerRecord>,
    pub loop_controller_record: Option<&'a WorkflowLoopControllerRecord>,
    pub review_json: &'a str,
    pub composer_json: &'a str,
    pub descriptor_json: &'a str,
    pub loop_controller_json: &'a str,
}

/// The digest a present record's JSON text has (none for an absent record).
pub open spec fn digest_matches(present: bool, json: Seq<char>, expected: Seq<char>) -> bool {
    present && text_id(Seq::empty(), json) == expected
}

/// The text is present and not empty.
pub open spec fn opt_nonempty(o: Option<String>) -> bool {
    match o {
        Some(d) => d@.len() > 0,
        None => false,
    }
}

/// The fifteen manual result checks, in order, with their outcomes and reasons.
pub open spec fn manual_result_checks(request: WorkflowManualResultRequest, ev: ManualResultEvidence) -> Seq<(WorkflowManualResultValidationRule, bool, Seq<char>)> {
    let review = ev.review_record;
    let composer = ev.composer_record;
    let lc = ev.loop_controller_record;
    let review_ok = digest_matches(review is Some, ev.review_json@, request.expected_command_review_hash@);
    let composer_ok = digest_matches(composer is Some, ev.composer_json@, request.expected_command_composer_hash@);
    let desc_ok = digest_matches(composer_descriptor(composer) is Some, ev.descriptor_json@, request.expected_command_descriptor_hash@);
    let lc_ok = digest_matches(lc is Some, ev.loop_controller_json@, request.expected_loop_controller_hash@);
    let acknowledged = review matches Some(r) && r.decision == WorkflowCommandReviewDecision::Acknowledged;
    let not_performed = match review {
        Some(r) => !r.acknowledgment_snapshot.command_performed_now,
        None => true,
    };
    let failed_ok = request.status != WorkflowManualResultStatus::ReportedFailed || opt_nonempty(request.details)
        || request.artifact_references@.len() > 0;
    let partial_ok = request.status != WorkflowManualResultStatus::ReportedPartial || opt_nonempty(request.details);
    seq![
        (WorkflowManualResultValidationRule::CommandReviewExists, review is Some, if review is Some { "Found"@ } else { "Missing"@ }),
        (WorkflowManualResultValidationRule::CommandComposerExists, composer is Some, if composer is Some { "Found"@ } else { "Missing"@ }),
        (WorkflowManualResultValidationRule::LoopControllerExists, lc is Some, if lc is Some { "Found"@ } else { "Missing"@ }),
        (WorkflowManualResultValidationRule::CommandReviewHashMatches, review_ok || review is None, if review_ok { "Match"@ } else { "Mismatch"@ }),
        (WorkflowManualResultValidationRule::CommandComposerHashMatches, composer_ok || composer is None, if composer_ok { "Match"@ } else { "Mismatch"@ }),
        (WorkflowManualResultValidationRule::DescriptorHashMatches, desc_ok || composer is None, if desc_ok { "Match"@ } else { "Mismatch"@ }),
        (WorkflowManualResultValidationRule::LoopControllerHashMatches, lc_ok || lc is None, if lc_ok { "Match"@ } else { "Mismatch"@ }),
        (WorkflowManualResultValidationRule::CommandReviewIsAcknowledged, acknowledged || review is None, if acknowledged { "Acknowledged"@ } else { "Not acknowledged"@ }),
        (WorkflowManualResultValidationRule::CommandReviewNotPerformedByOpenwand, not_performed, if not_performed { "Not performed"@ } else { "Claims performed"@ }),
        (WorkflowManualResultValidationRule::OperatorNonEmpty, request.operator@.len() > 0, if request.operator@.len() == 0 { "Empty"@ } else { "Provided"@ }),
        (WorkflowManualResultValidationRule::SummaryNonEmpty, request.summary@.len() > 0, if request.summary@.len() == 0 { "Empty"@ } else { "Provided"@ }),
        (WorkflowManualResultValidationRule::ReportedFailedRequiresDetailsOrArtifact, failed_ok, if failed_ok { "Ok"@ } else { "Missing details/artifact"@ }),
        (WorkflowManualResultValidationRule::ReportedPartialRequiresDetails, partial_ok, if partial_ok { "Ok"@ } else { "Missing details"@ }),
        (WorkflowManualResultValidationRule::ArtifactsAreReferencesOnly, true, "References only"@),
        (WorkflowManualResultValidationRule::AcknowledgedDoesNotGrantExecution, true, "No execution grant"@),
    ]
}

/// The result id a request names.
pub open spec fn manual_result_id_of(request: WorkflowManualResultRequest) -> Seq<char> {
    text_id16(
        "wmr_"@,
        "manual_result:v1:"@ + request.workflow_execution_id.0@ + ":"@ + request.command_review_id.0@ + ":"@
            + request.idempotency_key@,
    )
}

/// The digest of a present record's JSON text, or the empty text.
pub open spec fn digest_or_empty(present: bool, json: Seq<char>) -> Seq<char> {
    if present { text_id(Seq::empty(), json) } else { Seq::empty() }
}

/// The sealed manual result built from a request that passed every check.
pub open spec fn manual_result_ok(m: WorkflowManualResult, request: WorkflowManualResultRequest, ev: ManualResultEvidence) -> bool {
    let review = ev.review_record;
    let composer = ev.composer_record;
    let lc = ev.loop_controller_record;
    &&& m.result_id.0@ == manual_result_id_of(request)
    &&& m.workflow_execution_id.0@ == request.workflow_execution_id.0@
    &&& m.command_review_id.0@ == request.command_review_id.0@
    &&& m.command_composer_id.0@ == request.command_composer_id.0@
    &&& m.loop_controller_id.0@ == request.loop_controller_id.0@
    &&& m.command_review_hash@ == digest_or_empty(review is Some, ev.review_json@)
    &&& m.command_composer_hash@ == digest_or_empty(composer is Some, ev.composer_json@)
    &&& m.command_descriptor_hash@ == digest_or_empty(composer_descriptor(composer) is Some, ev.descriptor_json@)
    &&& m.loop_controller_hash@ == digest_or_empty(lc is Some, ev.loop_controller_json@)
    &&& m.status == request.status
    &&& m.operator@ == request.operator@
    &&& m.summary.operator_summary@ == request.summary@
    &&& opt_view(m.summary.operator_details) == opt_view(request.details)
    &&& m.summary.reported_status == request.status
    &&& m.summary.caveat@ == "Operator-reported, not verified by OpenWand."@
    &&& artifact_views(m.artifact_references@) == artifact_views(request.artifact_references@)
    &&& m.validation_snapshot.command_review_was_acknowledged == (review matches Some(r) && r.decision == WorkflowCommandReviewDecision::Acknowledged)
    &&& m.validation_snapshot.command_review_hash_matched == digest_matches(review is Some, ev.review_json@, request.expected_command_review_hash@)
    &&& m.validation_snapshot.command_composer_hash_matched == digest_matches(composer is Some, ev.composer_json@, request.expected_command_composer_hash@)
    &&& m.validation_snapshot.command_descriptor_hash_matched == digest_matches(composer_descriptor(composer) is Some, ev.descriptor_json@, request.expected_command_descriptor_hash@)
    &&& m.validation_snapshot.loop_controller_hash_matched == digest_matches(lc is Some, ev.loop_controller_json@, request.expected_loop_controller_hash@)
    &&& m.validation_snapshot.command_review_marked_not_performed_by_openwand
    &&& m.reported_by_operator
    &&& !m.verified_by_openwand && !m.command_executed_by_openwand && !m.mutates_workflow_state
    &&& !m.reconciles_outcome && !m.routes_action && !m.resolves_approval && !m.appends_trace && !m.writes_memory
    &&& !m.invokes_shell && !m.invokes_git && !m.creates_execution_grant && !m.execution_allowed_now
    &&& m.captured_at == request.captured_at
}

pub(crate) fn digest_text(json: &str) -> (h: String)
    ensures
        h@ == text_id(Seq::empty(), json@),
{
    let h = text_digest_id("", json);
    proof {
        reveal_strlit("");
        assert(""@ =~= Seq::<char>::empty());
    }
    h
}

pub(crate) fn digest_check(present: bool, json: &str, expected: &String) -> (b: bool)
    ensures
        b == digest_matches(present, json@, expected@),
{
    if !present {
        return false;
    }
    let h = digest_text(json);
    h == *expected
}

#[verifier::rlimit(60)]
fn manual_result_results(request: &WorkflowManualResultRequest, ev: &ManualResultEvidence) -> (p: Vec<WorkflowManualResultValidationResult>)
    ensures
        check_views(p@) == manual_result_checks(*request, *ev),
{
    let review = ev.review_record;
    let composer = ev.composer_record;
    let lc = ev.loop_controller_record;
    let has_desc = match composer {
        Some(c) => c.descriptor.is_some(),
        None => false,
    };
    let review_ok = digest_check(review.is_some(), ev.review_json, &request.expected_command_review_hash);
    let composer_ok = digest_check(composer.is_some(), ev.composer_json, &request.expected_command_composer_hash);
    let desc_ok = digest_check(has_desc, ev.descriptor_json, &request.expected_command_descriptor_hash);
    let lc_ok = digest_check(lc.is_some(), ev.loop_controller_json, &request.expected_loop_controller_hash);
    let acknowledged = match review {
        Some(r) => r.decision == WorkflowCommandReviewDecision::Acknowledged,
        None => false,
    };
    let not_performed = match review {
        Some(r) => !r.acknowledgment_snapshot.command_performed_now,
        None => true,
    };
    let details_given = match &request.details {
        Some(d) => !d.as_str().is_empty(),
        None => false,
    };
    let failed_ok = request.status != WorkflowManualResultStatus::ReportedFailed || details_given
        || request.artifact_references.len() > 0;
    let partial_ok = request.status != WorkflowManualResultStatus::ReportedPartial || details_given;
    let operator_empty = request.operator.as_str().is_empty();
    let summary_empty = request.summary.as_str().is_empty();
    let mut p: Vec<WorkflowManualResultValidationResult> = Vec::new();
    push_check(&mut p, WorkflowManualResultValidationResult::make_check(WorkflowManualResultValidationRule::CommandReviewExists, review.is_some(), String::from_str(if review.is_some() { "Found" } else { "Missing" })));
    push_check(&mut p, WorkflowManualResultValidationResult::make_check(WorkflowManualResultValidationRule::CommandComposerExists, composer.is_some(), String::from_str(if composer.is_some() { "Found" } else { "Missing" })));
    push_check(&mut p, WorkflowManualResultValidationResult::make_check(WorkflowManualResultValidationRule::LoopControllerExists, lc.is_some(), String::from_str(if lc.is_some() { "Found" } else { "Missing" })));
    push_check(&mut p, WorkflowManualResultValidationResult::make_check(WorkflowManualResultValidationRule::CommandReviewHashMatches, review_ok || review.is_none(), String::from_str(if review_ok { "Match" } else { "Mismatch" })));
    push_check(&mut p, WorkflowManualResultValidationResult::make_check(WorkflowManualResultValidationRule::CommandComposerHashMatches, composer_ok || composer.is_none(), String::from_str(if composer_ok { "Match" } else { "Mismatch" })));
    push_check(&mut p, WorkflowManualResultValidationResult::make_check(WorkflowManualResultValidationRule::DescriptorHashMatches, desc_ok || composer.is_none(), String::from_str(if desc_ok { "Match" } else { "Mismatch" })));
    push_check(&mut p, WorkflowManualResultValidationResult::make_check(WorkflowManualResultValidationRule::LoopControllerHashMatches, lc_ok || lc.is_none(), String::from_str(if lc_ok { "Match" } else { "Mismatch" })));
    push_check(&mut p, WorkflowManualResultValidationResult::make_check(WorkflowManualResultValidationRule::CommandReviewIsAcknowledged, acknowledged || review.is_none(), String::from_str(if acknowledged { "Acknowledged" } else { "Not acknowledged" })));
    push_check(&mut p, WorkflowManualResultValidationResult::make_check(WorkflowManualResultValidationRule::CommandReviewNotPerformedByOpenwand, not_performed, String::from_str(if not_performed { "Not performed" } else { "Claims performed" })));
    push_check(&mut p, WorkflowManualResultValidationResult::make_check(WorkflowManualResultValidationRule::OperatorNonEmpty, !operator_empty, String::from_str(if operator_empty { "Empty" } else { "Provided" })));
    push_check(&mut p, WorkflowManualResultValidationResult::make_check(WorkflowManualResultValidationRule::SummaryNonEmpty, !summary_empty, String::from_str(if summary_empty { "Empty" } else { "Provided" })));
    push_check(&mut p, WorkflowManualResultValidationResult::make_check(WorkflowManualResultValidationRule::ReportedFailedRequiresDetailsOrArtifact, failed_ok, String::from_str(if failed_ok { "Ok" } else { "Missing details/artifact" })));
    push_check(&mut p, WorkflowManualResultValidationResult::make_check(WorkflowManualResultValidationRule::ReportedPartialRequiresDetails, partial_ok, String::from_str(if partial_ok { "Ok" } else { "Missing details" })));
    push_check(&mut p, WorkflowManualResultValidationResult::make_check(WorkflowManualResultValidationRule::ArtifactsAreReferencesOnly, true, String::from_str("References only")));
    push_check(&mut p, WorkflowManualResultValidationResult::make_check(WorkflowManualResultValidationRule::AcknowledgedDoesNotGrantExecution, true, String::from_str("No execution grant")));
    assert(check_views(p@) =~= manual_result_checks(*request, *ev));
    p
}

/// Checks an operator-reported manual result against its evidence chain. On
/// success it returns the sealed result, marked as reported by the operator and
/// verified by nobody; otherwise every check's result.
pub fn validate_manual_result(
    request: &WorkflowManualResultRequest,
    evidence: &ManualResultEvidence,
) -> (r: Result<WorkflowManualResult, Vec<WorkflowManualResultValidationResult>>)
    ensures
        ({
            let checks = manual_result_checks(*request, *evidence);
            &&& (r is Ok <==> all_pass(checks))
            &&& (r matches Err(e) ==> check_views(e@) == checks)
            &&& (r matches Ok(m) ==> manual_result_ok(m, *request, *evidence))
            &&& (r matches Ok(m) ==> m.result_id.0@.len() == 20)
        }),
{
    proof {
        reveal_strlit("wmr_");
    }
    let results = manual_result_results(request, evidence);
    if !all_checks_pass(&results) {
        return Err(results);
    }
    let review = evidence.review_record;
    let composer = evidence.composer_record;
    let lc = evidence.loop_controller_record;
    let has_desc = match composer {
        Some(c) => c.descriptor.is_some(),
        None => false,
    };
    let review_ok = digest_check(review.is_some(), evidence.review_json, &request.expected_command_review_hash);
    let composer_ok = digest_check(composer.is_some(), evidence.composer_json, &request.expected_command_composer_hash);
    let desc_ok = digest_check(has_desc, evidence.descriptor_json, &request.expected_command_descriptor_hash);
    let lc_ok = digest_check(lc.is_some(), evidence.loop_controller_json, &request.expected_loop_controller_hash);
    let acknowledged = match review {
        Some(r) => r.decision == WorkflowCommandReviewDecision::Acknowledged,
        None => false,
    };
    let not_performed = match review {
        Some(r) => !r.acknowledgment_snapshot.command_performed_now,
        None => true,
    };
    proof {
        assert(check_views(results@)[8].1 == not_performed);
    }
    let review_hash = if review.is_some() { digest_text(evidence.review_json) } else { String::new() };
    let composer_hash = if composer.is_some() { digest_text(evidence.composer_json) } else { String::new() };
    let desc_hash = if has_desc { digest_text(evidence.descriptor_json) } else { String::new() };
    let lc_hash = if lc.is_some() { digest_text(evidence.loop_controller_json) } else { String::new() };
    let mut pre = String::from_str("manual_result:v1:");
    pre.append(request.workflow_execution_id.0.as_str());
    pre.append(":");
    pre.append(request.command_review_id.0.as_str());
    pre.append(":");
    pre.append(request.idempotency_key.as_str());
    let result_id = WorkflowManualResultId(text_digest_id16("wmr_", pre.as_str()));
    Ok(WorkflowManualResult {
        result_id,
        workflow_execution_id: WorkflowExecutionId(request.workflow_execution_id.0.clone()),
        command_review_id: WorkflowCommandReviewId(request.command_review_id.0.clone()),
        command_composer_id: WorkflowCommandComposerId(request.command_composer_id.0.clone()),
        loop_controller_id: WorkflowLoopControllerId(request.loop_controller_id.0.clone()),
        command_review_hash: review_hash,
        command_composer_hash: composer_hash,
        command_descriptor_hash: desc_hash,
        loop_controller_hash: lc_hash,
        status: request.status,
        operator: request.operator.clone(),
        summary: WorkflowManualResultSummary {
            operator_summary: request.summary.clone(),
            operator_details: copy_opt(&request.details),
            reported_status: request.status,
            caveat: String::from_str("Operator-reported, not verified by OpenWand."),
        },
        artifact_references: copy_artifacts(&request.artifact_references),
        validation_snapshot: WorkflowManualResultValidationSnapshot {
            command_review_was_acknowledged: acknowledged,
            command_review_hash_matched: review_ok,
            command_composer_hash_matched: composer_ok,
            command_descriptor_hash_matched: desc_ok,
            loop_controller_hash_matched: lc_ok,
            command_review_marked_not_performed_by_openwand: not_performed,
        },
        reported_by_operator: true,
        verified_by_openwand: false,
        command_executed_by_openwand: false,
        mutates_workflow_state: false,
        reconciles_outcome: false,
        routes_action: false,
        resolves_approval: false,
        appends_trace: false,
        writes_memory: false,
        invokes_shell: false,
        invokes_git: false,
        creates_execution_grant: false,
        execution_allowed_now: false,
        captured_at: request.captured_at,
    })
}

} // verus!
