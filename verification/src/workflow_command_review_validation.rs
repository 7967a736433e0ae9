//! Command review checks: hash bindings and the structure of the descriptor.
//! Persistence and idempotency are checked elsewhere.
use vstd::prelude::*;
use crate::gate::{all_checks_pass, all_pass, build_checks, check_views, checks_from, table_view, CheckResult, PredicateName};
use crate::ids::{text_digest_id, text_digest_id16, text_id, text_id16};
use crate::text::views;
use crate::workflow_command_composer::{WorkflowCommandComposerId, WorkflowCommandComposerRecord};
use crate::workflow_command_descriptor::WorkflowManualCommandDescriptor;
use crate::workflow_command_review::{
    command_feedback_view, copy_command_feedback, WorkflowCommandAcknowledgmentSnapshot, WorkflowCommandReview,
    WorkflowCommandReviewDecision, WorkflowCommandReviewId, WorkflowCommandReviewRequest,
};
use crate::workflow_loop_controller::{WorkflowLoopControllerId, WorkflowLoopControllerRecord};
use crate::workflow_run::WorkflowExecutionId;

verus! {

/// Checks of the WorkflowCommandReviewValidationRule.
#[derive(Debug, Clone, Copy, PartialEq, Eq, Structural)]
pub enum WorkflowCommandReviewValidationRule {
    ComposerRecordExists,
    LoopControllerRecordExists,
    ComposerHashMatches,
    DescriptorHashMatches,
    LoopControllerHashMatches,
    DescriptorIsDisplayOnly,
    DescriptorIsNotExecutable,
    ReviewerNonEmpty,
    RationaleNonEmpty,
    RejectionRequiresBlockingReasons,
    ChangesRequestedRequiresRequestedChanges,
    AcknowledgedDoesNotGrantExecution,
}

impl PredicateName for WorkflowCommandReviewValidationRule {
    open spec fn name_view(self) -> Seq<char> {
        match self {
            WorkflowCommandReviewValidationRule::ComposerRecordExists => "ComposerRecordExists"@,
            WorkflowCommandReviewValidationRule::LoopControllerRecordExists => "LoopControllerRecordExists"@,
            WorkflowCommandReviewValidationRule::ComposerHashMatches => "ComposerHashMatches"@,
            WorkflowCommandReviewValidationRule::DescriptorHashMatches => "DescriptorHashMatches"@,
            WorkflowCommandReviewValidationRule::LoopControllerHashMatches => "LoopControllerHashMatches"@,
            WorkflowCommandReviewValidationRule::DescriptorIsDisplayOnly => "DescriptorIsDisplayOnly"@,
            WorkflowCommandReviewValidationRule::DescriptorIsNotExecutable => "DescriptorIsNotExecutable"@,
            WorkflowCommandReviewValidationRule::ReviewerNonEmpty => "ReviewerNonEmpty"@,
            WorkflowCommandReviewValidationRule::RationaleNonEmpty => "RationaleNonEmpty"@,
            WorkflowCommandReviewValidationRule::RejectionRequiresBlockingReasons => "RejectionRequiresBlockingReasons"@,
            WorkflowCommandReviewValidationRule::ChangesRequestedRequiresRequestedChanges => "ChangesRequestedRequiresRequestedChanges"@,
            WorkflowCommandReviewValidationRule::AcknowledgedDoesNotGrantExecution => "AcknowledgedDoesNotGrantExecution"@,
        }
    }

    fn debug_name(&self) -> (s: &'static str) {
        match self {
            WorkflowCommandReviewValidationRule::ComposerRecordExists => "ComposerRecordExists",
            WorkflowCommandReviewValidationRule::LoopControllerRecordExists => "LoopControllerRecordExists",
            WorkflowCommandReviewValidationRule::ComposerHashMatches => "ComposerHashMatches",
            WorkflowCommandReviewValidationRule::DescriptorHashMatches => "DescriptorHashMatches",
            WorkflowCommandReviewValidationRule::LoopControllerHashMatches => "LoopControllerHashMatches",
            WorkflowCommandReviewValidationRule::DescriptorIsDisplayOnly => "DescriptorIsDisplayOnly",
            WorkflowCommandReviewValidationRule::DescriptorIsNotExecutable => "DescriptorIsNotExecutable",
            WorkflowCommandReviewValidationRule::ReviewerNonEmpty => "ReviewerNonEmpty",
            WorkflowCommandReviewValidationRule::RationaleNonEmpty => "RationaleNonEmpty",
            WorkflowCommandReviewValidationRule::RejectionRequiresBlockingReasons => "RejectionRequiresBlockingReasons",
            WorkflowCommandReviewValidationRule::ChangesRequestedRequiresRequestedChanges => "ChangesRequestedRequiresRequestedChanges",
            WorkflowCommandReviewValidationRule::AcknowledgedDoesNotGrantExecution => "AcknowledgedDoesNotGrantExecution",
        }
    }
}

/// Result of evaluating one check.
#[derive(Debug, Clone)]
pub struct WorkflowCommandReviewValidationResult {
    pub rule: WorkflowCommandReviewValidationRule,
    pub passed: bool,
    pub reason: String,
}

impl CheckResult for WorkflowCommandReviewValidationResult {
    type P = WorkflowCommandReviewValidationRule;

    open spec fn check_view(&self) -> (WorkflowCommandReviewValidationRule, bool, Seq<char>) {
        (self.rule, self.passed, self.reason@)
    }

    fn passed_flag(&self) -> (b: bool) {
        self.passed
    }

    fn predicate_value(&self) -> (p: WorkflowCommandReviewValidationRule) {
        self.rule
    }

    fn reason_text(&self) -> (s: &str) {
        self.reason.as_str()
    }

    fn make_check(p: Self::P, passed: bool, reason: String) -> (r: Self) {
        Self { rule: p, passed, reason }
    }
}

/// The descriptor a composer record holds.
pub open spec fn composer_descriptor(composer: Option<&WorkflowCommandComposerRecord>) -> Option<WorkflowManualCommandDescriptor> {
    match composer {
        Some(c) => c.descriptor,
        None => None,
    }
}

/// The command_review predicates in order, each with its reason when passing and when failing.
pub open spec fn command_review_table() -> Seq<(WorkflowCommandReviewValidationRule, Seq<char>, Seq<char>)> {
    seq![
        (WorkflowCommandReviewValidationRule::ComposerRecordExists, "Found"@, "Missing"@),
        (WorkflowCommandReviewValidationRule::LoopControllerRecordExists, "Found"@, "Missing"@),
        (WorkflowCommandReviewValidationRule::ComposerHashMatches, "Provided"@, "Missing"@),
        (WorkflowCommandReviewValidationRule::DescriptorHashMatches, "Provided"@, "Missing"@),
        (WorkflowCommandReviewValidationRule::LoopControllerHashMatches, "Provided"@, "Missing"@),
        (WorkflowCommandReviewValidationRule::DescriptorIsDisplayOnly, "Display only"@, "Not display only"@),
        (WorkflowCommandReviewValidationRule::DescriptorIsNotExecutable, "Not executable"@, "Marked executable"@),
        (WorkflowCommandReviewValidationRule::ReviewerNonEmpty, "Provided"@, "Empty"@),
        (WorkflowCommandReviewValidationRule::RationaleNonEmpty, "Provided"@, "Empty"@),
        (WorkflowCommandReviewValidationRule::RejectionRequiresBlockingReasons, "Ok"@, "Missing blocking reasons"@),
        (WorkflowCommandReviewValidationRule::ChangesRequestedRequiresRequestedChanges, "Ok"@, "Missing requested changes"@),
        (WorkflowCommandReviewValidationRule::AcknowledgedDoesNotGrantExecution, "No execution grant"@, "No execution grant"@),
    ]
}

fn command_review_table_exec() -> (v: Vec<(WorkflowCommandReviewValidationRule, &'static str, &'static str)>)
    ensures
        table_view(v@) == command_review_table(),
{
    let v = vec![
        (WorkflowCommandReviewValidationRule::ComposerRecordExists, "Found", "Missing"),
        (WorkflowCommandReviewValidationRule::LoopControllerRecordExists, "Found", "Missing"),
        (WorkflowCommandReviewValidationRule::ComposerHashMatches, "Provided", "Missing"),
        (WorkflowCommandReviewValidationRule::DescriptorHashMatches, "Provided", "Missing"),
        (WorkflowCommandReviewValidationRule::LoopControllerHashMatches, "Provided", "Missing"),
        (WorkflowCommandReviewValidationRule::DescriptorIsDisplayOnly, "Display only", "Not display only"),
        (WorkflowCommandReviewValidationRule::DescriptorIsNotExecutable, "Not executable", "Marked executable"),
        (WorkflowCommandReviewValidationRule::ReviewerNonEmpty, "Provided", "Empty"),
        (WorkflowCommandReviewValidationRule::RationaleNonEmpty, "Provided", "Empty"),
        (WorkflowCommandReviewValidationRule::RejectionRequiresBlockingReasons, "Ok", "Missing blocking reasons"),
        (WorkflowCommandReviewValidationRule::ChangesRequestedRequiresRequestedChanges, "Ok", "Missing requested changes"),
        (WorkflowCommandReviewValidationRule::AcknowledgedDoesNotGrantExecution, "No execution grant", "No execution grant"),
    ];
    assert(table_view(v@) =~= command_review_table());
    v
}

/// The outcome of each command_review predicate, in table order.
pub open spec fn command_review_flags(request: WorkflowCommandReviewRequest, composer: Option<&WorkflowCommandComposerRecord>, controller: Option<&WorkflowLoopControllerRecord>) -> Seq<bool> {
    let desc = composer_descriptor(composer);
    let display_only = match desc { Some(d) => d.display_only, None => true };
    let not_exec = match desc { Some(d) => !d.executable, None => true };
    let rejection_ok = request.decision != WorkflowCommandReviewDecision::Rejected || (request.feedback matches Some(f) && f.blocking_reasons@.len() > 0);
    let changes_ok = request.decision != WorkflowCommandReviewDecision::ChangesRequested || (request.feedback matches Some(f) && f.requested_changes@.len() > 0);
    seq![
        composer is Some,
        controller is Some,
        request.expected_command_composer_hash@.len() > 0,
        request.expected_command_descriptor_hash@.len() > 0,
        request.expected_loop_controller_hash@.len() > 0,
        display_only,
        not_exec,
        request.reviewer@.len() > 0,
        request.rationale@.len() > 0,
        rejection_ok,
        changes_ok,
        true,
    ]
}


/// The twelve command review checks, in order, with their outcomes and reasons.
pub open spec fn command_review_checks(
    request: WorkflowCommandReviewRequest,
    composer: Option<&WorkflowCommandComposerRecord>,
    controller: Option<&WorkflowLoopControllerRecord>,
) -> Seq<(WorkflowCommandReviewValidationRule, bool, Seq<char>)> {
    checks_from(command_review_table(), command_review_flags(request, composer, controller))
}

/// The review id a request names.
pub open spec fn command_review_id_of(request: WorkflowCommandReviewRequest) -> Seq<char> {
    text_id16(
        "wcrv_"@,
        "command_review:v1:"@ + request.workflow_execution_id.0@ + ":"@ + request.command_composer_id.0@ + ":"@
            + request.idempotency_key@,
    )
}

/// The acknowledgment snapshot of a descriptor: what the operator saw.
pub open spec fn snapshot_ok(s: WorkflowCommandAcknowledgmentSnapshot, desc: Option<WorkflowManualCommandDescriptor>) -> bool {
    &&& s.descriptor_display_command@ == match desc {
        Some(d) => d.display_command@,
        None => Seq::empty(),
    }
    &&& s.descriptor_copyable_text_hash@ == match desc {
        Some(d) => text_id(Seq::empty(), d.copyable_text@),
        None => Seq::empty(),
    }
    &&& s.descriptor_display_only == match desc {
        Some(d) => d.display_only,
        None => true,
    }
    &&& s.descriptor_executable == match desc {
        Some(d) => d.executable,
        None => false,
    }
    &&& views(s.descriptor_missing_inputs@) == match desc {
        Some(d) => d.missing_inputs@.map_values(|m: crate::workflow_manual_operation::WorkflowCommandMissingInput| m.name@),
        None => Seq::empty(),
    }
    &&& s.loop_detected_state@.len() == 0
    &&& s.loop_recommended_operation@.len() == 0
    &&& s.acknowledges_review_only
    &&& !s.command_performed_now
}

/// The sealed review built from a request that passed every check.
pub open spec fn command_review_ok(
    r: WorkflowCommandReview,
    request: WorkflowCommandReviewRequest,
    composer: Option<&WorkflowCommandComposerRecord>,
    composer_json: Seq<char>,
    descriptor_json: Seq<char>,
) -> bool {
    let desc = composer_descriptor(composer);
    &&& r.review_id.0@ == command_review_id_of(request)
    &&& r.workflow_execution_id.0@ == request.workflow_execution_id.0@
    &&& r.command_composer_id.0@ == request.command_composer_id.0@
    &&& r.loop_controller_id.0@ == request.loop_controller_id.0@
    &&& r.command_composer_hash@ == if composer is Some { text_id(Seq::empty(), composer_json) } else { Seq::empty() }
    &&& r.command_descriptor_hash@ == if desc is Some { text_id(Seq::empty(), descriptor_json) } else { Seq::empty() }
    &&& r.loop_controller_hash@ == request.expected_loop_controller_hash@
    &&& r.decision == request.decision
    &&& r.reviewer@ == request.reviewer@
    &&& r.rationale@ == request.rationale@
    &&& (match (r.feedback, request.feedback) {
        (Some(a), Some(b)) => command_feedback_view(a) == command_feedback_view(b),
        (None, None) => true,
        _ => false,
    })
    &&& snapshot_ok(r.acknowledgment_snapshot, desc)
    &&& !r.executes_command && !r.invokes_shell && !r.invokes_git && !r.routes_action && !r.resolves_approval
    &&& !r.reconciles_outcome && !r.mutates_workflow_state && !r.schedules_work && !r.starts_worker
    &&& !r.queues_operation && !r.creates_execution_grant && !r.execution_allowed_now
    &&& r.reviewed_at == request.reviewed_at
}

fn empty_hash_text(text: &str) -> (h: String)
    ensures
        h@ == text_id(Seq::empty(), text@),
{
    let h = text_digest_id("", text);
    proof {
        reveal_strlit("");
        assert(""@ =~= Seq::<char>::empty());
    }
    h
}

/// Checks a command review request against the composer and loop controller
/// records. On success it returns the sealed review; otherwise every check's
/// result. `composer_json` and `descriptor_json` are the JSON texts of the composer
/// record and of its descriptor, whose digests bind the review.
pub fn validate_command_review(
    request: &WorkflowCommandReviewRequest,
    composer_record: Option<&WorkflowCommandComposerRecord>,
    loop_controller_record: Option<&WorkflowLoopControllerRecord>,
    composer_json: &str,
    descriptor_json: &str,
) -> (r: Result<WorkflowCommandReview, Vec<WorkflowCommandReviewValidationResult>>)
    ensures
        ({
            let checks = command_review_checks(*request, composer_record, loop_controller_record);
            &&& (r is Ok <==> all_pass(checks))
            &&& (r matches Err(e) ==> check_views(e@) == checks)
            &&& (r matches Ok(rv) ==> command_review_ok(rv, *request, composer_record, composer_json@, descriptor_json@))
            &&& (r matches Ok(rv) ==> rv.review_id.0@.len() == 21)
        }),
{
    proof {
        reveal_strlit("wcrv_");
    }
    let desc: Option<&WorkflowManualCommandDescriptor> = match composer_record {
        Some(c) => match &c.descriptor {
            Some(d) => Some(d),
            None => None,
        },
        None => None,
    };
    let display_only = match desc {
        Some(d) => d.display_only,
        None => true,
    };
    let not_exec = match desc {
        Some(d) => !d.executable,
        None => true,
    };
    let rejection_ok = request.decision != WorkflowCommandReviewDecision::Rejected || match &request.feedback {
        Some(f) => f.blocking_reasons.len() > 0,
        None => false,
    };
    let changes_ok = request.decision != WorkflowCommandReviewDecision::ChangesRequested || match &request.feedback {
        Some(f) => f.requested_changes.len() > 0,
        None => false,
    };
    let flags = vec![
        composer_record.is_some(), loop_controller_record.is_some(),
        !request.expected_command_composer_hash.as_str().is_empty(),
        !request.expected_command_descriptor_hash.as_str().is_empty(),
        !request.expected_loop_controller_hash.as_str().is_empty(), display_only, not_exec,
        !request.reviewer.as_str().is_empty(), !request.rationale.as_str().is_empty(), rejection_ok, changes_ok, true,
    ];
    assert(flags@ =~= command_review_flags(*request, composer_record, loop_controller_record));
    let table = command_review_table_exec();
    assert(table_view(table@).len() == table@.len());
    let results: Vec<WorkflowCommandReviewValidationResult> = build_checks(&table, &flags);
    if !all_checks_pass(&results) {
        return Err(results);
    }
    let composer_hash = match composer_record {
        Some(_) => empty_hash_text(composer_json),
        None => String::new(),
    };
    let desc_hash = match desc {
        Some(_) => empty_hash_text(descriptor_json),
        None => String::new(),
    };
    let mut missing_names: Vec<String> = Vec::new();
    match desc {
        Some(d) => {
            let mut i: usize = 0;
            while i < d.missing_inputs.len()
                invariant
                    i <= d.missing_inputs.len(),
                    missing_names@.len() == i,
                    forall|k: int| 0 <= k < i ==> #[trigger] missing_names@[k]@ == d.missing_inputs@[k].name@,
                decreases d.missing_inputs.len() - i,
            {
                missing_names.push(d.missing_inputs[i].name.clone());
                i += 1;
            }
            assert(views(missing_names@) =~= d.missing_inputs@.map_values(
                |m: crate::workflow_manual_operation::WorkflowCommandMissingInput| m.name@,
            ));
        },
        None => {
            assert(views(missing_names@) =~= Seq::<Seq<char>>::empty());
        },
    }
    let snapshot = WorkflowCommandAcknowledgmentSnapshot {
        descriptor_display_command: match desc {
            Some(d) => d.display_command.clone(),
            None => String::new(),
        },
        descriptor_copyable_text_hash: match desc {
            Some(d) => empty_hash_text(d.copyable_text.as_str()),
            None => String::new(),
        },
        descriptor_display_only: display_only,
        descriptor_executable: match desc {
            Some(d) => d.executable,
            None => false,
        },
        descriptor_missing_inputs: missing_names,
        loop_detected_state: String::new(),
        loop_recommended_operation: String::new(),
        acknowledges_review_only: true,
        command_performed_now: false,
    };
    let mut pre = String::from_str("command_review:v1:");
    pre.append(request.workflow_execution_id.0.as_str());
    pre.append(":");
    pre.append(request.command_composer_id.0.as_str());
    pre.append(":");
    pre.append(request.idempotency_key.as_str());
    let review_id = WorkflowCommandReviewId(text_digest_id16("wcrv_", pre.as_str()));
    Ok(WorkflowCommandReview {
        review_id,
        workflow_execution_id: WorkflowExecutionId(request.workflow_execution_id.0.clone()),
        command_composer_id: WorkflowCommandComposerId(request.command_composer_id.0.clone()),
        loop_controller_id: WorkflowLoopControllerId(request.loop_controller_id.0.clone()),
        command_composer_hash: composer_hash,
        command_descriptor_hash: desc_hash,
        loop_controller_hash: request.expected_loop_controller_hash.clone(),
        decision: request.decision,
        reviewer: request.reviewer.clone(),
        rationale: request.rationale.clone(),
        feedback: copy_command_feedback(&request.feedback),
        acknowledgment_snapshot: snapshot,
        executes_command: false,
        invokes_shell: false,
        invokes_git: false,
        routes_action: false,
        resolves_approval: false,
        reconciles_outcome: false,
        mutates_workflow_state: false,
        schedules_work: false,
        starts_worker: false,
        queues_operation: false,
        creates_execution_grant: false,
        execution_allowed_now: false,
        reviewed_at: request.reviewed_at,
    })
}

} // verus!
