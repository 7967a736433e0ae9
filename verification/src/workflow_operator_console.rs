//! The operator console: one read-only view of a run's whole evidence ladder.
//!
//! The console observes, summarises and links evidence. It creates no evidence
//! record and performs no recommended operation; its state is recomputed from
//! existing evidence and never stored.
use vstd::prelude::*;
use crate::outside::{now_utc, Timestamp};
use crate::text::{has_substring, lowercase_of, occurs_at, opt_view, str_contains, str_eq, to_lowercase};
use crate::workflow_loop_state::WorkflowDetectedLoopState;
use crate::workflow_run::WorkflowExecutionId;

verus! {

/// The console state. Every authority flag is false.
#[derive(Debug, Clone)]
pub struct WorkflowOperatorConsoleState {
    pub workflow_execution_id: WorkflowExecutionId,
    pub run_status: String,
    pub stages: Vec<ConsoleStageSummary>,
    pub detected_state: String,
    pub detected_state_explanation: Option<String>,
    pub recommendation: Option<ConsoleRecommendation>,
    pub evidence_chain: Vec<ConsoleEvidenceLink>,
    /// Section-grouped evidence summaries.
    pub sections: Vec<ConsoleSectionSummary>,
    /// Attestations grouped by target.
    pub attestation_groups: Vec<ConsoleAttestationGroup>,
    /// Verification readiness summaries (eligibility only).
    pub verification_readiness_summary: Vec<ConsoleReadinessEligibilitySummary>,
    // chain consistency
    pub chain_warnings: Vec<ConsoleChainWarning>,
    pub evidence_chain_consistent: bool,
    pub warnings: Vec<String>,
    pub computed_at: Timestamp,
    // no-authority flags
    pub creates_route: bool,
    pub executes_tool: bool,
    pub verifies_external_state: bool,
    pub resolves_approval: bool,
    pub reconciles_outcome: bool,
    pub mutates_workflow_state: bool,
    pub creates_run_revision: bool,
    pub appends_trace: bool,
    pub writes_memory: bool,
    pub certifies_evidence: bool,
    pub promotes_trust: bool,
    pub schedules_verification: bool,
}

#[derive(Debug, Clone)]
pub struct ConsoleStageSummary {
    pub stage_id: String,
    pub title: String,
    pub status: String,
    pub order: u32,
}

#[derive(Debug, Clone)]
pub struct ConsoleRecommendation {
    pub operation: String,
    pub command_hint: String,
    pub reason: String,
}

/// Chain consistency warning.
#[derive(Debug, Clone)]
pub struct ConsoleChainWarning {
    pub link_kind: String,
    pub expected_id: String,
    pub actual_id: Option<String>,
    pub reason: String,
}

#[derive(Debug, Clone)]
pub struct ConsoleEvidenceLink {
    pub link_kind: String,
    pub record_id: String,
    pub status: String,
    pub summary: String,
}

/// Evidence section for grouped display.
#[derive(Debug, Clone, Copy, PartialEq, Eq, Structural)]
pub enum ConsoleEvidenceSection {
    UpstreamSpine,
    LoopControl,
    ManualResultLadder,
    ExternalAttestations,
    VerificationReadiness,
}

/// Per-section summary for the console.
#[derive(Debug, Clone)]
pub struct ConsoleSectionSummary {
    pub section: ConsoleEvidenceSection,
    pub link_count: usize,
    pub present_count: usize,
    pub missing_count: usize,
    pub warnings_count: usize,
}

/// Attestations grouped by target record.
#[derive(Debug, Clone)]
pub struct ConsoleAttestationGroup {
    pub target_kind: String,
    pub target_id: String,
    pub attestations: Vec<ConsoleAttestationRow>,
}

/// One attestation row within a target group.
#[derive(Debug, Clone)]
pub struct ConsoleAttestationRow {
    pub attestation_id: String,
    pub kind: String,
    pub source_name: String,
    pub claim: String,
    pub verified_by_openwand: bool,
    pub promotes_trust: bool,
}

/// Verification readiness shown as future eligibility, never as verification.
#[derive(Debug, Clone)]
pub struct ConsoleReadinessEligibilitySummary {
    pub readiness_id: String,
    pub target_kind: String,
    pub target_id: String,
    pub status: String,
    /// Always true: readiness is eligibility only.
    pub is_eligibility_only: bool,
}

/// What the console says of each detected state: what is observed, never what to
/// execute.
pub open spec fn explanation_of(state: WorkflowDetectedLoopState) -> Seq<char> {
    match state {
        WorkflowDetectedLoopState::NeedsInitialContinuationProposal => "The workflow run has been created but no continuation proposal has been recorded yet. The system is waiting for continuation readiness evaluation."@,
        WorkflowDetectedLoopState::NeedsNextActionReview => "A next-action proposal exists but has not been reviewed by the operator. The system is waiting for operator review of the proposed next action."@,
        WorkflowDetectedLoopState::NeedsRoutingReadiness => "A next-action review has been accepted but routing readiness has not been evaluated. The system is waiting for routing readiness assessment."@,
        WorkflowDetectedLoopState::NeedsNextActionRouting => "Routing readiness has been confirmed but the next action has not been routed through the session seam. The system is waiting for action routing."@,
        WorkflowDetectedLoopState::NeedsSessionRoutingObservation => "The next action has been routed but no session routing observation has been recorded. The system is waiting for the session to process the routed action."@,
        WorkflowDetectedLoopState::NeedsApprovalOutcomeResolution => "An approval request has been sent to the session but the outcome has not been resolved. The system is waiting for approval outcome resolution."@,
        WorkflowDetectedLoopState::NeedsOutcomeReconciliation => "An action outcome has been recorded but has not been reconciled into workflow state. The system is waiting for outcome reconciliation."@,
        WorkflowDetectedLoopState::NeedsContinuationAfterReconciliation => "Outcome reconciliation is complete but no continuation readiness has been evaluated for the next loop iteration. The system is waiting for continuation readiness evaluation."@,
        WorkflowDetectedLoopState::NeedsCommandDescriptor => "The loop controller has identified that a command descriptor is needed. The system is waiting for command composition."@,
        WorkflowDetectedLoopState::NeedsCommandReview => "A command has been composed but has not been reviewed by the operator. The system is waiting for operator acknowledgment of the command."@,
        WorkflowDetectedLoopState::NeedsManualResultCapture => "A command has been reviewed but no manual result has been captured. The system is waiting for the operator to report the manual execution result."@,
        WorkflowDetectedLoopState::NeedsManualResultReview => "A manual result has been captured but has not been reviewed. The system is waiting for operator review of the reported result."@,
        WorkflowDetectedLoopState::NeedsReconciliationReadiness => "A manual result has been accepted but reconciliation readiness has not been evaluated. The system is waiting for reconciliation readiness assessment."@,
        WorkflowDetectedLoopState::NeedsManualReconciliation => "Reconciliation readiness has been confirmed but the reconciliation gate has not been evaluated. The system is waiting for manual reconciliation gate evaluation."@,
        WorkflowDetectedLoopState::WorkflowComplete => "The workflow run has completed all stages. No further action is needed."@,
        WorkflowDetectedLoopState::WorkflowBlocked => "The workflow run is blocked. An operator must intervene to resolve the blockage."@,
        WorkflowDetectedLoopState::Inconclusive => "The workflow run state cannot be determined from available evidence. Manual inspection may be required."@,
    }
}

/// A character with ASCII capitals lowered; every other character is kept.
pub open spec fn ascii_lower_char(c: char) -> char {
    if 'A' <= c && c <= 'Z' {
        ((c as u32) + 32) as char
    } else {
        c
    }
}

/// A text with its ASCII capitals lowered.
pub open spec fn ascii_lowercase(s: Seq<char>) -> Seq<char> {
    s.map_values(|c: char| ascii_lower_char(c))
}

/// The characters of `needle` from position `m` on match `hay` at `i + m` on,
/// with ASCII capitals of `hay` lowered.
spec fn lowered_match(hay: Seq<char>, needle: Seq<char>, i: int, m: nat) -> bool
    decreases needle.len() - m,
{
    if m >= needle.len() {
        true
    } else {
        ascii_lower_char(hay[i + m]) == needle[m as int] && lowered_match(hay, needle, i, m + 1)
    }
}

/// No position from `i` on starts a lowered match of `needle`, checked one
/// position after another.
spec fn lowered_absent_from(hay: Seq<char>, needle: Seq<char>, i: nat) -> bool
    decreases hay.len() - i,
{
    if i >= hay.len() || i + needle.len() > hay.len() {
        true
    } else {
        !lowered_match(hay, needle, i as int, 0) && lowered_absent_from(hay, needle, i + 1)
    }
}

proof fn lemma_lowered_match(hay: Seq<char>, needle: Seq<char>, i: int, m: nat)
    requires
        0 <= i,
        i + needle.len() <= hay.len(),
        m <= needle.len(),
        forall|t: int| m <= t < needle.len() ==> ascii_lowercase(hay)[i + t] == needle[t],
    ensures
        lowered_match(hay, needle, i, m),
    decreases needle.len() - m,
{
    if m < needle.len() {
        assert(ascii_lowercase(hay)[i + m] == needle[m as int]);
        lemma_lowered_match(hay, needle, i, m + 1);
    }
}

proof fn lemma_lowered_absent(hay: Seq<char>, needle: Seq<char>, k: nat)
    requires
        needle.len() > 0,
        lowered_absent_from(hay, needle, k),
    ensures
        forall|j: int| k <= j ==> !occurs_at(ascii_lowercase(hay), needle, j),
    decreases hay.len() - k,
{
    let low = ascii_lowercase(hay);
    if k < hay.len() && k + needle.len() <= hay.len() {
        lemma_lowered_absent(hay, needle, k + 1);
        if occurs_at(low, needle, k as int) {
            assert forall|t: int| 0 <= t < needle.len() implies low[k + t] == needle[t] by {
                assert(low.subrange(k as int, (k + needle.len()) as int)[t] == needle[t]);
            }
            lemma_lowered_match(hay, needle, k as int, 0);
        }
    }
}

proof fn lemma_lowered_clean_needs_initial_continuation_proposal()
    ensures
        lowered_absent_from(explanation_of(WorkflowDetectedLoopState::NeedsInitialContinuationProposal), "execute"@, 0),
        lowered_absent_from(explanation_of(WorkflowDetectedLoopState::NeedsInitialContinuationProposal), "run command"@, 0),
{
    let h = explanation_of(WorkflowDetectedLoopState::NeedsInitialContinuationProposal);
    reveal_strlit("execute");
    reveal_strlit("run command");
    reveal_with_fuel(lowered_match, 12);
    reveal_strlit("The workflow run has been created but no continuation proposal has been recorded yet. The system is waiting for continuation readiness evaluation.");
    reveal_with_fuel(lowered_absent_from, 40);
    assert(lowered_absent_from(h, "execute"@, 140));
    assert(lowered_absent_from(h, "run command"@, 140));
    assert(lowered_absent_from(h, "execute"@, 105));
    assert(lowered_absent_from(h, "run command"@, 105));
    assert(lowered_absent_from(h, "execute"@, 70));
    assert(lowered_absent_from(h, "run command"@, 70));
    assert(lowered_absent_from(h, "execute"@, 35));
    assert(lowered_absent_from(h, "run command"@, 35));
    assert(lowered_absent_from(h, "execute"@, 0));
    assert(lowered_absent_from(h, "run command"@, 0));
}

proof fn lemma_lowered_clean_needs_next_action_review()
    ensures
        lowered_absent_from(explanation_of(WorkflowDetectedLoopState::NeedsNextActionReview), "execute"@, 0),
        lowered_absent_from(explanation_of(WorkflowDetectedLoopState::NeedsNextActionReview), "run command"@, 0),
{
    let h = explanation_of(WorkflowDetectedLoopState::NeedsNextActionReview);
    reveal_strlit("execute");
    reveal_strlit("run command");
    reveal_with_fuel(lowered_match, 12);
    reveal_strlit("A next-action proposal exists but has not been reviewed by the operator. The system is waiting for operator review of the proposed next action.");
    reveal_with_fuel(lowered_absent_from, 40);
    assert(lowered_absent_from(h, "execute"@, 140));
    assert(lowered_absent_from(h, "run command"@, 140));
    assert(lowered_absent_from(h, "execute"@, 105));
    assert(lowered_absent_from(h, "run command"@, 105));
    assert(lowered_absent_from(h, "execute"@, 70));
    assert(lowered_absent_from(h, "run command"@, 70));
    assert(lowered_absent_from(h, "execute"@, 35));
    assert(lowered_absent_from(h, "run command"@, 35));
    assert(lowered_absent_from(h, "execute"@, 0));
    assert(lowered_absent_from(h, "run command"@, 0));
}

proof fn lemma_lowered_clean_needs_routing_readiness()
    ensures
        lowered_absent_from(explanation_of(WorkflowDetectedLoopState::NeedsRoutingReadiness), "execute"@, 0),
        lowered_absent_from(explanation_of(WorkflowDetectedLoopState::NeedsRoutingReadiness), "run command"@, 0),
{
    let h = explanation_of(WorkflowDetectedLoopState::NeedsRoutingReadiness);
    reveal_strlit("execute");
    reveal_strlit("run command");
    reveal_with_fuel(lowered_match, 12);
    reveal_strlit("A next-action review has been accepted but routing readiness has not been evaluated. The system is waiting for routing readiness assessment.");
    reveal_with_fuel(lowered_absent_from, 40);
    assert(lowered_absent_from(h, "execute"@, 140));
    assert(lowered_absent_from(h, "run command"@, 140));
    assert(lowered_absent_from(h, "execute"@, 105));
    assert(lowered_absent_from(h, "run command"@, 105));
    assert(lowered_absent_from(h, "execute"@, 70));
    assert(lowered_absent_from(h, "run command"@, 70));
    assert(lowered_absent_from(h, "execute"@, 35));
    assert(lowered_absent_from(h, "run command"@, 35));
    assert(lowered_absent_from(h, "execute"@, 0));
    assert(lowered_absent_from(h, "run command"@, 0));
}

proof fn lemma_lowered_clean_needs_next_action_routing()
    ensures
        lowered_absent_from(explanation_of(WorkflowDetectedLoopState::NeedsNextActionRouting), "execute"@, 0),
        lowered_absent_from(explanation_of(WorkflowDetectedLoopState::NeedsNextActionRouting), "run command"@, 0),
{
    let h = explanation_of(WorkflowDetectedLoopState::NeedsNextActionRouting);
    reveal_strlit("execute");
    reveal_strlit("run command");
    reveal_with_fuel(lowered_match, 12);
    reveal_strlit("Routing readiness has been confirmed but the next action has not been routed through the session seam. The system is waiting for action routing.");
    reveal_with_fuel(lowered_absent_from, 40);
    assert(lowered_absent_from(h, "execute"@, 140));
    assert(lowered_absent_from(h, "run command"@, 140));
    assert(lowered_absent_from(h, "execute"@, 105));
    assert(lowered_absent_from(h, "run command"@, 105));
    assert(lowered_absent_from(h, "execute"@, 70));
    assert(lowered_absent_from(h, "run command"@, 70));
    assert(lowered_absent_from(h, "execute"@, 35));
    assert(lowered_absent_from(h, "run command"@, 35));
    assert(lowered_absent_from(h, "execute"@, 0));
    assert(lowered_absent_from(h, "run command"@, 0));
}

proof fn lemma_lowered_clean_needs_session_routing_observation()
    ensures
        lowered_absent_from(explanation_of(WorkflowDetectedLoopState::NeedsSessionRoutingObservation), "execute"@, 0),
        lowered_absent_from(explanation_of(WorkflowDetectedLoopState::NeedsSessionRoutingObservation), "run command"@, 0),
{
    let h = explanation_of(WorkflowDetectedLoopState::NeedsSessionRoutingObservation);
    reveal_strlit("execute");
    reveal_strlit("run command");
    reveal_with_fuel(lowered_match, 12);
    reveal_strlit("The next action has been routed but no session routing observation has been recorded. The system is waiting for the session to process the routed action.");
    reveal_with_fuel(lowered_absent_from, 40);
    assert(lowered_absent_from(h, "execute"@, 140));
    assert(lowered_absent_from(h, "run command"@, 140));
    assert(lowered_absent_from(h, "execute"@, 105));
    assert(lowered_absent_from(h, "run command"@, 105));
    assert(lowered_absent_from(h, "execute"@, 70));
    assert(lowered_absent_from(h, "run command"@, 70));
    assert(lowered_absent_from(h, "execute"@, 35));
    assert(lowered_absent_from(h, "run command"@, 35));
    assert(lowered_absent_from(h, "execute"@, 0));
    assert(lowered_absent_from(h, "run command"@, 0));
}

proof fn lemma_lowered_clean_needs_approval_outcome_resolution()
    ensures
        lowered_absent_from(explanation_of(WorkflowDetectedLoopState::NeedsApprovalOutcomeResolution), "execute"@, 0),
        lowered_absent_from(explanation_of(WorkflowDetectedLoopState::NeedsApprovalOutcomeResolution), "run command"@, 0),
{
    let h = explanation_of(WorkflowDetectedLoopState::NeedsApprovalOutcomeResolution);
    reveal_strlit("execute");
    reveal_strlit("run command");
    reveal_with_fuel(lowered_match, 12);
    reveal_strlit("An approval request has been sent to the session but the outcome has not been resolved. The system is waiting for approval outcome resolution.");
    reveal_with_fuel(lowered_absent_from, 40);
    assert(lowered_absent_from(h, "execute"@, 140));
    assert(lowered_absent_from(h, "run command"@, 140));
    assert(lowered_absent_from(h, "execute"@, 105));
    assert(lowered_absent_from(h, "run command"@, 105));
    assert(lowered_absent_from(h, "execute"@, 70));
    assert(lowered_absent_from(h, "run command"@, 70));
    assert(lowered_absent_from(h, "execute"@, 35));
    assert(lowered_absent_from(h, "run command"@, 35));
    assert(lowered_absent_from(h, "execute"@, 0));
    assert(lowered_absent_from(h, "run command"@, 0));
}

proof fn lemma_lowered_clean_needs_outcome_reconciliation()
    ensures
        lowered_absent_from(explanation_of(WorkflowDetectedLoopState::NeedsOutcomeReconciliation), "execute"@, 0),
        lowered_absent_from(explanation_of(WorkflowDetectedLoopState::NeedsOutcomeReconciliation), "run command"@, 0),
{
    let h = explanation_of(WorkflowDetectedLoopState::NeedsOutcomeReconciliation);
    reveal_strlit("execute");
    reveal_strlit("run command");
    reveal_with_fuel(lowered_match, 12);
    reveal_strlit("An action outcome has been recorded but has not been reconciled into workflow state. The system is waiting for outcome reconciliation.");
    reveal_with_fuel(lowered_absent_from, 40);
    assert(lowered_absent_from(h, "execute"@, 105));
    assert(lowered_absent_from(h, "run command"@, 105));
    assert(lowered_absent_from(h, "execute"@, 70));
    assert(lowered_absent_from(h, "run command"@, 70));
    assert(lowered_absent_from(h, "execute"@, 35));
    assert(lowered_absent_from(h, "run command"@, 35));
    assert(lowered_absent_from(h, "execute"@, 0));
    assert(lowered_absent_from(h, "run command"@, 0));
}

proof fn lemma_lowered_clean_needs_continuation_after_reconciliation()
    ensures
        lowered_absent_from(explanation_of(WorkflowDetectedLoopState::NeedsContinuationAfterReconciliation), "execute"@, 0),
        lowered_absent_from(explanation_of(WorkflowDetectedLoopState::NeedsContinuationAfterReconciliation), "run command"@, 0),
{
    let h = explanation_of(WorkflowDetectedLoopState::NeedsContinuationAfterReconciliation);
    reveal_strlit("execute");
    reveal_strlit("run command");
    reveal_with_fuel(lowered_match, 12);
    reveal_strlit("Outcome reconciliation is complete but no continuation readiness has been evaluated for the next loop iteration. The system is waiting for continuation readiness evaluation.");
    reveal_with_fuel(lowered_absent_from, 40);
    assert(lowered_absent_from(h, "execute"@, 140));
    assert(lowered_absent_from(h, "run command"@, 140));
    assert(lowered_absent_from(h, "execute"@, 105));
    assert(lowered_absent_from(h, "run command"@, 105));
    assert(lowered_absent_from(h, "execute"@, 70));
    assert(lowered_absent_from(h, "run command"@, 70));
    assert(lowered_absent_from(h, "execute"@, 35));
    assert(lowered_absent_from(h, "run command"@, 35));
    assert(lowered_absent_from(h, "execute"@, 0));
    assert(lowered_absent_from(h, "run command"@, 0));
}

proof fn lemma_lowered_clean_needs_command_descriptor()
    ensures
        lowered_absent_from(explanation_of(WorkflowDetectedLoopState::NeedsCommandDescriptor), "execute"@, 0),
        lowered_absent_from(explanation_of(WorkflowDetectedLoopState::NeedsCommandDescriptor), "run command"@, 0),
{
    let h = explanation_of(WorkflowDetectedLoopState::NeedsCommandDescriptor);
    reveal_strlit("execute");
    reveal_strlit("run command");
    reveal_with_fuel(lowered_match, 12);
    reveal_strlit("The loop controller has identified that a command descriptor is needed. The system is waiting for command composition.");
    reveal_with_fuel(lowered_absent_from, 40);
    assert(lowered_absent_from(h, "execute"@, 105));
    assert(lowered_absent_from(h, "run command"@, 105));
    assert(lowered_absent_from(h, "execute"@, 70));
    assert(lowered_absent_from(h, "run command"@, 70));
    assert(lowered_absent_from(h, "execute"@, 35));
    assert(lowered_absent_from(h, "run command"@, 35));
    assert(lowered_absent_from(h, "execute"@, 0));
    assert(lowered_absent_from(h, "run command"@, 0));
}

proof fn lemma_lowered_clean_needs_command_review()
    ensures
        lowered_absent_from(explanation_of(WorkflowDetectedLoopState::NeedsCommandReview), "execute"@, 0),
        lowered_absent_from(explanation_of(WorkflowDetectedLoopState::NeedsCommandReview), "run command"@, 0),
{
    let h = explanation_of(WorkflowDetectedLoopState::NeedsCommandReview);
    reveal_strlit("execute");
    reveal_strlit("run command");
    reveal_with_fuel(lowered_match, 12);
    reveal_strlit("A command has been composed but has not been reviewed by the operator. The system is waiting for operator acknowledgment of the command.");
    reveal_with_fuel(lowered_absent_from, 40);
    assert(lowered_absent_from(h, "execute"@, 105));
    assert(lowered_absent_from(h, "run command"@, 105));
    assert(lowered_absent_from(h, "execute"@, 70));
    assert(lowered_absent_from(h, "run command"@, 70));
    assert(lowered_absent_from(h, "execute"@, 35));
    assert(lowered_absent_from(h, "run command"@, 35));
    assert(lowered_absent_from(h, "execute"@, 0));
    assert(lowered_absent_from(h, "run command"@, 0));
}

proof fn lemma_lowered_clean_needs_manual_result_capture()
    ensures
        lowered_absent_from(explanation_of(WorkflowDetectedLoopState::NeedsManualResultCapture), "execute"@, 0),
        lowered_absent_from(explanation_of(WorkflowDetectedLoopState::NeedsManualResultCapture), "run command"@, 0),
{
    let h = explanation_of(WorkflowDetectedLoopState::NeedsManualResultCapture);
    reveal_strlit("execute");
    reveal_strlit("run command");
    reveal_with_fuel(lowered_match, 12);
    reveal_strlit("A command has been reviewed but no manual result has been captured. The system is waiting for the operator to report the manual execution result.");
    reveal_with_fuel(lowered_absent_from, 40);
    assert(lowered_absent_from(h, "execute"@, 140));
    assert(lowered_absent_from(h, "run command"@, 140));
    assert(lowered_absent_from(h, "execute"@, 105));
    assert(lowered_absent_from(h, "run command"@, 105));
    assert(lowered_absent_from(h, "execute"@, 70));
    assert(lowered_absent_from(h, "run command"@, 70));
    assert(lowered_absent_from(h, "execute"@, 35));
    assert(lowered_absent_from(h, "run command"@, 35));
    assert(lowered_absent_from(h, "execute"@, 0));
    assert(lowered_absent_from(h, "run command"@, 0));
}

proof fn lemma_lowered_clean_needs_manual_result_review()
    ensures
        lowered_absent_from(explanation_of(WorkflowDetectedLoopState::NeedsManualResultReview), "execute"@, 0),
        lowered_absent_from(explanation_of(WorkflowDetectedLoopState::NeedsManualResultReview), "run command"@, 0),
{
    let h = explanation_of(WorkflowDetectedLoopState::NeedsManualResultReview);
    reveal_strlit("execute");
    reveal_strlit("run command");
    reveal_with_fuel(lowered_match, 12);
    reveal_strlit("A manual result has been captured but has not been reviewed. The system is waiting for operator review of the reported result.");
    reveal_with_fuel(lowered_absent_from, 40);
    assert(lowered_absent_from(h, "execute"@, 105));
    assert(lowered_absent_from(h, "run command"@, 105));
    assert(lowered_absent_from(h, "execute"@, 70));
    assert(lowered_absent_from(h, "run command"@, 70));
    assert(lowered_absent_from(h, "execute"@, 35));
    assert(lowered_absent_from(h, "run command"@, 35));
    assert(lowered_absent_from(h, "execute"@, 0));
    assert(lowered_absent_from(h, "run command"@, 0));
}

proof fn lemma_lowered_clean_needs_reconciliation_readiness()
    ensures
        lowered_absent_from(explanation_of(WorkflowDetectedLoopState::NeedsReconciliationReadiness), "execute"@, 0),
        lowered_absent_from(explanation_of(WorkflowDetectedLoopState::NeedsReconciliationReadiness), "run command"@, 0),
{
    let h = explanation_of(WorkflowDetectedLoopState::NeedsReconciliationReadiness);
    reveal_strlit("execute");
    reveal_strlit("run command");
    reveal_with_fuel(lowered_match, 12);
    reveal_strlit("A manual result has been accepted but reconciliation readiness has not been evaluated. The system is waiting for reconciliation readiness assessment.");
    reveal_with_fuel(lowered_absent_from, 40);
    assert(lowered_absent_from(h, "execute"@, 140));
    assert(lowered_absent_from(h, "run command"@, 140));
    assert(lowered_absent_from(h, "execute"@, 105));
    assert(lowered_absent_from(h, "run command"@, 105));
    assert(lowered_absent_from(h, "execute"@, 70));
    assert(lowered_absent_from(h, "run command"@, 70));
    assert(lowered_absent_from(h, "execute"@, 35));
    assert(lowered_absent_from(h, "run command"@, 35));
    assert(lowered_absent_from(h, "execute"@, 0));
    assert(lowered_absent_from(h, "run command"@, 0));
}

proof fn lemma_lowered_clean_needs_manual_reconciliation()
    ensures
        lowered_absent_from(explanation_of(WorkflowDetectedLoopState::NeedsManualReconciliation), "execute"@, 0),
        lowered_absent_from(explanation_of(WorkflowDetectedLoopState::NeedsManualReconciliation), "run command"@, 0),
{
    let h = explanation_of(WorkflowDetectedLoopState::NeedsManualReconciliation);
    reveal_strlit("execute");
    reveal_strlit("run command");
    reveal_with_fuel(lowered_match, 12);
    reveal_strlit("Reconciliation readiness has been confirmed but the reconciliation gate has not been evaluated. The system is waiting for manual reconciliation gate evaluation.");
    reveal_with_fuel(lowered_absent_from, 40);
    assert(lowered_absent_from(h, "execute"@, 140));
    assert(lowered_absent_from(h, "run command"@, 140));
    assert(lowered_absent_from(h, "execute"@, 105));
    assert(lowered_absent_from(h, "run command"@, 105));
    assert(lowered_absent_from(h, "execute"@, 70));
    assert(lowered_absent_from(h, "run command"@, 70));
    assert(lowered_absent_from(h, "execute"@, 35));
    assert(lowered_absent_from(h, "run command"@, 35));
    assert(lowered_absent_from(h, "execute"@, 0));
    assert(lowered_absent_from(h, "run command"@, 0));
}

proof fn lemma_lowered_clean_workflow_complete()
    ensures
        lowered_absent_from(explanation_of(WorkflowDetectedLoopState::WorkflowComplete), "execute"@, 0),
        lowered_absent_from(explanation_of(WorkflowDetectedLoopState::WorkflowComplete), "run command"@, 0),
{
    let h = explanation_of(WorkflowDetectedLoopState::WorkflowComplete);
    reveal_strlit("execute");
    reveal_strlit("run command");
    reveal_with_fuel(lowered_match, 12);
    reveal_strlit("The workflow run has completed all stages. No further action is needed.");
    reveal_with_fuel(lowered_absent_from, 40);
    assert(lowered_absent_from(h, "execute"@, 70));
    assert(lowered_absent_from(h, "run command"@, 70));
    assert(lowered_absent_from(h, "execute"@, 35));
    assert(lowered_absent_from(h, "run command"@, 35));
    assert(lowered_absent_from(h, "execute"@, 0));
    assert(lowered_absent_from(h, "run command"@, 0));
}

proof fn lemma_lowered_clean_workflow_blocked()
    ensures
        lowered_absent_from(explanation_of(WorkflowDetectedLoopState::WorkflowBlocked), "execute"@, 0),
        lowered_absent_from(explanation_of(WorkflowDetectedLoopState::WorkflowBlocked), "run command"@, 0),
{
    let h = explanation_of(WorkflowDetectedLoopState::WorkflowBlocked);
    reveal_strlit("execute");
    reveal_strlit("run command");
    reveal_with_fuel(lowered_match, 12);
    reveal_strlit("The workflow run is blocked. An operator must intervene to resolve the blockage.");
    reveal_with_fuel(lowered_absent_from, 40);
    assert(lowered_absent_from(h, "execute"@, 70));
    assert(lowered_absent_from(h, "run command"@, 70));
    assert(lowered_absent_from(h, "execute"@, 35));
    assert(lowered_absent_from(h, "run command"@, 35));
    assert(lowered_absent_from(h, "execute"@, 0));
    assert(lowered_absent_from(h, "run command"@, 0));
}

proof fn lemma_lowered_clean_inconclusive()
    ensures
        lowered_absent_from(explanation_of(WorkflowDetectedLoopState::Inconclusive), "execute"@, 0),
        lowered_absent_from(explanation_of(WorkflowDetectedLoopState::Inconclusive), "run command"@, 0),
{
    let h = explanation_of(WorkflowDetectedLoopState::Inconclusive);
    reveal_strlit("execute");
    reveal_strlit("run command");
    reveal_with_fuel(lowered_match, 12);
    reveal_strlit("The workflow run state cannot be determined from available evidence. Manual inspection may be required.");
    reveal_with_fuel(lowered_absent_from, 40);
    assert(lowered_absent_from(h, "execute"@, 70));
    assert(lowered_absent_from(h, "run command"@, 70));
    assert(lowered_absent_from(h, "execute"@, 35));
    assert(lowered_absent_from(h, "run command"@, 35));
    assert(lowered_absent_from(h, "execute"@, 0));
    assert(lowered_absent_from(h, "run command"@, 0));
}

/// No explanation holds "execute" or "run command" once its ASCII capitals are
/// lowered, checked position by position over each text.
proof fn lemma_explanation_lowered_clean(state: WorkflowDetectedLoopState)
    ensures
        lowered_absent_from(explanation_of(state), "execute"@, 0),
        lowered_absent_from(explanation_of(state), "run command"@, 0),
{
    match state {

        WorkflowDetectedLoopState::NeedsInitialContinuationProposal => lemma_lowered_clean_needs_initial_continuation_proposal(),
        WorkflowDetectedLoopState::NeedsNextActionReview => lemma_lowered_clean_needs_next_action_review(),
        WorkflowDetectedLoopState::NeedsRoutingReadiness => lemma_lowered_clean_needs_routing_readiness(),
        WorkflowDetectedLoopState::NeedsNextActionRouting => lemma_lowered_clean_needs_next_action_routing(),
        WorkflowDetectedLoopState::NeedsSessionRoutingObservation => lemma_lowered_clean_needs_session_routing_observation(),
        WorkflowDetectedLoopState::NeedsApprovalOutcomeResolution => lemma_lowered_clean_needs_approval_outcome_resolution(),
        WorkflowDetectedLoopState::NeedsOutcomeReconciliation => lemma_lowered_clean_needs_outcome_reconciliation(),
        WorkflowDetectedLoopState::NeedsContinuationAfterReconciliation => lemma_lowered_clean_needs_continuation_after_reconciliation(),
        WorkflowDetectedLoopState::NeedsCommandDescriptor => lemma_lowered_clean_needs_command_descriptor(),
        WorkflowDetectedLoopState::NeedsCommandReview => lemma_lowered_clean_needs_command_review(),
        WorkflowDetectedLoopState::NeedsManualResultCapture => lemma_lowered_clean_needs_manual_result_capture(),
        WorkflowDetectedLoopState::NeedsManualResultReview => lemma_lowered_clean_needs_manual_result_review(),
        WorkflowDetectedLoopState::NeedsReconciliationReadiness => lemma_lowered_clean_needs_reconciliation_readiness(),
        WorkflowDetectedLoopState::NeedsManualReconciliation => lemma_lowered_clean_needs_manual_reconciliation(),
        WorkflowDetectedLoopState::WorkflowComplete => lemma_lowered_clean_workflow_complete(),
        WorkflowDetectedLoopState::WorkflowBlocked => lemma_lowered_clean_workflow_blocked(),
        WorkflowDetectedLoopState::Inconclusive => lemma_lowered_clean_inconclusive(),
    }
}

/// Each detected state has an explanation of its own, none of them empty. With
/// ASCII capitals lowered, no explanation speaks of "execute" or "run command":
/// they describe what is awaited and never direct an execution. The command,
/// manual-result capture and manual-result review states name what they wait
/// for.
pub proof fn lemma_explanations_describe_without_directing(
    s1: WorkflowDetectedLoopState,
    s2: WorkflowDetectedLoopState,
)
    ensures
        explanation_of(s1).len() > 0,
        s1 != s2 ==> explanation_of(s1) != explanation_of(s2),
        !has_substring(ascii_lowercase(explanation_of(s1)), "execute"@),
        !has_substring(ascii_lowercase(explanation_of(s1)), "run command"@),
        has_substring(explanation_of(WorkflowDetectedLoopState::NeedsCommandDescriptor), "command"@),
        has_substring(explanation_of(WorkflowDetectedLoopState::NeedsManualResultCapture), "manual result"@),
        has_substring(explanation_of(WorkflowDetectedLoopState::NeedsManualResultReview), "review"@),
{
    reveal_strlit("execute");
    reveal_strlit("run command");
    lemma_explanation_lowered_clean(s1);
    lemma_lowered_absent(explanation_of(s1), "execute"@, 0);
    lemma_lowered_absent(explanation_of(s1), "run command"@, 0);
    assert(explanation_of(s1).len() > 0 && (s1 != s2 ==> explanation_of(s1).len() != explanation_of(s2).len())) by {
    reveal_strlit("The workflow run has been created but no continuation proposal has been recorded yet. The system is waiting for continuation readiness evaluation.");
    reveal_strlit("A next-action proposal exists but has not been reviewed by the operator. The system is waiting for operator review of the proposed next action.");
    reveal_strlit("A next-action review has been accepted but routing readiness has not been evaluated. The system is waiting for routing readiness assessment.");
    reveal_strlit("Routing readiness has been confirmed but the next action has not been routed through the session seam. The system is waiting for action routing.");
    reveal_strlit("The next action has been routed but no session routing observation has been recorded. The system is waiting for the session to process the routed action.");
    reveal_strlit("An approval request has been sent to the session but the outcome has not been resolved. The system is waiting for approval outcome resolution.");
    reveal_strlit("An action outcome has been recorded but has not been reconciled into workflow state. The system is waiting for outcome reconciliation.");
    reveal_strlit("Outcome reconciliation is complete but no continuation readiness has been evaluated for the next loop iteration. The system is waiting for continuation readiness evaluation.");
    reveal_strlit("The loop controller has identified that a command descriptor is needed. The system is waiting for command composition.");
    reveal_strlit("A command has been composed but has not been reviewed by the operator. The system is waiting for operator acknowledgment of the command.");
    reveal_strlit("A command has been reviewed but no manual result has been captured. The system is waiting for the operator to report the manual execution result.");
    reveal_strlit("A manual result has been captured but has not been reviewed. The system is waiting for operator review of the reported result.");
    reveal_strlit("A manual result has been accepted but reconciliation readiness has not been evaluated. The system is waiting for reconciliation readiness assessment.");
    reveal_strlit("Reconciliation readiness has been confirmed but the reconciliation gate has not been evaluated. The system is waiting for manual reconciliation gate evaluation.");
    reveal_strlit("The workflow run has completed all stages. No further action is needed.");
    reveal_strlit("The workflow run is blocked. An operator must intervene to resolve the blockage.");
    reveal_strlit("The workflow run state cannot be determined from available evidence. Manual inspection may be required.");
    }
    let c = explanation_of(WorkflowDetectedLoopState::NeedsCommandDescriptor);
    let m = explanation_of(WorkflowDetectedLoopState::NeedsManualResultCapture);
    let r = explanation_of(WorkflowDetectedLoopState::NeedsManualResultReview);
    reveal_strlit("command");
    reveal_strlit("manual result");
    reveal_strlit("review");
    reveal_strlit("The loop controller has identified that a command descriptor is needed. The system is waiting for command composition.");
    reveal_strlit("A command has been reviewed but no manual result has been captured. The system is waiting for the operator to report the manual execution result.");
    reveal_strlit("A manual result has been captured but has not been reviewed. The system is waiting for operator review of the reported result.");
    assert(c.subrange(42, 49) =~= "command"@);
    assert(occurs_at(c, "command"@, 42));
    assert(m.subrange(35, 48) =~= "manual result"@);
    assert(occurs_at(m, "manual result"@, 35));
    assert(r.subrange(51, 57) =~= "review"@);
    assert(occurs_at(r, "review"@, 51));
}

fn explanation_text(state: &WorkflowDetectedLoopState) -> (s: &'static str)
    ensures
        s@ == explanation_of(*state),
{
    match state {
        WorkflowDetectedLoopState::NeedsInitialContinuationProposal => "The workflow run has been created but no continuation proposal has been recorded yet. The system is waiting for continuation readiness evaluation.",
        WorkflowDetectedLoopState::NeedsNextActionReview => "A next-action proposal exists but has not been reviewed by the operator. The system is waiting for operator review of the proposed next action.",
        WorkflowDetectedLoopState::NeedsRoutingReadiness => "A next-action review has been accepted but routing readiness has not been evaluated. The system is waiting for routing readiness assessment.",
        WorkflowDetectedLoopState::NeedsNextActionRouting => "Routing readiness has been confirmed but the next action has not been routed through the session seam. The system is waiting for action routing.",
        WorkflowDetectedLoopState::NeedsSessionRoutingObservation => "The next action has been routed but no session routing observation has been recorded. The system is waiting for the session to process the routed action.",
        WorkflowDetectedLoopState::NeedsApprovalOutcomeResolution => "An approval request has been sent to the session but the outcome has not been resolved. The system is waiting for approval outcome resolution.",
        WorkflowDetectedLoopState::NeedsOutcomeReconciliation => "An action outcome has been recorded but has not been reconciled into workflow state. The system is waiting for outcome reconciliation.",
        WorkflowDetectedLoopState::NeedsContinuationAfterReconciliation => "Outcome reconciliation is complete but no continuation readiness has been evaluated for the next loop iteration. The system is waiting for continuation readiness evaluation.",
        WorkflowDetectedLoopState::NeedsCommandDescriptor => "The loop controller has identified that a command descriptor is needed. The system is waiting for command composition.",
        WorkflowDetectedLoopState::NeedsCommandReview => "A command has been composed but has not been reviewed by the operator. The system is waiting for operator acknowledgment of the command.",
        WorkflowDetectedLoopState::NeedsManualResultCapture => "A command has been reviewed but no manual result has been captured. The system is waiting for the operator to report the manual execution result.",
        WorkflowDetectedLoopState::NeedsManualResultReview => "A manual result has been captured but has not been reviewed. The system is waiting for operator review of the reported result.",
        WorkflowDetectedLoopState::NeedsReconciliationReadiness => "A manual result has been accepted but reconciliation readiness has not been evaluated. The system is waiting for reconciliation readiness assessment.",
        WorkflowDetectedLoopState::NeedsManualReconciliation => "Reconciliation readiness has been confirmed but the reconciliation gate has not been evaluated. The system is waiting for manual reconciliation gate evaluation.",
        WorkflowDetectedLoopState::WorkflowComplete => "The workflow run has completed all stages. No further action is needed.",
        WorkflowDetectedLoopState::WorkflowBlocked => "The workflow run is blocked. An operator must intervene to resolve the blockage.",
        WorkflowDetectedLoopState::Inconclusive => "The workflow run state cannot be determined from available evidence. Manual inspection may be required.",
    }
}

/// The explanation of a detected state; every one of the states has one.
pub fn detected_state_explanation(state: &WorkflowDetectedLoopState) -> (s: String)
    ensures
        s@ == explanation_of(*state),
{
    String::from_str(explanation_text(state))
}

/// The console claims no authority of any kind.
pub open spec fn console_claims_no_authority(s: WorkflowOperatorConsoleState) -> bool {
    &&& !s.creates_route
    &&& !s.executes_tool
    &&& !s.verifies_external_state
    &&& !s.resolves_approval
    &&& !s.reconciles_outcome
    &&& !s.mutates_workflow_state
    &&& !s.creates_run_revision
    &&& !s.appends_trace
    &&& !s.writes_memory
    &&& !s.certifies_evidence
    &&& !s.promotes_trust
    &&& !s.schedules_verification
}

/// Builds the console state from loop-state observations; `computed_at` is read
/// from the clock. The chain is reported consistent exactly when there is no
/// chain warning.
pub fn build_console_state(
    workflow_execution_id: WorkflowExecutionId,
    run_status: String,
    stages: Vec<ConsoleStageSummary>,
    detected_state: &WorkflowDetectedLoopState,
    recommendation: Option<ConsoleRecommendation>,
    evidence_chain: Vec<ConsoleEvidenceLink>,
    chain_warnings: Vec<ConsoleChainWarning>,
    sections: Vec<ConsoleSectionSummary>,
    attestation_groups: Vec<ConsoleAttestationGroup>,
    verification_readiness_summary: Vec<ConsoleReadinessEligibilitySummary>,
) -> (s: WorkflowOperatorConsoleState)
    ensures
        s.workflow_execution_id == workflow_execution_id,
        s.run_status == run_status,
        s.stages == stages,
        s.detected_state@ == lowercase_of(detected_state.debug_view()),
        s.detected_state_explanation matches Some(e) && e@ == explanation_of(*detected_state),
        s.recommendation == recommendation,
        s.evidence_chain == evidence_chain,
        s.sections == sections,
        s.attestation_groups == attestation_groups,
        s.verification_readiness_summary == verification_readiness_summary,
        s.chain_warnings == chain_warnings,
        s.evidence_chain_consistent == (chain_warnings@.len() == 0),
        s.warnings@.len() == 0,
        console_claims_no_authority(s),
{
    let evidence_chain_consistent = chain_warnings.len() == 0;
    WorkflowOperatorConsoleState {
        workflow_execution_id,
        run_status,
        stages,
        detected_state: to_lowercase(detected_state.debug_name()),
        detected_state_explanation: Some(detected_state_explanation(detected_state)),
        recommendation,
        evidence_chain,
        sections,
        attestation_groups,
        verification_readiness_summary,
        chain_warnings,
        evidence_chain_consistent,
        warnings: Vec::new(),
        computed_at: now_utc(),
        creates_route: false,
        executes_tool: false,
        verifies_external_state: false,
        resolves_approval: false,
        reconciles_outcome: false,
        mutates_workflow_state: false,
        creates_run_revision: false,
        appends_trace: false,
        writes_memory: false,
        certifies_evidence: false,
        promotes_trust: false,
        schedules_verification: false,
    }
}

/// A warning as plain values: link kind, expected id, actual id, reason.
pub open spec fn warning_view(w: ConsoleChainWarning) -> (Seq<char>, Seq<char>, Option<Seq<char>>, Seq<char>) {
    (w.link_kind@, w.expected_id@, opt_view(w.actual_id), w.reason@)
}

/// Warnings as plain values, in order.
pub open spec fn warnings_view(ws: Seq<ConsoleChainWarning>) -> Seq<(Seq<char>, Seq<char>, Option<Seq<char>>, Seq<char>)> {
    ws.map_values(|w: ConsoleChainWarning| warning_view(w))
}

/// A "required record is missing" warning when `failed` holds.
pub open spec fn missing_link_warning(failed: bool, link_kind: Seq<char>, reason: Seq<char>) -> Seq<(Seq<char>, Seq<char>, Option<Seq<char>>, Seq<char>)> {
    if failed {
        seq![(link_kind, "required"@, None, reason)]
    } else {
        Seq::empty()
    }
}

/// The warnings of the manual-result ladder, from the reconciliation gate record down to the command composer:
/// each present record whose predecessor is absent gives one.
pub open spec fn manual_result_chain_warnings(
    command_composer: bool,
    command_review: bool,
    manual_result: bool,
    manual_result_review: bool,
    reconciliation_readiness: bool,
    reconciliation_gate: bool,
) -> Seq<(Seq<char>, Seq<char>, Option<Seq<char>>, Seq<char>)> {
    missing_link_warning(reconciliation_gate && !reconciliation_readiness, "reconciliation_readiness"@,
        "Reconciliation gate exists but no readiness record"@)
        + missing_link_warning(reconciliation_readiness && !manual_result_review, "manual_result_review"@,
        "Reconciliation readiness exists but no manual result review"@)
        + missing_link_warning(manual_result_review && !manual_result, "manual_result"@,
        "Manual result review exists but no manual result"@)
        + missing_link_warning(manual_result && !command_review, "command_review"@,
        "Manual result exists but no command review"@)
        + missing_link_warning(command_review && !command_composer, "command_composer"@,
        "Command review exists but no command composer"@)
}

fn push_warning(out: &mut Vec<ConsoleChainWarning>, w: ConsoleChainWarning)
    ensures
        warnings_view(final(out)@) == warnings_view(old(out)@).push(warning_view(w)),
{
    let ghost before = out@;
    out.push(w);
    assert(warnings_view(out@) =~= warnings_view(before).push(warning_view(w)));
}

fn push_missing_link(out: &mut Vec<ConsoleChainWarning>, failed: bool, link_kind: &str, reason: &str)
    ensures
        warnings_view(final(out)@) == warnings_view(old(out)@) + missing_link_warning(failed, link_kind@, reason@),
{
    if failed {
        push_warning(out, ConsoleChainWarning {
            link_kind: String::from_str(link_kind),
            expected_id: String::from_str("required"),
            actual_id: None,
            reason: String::from_str(reason),
        });
        assert(warnings_view(out@) =~= warnings_view(old(out)@) + missing_link_warning(failed, link_kind@, reason@));
    } else {
        assert(warnings_view(out@) =~= warnings_view(old(out)@) + missing_link_warning(failed, link_kind@, reason@));
    }
}

/// Checks that the manual-result ladder links in order: command composer,
/// command review, manual result, manual result review, reconciliation readiness,
/// reconciliation gate.
pub fn validate_manual_result_chain(
    command_composer_id: Option<&str>,
    command_review_id: Option<&str>,
    manual_result_id: Option<&str>,
    manual_result_review_id: Option<&str>,
    reconciliation_readiness_id: Option<&str>,
    reconciliation_gate_id: Option<&str>,
) -> (warnings: Vec<ConsoleChainWarning>)
    ensures
        warnings_view(warnings@) == manual_result_chain_warnings(
            command_composer_id is Some,
            command_review_id is Some,
            manual_result_id is Some,
            manual_result_review_id is Some,
            reconciliation_readiness_id is Some,
            reconciliation_gate_id is Some,
        ),
{
    let mut warnings: Vec<ConsoleChainWarning> = Vec::new();
    assert(warnings_view(warnings@) =~= Seq::empty());
    push_missing_link(&mut warnings, reconciliation_gate_id.is_some() && reconciliation_readiness_id.is_none(),
        "reconciliation_readiness", "Reconciliation gate exists but no readiness record");
    push_missing_link(&mut warnings, reconciliation_readiness_id.is_some() && manual_result_review_id.is_none(),
        "manual_result_review", "Reconciliation readiness exists but no manual result review");
    push_missing_link(&mut warnings, manual_result_review_id.is_some() && manual_result_id.is_none(),
        "manual_result", "Manual result review exists but no manual result");
    push_missing_link(&mut warnings, manual_result_id.is_some() && command_review_id.is_none(),
        "command_review", "Manual result exists but no command review");
    push_missing_link(&mut warnings, command_review_id.is_some() && command_composer_id.is_none(),
        "command_composer", "Command review exists but no command composer");
    warnings
}

/// The warning for an evidence link whose record id names another run.
pub open spec fn link_warning(l: ConsoleEvidenceLink, expected: Seq<char>) -> Seq<(Seq<char>, Seq<char>, Option<Seq<char>>, Seq<char>)> {
    if has_substring(l.record_id@, "wfx_"@) && !has_substring(l.record_id@, expected) && l.record_id@ != expected {
        seq![(l.link_kind@, expected, Some(l.record_id@),
            "Evidence link "@ + l.record_id@ + " references a different workflow run"@)]
    } else {
        Seq::empty()
    }
}

pub open spec fn link_warnings(ls: Seq<ConsoleEvidenceLink>, expected: Seq<char>) -> Seq<(Seq<char>, Seq<char>, Option<Seq<char>>, Seq<char>)>
    decreases ls.len(),
{
    if ls.len() == 0 {
        Seq::empty()
    } else {
        link_warnings(ls.drop_last(), expected) + link_warning(ls.last(), expected)
    }
}

/// The warning for an attestation row that claims verification.
pub open spec fn row_warning(a: ConsoleAttestationRow) -> Seq<(Seq<char>, Seq<char>, Option<Seq<char>>, Seq<char>)> {
    if a.verified_by_openwand {
        seq![("external_attestation"@, a.attestation_id@, None,
            "Attestation "@ + a.attestation_id@ + " incorrectly claims verification by OpenWand"@)]
    } else {
        Seq::empty()
    }
}

pub open spec fn row_warnings(rows: Seq<ConsoleAttestationRow>) -> Seq<(Seq<char>, Seq<char>, Option<Seq<char>>, Seq<char>)>
    decreases rows.len(),
{
    if rows.len() == 0 {
        Seq::empty()
    } else {
        row_warnings(rows.drop_last()) + row_warning(rows.last())
    }
}

pub open spec fn group_warnings(groups: Seq<ConsoleAttestationGroup>) -> Seq<(Seq<char>, Seq<char>, Option<Seq<char>>, Seq<char>)>
    decreases groups.len(),
{
    if groups.len() == 0 {
        Seq::empty()
    } else {
        group_warnings(groups.drop_last()) + row_warnings(groups.last().attestations@)
    }
}

/// The warning for a readiness summary that is not marked eligibility-only.
pub open spec fn readiness_warning(r: ConsoleReadinessEligibilitySummary) -> Seq<(Seq<char>, Seq<char>, Option<Seq<char>>, Seq<char>)> {
    if !r.is_eligibility_only {
        seq![("verification_readiness"@, r.readiness_id@, None,
            "Readiness "@ + r.readiness_id@ + " incorrectly claims non-eligibility status"@)]
    } else {
        Seq::empty()
    }
}

pub open spec fn readiness_warnings(rs: Seq<ConsoleReadinessEligibilitySummary>) -> Seq<(Seq<char>, Seq<char>, Option<Seq<char>>, Seq<char>)>
    decreases rs.len(),
{
    if rs.len() == 0 {
        Seq::empty()
    } else {
        readiness_warnings(rs.drop_last()) + readiness_warning(rs.last())
    }
}

/// Every linkage warning, links first, then attestations group by group, then
/// readiness summaries.
pub open spec fn linkage_warnings_of(
    links: Seq<ConsoleEvidenceLink>,
    expected: Seq<char>,
    groups: Seq<ConsoleAttestationGroup>,
    readiness: Seq<ConsoleReadinessEligibilitySummary>,
) -> Seq<(Seq<char>, Seq<char>, Option<Seq<char>>, Seq<char>)> {
    link_warnings(links, expected) + group_warnings(groups) + readiness_warnings(readiness)
}

/// Linkage-aware chain validation: links recorded for another run, attestations
/// that claim verification, and readiness summaries that are not eligibility-only.
pub fn validate_linkage_aware_chain(
    links: &[ConsoleEvidenceLink],
    expected_workflow_execution_id: &str,
    attestation_groups: &[ConsoleAttestationGroup],
    readiness_summaries: &[ConsoleReadinessEligibilitySummary],
) -> (warnings: Vec<ConsoleChainWarning>)
    ensures
        warnings_view(warnings@) == linkage_warnings_of(
            links@,
            expected_workflow_execution_id@,
            attestation_groups@,
            readiness_summaries@,
        ),
{
    let ghost expected = expected_workflow_execution_id@;
    let mut warnings: Vec<ConsoleChainWarning> = Vec::new();
    let mut i: usize = 0;
    assert(warnings_view(warnings@) =~= link_warnings(links@.subrange(0, 0), expected));
    while i < links.len()
        invariant
            expected == expected_workflow_execution_id@,
            i <= links.len(),
            warnings_view(warnings@) == link_warnings(links@.subrange(0, i as int), expected),
        decreases links.len() - i,
    {
        let link = &links[i];
        let ghost before = warnings_view(warnings@);
        proof {
            assert(links@.subrange(0, i + 1).drop_last() =~= links@.subrange(0, i as int));
        }
        if str_contains(link.record_id.as_str(), "wfx_")
            && !str_contains(link.record_id.as_str(), expected_workflow_execution_id)
            && !str_eq(link.record_id.as_str(), expected_workflow_execution_id)
        {
            let mut reason = String::from_str("Evidence link ");
            reason.append(link.record_id.as_str());
            reason.append(" references a different workflow run");
            push_warning(&mut warnings, ConsoleChainWarning {
                link_kind: link.link_kind.clone(),
                expected_id: String::from_str(expected_workflow_execution_id),
                actual_id: Some(link.record_id.clone()),
                reason,
            });
        }
        i += 1;
        assert(warnings_view(warnings@) =~= before + link_warning(links@[i - 1], expected));
    }
    assert(links@.subrange(0, links.len() as int) =~= links@);
    let ghost after_links = warnings_view(warnings@);
    let mut g: usize = 0;
    assert(after_links =~= after_links + group_warnings(attestation_groups@.subrange(0, 0)));
    while g < attestation_groups.len()
        invariant
            g <= attestation_groups.len(),
            warnings_view(warnings@) == after_links + group_warnings(attestation_groups@.subrange(0, g as int)),
        decreases attestation_groups.len() - g,
    {
        let rows = &attestation_groups[g].attestations;
        let ghost base = warnings_view(warnings@);
        let mut j: usize = 0;
        assert(base =~= base + row_warnings(rows@.subrange(0, 0)));
        while j < rows.len()
            invariant
                j <= rows.len(),
                warnings_view(warnings@) == base + row_warnings(rows@.subrange(0, j as int)),
            decreases rows.len() - j,
        {
            let att = &rows[j];
            let ghost before = warnings_view(warnings@);
            proof {
                assert(rows@.subrange(0, j + 1).drop_last() =~= rows@.subrange(0, j as int));
            }
            if att.verified_by_openwand {
                let mut reason = String::from_str("Attestation ");
                reason.append(att.attestation_id.as_str());
                reason.append(" incorrectly claims verification by OpenWand");
                push_warning(&mut warnings, ConsoleChainWarning {
                    link_kind: String::from_str("external_attestation"),
                    expected_id: att.attestation_id.clone(),
                    actual_id: None,
                    reason,
                });
            }
            j += 1;
            assert(warnings_view(warnings@) =~= before + row_warning(rows@[j - 1]));
        }
        assert(rows@.subrange(0, rows.len() as int) =~= rows@);
        g += 1;
        proof {
            assert(attestation_groups@.subrange(0, g as int).drop_last() =~= attestation_groups@.subrange(0, g - 1));
            assert(warnings_view(warnings@) =~= after_links + group_warnings(attestation_groups@.subrange(0, g as int)));
        }
    }
    assert(attestation_groups@.subrange(0, attestation_groups.len() as int) =~= attestation_groups@);
    let ghost after_groups = warnings_view(warnings@);
    let mut r: usize = 0;
    assert(after_groups =~= after_groups + readiness_warnings(readiness_summaries@.subrange(0, 0)));
    while r < readiness_summaries.len()
        invariant
            r <= readiness_summaries.len(),
            warnings_view(warnings@) == after_groups + readiness_warnings(readiness_summaries@.subrange(0, r as int)),
        decreases readiness_summaries.len() - r,
    {
        let rs = &readiness_summaries[r];
        let ghost before = warnings_view(warnings@);
        proof {
            assert(readiness_summaries@.subrange(0, r + 1).drop_last() =~= readiness_summaries@.subrange(0, r as int));
        }
        if !rs.is_eligibility_only {
            let mut reason = String::from_str("Readiness ");
            reason.append(rs.readiness_id.as_str());
            reason.append(" incorrectly claims non-eligibility status");
            push_warning(&mut warnings, ConsoleChainWarning {
                link_kind: String::from_str("verification_readiness"),
                expected_id: rs.readiness_id.clone(),
                actual_id: None,
                reason,
            });
        }
        r += 1;
        assert(warnings_view(warnings@) =~= before + readiness_warning(readiness_summaries@[r - 1]));
    }
    assert(readiness_summaries@.subrange(0, readiness_summaries.len() as int) =~= readiness_summaries@);
    warnings
}

/// The manual-result ladder raises no warning exactly when every record that is
/// present has its predecessor present.
pub proof fn lemma_manual_chain_clean_iff_linked(
    command_composer: bool,
    command_review: bool,
    manual_result: bool,
    manual_result_review: bool,
    reconciliation_readiness: bool,
    reconciliation_gate: bool,
)
    ensures
        manual_result_chain_warnings(
            command_composer,
            command_review,
            manual_result,
            manual_result_review,
            reconciliation_readiness,
            reconciliation_gate,
        ).len() == 0 <==> {
            &&& (reconciliation_gate ==> reconciliation_readiness)
            &&& (reconciliation_readiness ==> manual_result_review)
            &&& (manual_result_review ==> manual_result)
            &&& (manual_result ==> command_review)
            &&& (command_review ==> command_composer)
        },
{
}

/// Evidence links recorded for the expected run are never flagged: when every
/// link's record id either contains the expected run id or names no run at all,
/// the links raise no warning.
pub proof fn lemma_links_of_expected_run_not_flagged(ls: Seq<ConsoleEvidenceLink>, expected: Seq<char>)
    requires
        forall|i: int|
            0 <= i < ls.len() ==> has_substring((#[trigger] ls[i]).record_id@, expected) || !has_substring(
                ls[i].record_id@,
                "wfx_"@,
            ),
    ensures
        link_warnings(ls, expected).len() == 0,
    decreases ls.len(),
{
    if ls.len() > 0 {
        assert forall|i: int| 0 <= i < ls.drop_last().len() implies has_substring(
            (#[trigger] ls.drop_last()[i]).record_id@,
            expected,
        ) || !has_substring(ls.drop_last()[i].record_id@, "wfx_"@) by {
            assert(ls.drop_last()[i] == ls[i]);
        }
        lemma_links_of_expected_run_not_flagged(ls.drop_last(), expected);
        assert(ls.last() == ls[ls.len() - 1]);
    }
}

} // verus!
