//! Human reviews of next-action proposals.
//!
//! A review is a decision, not a route: it creates no route, execution grant,
//! session turn, approval request, tool call, trace event or workflow change.
use vstd::prelude::*;
use crate::ids::{text_digest_id, text_id};
use crate::outside::Timestamp;
use crate::workflow_continuation::WorkflowNextActionProposalId;
use crate::workflow_reconciliation::WorkflowRunRevisionId;

verus! {

/// Content-addressed review id (`wnar_` prefix).
#[derive(Debug, Clone, PartialEq, Eq, Hash)]
pub struct WorkflowNextActionReviewId(pub String);

/// Human review decision on a next-action proposal.
#[derive(Debug, Clone)]
pub struct WorkflowNextActionReview {
    pub review_id: WorkflowNextActionReviewId,
    pub proposal_id: WorkflowNextActionProposalId,
    pub proposal_hash: String,
    pub source_run_revision_id: WorkflowRunRevisionId,
    pub source_run_revision_hash: String,
    pub decision: WorkflowNextActionReviewDecision,
    pub reviewer: String,
    pub rationale: String,
    pub feedback: Option<WorkflowNextActionFeedback>,
    /// Always false: reviews never create routes.
    pub creates_route: bool,
    /// Always false: reviews never route actions.
    pub routes_action_now: bool,
    /// Always false: reviews never execute tools.
    pub executes_tool_now: bool,
    /// Always false: reviews never change workflow state.
    pub mutates_workflow_state_now: bool,
    pub reviewed_at: Timestamp,
}

/// Review decision.
#[derive(Debug, Clone, Copy, PartialEq, Eq, Structural)]
pub enum WorkflowNextActionReviewDecision {
    Approved,
    Rejected,
    ChangesRequested,
}

impl WorkflowNextActionReviewDecision {
    /// The `Debug` name of the decision.
    pub open spec fn debug_view(self) -> Seq<char> {
        match self {
            WorkflowNextActionReviewDecision::Approved => "Approved"@,
            WorkflowNextActionReviewDecision::Rejected => "Rejected"@,
            WorkflowNextActionReviewDecision::ChangesRequested => "ChangesRequested"@,
        }
    }

    pub fn debug_name(&self) -> (s: &'static str)
        ensures
            s@ == self.debug_view(),
    {
        match self {
            WorkflowNextActionReviewDecision::Approved => "Approved",
            WorkflowNextActionReviewDecision::Rejected => "Rejected",
            WorkflowNextActionReviewDecision::ChangesRequested => "ChangesRequested",
        }
    }
}

/// Structured feedback for a rejection or a change request.
#[derive(Debug, Clone)]
pub struct WorkflowNextActionFeedback {
    pub summary: String,
    pub blocking_reasons: Vec<String>,
    pub requested_changes: Vec<String>,
    pub evidence_gaps: Vec<String>,
}

/// The text hashed into a review hash.
pub open spec fn review_preimage(
    proposal_id: Seq<char>,
    decision: WorkflowNextActionReviewDecision,
    reviewer: Seq<char>,
) -> Seq<char> {
    "review:v1:"@ + proposal_id + ":"@ + decision.debug_view() + ":"@ + reviewer
}

/// Content-addressed review hash (64 hex digits) for linkage checks.
pub fn review_hash_for(proposal_id: &str, decision: &WorkflowNextActionReviewDecision, reviewer: &str) -> (h: String)
    ensures
        h@ == text_id(Seq::empty(), review_preimage(proposal_id@, *decision, reviewer@)),
{
    let mut pre = String::from_str("review:v1:");
    pre.append(proposal_id);
    pre.append(":");
    pre.append(decision.debug_name());
    pre.append(":");
    pre.append(reviewer);
    let h = text_digest_id("", pre.as_str());
    proof {
        reveal_strlit("");
        assert(""@ =~= Seq::<char>::empty());
    }
    h
}

/// The first rule a review breaks, if any.
pub open spec fn review_error(
    reviewer: Seq<char>,
    rationale: Seq<char>,
    decision: WorkflowNextActionReviewDecision,
    feedback: Option<&WorkflowNextActionFeedback>,
) -> Option<Seq<char>> {
    if reviewer.len() == 0 {
        Some("review author is required"@)
    } else if rationale.len() == 0 {
        Some("rationale is required"@)
    } else if decision == WorkflowNextActionReviewDecision::Rejected && !(feedback matches Some(f)
        && f.blocking_reasons@.len() > 0) {
        Some("rejection requires feedback.blocking_reasons"@)
    } else if decision == WorkflowNextActionReviewDecision::ChangesRequested && !(feedback matches Some(f)
        && f.requested_changes@.len() > 0) {
        Some("changes requested requires feedback.requested_changes"@)
    } else {
        None
    }
}

/// Checks a review: an author and a rationale are required, a rejection needs
/// blocking reasons and a change request needs requested changes.
pub fn validate_review(
    reviewer: &str,
    rationale: &str,
    decision: &WorkflowNextActionReviewDecision,
    feedback: Option<&WorkflowNextActionFeedback>,
) -> (r: Result<(), String>)
    ensures
        r is Ok <==> review_error(reviewer@, rationale@, *decision, feedback) is None,
        r matches Err(e) ==> review_error(reviewer@, rationale@, *decision, feedback) == Some(e@),
{
    if reviewer.is_empty() {
        return Err(String::from_str("review author is required"));
    }
    if rationale.is_empty() {
        return Err(String::from_str("rationale is required"));
    }
    match decision {
        WorkflowNextActionReviewDecision::Rejected => {
            let ok = match feedback {
                Some(f) => f.blocking_reasons.len() > 0,
                None => false,
            };
            if !ok {
                return Err(String::from_str("rejection requires feedback.blocking_reasons"));
            }
        },
        WorkflowNextActionReviewDecision::ChangesRequested => {
            let ok = match feedback {
                Some(f) => f.requested_changes.len() > 0,
                None => false,
            };
            if !ok {
                return Err(String::from_str("changes requested requires feedback.requested_changes"));
            }
        },
        WorkflowNextActionReviewDecision::Approved => {},
    }
    Ok(())
}

} // verus!
