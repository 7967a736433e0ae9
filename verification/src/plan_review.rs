//! Plan review records.
//!
//! A review is evidence, not an execution grant: `creates_execution_grant` and
//! `execution_allowed_now` are always false on a valid review.
use vstd::prelude::*;
use crate::ids::{text_digest_id, text_id};
use crate::outside::Timestamp;
use crate::plan::TaskPlanId;

verus! {

/// Content-addressed review id: `tpr_` followed by a BLAKE3 hex digest.
#[derive(Debug, Clone, PartialEq, Eq, Hash)]
pub struct TaskPlanReviewId(pub String);

impl TaskPlanReviewId {
    pub fn as_str(&self) -> (s: &str)
        ensures
            s@ == self.0@,
    {
        self.0.as_str()
    }
}

/// A human review of a task plan.
#[derive(Debug, Clone)]
pub struct TaskPlanReview {
    pub review_id: TaskPlanReviewId,
    pub plan_id: TaskPlanId,
    pub plan_hash: String,
    pub decision: TaskPlanReviewDecision,
    pub reviewer: String,
    pub rationale: String,
    pub feedback: Option<TaskPlanFeedback>,
    /// Always false: a review is evidence, not an execution grant.
    pub creates_execution_grant: bool,
    /// Always false: approval does not authorize execution now.
    pub execution_allowed_now: bool,
    pub reviewed_at: Timestamp,
}

/// Review decision.
#[derive(Debug, Clone, Copy, PartialEq, Eq, Structural)]
pub enum TaskPlanReviewDecision {
    Approved,
    Rejected,
    ChangesRequested,
}

impl TaskPlanReviewDecision {
    /// The JSON text of the decision: its snake_case name in double quotes.
    pub open spec fn json_view(self) -> Seq<char> {
        match self {
            TaskPlanReviewDecision::Approved => "\"approved\""@,
            TaskPlanReviewDecision::Rejected => "\"rejected\""@,
            TaskPlanReviewDecision::ChangesRequested => "\"changes_requested\""@,
        }
    }

    pub fn json_text(&self) -> (s: &'static str)
        ensures
            s@ == self.json_view(),
    {
        match self {
            TaskPlanReviewDecision::Approved => "\"approved\"",
            TaskPlanReviewDecision::Rejected => "\"rejected\"",
            TaskPlanReviewDecision::ChangesRequested => "\"changes_requested\"",
        }
    }
}

/// Structured feedback on a plan.
#[derive(Debug, Clone)]
pub struct TaskPlanFeedback {
    pub summary: String,
    pub blocking_reasons: Vec<String>,
    pub requested_changes: Vec<String>,
    pub evidence_gaps: Vec<String>,
}

/// The text whose digest names a review: plan id, decision JSON and rationale.
pub open spec fn task_review_preimage(
    plan_id: Seq<char>,
    decision: TaskPlanReviewDecision,
    rationale: Seq<char>,
) -> Seq<char> {
    plan_id + decision.json_view() + rationale
}

/// Computes the content-addressed review id.
pub fn task_review_id_for(
    plan_id: &TaskPlanId,
    decision: &TaskPlanReviewDecision,
    rationale: &str,
) -> (id: TaskPlanReviewId)
    ensures
        id.0@.len() == 68,
        id.0@ == text_id("tpr_"@, task_review_preimage(plan_id.0@, *decision, rationale@)),
{
    proof {
        reveal_strlit("tpr_");
    }
    let mut text = plan_id.0.clone();
    text.append(decision.json_text());
    text.append(rationale);
    TaskPlanReviewId(text_digest_id("tpr_", text.as_str()))
}

} // verus!
