//! Plan derivation input and evidence-link helpers.
//!
//! All context arrives as text, not as typed records of other components.
use vstd::prelude::*;
use crate::plan::{TaskPlanEvidenceKind, TaskPlanEvidenceLink};

verus! {

/// Input for plan derivation.
#[derive(Debug, Clone)]
pub struct TaskPlanInput {
    pub user_intent: String,
    pub skill_context: Vec<String>,
    pub goal_context: Vec<String>,
    pub memory_summaries: Vec<String>,
    pub trace_summaries: Vec<String>,
    pub governance_summaries: Vec<String>,
    pub policy_constraints: Vec<String>,
}

/// Creates an evidence link of the given kind.
pub fn evidence_link(kind: TaskPlanEvidenceKind, id: &str, summary: &str) -> (link: TaskPlanEvidenceLink)
    ensures
        link.kind == kind,
        link.id@ == id@,
        link.summary@ == summary@,
{
    TaskPlanEvidenceLink { kind, id: String::from_str(id), summary: String::from_str(summary) }
}

/// Creates a goal evidence link.
pub fn goal_evidence(goal_id: &str, summary: &str) -> (link: TaskPlanEvidenceLink)
    ensures
        link.kind == TaskPlanEvidenceKind::Goal,
        link.id@ == goal_id@,
        link.summary@ == summary@,
{
    evidence_link(TaskPlanEvidenceKind::Goal, goal_id, summary)
}

/// Creates a skill evidence link.
pub fn skill_evidence(skill_id: &str, summary: &str) -> (link: TaskPlanEvidenceLink)
    ensures
        link.kind == TaskPlanEvidenceKind::Skill,
        link.id@ == skill_id@,
        link.summary@ == summary@,
{
    evidence_link(TaskPlanEvidenceKind::Skill, skill_id, summary)
}

/// Creates the user-intent evidence link; its id is always `user_intent`.
pub fn user_intent_evidence(summary: &str) -> (link: TaskPlanEvidenceLink)
    ensures
        link.kind == TaskPlanEvidenceKind::UserIntent,
        link.id@ == "user_intent"@,
        link.summary@ == summary@,
{
    evidence_link(TaskPlanEvidenceKind::UserIntent, "user_intent", summary)
}

} // verus!
