//! Task plan records.
//!
//! A plan describes intended work. It carries no executable field: no command,
//! shell, tool name, tool arguments, script, working directory, environment,
//! function reference, workflow handle or execution grant.
use vstd::prelude::*;
use crate::outside::Timestamp;

verus! {

/// Content-addressed plan id: `tpl_` followed by a BLAKE3 hex digest.
#[derive(Debug, Clone, PartialEq, Eq, Hash)]
pub struct TaskPlanId(pub String);

impl TaskPlanId {
    pub fn as_str(&self) -> (s: &str)
        ensures
            s@ == self.0@,
    {
        self.0.as_str()
    }
}

/// A non-executing task plan.
#[derive(Debug, Clone)]
pub struct TaskPlan {
    pub plan_id: TaskPlanId,
    pub title: String,
    pub user_intent: String,
    pub status: TaskPlanStatus,
    pub steps: Vec<TaskPlanStep>,
    pub assumptions: Vec<TaskPlanAssumption>,
    pub risks: Vec<TaskPlanRisk>,
    pub required_approvals: Vec<TaskPlanApprovalRequirement>,
    pub evidence_links: Vec<TaskPlanEvidenceLink>,
    pub skill_context_ids: Vec<String>,
    pub goal_context_ids: Vec<String>,
    pub policy_constraints: Vec<String>,
    pub plan_hash: String,
    pub created_at: Timestamp,
}

/// Plan lifecycle status.
#[derive(Debug, Clone, Copy, PartialEq, Eq, Structural)]
pub enum TaskPlanStatus {
    Draft,
    Reviewable,
    Blocked,
    Superseded,
}

/// One step of a task plan.
#[derive(Debug, Clone)]
pub struct TaskPlanStep {
    pub step_id: String,
    pub title: String,
    pub description: String,
    pub kind: TaskPlanStepKind,
    pub depends_on: Vec<String>,
    pub expected_output: String,
    pub risk_level: String,
    pub requires_approval: bool,
    pub evidence_links: Vec<TaskPlanEvidenceLink>,
}

/// What kind of work a step describes. None of these runs a tool.
#[derive(Debug, Clone, Copy, PartialEq, Eq, Structural)]
pub enum TaskPlanStepKind {
    Observe,
    Analyze,
    ProposeChange,
    RequestApproval,
    Verify,
    Report,
}

impl TaskPlanStepKind {
    /// The JSON text of the kind: its snake_case name in double quotes.
    pub open spec fn json_view(self) -> Seq<char> {
        match self {
            TaskPlanStepKind::Observe => "\"observe\""@,
            TaskPlanStepKind::Analyze => "\"analyze\""@,
            TaskPlanStepKind::ProposeChange => "\"propose_change\""@,
            TaskPlanStepKind::RequestApproval => "\"request_approval\""@,
            TaskPlanStepKind::Verify => "\"verify\""@,
            TaskPlanStepKind::Report => "\"report\""@,
        }
    }

    pub fn json_text(&self) -> (s: &'static str)
        ensures
            s@ == self.json_view(),
    {
        match self {
            TaskPlanStepKind::Observe => "\"observe\"",
            TaskPlanStepKind::Analyze => "\"analyze\"",
            TaskPlanStepKind::ProposeChange => "\"propose_change\"",
            TaskPlanStepKind::RequestApproval => "\"request_approval\"",
            TaskPlanStepKind::Verify => "\"verify\"",
            TaskPlanStepKind::Report => "\"report\"",
        }
    }
}

/// An assumption the plan makes.
#[derive(Debug, Clone)]
pub struct TaskPlanAssumption {
    pub text: String,
    pub evidence_links: Vec<TaskPlanEvidenceLink>,
}

/// A risk named by the plan.
#[derive(Debug, Clone)]
pub struct TaskPlanRisk {
    pub risk_level: String,
    pub summary: String,
    pub mitigation: String,
}

/// A human approval required before a step may proceed.
#[derive(Debug, Clone)]
pub struct TaskPlanApprovalRequirement {
    pub step_id: String,
    pub reason: String,
    pub required_before: String,
}

/// A link to evidence that informed the plan.
#[derive(Debug, Clone)]
pub struct TaskPlanEvidenceLink {
    pub kind: TaskPlanEvidenceKind,
    pub id: String,
    pub summary: String,
}

impl TaskPlanEvidenceLink {
    /// The link as plain values: its kind, id text and summary text.
    pub open spec fn view_parts(self) -> (TaskPlanEvidenceKind, Seq<char>, Seq<char>) {
        (self.kind, self.id@, self.summary@)
    }
}

/// The links of a vector as plain values.
pub open spec fn link_views(v: Seq<TaskPlanEvidenceLink>) -> Seq<(TaskPlanEvidenceKind, Seq<char>, Seq<char>)> {
    v.map_values(|l: TaskPlanEvidenceLink| l.view_parts())
}

/// What kind of evidence a link references.
#[derive(Debug, Clone, Copy, PartialEq, Eq, Structural)]
pub enum TaskPlanEvidenceKind {
    Goal,
    Skill,
    TraceEvent,
    MemoryClaim,
    GovernanceRecord,
    UserIntent,
}

} // verus!
