//! Workflow proposal identifiers, stage kinds and capability screening.
use vstd::prelude::*;
use crate::text::{has_substring, lowercase_of, str_contains, str_eq, to_lowercase};
use crate::outside::Timestamp;
use crate::plan::TaskPlanId;

verus! {

/// Content-addressed workflow proposal id.
#[derive(Debug, Clone, PartialEq, Eq, Hash)]
pub struct WorkflowProposalId(pub String);

/// What kind of work a workflow stage describes.
#[derive(Debug, Clone, Copy, PartialEq, Eq, Structural)]
pub enum WorkflowStageKind {
    Analyze,
    PrepareChange,
    ApplyChange,
    Verify,
    Report,
}

/// A descriptive tool intent of a stage: a capability, never a tool call.
#[derive(Debug, Clone)]
pub struct WorkflowToolIntent {
    pub intent_id: String,
    pub capability: String,
}

/// One proposed stage of a workflow.
#[derive(Debug, Clone)]
pub struct WorkflowStageProposal {
    pub stage_id: String,
    pub title: String,
    pub kind: WorkflowStageKind,
    pub order: u32,
    pub depends_on: Vec<String>,
    pub tool_intents: Vec<WorkflowToolIntent>,
    pub requires_approval_before_execution: bool,
}

/// A note on how to abort or roll back the workflow.
#[derive(Debug, Clone)]
pub struct WorkflowAbortRollbackNote {
    pub summary: String,
}

/// A workflow proposed from a reviewed task plan.
#[derive(Debug, Clone)]
pub struct WorkflowProposal {
    pub proposal_id: WorkflowProposalId,
    pub source_task_plan_id: TaskPlanId,
    pub source_task_plan_hash: String,
    pub stages: Vec<WorkflowStageProposal>,
    pub required_approvals: Vec<String>,
    pub risks: Vec<String>,
    pub abort_rollback_notes: Vec<WorkflowAbortRollbackNote>,
    pub proposal_hash: String,
    pub created_at: Timestamp,
}

/// Tool names that a capability may never name: these are registered tools,
/// not descriptive capability categories.
pub open spec fn forbidden_tool_names() -> Seq<Seq<char>> {
    seq![
        "shell"@,
        "bash"@,
        "sh"@,
        "git"@,
        "exec"@,
        "command"@,
        "terminal"@,
        "local__shell"@,
        "local__git"@,
    ]
}

pub fn forbidden_tool_name_list() -> (v: Vec<&'static str>)
    ensures
        v@.map_values(|s: &str| s@) == forbidden_tool_names(),
{
    let v = vec!["shell", "bash", "sh", "git", "exec", "command", "terminal", "local__shell", "local__git"];
    assert(v@.map_values(|s: &str| s@) =~= forbidden_tool_names());
    v
}

/// Fragments that mark a capability as an executable instruction.
pub open spec fn executable_patterns() -> Seq<Seq<char>> {
    seq!["git "@, "shell "@, "sudo "@, "rm -"@, "&&"@, "||"@, ";"@, "$("@, "`"@]
}

fn executable_pattern_list() -> (v: Vec<&'static str>)
    ensures
        v@.map_values(|s: &str| s@) == executable_patterns(),
{
    let v = vec!["git ", "shell ", "sudo ", "rm -", "&&", "||", ";", "$(", "`"];
    assert(v@.map_values(|s: &str| s@) =~= executable_patterns());
    v
}

/// Why a capability is not a descriptive category, if it is not.
pub open spec fn capability_rejection(capability: Seq<char>) -> Option<Seq<char>> {
    let lower = lowercase_of(capability);
    if forbidden_tool_names().contains(lower) {
        Some("capability '"@ + capability + "' is a registered tool name"@)
    } else if exists|k: int|
        0 <= k < executable_patterns().len() && #[trigger] has_substring(
            lower,
            executable_patterns()[k],
        ) {
        Some("capability '"@ + capability + "' contains an executable pattern"@)
    } else {
        None
    }
}

/// Checks that a capability is descriptive: not a registered tool name and free
/// of shell or git instruction fragments (compared in lowercase).
pub fn is_valid_capability_category(capability: &str) -> (r: Result<(), String>)
    ensures
        r is Ok <==> capability_rejection(capability@) is None,
        r matches Err(e) ==> Some(e@) == capability_rejection(capability@),
{
    let lower = to_lowercase(capability);
    let names = forbidden_tool_name_list();
    let mut i: usize = 0;
    while i < names.len()
        invariant
            names@.map_values(|s: &str| s@) == forbidden_tool_names(),
            lower@ == lowercase_of(capability@),
            i <= names.len(),
            forall|k: int| 0 <= k < i ==> forbidden_tool_names()[k] != lower@,
        decreases names.len() - i,
    {
        assert(names@.map_values(|s: &str| s@)[i as int] == names@[i as int]@);
        if str_eq(lower.as_str(), names[i]) {
            let mut e = String::from_str("capability '");
            e.append(capability);
            e.append("' is a registered tool name");
            assert(forbidden_tool_names()[i as int] == lower@);
            assert(forbidden_tool_names().contains(lower@));
            return Err(e);
        }
        i += 1;
    }
    assert(!forbidden_tool_names().contains(lower@));
    let pats = executable_pattern_list();
    let mut j: usize = 0;
    while j < pats.len()
        invariant
            pats@.map_values(|s: &str| s@) == executable_patterns(),
            lower@ == lowercase_of(capability@),
            !forbidden_tool_names().contains(lower@),
            j <= pats.len(),
            forall|k: int| 0 <= k < j ==> !#[trigger] has_substring(lower@, executable_patterns()[k]),
        decreases pats.len() - j,
    {
        assert(pats@.map_values(|s: &str| s@)[j as int] == pats@[j as int]@);
        if str_contains(lower.as_str(), pats[j]) {
            let mut e = String::from_str("capability '");
            e.append(capability);
            e.append("' contains an executable pattern");
            assert(has_substring(lower@, executable_patterns()[j as int]));
            return Err(e);
        }
        j += 1;
    }
    Ok(())
}

} // verus!
