//! Command descriptors: structured display data for the operator. A descriptor
//! is not an argv, a shell line, an environment or a process.
use vstd::prelude::*;
use crate::workflow_manual_operation::{WorkflowCommandEvidenceLink, WorkflowCommandMissingInput, WorkflowManualCommandArgument, WorkflowManualCommandKind};

verus! {

#[derive(Debug, Clone)]
pub struct WorkflowManualCommandDescriptor {
    pub command_kind: WorkflowManualCommandKind,
    /// Display text for the operator. Not parsed, not executed.
    pub display_command: String,
    pub arguments: Vec<WorkflowManualCommandArgument>,
    pub missing_inputs: Vec<WorkflowCommandMissingInput>,
    pub safety_warnings: Vec<String>,
    pub evidence_links: Vec<WorkflowCommandEvidenceLink>,
    /// Convenience text for operator copy. Not parsed, not executed.
    pub copyable_text: String,
    /// Always true — this is display data, not a command.
    pub display_only: bool,
    /// Always false — this cannot be executed.
    pub executable: bool,
}

} // verus!
