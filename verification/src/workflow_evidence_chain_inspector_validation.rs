//! Validation of evidence chain inspection requests, and the inspection id type.
use vstd::prelude::*;
use crate::text::{has_prefix, str_starts_with, views};
use crate::workflow_evidence_chain_inspector::{compute_inspection_id, inspection_id_of};

verus! {

/// Content-addressed inspection ID. Format: `weci_<blake3_hex>`.
#[derive(Debug, Clone, PartialEq, Eq, Hash)]
pub struct WorkflowEvidenceChainInspectionId(pub String);

impl WorkflowEvidenceChainInspectionId {
    pub fn as_str(&self) -> (s: &str)
        ensures
            s@ == self.0@,
    {
        self.0.as_str()
    }
}

/// The error an inspection request is refused with, if any.
pub open spec fn inspection_request_error(workflow_execution_id: Seq<char>) -> Option<Seq<char>> {
    if workflow_execution_id.len() == 0 {
        Some("workflow_execution_id must not be empty"@)
    } else if !has_prefix(workflow_execution_id, "wfx_"@) {
        Some("workflow_execution_id must start with wfx_: got "@ + workflow_execution_id)
    } else {
        None
    }
}

/// Validates an inspection request: the run id must be present and be a run id.
pub fn validate_inspection_request(workflow_execution_id: &str) -> (r: Result<(), String>)
    ensures
        match r {
            Ok(()) => inspection_request_error(workflow_execution_id@) is None,
            Err(e) => inspection_request_error(workflow_execution_id@) == Some(e@),
        },
{
    if workflow_execution_id.is_empty() {
        return Err(String::from_str("workflow_execution_id must not be empty"));
    }
    if !str_starts_with(workflow_execution_id, "wfx_") {
        let mut e = String::from_str("workflow_execution_id must start with wfx_: got ");
        e.append(workflow_execution_id);
        return Err(e);
    }
    Ok(())
}

/// Builds the inspection ID from the request parameters.
pub fn build_inspection_id(
    workflow_execution_id: &str,
    chain_hash: &str,
    link_ids: &[String],
    packet_mode: bool,
) -> (id: WorkflowEvidenceChainInspectionId)
    ensures
        id.0@ == inspection_id_of(workflow_execution_id@, chain_hash@, views(link_ids@), packet_mode),
        id.0@.len() == 21,
{
    WorkflowEvidenceChainInspectionId(compute_inspection_id(workflow_execution_id, chain_hash, link_ids, packet_mode))
}

} // verus!
