//! Validation of action outcome records.
use vstd::prelude::*;
use crate::ids::{text_digest_id, text_id};
use crate::text::{is_blank, str_is_blank};
use crate::workflow_action_outcome::{WorkflowActionOutcomeId, WorkflowApprovalResolution};

verus! {

/// The text hashed into an outcome id.
pub open spec fn outcome_preimage(
    execution_id: Seq<char>,
    route_id: Seq<char>,
    pending_approval_id: Seq<char>,
    idempotency_key: Seq<char>,
) -> Seq<char> {
    execution_id + ":"@ + route_id + ":"@ + pending_approval_id + ":"@ + idempotency_key
}

/// Generates the content-addressed outcome id.
pub fn action_outcome_id_for(
    execution_id: &str,
    route_id: &str,
    pending_approval_id: &str,
    idempotency_key: &str,
) -> (id: WorkflowActionOutcomeId)
    ensures
        id.0@.len() == 68,
        id.0@ == text_id(
            "wao_"@,
            outcome_preimage(execution_id@, route_id@, pending_approval_id@, idempotency_key@),
        ),
{
    proof {
        reveal_strlit("wao_");
    }
    let mut pre = String::from_str(execution_id);
    pre.append(":");
    pre.append(route_id);
    pre.append(":");
    pre.append(pending_approval_id);
    pre.append(":");
    pre.append(idempotency_key);
    WorkflowActionOutcomeId(text_digest_id("wao_", pre.as_str()))
}

/// Checks that an approval resolution carries a non-blank rationale.
pub fn validate_resolution_rationale(resolution: &WorkflowApprovalResolution) -> (r: Result<(), String>)
    ensures
        r is Ok <==> !is_blank(resolution.rationale_view()),
        r matches Err(e) ==> e@ == "Approval resolution requires non-empty rationale"@,
{
    let rationale = match resolution {
        WorkflowApprovalResolution::Approve { rationale } => rationale,
        WorkflowApprovalResolution::Reject { rationale } => rationale,
    };
    if str_is_blank(rationale.as_str()) {
        return Err(String::from_str("Approval resolution requires non-empty rationale"));
    }
    Ok(())
}

} // verus!
