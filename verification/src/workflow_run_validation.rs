//! Content addressing of workflow runs.
use vstd::prelude::*;
use crate::ids::{text_digest_id16, text_id16};
use crate::text::{decimal, push_decimal};
use crate::workflow_run::WorkflowExecutionId;

verus! {

/// The text hashed into a workflow execution id.
pub open spec fn execution_preimage(readiness_id: Seq<char>, proposal_id: Seq<char>, key: Seq<char>, n: nat) -> Seq<char> {
    "workflow_execution:v1:"@ + readiness_id + ":"@ + proposal_id + ":"@ + key + ":"@ + decimal(n)
}

/// Content-addressed workflow execution id (`wfx_` and 16 hex digits) from the
/// readiness, the proposal, the idempotency key and the number of predicates.
pub fn workflow_execution_id_for(
    readiness_id: &str,
    proposal_id: &str,
    idempotency_key: &str,
    predicate_count: usize,
) -> (id: WorkflowExecutionId)
    ensures
        id.0@.len() == 20,
        id.0@ == text_id16("wfx_"@, execution_preimage(readiness_id@, proposal_id@, idempotency_key@, predicate_count as nat)),
{
    proof {
        reveal_strlit("wfx_");
    }
    let mut pre = String::from_str("workflow_execution:v1:");
    pre.append(readiness_id);
    pre.append(":");
    pre.append(proposal_id);
    pre.append(":");
    pre.append(idempotency_key);
    pre.append(":");
    push_decimal(&mut pre, predicate_count);
    WorkflowExecutionId(text_digest_id16("wfx_", pre.as_str()))
}

} // verus!
