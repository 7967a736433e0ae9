//! Content addressing and request checks for continuations.
use vstd::prelude::*;
use crate::ids::{text_digest_id, text_digest_id16, text_id, text_id16};
use crate::text::opt_view;
use crate::workflow_continuation::{WorkflowContinuationReadinessId, WorkflowNextActionProposalId};

verus! {

/// The text hashed into a continuation readiness id.
pub open spec fn readiness_preimage(execution_id: Seq<char>, revision_id: Seq<char>, key: Seq<char>) -> Seq<char> {
    "continuation_readiness:v1:"@ + execution_id + ":"@ + revision_id + ":"@ + key
}

/// The text hashed into a next-action proposal id.
pub open spec fn proposal_preimage(execution_id: Seq<char>, revision_id: Seq<char>, stage_id: Seq<char>) -> Seq<char> {
    "next_action_proposal:v1:"@ + execution_id + ":"@ + revision_id + ":"@ + stage_id
}

/// The text hashed into a proposal hash; an absent action request adds nothing.
pub open spec fn proposal_hash_preimage(
    execution_id: Seq<char>,
    revision_id: Seq<char>,
    stage_id: Seq<char>,
    action_request_id: Option<Seq<char>>,
) -> Seq<char> {
    "proposal_hash:v1:"@ + execution_id + ":"@ + revision_id + ":"@ + stage_id + ":"@ + match action_request_id {
        Some(a) => a,
        None => Seq::empty(),
    }
}

/// Content-addressed readiness id from the request inputs.
pub fn continuation_readiness_id_for(
    workflow_execution_id: &str,
    run_revision_id: &str,
    idempotency_key: &str,
) -> (id: WorkflowContinuationReadinessId)
    ensures
        id.0@.len() == 20,
        id.0@ == text_id16(
            "wcr_"@,
            readiness_preimage(workflow_execution_id@, run_revision_id@, idempotency_key@),
        ),
{
    proof {
        reveal_strlit("wcr_");
    }
    let mut pre = String::from_str("continuation_readiness:v1:");
    pre.append(workflow_execution_id);
    pre.append(":");
    pre.append(run_revision_id);
    pre.append(":");
    pre.append(idempotency_key);
    WorkflowContinuationReadinessId(text_digest_id16("wcr_", pre.as_str()))
}

/// Content-addressed proposal id from the proposal inputs.
pub fn next_action_proposal_id_for(
    workflow_execution_id: &str,
    run_revision_id: &str,
    stage_id: &str,
) -> (id: WorkflowNextActionProposalId)
    ensures
        id.0@.len() == 21,
        id.0@ == text_id16("wnap_"@, proposal_preimage(workflow_execution_id@, run_revision_id@, stage_id@)),
{
    proof {
        reveal_strlit("wnap_");
    }
    let mut pre = String::from_str("next_action_proposal:v1:");
    pre.append(workflow_execution_id);
    pre.append(":");
    pre.append(run_revision_id);
    pre.append(":");
    pre.append(stage_id);
    WorkflowNextActionProposalId(text_digest_id16("wnap_", pre.as_str()))
}

/// Proposal hash (64 hex digits) from the candidate's identity.
pub fn proposal_hash_for(
    workflow_execution_id: &str,
    run_revision_id: &str,
    stage_id: &str,
    action_request_id: Option<&str>,
) -> (h: String)
    ensures
        h@ == text_id(
            Seq::empty(),
            proposal_hash_preimage(
                workflow_execution_id@,
                run_revision_id@,
                stage_id@,
                match action_request_id {
                    Some(a) => Some(a@),
                    None => None,
                },
            ),
        ),
{
    let mut pre = String::from_str("proposal_hash:v1:");
    pre.append(workflow_execution_id);
    pre.append(":");
    pre.append(run_revision_id);
    pre.append(":");
    pre.append(stage_id);
    pre.append(":");
    match action_request_id {
        Some(a) => pre.append(a),
        None => {},
    }
    let h = text_digest_id("", pre.as_str());
    proof {
        reveal_strlit("");
        assert(""@ =~= Seq::<char>::empty());
    }
    h
}

/// A continuation request needs the expected run revision hash.
pub fn validate_continuation_request(expected_hash: &str) -> (r: Result<(), String>)
    ensures
        r is Ok <==> expected_hash@.len() > 0,
        r matches Err(e) ==> e@ == "expected_run_revision_hash is required"@,
{
    if expected_hash.is_empty() {
        return Err(String::from_str("expected_run_revision_hash is required"));
    }
    Ok(())
}

} // verus!
