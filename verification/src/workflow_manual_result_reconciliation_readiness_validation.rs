//! Request checks and content addressing for reconciliation readiness.
use vstd::prelude::*;
use crate::ids::{text_digest_id16, text_id16};
use crate::workflow_manual_result_reconciliation_gate_validation::{push_required_error, required_error, views_of};

verus! {

/// The text hashed into a reconciliation readiness id.
pub open spec fn readiness_preimage(
    workflow_execution_id: Seq<char>,
    manual_result_id: Seq<char>,
    manual_result_review_id: Seq<char>,
    idempotency_key: Seq<char>,
) -> Seq<char> {
    "reconciliation_readiness:v1:"@ + workflow_execution_id + ":"@ + manual_result_id + ":"@
        + manual_result_review_id + ":"@ + idempotency_key
}

/// Content-addressed readiness id (`wmrrr_` and 16 hex digits).
pub fn reconciliation_readiness_id_for(
    workflow_execution_id: &str,
    manual_result_id: &str,
    manual_result_review_id: &str,
    idempotency_key: &str,
) -> (id: String)
    ensures
        id@.len() == 22,
        id@ == text_id16(
            "wmrrr_"@,
            readiness_preimage(workflow_execution_id@, manual_result_id@, manual_result_review_id@, idempotency_key@),
        ),
{
    proof {
        reveal_strlit("wmrrr_");
    }
    let mut pre = String::from_str("reconciliation_readiness:v1:");
    pre.append(workflow_execution_id);
    pre.append(":");
    pre.append(manual_result_id);
    pre.append(":");
    pre.append(manual_result_review_id);
    pre.append(":");
    pre.append(idempotency_key);
    text_digest_id16("wmrrr_", pre.as_str())
}

/// The errors of a readiness request: the evaluator and two hashes are required.
pub open spec fn readiness_request_errors(evaluator: Seq<char>, review_hash: Seq<char>, result_hash: Seq<char>) -> Seq<Seq<char>> {
    required_error(evaluator, "evaluator"@) + required_error(review_hash, "expected_manual_result_review_hash"@)
        + required_error(result_hash, "expected_manual_result_hash"@)
}

/// Checks the required fields of a readiness request; the error lists every missing one.
pub fn validate_reconciliation_readiness_request(
    evaluator: &str,
    expected_manual_result_review_hash: &str,
    expected_manual_result_hash: &str,
) -> (r: Result<(), Vec<String>>)
    ensures
        ({
            let errs = readiness_request_errors(evaluator@, expected_manual_result_review_hash@, expected_manual_result_hash@);
            &&& (r is Ok <==> errs.len() == 0)
            &&& (r matches Err(e) ==> views_of(e@) == errs)
        }),
{
    let mut errors: Vec<String> = Vec::new();
    push_required_error(&mut errors, evaluator, "evaluator");
    push_required_error(&mut errors, expected_manual_result_review_hash, "expected_manual_result_review_hash");
    push_required_error(&mut errors, expected_manual_result_hash, "expected_manual_result_hash");
    assert(views_of(errors@).len() == errors@.len());
    if errors.len() == 0 {
        Ok(())
    } else {
        Err(errors)
    }
}

} // verus!
