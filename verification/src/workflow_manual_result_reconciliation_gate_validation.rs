//! Request checks and content addressing for manual-result reconciliation gates.
use vstd::prelude::*;
use crate::ids::{text_digest_id16, text_id16};

verus! {

/// The text hashed into a gate id.
pub open spec fn gate_preimage(
    workflow_execution_id: Seq<char>,
    manual_result_id: Seq<char>,
    manual_result_review_id: Seq<char>,
    readiness_id: Seq<char>,
    stage_id: Seq<char>,
    idempotency_key: Seq<char>,
) -> Seq<char> {
    "manual_reconciliation_gate:v1:"@ + workflow_execution_id + ":"@ + manual_result_id + ":"@
        + manual_result_review_id + ":"@ + readiness_id + ":"@ + stage_id + ":"@ + idempotency_key
}

/// Content-addressed gate id (`wmrrg_` and 16 hex digits).
pub fn gate_id_for(
    workflow_execution_id: &str,
    manual_result_id: &str,
    manual_result_review_id: &str,
    readiness_id: &str,
    stage_id: &str,
    idempotency_key: &str,
) -> (id: String)
    ensures
        id@.len() == 22,
        id@ == text_id16(
            "wmrrg_"@,
            gate_preimage(
                workflow_execution_id@,
                manual_result_id@,
                manual_result_review_id@,
                readiness_id@,
                stage_id@,
                idempotency_key@,
            ),
        ),
{
    proof {
        reveal_strlit("wmrrg_");
    }
    let mut pre = String::from_str("manual_reconciliation_gate:v1:");
    pre.append(workflow_execution_id);
    pre.append(":");
    pre.append(manual_result_id);
    pre.append(":");
    pre.append(manual_result_review_id);
    pre.append(":");
    pre.append(readiness_id);
    pre.append(":");
    pre.append(stage_id);
    pre.append(":");
    pre.append(idempotency_key);
    text_digest_id16("wmrrg_", pre.as_str())
}

/// `[name + " is required"]` when the text is empty, else nothing.
pub open spec fn required_error(value: Seq<char>, name: Seq<char>) -> Seq<Seq<char>> {
    if value.len() == 0 {
        seq![name + " is required"@]
    } else {
        Seq::empty()
    }
}

/// Appends the "is required" error of a field when its text is empty.
pub fn push_required_error(errors: &mut Vec<String>, value: &str, name: &str)
    ensures
        views_of(final(errors)@) == views_of(old(errors)@) + required_error(value@, name@),
{
    let ghost before = errors@;
    if value.is_empty() {
        let mut m = String::from_str(name);
        m.append(" is required");
        errors.push(m);
        proof {
            crate::text::lemma_map_push(before, m, |s: String| s@);
        }
    }
    assert(views_of(errors@) =~= views_of(before) + required_error(value@, name@));
}

/// The views of a vector of texts.
pub open spec fn views_of(v: Seq<String>) -> Seq<Seq<char>> {
    crate::text::views(v)
}

/// The errors of a gate request: one for each of the eight hashes that is missing, in order.
pub open spec fn gate_hash_errors(
    workflow_run: Seq<char>,
    readiness: Seq<char>,
    result_review: Seq<char>,
    result: Seq<char>,
    command_review: Seq<char>,
    composer: Seq<char>,
    descriptor: Seq<char>,
    controller: Seq<char>,
) -> Seq<Seq<char>> {
    required_error(workflow_run, "expected_workflow_run_hash"@) + required_error(readiness, "expected_reconciliation_readiness_hash"@)
        + required_error(result_review, "expected_manual_result_review_hash"@) + required_error(result, "expected_manual_result_hash"@)
        + required_error(command_review, "expected_command_review_hash"@) + required_error(composer, "expected_command_composer_hash"@)
        + required_error(descriptor, "expected_command_descriptor_hash"@) + required_error(controller, "expected_loop_controller_hash"@)
}

/// Checks that all eight expected hashes of a gate request are present; the error
/// lists every missing one.
pub fn validate_gate_hashes(
    expected_workflow_run_hash: &str,
    expected_reconciliation_readiness_hash: &str,
    expected_manual_result_review_hash: &str,
    expected_manual_result_hash: &str,
    expected_command_review_hash: &str,
    expected_command_composer_hash: &str,
    expected_command_descriptor_hash: &str,
    expected_loop_controller_hash: &str,
) -> (r: Result<(), Vec<String>>)
    ensures
        ({
            let errs = gate_hash_errors(
                expected_workflow_run_hash@,
                expected_reconciliation_readiness_hash@,
                expected_manual_result_review_hash@,
                expected_manual_result_hash@,
                expected_command_review_hash@,
                expected_command_composer_hash@,
                expected_command_descriptor_hash@,
                expected_loop_controller_hash@,
            );
            &&& (r is Ok <==> errs.len() == 0)
            &&& (r matches Err(e) ==> views_of(e@) == errs)
        }),
{
    let mut errors: Vec<String> = Vec::new();
    push_required_error(&mut errors, expected_workflow_run_hash, "expected_workflow_run_hash");
    push_required_error(&mut errors, expected_reconciliation_readiness_hash, "expected_reconciliation_readiness_hash");
    push_required_error(&mut errors, expected_manual_result_review_hash, "expected_manual_result_review_hash");
    push_required_error(&mut errors, expected_manual_result_hash, "expected_manual_result_hash");
    push_required_error(&mut errors, expected_command_review_hash, "expected_command_review_hash");
    push_required_error(&mut errors, expected_command_composer_hash, "expected_command_composer_hash");
    push_required_error(&mut errors, expected_command_descriptor_hash, "expected_command_descriptor_hash");
    push_required_error(&mut errors, expected_loop_controller_hash, "expected_loop_controller_hash");
    assert(views_of(errors@).len() == errors@.len());
    if errors.len() == 0 {
        Ok(())
    } else {
        Err(errors)
    }
}

} // verus!
