//! Structural validation of external attestation requests.
use vstd::prelude::*;
use crate::text::{has_prefix, str_starts_with, views};
use crate::workflow_external_attestation::ExternalAttestationRequest;

verus! {

/// One error message when `failed` holds, none otherwise.
pub open spec fn error_if(failed: bool, message: Seq<char>) -> Seq<Seq<char>> {
    if failed {
        seq![message]
    } else {
        Seq::empty()
    }
}

/// Every structural error of an attestation request, in the order they are checked.
pub open spec fn attestation_request_errors(request: ExternalAttestationRequest) -> Seq<Seq<char>> {
    let wfx = request.workflow_execution_id.0@;
    error_if(wfx.len() == 0, "workflow_execution_id must not be empty"@)
        + error_if(!has_prefix(wfx, "wfx_"@), "workflow_execution_id must start with wfx_: got "@ + wfx)
        + error_if(request.target_id@.len() == 0, "target_id must not be empty"@)
        + error_if(request.claim@.len() == 0, "claim must not be empty"@)
        + error_if(request.source_name@.len() == 0, "source_name must not be empty"@)
        + error_if(request.idempotency_key@.len() == 0, "idempotency_key must not be empty"@)
}

fn push_error_if(errors: &mut Vec<String>, failed: bool, message: String)
    ensures
        views(final(errors)@) == views(old(errors)@) + error_if(failed, message@),
{
    let ghost before = views(errors@);
    if failed {
        errors.push(message);
        proof {
            assert(views(errors@) =~= before + seq![message@]);
        }
    } else {
        assert(views(errors@) =~= before + Seq::<Seq<char>>::empty());
    }
}

/// Validates an attestation request structurally: `Ok` exactly when no check
/// fails, else every failure message in order.
pub fn validate_attestation_request(request: &ExternalAttestationRequest) -> (r: Result<(), Vec<String>>)
    ensures
        r is Ok <==> attestation_request_errors(*request).len() == 0,
        r matches Err(errors) ==> views(errors@) == attestation_request_errors(*request),
{
    let mut errors: Vec<String> = Vec::new();
    let wfx = request.workflow_execution_id.0.as_str();
    assert(views(errors@) =~= Seq::<Seq<char>>::empty());
    push_error_if(&mut errors, wfx.is_empty(), String::from_str("workflow_execution_id must not be empty"));
    let mut got = String::from_str("workflow_execution_id must start with wfx_: got ");
    got.append(wfx);
    push_error_if(&mut errors, !str_starts_with(wfx, "wfx_"), got);
    push_error_if(&mut errors, request.target_id.as_str().is_empty(), String::from_str("target_id must not be empty"));
    push_error_if(&mut errors, request.claim.as_str().is_empty(), String::from_str("claim must not be empty"));
    push_error_if(&mut errors, request.source_name.as_str().is_empty(), String::from_str("source_name must not be empty"));
    push_error_if(&mut errors, request.idempotency_key.as_str().is_empty(), String::from_str("idempotency_key must not be empty"));
    proof {
        assert(views(errors@) =~= attestation_request_errors(*request));
    }
    if errors.len() == 0 {
        Ok(())
    } else {
        Err(errors)
    }
}

/// An attestation request passes validation exactly when it names a run id
/// (`wfx_...`), a target, a claim, a source and an idempotency key.
pub proof fn lemma_attestation_request_valid_iff(request: ExternalAttestationRequest)
    ensures
        attestation_request_errors(request).len() == 0 <==> {
            &&& has_prefix(request.workflow_execution_id.0@, "wfx_"@)
            &&& request.target_id@.len() > 0
            &&& request.claim@.len() > 0
            &&& request.source_name@.len() > 0
            &&& request.idempotency_key@.len() > 0
        },
{
    reveal_strlit("wfx_");
}

} // verus!
