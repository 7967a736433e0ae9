//! Records that an audit packet was reportedly handed on somewhere.
//!
//! Distribution is reported, not proven: nothing here sends mail, uploads files,
//! calls services, checks paths or fetches URLs, and a record proves neither
//! delivery nor receipt nor acceptance.
use vstd::prelude::*;
use crate::ids::{text_digest_id16, text_id16};
use crate::outside::{now_utc, Timestamp};
use crate::workflow_audit_packet_review::AuditPacketReviewId;
use crate::workflow_run::WorkflowExecutionId;

verus! {

/// Audit packet distribution ID. Content-addressed with `wapd_` prefix.
#[derive(Debug, Clone, PartialEq, Eq)]
pub struct AuditPacketDistributionId(pub String);

/// Destination kind.
#[derive(Debug, Clone, Copy, PartialEq, Eq, Structural)]
pub enum AuditPacketDestinationKind {
    FileShare,
    Email,
    Archive,
    Other,
}

/// Metadata-only destination: never contacted or checked.
#[derive(Debug, Clone)]
pub struct AuditPacketDistributionDestination {
    pub destination_kind: AuditPacketDestinationKind,
    pub label: String,
    pub reference: String,
    pub operator_supplied_hash: Option<String>,
    pub notes: Vec<String>,
}

/// Audit packet distribution request.
#[derive(Debug, Clone)]
pub struct AuditPacketDistributionRequest {
    pub review_id: AuditPacketReviewId,
    pub workflow_execution_id: WorkflowExecutionId,
    pub expected_review_hash: String,
    pub audit_packet_hash: String,
    pub chain_hash: String,
    pub inspection_id: String,
    pub destination: AuditPacketDistributionDestination,
    pub distribution_notes: Vec<String>,
    pub idempotency_key: String,
}

/// Audit packet distribution record.
#[derive(Debug, Clone)]
pub struct AuditPacketDistribution {
    pub distribution_id: AuditPacketDistributionId,
    pub review_id: AuditPacketReviewId,
    pub workflow_execution_id: WorkflowExecutionId,
    pub expected_review_hash: String,
    pub audit_packet_hash: String,
    pub chain_hash: String,
    pub inspection_id: String,
    pub destination: AuditPacketDistributionDestination,
    pub distribution_notes: Vec<String>,
    pub idempotency_key: String,
    pub distributed_at: Timestamp,
    // reported-distribution-only semantics
    pub reported_distribution: bool,
    pub proof_of_delivery: bool,
    pub recipient_acceptance_proven: bool,
    pub destination_verified: bool,
    pub external_system_integrated: bool,
    // no-authority flags
    pub certifies_external_truth: bool,
    pub verifies_packet_contents: bool,
    pub modifies_audit_packet: bool,
    pub mutates_workflow_state: bool,
    pub promotes_trust: bool,
    pub executes_commands: bool,
    pub sends_external_message: bool,
    pub uploads_files: bool,
    pub appends_trace: bool,
    pub writes_memory: bool,
    pub creates_execution_grant: bool,
    pub execution_allowed_now: bool,
}

/// The distribution id of a request: `wapd_` and 16 hex digits of the digest of
/// the review, run, hashes, inspection, destination label and key.
pub open spec fn distribution_id_of(request: AuditPacketDistributionRequest) -> Seq<char> {
    text_id16(
        "wapd_"@,
        request.review_id.0@ + request.workflow_execution_id.0@ + request.expected_review_hash@
            + request.audit_packet_hash@ + request.chain_hash@ + request.inspection_id@
            + request.destination.label@ + request.idempotency_key@,
    )
}

/// Builds the content-addressed distribution ID.
pub fn compute_distribution_id(request: &AuditPacketDistributionRequest) -> (id: AuditPacketDistributionId)
    ensures
        id.0@.len() == 21,
        id.0@ == distribution_id_of(*request),
{
    proof {
        reveal_strlit("wapd_");
    }
    let mut input = request.review_id.0.clone();
    input.append(request.workflow_execution_id.0.as_str());
    input.append(request.expected_review_hash.as_str());
    input.append(request.audit_packet_hash.as_str());
    input.append(request.chain_hash.as_str());
    input.append(request.inspection_id.as_str());
    input.append(request.destination.label.as_str());
    input.append(request.idempotency_key.as_str());
    AuditPacketDistributionId(text_digest_id16("wapd_", input.as_str()))
}

/// A distribution is reported only: it proves no delivery and claims no authority.
pub open spec fn distribution_is_reported_only(d: AuditPacketDistribution) -> bool {
    &&& d.reported_distribution
    &&& !d.proof_of_delivery
    &&& !d.recipient_acceptance_proven
    &&& !d.destination_verified
    &&& !d.external_system_integrated
    &&& !d.certifies_external_truth
    &&& !d.verifies_packet_contents
    &&& !d.modifies_audit_packet
    &&& !d.mutates_workflow_state
    &&& !d.promotes_trust
    &&& !d.executes_commands
    &&& !d.sends_external_message
    &&& !d.uploads_files
    &&& !d.appends_trace
    &&& !d.writes_memory
    &&& !d.creates_execution_grant
    &&& !d.execution_allowed_now
}

/// Builds a distribution record bound to the review hash, packet hash, chain hash
/// and inspection the request names; `distributed_at` is read from the clock.
pub fn build_audit_packet_distribution(request: AuditPacketDistributionRequest) -> (d: AuditPacketDistribution)
    ensures
        d.distribution_id.0@.len() == 21,
        d.distribution_id.0@ == distribution_id_of(request),
        d.review_id == request.review_id,
        d.workflow_execution_id == request.workflow_execution_id,
        d.expected_review_hash == request.expected_review_hash,
        d.audit_packet_hash == request.audit_packet_hash,
        d.chain_hash == request.chain_hash,
        d.inspection_id == request.inspection_id,
        d.destination == request.destination,
        d.distribution_notes == request.distribution_notes,
        d.idempotency_key == request.idempotency_key,
        distribution_is_reported_only(d),
{
    let distribution_id = compute_distribution_id(&request);
    AuditPacketDistribution {
        distribution_id,
        review_id: request.review_id,
        workflow_execution_id: request.workflow_execution_id,
        expected_review_hash: request.expected_review_hash,
        audit_packet_hash: request.audit_packet_hash,
        chain_hash: request.chain_hash,
        inspection_id: request.inspection_id,
        destination: request.destination,
        distribution_notes: request.distribution_notes,
        idempotency_key: request.idempotency_key,
        distributed_at: now_utc(),
        reported_distribution: true,
        proof_of_delivery: false,
        recipient_acceptance_proven: false,
        destination_verified: false,
        external_system_integrated: false,
        certifies_external_truth: false,
        verifies_packet_contents: false,
        modifies_audit_packet: false,
        mutates_workflow_state: false,
        promotes_trust: false,
        executes_commands: false,
        sends_external_message: false,
        uploads_files: false,
        appends_trace: false,
        writes_memory: false,
        creates_execution_grant: false,
        execution_allowed_now: false,
    }
}

} // verus!
