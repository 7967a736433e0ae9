//! Human review of an exported audit packet's metadata.
//!
//! A review records that a person looked at a packet. It certifies no truth,
//! verifies no packet contents and changes nothing in the packet.
use vstd::prelude::*;
use crate::ids::{text_digest_id16, text_id16};
use crate::outside::{now_utc, Timestamp};
use crate::workflow_run::WorkflowExecutionId;

verus! {

/// Audit packet review ID. Content-addressed with `wapr_` prefix.
#[derive(Debug, Clone, PartialEq, Eq)]
pub struct AuditPacketReviewId(pub String);

/// Review decision; none of them certifies anything.
#[derive(Debug, Clone, Copy, PartialEq, Eq, Structural)]
pub enum AuditPacketReviewDecision {
    ReviewedWithCaveats,
    AcknowledgedForDistribution,
    NotedWithoutCertification,
}

impl AuditPacketReviewDecision {
    /// The `Debug` name of the value.
    pub open spec fn debug_view(self) -> Seq<char> {
        match self {
            AuditPacketReviewDecision::ReviewedWithCaveats => "ReviewedWithCaveats"@,
            AuditPacketReviewDecision::AcknowledgedForDistribution => "AcknowledgedForDistribution"@,
            AuditPacketReviewDecision::NotedWithoutCertification => "NotedWithoutCertification"@,
        }
    }

    pub fn debug_name(&self) -> (s: &'static str)
        ensures
            s@ == self.debug_view(),
    {
        match self {
            AuditPacketReviewDecision::ReviewedWithCaveats => "ReviewedWithCaveats",
            AuditPacketReviewDecision::AcknowledgedForDistribution => "AcknowledgedForDistribution",
            AuditPacketReviewDecision::NotedWithoutCertification => "NotedWithoutCertification",
        }
    }
}
/// Audit packet review request.
#[derive(Debug, Clone)]
pub struct AuditPacketReviewRequest {
    pub inspection_id: String,
    pub workflow_execution_id: WorkflowExecutionId,
    pub expected_audit_packet_hash: String,
    pub expected_chain_hash: String,
    pub reviewer: String,
    pub decision: AuditPacketReviewDecision,
    pub scope: String,
    pub caveats: Vec<String>,
    pub idempotency_key: String,
}

/// Audit packet review record.
#[derive(Debug, Clone)]
pub struct AuditPacketReview {
    pub review_id: AuditPacketReviewId,
    pub inspection_id: String,
    pub workflow_execution_id: WorkflowExecutionId,
    pub audit_packet_hash: String,
    pub chain_hash: String,
    pub reviewer: String,
    pub decision: AuditPacketReviewDecision,
    pub scope: String,
    pub caveats: Vec<String>,
    pub idempotency_key: String,
    pub reviewed_at: Timestamp,
    // snapshot fields
    pub certifies_truth: bool,
    pub approves_packet_truth: bool,
    pub verifies_packet_contents: bool,
    // no-authority flags
    pub certifies_external_truth: bool,
    pub verifies_delivery: bool,
    pub proves_recipient_acceptance: bool,
    pub modifies_audit_packet: bool,
    pub mutates_workflow_state: bool,
    pub promotes_trust: bool,
    pub executes_commands: bool,
    pub sends_external_message: bool,
    pub uploads_files: bool,
    pub appends_trace: bool,
    pub writes_memory: bool,
    pub creates_execution_grant: bool,
    pub execution_allowed_now: bool,
}

/// The review id of a request: `wapr_` and 16 hex digits of the digest of its
/// fields written one after another, the decision by its `Debug` name.
pub open spec fn review_id_of(request: AuditPacketReviewRequest) -> Seq<char> {
    text_id16(
        "wapr_"@,
        request.inspection_id@ + request.workflow_execution_id.0@ + request.expected_audit_packet_hash@
            + request.expected_chain_hash@ + request.reviewer@ + request.decision.debug_view() + request.scope@
            + request.idempotency_key@,
    )
}

/// Builds the content-addressed review ID.
pub fn compute_review_id(request: &AuditPacketReviewRequest) -> (id: AuditPacketReviewId)
    ensures
        id.0@.len() == 21,
        id.0@ == review_id_of(*request),
{
    proof {
        reveal_strlit("wapr_");
    }
    let mut input = request.inspection_id.clone();
    input.append(request.workflow_execution_id.0.as_str());
    input.append(request.expected_audit_packet_hash.as_str());
    input.append(request.expected_chain_hash.as_str());
    input.append(request.reviewer.as_str());
    input.append(request.decision.debug_name());
    input.append(request.scope.as_str());
    input.append(request.idempotency_key.as_str());
    AuditPacketReviewId(text_digest_id16("wapr_", input.as_str()))
}

/// A review claims no certification and no authority.
pub open spec fn review_claims_no_authority(r: AuditPacketReview) -> bool {
    &&& !r.certifies_truth
    &&& !r.approves_packet_truth
    &&& !r.verifies_packet_contents
    &&& !r.certifies_external_truth
    &&& !r.verifies_delivery
    &&& !r.proves_recipient_acceptance
    &&& !r.modifies_audit_packet
    &&& !r.mutates_workflow_state
    &&& !r.promotes_trust
    &&& !r.executes_commands
    &&& !r.sends_external_message
    &&& !r.uploads_files
    &&& !r.appends_trace
    &&& !r.writes_memory
    &&& !r.creates_execution_grant
    &&& !r.execution_allowed_now
}

/// Builds a review record bound to the exact packet hash, chain hash and
/// inspection the request names; `reviewed_at` is read from the clock.
pub fn build_audit_packet_review(request: AuditPacketReviewRequest) -> (r: AuditPacketReview)
    ensures
        r.review_id.0@.len() == 21,
        r.review_id.0@ == review_id_of(request),
        r.inspection_id == request.inspection_id,
        r.workflow_execution_id == request.workflow_execution_id,
        r.audit_packet_hash == request.expected_audit_packet_hash,
        r.chain_hash == request.expected_chain_hash,
        r.reviewer == request.reviewer,
        r.decision == request.decision,
        r.scope == request.scope,
        r.caveats == request.caveats,
        r.idempotency_key == request.idempotency_key,
        review_claims_no_authority(r),
{
    let review_id = compute_review_id(&request);
    AuditPacketReview {
        review_id,
        inspection_id: request.inspection_id,
        workflow_execution_id: request.workflow_execution_id,
        audit_packet_hash: request.expected_audit_packet_hash,
        chain_hash: request.expected_chain_hash,
        reviewer: request.reviewer,
        decision: request.decision,
        scope: request.scope,
        caveats: request.caveats,
        idempotency_key: request.idempotency_key,
        reviewed_at: now_utc(),
        certifies_truth: false,
        approves_packet_truth: false,
        verifies_packet_contents: false,
        certifies_external_truth: false,
        verifies_delivery: false,
        proves_recipient_acceptance: false,
        modifies_audit_packet: false,
        mutates_workflow_state: false,
        promotes_trust: false,
        executes_commands: false,
        sends_external_message: false,
        uploads_files: false,
        appends_trace: false,
        writes_memory: false,
        creates_execution_grant: false,
        execution_allowed_now: false,
    }
}

} // verus!
