//! External attestations: third-party statements attached to evidence records.
//!
//! An attestation is reported evidence. It is not verification, it promotes no
//! trust, reconciles nothing and certifies nothing about the outside world.
use vstd::prelude::*;
use crate::ids::{text_digest_id16, text_id16};
use crate::outside::{now_utc, Timestamp};
use crate::workflow_run::WorkflowExecutionId;

verus! {

/// Content-addressed attestation ID. Format: `watt_<blake3_hex>`.
#[derive(Debug, Clone, PartialEq, Eq, Hash)]
pub struct WorkflowExternalAttestationId(pub String);

impl WorkflowExternalAttestationId {
    pub fn as_str(&self) -> (s: &str)
        ensures
            s@ == self.0@,
    {
        self.0.as_str()
    }
}

/// What kind of external attestation this is.
#[derive(Debug, Clone, Copy, PartialEq, Eq, Structural)]
pub enum ExternalAttestationKind {
    ThirdPartySignoff,
    CiPipelineResult,
    CodeReviewApproval,
    AuditLogEntry,
    ExternalSignature,
    ManualSignoff,
    Other,
}

/// The evidence record type an attestation attaches to.
#[derive(Debug, Clone, Copy, PartialEq, Eq, Structural)]
pub enum ExternalAttestationTargetKind {
    WorkflowRun,
    WorkflowRunRevision,
    ManualResult,
    ManualResultReview,
    ManualResultReconciliationReadiness,
    ManualResultReconciliationGate,
    EvidenceChainInspection,
    AuditPacket,
    Reconciliation,
    ActionOutcome,
    Other,
}

/// The record being attested.
#[derive(Debug, Clone)]
pub struct ExternalAttestationTarget {
    pub target_kind: ExternalAttestationTargetKind,
    pub target_id: String,
    pub workflow_execution_id: WorkflowExecutionId,
    pub expected_target_hash: Option<String>,
}

/// Who or what made the attestation.
#[derive(Debug, Clone)]
pub struct ExternalAttestationSource {
    pub name: String,
    pub role: String,
    pub system_identifier: Option<String>,
}

/// One reference within an attestation: metadata only.
#[derive(Debug, Clone)]
pub struct ExternalAttestationReference {
    pub reference_id: String,
    pub label: String,
    pub kind: ExternalAttestationReferenceKind,
    /// Metadata-only reference string. Not read, fetched, or verified by OpenWand.
    pub reference: String,
    /// Stored verbatim. OpenWand never recomputes it from file or URL contents.
    pub operator_supplied_hash: Option<String>,
    pub description: Option<String>,
}

/// Reference kind; mirrors artifact semantics.
#[derive(Debug, Clone, Copy, PartialEq, Eq, Structural)]
pub enum ExternalAttestationReferenceKind {
    ExternalUrl,
    FilePathReference,
    LogExcerpt,
    PlainTextNote,
    Screenshot,
    SignatureBlock,
    Other,
}

/// A signature as reported; its meaning is never checked.
#[derive(Debug, Clone)]
pub struct ExternalReportedSignature {
    pub signature_text_or_reference: String,
    pub claimed_signer: Option<String>,
    pub claimed_algorithm: Option<String>,
    pub verification_status: ExternalSignatureVerificationStatus,
}

/// Signature verification status: there is one, and it says "not verified".
#[derive(Debug, Clone, Copy, PartialEq, Eq, Structural)]
pub enum ExternalSignatureVerificationStatus {
    NotVerifiedByOpenWand,
}

/// The attestation record.
#[derive(Debug, Clone)]
pub struct WorkflowExternalAttestation {
    pub attestation_id: WorkflowExternalAttestationId,
    pub target: ExternalAttestationTarget,
    pub kind: ExternalAttestationKind,
    pub source: ExternalAttestationSource,
    pub claim: String,
    pub references: Vec<ExternalAttestationReference>,
    pub reported_signature: Option<ExternalReportedSignature>,
    pub attested_at: Timestamp,
    pub recorded_at: Timestamp,
    pub idempotency_key: String,
    // authority and verification flags
    pub reported_by_operator: bool,
    pub verified_by_openwand: bool,
    pub promotes_trust: bool,
    pub certifies_external_truth: bool,
    pub mutates_workflow_state: bool,
    pub reconciles_outcome: bool,
    pub creates_execution_grant: bool,
    pub execution_allowed_now: bool,
}

/// Request to attach an external attestation.
#[derive(Debug, Clone)]
pub struct ExternalAttestationRequest {
    pub workflow_execution_id: WorkflowExecutionId,
    pub target_kind: ExternalAttestationTargetKind,
    pub target_id: String,
    pub expected_target_hash: Option<String>,
    pub kind: ExternalAttestationKind,
    pub source_name: String,
    pub source_role: String,
    pub source_system_identifier: Option<String>,
    pub claim: String,
    pub references: Vec<ExternalAttestationReference>,
    pub reported_signature: Option<ExternalReportedSignature>,
    pub attested_at: Timestamp,
    pub idempotency_key: String,
}

/// The attestation id of five fields: `watt_` and the first 16 hex digits of the
/// digest of the fields written one after another.
pub open spec fn attestation_id_of(
    workflow_execution_id: Seq<char>,
    target_id: Seq<char>,
    claim: Seq<char>,
    source_name: Seq<char>,
    idempotency_key: Seq<char>,
) -> Seq<char> {
    text_id16("watt_"@, workflow_execution_id + target_id + claim + source_name + idempotency_key)
}

/// Builds the content-addressed attestation ID.
pub fn compute_attestation_id(
    workflow_execution_id: &str,
    target_id: &str,
    claim: &str,
    source_name: &str,
    idempotency_key: &str,
) -> (id: WorkflowExternalAttestationId)
    ensures
        id.0@.len() == 21,
        id.0@ == attestation_id_of(workflow_execution_id@, target_id@, claim@, source_name@, idempotency_key@),
{
    proof {
        reveal_strlit("watt_");
    }
    let mut input = String::from_str(workflow_execution_id);
    input.append(target_id);
    input.append(claim);
    input.append(source_name);
    input.append(idempotency_key);
    WorkflowExternalAttestationId(text_digest_id16("watt_", input.as_str()))
}

/// The attestation carries exactly what the request gave it.
pub open spec fn attestation_carries_request(att: WorkflowExternalAttestation, request: ExternalAttestationRequest) -> bool {
    &&& att.attestation_id.0@ == attestation_id_of(
        request.workflow_execution_id.0@,
        request.target_id@,
        request.claim@,
        request.source_name@,
        request.idempotency_key@,
    )
    &&& att.target.target_kind == request.target_kind
    &&& att.target.target_id == request.target_id
    &&& att.target.workflow_execution_id == request.workflow_execution_id
    &&& att.target.expected_target_hash == request.expected_target_hash
    &&& att.kind == request.kind
    &&& att.source.name == request.source_name
    &&& att.source.role == request.source_role
    &&& att.source.system_identifier == request.source_system_identifier
    &&& att.claim == request.claim
    &&& att.references == request.references
    &&& att.reported_signature == request.reported_signature
    &&& att.attested_at == request.attested_at
    &&& att.idempotency_key == request.idempotency_key
}

/// An attestation is marked as reported by the operator and claims no authority.
pub open spec fn attestation_claims_no_authority(att: WorkflowExternalAttestation) -> bool {
    &&& att.reported_by_operator
    &&& !att.verified_by_openwand
    &&& !att.promotes_trust
    &&& !att.certifies_external_truth
    &&& !att.mutates_workflow_state
    &&& !att.reconciles_outcome
    &&& !att.creates_execution_grant
    &&& !att.execution_allowed_now
}

/// Builds an attestation from a request; `recorded_at` is read from the clock.
pub fn build_external_attestation(request: ExternalAttestationRequest) -> (att: WorkflowExternalAttestation)
    ensures
        att.attestation_id.0@.len() == 21,
        attestation_carries_request(att, request),
        attestation_claims_no_authority(att),
{
    let attestation_id = compute_attestation_id(
        request.workflow_execution_id.0.as_str(),
        request.target_id.as_str(),
        request.claim.as_str(),
        request.source_name.as_str(),
        request.idempotency_key.as_str(),
    );
    WorkflowExternalAttestation {
        attestation_id,
        target: ExternalAttestationTarget {
            target_kind: request.target_kind,
            target_id: request.target_id,
            workflow_execution_id: request.workflow_execution_id,
            expected_target_hash: request.expected_target_hash,
        },
        kind: request.kind,
        source: ExternalAttestationSource {
            name: request.source_name,
            role: request.source_role,
            system_identifier: request.source_system_identifier,
        },
        claim: request.claim,
        references: request.references,
        reported_signature: request.reported_signature,
        attested_at: request.attested_at,
        recorded_at: now_utc(),
        idempotency_key: request.idempotency_key,
        reported_by_operator: true,
        verified_by_openwand: false,
        promotes_trust: false,
        certifies_external_truth: false,
        mutates_workflow_state: false,
        reconciles_outcome: false,
        creates_execution_grant: false,
        execution_allowed_now: false,
    }
}

} // verus!
