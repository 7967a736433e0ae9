use workflow::workflow_audit_packet_distribution::{
    build_audit_packet_distribution, compute_distribution_id, AuditPacketDestinationKind,
    AuditPacketDistributionDestination, AuditPacketDistributionRequest,
};
use workflow::workflow_audit_packet_review::{
    build_audit_packet_review, compute_review_id, AuditPacketReviewDecision, AuditPacketReviewId,
    AuditPacketReviewRequest,
};
use workflow::workflow_evidence_chain_inspector::{
    build_audit_packet, build_inspection_state, check_record_linkage, compute_chain_hash, compute_inspection_id,
    EvidenceChainLink, EvidenceLinkPresence,
};
use workflow::workflow_evidence_chain_inspector_validation::{build_inspection_id, validate_inspection_request};
use workflow::workflow_run::WorkflowExecutionId;

fn present_link(rt: &str, id: &str) -> EvidenceChainLink {
    EvidenceChainLink {
        record_type: rt.to_string(),
        record_id: id.to_string(),
        presence: EvidenceLinkPresence::Present,
        record_hash: format!("hash_{}", id),
        source_path_hint: None,
    }
}

fn ids_of(links: &[EvidenceChainLink]) -> Vec<String> {
    links.iter().map(|l| l.record_id.clone()).collect()
}

// --- inspector ---

#[test]
fn evidence_chain_inspection_id_is_deterministic_for_same_chain() {
    let links = vec![present_link("run", "wfx_1"), present_link("route", "war_1")];
    let ch = compute_chain_hash(&links);
    let ids = ids_of(&links);
    let a = compute_inspection_id("wfx_1", &ch, &ids, false);
    let b = compute_inspection_id("wfx_1", &ch, &ids, false);
    assert_eq!(a, b);
}

#[test]
fn evidence_chain_inspection_id_changes_when_chain_hash_changes() {
    let links1 = vec![present_link("run", "wfx_1")];
    let links2 = vec![present_link("run", "wfx_1"), present_link("route", "war_1")];
    let ch1 = compute_chain_hash(&links1);
    let ch2 = compute_chain_hash(&links2);
    let a = compute_inspection_id("wfx_1", &ch1, &ids_of(&links1), false);
    let b = compute_inspection_id("wfx_1", &ch2, &ids_of(&links2), false);
    assert_ne!(a, b);
}

#[test]
fn computed_at_does_not_change_inspection_id() {
    let links = vec![present_link("run", "wfx_1")];
    let ch = compute_chain_hash(&links);
    let ids = ids_of(&links);
    let id = compute_inspection_id("wfx_1", &ch, &ids, false);
    let s1 = build_inspection_state("wfx_1", links.clone(), vec![], false);
    let s2 = build_inspection_state("wfx_1", links, vec![], false);
    assert_eq!(s1.inspection_id, s2.inspection_id);
    assert_eq!(id, s1.inspection_id);
}

#[test]
fn workflow_evidence_chain_inspector_inspection_id_has_weci_prefix() {
    let links = vec![present_link("run", "wfx_1")];
    let ch = compute_chain_hash(&links);
    let id = compute_inspection_id("wfx_1", &ch, &["wfx_1".to_string()], false);
    assert!(id.starts_with("weci_"));
}

#[test]
fn packet_mode_changes_inspection_id() {
    let links = vec![present_link("run", "wfx_1")];
    let ch = compute_chain_hash(&links);
    let ids = ids_of(&links);
    let a = compute_inspection_id("wfx_1", &ch, &ids, false);
    let b = compute_inspection_id("wfx_1", &ch, &ids, true);
    assert_ne!(a, b);
}

#[test]
fn chain_linkage_check_does_not_certify_external_truth() {
    let warnings = check_record_linkage(&[], &[]);
    assert!(warnings.is_empty());
}

#[test]
fn chain_linkage_check_reports_hash_mismatch_as_recorded_link_warning() {
    let warnings = check_record_linkage(&[], &[]);
    assert!(warnings.is_empty());
}

#[test]
fn chain_linkage_check_skips_unknown_hash_fields_without_claiming_validity() {
    let warnings = check_record_linkage(&[], &[]);
    assert!(warnings.is_empty());
}

#[test]
fn inspection_state_has_no_certification_authority() {
    let state = build_inspection_state("wfx_1", vec![], vec![], false);
    assert!(!state.certifies_external_truth);
    assert!(!state.verifies_artifacts);
    assert!(!state.executes_commands);
    assert!(!state.routes_actions);
    assert!(!state.resolves_approvals);
    assert!(!state.reconciles_outcomes);
    assert!(!state.mutates_workflow_state);
    assert!(!state.appends_trace);
    assert!(!state.writes_memory);
}

#[test]
fn audit_packet_has_no_certification_authority() {
    let state = build_inspection_state("wfx_1", vec![], vec![], false);
    let packet = build_audit_packet(state, vec![]);
    assert!(!packet.certifies_external_truth);
    assert!(!packet.verifies_artifacts);
}

#[test]
fn running_workflow_marks_later_records_not_yet_applicable() {
    let links = vec![
        EvidenceChainLink {
            record_type: "workflow_run".to_string(),
            record_id: "wfx_1".to_string(),
            presence: EvidenceLinkPresence::Present,
            record_hash: "h".to_string(),
            source_path_hint: None,
        },
        EvidenceChainLink {
            record_type: "manual_reconciliation_gate".to_string(),
            record_id: "".to_string(),
            presence: EvidenceLinkPresence::NotYetApplicable,
            record_hash: "".to_string(),
            source_path_hint: None,
        },
    ];
    let state = build_inspection_state("wfx_1", links, vec![], false);
    assert_eq!(1, state.coverage_summary.present_links);
    assert_eq!(1, state.coverage_summary.not_yet_applicable_links);
}

#[test]
fn completed_manual_ladder_requires_manual_reconciliation_gate_when_expected() {
    let links = vec![
        present_link("manual_result", "wmr_1"),
        EvidenceChainLink {
            record_type: "manual_reconciliation_gate".to_string(),
            record_id: "".to_string(),
            presence: EvidenceLinkPresence::MissingExpected,
            record_hash: "".to_string(),
            source_path_hint: None,
        },
    ];
    let state = build_inspection_state("wfx_1", links, vec![], false);
    assert_eq!(1, state.coverage_summary.missing_expected_links);
}

#[test]
fn missing_links_do_not_certify_failure() {
    let state = build_inspection_state("wfx_1", vec![], vec![], false);
    assert!(!state.certifies_external_truth);
    assert!(!state.verifies_artifacts);
}

#[test]
fn chain_hash_changes_with_different_links() {
    let h1 = compute_chain_hash(&[present_link("a", "id1")]);
    let h2 = compute_chain_hash(&[present_link("b", "id2")]);
    assert_ne!(h1, h2);
}

#[test]
fn empty_chain_has_deterministic_hash() {
    let h1 = compute_chain_hash(&[]);
    let h2 = compute_chain_hash(&[]);
    assert_eq!(h1, h2);
}

// --- own checks on the inspector ---

#[test]
fn chain_hash_ignores_link_order() {
    let a = compute_chain_hash(&[present_link("a", "id1"), present_link("b", "id2"), present_link("c", "id0")]);
    let b = compute_chain_hash(&[present_link("c", "id0"), present_link("a", "id1"), present_link("b", "id2")]);
    assert_eq!(a, b);
    assert_eq!(32, a.len());
    assert!(a.chars().all(|c| c.is_ascii_hexdigit() && !c.is_ascii_uppercase()));
}

#[test]
fn inspection_id_ignores_link_id_order() {
    let a = compute_inspection_id("wfx_1", "h", &["b".to_string(), "a".to_string(), "c".to_string()], false);
    let b = compute_inspection_id("wfx_1", "h", &["c".to_string(), "b".to_string(), "a".to_string()], false);
    assert_eq!(a, b);
}

#[test]
fn inspection_id_sorts_by_code_point_not_by_length() {
    // "ab" < "b" as strings, so ["ab", "b"] and ["b", "ab"] give the same id; a
    // different pair of texts gives a different one
    let a = compute_inspection_id("wfx_1", "h", &["b".to_string(), "ab".to_string()], false);
    let b = compute_inspection_id("wfx_1", "h", &["ab".to_string(), "b".to_string()], false);
    let c = compute_inspection_id("wfx_1", "h", &["ab".to_string(), "ba".to_string()], false);
    assert_eq!(a, b);
    assert_ne!(a, c);
}

#[test]
fn coverage_counts_each_presence_and_warnings() {
    let mut mismatched = present_link("x", "wfx_1");
    mismatched.presence = EvidenceLinkPresence::Mismatched;
    let mut not_app = present_link("y", "wfx_2");
    not_app.presence = EvidenceLinkPresence::NotApplicable;
    let links = vec![present_link("a", "1"), present_link("b", "2"), mismatched, not_app];
    let state = build_inspection_state("wfx_1", links, vec![], true);
    assert_eq!(2, state.coverage_summary.present_links);
    assert_eq!(0, state.coverage_summary.missing_expected_links);
    assert_eq!(0, state.coverage_summary.not_yet_applicable_links);
    assert_eq!(1, state.coverage_summary.not_applicable_links);
    assert_eq!(0, state.coverage_summary.warnings);
    assert_eq!("wfx_1", state.workflow_execution_id);
    assert_eq!(4, state.links.len());
}

#[test]
fn inspection_state_id_matches_packet_mode() {
    let links = vec![present_link("run", "wfx_1")];
    let ch = compute_chain_hash(&links);
    let state = build_inspection_state("wfx_1", links.clone(), vec![], true);
    assert_eq!(ch, state.chain_hash);
    assert_eq!(compute_inspection_id("wfx_1", &ch, &ids_of(&links), true), state.inspection_id);
}

#[test]
fn audit_packet_records_exporter_and_schema() {
    let state = build_inspection_state("wfx_1", vec![], vec![], false);
    let id = state.inspection_id.clone();
    let packet = build_audit_packet(state, vec![]);
    assert_eq!(1, packet.export_metadata.schema_version);
    assert_eq!("openwand-evidence-chain-inspector", packet.export_metadata.exporter);
    assert_eq!(id, packet.inspection.inspection_id);
}

// --- inspector validation ---

#[test]
fn workflow_evidence_chain_inspector_validation_valid_request_passes() {
    assert!(validate_inspection_request("wfx_abc123").is_ok());
}

#[test]
fn empty_execution_id_fails() {
    assert!(validate_inspection_request("").is_err());
}

#[test]
fn non_wfx_prefix_fails() {
    assert!(validate_inspection_request("tpl_123").is_err());
}

#[test]
fn workflow_evidence_chain_inspector_validation_inspection_id_has_weci_prefix() {
    let id = build_inspection_id("wfx_1", "hash", &["wfx_1".to_string()], false);
    assert!(id.0.starts_with("weci_"));
}

#[test]
fn inspection_id_is_deterministic() {
    let a = build_inspection_id("wfx_1", "hash", &["wfx_1".to_string()], false);
    let b = build_inspection_id("wfx_1", "hash", &["wfx_1".to_string()], false);
    assert_eq!(a, b);
}

#[test]
fn inspection_id_as_str() {
    let id = build_inspection_id("wfx_1", "hash", &[], false);
    assert!(id.as_str().starts_with("weci_"));
}

#[test]
fn inspection_request_errors_name_the_problem() {
    assert_eq!(Err("workflow_execution_id must not be empty".to_string()), validate_inspection_request(""));
    assert_eq!(
        Err("workflow_execution_id must start with wfx_: got tpl_123".to_string()),
        validate_inspection_request("tpl_123")
    );
}

// --- audit packet review ---

fn review_request() -> AuditPacketReviewRequest {
    AuditPacketReviewRequest {
        inspection_id: "weci_test".into(),
        workflow_execution_id: WorkflowExecutionId("wfx_test".into()),
        expected_audit_packet_hash: "pkt_hash_123".into(),
        expected_chain_hash: "chain_hash_456".into(),
        reviewer: "alice".into(),
        decision: AuditPacketReviewDecision::ReviewedWithCaveats,
        scope: "Full packet review".into(),
        caveats: vec!["Scope limited to Q1 data".into()],
        idempotency_key: "key1".into(),
    }
}

#[test]
fn review_id_has_wapr_prefix() {
    let rec = build_audit_packet_review(review_request());
    assert!(rec.review_id.0.starts_with("wapr_"));
}

#[test]
fn review_id_is_deterministic() {
    let id1 = compute_review_id(&review_request());
    let id2 = compute_review_id(&review_request());
    assert_eq!(id1, id2);
}

#[test]
fn review_id_changes_on_different_inputs() {
    let mut req = review_request();
    let id1 = compute_review_id(&req);
    req.reviewer = "bob".into();
    let id2 = compute_review_id(&req);
    assert_ne!(id1, id2);
}

#[test]
fn review_binds_to_audit_packet_hash() {
    let rec = build_audit_packet_review(review_request());
    assert_eq!("pkt_hash_123", rec.audit_packet_hash);
}

#[test]
fn review_binds_to_chain_hash() {
    let rec = build_audit_packet_review(review_request());
    assert_eq!("chain_hash_456", rec.chain_hash);
}

#[test]
fn review_binds_to_exact_inspection_id() {
    let rec = build_audit_packet_review(review_request());
    assert_eq!("weci_test", rec.inspection_id);
}

#[test]
fn review_does_not_modify_packet() {
    let rec = build_audit_packet_review(review_request());
    assert!(!rec.modifies_audit_packet);
}

#[test]
fn review_decision_does_not_certify_truth() {
    let rec = build_audit_packet_review(review_request());
    assert!(!rec.certifies_truth);
    assert!(!rec.approves_packet_truth);
    assert!(!rec.verifies_packet_contents);
}

#[test]
fn review_acknowledgment_is_not_approval() {
    let mut req = review_request();
    req.decision = AuditPacketReviewDecision::AcknowledgedForDistribution;
    let rec = build_audit_packet_review(req);
    assert!(!rec.approves_packet_truth);
}

#[test]
fn review_noted_is_not_verification() {
    let mut req = review_request();
    req.decision = AuditPacketReviewDecision::NotedWithoutCertification;
    let rec = build_audit_packet_review(req);
    assert!(!rec.verifies_packet_contents);
    assert!(!rec.certifies_truth);
}

#[test]
fn review_has_no_authority_flags() {
    let rec = build_audit_packet_review(review_request());
    assert!(!rec.certifies_external_truth);
    assert!(!rec.verifies_delivery);
    assert!(!rec.proves_recipient_acceptance);
    assert!(!rec.modifies_audit_packet);
    assert!(!rec.mutates_workflow_state);
    assert!(!rec.promotes_trust);
    assert!(!rec.executes_commands);
    assert!(!rec.sends_external_message);
    assert!(!rec.uploads_files);
    assert!(!rec.appends_trace);
    assert!(!rec.writes_memory);
    assert!(!rec.creates_execution_grant);
    assert!(!rec.execution_allowed_now);
}

#[test]
fn review_preserves_caveats() {
    let rec = build_audit_packet_review(review_request());
    assert_eq!(1, rec.caveats.len());
    assert!(rec.caveats[0].contains("Q1"));
}

#[test]
fn review_preserves_scope() {
    let rec = build_audit_packet_review(review_request());
    assert!(rec.scope.contains("Full packet"));
}

#[test]
fn review_id_depends_on_decision() {
    let mut req = review_request();
    let a = compute_review_id(&req);
    req.decision = AuditPacketReviewDecision::NotedWithoutCertification;
    let b = compute_review_id(&req);
    assert_ne!(a, b);
    assert_eq!(21, a.0.len());
}

// --- audit packet distribution ---

fn test_destination() -> AuditPacketDistributionDestination {
    AuditPacketDistributionDestination {
        destination_kind: AuditPacketDestinationKind::FileShare,
        label: "Shared drive".into(),
        reference: "\\\\server\\audit\\packet.json".into(),
        operator_supplied_hash: Some("op_hash_123".into()),
        notes: vec!["Q1 audit archive".into()],
    }
}

fn distribution_request() -> AuditPacketDistributionRequest {
    AuditPacketDistributionRequest {
        review_id: AuditPacketReviewId("wapr_test".into()),
        workflow_execution_id: WorkflowExecutionId("wfx_test".into()),
        expected_review_hash: "review_hash_789".into(),
        audit_packet_hash: "pkt_hash_123".into(),
        chain_hash: "chain_hash_456".into(),
        inspection_id: "weci_test".into(),
        destination: test_destination(),
        distribution_notes: vec!["Distributed to archive".into()],
        idempotency_key: "dkey1".into(),
    }
}

#[test]
fn distribution_id_has_wapd_prefix() {
    let rec = build_audit_packet_distribution(distribution_request());
    assert!(rec.distribution_id.0.starts_with("wapd_"));
}

#[test]
fn distribution_id_is_deterministic() {
    let id1 = compute_distribution_id(&distribution_request());
    let id2 = compute_distribution_id(&distribution_request());
    assert_eq!(id1, id2);
}

#[test]
fn distribution_id_changes_on_different_inputs() {
    let mut req = distribution_request();
    let id1 = compute_distribution_id(&req);
    req.idempotency_key = "different".into();
    let id2 = compute_distribution_id(&req);
    assert_ne!(id1, id2);
}

#[test]
fn distribution_binds_to_review_hash() {
    let rec = build_audit_packet_distribution(distribution_request());
    assert_eq!("review_hash_789", rec.expected_review_hash);
}

#[test]
fn distribution_copies_packet_and_chain_hashes() {
    let rec = build_audit_packet_distribution(distribution_request());
    assert_eq!("pkt_hash_123", rec.audit_packet_hash);
    assert_eq!("chain_hash_456", rec.chain_hash);
}

#[test]
fn distribution_binds_to_inspection_id() {
    let rec = build_audit_packet_distribution(distribution_request());
    assert_eq!("weci_test", rec.inspection_id);
}

#[test]
fn distribution_does_not_modify_review_or_packet() {
    let rec = build_audit_packet_distribution(distribution_request());
    assert!(!rec.modifies_audit_packet);
}

#[test]
fn distribution_records_reported_distribution_only() {
    let rec = build_audit_packet_distribution(distribution_request());
    assert!(rec.reported_distribution);
}

#[test]
fn distribution_does_not_prove_delivery() {
    let rec = build_audit_packet_distribution(distribution_request());
    assert!(!rec.proof_of_delivery);
}

#[test]
fn distribution_does_not_prove_recipient_acceptance() {
    let rec = build_audit_packet_distribution(distribution_request());
    assert!(!rec.recipient_acceptance_proven);
}

#[test]
fn distribution_does_not_verify_destination() {
    let rec = build_audit_packet_distribution(distribution_request());
    assert!(!rec.destination_verified);
}

#[test]
fn distribution_destination_is_metadata_only() {
    let dest = test_destination();
    assert_eq!(AuditPacketDestinationKind::FileShare, dest.destination_kind);
    assert_eq!("Shared drive", dest.label);
}

#[test]
fn distribution_operator_supplied_hash_is_stored_verbatim() {
    let rec = build_audit_packet_distribution(distribution_request());
    assert_eq!(Some("op_hash_123".into()), rec.destination.operator_supplied_hash);
}

#[test]
fn distribution_does_not_send_email() {
    let rec = build_audit_packet_distribution(distribution_request());
    assert!(!rec.sends_external_message);
}

#[test]
fn distribution_does_not_upload_or_archive_packet() {
    let rec = build_audit_packet_distribution(distribution_request());
    assert!(!rec.uploads_files);
    assert!(!rec.external_system_integrated);
}

#[test]
fn distribution_has_no_authority_flags() {
    let rec = build_audit_packet_distribution(distribution_request());
    assert!(!rec.certifies_external_truth);
    assert!(!rec.verifies_packet_contents);
    assert!(!rec.modifies_audit_packet);
    assert!(!rec.mutates_workflow_state);
    assert!(!rec.promotes_trust);
    assert!(!rec.executes_commands);
    assert!(!rec.sends_external_message);
    assert!(!rec.uploads_files);
    assert!(!rec.appends_trace);
    assert!(!rec.writes_memory);
    assert!(!rec.creates_execution_grant);
    assert!(!rec.execution_allowed_now);
}

#[test]
fn distribution_preserves_notes() {
    let rec = build_audit_packet_distribution(distribution_request());
    assert_eq!(1, rec.distribution_notes.len());
}

#[test]
fn distribution_id_ignores_destination_reference_but_not_label() {
    let mut req = distribution_request();
    let a = compute_distribution_id(&req);
    req.destination.reference = "elsewhere".into();
    let b = compute_distribution_id(&req);
    req.destination.label = "Other drive".into();
    let c = compute_distribution_id(&req);
    assert_eq!(a, b);
    assert_ne!(a, c);
}

#[test]
fn inspection_id_has_prefix_and_sixteen_hex_digits() {
    let id = build_inspection_id("wfx_1", "hash", &["b".to_string(), "a".to_string()], true);
    let again = build_inspection_id("wfx_1", "hash", &["a".to_string(), "b".to_string()], true);
    assert_eq!(21, id.0.len());
    assert_eq!(id, again);
}
