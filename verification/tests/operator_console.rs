use workflow::workflow_loop_state::WorkflowDetectedLoopState;
use workflow::workflow_operator_console::{
    build_console_state, detected_state_explanation, validate_linkage_aware_chain, validate_manual_result_chain,
    ConsoleAttestationGroup, ConsoleAttestationRow, ConsoleChainWarning, ConsoleEvidenceLink,
    ConsoleReadinessEligibilitySummary, ConsoleRecommendation, WorkflowOperatorConsoleState,
};
use workflow::workflow_run::WorkflowExecutionId;

fn build_test_state(detected: &WorkflowDetectedLoopState) -> WorkflowOperatorConsoleState {
    build_console_state(
        WorkflowExecutionId("wfx_t".into()), "suspended".into(),
        vec![], detected, None, vec![], vec![], vec![], vec![], vec![],
    )
}

fn all_states() -> Vec<WorkflowDetectedLoopState> {
    vec![
        WorkflowDetectedLoopState::NeedsInitialContinuationProposal,
        WorkflowDetectedLoopState::NeedsNextActionReview,
        WorkflowDetectedLoopState::NeedsRoutingReadiness,
        WorkflowDetectedLoopState::NeedsNextActionRouting,
        WorkflowDetectedLoopState::NeedsSessionRoutingObservation,
        WorkflowDetectedLoopState::NeedsApprovalOutcomeResolution,
        WorkflowDetectedLoopState::NeedsOutcomeReconciliation,
        WorkflowDetectedLoopState::NeedsContinuationAfterReconciliation,
        WorkflowDetectedLoopState::NeedsCommandDescriptor,
        WorkflowDetectedLoopState::NeedsCommandReview,
        WorkflowDetectedLoopState::NeedsManualResultCapture,
        WorkflowDetectedLoopState::NeedsManualResultReview,
        WorkflowDetectedLoopState::NeedsReconciliationReadiness,
        WorkflowDetectedLoopState::NeedsManualReconciliation,
        WorkflowDetectedLoopState::WorkflowComplete,
        WorkflowDetectedLoopState::WorkflowBlocked,
        WorkflowDetectedLoopState::Inconclusive,
    ]
}

fn mismatch_warning(actual: Option<&str>) -> ConsoleChainWarning {
    ConsoleChainWarning {
        link_kind: "test".into(), expected_id: "x".into(),
        actual_id: actual.map(|s| s.to_string()), reason: "mismatch".into(),
    }
}

#[test]
fn console_state_is_consistent_when_no_warnings() {
    let state = build_test_state(&WorkflowDetectedLoopState::NeedsCommandDescriptor);
    assert!(state.evidence_chain_consistent);
}

#[test]
fn console_state_is_inconsistent_when_warnings() {
    let state = build_console_state(
        WorkflowExecutionId("wfx_t".into()), "suspended".into(),
        vec![], &WorkflowDetectedLoopState::Inconclusive,
        None, vec![], vec![mismatch_warning(None)], vec![], vec![], vec![],
    );
    assert!(!state.evidence_chain_consistent);
}

#[test]
fn operator_console_has_no_authority_flags() {
    let state = build_test_state(&WorkflowDetectedLoopState::Inconclusive);
    assert!(!state.creates_route);
    assert!(!state.executes_tool);
    assert!(!state.verifies_external_state);
    assert!(!state.resolves_approval);
    assert!(!state.reconciles_outcome);
    assert!(!state.mutates_workflow_state);
    assert!(!state.creates_run_revision);
    assert!(!state.appends_trace);
    assert!(!state.writes_memory);
    assert!(!state.certifies_evidence);
    assert!(!state.promotes_trust);
    assert!(!state.schedules_verification);
}

#[test]
fn operator_console_does_not_verify_external_state() {
    let state = build_test_state(&WorkflowDetectedLoopState::Inconclusive);
    assert!(!state.verifies_external_state);
}

#[test]
fn operator_console_does_not_reconcile_or_create_revision() {
    let state = build_test_state(&WorkflowDetectedLoopState::Inconclusive);
    assert!(!state.reconciles_outcome);
    assert!(!state.creates_run_revision);
}

#[test]
fn operator_console_does_not_route_or_execute() {
    let state = build_test_state(&WorkflowDetectedLoopState::Inconclusive);
    assert!(!state.creates_route);
    assert!(!state.executes_tool);
}

#[test]
fn operator_console_does_not_certify_promote_or_schedule() {
    let state = build_test_state(&WorkflowDetectedLoopState::Inconclusive);
    assert!(!state.certifies_evidence, "console must not certify evidence");
    assert!(!state.promotes_trust, "console must not promote trust");
    assert!(!state.schedules_verification, "console must not schedule verification");
}

#[test]
fn operator_console_does_not_perform_recommended_operation() {
    let state = build_console_state(
        WorkflowExecutionId("wfx_t".into()), "suspended".into(),
        vec![], &WorkflowDetectedLoopState::NeedsManualResultCapture,
        Some(ConsoleRecommendation {
            operation: "capture_manual_result".into(),
            command_hint: "display only".into(),
            reason: "test".into(),
        }),
        vec![], vec![], vec![], vec![], vec![],
    );
    assert!(state.recommendation.is_some());
    assert!(!state.executes_tool);
    assert!(!state.creates_route);
}

#[test]
fn operator_console_state_is_recomputed_not_persisted() {
    let s1 = build_test_state(&WorkflowDetectedLoopState::Inconclusive);
    let s2 = build_test_state(&WorkflowDetectedLoopState::Inconclusive);
    assert_eq!(s1.workflow_execution_id, s2.workflow_execution_id);
}

#[test]
fn console_warns_on_manual_result_chain_mismatch() {
    let warnings = validate_manual_result_chain(
        Some("wcc_1"), Some("wcrv_1"), None, None, None, None,
    );
    assert!(warnings.is_empty());

    let warnings = validate_manual_result_chain(
        Some("wcc_1"), Some("wcrv_1"), None, Some("wmrr_1"), None, None,
    );
    assert!(!warnings.is_empty());
    assert!(warnings.iter().any(|w| w.link_kind == "manual_result"));
}

#[test]
fn console_warns_on_reconciliation_readiness_mismatch() {
    let warnings = validate_manual_result_chain(
        Some("wcc_1"), Some("wcrv_1"), Some("wmr_1"), Some("wmrr_1"), None, Some("wmrrg_1"),
    );
    assert!(!warnings.is_empty());
    assert!(warnings.iter().any(|w| w.link_kind == "reconciliation_readiness"));
}

#[test]
fn console_does_not_claim_mismatched_latest_records_are_coherent() {
    let state = build_console_state(
        WorkflowExecutionId("wfx_t".into()), "suspended".into(),
        vec![], &WorkflowDetectedLoopState::Inconclusive,
        None, vec![], vec![mismatch_warning(Some("y"))], vec![], vec![], vec![],
    );
    assert!(!state.evidence_chain_consistent);
    assert!(!state.chain_warnings.is_empty());
}

#[test]
fn full_manual_result_chain_has_no_warnings() {
    let warnings = validate_manual_result_chain(
        Some("wcc_1"), Some("wcrv_1"), Some("wmr_1"), Some("wmrr_1"),
        Some("wmrrr_1"), Some("wmrrg_1"),
    );
    assert!(warnings.is_empty());
}

#[test]
fn detected_state_explanation_covers_all_17_states() {
    let states = all_states();
    assert_eq!(17, states.len(), "Must cover all 17 detected loop states");
    for s in &states {
        let explanation = detected_state_explanation(s);
        assert!(!explanation.is_empty(), "Explanation for {:?} must not be empty", s);
    }
}

#[test]
fn detected_state_explanation_is_stable_for_manual_result_states() {
    let exp = detected_state_explanation(&WorkflowDetectedLoopState::NeedsCommandDescriptor);
    assert!(exp.contains("command"));
    let exp = detected_state_explanation(&WorkflowDetectedLoopState::NeedsManualResultCapture);
    assert!(exp.contains("manual result"));
    let exp = detected_state_explanation(&WorkflowDetectedLoopState::NeedsManualResultReview);
    assert!(exp.contains("review"));
}

#[test]
fn detected_state_explanation_does_not_recommend_execution() {
    let states = vec![
        WorkflowDetectedLoopState::NeedsCommandDescriptor,
        WorkflowDetectedLoopState::NeedsManualResultCapture,
        WorkflowDetectedLoopState::NeedsManualReconciliation,
    ];
    for s in &states {
        let exp = detected_state_explanation(s);
        let lower = exp.to_lowercase();
        assert!(!lower.contains("execute"), "Explanation for {:?} must not say 'execute'", s);
        assert!(!lower.contains("run command"), "Explanation for {:?} must not say 'run command'", s);
    }
}

#[test]
fn console_state_includes_detected_state_explanation() {
    let state = build_test_state(&WorkflowDetectedLoopState::NeedsCommandDescriptor);
    assert!(state.detected_state_explanation.is_some());
    let exp = state.detected_state_explanation.unwrap();
    assert!(!exp.is_empty());
}

#[test]
fn console_warns_on_cross_workflow_evidence_link() {
    let links = vec![ConsoleEvidenceLink {
        link_kind: "test".into(),
        record_id: "wfx_other_run".into(),
        status: "found".into(),
        summary: "test".into(),
    }];
    let warnings = validate_linkage_aware_chain(&links, "wfx_expected", &[], &[]);
    assert!(warnings.iter().any(|w| w.reason.contains("different workflow run")));
}

#[test]
fn console_no_warning_when_links_match_workflow() {
    let links = vec![ConsoleEvidenceLink {
        link_kind: "test".into(),
        record_id: "some_record".into(),
        status: "found".into(),
        summary: "test".into(),
    }];
    let warnings = validate_linkage_aware_chain(&links, "wfx_t", &[], &[]);
    assert!(warnings.is_empty());
}

#[test]
fn console_warns_on_attestation_target_mismatch() {
    let groups = vec![ConsoleAttestationGroup {
        target_kind: "manual_result".into(),
        target_id: "wmr_1".into(),
        attestations: vec![ConsoleAttestationRow {
            attestation_id: "watt_1".into(),
            kind: "code_review".into(),
            source_name: "Bob".into(),
            claim: "Approved".into(),
            verified_by_openwand: true,
            promotes_trust: false,
        }],
    }];
    let warnings = validate_linkage_aware_chain(&[], "wfx_t", &groups, &[]);
    assert!(warnings.iter().any(|w| w.link_kind == "external_attestation"));
}

#[test]
fn console_warns_on_verification_readiness_target_mismatch() {
    let summaries = vec![ConsoleReadinessEligibilitySummary {
        readiness_id: "wvr_1".into(),
        target_kind: "manual_result".into(),
        target_id: "wmr_1".into(),
        status: "ready".into(),
        is_eligibility_only: false,
    }];
    let warnings = validate_linkage_aware_chain(&[], "wfx_t", &[], &summaries);
    assert!(warnings.iter().any(|w| w.link_kind == "verification_readiness"));
}

#[test]
fn console_does_not_present_mismatched_latest_records_as_coherent() {
    let warnings = validate_linkage_aware_chain(
        &[ConsoleEvidenceLink {
            link_kind: "test".into(),
            record_id: "wfx_other".into(),
            status: "found".into(),
            summary: "test".into(),
        }],
        "wfx_expected",
        &[],
        &[],
    );
    assert!(!warnings.is_empty());
}

#[test]
fn attestation_row_is_always_unverified() {
    let row = ConsoleAttestationRow {
        attestation_id: "watt_1".into(),
        kind: "code_review".into(),
        source_name: "Bob".into(),
        claim: "Approved".into(),
        verified_by_openwand: false,
        promotes_trust: false,
    };
    assert!(!row.verified_by_openwand);
    assert!(!row.promotes_trust);
}

#[test]
fn attestation_group_groups_by_target() {
    let group = ConsoleAttestationGroup {
        target_kind: "manual_result".into(),
        target_id: "wmr_1".into(),
        attestations: vec![ConsoleAttestationRow {
            attestation_id: "watt_1".into(),
            kind: "code_review".into(),
            source_name: "Bob".into(),
            claim: "Approved".into(),
            verified_by_openwand: false,
            promotes_trust: false,
        }],
    };
    assert_eq!(1, group.attestations.len());
    assert_eq!("wmr_1", group.target_id);
}

// --- own checks ---

#[test]
fn detected_state_is_lowercased_debug_name() {
    let state = build_test_state(&WorkflowDetectedLoopState::NeedsManualResultCapture);
    assert_eq!("needsmanualresultcapture", state.detected_state);
    assert!(state.warnings.is_empty());
}

#[test]
fn every_explanation_is_distinct() {
    let texts: Vec<String> = all_states().iter().map(detected_state_explanation).collect();
    for i in 0..texts.len() {
        for j in (i + 1)..texts.len() {
            assert_ne!(texts[i], texts[j]);
        }
    }
    assert_eq!(
        "The workflow run has completed all stages. No further action is needed.",
        detected_state_explanation(&WorkflowDetectedLoopState::WorkflowComplete)
    );
}

#[test]
fn manual_chain_reports_every_gap_from_gate_down() {
    let warnings = validate_manual_result_chain(None, Some("wcrv_1"), None, Some("wmrr_1"), None, Some("g"));
    let kinds: Vec<&str> = warnings.iter().map(|w| w.link_kind.as_str()).collect();
    assert_eq!(vec!["reconciliation_readiness", "manual_result", "command_composer"], kinds);
    assert!(warnings.iter().all(|w| w.expected_id == "required" && w.actual_id.is_none()));
    assert_eq!("Manual result review exists but no manual result", warnings[1].reason);
}

#[test]
fn link_embedding_the_expected_run_is_not_flagged() {
    let links = vec![
        ConsoleEvidenceLink {
            link_kind: "route".into(), record_id: "war_for_wfx_t".into(),
            status: "found".into(), summary: String::new(),
        },
        ConsoleEvidenceLink {
            link_kind: "run".into(), record_id: "wfx_t".into(),
            status: "found".into(), summary: String::new(),
        },
        ConsoleEvidenceLink {
            link_kind: "other".into(), record_id: "wfx_z".into(),
            status: "found".into(), summary: String::new(),
        },
    ];
    let warnings = validate_linkage_aware_chain(&links, "wfx_t", &[], &[]);
    assert_eq!(1, warnings.len());
    assert_eq!("other", warnings[0].link_kind);
    assert_eq!("wfx_t", warnings[0].expected_id);
    assert_eq!(Some("wfx_z".to_string()), warnings[0].actual_id);
    assert_eq!("Evidence link wfx_z references a different workflow run", warnings[0].reason);
}

#[test]
fn linkage_warnings_come_links_then_attestations_then_readiness() {
    let links = vec![ConsoleEvidenceLink {
        link_kind: "l".into(), record_id: "wfx_q".into(), status: String::new(), summary: String::new(),
    }];
    let row = |id: &str, verified: bool| ConsoleAttestationRow {
        attestation_id: id.into(), kind: String::new(), source_name: String::new(), claim: String::new(),
        verified_by_openwand: verified, promotes_trust: false,
    };
    let groups = vec![
        ConsoleAttestationGroup { target_kind: String::new(), target_id: String::new(), attestations: vec![row("watt_a", true), row("watt_b", false)] },
        ConsoleAttestationGroup { target_kind: String::new(), target_id: String::new(), attestations: vec![row("watt_c", true)] },
    ];
    let readiness = vec![ConsoleReadinessEligibilitySummary {
        readiness_id: "wvr_9".into(), target_kind: String::new(), target_id: String::new(),
        status: String::new(), is_eligibility_only: false,
    }];
    let warnings = validate_linkage_aware_chain(&links, "wfx_t", &groups, &readiness);
    let ids: Vec<&str> = warnings.iter().map(|w| w.expected_id.as_str()).collect();
    assert_eq!(vec!["wfx_t", "watt_a", "watt_c", "wvr_9"], ids);
    assert_eq!("Attestation watt_c incorrectly claims verification by OpenWand", warnings[2].reason);
    assert_eq!("Readiness wvr_9 incorrectly claims non-eligibility status", warnings[3].reason);
}

#[test]
fn every_explanation_is_distinct_and_never_directs_execution() {
    let states = [
        WorkflowDetectedLoopState::NeedsInitialContinuationProposal, WorkflowDetectedLoopState::NeedsNextActionReview, WorkflowDetectedLoopState::NeedsRoutingReadiness,
        WorkflowDetectedLoopState::NeedsNextActionRouting, WorkflowDetectedLoopState::NeedsSessionRoutingObservation, WorkflowDetectedLoopState::NeedsApprovalOutcomeResolution,
        WorkflowDetectedLoopState::NeedsOutcomeReconciliation, WorkflowDetectedLoopState::NeedsContinuationAfterReconciliation, WorkflowDetectedLoopState::NeedsCommandDescriptor,
        WorkflowDetectedLoopState::NeedsCommandReview, WorkflowDetectedLoopState::NeedsManualResultCapture, WorkflowDetectedLoopState::NeedsManualResultReview,
        WorkflowDetectedLoopState::NeedsReconciliationReadiness, WorkflowDetectedLoopState::NeedsManualReconciliation, WorkflowDetectedLoopState::WorkflowComplete,
        WorkflowDetectedLoopState::WorkflowBlocked, WorkflowDetectedLoopState::Inconclusive,
    ];
    let texts: Vec<String> = states.iter().map(detected_state_explanation).collect();
    for (i, t) in texts.iter().enumerate() {
        assert!(!t.is_empty());
        assert!(!t.to_lowercase().contains("execute"));
        assert!(!t.to_lowercase().contains("run command"));
        for u in &texts[i + 1..] {
            assert_ne!(t, u);
        }
    }
}
