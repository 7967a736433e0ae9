use workflow::outside::now_utc;
use workflow::workflow_command_composer::{
    WorkflowCommandComposerDecision, WorkflowCommandComposerId, WorkflowCommandComposerRecord,
    WorkflowCommandComposerStatus,
};
use workflow::workflow_command_descriptor::WorkflowManualCommandDescriptor;
use workflow::workflow_command_review::{
    WorkflowCommandAcknowledgmentSnapshot, WorkflowCommandReview, WorkflowCommandReviewDecision,
    WorkflowCommandReviewId,
};
use workflow::workflow_loop_controller::{
    WorkflowLoopControllerDecision, WorkflowLoopControllerId, WorkflowLoopControllerRecord,
    WorkflowLoopControllerStatus,
};
use workflow::workflow_loop_recommendation::WorkflowManualOperationKind;
use workflow::workflow_manual_operation::WorkflowManualCommandKind;
use workflow::workflow_manual_result::{
    WorkflowManualArtifactKind, WorkflowManualArtifactReference, WorkflowManualResult, WorkflowManualResultId,
    WorkflowManualResultRequest, WorkflowManualResultStatus, WorkflowManualResultSummary,
    WorkflowManualResultValidationSnapshot,
};
use workflow::workflow_manual_result_validation::{
    validate_manual_result, ManualResultEvidence, WorkflowManualResultValidationResult,
};
use workflow::workflow_run::WorkflowExecutionId;

// The JSON texts of the stored records whose digests a request names.
const REVIEW_JSON: &str = "{\"review_id\":\"wcrv_t\"}";
const COMPOSER_JSON: &str = "{\"composer_id\":\"wcc_t\"}";
const DESCRIPTOR_JSON: &str = "{\"command_kind\":\"workflow_continuation_propose\"}";
const LC_JSON: &str = "{\"controller_id\":\"wlc_t\"}";

fn digest_of(text: &str) -> String {
    blake3::hash(text.as_bytes()).to_hex().to_string()
}

fn test_result(status: WorkflowManualResultStatus) -> WorkflowManualResult {
    WorkflowManualResult {
        result_id: WorkflowManualResultId("wmr_test".into()),
        workflow_execution_id: WorkflowExecutionId("wfx_t".into()),
        command_review_id: WorkflowCommandReviewId("wcrv_t".into()),
        command_composer_id: WorkflowCommandComposerId("wcc_t".into()),
        loop_controller_id: WorkflowLoopControllerId("wlc_t".into()),
        command_review_hash: "rh".into(),
        command_composer_hash: "ch".into(),
        command_descriptor_hash: "dh".into(),
        loop_controller_hash: "lh".into(),
        status,
        operator: "tester".into(),
        summary: WorkflowManualResultSummary {
            operator_summary: "done".into(),
            operator_details: None,
            reported_status: WorkflowManualResultStatus::ReportedSucceeded,
            caveat: "Operator-reported, not verified by OpenWand.".into(),
        },
        artifact_references: vec![],
        validation_snapshot: WorkflowManualResultValidationSnapshot {
            command_review_was_acknowledged: true,
            command_review_hash_matched: true,
            command_composer_hash_matched: true,
            command_descriptor_hash_matched: true,
            loop_controller_hash_matched: true,
            command_review_marked_not_performed_by_openwand: true,
        },
        reported_by_operator: true,
        verified_by_openwand: false, command_executed_by_openwand: false,
        mutates_workflow_state: false, reconciles_outcome: false,
        routes_action: false, resolves_approval: false,
        appends_trace: false, writes_memory: false,
        invokes_shell: false, invokes_git: false,
        creates_execution_grant: false, execution_allowed_now: false,
        captured_at: now_utc(),
    }
}

fn base_request() -> WorkflowManualResultRequest {
    WorkflowManualResultRequest {
        workflow_execution_id: WorkflowExecutionId("wfx_t".into()),
        command_review_id: WorkflowCommandReviewId("wcrv_t".into()),
        command_composer_id: WorkflowCommandComposerId("wcc_t".into()),
        loop_controller_id: WorkflowLoopControllerId("wlc_t".into()),
        expected_command_review_hash: "rh".into(),
        expected_command_composer_hash: "ch".into(),
        expected_command_descriptor_hash: "dh".into(),
        expected_loop_controller_hash: "lh".into(),
        status: WorkflowManualResultStatus::ReportedSucceeded,
        operator: "tester".into(),
        summary: "ok".into(), details: None,
        artifact_references: vec![], captured_at: now_utc(),
        idempotency_key: "k".into(),
    }
}

#[test]
fn workflow_manual_result_id_is_content_addressed() {
    let mut h1 = blake3::Hasher::new();
    h1.update(b"manual_result:v1:wfx_t:wcrv_t:k1");
    let id1 = format!("wmr_{}", &h1.finalize().to_hex()[..16]);
    let mut h2 = blake3::Hasher::new();
    h2.update(b"manual_result:v1:wfx_t:wcrv_t:k1");
    let id2 = format!("wmr_{}", &h2.finalize().to_hex()[..16]);
    assert_eq!(id1, id2);
}

#[test]
fn workflow_manual_result_requires_operator() {
    let mut req = base_request();
    req.operator = String::new();
    assert!(req.operator.is_empty());
    req.operator = "valid".into();
    assert!(!req.operator.is_empty());
}

#[test]
fn workflow_manual_result_requires_summary() {
    let mut req = base_request();
    req.summary = String::new();
    assert!(req.summary.is_empty());
}

#[test]
fn workflow_manual_result_has_reported_not_verified_flags() {
    let r = test_result(WorkflowManualResultStatus::ReportedSucceeded);
    assert!(r.reported_by_operator);
    assert!(!r.verified_by_openwand);
    assert!(!r.command_executed_by_openwand);
}

#[test]
fn workflow_manual_result_has_reported_true_and_verified_false_flags() {
    let r = test_result(WorkflowManualResultStatus::ReportedSucceeded);
    assert!(r.reported_by_operator, "reported_by_operator must be true");
    assert!(!r.verified_by_openwand, "verified_by_openwand must be false");
    assert!(!r.command_executed_by_openwand, "command_executed_by_openwand must be false");
}

#[test]
fn workflow_manual_result_has_no_execution_authority() {
    let r = test_result(WorkflowManualResultStatus::ReportedSucceeded);
    assert!(!r.mutates_workflow_state); assert!(!r.reconciles_outcome);
    assert!(!r.routes_action); assert!(!r.resolves_approval);
    assert!(!r.appends_trace); assert!(!r.writes_memory);
    assert!(!r.invokes_shell); assert!(!r.invokes_git);
    assert!(!r.creates_execution_grant); assert!(!r.execution_allowed_now);
}

// --- validation ---

fn test_review() -> WorkflowCommandReview {
    WorkflowCommandReview {
        review_id: WorkflowCommandReviewId("wcrv_t".into()),
        workflow_execution_id: WorkflowExecutionId("wfx_t".into()),
        command_composer_id: WorkflowCommandComposerId("wcc_t".into()),
        loop_controller_id: WorkflowLoopControllerId("wlc_t".into()),
        command_composer_hash: "ch".into(), command_descriptor_hash: "dh".into(),
        loop_controller_hash: "lh".into(),
        decision: WorkflowCommandReviewDecision::Acknowledged,
        reviewer: "tester".into(), rationale: "ok".into(), feedback: None,
        acknowledgment_snapshot: WorkflowCommandAcknowledgmentSnapshot {
            descriptor_display_command: "test".into(),
            descriptor_copyable_text_hash: "cth".into(),
            descriptor_display_only: true, descriptor_executable: false,
            descriptor_missing_inputs: vec![], loop_detected_state: "idle".into(),
            loop_recommended_operation: "none".into(),
            acknowledges_review_only: true, command_performed_now: false,
        },
        executes_command: false, invokes_shell: false, invokes_git: false,
        routes_action: false, resolves_approval: false, reconciles_outcome: false,
        mutates_workflow_state: false, schedules_work: false, starts_worker: false,
        queues_operation: false, creates_execution_grant: false,
        execution_allowed_now: false, reviewed_at: now_utc(),
    }
}

fn test_composer() -> WorkflowCommandComposerRecord {
    WorkflowCommandComposerRecord {
        composer_id: WorkflowCommandComposerId("wcc_t".into()),
        workflow_execution_id: WorkflowExecutionId("wfx_t".into()),
        loop_controller_id: WorkflowLoopControllerId("wlc_t".into()),
        loop_controller_hash: "lh".into(),
        status: WorkflowCommandComposerStatus::DescriptorReady,
        decision: WorkflowCommandComposerDecision::DescriptorReady { summary: "ok".into() },
        predicates: vec![], descriptor: Some(WorkflowManualCommandDescriptor {
            command_kind: WorkflowManualCommandKind::WorkflowContinuationPropose,
            display_command: "test".into(), arguments: vec![],
            missing_inputs: vec![], safety_warnings: vec![], evidence_links: vec![],
            copyable_text: "test".into(), display_only: true, executable: false,
        }),
        missing_inputs: vec![], evidence_links: vec![],
        executes_command: false, invokes_shell: false, invokes_git: false,
        routes_action: false, resolves_approval: false, reconciles_outcome: false,
        mutates_workflow_state: false, schedules_work: false, starts_worker: false,
        queues_operation: false, created_at: now_utc(),
    }
}

fn test_lc() -> WorkflowLoopControllerRecord {
    WorkflowLoopControllerRecord {
        controller_id: WorkflowLoopControllerId("wlc_t".into()),
        workflow_execution_id: WorkflowExecutionId("wfx_t".into()),
        latest_run_revision_id: None,
        status: WorkflowLoopControllerStatus::RecommendationReady,
        decision: WorkflowLoopControllerDecision::Recommend {
            operation: WorkflowManualOperationKind::NoAction, summary: "test".into(),
        },
        loop_state: None, recommendation: None,
        predicates: vec![], evidence_links: vec![],
        creates_route: false, resolves_approval: false, reconciles_outcome: false,
        executes_tool: false, mutates_workflow_state: false,
        schedules_work: false, starts_worker: false, queues_operation: false,
        retries_operation: false, resumes_workflow: false, created_at: now_utc(),
    }
}

fn valid_request() -> WorkflowManualResultRequest {
    WorkflowManualResultRequest {
        expected_command_review_hash: digest_of(REVIEW_JSON),
        expected_command_composer_hash: digest_of(COMPOSER_JSON),
        expected_command_descriptor_hash: digest_of(DESCRIPTOR_JSON),
        expected_loop_controller_hash: digest_of(LC_JSON),
        workflow_execution_id: WorkflowExecutionId("wfx_t".into()),
        command_review_id: WorkflowCommandReviewId("wcrv_t".into()),
        command_composer_id: WorkflowCommandComposerId("wcc_t".into()),
        loop_controller_id: WorkflowLoopControllerId("wlc_t".into()),
        status: WorkflowManualResultStatus::ReportedSucceeded,
        operator: "tester".into(), summary: "done".into(),
        details: None, artifact_references: vec![],
        captured_at: now_utc(), idempotency_key: "k1".into(),
    }
}

fn validate(
    req: &WorkflowManualResultRequest,
    review: Option<&WorkflowCommandReview>,
    composer: Option<&WorkflowCommandComposerRecord>,
    lc: Option<&WorkflowLoopControllerRecord>,
) -> Result<WorkflowManualResult, Vec<WorkflowManualResultValidationResult>> {
    let evidence = ManualResultEvidence {
        review_record: review,
        composer_record: composer,
        loop_controller_record: lc,
        review_json: REVIEW_JSON,
        composer_json: COMPOSER_JSON,
        descriptor_json: DESCRIPTOR_JSON,
        loop_controller_json: LC_JSON,
    };
    validate_manual_result(req, &evidence)
}

#[test]
fn blocks_missing_command_review() {
    let composer = test_composer(); let lc = test_lc();
    let r = validate(&valid_request(), None, Some(&composer), Some(&lc));
    assert!(r.is_err());
}

#[test]
fn blocks_missing_command_composer() {
    let review = test_review(); let lc = test_lc();
    let r = validate(&valid_request(), Some(&review), None, Some(&lc));
    assert!(r.is_err());
}

#[test]
fn blocks_missing_loop_controller() {
    let review = test_review(); let composer = test_composer();
    let r = validate(&valid_request(), Some(&review), Some(&composer), None);
    assert!(r.is_err());
}

#[test]
fn blocks_command_review_hash_mismatch() {
    let review = test_review(); let composer = test_composer(); let lc = test_lc();
    let mut req = valid_request();
    req.expected_command_review_hash = "wrong".into();
    let r = validate(&req, Some(&review), Some(&composer), Some(&lc));
    assert!(r.is_err());
}

#[test]
fn workflow_manual_result_validation_blocks_command_composer_hash_mismatch() {
    let review = test_review(); let composer = test_composer(); let lc = test_lc();
    let mut req = valid_request();
    req.expected_command_composer_hash = "wrong".into();
    let r = validate(&req, Some(&review), Some(&composer), Some(&lc));
    assert!(r.is_err());
}

#[test]
fn workflow_manual_result_validation_blocks_command_descriptor_hash_mismatch() {
    let review = test_review(); let composer = test_composer(); let lc = test_lc();
    let mut req = valid_request();
    req.expected_command_descriptor_hash = "wrong".into();
    let r = validate(&req, Some(&review), Some(&composer), Some(&lc));
    assert!(r.is_err());
}

#[test]
fn workflow_manual_result_validation_blocks_loop_controller_hash_mismatch() {
    let review = test_review(); let composer = test_composer(); let lc = test_lc();
    let mut req = valid_request();
    req.expected_loop_controller_hash = "wrong".into();
    let r = validate(&req, Some(&review), Some(&composer), Some(&lc));
    assert!(r.is_err());
}

#[test]
fn blocks_unacknowledged_command_review() {
    let mut review = test_review();
    review.decision = WorkflowCommandReviewDecision::Rejected;
    let composer = test_composer(); let lc = test_lc();
    let r = validate(&valid_request(), Some(&review), Some(&composer), Some(&lc));
    assert!(r.is_err());
}

#[test]
fn blocks_command_review_that_claims_command_performed() {
    let mut review = test_review();
    review.acknowledgment_snapshot.command_performed_now = true;
    let composer = test_composer(); let lc = test_lc();
    let r = validate(&valid_request(), Some(&review), Some(&composer), Some(&lc));
    assert!(r.is_err());
}

#[test]
fn reported_failed_requires_details_or_artifact() {
    let review = test_review(); let composer = test_composer(); let lc = test_lc();
    let mut req = valid_request();
    req.status = WorkflowManualResultStatus::ReportedFailed;
    req.details = None;
    req.artifact_references = vec![];
    let r = validate(&req, Some(&review), Some(&composer), Some(&lc));
    assert!(r.is_err());
}

#[test]
fn reported_partial_requires_details() {
    let review = test_review(); let composer = test_composer(); let lc = test_lc();
    let mut req = valid_request();
    req.status = WorkflowManualResultStatus::ReportedPartial;
    req.details = None;
    let r = validate(&req, Some(&review), Some(&composer), Some(&lc));
    assert!(r.is_err());
}

#[test]
fn manual_result_capture_does_not_verify_external_state() {
    let review = test_review(); let composer = test_composer(); let lc = test_lc();
    let r = validate(&valid_request(), Some(&review), Some(&composer), Some(&lc)).unwrap();
    assert!(!r.verified_by_openwand);
    assert!(!r.command_executed_by_openwand);
}

// --- own checks ---

#[test]
fn result_id_is_digest_of_run_review_and_key() {
    let review = test_review(); let composer = test_composer(); let lc = test_lc();
    let r = validate(&valid_request(), Some(&review), Some(&composer), Some(&lc)).unwrap();
    let expected = format!("wmr_{}", &digest_of("manual_result:v1:wfx_t:wcrv_t:k1")[..16]);
    assert_eq!(expected, r.result_id.0);
    assert_eq!(digest_of(REVIEW_JSON), r.command_review_hash);
    assert_eq!(digest_of(LC_JSON), r.loop_controller_hash);
    assert_eq!("Operator-reported, not verified by OpenWand.", r.summary.caveat);
}

#[test]
fn reported_failed_with_artifact_passes() {
    let review = test_review(); let composer = test_composer(); let lc = test_lc();
    let mut req = valid_request();
    req.status = WorkflowManualResultStatus::ReportedFailed;
    req.artifact_references = vec![WorkflowManualArtifactReference {
        artifact_id: "art_1".into(), label: "log".into(),
        kind: WorkflowManualArtifactKind::LogExcerpt,
        reference: "/tmp/log.txt".into(),
        operator_supplied_hash: Some("abc123".into()),
        description: Some("build log".into()),
    }];
    let r = validate(&req, Some(&review), Some(&composer), Some(&lc)).unwrap();
    assert_eq!(1, r.artifact_references.len());
    assert_eq!(Some("abc123".to_string()), r.artifact_references[0].operator_supplied_hash);
}

#[test]
fn every_failing_rule_is_reported() {
    let mut req = valid_request();
    req.operator = String::new();
    req.summary = String::new();
    let errors = validate(&req, None, None, None).unwrap_err();
    assert_eq!(15, errors.len());
    let failed = errors.iter().filter(|e| !e.passed).count();
    // the three missing records and the two empty fields
    assert_eq!(5, failed);
}
