use vstd::prelude::*;

pub mod outside;
pub mod text;
pub mod text_order;
pub mod ids;
pub mod gate;
pub mod plan;
pub mod context;
pub mod plan_review;
pub mod validation;
pub mod builder;
pub mod workflow_proposal;
pub mod workflow_readiness;
pub mod tool_intent_resolution;
pub mod workflow_proposal_review;
pub mod workflow_run;
pub mod workflow_run_validation;
pub mod workflow_execution_gate;
pub mod workflow_action_route;
pub mod workflow_action_route_validation;
pub mod workflow_action_route_gate;
pub mod workflow_action_outcome;
pub mod workflow_action_outcome_validation;
pub mod workflow_action_outcome_gate;
pub mod workflow_reconciliation;
pub mod workflow_continuation;
pub mod workflow_continuation_validation;
pub mod workflow_next_action_selector;
pub mod workflow_next_action_review;
pub mod workflow_routing_readiness;
pub mod workflow_next_action_routing_gate;
pub mod workflow_manual_operation;
pub mod workflow_loop_recommendation;
pub mod workflow_loop_state;
pub mod workflow_loop_controller;
pub mod workflow_command_descriptor;
pub mod workflow_command_composer;
pub mod workflow_command_review;
pub mod workflow_command_review_validation;
pub mod workflow_manual_result;
pub mod workflow_manual_result_validation;
pub mod workflow_manual_result_review;
pub mod workflow_manual_result_review_validation;
pub mod workflow_manual_result_reconciliation_readiness;
pub mod workflow_manual_result_reconciliation_gate;
pub mod workflow_manual_result_reconciliation_gate_validation;
pub mod workflow_manual_result_reconciliation_gate_evaluator;
pub mod workflow_manual_result_reconciliation_readiness_validation;
pub mod workflow_manual_result_reconciliation_readiness_evaluator;
pub mod workflow_external_attestation;
pub mod workflow_external_attestation_validation;
pub mod workflow_evidence_chain_inspector;
pub mod workflow_evidence_chain_inspector_validation;
pub mod workflow_audit_packet_review;
pub mod workflow_audit_packet_distribution;
pub mod workflow_operator_console;

verus! {
} // verus!
