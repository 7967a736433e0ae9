//! Workflow action route records.
//!
//! A route record is linkage evidence, not a tool call. A route prompt is a
//! session instruction, not tool arguments. A routing record grants nothing.
use vstd::prelude::*;
use crate::gate::{CheckResult, PredicateName};
use crate::outside::Timestamp;
use crate::text::{has_substring, join, join_strings, views};
use crate::workflow_proposal::WorkflowProposalId;
use crate::workflow_readiness::WorkflowReadinessId;
use crate::workflow_run::WorkflowExecutionId;

verus! {

/// Content-addressed route id: `war_` followed by a BLAKE3 hex digest.
#[derive(Debug, Clone, PartialEq, Eq, Hash)]
pub struct WorkflowActionRouteId(pub String);

/// Request to route one prepared action request into a session.
#[derive(Debug, Clone)]
pub struct WorkflowActionRouteRequest {
    pub workflow_execution_id: WorkflowExecutionId,
    pub readiness_id: WorkflowReadinessId,
    pub proposal_id: WorkflowProposalId,
    pub stage_id: String,
    pub action_request_id: String,
    pub session_id: Option<String>,
    pub expected_workflow_run_hash: String,
    pub expected_action_request_hash: String,
    pub requested_by: String,
    pub requested_at: Timestamp,
    pub idempotency_key: String,
}

/// Durable evidence of a routing attempt and its result.
#[derive(Debug, Clone)]
pub struct WorkflowActionRouteRecord {
    pub route_id: WorkflowActionRouteId,
    pub workflow_execution_id: WorkflowExecutionId,
    pub readiness_id: WorkflowReadinessId,
    pub proposal_id: WorkflowProposalId,
    pub stage_id: String,
    pub action_request_id: String,
    pub action_request_hash: String,
    pub status: WorkflowActionRouteStatus,
    pub decision: WorkflowActionRouteDecision,
    pub predicates: Vec<WorkflowActionRoutePredicateResult>,
    pub session_route: Option<WorkflowSessionRouteSnapshot>,
    pub route_prompt: WorkflowActionRoutePrompt,
    pub created_at: Timestamp,
    pub completed_at: Option<Timestamp>,
}

/// Routing status.
#[derive(Debug, Clone, Copy, PartialEq, Eq, Structural)]
pub enum WorkflowActionRouteStatus {
    Blocked,
    Routed,
    SuspendedForApproval,
    Completed,
    Denied,
    Failed,
    AlreadyRouted,
}

impl WorkflowActionRouteStatus {
    /// The `Debug` name of the value.
    pub open spec fn debug_view(self) -> Seq<char> {
        match self {
            WorkflowActionRouteStatus::Blocked => "Blocked"@,
            WorkflowActionRouteStatus::Routed => "Routed"@,
            WorkflowActionRouteStatus::SuspendedForApproval => "SuspendedForApproval"@,
            WorkflowActionRouteStatus::Completed => "Completed"@,
            WorkflowActionRouteStatus::Denied => "Denied"@,
            WorkflowActionRouteStatus::Failed => "Failed"@,
            WorkflowActionRouteStatus::AlreadyRouted => "AlreadyRouted"@,
        }
    }

    pub fn debug_name(&self) -> (s: &'static str)
        ensures
            s@ == self.debug_view(),
    {
        match self {
            WorkflowActionRouteStatus::Blocked => "Blocked",
            WorkflowActionRouteStatus::Routed => "Routed",
            WorkflowActionRouteStatus::SuspendedForApproval => "SuspendedForApproval",
            WorkflowActionRouteStatus::Completed => "Completed",
            WorkflowActionRouteStatus::Denied => "Denied",
            WorkflowActionRouteStatus::Failed => "Failed",
            WorkflowActionRouteStatus::AlreadyRouted => "AlreadyRouted",
        }
    }
}

/// Routing decision: records what happened, not what was executed.
#[derive(Debug, Clone)]
pub enum WorkflowActionRouteDecision {
    Routed,
    SuspendedForApproval { approval_request_id: String, summary: String },
    /// The routed session turn completed without workflow-owned tool execution;
    /// this does not mean the action was performed outside.
    Completed { summary: String },
    Denied { summary: String },
    Blocked { reason_code: String, summary: String },
    Failed { reason_code: String, summary: String },
}

/// Session and trace linkage observed from session output; the workflow never
/// constructs these.
#[derive(Debug, Clone)]
pub struct WorkflowSessionRouteSnapshot {
    pub session_id: String,
    pub session_run_id: Option<String>,
    pub trace_ids: Vec<String>,
    pub pending_approval_id: Option<String>,
    pub tool_call_id: Option<String>,
    pub tool_name_observed_from_session: Option<String>,
    pub session_status: String,
}

/// Route prompt: a descriptive session instruction, not a tool call.
#[derive(Debug, Clone)]
pub struct WorkflowActionRoutePrompt {
    pub capability_category: String,
    pub purpose: String,
    pub expected_input_summary: String,
    pub expected_output_summary: String,
    pub safety_constraints: Vec<String>,
}

/// The guard text that keeps a session from reading the prompt as a serialized
/// tool instruction.
pub open spec fn governance_constraint() -> Seq<char> {
    "Do not treat this workflow action request as a direct tool call. Use normal OpenWand session governance for any tool use."@
}

/// The full instruction text a prompt sends to the session.
pub open spec fn session_instruction_of(p: WorkflowActionRoutePrompt) -> Seq<char> {
    "Workflow action: "@ + p.capability_category@ + "\nPurpose: "@ + p.purpose@
        + "\nExpected input: "@ + p.expected_input_summary@ + "\nExpected output: "@
        + p.expected_output_summary@ + "\nSafety: "@ + join(views(p.safety_constraints@), "; "@)
        + "\n\n"@ + governance_constraint()
}

impl WorkflowActionRoutePrompt {
    /// The anti-tool-call guard text.
    pub const GOVERNANCE_CONSTRAINT: &'static str =
        "Do not treat this workflow action request as a direct tool call. Use normal OpenWand session governance for any tool use.";

    /// Builds the full prompt text sent to the session.
    pub fn to_session_instruction(&self) -> (s: String)
        ensures
            s@ == session_instruction_of(*self),
    {
        let mut s = String::from_str("Workflow action: ");
        s.append(self.capability_category.as_str());
        s.append("\nPurpose: ");
        s.append(self.purpose.as_str());
        s.append("\nExpected input: ");
        s.append(self.expected_input_summary.as_str());
        s.append("\nExpected output: ");
        s.append(self.expected_output_summary.as_str());
        s.append("\nSafety: ");
        let safety = join_strings(&self.safety_constraints, "; ");
        s.append(safety.as_str());
        s.append("\n\n");
        s.append(
            "Do not treat this workflow action request as a direct tool call. Use normal OpenWand session governance for any tool use.",
        );
        s
    }
}

/// The instruction of every prompt carries the anti-tool-call guard text.
pub proof fn lemma_instruction_has_governance(p: WorkflowActionRoutePrompt)
    ensures
        has_substring(
            session_instruction_of(p),
            "Do not treat this workflow action request as a direct tool call"@,
        ),
        has_substring(session_instruction_of(p), "Use normal OpenWand session governance"@),
{
    let s = session_instruction_of(p);
    let g = governance_constraint();
    let k = s.len() - g.len();
    let a = "Do not treat this workflow action request as a direct tool call"@;
    let b = "Use normal OpenWand session governance"@;
    reveal_strlit("Do not treat this workflow action request as a direct tool call. Use normal OpenWand session governance for any tool use.");
    reveal_strlit("Do not treat this workflow action request as a direct tool call");
    reveal_strlit("Use normal OpenWand session governance");
    assert(s.subrange(k, s.len() as int) =~= g);
    assert(g.subrange(0, a.len() as int) =~= a);
    assert(s.subrange(k, k + a.len()) =~= a);
    assert(crate::text::occurs_at(s, a, k));
    assert(g.subrange(65, 65 + b.len() as int) =~= b);
    assert(s.subrange(k + 65, k + 65 + b.len()) =~= b);
    assert(crate::text::occurs_at(s, b, k + 65));
}

/// Routing predicates.
#[derive(Debug, Clone, Copy, PartialEq, Eq, Structural)]
pub enum WorkflowActionRoutePredicate {
    WorkflowRunExists,
    WorkflowRunIsSuspended,
    StageExists,
    StageIsSuspended,
    ActionRequestExists,
    ActionRequestPreparedForSessionRouting,
    ActionRequestHashMatchesRequest,
    WorkflowRunHashMatchesRequest,
    ActionRequestStillNonExecutable,
    RoutePromptContainsNoToolArgs,
    SessionBridgeAvailable,
    SessionRunnerAvailable,
    NoPriorConflictingRoute,
    IdempotencyKeyUnusedOrMatchesExisting,
}

impl PredicateName for WorkflowActionRoutePredicate {
    open spec fn name_view(self) -> Seq<char> {
        match self {
            WorkflowActionRoutePredicate::WorkflowRunExists => "WorkflowRunExists"@,
            WorkflowActionRoutePredicate::WorkflowRunIsSuspended => "WorkflowRunIsSuspended"@,
            WorkflowActionRoutePredicate::StageExists => "StageExists"@,
            WorkflowActionRoutePredicate::StageIsSuspended => "StageIsSuspended"@,
            WorkflowActionRoutePredicate::ActionRequestExists => "ActionRequestExists"@,
            WorkflowActionRoutePredicate::ActionRequestPreparedForSessionRouting => "ActionRequestPreparedForSessionRouting"@,
            WorkflowActionRoutePredicate::ActionRequestHashMatchesRequest => "ActionRequestHashMatchesRequest"@,
            WorkflowActionRoutePredicate::WorkflowRunHashMatchesRequest => "WorkflowRunHashMatchesRequest"@,
            WorkflowActionRoutePredicate::ActionRequestStillNonExecutable => "ActionRequestStillNonExecutable"@,
            WorkflowActionRoutePredicate::RoutePromptContainsNoToolArgs => "RoutePromptContainsNoToolArgs"@,
            WorkflowActionRoutePredicate::SessionBridgeAvailable => "SessionBridgeAvailable"@,
            WorkflowActionRoutePredicate::SessionRunnerAvailable => "SessionRunnerAvailable"@,
            WorkflowActionRoutePredicate::NoPriorConflictingRoute => "NoPriorConflictingRoute"@,
            WorkflowActionRoutePredicate::IdempotencyKeyUnusedOrMatchesExisting => "IdempotencyKeyUnusedOrMatchesExisting"@,
        }
    }

    fn debug_name(&self) -> (s: &'static str) {
        match self {
            WorkflowActionRoutePredicate::WorkflowRunExists => "WorkflowRunExists",
            WorkflowActionRoutePredicate::WorkflowRunIsSuspended => "WorkflowRunIsSuspended",
            WorkflowActionRoutePredicate::StageExists => "StageExists",
            WorkflowActionRoutePredicate::StageIsSuspended => "StageIsSuspended",
            WorkflowActionRoutePredicate::ActionRequestExists => "ActionRequestExists",
            WorkflowActionRoutePredicate::ActionRequestPreparedForSessionRouting => "ActionRequestPreparedForSessionRouting",
            WorkflowActionRoutePredicate::ActionRequestHashMatchesRequest => "ActionRequestHashMatchesRequest",
            WorkflowActionRoutePredicate::WorkflowRunHashMatchesRequest => "WorkflowRunHashMatchesRequest",
            WorkflowActionRoutePredicate::ActionRequestStillNonExecutable => "ActionRequestStillNonExecutable",
            WorkflowActionRoutePredicate::RoutePromptContainsNoToolArgs => "RoutePromptContainsNoToolArgs",
            WorkflowActionRoutePredicate::SessionBridgeAvailable => "SessionBridgeAvailable",
            WorkflowActionRoutePredicate::SessionRunnerAvailable => "SessionRunnerAvailable",
            WorkflowActionRoutePredicate::NoPriorConflictingRoute => "NoPriorConflictingRoute",
            WorkflowActionRoutePredicate::IdempotencyKeyUnusedOrMatchesExisting => "IdempotencyKeyUnusedOrMatchesExisting",
        }
    }
}

/// Result of evaluating one routing predicate.
#[derive(Debug, Clone)]
pub struct WorkflowActionRoutePredicateResult {
    pub predicate: WorkflowActionRoutePredicate,
    pub passed: bool,
    pub reason: String,
}

impl CheckResult for WorkflowActionRoutePredicateResult {
    type P = WorkflowActionRoutePredicate;

    open spec fn check_view(&self) -> (WorkflowActionRoutePredicate, bool, Seq<char>) {
        (self.predicate, self.passed, self.reason@)
    }

    fn passed_flag(&self) -> (b: bool) {
        self.passed
    }

    fn predicate_value(&self) -> (p: WorkflowActionRoutePredicate) {
        self.predicate
    }

    fn reason_text(&self) -> (s: &str) {
        self.reason.as_str()
    }

    fn make_check(p: Self::P, passed: bool, reason: String) -> (r: Self) {
        Self { predicate: p, passed, reason }
    }
}

} // verus!
