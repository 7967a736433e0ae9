//! Next-action routing gate: revalidates the whole chain before one route.
//!
//! Routing readiness is not routing, and a reviewed readiness record is not
//! execution. This module decides whether one route may be requested through the
//! existing routing path; it creates no route and executes no tool.
use vstd::prelude::*;
use crate::gate::{
    all_checks_pass, all_pass, build_checks, check_views, checks_from, failed_names_lowercase_joined,
    lowercase_failed_names, table_view, CheckResult, PredicateName,
};
use crate::ids::{text_digest_id, text_digest_id16, text_id, text_id16};
use crate::outside::{now_utc, Timestamp};
use crate::text::join;
use crate::workflow_action_route::WorkflowActionRouteId;
use crate::workflow_continuation::{WorkflowNextActionProposal, WorkflowNextActionProposalId};
use crate::workflow_next_action_review::{WorkflowNextActionReview, WorkflowNextActionReviewDecision, WorkflowNextActionReviewId};
use crate::workflow_next_action_selector::{deps_all_terminal, deps_terminal_exec, find_stage_index, stage_index_from};
use crate::workflow_reconciliation::{is_terminal, is_terminal_stage_status, WorkflowRunRevision, WorkflowRunRevisionId};
use crate::workflow_routing_readiness::{
    WorkflowRouteRequestPreview, WorkflowRoutingReadinessId, WorkflowRoutingReadinessRecord,
    WorkflowRoutingReadinessStatus,
};
use crate::workflow_run::{WorkflowActionRequest, WorkflowActionRoutingStatus, WorkflowExecutionId, WorkflowStageRun, WorkflowStageRunStatus};

verus! {

/// Content-addressed next-action routing id (`wnaroute_` and 16 hex digits).
#[derive(Debug, Clone, PartialEq, Eq, Hash)]
pub struct WorkflowNextActionRoutingId(pub String);

/// Request to route one reviewed, ready next action through the existing path.
#[derive(Debug, Clone)]
pub struct WorkflowNextActionRoutingRequest {
    pub routing_readiness_id: WorkflowRoutingReadinessId,
    pub next_action_proposal_id: WorkflowNextActionProposalId,
    pub next_action_review_id: WorkflowNextActionReviewId,
    pub workflow_execution_id: WorkflowExecutionId,
    pub source_run_revision_id: WorkflowRunRevisionId,
    pub expected_routing_readiness_hash: String,
    pub expected_proposal_hash: String,
    pub expected_review_hash: String,
    pub expected_run_revision_hash: String,
    /// Binds the action request at the routing boundary.
    pub expected_action_request_hash: String,
    pub requested_by: String,
    pub requested_at: Timestamp,
    pub idempotency_key: String,
}

/// Durable evidence that a readiness record was consumed into one route attempt.
#[derive(Debug, Clone)]
pub struct WorkflowNextActionRoutingRecord {
    pub routing_id: WorkflowNextActionRoutingId,
    pub routing_readiness_id: WorkflowRoutingReadinessId,
    pub next_action_proposal_id: WorkflowNextActionProposalId,
    pub next_action_review_id: WorkflowNextActionReviewId,
    pub workflow_execution_id: WorkflowExecutionId,
    pub source_run_revision_id: WorkflowRunRevisionId,
    pub status: WorkflowNextActionRoutingStatus,
    pub decision: WorkflowNextActionRoutingDecision,
    pub predicates: Vec<WorkflowNextActionRoutingPredicateResult>,
    /// Hash of the route preview at routing time, for audit.
    pub route_request_preview_hash: String,
    /// The route created through the existing path (only when routed).
    pub created_route_id: Option<WorkflowActionRouteId>,
    pub created_at: Timestamp,
    pub completed_at: Option<Timestamp>,
}

/// Routing status.
#[derive(Debug, Clone, Copy, PartialEq, Eq, Structural)]
pub enum WorkflowNextActionRoutingStatus {
    Blocked,
    Routed,
    Failed,
    AlreadyRouted,
}

/// Routing decision: what happened, not what was executed.
#[derive(Debug, Clone)]
pub enum WorkflowNextActionRoutingDecision {
    Routed { route_id: WorkflowActionRouteId, summary: String },
    Blocked { reason_code: String, summary: String },
    Failed { reason_code: String, summary: String },
    AlreadyRouted { route_id: WorkflowActionRouteId, summary: String },
}

/// Routing-time checks over the whole chain, from readiness to route preview.
#[derive(Debug, Clone, Copy, PartialEq, Eq, Structural)]
pub enum WorkflowNextActionRoutingPredicate {
    RoutingReadinessExists,
    RoutingReadinessIsReady,
    RoutingReadinessHashMatchesRequest,
    NextActionProposalExists,
    NextActionReviewExists,
    NextActionReviewIsLatest,
    NextActionReviewApproved,
    ProposalHashMatchesReadiness,
    ProposalHashMatchesRequest,
    ReviewHashMatchesReadiness,
    ReviewHashMatchesRequest,
    RunRevisionExists,
    RunRevisionIsLatest,
    RunRevisionHashMatchesReadiness,
    RunRevisionHashMatchesRequest,
    CandidateStageExists,
    CandidateStageStillPending,
    CandidateStageDependenciesStillTerminal,
    SelectorNoSkipStillHolds,
    ActionRequestExists,
    ActionRequestPreparedForRouting,
    ActionRequestRemainsNonExecutable,
    ActionRequestHashMatchesReadiness,
    ActionRequestHashMatchesRequest,
    RoutePreviewExists,
    RoutePreviewStillDescriptiveOnly,
    RoutePreviewCreatesNoRouteNow,
    NoPriorConflictingNextActionRouting,
    NoPriorRouteForSameReadiness,
    IdempotencyKeyUnusedOrMatchesExisting,
    ProposalReviewReadinessCrossReferencesMatch,
}

impl PredicateName for WorkflowNextActionRoutingPredicate {
    open spec fn name_view(self) -> Seq<char> {
        match self {
            WorkflowNextActionRoutingPredicate::RoutingReadinessExists => "RoutingReadinessExists"@,
            WorkflowNextActionRoutingPredicate::RoutingReadinessIsReady => "RoutingReadinessIsReady"@,
            WorkflowNextActionRoutingPredicate::RoutingReadinessHashMatchesRequest => "RoutingReadinessHashMatchesRequest"@,
            WorkflowNextActionRoutingPredicate::NextActionProposalExists => "NextActionProposalExists"@,
            WorkflowNextActionRoutingPredicate::NextActionReviewExists => "NextActionReviewExists"@,
            WorkflowNextActionRoutingPredicate::NextActionReviewIsLatest => "NextActionReviewIsLatest"@,
            WorkflowNextActionRoutingPredicate::NextActionReviewApproved => "NextActionReviewApproved"@,
            WorkflowNextActionRoutingPredicate::ProposalHashMatchesReadiness => "ProposalHashMatchesReadiness"@,
            WorkflowNextActionRoutingPredicate::ProposalHashMatchesRequest => "ProposalHashMatchesRequest"@,
            WorkflowNextActionRoutingPredicate::ReviewHashMatchesReadiness => "ReviewHashMatchesReadiness"@,
            WorkflowNextActionRoutingPredicate::ReviewHashMatchesRequest => "ReviewHashMatchesRequest"@,
            WorkflowNextActionRoutingPredicate::RunRevisionExists => "RunRevisionExists"@,
            WorkflowNextActionRoutingPredicate::RunRevisionIsLatest => "RunRevisionIsLatest"@,
            WorkflowNextActionRoutingPredicate::RunRevisionHashMatchesReadiness => "RunRevisionHashMatchesReadiness"@,
            WorkflowNextActionRoutingPredicate::RunRevisionHashMatchesRequest => "RunRevisionHashMatchesRequest"@,
            WorkflowNextActionRoutingPredicate::CandidateStageExists => "CandidateStageExists"@,
            WorkflowNextActionRoutingPredicate::CandidateStageStillPending => "CandidateStageStillPending"@,
            WorkflowNextActionRoutingPredicate::CandidateStageDependenciesStillTerminal => "CandidateStageDependenciesStillTerminal"@,
            WorkflowNextActionRoutingPredicate::SelectorNoSkipStillHolds => "SelectorNoSkipStillHolds"@,
            WorkflowNextActionRoutingPredicate::ActionRequestExists => "ActionRequestExists"@,
            WorkflowNextActionRoutingPredicate::ActionRequestPreparedForRouting => "ActionRequestPreparedForRouting"@,
            WorkflowNextActionRoutingPredicate::ActionRequestRemainsNonExecutable => "ActionRequestRemainsNonExecutable"@,
            WorkflowNextActionRoutingPredicate::ActionRequestHashMatchesReadiness => "ActionRequestHashMatchesReadiness"@,
            WorkflowNextActionRoutingPredicate::ActionRequestHashMatchesRequest => "ActionRequestHashMatchesRequest"@,
            WorkflowNextActionRoutingPredicate::RoutePreviewExists => "RoutePreviewExists"@,
            WorkflowNextActionRoutingPredicate::RoutePreviewStillDescriptiveOnly => "RoutePreviewStillDescriptiveOnly"@,
            WorkflowNextActionRoutingPredicate::RoutePreviewCreatesNoRouteNow => "RoutePreviewCreatesNoRouteNow"@,
            WorkflowNextActionRoutingPredicate::NoPriorConflictingNextActionRouting => "NoPriorConflictingNextActionRouting"@,
            WorkflowNextActionRoutingPredicate::NoPriorRouteForSameReadiness => "NoPriorRouteForSameReadiness"@,
            WorkflowNextActionRoutingPredicate::IdempotencyKeyUnusedOrMatchesExisting => "IdempotencyKeyUnusedOrMatchesExisting"@,
            WorkflowNextActionRoutingPredicate::ProposalReviewReadinessCrossReferencesMatch => "ProposalReviewReadinessCrossReferencesMatch"@,
        }
    }

    fn debug_name(&self) -> (s: &'static str) {
        match self {
            WorkflowNextActionRoutingPredicate::RoutingReadinessExists => "RoutingReadinessExists",
            WorkflowNextActionRoutingPredicate::RoutingReadinessIsReady => "RoutingReadinessIsReady",
            WorkflowNextActionRoutingPredicate::RoutingReadinessHashMatchesRequest => "RoutingReadinessHashMatchesRequest",
            WorkflowNextActionRoutingPredicate::NextActionProposalExists => "NextActionProposalExists",
            WorkflowNextActionRoutingPredicate::NextActionReviewExists => "NextActionReviewExists",
            WorkflowNextActionRoutingPredicate::NextActionReviewIsLatest => "NextActionReviewIsLatest",
            WorkflowNextActionRoutingPredicate::NextActionReviewApproved => "NextActionReviewApproved",
            WorkflowNextActionRoutingPredicate::ProposalHashMatchesReadiness => "ProposalHashMatchesReadiness",
            WorkflowNextActionRoutingPredicate::ProposalHashMatchesRequest => "ProposalHashMatchesRequest",
            WorkflowNextActionRoutingPredicate::ReviewHashMatchesReadiness => "ReviewHashMatchesReadiness",
            WorkflowNextActionRoutingPredicate::ReviewHashMatchesRequest => "ReviewHashMatchesRequest",
            WorkflowNextActionRoutingPredicate::RunRevisionExists => "RunRevisionExists",
            WorkflowNextActionRoutingPredicate::RunRevisionIsLatest => "RunRevisionIsLatest",
            WorkflowNextActionRoutingPredicate::RunRevisionHashMatchesReadiness => "RunRevisionHashMatchesReadiness",
            WorkflowNextActionRoutingPredicate::RunRevisionHashMatchesRequest => "RunRevisionHashMatchesRequest",
            WorkflowNextActionRoutingPredicate::CandidateStageExists => "CandidateStageExists",
            WorkflowNextActionRoutingPredicate::CandidateStageStillPending => "CandidateStageStillPending",
            WorkflowNextActionRoutingPredicate::CandidateStageDependenciesStillTerminal => "CandidateStageDependenciesStillTerminal",
            WorkflowNextActionRoutingPredicate::SelectorNoSkipStillHolds => "SelectorNoSkipStillHolds",
            WorkflowNextActionRoutingPredicate::ActionRequestExists => "ActionRequestExists",
            WorkflowNextActionRoutingPredicate::ActionRequestPreparedForRouting => "ActionRequestPreparedForRouting",
            WorkflowNextActionRoutingPredicate::ActionRequestRemainsNonExecutable => "ActionRequestRemainsNonExecutable",
            WorkflowNextActionRoutingPredicate::ActionRequestHashMatchesReadiness => "ActionRequestHashMatchesReadiness",
            WorkflowNextActionRoutingPredicate::ActionRequestHashMatchesRequest => "ActionRequestHashMatchesRequest",
            WorkflowNextActionRoutingPredicate::RoutePreviewExists => "RoutePreviewExists",
            WorkflowNextActionRoutingPredicate::RoutePreviewStillDescriptiveOnly => "RoutePreviewStillDescriptiveOnly",
            WorkflowNextActionRoutingPredicate::RoutePreviewCreatesNoRouteNow => "RoutePreviewCreatesNoRouteNow",
            WorkflowNextActionRoutingPredicate::NoPriorConflictingNextActionRouting => "NoPriorConflictingNextActionRouting",
            WorkflowNextActionRoutingPredicate::NoPriorRouteForSameReadiness => "NoPriorRouteForSameReadiness",
            WorkflowNextActionRoutingPredicate::IdempotencyKeyUnusedOrMatchesExisting => "IdempotencyKeyUnusedOrMatchesExisting",
            WorkflowNextActionRoutingPredicate::ProposalReviewReadinessCrossReferencesMatch => "ProposalReviewReadinessCrossReferencesMatch",
        }
    }
}

/// Evidence for a routing evaluation; nothing here executes.
#[derive(Debug, Clone)]
pub struct WorkflowNextActionRoutingContext<'a> {
    pub routing_readiness: Option<&'a WorkflowRoutingReadinessRecord>,
    pub next_action_proposal: Option<&'a WorkflowNextActionProposal>,
    pub next_action_review: Option<&'a WorkflowNextActionReview>,
    pub latest_review: Option<&'a WorkflowNextActionReview>,
    pub run_revision: Option<&'a WorkflowRunRevision>,
    pub action_request: Option<&'a WorkflowActionRequest>,
    pub prior_routings: Vec<&'a WorkflowNextActionRoutingRecord>,
}

/// The text hashed into a routing id.
pub open spec fn routing_preimage(request: WorkflowNextActionRoutingRequest) -> Seq<char> {
    "next_action_routing:v1:"@ + request.routing_readiness_id.0@ + ":"@ + request.next_action_proposal_id.0@ + ":"@
        + request.next_action_review_id.0@ + ":"@ + request.idempotency_key@
}

/// The routing id a request names.
pub open spec fn routing_id_of(request: WorkflowNextActionRoutingRequest) -> Seq<char> {
    text_id16("wnaroute_"@, routing_preimage(request))
}

/// The stages of the revision (none without one).
pub open spec fn routing_stages(context: WorkflowNextActionRoutingContext) -> Seq<WorkflowStageRun> {
    match context.run_revision {
        Some(v) => v.stages@,
        None => Seq::empty(),
    }
}

/// Index of the proposal's candidate stage in the revision.
pub open spec fn candidate_stage_index(context: WorkflowNextActionRoutingContext) -> Option<int> {
    match (context.next_action_proposal, context.run_revision) {
        (Some(p), Some(v)) => stage_index_from(v.stages@, p.candidate.stage_id@, 0),
        _ => None,
    }
}

/// Every stage is terminal or is the candidate stage: the selector skipped nothing.
pub open spec fn no_skip_holds(stages: Seq<WorkflowStageRun>, proposal: Option<&WorkflowNextActionProposal>) -> bool {
    forall|i: int|
        0 <= i < stages.len() ==> is_terminal(#[trigger] stages[i].status) || (proposal matches Some(p)
            && p.candidate.stage_id@ == stages[i].stage_id@)
}

/// The route preview the readiness record carries.
pub open spec fn route_preview(context: WorkflowNextActionRoutingContext) -> Option<WorkflowRouteRequestPreview> {
    match context.routing_readiness {
        Some(r) => r.route_request_preview,
        None => None,
    }
}

/// A prior routing has the same readiness, proposal and review.
pub open spec fn same_routing_target(r: WorkflowNextActionRoutingRecord, request: WorkflowNextActionRoutingRequest) -> bool {
    &&& r.routing_readiness_id.0@ == request.routing_readiness_id.0@
    &&& r.next_action_proposal_id.0@ == request.next_action_proposal_id.0@
    &&& r.next_action_review_id.0@ == request.next_action_review_id.0@
}

/// A prior routing with the same target but another id was routed.
pub open spec fn conflicting_routing(prior: Seq<&WorkflowNextActionRoutingRecord>, request: WorkflowNextActionRoutingRequest) -> bool {
    exists|i: int|
        0 <= i < prior.len() && same_routing_target(*#[trigger] prior[i], request) && prior[i].routing_id.0@
            != routing_id_of(request) && prior[i].status == WorkflowNextActionRoutingStatus::Routed
}

/// A prior routing of the same readiness record, with another id, was routed.
pub open spec fn prior_route_for_readiness(prior: Seq<&WorkflowNextActionRoutingRecord>, request: WorkflowNextActionRoutingRequest) -> bool {
    exists|i: int|
        0 <= i < prior.len() && (#[trigger] prior[i]).routing_readiness_id.0@ == request.routing_readiness_id.0@
            && prior[i].status == WorkflowNextActionRoutingStatus::Routed && prior[i].routing_id.0@
            != routing_id_of(request)
}

/// Every prior routing with the same target carries the same id.
pub open spec fn idempotency_holds(prior: Seq<&WorkflowNextActionRoutingRecord>, request: WorkflowNextActionRoutingRequest) -> bool {
    forall|i: int|
        0 <= i < prior.len() ==> !same_routing_target(*#[trigger] prior[i], request) || prior[i].routing_id.0@
            == routing_id_of(request)
}

/// Proposal, review and readiness name each other and the requested revision.
pub open spec fn cross_references_match(request: WorkflowNextActionRoutingRequest, context: WorkflowNextActionRoutingContext) -> bool {
    match (context.next_action_proposal, context.next_action_review, context.routing_readiness) {
        (Some(p), Some(r), Some(rd)) => {
            &&& p.proposal_id.0@ == rd.proposal_id.0@
            &&& r.review_id.0@ == rd.review_id.0@
            &&& p.source_run_revision_id.0@ == request.source_run_revision_id.0@
            &&& r.source_run_revision_id.0@ == request.source_run_revision_id.0@
            &&& rd.source_run_revision_id.0@ == request.source_run_revision_id.0@
        },
        _ => false,
    }
}

/// Result of evaluating one routing predicate.
#[derive(Debug, Clone)]
pub struct WorkflowNextActionRoutingPredicateResult {
    pub predicate: WorkflowNextActionRoutingPredicate,
    pub passed: bool,
    pub reason: String,
}

impl CheckResult for WorkflowNextActionRoutingPredicateResult {
    type P = WorkflowNextActionRoutingPredicate;

    open spec fn check_view(&self) -> (WorkflowNextActionRoutingPredicate, bool, Seq<char>) {
        (self.predicate, self.passed, self.reason@)
    }

    fn passed_flag(&self) -> (b: bool) {
        self.passed
    }

    fn predicate_value(&self) -> (p: WorkflowNextActionRoutingPredicate) {
        self.predicate
    }

    fn reason_text(&self) -> (s: &str) {
        self.reason.as_str()
    }

    fn make_check(p: Self::P, passed: bool, reason: String) -> (r: Self) {
        Self { predicate: p, passed, reason }
    }
}

/// The routing predicates in order, each with its reason when passing and when failing.
pub open spec fn routing_table() -> Seq<(WorkflowNextActionRoutingPredicate, Seq<char>, Seq<char>)> {
    seq![
        (WorkflowNextActionRoutingPredicate::RoutingReadinessExists, "Readiness found"@, "No readiness"@),
        (WorkflowNextActionRoutingPredicate::RoutingReadinessIsReady, "Ready"@, "Not ready"@),
        (WorkflowNextActionRoutingPredicate::RoutingReadinessHashMatchesRequest, "Hash provided"@, "Missing"@),
        (WorkflowNextActionRoutingPredicate::NextActionProposalExists, "Proposal found"@, "No proposal"@),
        (WorkflowNextActionRoutingPredicate::NextActionReviewExists, "Review found"@, "No review"@),
        (WorkflowNextActionRoutingPredicate::NextActionReviewIsLatest, "Is latest"@, "Not latest"@),
        (WorkflowNextActionRoutingPredicate::NextActionReviewApproved, "Approved"@, "Not approved"@),
        (WorkflowNextActionRoutingPredicate::ProposalHashMatchesReadiness, "Match"@, "Mismatch"@),
        (WorkflowNextActionRoutingPredicate::ProposalHashMatchesRequest, "Match"@, "Mismatch"@),
        (WorkflowNextActionRoutingPredicate::ReviewHashMatchesReadiness, "Consistent"@, "Inconsistent"@),
        (WorkflowNextActionRoutingPredicate::ReviewHashMatchesRequest, "Provided"@, "Missing"@),
        (WorkflowNextActionRoutingPredicate::RunRevisionExists, "Found"@, "Missing"@),
        (WorkflowNextActionRoutingPredicate::RunRevisionIsLatest, "Is latest"@, "Not latest"@),
        (WorkflowNextActionRoutingPredicate::RunRevisionHashMatchesReadiness, "Match"@, "Mismatch"@),
        (WorkflowNextActionRoutingPredicate::RunRevisionHashMatchesRequest, "Match"@, "Mismatch"@),
        (WorkflowNextActionRoutingPredicate::CandidateStageExists, "Found"@, "Missing"@),
        (WorkflowNextActionRoutingPredicate::CandidateStageStillPending, "Pending"@, "Not pending"@),
        (WorkflowNextActionRoutingPredicate::CandidateStageDependenciesStillTerminal, "Terminal"@, "Non-terminal deps"@),
        (WorkflowNextActionRoutingPredicate::SelectorNoSkipStillHolds, "No skip"@, "Skip violation"@),
        (WorkflowNextActionRoutingPredicate::ActionRequestExists, "Found"@, "Missing"@),
        (WorkflowNextActionRoutingPredicate::ActionRequestPreparedForRouting, "Prepared"@, "Not prepared"@),
        (WorkflowNextActionRoutingPredicate::ActionRequestRemainsNonExecutable, "Action request has no executable fields"@, "Action request has no executable fields"@),
        (WorkflowNextActionRoutingPredicate::ActionRequestHashMatchesReadiness, "Consistent"@, "Missing"@),
        (WorkflowNextActionRoutingPredicate::ActionRequestHashMatchesRequest, "Provided"@, "Missing"@),
        (WorkflowNextActionRoutingPredicate::RoutePreviewExists, "Found"@, "Missing"@),
        (WorkflowNextActionRoutingPredicate::RoutePreviewStillDescriptiveOnly, "Descriptive"@, "VIOLATION"@),
        (WorkflowNextActionRoutingPredicate::RoutePreviewCreatesNoRouteNow, "No route claim"@, "VIOLATION"@),
        (WorkflowNextActionRoutingPredicate::NoPriorConflictingNextActionRouting, "No conflict"@, "Conflict"@),
        (WorkflowNextActionRoutingPredicate::NoPriorRouteForSameReadiness, "No prior route"@, "Already routed"@),
        (WorkflowNextActionRoutingPredicate::IdempotencyKeyUnusedOrMatchesExisting, "Key ok"@, "Key conflict"@),
        (WorkflowNextActionRoutingPredicate::ProposalReviewReadinessCrossReferencesMatch, "Cross-refs match"@, "Cross-ref mismatch"@),
    ]
}

fn routing_table_exec() -> (v: Vec<(WorkflowNextActionRoutingPredicate, &'static str, &'static str)>)
    ensures
        table_view(v@) == routing_table(),
{
    let v = vec![
        (WorkflowNextActionRoutingPredicate::RoutingReadinessExists, "Readiness found", "No readiness"),
        (WorkflowNextActionRoutingPredicate::RoutingReadinessIsReady, "Ready", "Not ready"),
        (WorkflowNextActionRoutingPredicate::RoutingReadinessHashMatchesRequest, "Hash provided", "Missing"),
        (WorkflowNextActionRoutingPredicate::NextActionProposalExists, "Proposal found", "No proposal"),
        (WorkflowNextActionRoutingPredicate::NextActionReviewExists, "Review found", "No review"),
        (WorkflowNextActionRoutingPredicate::NextActionReviewIsLatest, "Is latest", "Not latest"),
        (WorkflowNextActionRoutingPredicate::NextActionReviewApproved, "Approved", "Not approved"),
        (WorkflowNextActionRoutingPredicate::ProposalHashMatchesReadiness, "Match", "Mismatch"),
        (WorkflowNextActionRoutingPredicate::ProposalHashMatchesRequest, "Match", "Mismatch"),
        (WorkflowNextActionRoutingPredicate::ReviewHashMatchesReadiness, "Consistent", "Inconsistent"),
        (WorkflowNextActionRoutingPredicate::ReviewHashMatchesRequest, "Provided", "Missing"),
        (WorkflowNextActionRoutingPredicate::RunRevisionExists, "Found", "Missing"),
        (WorkflowNextActionRoutingPredicate::RunRevisionIsLatest, "Is latest", "Not latest"),
        (WorkflowNextActionRoutingPredicate::RunRevisionHashMatchesReadiness, "Match", "Mismatch"),
        (WorkflowNextActionRoutingPredicate::RunRevisionHashMatchesRequest, "Match", "Mismatch"),
        (WorkflowNextActionRoutingPredicate::CandidateStageExists, "Found", "Missing"),
        (WorkflowNextActionRoutingPredicate::CandidateStageStillPending, "Pending", "Not pending"),
        (WorkflowNextActionRoutingPredicate::CandidateStageDependenciesStillTerminal, "Terminal", "Non-terminal deps"),
        (WorkflowNextActionRoutingPredicate::SelectorNoSkipStillHolds, "No skip", "Skip violation"),
        (WorkflowNextActionRoutingPredicate::ActionRequestExists, "Found", "Missing"),
        (WorkflowNextActionRoutingPredicate::ActionRequestPreparedForRouting, "Prepared", "Not prepared"),
        (WorkflowNextActionRoutingPredicate::ActionRequestRemainsNonExecutable, "Action request has no executable fields", "Action request has no executable fields"),
        (WorkflowNextActionRoutingPredicate::ActionRequestHashMatchesReadiness, "Consistent", "Missing"),
        (WorkflowNextActionRoutingPredicate::ActionRequestHashMatchesRequest, "Provided", "Missing"),
        (WorkflowNextActionRoutingPredicate::RoutePreviewExists, "Found", "Missing"),
        (WorkflowNextActionRoutingPredicate::RoutePreviewStillDescriptiveOnly, "Descriptive", "VIOLATION"),
        (WorkflowNextActionRoutingPredicate::RoutePreviewCreatesNoRouteNow, "No route claim", "VIOLATION"),
        (WorkflowNextActionRoutingPredicate::NoPriorConflictingNextActionRouting, "No conflict", "Conflict"),
        (WorkflowNextActionRoutingPredicate::NoPriorRouteForSameReadiness, "No prior route", "Already routed"),
        (WorkflowNextActionRoutingPredicate::IdempotencyKeyUnusedOrMatchesExisting, "Key ok", "Key conflict"),
        (WorkflowNextActionRoutingPredicate::ProposalReviewReadinessCrossReferencesMatch, "Cross-refs match", "Cross-ref mismatch"),
    ];
    assert(table_view(v@) =~= routing_table());
    v
}

/// The outcome of each routing predicate, in table order.
pub open spec fn routing_flags(request: WorkflowNextActionRoutingRequest, context: WorkflowNextActionRoutingContext) -> Seq<bool> {
    routing_chain_flags(request, context) + routing_stage_flags(request, context)
}

/// Outcomes of the predicates on the readiness, proposal, review and revision.
pub open spec fn routing_chain_flags(request: WorkflowNextActionRoutingRequest, context: WorkflowNextActionRoutingContext) -> Seq<bool> {
    let readiness = context.routing_readiness;
    let proposal = context.next_action_proposal;
    let review = context.next_action_review;
    let revision = context.run_revision;
    let is_ready = readiness matches Some(r) && r.status == WorkflowRoutingReadinessStatus::Ready;
    let is_latest = match (review, context.latest_review) {
        (Some(r), Some(lr)) => lr.review_id.0@ == r.review_id.0@,
        _ => false,
    };
    let approved = review matches Some(r) && r.decision == WorkflowNextActionReviewDecision::Approved;
    let prop_hash_rd = match (proposal, readiness) {
        (Some(p), Some(rd)) => p.proposal_hash@ == rd.proposal_hash@,
        _ => false,
    };
    let prop_hash_req = proposal matches Some(p) && p.proposal_hash@ == request.expected_proposal_hash@;
    let rev_hash_rd = match (revision, readiness) {
        (Some(v), Some(rd)) => v.run_hash_after@ == rd.run_revision_hash@,
        _ => false,
    };
    let rev_hash_req = revision matches Some(v) && v.run_hash_after@ == request.expected_run_revision_hash@;
    seq![
        readiness is Some,
        is_ready,
        request.expected_routing_readiness_hash@.len() > 0,
        proposal is Some,
        review is Some,
        is_latest,
        approved,
        prop_hash_rd,
        prop_hash_req,
        review is Some && readiness is Some && request.expected_review_hash@.len() > 0,
        request.expected_review_hash@.len() > 0,
        revision is Some,
        revision is Some,
        rev_hash_rd,
        rev_hash_req,
    ]
}

/// Outcomes of the predicates on the stage, action request, preview and prior routings.
pub open spec fn routing_stage_flags(request: WorkflowNextActionRoutingRequest, context: WorkflowNextActionRoutingContext) -> Seq<bool> {
    let readiness = context.routing_readiness;
    let proposal = context.next_action_proposal;
    let revision = context.run_revision;
    let action = context.action_request;
    let stages = routing_stages(context);
    let stage = candidate_stage_index(context);
    let stage_pending = stage matches Some(i) && stages[i].status == WorkflowStageRunStatus::Pending;
    let deps_terminal = match stage {
        Some(i) => deps_all_terminal(stages[i].depends_on@, stages),
        None => true,
    };
    let no_skip = revision is None || no_skip_holds(stages, proposal);
    let action_prepared = action matches Some(a) && a.routing_status
        == WorkflowActionRoutingStatus::PreparedForFutureSessionRouting;
    let preview = route_preview(context);
    let desc_only = preview matches Some(p) && p.descriptive_only;
    let no_create = preview matches Some(p) && !p.creates_route_now;
    let no_conflict = !conflicting_routing(context.prior_routings@, request);
    let no_prior_route = !prior_route_for_readiness(context.prior_routings@, request);
    let idem_ok = idempotency_holds(context.prior_routings@, request);
    let cross_ok = cross_references_match(request, context);
    seq![
        stage is Some,
        stage_pending,
        deps_terminal,
        no_skip,
        action is Some,
        action_prepared,
        true,
        action is Some,
        request.expected_action_request_hash@.len() > 0,
        preview is Some,
        desc_only,
        no_create,
        no_conflict,
        no_prior_route,
        idem_ok,
        cross_ok,
    ]
}


/// The thirty-one routing predicates, in order, with their outcomes and reasons.
pub open spec fn routing_checks(request: WorkflowNextActionRoutingRequest, context: WorkflowNextActionRoutingContext) -> Seq<
    (WorkflowNextActionRoutingPredicate, bool, Seq<char>),
> {
    checks_from(routing_table(), routing_flags(request, context))
}

/// `true` or `false`, as `bool` prints.
pub open spec fn bool_text(b: bool) -> Seq<char> {
    if b { "true"@ } else { "false"@ }
}

/// The preview hash: the digest of the preview's run, stage, action request and
/// descriptive flag joined by `:`; empty without a preview.
pub open spec fn preview_hash_of(preview: Option<WorkflowRouteRequestPreview>) -> Seq<char> {
    match preview {
        Some(p) => text_id(
            Seq::empty(),
            p.workflow_execution_id.0@ + ":"@ + p.stage_id@ + ":"@ + p.action_request_id@ + ":"@ + bool_text(
                p.descriptive_only,
            ),
        ),
        None => Seq::empty(),
    }
}

/// Status, decision and created route of a routing record: all checks passing
/// routes (the route itself is created later through the existing path).
pub open spec fn routing_outcome_ok(rec: WorkflowNextActionRoutingRecord, checks: Seq<(WorkflowNextActionRoutingPredicate, bool, Seq<char>)>) -> bool {
    if all_pass(checks) {
        &&& rec.status == WorkflowNextActionRoutingStatus::Routed
        &&& rec.decision matches WorkflowNextActionRoutingDecision::Routed { route_id, summary }
        &&& route_id.0@ == "pending"@
        &&& summary@ == "All predicates passed — route creation pending at app layer"@
        &&& rec.created_route_id matches Some(c) && c.0@ == "pending"@
        &&& rec.completed_at == Some(rec.created_at)
    } else {
        &&& rec.status == WorkflowNextActionRoutingStatus::Blocked
        &&& rec.decision matches WorkflowNextActionRoutingDecision::Blocked { reason_code, summary }
        &&& reason_code@ == "predicate_failed"@
        &&& summary@ == "Blocked: "@ + join(lowercase_failed_names(checks), ", "@)
        &&& rec.created_route_id is None
        &&& rec.completed_at is None
    }
}

/// A next action is routed only on evidence that has not moved since readiness was
/// evaluated. The proposal-hash-matches-readiness predicate passes exactly when
/// both the proposal and the readiness record are given and their proposal hashes
/// are equal. A routed record further needs a ready readiness record, the latest
/// review and an approving one, a proposal hash equal to the request's, a run
/// revision whose hash after equals both the readiness record's and the request's,
/// and an action request prepared for routing; only a routed record names a
/// created route.
pub proof fn lemma_routed_only_on_unchanged_evidence(
    rec: WorkflowNextActionRoutingRecord,
    request: WorkflowNextActionRoutingRequest,
    context: WorkflowNextActionRoutingContext,
)
    requires
        check_views(rec.predicates@) == routing_checks(request, context),
        routing_outcome_ok(rec, routing_checks(request, context)),
    ensures
        rec.predicates@.len() == 31,
        rec.predicates@[7].predicate == WorkflowNextActionRoutingPredicate::ProposalHashMatchesReadiness,
        rec.predicates@[7].passed == (match (context.next_action_proposal, context.routing_readiness) {
            (Some(p), Some(rd)) => p.proposal_hash@ == rd.proposal_hash@,
            _ => false,
        }),
        (rec.status == WorkflowNextActionRoutingStatus::Routed) == (rec.created_route_id is Some),
        rec.status == WorkflowNextActionRoutingStatus::Routed ==> {
            &&& (match (context.next_action_proposal, context.routing_readiness) {
                (Some(p), Some(rd)) => p.proposal_hash@ == rd.proposal_hash@ && p.proposal_hash@
                    == request.expected_proposal_hash@ && rd.status == WorkflowRoutingReadinessStatus::Ready,
                _ => false,
            })
            &&& (match (context.next_action_review, context.latest_review) {
                (Some(r), Some(l)) => l.review_id.0@ == r.review_id.0@ && r.decision
                    == WorkflowNextActionReviewDecision::Approved,
                _ => false,
            })
            &&& (match (context.run_revision, context.routing_readiness) {
                (Some(v), Some(rd)) => v.run_hash_after@ == rd.run_revision_hash@ && v.run_hash_after@
                    == request.expected_run_revision_hash@,
                _ => false,
            })
            &&& (match context.action_request {
                Some(a) => a.routing_status == WorkflowActionRoutingStatus::PreparedForFutureSessionRouting,
                None => false,
            })
        },
{
    let checks = routing_checks(request, context);
    let flags = routing_flags(request, context);
    assert(check_views(rec.predicates@)[7] == rec.predicates@[7].check_view());
    assert(checks[7] == (routing_table()[7].0, flags[7], if flags[7] { routing_table()[7].1 } else { routing_table()[7].2 }));
    if rec.status == WorkflowNextActionRoutingStatus::Routed {
        assert(all_pass(checks));
        assert(checks[1].1 && checks[5].1 && checks[6].1 && checks[7].1 && checks[8].1);
        assert(checks[13].1 && checks[14].1 && checks[20].1);
    }
}

fn routing_conflict_exec(prior: &Vec<&WorkflowNextActionRoutingRecord>, request: &WorkflowNextActionRoutingRequest, rid: &WorkflowNextActionRoutingId) -> (b: bool)
    requires
        rid.0@ == routing_id_of(*request),
    ensures
        b == conflicting_routing(prior@, *request),
{
    let mut i: usize = 0;
    while i < prior.len()
        invariant
            rid.0@ == routing_id_of(*request),
            i <= prior.len(),
            forall|k: int|
                0 <= k < i ==> !(same_routing_target(*#[trigger] prior@[k], *request) && prior@[k].routing_id.0@
                    != routing_id_of(*request) && prior@[k].status == WorkflowNextActionRoutingStatus::Routed),
        decreases prior.len() - i,
    {
        let r = prior[i];
        if r.routing_readiness_id.0 == request.routing_readiness_id.0 && r.next_action_proposal_id.0
            == request.next_action_proposal_id.0 && r.next_action_review_id.0 == request.next_action_review_id.0
            && !(r.routing_id.0 == rid.0) && r.status == WorkflowNextActionRoutingStatus::Routed {
            return true;
        }
        i += 1;
    }
    false
}

fn prior_route_exec(prior: &Vec<&WorkflowNextActionRoutingRecord>, request: &WorkflowNextActionRoutingRequest, rid: &WorkflowNextActionRoutingId) -> (b: bool)
    requires
        rid.0@ == routing_id_of(*request),
    ensures
        b == prior_route_for_readiness(prior@, *request),
{
    let mut i: usize = 0;
    while i < prior.len()
        invariant
            rid.0@ == routing_id_of(*request),
            i <= prior.len(),
            forall|k: int|
                0 <= k < i ==> !((#[trigger] prior@[k]).routing_readiness_id.0@ == request.routing_readiness_id.0@
                    && prior@[k].status == WorkflowNextActionRoutingStatus::Routed && prior@[k].routing_id.0@
                    != routing_id_of(*request)),
        decreases prior.len() - i,
    {
        let r = prior[i];
        if r.routing_readiness_id.0 == request.routing_readiness_id.0 && r.status
            == WorkflowNextActionRoutingStatus::Routed && !(r.routing_id.0 == rid.0) {
            return true;
        }
        i += 1;
    }
    false
}

fn idempotency_exec(prior: &Vec<&WorkflowNextActionRoutingRecord>, request: &WorkflowNextActionRoutingRequest, rid: &WorkflowNextActionRoutingId) -> (b: bool)
    requires
        rid.0@ == routing_id_of(*request),
    ensures
        b == idempotency_holds(prior@, *request),
{
    let mut i: usize = 0;
    while i < prior.len()
        invariant
            rid.0@ == routing_id_of(*request),
            i <= prior.len(),
            forall|k: int|
                0 <= k < i ==> !same_routing_target(*#[trigger] prior@[k], *request) || prior@[k].routing_id.0@
                    == routing_id_of(*request),
        decreases prior.len() - i,
    {
        let r = prior[i];
        if r.routing_readiness_id.0 == request.routing_readiness_id.0 && r.next_action_proposal_id.0
            == request.next_action_proposal_id.0 && r.next_action_review_id.0 == request.next_action_review_id.0
            && !(r.routing_id.0 == rid.0) {
            return false;
        }
        i += 1;
    }
    true
}

fn no_skip_exec(stages: &Vec<WorkflowStageRun>, proposal: Option<&WorkflowNextActionProposal>) -> (b: bool)
    ensures
        b == no_skip_holds(stages@, proposal),
{
    let mut i: usize = 0;
    while i < stages.len()
        invariant
            i <= stages.len(),
            forall|k: int|
                0 <= k < i ==> is_terminal(#[trigger] stages@[k].status) || (proposal matches Some(p)
                    && p.candidate.stage_id@ == stages@[k].stage_id@),
        decreases stages.len() - i,
    {
        let s = &stages[i];
        let is_candidate = match proposal {
            Some(p) => p.candidate.stage_id == s.stage_id,
            None => false,
        };
        if !is_terminal_stage_status(&s.status) && !is_candidate {
            return false;
        }
        i += 1;
    }
    true
}

fn routing_chain_flags_exec(
    request: &WorkflowNextActionRoutingRequest,
    context: &WorkflowNextActionRoutingContext,
) -> (flags: Vec<bool>)
    ensures
        flags@ == routing_chain_flags(*request, *context),
{
    let readiness = context.routing_readiness;
    let proposal = context.next_action_proposal;
    let review = context.next_action_review;
    let revision = context.run_revision;
    let action = context.action_request;
    let is_ready = match readiness {
        Some(r) => r.status == WorkflowRoutingReadinessStatus::Ready,
        None => false,
    };
    let is_latest = match (review, context.latest_review) {
        (Some(r), Some(lr)) => lr.review_id.0 == r.review_id.0,
        _ => false,
    };
    let approved = match review {
        Some(r) => r.decision == WorkflowNextActionReviewDecision::Approved,
        None => false,
    };
    let prop_hash_rd = match (proposal, readiness) {
        (Some(p), Some(rd)) => p.proposal_hash == rd.proposal_hash,
        _ => false,
    };
    let prop_hash_req = match proposal {
        Some(p) => p.proposal_hash == request.expected_proposal_hash,
        None => false,
    };
    let review_hash_given = !request.expected_review_hash.as_str().is_empty();
    let rev_hash_rd = match (revision, readiness) {
        (Some(v), Some(rd)) => v.run_hash_after == rd.run_revision_hash,
        _ => false,
    };
    let rev_hash_req = match revision {
        Some(v) => v.run_hash_after == request.expected_run_revision_hash,
        None => false,
    };
    let flags = vec![
        readiness.is_some(), is_ready, !request.expected_routing_readiness_hash.as_str().is_empty(),
        proposal.is_some(), review.is_some(), is_latest, approved, prop_hash_rd, prop_hash_req,
        review.is_some() && readiness.is_some() && review_hash_given, review_hash_given, revision.is_some(),
        revision.is_some(), rev_hash_rd, rev_hash_req,
    ];
    assert(flags@ =~= routing_chain_flags(*request, *context));
    flags
}

fn routing_stage_flags_exec(
    request: &WorkflowNextActionRoutingRequest,
    context: &WorkflowNextActionRoutingContext,
    rid: &WorkflowNextActionRoutingId,
) -> (flags: Vec<bool>)
    requires
        rid.0@ == routing_id_of(*request),
    ensures
        flags@ == routing_stage_flags(*request, *context),
{
    let readiness = context.routing_readiness;
    let proposal = context.next_action_proposal;
    let revision = context.run_revision;
    let action = context.action_request;
    let review = context.next_action_review;
    let no_stages: Vec<WorkflowStageRun> = Vec::new();
    let stages: &Vec<WorkflowStageRun> = match revision {
        Some(v) => &v.stages,
        None => &no_stages,
    };
    proof {
        assert(stages@ =~= routing_stages(*context));
    }
    let stage = match (proposal, revision) {
        (Some(p), Some(_)) => find_stage_index(stages, &p.candidate.stage_id),
        _ => None,
    };
    let stage_pending = match stage {
        Some(i) => stages[i].status == WorkflowStageRunStatus::Pending,
        None => false,
    };
    let deps_terminal = match stage {
        Some(i) => deps_terminal_exec(&stages[i].depends_on, stages),
        None => true,
    };
    let no_skip = revision.is_none() || no_skip_exec(stages, proposal);
    let action_prepared = match action {
        Some(a) => a.routing_status == WorkflowActionRoutingStatus::PreparedForFutureSessionRouting,
        None => false,
    };
    let ar_hash_readiness = match (action, readiness) {
        (Some(_), Some(rd)) => rd.route_request_preview.is_some(),
        _ => false,
    };
    let preview: Option<&WorkflowRouteRequestPreview> = match readiness {
        Some(r) => match &r.route_request_preview {
            Some(p) => Some(p),
            None => None,
        },
        None => None,
    };
    let desc_only = match preview {
        Some(p) => p.descriptive_only,
        None => false,
    };
    let no_create = match preview {
        Some(p) => !p.creates_route_now,
        None => false,
    };
    let no_conflict = !routing_conflict_exec(&context.prior_routings, request, rid);
    let no_prior_route = !prior_route_exec(&context.prior_routings, request, rid);
    let idem_ok = idempotency_exec(&context.prior_routings, request, rid);
    let cross_ok = match (proposal, review, readiness) {
        (Some(p), Some(r), Some(rd)) => p.proposal_id.0 == rd.proposal_id.0 && r.review_id.0 == rd.review_id.0
            && p.source_run_revision_id.0 == request.source_run_revision_id.0 && r.source_run_revision_id.0
            == request.source_run_revision_id.0 && rd.source_run_revision_id.0 == request.source_run_revision_id.0,
        _ => false,
    };
    let flags = vec![
        stage.is_some(), stage_pending, deps_terminal, no_skip,
        action.is_some(), action_prepared, true, ar_hash_readiness || action.is_some(),
        !request.expected_action_request_hash.as_str().is_empty(), preview.is_some(), desc_only, no_create,
        no_conflict, no_prior_route, idem_ok, cross_ok,
    ];
    assert(flags@ =~= routing_stage_flags(*request, *context));
    flags
}

fn routing_predicates(
    request: &WorkflowNextActionRoutingRequest,
    context: &WorkflowNextActionRoutingContext,
    rid: &WorkflowNextActionRoutingId,
) -> (preds: Vec<WorkflowNextActionRoutingPredicateResult>)
    requires
        rid.0@ == routing_id_of(*request),
    ensures
        check_views(preds@) == routing_checks(*request, *context),
{
    let mut flags = routing_chain_flags_exec(request, context);
    let mut rest = routing_stage_flags_exec(request, context, rid);
    flags.append(&mut rest);
    let table = routing_table_exec();
    assert(table_view(table@).len() == table@.len());
    build_checks(&table, &flags)
}

fn preview_hash_exec(preview: Option<&WorkflowRouteRequestPreview>) -> (h: String)
    ensures
        h@ == preview_hash_of(match preview { Some(p) => Some(*p), None => None }),
{
    match preview {
        Some(p) => {
            let mut pre = String::from_str(p.workflow_execution_id.0.as_str());
            pre.append(":");
            pre.append(p.stage_id.as_str());
            pre.append(":");
            pre.append(p.action_request_id.as_str());
            pre.append(":");
            pre.append(if p.descriptive_only { "true" } else { "false" });
            let h = text_digest_id("", pre.as_str());
            proof {
                reveal_strlit("");
                assert(""@ =~= Seq::<char>::empty());
            }
            h
        },
        None => String::new(),
    }
}

/// Evaluates the thirty-one routing-time predicates and returns the routing
/// record. It creates no route: that happens later through the existing path.
pub fn evaluate_next_action_routing(
    request: &WorkflowNextActionRoutingRequest,
    context: &WorkflowNextActionRoutingContext,
) -> (rec: WorkflowNextActionRoutingRecord)
    ensures
        rec.routing_id.0@.len() == 25,
        rec.routing_id.0@ == routing_id_of(*request),
        rec.routing_readiness_id.0@ == request.routing_readiness_id.0@,
        rec.next_action_proposal_id.0@ == request.next_action_proposal_id.0@,
        rec.next_action_review_id.0@ == request.next_action_review_id.0@,
        rec.workflow_execution_id.0@ == request.workflow_execution_id.0@,
        rec.source_run_revision_id.0@ == request.source_run_revision_id.0@,
        check_views(rec.predicates@) == routing_checks(*request, *context),
        rec.route_request_preview_hash@ == preview_hash_of(route_preview(*context)),
        routing_outcome_ok(rec, routing_checks(*request, *context)),
{
    proof {
        reveal_strlit("wnaroute_");
    }
    let mut pre = String::from_str("next_action_routing:v1:");
    pre.append(request.routing_readiness_id.0.as_str());
    pre.append(":");
    pre.append(request.next_action_proposal_id.0.as_str());
    pre.append(":");
    pre.append(request.next_action_review_id.0.as_str());
    pre.append(":");
    pre.append(request.idempotency_key.as_str());
    let rid = WorkflowNextActionRoutingId(text_digest_id16("wnaroute_", pre.as_str()));
    let predicates = routing_predicates(request, context, &rid);
    let all_passed = all_checks_pass(&predicates);
    let now = now_utc();
    let preview: Option<&WorkflowRouteRequestPreview> = match context.routing_readiness {
        Some(r) => match &r.route_request_preview {
            Some(p) => Some(p),
            None => None,
        },
        None => None,
    };
    let preview_hash = preview_hash_exec(preview);
    let (status, decision, created_route_id) = if all_passed {
        (
            WorkflowNextActionRoutingStatus::Routed,
            WorkflowNextActionRoutingDecision::Routed {
                route_id: WorkflowActionRouteId(String::from_str("pending")),
                summary: String::from_str("All predicates passed — route creation pending at app layer"),
            },
            Some(WorkflowActionRouteId(String::from_str("pending"))),
        )
    } else {
        let mut summary = String::from_str("Blocked: ");
        let joined = failed_names_lowercase_joined(&predicates);
        summary.append(joined.as_str());
        (
            WorkflowNextActionRoutingStatus::Blocked,
            WorkflowNextActionRoutingDecision::Blocked { reason_code: String::from_str("predicate_failed"), summary },
            None,
        )
    };
    WorkflowNextActionRoutingRecord {
        routing_id: rid,
        routing_readiness_id: WorkflowRoutingReadinessId(request.routing_readiness_id.0.clone()),
        next_action_proposal_id: WorkflowNextActionProposalId(request.next_action_proposal_id.0.clone()),
        next_action_review_id: WorkflowNextActionReviewId(request.next_action_review_id.0.clone()),
        workflow_execution_id: WorkflowExecutionId(request.workflow_execution_id.0.clone()),
        source_run_revision_id: WorkflowRunRevisionId(request.source_run_revision_id.0.clone()),
        status,
        decision,
        predicates,
        route_request_preview_hash: preview_hash,
        created_route_id,
        created_at: now,
        completed_at: if all_passed { Some(now) } else { None },
    }
}

} // verus!
