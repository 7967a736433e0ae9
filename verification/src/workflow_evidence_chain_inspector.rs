//! Evidence chain inspection: one view over every evidence record of a run, and
//! the audit packet that exports it.
//!
//! Inspection is observation. An exported packet verifies nothing, certifies no
//! truth beyond the recorded evidence and changes no workflow state.
use vstd::prelude::*;
use vstd::utf8::encode_utf8;
use crate::ids::{digest_hex32, push_digest_hex32, text_digest_id16, text_id16, utf8_bytes};
use crate::outside::{now_utc, Timestamp};
use crate::text::{join, join_strings, lemma_map_push, views};
use crate::text_order::{lemma_sorted_texts_order_independent, sort_strings, sorted_texts};

verus! {

/// Whether a link of the chain is there, taking into account whether it is due yet.
#[derive(Debug, Clone, Copy, PartialEq, Eq, Structural)]
pub enum EvidenceLinkPresence {
    Present,
    MissingExpected,
    NotYetApplicable,
    NotApplicable,
    Mismatched,
}

/// One link in the evidence chain.
#[derive(Debug, Clone)]
pub struct EvidenceChainLink {
    pub record_type: String,
    pub record_id: String,
    pub presence: EvidenceLinkPresence,
    pub record_hash: String,
    pub source_path_hint: Option<String>,
}

/// How many links of each presence there are. Not a quality score.
#[derive(Debug, Clone)]
pub struct EvidenceCoverageSummary {
    pub present_links: usize,
    pub missing_expected_links: usize,
    pub not_yet_applicable_links: usize,
    pub not_applicable_links: usize,
    pub warnings: usize,
}

/// A recorded linkage warning: recorded IDs or hashes do not line up.
#[derive(Debug, Clone)]
pub struct RecordedLinkageWarning {
    pub from_record_type: String,
    pub from_record_id: String,
    pub expected_field: String,
    pub expected_value: String,
    pub actual_value: Option<String>,
    pub reason: String,
}

/// The inspection of one run's evidence chain.
#[derive(Debug, Clone)]
pub struct EvidenceChainInspectionState {
    pub inspection_id: String,
    pub workflow_execution_id: String,
    pub links: Vec<EvidenceChainLink>,
    pub coverage_summary: EvidenceCoverageSummary,
    pub linkage_warnings: Vec<RecordedLinkageWarning>,
    pub chain_hash: String,
    pub computed_at: Timestamp,
    // no-certification authority flags
    pub certifies_external_truth: bool,
    pub verifies_artifacts: bool,
    pub executes_commands: bool,
    pub routes_actions: bool,
    pub resolves_approvals: bool,
    pub reconciles_outcomes: bool,
    pub mutates_workflow_state: bool,
    pub appends_trace: bool,
    pub writes_memory: bool,
}

/// One record of an audit packet, its recorded JSON carried as it was read.
#[derive(Debug)]
pub struct AuditPacketRecord {
    pub record_type: String,
    pub record_id: String,
    pub record_hash: String,
    pub source_path_hint: Option<String>,
    pub recorded_evidence: serde_json::Value,
}

/// The exported audit packet.
#[derive(Debug)]
pub struct AuditPacket {
    pub inspection: EvidenceChainInspectionState,
    pub records: Vec<AuditPacketRecord>,
    pub export_metadata: AuditPacketExportMetadata,
    pub certifies_external_truth: bool,
    pub verifies_artifacts: bool,
}

/// When and by what a packet was exported.
#[derive(Debug, Clone)]
pub struct AuditPacketExportMetadata {
    pub exported_at: Timestamp,
    pub schema_version: u16,
    pub exporter: String,
}

/// Inspection request.
#[derive(Debug, Clone)]
pub struct EvidenceChainInspectionRequest {
    pub workflow_execution_id: String,
    pub packet_mode: bool,
}

/// How a `bool` prints (`Display`).
pub open spec fn bool_text(b: bool) -> Seq<char> {
    if b {
        "true"@
    } else {
        "false"@
    }
}

/// The inspection id: `weci_` and 16 hex digits of the digest of the run id, the
/// chain hash, the link ids sorted and joined with commas, and the packet mode.
pub open spec fn inspection_id_of(
    workflow_execution_id: Seq<char>,
    chain_hash: Seq<char>,
    link_ids: Seq<Seq<char>>,
    packet_mode: bool,
) -> Seq<char> {
    text_id16(
        "weci_"@,
        workflow_execution_id + chain_hash + join(sorted_texts(link_ids), ","@) + bool_text(packet_mode),
    )
}

/// Builds the deterministic inspection ID. The order of `link_ids` does not matter.
pub fn compute_inspection_id(
    workflow_execution_id: &str,
    chain_hash: &str,
    link_ids: &[String],
    packet_mode: bool,
) -> (id: String)
    ensures
        id@.len() == 21,
        id@ == inspection_id_of(workflow_execution_id@, chain_hash@, views(link_ids@), packet_mode),
{
    proof {
        reveal_strlit("weci_");
    }
    let sorted = sort_strings(link_ids);
    let joined = join_strings(&sorted, ",");
    let mut input = String::from_str(workflow_execution_id);
    input.append(chain_hash);
    input.append(joined.as_str());
    if packet_mode {
        input.append("true");
    } else {
        input.append("false");
    }
    text_digest_id16("weci_", input.as_str())
}

/// The record hashes of the links, in link order.
pub open spec fn link_hashes(links: Seq<EvidenceChainLink>) -> Seq<Seq<char>> {
    links.map_values(|l: EvidenceChainLink| l.record_hash@)
}

/// The record ids of the links, in link order.
pub open spec fn link_ids(links: Seq<EvidenceChainLink>) -> Seq<Seq<char>> {
    links.map_values(|l: EvidenceChainLink| l.record_id@)
}

/// The chain hash: 32 hex digits of the digest of the link hashes, sorted and
/// joined with commas.
pub open spec fn chain_hash_of(links: Seq<EvidenceChainLink>) -> Seq<char> {
    digest_hex32(encode_utf8(join(sorted_texts(link_hashes(links)), ","@)))
}

fn collect_link_hashes(links: &[EvidenceChainLink]) -> (out: Vec<String>)
    ensures
        views(out@) == link_hashes(links@),
{
    let mut out: Vec<String> = Vec::new();
    let mut i: usize = 0;
    while i < links.len()
        invariant
            i <= links.len(),
            views(out@) == link_hashes(links@.subrange(0, i as int)),
        decreases links.len() - i,
    {
        let ghost before = out@;
        let x = links[i].record_hash.clone();
        out.push(x);
        proof {
            lemma_map_push(before, x, |s: String| s@);
            assert(link_hashes(links@.subrange(0, i + 1)) =~= link_hashes(links@.subrange(0, i as int)).push(links@[i as int].record_hash@));
        }
        i += 1;
    }
    assert(links@.subrange(0, links.len() as int) =~= links@);
    out
}

fn collect_link_ids(links: &[EvidenceChainLink]) -> (out: Vec<String>)
    ensures
        views(out@) == link_ids(links@),
{
    let mut out: Vec<String> = Vec::new();
    let mut i: usize = 0;
    while i < links.len()
        invariant
            i <= links.len(),
            views(out@) == link_ids(links@.subrange(0, i as int)),
        decreases links.len() - i,
    {
        let ghost before = out@;
        let x = links[i].record_id.clone();
        out.push(x);
        proof {
            lemma_map_push(before, x, |s: String| s@);
            assert(link_ids(links@.subrange(0, i + 1)) =~= link_ids(links@.subrange(0, i as int)).push(links@[i as int].record_id@));
        }
        i += 1;
    }
    assert(links@.subrange(0, links.len() as int) =~= links@);
    out
}

/// Computes the chain hash from all link hashes; the order of the links does
/// not matter.
pub fn compute_chain_hash(links: &[EvidenceChainLink]) -> (h: String)
    ensures
        h@ == chain_hash_of(links@),
        h@.len() == 32,
{
    let hashes = collect_link_hashes(links);
    let sorted = sort_strings(hashes.as_slice());
    let joined = join_strings(&sorted, ",");
    let bytes = utf8_bytes(joined.as_str());
    let mut h = String::new();
    push_digest_hex32(&mut h, &bytes);
    assert(h@ =~= chain_hash_of(links@));
    h
}

/// The number of links with the given presence.
pub open spec fn presence_count(links: Seq<EvidenceChainLink>, p: EvidenceLinkPresence) -> nat
    decreases links.len(),
{
    if links.len() == 0 {
        0
    } else {
        presence_count(links.drop_last(), p) + if links.last().presence == p {
            1nat
        } else {
            0nat
        }
    }
}

proof fn lemma_presence_count_bound(links: Seq<EvidenceChainLink>, p: EvidenceLinkPresence)
    ensures
        presence_count(links, p) <= links.len(),
    decreases links.len(),
{
    if links.len() > 0 {
        lemma_presence_count_bound(links.drop_last(), p);
    }
}

fn count_presence(links: &Vec<EvidenceChainLink>, p: EvidenceLinkPresence) -> (n: usize)
    ensures
        n == presence_count(links@, p),
{
    let mut n: usize = 0;
    let mut i: usize = 0;
    while i < links.len()
        invariant
            i <= links.len(),
            n == presence_count(links@.subrange(0, i as int), p),
        decreases links.len() - i,
    {
        proof {
            assert(links@.subrange(0, i + 1).drop_last() =~= links@.subrange(0, i as int));
            lemma_presence_count_bound(links@.subrange(0, i as int), p);
        }
        if links[i].presence == p {
            n += 1;
        }
        i += 1;
    }
    assert(links@.subrange(0, links.len() as int) =~= links@);
    n
}

/// The coverage summary of a set of links and warnings.
pub open spec fn coverage_of(links: Seq<EvidenceChainLink>, warnings: nat) -> (nat, nat, nat, nat, nat) {
    (
        presence_count(links, EvidenceLinkPresence::Present),
        presence_count(links, EvidenceLinkPresence::MissingExpected),
        presence_count(links, EvidenceLinkPresence::NotYetApplicable),
        presence_count(links, EvidenceLinkPresence::NotApplicable),
        warnings,
    )
}

/// The coverage summary as plain values.
pub open spec fn coverage_view(c: EvidenceCoverageSummary) -> (nat, nat, nat, nat, nat) {
    (
        c.present_links as nat,
        c.missing_expected_links as nat,
        c.not_yet_applicable_links as nat,
        c.not_applicable_links as nat,
        c.warnings as nat,
    )
}

/// An inspection certifies, verifies, executes and changes nothing.
pub open spec fn inspection_claims_no_authority(s: EvidenceChainInspectionState) -> bool {
    &&& !s.certifies_external_truth
    &&& !s.verifies_artifacts
    &&& !s.executes_commands
    &&& !s.routes_actions
    &&& !s.resolves_approvals
    &&& !s.reconciles_outcomes
    &&& !s.mutates_workflow_state
    &&& !s.appends_trace
    &&& !s.writes_memory
}

/// Builds the inspection state of assembled links; `computed_at` is read from the
/// clock and takes no part in the id.
pub fn build_inspection_state(
    workflow_execution_id: &str,
    links: Vec<EvidenceChainLink>,
    linkage_warnings: Vec<RecordedLinkageWarning>,
    packet_mode: bool,
) -> (state: EvidenceChainInspectionState)
    ensures
        state.chain_hash@ == chain_hash_of(links@),
        state.chain_hash@.len() == 32,
        state.inspection_id@.len() == 21,
        state.inspection_id@ == inspection_id_of(
            workflow_execution_id@,
            chain_hash_of(links@),
            link_ids(links@),
            packet_mode,
        ),
        state.workflow_execution_id@ == workflow_execution_id@,
        state.links == links,
        coverage_view(state.coverage_summary) == coverage_of(links@, linkage_warnings@.len()),
        state.linkage_warnings == linkage_warnings,
        inspection_claims_no_authority(state),
{
    let chain_hash = compute_chain_hash(links.as_slice());
    let ids = collect_link_ids(links.as_slice());
    let inspection_id = compute_inspection_id(workflow_execution_id, chain_hash.as_str(), ids.as_slice(), packet_mode);
    let present = count_presence(&links, EvidenceLinkPresence::Present);
    let missing = count_presence(&links, EvidenceLinkPresence::MissingExpected);
    let not_yet = count_presence(&links, EvidenceLinkPresence::NotYetApplicable);
    let not_app = count_presence(&links, EvidenceLinkPresence::NotApplicable);
    let warnings = linkage_warnings.len();
    EvidenceChainInspectionState {
        inspection_id,
        workflow_execution_id: String::from_str(workflow_execution_id),
        links,
        coverage_summary: EvidenceCoverageSummary {
            present_links: present,
            missing_expected_links: missing,
            not_yet_applicable_links: not_yet,
            not_applicable_links: not_app,
            warnings,
        },
        linkage_warnings,
        chain_hash,
        computed_at: now_utc(),
        certifies_external_truth: false,
        verifies_artifacts: false,
        executes_commands: false,
        routes_actions: false,
        resolves_approvals: false,
        reconciles_outcomes: false,
        mutates_workflow_state: false,
        appends_trace: false,
        writes_memory: false,
    }
}

/// Wraps an inspection and its records into an audit packet; `exported_at` is
/// read from the clock.
pub fn build_audit_packet(inspection: EvidenceChainInspectionState, records: Vec<AuditPacketRecord>) -> (packet: AuditPacket)
    ensures
        packet.inspection == inspection,
        packet.records == records,
        packet.export_metadata.schema_version == 1,
        packet.export_metadata.exporter@ == "openwand-evidence-chain-inspector"@,
        !packet.certifies_external_truth,
        !packet.verifies_artifacts,
{
    AuditPacket {
        inspection,
        records,
        export_metadata: AuditPacketExportMetadata {
            exported_at: now_utc(),
            schema_version: 1,
            exporter: String::from_str("openwand-evidence-chain-inspector"),
        },
        certifies_external_truth: false,
        verifies_artifacts: false,
    }
}

/// Checks recorded ID and hash linkage between records. No linkage rule is
/// defined yet, so no pair is ever reported: the result is always empty, and an
/// empty result claims nothing about external truth.
pub fn check_record_linkage(
    _links: &[EvidenceChainLink],
    _parent_child_pairs: &[(&str, &str, &str)],
) -> (warnings: Vec<RecordedLinkageWarning>)
    ensures
        warnings@.len() == 0,
{
    Vec::new()
}

/// The chain hash does not depend on the order of the links: links whose record
/// hashes are the same texts (with multiplicity) have the same chain hash.
pub proof fn lemma_chain_hash_order_independent(a: Seq<EvidenceChainLink>, b: Seq<EvidenceChainLink>)
    requires
        link_hashes(a).to_multiset() == link_hashes(b).to_multiset(),
    ensures
        chain_hash_of(a) == chain_hash_of(b),
{
    lemma_sorted_texts_order_independent(link_hashes(a), link_hashes(b));
}

/// The inspection id does not depend on the order of the link ids.
pub proof fn lemma_inspection_id_order_independent(
    workflow_execution_id: Seq<char>,
    chain_hash: Seq<char>,
    a: Seq<Seq<char>>,
    b: Seq<Seq<char>>,
    packet_mode: bool,
)
    requires
        a.to_multiset() == b.to_multiset(),
    ensures
        inspection_id_of(workflow_execution_id, chain_hash, a, packet_mode)
            == inspection_id_of(workflow_execution_id, chain_hash, b, packet_mode),
{
    lemma_sorted_texts_order_independent(a, b);
}

} // verus!
