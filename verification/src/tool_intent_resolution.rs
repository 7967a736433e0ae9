//! Tool intent resolution.
//!
//! Resolves a tool intent's capability to a descriptive capability category.
//! Resolution never produces a tool call.
use vstd::prelude::*;
use crate::text::{
    chars_of, has_substring, join, lowercase_of, push_char, str_contains, str_contains_char,
    to_lowercase, views, lemma_map_push, lemma_map_prefix_push,
};
use crate::workflow_proposal::{capability_rejection, is_valid_capability_category};
use crate::workflow_readiness::{ToolIntentResolutionSnapshot, ToolIntentResolutionStatus};

verus! {

/// The known descriptive capability categories, in order.
pub open spec fn capability_categories() -> Seq<Seq<char>> {
    seq![
        "context_observation"@,
        "context_gathering"@,
        "file_observation"@,
        "text_analysis"@,
        "code_analysis"@,
        "test_interpretation"@,
        "change_preparation"@,
        "change_application"@,
        "human_review"@,
        "review_presentation"@,
        "outcome_verification"@,
        "result_reporting"@,
        "text_search"@,
    ]
}

/// The known descriptive capability categories.
pub fn capability_category_list() -> (v: Vec<&'static str>)
    ensures
        v@.map_values(|s: &str| s@) == capability_categories(),
{
    let v = vec![
        "context_observation",
        "context_gathering",
        "file_observation",
        "text_analysis",
        "code_analysis",
        "test_interpretation",
        "change_preparation",
        "change_application",
        "human_review",
        "review_presentation",
        "outcome_verification",
        "result_reporting",
        "text_search",
    ];
    assert(v@.map_values(|s: &str| s@) =~= capability_categories());
    v
}

/// The capability in lowercase with `-` replaced by `_`.
pub open spec fn normalized_capability(capability: Seq<char>) -> Seq<char> {
    lowercase_of(capability).map_values(|c: char| if c == '-' { '_' } else { c })
}

/// A category matches when either text contains the other.
pub open spec fn category_matches(normalized: Seq<char>, category: Seq<char>) -> bool {
    has_substring(normalized, category) || has_substring(category, normalized)
}

/// The matching categories among the first `n`, in order.
pub open spec fn matching_categories(normalized: Seq<char>, cats: Seq<Seq<char>>, n: int) -> Seq<Seq<char>>
    decreases n,
{
    if n <= 0 {
        Seq::empty()
    } else {
        matching_categories(normalized, cats, n - 1) + if category_matches(normalized, cats[n - 1]) {
            seq![cats[n - 1]]
        } else {
            Seq::empty()
        }
    }
}

/// All categories that match a capability.
pub open spec fn matches_for(capability: Seq<char>) -> Seq<Seq<char>> {
    matching_categories(
        normalized_capability(capability),
        capability_categories(),
        capability_categories().len() as int,
    )
}

/// The snapshot that resolving `capability` yields, as plain values:
/// status, matched category and reason.
pub open spec fn resolution_of(capability: Seq<char>) -> (ToolIntentResolutionStatus, Option<Seq<char>>, Seq<char>) {
    if capability_rejection(capability) is Some {
        (ToolIntentResolutionStatus::RejectedExecutable, None, capability_rejection(capability)->0)
    } else if capability.contains('{') || capability.contains('}') || has_substring(
        capability,
        "tool_name"@,
    ) {
        (ToolIntentResolutionStatus::RejectedExecutable, None, "capability contains JSON or tool_name pattern"@)
    } else {
        let m = matches_for(capability);
        if m.len() == 0 {
            (
                ToolIntentResolutionStatus::Unresolved,
                None,
                "capability '"@ + capability + "' does not match any known category"@,
            )
        } else if m.len() == 1 {
            (
                ToolIntentResolutionStatus::ResolvedCategory,
                Some(m[0]),
                "resolved to category '"@ + m[0] + "'"@,
            )
        } else {
            (
                ToolIntentResolutionStatus::Ambiguous,
                None,
                "capability '"@ + capability + "' matches multiple categories: "@ + join(m, ", "@),
            )
        }
    }
}

fn normalize(s: &String) -> (out: String)
    ensures
        out@ == s@.map_values(|c: char| if c == '-' { '_' } else { c }),
{
    let cs = chars_of(s.as_str());
    let mut out = String::new();
    let mut i: usize = 0;
    while i < cs.len()
        invariant
            cs@ == s@,
            i <= cs.len(),
            out@ == s@.subrange(0, i as int).map_values(|c: char| if c == '-' { '_' } else { c }),
        decreases cs.len() - i,
    {
        let c = cs[i];
        push_char(&mut out, if c == '-' { '_' } else { c });
        i += 1;
        assert(out@ =~= s@.subrange(0, i as int).map_values(|c: char| if c == '-' { '_' } else { c }));
    }
    assert(s@.subrange(0, s@.len() as int) =~= s@);
    out
}

/// Resolves one tool intent's capability to a category.
pub fn resolve_tool_intent(intent_id: &str, capability: &str) -> (snap: ToolIntentResolutionSnapshot)
    ensures
        snap.intent_id@ == intent_id@,
        snap.capability@ == capability@,
        (snap.resolution_status, match snap.matched_capability_category {
            Some(c) => Some(c@),
            None => None,
        }, snap.reason@) == resolution_of(capability@),
{
    if let Err(e) = is_valid_capability_category(capability) {
        return ToolIntentResolutionSnapshot {
            intent_id: String::from_str(intent_id),
            capability: String::from_str(capability),
            resolution_status: ToolIntentResolutionStatus::RejectedExecutable,
            matched_capability_category: None,
            reason: e,
        };
    }
    if str_contains_char(capability, '{') || str_contains_char(capability, '}') || str_contains(
        capability,
        "tool_name",
    ) {
        return ToolIntentResolutionSnapshot {
            intent_id: String::from_str(intent_id),
            capability: String::from_str(capability),
            resolution_status: ToolIntentResolutionStatus::RejectedExecutable,
            matched_capability_category: None,
            reason: String::from_str("capability contains JSON or tool_name pattern"),
        };
    }
    let lowered = to_lowercase(capability);
    let lower = normalize(&lowered);
    let cats = capability_category_list();
    let ghost n = normalized_capability(capability@);
    let mut matched: Vec<&'static str> = Vec::new();
    let mut i: usize = 0;
    while i < cats.len()
        invariant
            cats@.map_values(|s: &str| s@) == capability_categories(),
            lower@ == n,
            i <= cats.len(),
            matched@.map_values(|s: &str| s@) == matching_categories(n, capability_categories(), i as int),
        decreases cats.len() - i,
    {
        let c = cats[i];
        assert(cats@.map_values(|s: &str| s@)[i as int] == c@);
        let ghost before = matched@;
        if str_contains(lower.as_str(), c) || str_contains(c, lower.as_str()) {
            matched.push(c);
            assert(matched@.map_values(|s: &str| s@) =~= before.map_values(|s: &str| s@).push(c@));
        }
        i += 1;
        assert(matched@.map_values(|s: &str| s@) =~= matching_categories(n, capability_categories(), i as int));
    }
    let ghost m = matches_for(capability@);
    assert(matched@.map_values(|s: &str| s@) == m);
    if matched.len() == 0 {
        let mut reason = String::from_str("capability '");
        reason.append(capability);
        reason.append("' does not match any known category");
        ToolIntentResolutionSnapshot {
            intent_id: String::from_str(intent_id),
            capability: String::from_str(capability),
            resolution_status: ToolIntentResolutionStatus::Unresolved,
            matched_capability_category: None,
            reason,
        }
    } else if matched.len() == 1 {
        let mut reason = String::from_str("resolved to category '");
        reason.append(matched[0]);
        reason.append("'");
        assert(matched@.map_values(|s: &str| s@)[0] == matched@[0]@);
        ToolIntentResolutionSnapshot {
            intent_id: String::from_str(intent_id),
            capability: String::from_str(capability),
            resolution_status: ToolIntentResolutionStatus::ResolvedCategory,
            matched_capability_category: Some(String::from_str(matched[0])),
            reason,
        }
    } else {
        let mut owned: Vec<String> = Vec::new();
        let mut k: usize = 0;
        while k < matched.len()
            invariant
                k <= matched.len(),
                owned@.len() == k,
                views(owned@) == matched@.subrange(0, k as int).map_values(|s: &str| s@),
            decreases matched.len() - k,
        {
            let ghost before = owned@;
            let t = String::from_str(matched[k]);
            owned.push(t);
            proof {
                lemma_map_push(before, t, |s: String| s@);
                lemma_map_prefix_push(matched@, k as int, |s: &str| s@);
            }
            k += 1;
        }
        assert(matched@.subrange(0, matched.len() as int) =~= matched@);
        let joined = crate::text::join_strings(&owned, ", ");
        let mut reason = String::from_str("capability '");
        reason.append(capability);
        reason.append("' matches multiple categories: ");
        reason.append(joined.as_str());
        ToolIntentResolutionSnapshot {
            intent_id: String::from_str(intent_id),
            capability: String::from_str(capability),
            resolution_status: ToolIntentResolutionStatus::Ambiguous,
            matched_capability_category: None,
            reason,
        }
    }
}

} // verus!
