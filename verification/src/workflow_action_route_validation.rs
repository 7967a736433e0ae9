//! Validation of action route records and route prompts.
use vstd::prelude::*;
use crate::ids::{text_digest_id, text_id};
use crate::text::{has_substring, join, join_strings, lowercase_of, str_contains, to_lowercase, views};
use crate::workflow_action_route::{
    lemma_instruction_has_governance, session_instruction_of, WorkflowActionRouteId,
    WorkflowActionRoutePrompt,
};

verus! {

/// The text hashed into a route id: the four determinative fields joined by `:`.
pub open spec fn route_preimage(
    execution_id: Seq<char>,
    stage_id: Seq<char>,
    action_request_id: Seq<char>,
    idempotency_key: Seq<char>,
) -> Seq<char> {
    execution_id + ":"@ + stage_id + ":"@ + action_request_id + ":"@ + idempotency_key
}

/// Generates the content-addressed route id from its determinative fields.
pub fn action_route_id_for(
    execution_id: &str,
    stage_id: &str,
    action_request_id: &str,
    idempotency_key: &str,
) -> (id: WorkflowActionRouteId)
    ensures
        id.0@.len() == 68,
        id.0@ == text_id(
            "war_"@,
            route_preimage(execution_id@, stage_id@, action_request_id@, idempotency_key@),
        ),
{
    proof {
        reveal_strlit("war_");
    }
    let mut pre = String::from_str(execution_id);
    pre.append(":");
    pre.append(stage_id);
    pre.append(":");
    pre.append(action_request_id);
    pre.append(":");
    pre.append(idempotency_key);
    WorkflowActionRouteId(text_digest_id("war_", pre.as_str()))
}

/// Field names that mark a prompt as carrying executable content.
pub open spec fn prompt_forbidden_patterns() -> Seq<Seq<char>> {
    seq![
        "tool_name"@,
        "tool_args"@,
        "command"@,
        "shell"@,
        "script"@,
        "cwd"@,
        "env"@,
        "function_ref"@,
        "provider_request"@,
    ]
}

fn prompt_forbidden_list() -> (v: Vec<&'static str>)
    ensures
        v@.map_values(|s: &str| s@) == prompt_forbidden_patterns(),
{
    let v = vec![
        "tool_name",
        "tool_args",
        "command",
        "shell",
        "script",
        "cwd",
        "env",
        "function_ref",
        "provider_request",
    ];
    assert(v@.map_values(|s: &str| s@) =~= prompt_forbidden_patterns());
    v
}

/// All descriptive text of a prompt, run together.
pub open spec fn prompt_text(p: WorkflowActionRoutePrompt) -> Seq<char> {
    p.capability_category@ + p.purpose@ + p.expected_input_summary@ + p.expected_output_summary@
        + join(views(p.safety_constraints@), ""@)
}

/// The first pattern, from position `i` on, that occurs in `text`.
pub open spec fn first_pattern_hit(text: Seq<char>, pats: Seq<Seq<char>>, i: int) -> Option<Seq<char>>
    decreases pats.len() - i,
{
    if i < 0 || i >= pats.len() {
        None
    } else if has_substring(text, pats[i]) {
        Some(pats[i])
    } else {
        first_pattern_hit(text, pats, i + 1)
    }
}

/// The forbidden pattern a prompt holds (lowercase), if any.
pub open spec fn prompt_forbidden_hit(p: WorkflowActionRoutePrompt) -> Option<Seq<char>> {
    first_pattern_hit(lowercase_of(prompt_text(p)), prompt_forbidden_patterns(), 0)
}

/// Checks that a route prompt holds no executable field names (compared in lowercase).
pub fn validate_route_prompt_no_executable_fields(prompt: &WorkflowActionRoutePrompt) -> (r: Result<(), String>)
    ensures
        r is Ok <==> prompt_forbidden_hit(*prompt) is None,
        r matches Err(e) ==> e@ == "Route prompt contains forbidden pattern: "@ + prompt_forbidden_hit(
            *prompt,
        )->0,
{
    let mut all = String::from_str(prompt.capability_category.as_str());
    all.append(prompt.purpose.as_str());
    all.append(prompt.expected_input_summary.as_str());
    all.append(prompt.expected_output_summary.as_str());
    let safety = join_strings(&prompt.safety_constraints, "");
    all.append(safety.as_str());
    let lower = to_lowercase(all.as_str());
    let pats = prompt_forbidden_list();
    let ghost pv = prompt_forbidden_patterns();
    let mut i: usize = 0;
    while i < pats.len()
        invariant
            pats@.map_values(|s: &str| s@) == pv,
            pv == prompt_forbidden_patterns(),
            lower@ == lowercase_of(prompt_text(*prompt)),
            i <= pats.len(),
            first_pattern_hit(lower@, pv, 0) == first_pattern_hit(lower@, pv, i as int),
        decreases pats.len() - i,
    {
        assert(pats@.map_values(|s: &str| s@)[i as int] == pats@[i as int]@);
        if str_contains(lower.as_str(), pats[i]) {
            let mut e = String::from_str("Route prompt contains forbidden pattern: ");
            e.append(pats[i]);
            return Err(e);
        }
        i += 1;
    }
    Ok(())
}

/// Checks that a route prompt's instruction carries the anti-tool-call guard text.
/// Every instruction ends with that text, so the check always passes.
pub fn validate_route_prompt_includes_governance_constraint(prompt: &WorkflowActionRoutePrompt) -> (r: Result<(), String>)
    ensures
        r is Ok,
        r is Ok <==> has_substring(
            session_instruction_of(*prompt),
            "Do not treat this workflow action request as a direct tool call"@,
        ),
{
    let instruction = prompt.to_session_instruction();
    proof {
        lemma_instruction_has_governance(*prompt);
    }
    if !str_contains(instruction.as_str(), "Do not treat this workflow action request as a direct tool call") {
        return Err(String::from_str("Route prompt must include anti-tool-call governance constraint"));
    }
    Ok(())
}

} // verus!
