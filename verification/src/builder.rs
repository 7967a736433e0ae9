//! Deterministic plan builder.
//!
//! Creates structured, non-executing plans from the supplied input. No model is
//! consulted and no tool is called.
use vstd::prelude::*;
use vstd::utf8::encode_utf8;
use crate::context::{goal_evidence, skill_evidence, user_intent_evidence, TaskPlanInput};
use crate::ids::digest_hex;
use crate::outside::now_utc;
use crate::plan::{
    link_views, TaskPlan, TaskPlanApprovalRequirement, TaskPlanAssumption, TaskPlanEvidenceKind,
    TaskPlanEvidenceLink, TaskPlanRisk, TaskPlanStatus, TaskPlanStep, TaskPlanStepKind,
};
use crate::text::{
    chars_of, find_char, first_index_of, is_blank, lemma_map_prefix_push, lemma_map_push,
    str_is_blank, string_of_range, trim, trim_str, utf8_prefix, utf8_prefix_string, views,
};
use crate::validation::{
    compute_plan_hash, dependency_errors, plan_hash_of, step_dependency_errors, step_id_views, steps_hash_text,
    task_plan_errors, task_plan_id_for, task_plan_id_preimage,
};

verus! {

/// The id part of a `id: description` context entry (trimmed), or `unknown`.
pub open spec fn context_id(s: Seq<char>) -> Seq<char> {
    let p = first_index_of(s, ':');
    if p >= 0 {
        trim(s.subrange(0, p))
    } else {
        "unknown"@
    }
}

/// The description part of a context entry (trimmed), or the whole entry.
pub open spec fn context_summary(s: Seq<char>) -> Seq<char> {
    let p = first_index_of(s, ':');
    if p >= 0 {
        trim(s.subrange(p + 1, s.len() as int))
    } else {
        s
    }
}

/// Evidence links made from context entries.
pub open spec fn context_links(v: Seq<Seq<char>>, kind: TaskPlanEvidenceKind) -> Seq<
    (TaskPlanEvidenceKind, Seq<char>, Seq<char>),
> {
    v.map_values(|s: Seq<char>| (kind, context_id(s), context_summary(s)))
}

/// The ids named by context entries.
pub open spec fn context_ids(v: Seq<Seq<char>>) -> Seq<Seq<char>> {
    v.map_values(|s: Seq<char>| context_id(s))
}

/// All evidence links of a built plan: goals, then skills, then the user intent.
pub open spec fn built_links(input: TaskPlanInput) -> Seq<(TaskPlanEvidenceKind, Seq<char>, Seq<char>)> {
    context_links(views(input.goal_context@), TaskPlanEvidenceKind::Goal) + context_links(
        views(input.skill_context@),
        TaskPlanEvidenceKind::Skill,
    ) + seq![(TaskPlanEvidenceKind::UserIntent, "user_intent"@, input.user_intent@)]
}

/// The plan title: the intent itself when it takes at most 80 bytes in UTF-8;
/// otherwise the intent cut at the last character boundary at or below 77 bytes,
/// followed by `...`.
pub open spec fn built_title(intent: Seq<char>) -> Seq<char> {
    if encode_utf8(intent).len() > 80 {
        utf8_prefix(intent, 77) + "..."@
    } else {
        intent
    }
}

/// A step holds exactly the given values.
pub open spec fn step_is(
    s: TaskPlanStep,
    id: Seq<char>,
    title: Seq<char>,
    description: Seq<char>,
    kind: TaskPlanStepKind,
    depends_on: Seq<Seq<char>>,
    expected_output: Seq<char>,
    risk_level: Seq<char>,
    requires_approval: bool,
    links: Seq<(TaskPlanEvidenceKind, Seq<char>, Seq<char>)>,
) -> bool {
    &&& s.step_id@ == id
    &&& s.title@ == title
    &&& s.description@ == description
    &&& s.kind == kind
    &&& views(s.depends_on@) == depends_on
    &&& s.expected_output@ == expected_output
    &&& s.risk_level@ == risk_level
    &&& s.requires_approval == requires_approval
    &&& link_views(s.evidence_links@) == links
}

/// The steps of a built plan, as the builder lays them out.
pub open spec fn built_steps_ok(input: TaskPlanInput, steps: Seq<TaskPlanStep>) -> bool {
    let approval = input.policy_constraints@.len() > 0;
    let n: int = if approval { 6 } else { 5 };
    &&& steps.len() == n
    &&& step_is(
        steps[0],
        "step_1"@,
        "Observe current state"@,
        "Gather relevant context for: "@ + input.user_intent@,
        TaskPlanStepKind::Observe,
        Seq::empty(),
        "Current state summary"@,
        "low"@,
        false,
        Seq::empty(),
    )
    &&& step_is(
        steps[1],
        "step_2"@,
        "Analyze findings"@,
        "Analyze observed context against intent and goals."@,
        TaskPlanStepKind::Analyze,
        seq!["step_1"@],
        "Analysis of current state vs intent"@,
        "low"@,
        false,
        built_links(input),
    )
    &&& step_is(
        steps[2],
        "step_3"@,
        "Propose changes"@,
        "Propose specific changes to achieve the stated intent."@,
        TaskPlanStepKind::ProposeChange,
        seq!["step_2"@],
        "Change proposal"@,
        if approval {
            "medium"@
        } else {
            "low"@
        },
        approval,
        Seq::empty(),
    )
    &&& approval ==> step_is(
        steps[3],
        "step_4"@,
        "Request approval"@,
        "Present proposed changes for human review."@,
        TaskPlanStepKind::RequestApproval,
        seq!["step_3"@],
        "Human approval or feedback"@,
        "low"@,
        false,
        Seq::empty(),
    )
    &&& step_is(
        steps[n - 2],
        "step_5"@,
        "Verify results"@,
        "Verify that changes achieved the intended outcome."@,
        TaskPlanStepKind::Verify,
        if approval {
            seq!["step_4"@]
        } else {
            seq!["step_3"@]
        },
        "Verification of outcome"@,
        "low"@,
        false,
        Seq::empty(),
    )
    &&& step_is(
        steps[n - 1],
        "step_6"@,
        "Report outcome"@,
        "Report what was done and the outcome."@,
        TaskPlanStepKind::Report,
        seq!["step_5"@],
        "Outcome report"@,
        "low"@,
        false,
        Seq::empty(),
    )
}

/// Assumptions recorded for missing memory and trace context.
pub open spec fn built_assumptions(input: TaskPlanInput) -> Seq<Seq<char>> {
    (if input.memory_summaries@.len() == 0 {
        seq!["No memory context available for this plan."@]
    } else {
        Seq::empty()
    }) + (if input.trace_summaries@.len() == 0 {
        seq!["No trace context available for this plan."@]
    } else {
        Seq::empty()
    })
}

/// Everything `build_task_plan` promises of a successful build, apart from the
/// creation time, which is read from the clock.
pub open spec fn built_plan_ok(input: TaskPlanInput, plan: TaskPlan) -> bool {
    let approval = input.policy_constraints@.len() > 0;
    let goal_ids = context_ids(views(input.goal_context@));
    let skill_ids = context_ids(views(input.skill_context@));
    &&& plan.title@ == built_title(input.user_intent@)
    &&& plan.user_intent@ == input.user_intent@
    &&& plan.status == TaskPlanStatus::Reviewable
    &&& built_steps_ok(input, plan.steps@)
    &&& plan.assumptions@.len() == built_assumptions(input).len()
    &&& forall|i: int|
        0 <= i < plan.assumptions@.len() ==> #[trigger] plan.assumptions@[i].text@
            == built_assumptions(input)[i] && plan.assumptions@[i].evidence_links@.len() == 0
    &&& plan.risks@.len() == (if approval {
        1int
    } else {
        0int
    })
    &&& approval ==> plan.risks@[0].risk_level@ == "medium"@ && plan.risks@[0].summary@
        == "Policy constraints apply to this intent."@ && plan.risks@[0].mitigation@
        == "Human review required before changes."@
    &&& plan.required_approvals@.len() == (if approval {
        1int
    } else {
        0int
    })
    &&& approval ==> plan.required_approvals@[0].step_id@ == "step_3"@
        && plan.required_approvals@[0].reason@ == "Policy constraints require human review."@
        && plan.required_approvals@[0].required_before@ == "step_3"@
    &&& link_views(plan.evidence_links@) == built_links(input)
    &&& views(plan.goal_context_ids@) == goal_ids
    &&& views(plan.skill_context_ids@) == skill_ids
    &&& views(plan.policy_constraints@) == views(input.policy_constraints@)
    &&& plan.plan_hash@ == plan_hash_of(plan.steps@, views(input.policy_constraints@))
    &&& plan.plan_id.0@ == "tpl_"@ + digest_hex(
        task_plan_id_preimage(
            input.user_intent@,
            input.user_intent@,
            plan.steps@.len() as usize,
            goal_ids,
            skill_ids,
        ),
    )
}

fn copy_links(v: &Vec<TaskPlanEvidenceLink>) -> (out: Vec<TaskPlanEvidenceLink>)
    ensures
        link_views(out@) == link_views(v@),
{
    let mut out: Vec<TaskPlanEvidenceLink> = Vec::new();
    let mut i: usize = 0;
    while i < v.len()
        invariant
            i <= v.len(),
            out@.len() == i,
            link_views(out@) == link_views(v@.subrange(0, i as int)),
        decreases v.len() - i,
    {
        let l = &v[i];
        let ghost before = out@;
        let nl = TaskPlanEvidenceLink { kind: l.kind, id: l.id.clone(), summary: l.summary.clone() };
        assert(nl.view_parts() == v@[i as int].view_parts());
        out.push(nl);
        proof {
            lemma_map_push(before, nl, |l: TaskPlanEvidenceLink| l.view_parts());
            lemma_map_prefix_push(v@, i as int, |l: TaskPlanEvidenceLink| l.view_parts());
        }
        i += 1;
    }
    assert(v@.subrange(0, v.len() as int) =~= v@);
    out
}

fn copy_strings(v: &Vec<String>) -> (out: Vec<String>)
    ensures
        views(out@) == views(v@),
{
    let mut out: Vec<String> = Vec::new();
    let mut i: usize = 0;
    while i < v.len()
        invariant
            i <= v.len(),
            out@.len() == i,
            views(out@) == views(v@.subrange(0, i as int)),
        decreases v.len() - i,
    {
        let ghost before = out@;
        let x = v[i].clone();
        out.push(x);
        proof {
            lemma_map_push(before, x, |s: String| s@);
            lemma_map_prefix_push(v@, i as int, |s: String| s@);
        }
        i += 1;
    }
    assert(v@.subrange(0, v.len() as int) =~= v@);
    out
}

/// Splits a context entry at its first `:` into a trimmed id and description.
fn split_context(s: &String) -> (r: (String, String))
    ensures
        r.0@ == context_id(s@),
        r.1@ == context_summary(s@),
{
    let cs = chars_of(s.as_str());
    match find_char(&cs, ':') {
        Some(p) => {
            assert(p < cs.len());
            let head = string_of_range(&cs, 0, p);
            let tail = string_of_range(&cs, p + 1, cs.len());
            (trim_str(head.as_str()), trim_str(tail.as_str()))
        },
        None => (String::from_str("unknown"), s.clone()),
    }
}

fn add_context(
    entries: &Vec<String>,
    kind: TaskPlanEvidenceKind,
    ids: &mut Vec<String>,
    links: &mut Vec<TaskPlanEvidenceLink>,
)
    requires
        kind == TaskPlanEvidenceKind::Goal || kind == TaskPlanEvidenceKind::Skill,
    ensures
        views(final(ids)@) == views(old(ids)@) + context_ids(views(entries@)),
        link_views(final(links)@) == link_views(old(links)@) + context_links(views(entries@), kind),
{
    let mut i: usize = 0;
    while i < entries.len()
        invariant
            kind == TaskPlanEvidenceKind::Goal || kind == TaskPlanEvidenceKind::Skill,
            i <= entries.len(),
            views(ids@) == views(old(ids)@) + context_ids(views(entries@.subrange(0, i as int))),
            link_views(links@) == link_views(old(links)@) + context_links(
                views(entries@.subrange(0, i as int)),
                kind,
            ),
        decreases entries.len() - i,
    {
        let ghost ids0 = ids@;
        let ghost links0 = links@;
        let (id, desc) = split_context(&entries[i]);
        let link = if kind == TaskPlanEvidenceKind::Goal {
            goal_evidence(id.as_str(), desc.as_str())
        } else {
            skill_evidence(id.as_str(), desc.as_str())
        };
        ids.push(id);
        links.push(link);
        proof {
            let ev = views(entries@);
            lemma_map_push(ids0, id, |s: String| s@);
            lemma_map_push(links0, link, |l: TaskPlanEvidenceLink| l.view_parts());
            lemma_map_prefix_push(entries@, i as int, |s: String| s@);
            assert(ev[i as int] == entries@[i as int]@);
            lemma_map_push(views(entries@.subrange(0, i as int)), entries@[i as int]@, |s: Seq<char>| context_id(s));
            lemma_map_push(views(entries@.subrange(0, i as int)), entries@[i as int]@, |s: Seq<char>| (kind, context_id(s), context_summary(s)));
        }
        i += 1;
        assert(views(ids@) =~= views(old(ids)@) + context_ids(views(entries@.subrange(0, i as int))));
        assert(link_views(links@) =~= link_views(old(links)@) + context_links(
            views(entries@.subrange(0, i as int)),
            kind,
        ));
    }
    assert(entries@.subrange(0, entries.len() as int) =~= entries@);
}

fn make_step(
    id: &str,
    title: &str,
    description: String,
    kind: TaskPlanStepKind,
    depends_on: Vec<String>,
    expected_output: &str,
    risk_level: &str,
    requires_approval: bool,
    evidence_links: Vec<TaskPlanEvidenceLink>,
) -> (s: TaskPlanStep)
    ensures
        step_is(
            s,
            id@,
            title@,
            description@,
            kind,
            views(depends_on@),
            expected_output@,
            risk_level@,
            requires_approval,
            link_views(evidence_links@),
        ),
{
    TaskPlanStep {
        step_id: String::from_str(id),
        title: String::from_str(title),
        description,
        kind,
        depends_on,
        expected_output: String::from_str(expected_output),
        risk_level: String::from_str(risk_level),
        requires_approval,
        evidence_links,
    }
}

fn one_dep(id: &str) -> (v: Vec<String>)
    ensures
        views(v@) == seq![id@],
{
    let v = vec![String::from_str(id)];
    assert(views(v@) =~= seq![id@]);
    v
}

fn title_for(intent: &String) -> (t: String)
    ensures
        t@ == built_title(intent@),
{
    let bytes = intent.as_str().as_bytes();
    if bytes.len() > 80 {
        let cs = chars_of(intent.as_str());
        let mut t = utf8_prefix_string(&cs, 77);
        t.append("...");
        t
    } else {
        intent.clone()
    }
}

/// Builds a deterministic task plan from the input.
///
/// A blank intent is refused. Otherwise the plan is `Reviewable` and holds the
/// observe, analyze, propose, (approval,) verify and report steps.
pub fn build_task_plan(input: &TaskPlanInput) -> (r: Result<TaskPlan, String>)
    ensures
        r is Err <==> is_blank(input.user_intent@),
        r matches Err(e) ==> e@ == "user_intent must not be empty"@,
        r matches Ok(plan) ==> built_plan_ok(*input, plan),
{
    if str_is_blank(input.user_intent.as_str()) {
        return Err(String::from_str("user_intent must not be empty"));
    }
    let mut evidence_links: Vec<TaskPlanEvidenceLink> = Vec::new();
    let mut skill_ids: Vec<String> = Vec::new();
    let mut goal_ids: Vec<String> = Vec::new();
    let mut assumptions: Vec<TaskPlanAssumption> = Vec::new();

    add_context(&input.goal_context, TaskPlanEvidenceKind::Goal, &mut goal_ids, &mut evidence_links);
    add_context(&input.skill_context, TaskPlanEvidenceKind::Skill, &mut skill_ids, &mut evidence_links);
    evidence_links.push(user_intent_evidence(input.user_intent.as_str()));
    assert(views(goal_ids@) =~= context_ids(views(input.goal_context@)));
    assert(views(skill_ids@) =~= context_ids(views(input.skill_context@)));
    assert(link_views(evidence_links@) =~= built_links(*input));

    if input.memory_summaries.len() == 0 {
        assumptions.push(
            TaskPlanAssumption {
                text: String::from_str("No memory context available for this plan."),
                evidence_links: Vec::new(),
            },
        );
    }
    if input.trace_summaries.len() == 0 {
        assumptions.push(
            TaskPlanAssumption {
                text: String::from_str("No trace context available for this plan."),
                evidence_links: Vec::new(),
            },
        );
    }

    let mut steps: Vec<TaskPlanStep> = Vec::new();
    let mut d1 = String::from_str("Gather relevant context for: ");
    d1.append(input.user_intent.as_str());
    steps.push(
        make_step(
            "step_1",
            "Observe current state",
            d1,
            TaskPlanStepKind::Observe,
            Vec::new(),
            "Current state summary",
            "low",
            false,
            Vec::new(),
        ),
    );
    steps.push(
        make_step(
            "step_2",
            "Analyze findings",
            String::from_str("Analyze observed context against intent and goals."),
            TaskPlanStepKind::Analyze,
            one_dep("step_1"),
            "Analysis of current state vs intent",
            "low",
            false,
            copy_links(&evidence_links),
        ),
    );
    let requires_approval = input.policy_constraints.len() != 0;
    steps.push(
        make_step(
            "step_3",
            "Propose changes",
            String::from_str("Propose specific changes to achieve the stated intent."),
            TaskPlanStepKind::ProposeChange,
            one_dep("step_2"),
            "Change proposal",
            if requires_approval {
                "medium"
            } else {
                "low"
            },
            requires_approval,
            Vec::new(),
        ),
    );
    if requires_approval {
        steps.push(
            make_step(
                "step_4",
                "Request approval",
                String::from_str("Present proposed changes for human review."),
                TaskPlanStepKind::RequestApproval,
                one_dep("step_3"),
                "Human approval or feedback",
                "low",
                false,
                Vec::new(),
            ),
        );
    }
    steps.push(
        make_step(
            "step_5",
            "Verify results",
            String::from_str("Verify that changes achieved the intended outcome."),
            TaskPlanStepKind::Verify,
            if requires_approval {
                one_dep("step_4")
            } else {
                one_dep("step_3")
            },
            "Verification of outcome",
            "low",
            false,
            Vec::new(),
        ),
    );
    steps.push(
        make_step(
            "step_6",
            "Report outcome",
            String::from_str("Report what was done and the outcome."),
            TaskPlanStepKind::Report,
            one_dep("step_5"),
            "Outcome report",
            "low",
            false,
            Vec::new(),
        ),
    );
    assert(views(Seq::<String>::empty()) =~= Seq::<Seq<char>>::empty());
    assert(link_views(Seq::<TaskPlanEvidenceLink>::empty()) =~= Seq::empty());
    assert(built_steps_ok(*input, steps@));

    let mut required_approvals: Vec<TaskPlanApprovalRequirement> = Vec::new();
    let mut risks: Vec<TaskPlanRisk> = Vec::new();
    if requires_approval {
        required_approvals.push(
            TaskPlanApprovalRequirement {
                step_id: String::from_str("step_3"),
                reason: String::from_str("Policy constraints require human review."),
                required_before: String::from_str("step_3"),
            },
        );
        risks.push(
            TaskPlanRisk {
                risk_level: String::from_str("medium"),
                summary: String::from_str("Policy constraints apply to this intent."),
                mitigation: String::from_str("Human review required before changes."),
            },
        );
    }

    let plan_hash = compute_plan_hash(&steps, &input.policy_constraints);
    let plan_id = task_plan_id_for(
        input.user_intent.as_str(),
        input.user_intent.as_str(),
        steps.len(),
        &goal_ids,
        &skill_ids,
    );
    let title = title_for(&input.user_intent);
    let plan = TaskPlan {
        plan_id,
        title,
        user_intent: input.user_intent.clone(),
        status: TaskPlanStatus::Reviewable,
        steps,
        assumptions,
        risks,
        required_approvals,
        evidence_links,
        skill_context_ids: skill_ids,
        goal_context_ids: goal_ids,
        policy_constraints: copy_strings(&input.policy_constraints),
        plan_hash,
        created_at: now_utc(),
    };
    assert(built_plan_ok(*input, plan));
    Ok(plan)
}

/// Where each built step's dependency points: the step it names comes earlier.
proof fn lemma_dep_earlier(steps: Seq<TaskPlanStep>, i: int, j: int)
    requires
        0 <= j < i < steps.len(),
        steps[i].depends_on@.len() == 1,
        steps[i].depends_on@[0]@ == steps[j].step_id@,
    ensures
        forall|d: int|
            0 <= d < steps[i].depends_on@.len() ==> exists|k: int|
                0 <= k < i && #[trigger] steps[k].step_id@ == (#[trigger] steps[i].depends_on@[d])@,
{
    assert forall|d: int| 0 <= d < steps[i].depends_on@.len() implies exists|k: int|
        0 <= k < i && #[trigger] steps[k].step_id@ == (#[trigger] steps[i].depends_on@[d])@ by {
        assert(d == 0);
        assert(steps[j].step_id@ == steps[i].depends_on@[d]@);
    }
}

/// A built plan passes validation: every dependency names an earlier step. It
/// holds five steps, six under policy constraints, one approval requirement under
/// policy constraints and none otherwise, and one goal or skill id per context
/// entry.
pub proof fn lemma_built_plan_is_valid(input: TaskPlanInput, plan: TaskPlan)
    requires
        !is_blank(input.user_intent@),
        built_plan_ok(input, plan),
    ensures
        task_plan_errors(plan).len() == 0,
        forall|i: int, d: int|
            0 <= i < plan.steps@.len() && 0 <= d < plan.steps@[i].depends_on@.len() ==> exists|k: int|
                0 <= k < i && #[trigger] plan.steps@[k].step_id@ == (#[trigger] plan.steps@[i].depends_on@[d])@,
        plan.steps@.len() == if input.policy_constraints@.len() > 0 {
            6int
        } else {
            5int
        },
        plan.required_approvals@.len() == if input.policy_constraints@.len() > 0 {
            1int
        } else {
            0int
        },
        plan.goal_context_ids@.len() == input.goal_context@.len(),
        plan.skill_context_ids@.len() == input.skill_context@.len(),
{
    let steps = plan.steps@;
    let approval = input.policy_constraints@.len() > 0;
    let n: int = if approval { 6 } else { 5 };
    let ids = step_id_views(steps);
    assert(views(plan.goal_context_ids@).len() == plan.goal_context_ids@.len());
    assert(views(plan.skill_context_ids@).len() == plan.skill_context_ids@.len());
    // the dependencies, step by step
    assert(steps[0].depends_on@.len() == 0) by {
        assert(views(steps[0].depends_on@).len() == 0);
    }
    assert forall|i: int| 1 <= i < n implies steps[i].depends_on@.len() == 1 && (#[trigger] steps[i].depends_on@)[0]@
        == steps[i - 1].step_id@ by {
        assert(views(steps[i].depends_on@)[0] == steps[i].depends_on@[0]@);
        assert(views(steps[i].depends_on@).len() == steps[i].depends_on@.len());
    }
    assert forall|i: int, d: int|
        0 <= i < steps.len() && 0 <= d < steps[i].depends_on@.len() implies exists|k: int|
            0 <= k < i && #[trigger] steps[k].step_id@ == (#[trigger] steps[i].depends_on@[d])@ by {
        assert(i >= 1);
        assert(steps[i].depends_on@.len() == 1 && steps[i].depends_on@[0]@ == steps[i - 1].step_id@);
        lemma_dep_earlier(steps, i, i - 1);
    }
    // no unknown dependency
    assert forall|i: int, j: int| 0 <= i < n && 0 <= j <= steps[i].depends_on@.len() implies #[trigger] step_dependency_errors(
        steps[i],
        ids,
        j,
    ).len() == 0 by {
        if j > 0 {
            assert(i >= 1);
            assert(ids[i - 1] == steps[i - 1].step_id@);
            assert(ids.contains(steps[i].depends_on@[j - 1]@));
            reveal_with_fuel(step_dependency_errors, 2);
        }
    }
    assert forall|i: int| 0 <= i <= n implies #[trigger] dependency_errors(steps, ids, i).len() == 0 by {
        lemma_dependency_errors_empty(steps, ids, i);
    }
}

proof fn lemma_dependency_errors_empty(steps: Seq<TaskPlanStep>, ids: Seq<Seq<char>>, i: int)
    requires
        0 <= i <= steps.len(),
        forall|k: int, j: int| 0 <= k < steps.len() && 0 <= j <= steps[k].depends_on@.len() ==> #[trigger] step_dependency_errors(
            steps[k],
            ids,
            j,
        ).len() == 0,
    ensures
        dependency_errors(steps, ids, i).len() == 0,
    decreases i,
{
    if i > 0 {
        lemma_dependency_errors_empty(steps, ids, i - 1);
        assert(step_dependency_errors(steps[i - 1], ids, steps[i - 1].depends_on@.len() as int).len() == 0);
    }
}

proof fn lemma_steps_hash_text_eq(a: Seq<TaskPlanStep>, b: Seq<TaskPlanStep>)
    requires
        a.len() == b.len(),
        forall|i: int|
            0 <= i < a.len() ==> (#[trigger] a[i]).step_id@ == b[i].step_id@ && a[i].title@ == b[i].title@ && a[i].kind
                == b[i].kind,
    ensures
        steps_hash_text(a) == steps_hash_text(b),
    decreases a.len(),
{
    if a.len() > 0 {
        assert forall|i: int| 0 <= i < a.drop_last().len() implies (#[trigger] a.drop_last()[i]).step_id@
            == b.drop_last()[i].step_id@ && a.drop_last()[i].title@ == b.drop_last()[i].title@
            && a.drop_last()[i].kind == b.drop_last()[i].kind by {
            assert(a.drop_last()[i] == a[i]);
            assert(b.drop_last()[i] == b[i]);
        }
        lemma_steps_hash_text_eq(a.drop_last(), b.drop_last());
        assert(a.last() == a[a.len() - 1]);
    }
}

/// Building is deterministic: two plans built from the same input agree in
/// everything but the creation time, in particular in their step ids, plan id,
/// plan hash, title and evidence links.
pub proof fn lemma_built_plan_deterministic(input: TaskPlanInput, p1: TaskPlan, p2: TaskPlan)
    requires
        built_plan_ok(input, p1),
        built_plan_ok(input, p2),
    ensures
        step_id_views(p1.steps@) == step_id_views(p2.steps@),
        p1.plan_id.0@ == p2.plan_id.0@,
        p1.plan_hash@ == p2.plan_hash@,
        p1.title@ == p2.title@,
        link_views(p1.evidence_links@) == link_views(p2.evidence_links@),
        p1.status == p2.status,
{
    let a = p1.steps@;
    let b = p2.steps@;
    let approval = input.policy_constraints@.len() > 0;
    let n: int = if approval { 6 } else { 5 };
    assert forall|i: int| 0 <= i < n implies (#[trigger] a[i]).step_id@ == b[i].step_id@ && a[i].title@ == b[i].title@
        && a[i].kind == b[i].kind by {
        if i == n - 1 || i == n - 2 {
        } else if i == 3 {
            assert(approval);
        }
    }
    lemma_steps_hash_text_eq(a, b);
    assert(step_id_views(a) =~= step_id_views(b));
}

} // verus!
