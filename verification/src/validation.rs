//! Task plan and plan review validation, plan ids and plan hashes.
use vstd::prelude::*;
use vstd::utf8::encode_utf8;
use crate::ids::{digest_hex, push_digest_hex, text_id};
use crate::plan::{TaskPlan, TaskPlanId, TaskPlanStatus, TaskPlanStep};
use crate::plan_review::{TaskPlanReview, TaskPlanReviewDecision};
use crate::text::{is_blank, str_is_blank, trim, trim_str, views, push_utf8};

verus! {

/// Step ids of a plan, as text.
pub open spec fn step_id_views(steps: Seq<TaskPlanStep>) -> Seq<Seq<char>> {
    steps.map_values(|s: TaskPlanStep| s.step_id@)
}

/// The message for an unknown dependency.
pub open spec fn unknown_dependency_message(step_id: Seq<char>, dep: Seq<char>) -> Seq<char> {
    "step '"@ + step_id + "' references unknown dependency '"@ + dep + "'"@
}

/// Unknown-dependency messages for the first `j` dependencies of `step`.
pub open spec fn step_dependency_errors(step: TaskPlanStep, ids: Seq<Seq<char>>, j: int) -> Seq<Seq<char>>
    decreases j,
{
    if j <= 0 {
        Seq::empty()
    } else {
        let dep = step.depends_on@[j - 1]@;
        step_dependency_errors(step, ids, j - 1) + if ids.contains(dep) {
            Seq::empty()
        } else {
            seq![unknown_dependency_message(step.step_id@, dep)]
        }
    }
}

/// Unknown-dependency messages for the first `i` steps, step by step, dependency by dependency.
pub open spec fn dependency_errors(steps: Seq<TaskPlanStep>, ids: Seq<Seq<char>>, i: int) -> Seq<Seq<char>>
    decreases i,
{
    if i <= 0 {
        Seq::empty()
    } else {
        dependency_errors(steps, ids, i - 1) + step_dependency_errors(
            steps[i - 1],
            ids,
            steps[i - 1].depends_on@.len() as int,
        )
    }
}

/// Every error `validate_task_plan` reports, in order.
pub open spec fn task_plan_errors(plan: TaskPlan) -> Seq<Seq<char>> {
    (if is_blank(plan.user_intent@) {
        seq!["user_intent must not be empty"@]
    } else {
        Seq::empty()
    }) + (if plan.status == TaskPlanStatus::Reviewable && plan.steps@.len() == 0 {
        seq!["reviewable plan must have at least one step"@]
    } else {
        Seq::empty()
    }) + dependency_errors(
        plan.steps@,
        step_id_views(plan.steps@),
        plan.steps@.len() as int,
    )
}

fn contains_text(v: &Vec<String>, t: &String) -> (b: bool)
    ensures
        b == views(v@).contains(t@),
{
    let mut i: usize = 0;
    while i < v.len()
        invariant
            i <= v.len(),
            forall|k: int| 0 <= k < i ==> v@[k]@ != t@,
        decreases v.len() - i,
    {
        if v[i] == *t {
            assert(views(v@)[i as int] == t@);
            return true;
        }
        i += 1;
    }
    assert forall|k: int| 0 <= k < views(v@).len() implies views(v@)[k] != t@ by {
        assert(views(v@)[k] == v@[k]@);
    }
    false
}

/// A dependency error message begins with `s` (from `step '`).
pub open spec fn starts_with_s(m: Seq<char>) -> bool {
    m.len() > 0 && m[0] == 's'
}

proof fn lemma_step_dependency_errors_start(step: TaskPlanStep, ids: Seq<Seq<char>>, j: int)
    ensures
        forall|t: int|
            0 <= t < step_dependency_errors(step, ids, j).len() ==> starts_with_s(
                #[trigger] step_dependency_errors(step, ids, j)[t],
            ),
    decreases j,
{
    reveal_strlit("step '");
    if j > 0 {
        lemma_step_dependency_errors_start(step, ids, j - 1);
        let dep = step.depends_on@[j - 1]@;
        let prev = step_dependency_errors(step, ids, j - 1);
        let add = if ids.contains(dep) {
            Seq::<Seq<char>>::empty()
        } else {
            seq![unknown_dependency_message(step.step_id@, dep)]
        };
        let all = step_dependency_errors(step, ids, j);
        assert(all == prev + add);
        assert(unknown_dependency_message(step.step_id@, dep)[0] == 's');
        assert forall|t: int| 0 <= t < all.len() implies starts_with_s(#[trigger] all[t]) by {
            if t < prev.len() {
                assert(all[t] == prev[t]);
            } else {
                assert(all[t] == add[t - prev.len()]);
            }
        }
    }
}

proof fn lemma_dependency_errors_start(steps: Seq<TaskPlanStep>, ids: Seq<Seq<char>>, i: int)
    ensures
        forall|t: int|
            0 <= t < dependency_errors(steps, ids, i).len() ==> starts_with_s(#[trigger] dependency_errors(steps, ids, i)[t]),
    decreases i,
{
    if i > 0 {
        lemma_dependency_errors_start(steps, ids, i - 1);
        lemma_step_dependency_errors_start(steps[i - 1], ids, steps[i - 1].depends_on@.len() as int);
        let prev = dependency_errors(steps, ids, i - 1);
        let add = step_dependency_errors(steps[i - 1], ids, steps[i - 1].depends_on@.len() as int);
        let all = dependency_errors(steps, ids, i);
        assert(all == prev + add);
        assert forall|t: int| 0 <= t < all.len() implies starts_with_s(#[trigger] all[t]) by {
            if t < prev.len() {
                assert(all[t] == prev[t]);
            } else {
                assert(all[t] == add[t - prev.len()]);
            }
        }
    }
}

/// A reviewable plan needs a step. Validation reports "reviewable plan must have at
/// least one step" exactly when the plan is reviewable and has no steps, so such a
/// plan never validates; a plan in any other status with a non-blank intent and no
/// steps validates.
pub proof fn lemma_reviewable_plan_needs_a_step(plan: TaskPlan)
    ensures
        task_plan_errors(plan).contains("reviewable plan must have at least one step"@) <==> (plan.status
            == TaskPlanStatus::Reviewable && plan.steps@.len() == 0),
        plan.status == TaskPlanStatus::Reviewable && plan.steps@.len() == 0 ==> task_plan_errors(plan).len() > 0,
        plan.status != TaskPlanStatus::Reviewable && plan.steps@.len() == 0 && !is_blank(plan.user_intent@)
            ==> task_plan_errors(plan).len() == 0,
{
    let msg = "reviewable plan must have at least one step"@;
    reveal_strlit("reviewable plan must have at least one step");
    reveal_strlit("user_intent must not be empty");
    let e = task_plan_errors(plan);
    let head = if is_blank(plan.user_intent@) { seq!["user_intent must not be empty"@] } else { Seq::empty() };
    let mid = if plan.status == TaskPlanStatus::Reviewable && plan.steps@.len() == 0 { seq![msg] } else { Seq::empty() };
    let deps = dependency_errors(plan.steps@, step_id_views(plan.steps@), plan.steps@.len() as int);
    assert(e == head + mid + deps);
    lemma_dependency_errors_start(plan.steps@, step_id_views(plan.steps@), plan.steps@.len() as int);
    if plan.status == TaskPlanStatus::Reviewable && plan.steps@.len() == 0 {
        assert(e[head.len() as int] == msg);
    } else {
        assert forall|t: int| 0 <= t < e.len() implies e[t] != msg by {
            if t < head.len() {
                assert(e[t] == "user_intent must not be empty"@);
                assert(e[t][0] != msg[0]);
            } else {
                assert(e[t] == deps[t - head.len()]);
                assert(starts_with_s(deps[t - head.len()]));
                assert(e[t][0] != msg[0]);
            }
        }
    }
    if plan.steps@.len() == 0 {
        assert(deps =~= Seq::<Seq<char>>::empty());
    }
}

/// Checks a task plan: non-blank intent, at least one step when reviewable,
/// and every dependency naming a step of the plan.
pub fn validate_task_plan(plan: &TaskPlan) -> (r: Result<(), Vec<String>>)
    ensures
        r is Ok <==> task_plan_errors(*plan).len() == 0,
        r matches Err(e) ==> views(e@) == task_plan_errors(*plan),
{
    let mut errors: Vec<String> = Vec::new();
    if str_is_blank(plan.user_intent.as_str()) {
        errors.push(String::from_str("user_intent must not be empty"));
    }
    if plan.status == TaskPlanStatus::Reviewable && plan.steps.len() == 0 {
        errors.push(String::from_str("reviewable plan must have at least one step"));
    }
    let ghost head = views(errors@);
    let mut ids: Vec<String> = Vec::new();
    let mut k: usize = 0;
    while k < plan.steps.len()
        invariant
            k <= plan.steps.len(),
            ids@.len() == k,
            views(ids@) == step_id_views(plan.steps@.subrange(0, k as int)),
        decreases plan.steps.len() - k,
    {
        let sid = plan.steps[k].step_id.clone();
        assert(sid@ == plan.steps@[k as int].step_id@);
        ids.push(sid);
        k += 1;
        assert(views(ids@).last() == plan.steps@[k - 1].step_id@);
        assert(views(ids@).drop_last() =~= views(ids@.drop_last()));
        assert forall|t: int| 0 <= t < k implies #[trigger] views(ids@)[t] == step_id_views(
            plan.steps@.subrange(0, k as int),
        )[t] by {
            if t < k - 1 {
                assert(views(ids@)[t] == views(ids@.drop_last())[t]);
                assert(step_id_views(plan.steps@.subrange(0, k - 1))[t] == plan.steps@[t].step_id@);
            }
        }
        assert(views(ids@) =~= step_id_views(plan.steps@.subrange(0, k as int)));
    }
    assert(plan.steps@.subrange(0, k as int) =~= plan.steps@);
    let ghost idv = step_id_views(plan.steps@);
    let mut i: usize = 0;
    while i < plan.steps.len()
        invariant
            i <= plan.steps.len(),
            views(ids@) == idv,
            idv == step_id_views(plan.steps@),
            views(errors@) == head + dependency_errors(plan.steps@, idv, i as int),
        decreases plan.steps.len() - i,
    {
        let step = &plan.steps[i];
        let mut j: usize = 0;
        while j < step.depends_on.len()
            invariant
                i < plan.steps.len(),
                *step == plan.steps@[i as int],
                j <= step.depends_on.len(),
                views(ids@) == idv,
                views(errors@) == head + dependency_errors(plan.steps@, idv, i as int)
                    + step_dependency_errors(*step, idv, j as int),
            decreases step.depends_on.len() - j,
        {
            let dep = &step.depends_on[j];
            let ghost prev = views(errors@);
            let found = contains_text(&ids, dep);
            assert(dep@ == step.depends_on@[j as int]@);
            assert(step_dependency_errors(*step, idv, j + 1) == step_dependency_errors(*step, idv, j as int)
                + if idv.contains(dep@) { Seq::<Seq<char>>::empty() } else { seq![unknown_dependency_message(step.step_id@, dep@)] });
            if !found {
                let mut msg = String::from_str("step '");
                msg.append(step.step_id.as_str());
                msg.append("' references unknown dependency '");
                msg.append(dep.as_str());
                msg.append("'");
                errors.push(msg);
            }
            j += 1;
            assert(views(errors@) =~= prev + if idv.contains(dep@) { Seq::<Seq<char>>::empty() } else { seq![unknown_dependency_message(step.step_id@, dep@)] });
            assert(views(errors@) =~= head + dependency_errors(plan.steps@, idv, i as int)
                + step_dependency_errors(*step, idv, j as int));
        }
        i += 1;
        assert(views(errors@) =~= head + dependency_errors(plan.steps@, idv, i as int));
    }
    if errors.len() == 0 {
        Ok(())
    } else {
        Err(errors)
    }
}

/// Every error `validate_task_plan_review` reports, in order.
pub open spec fn task_plan_review_errors(review: TaskPlanReview) -> Seq<Seq<char>> {
    (if is_blank(review.reviewer@) {
        seq!["review author must not be empty"@]
    } else {
        Seq::empty()
    }) + (if is_blank(review.rationale@) {
        seq!["rationale must not be empty"@]
    } else {
        Seq::empty()
    }) + (if review.creates_execution_grant {
        seq!["creates_execution_grant must be false"@]
    } else {
        Seq::empty()
    }) + (if review.execution_allowed_now {
        seq!["execution_allowed_now must be false"@]
    } else {
        Seq::empty()
    }) + review_decision_errors(review)
}

/// The errors of a plan review's decision: a rejection needs blocking reasons and
/// a change request needs requested changes.
pub open spec fn review_decision_errors(review: TaskPlanReview) -> Seq<Seq<char>> {
    match review.decision {
        TaskPlanReviewDecision::Rejected => match review.feedback {
            Some(f) => if f.blocking_reasons@.len() == 0 {
                seq!["rejection requires at least one blocking reason"@]
            } else {
                Seq::empty()
            },
            None => seq!["rejection requires feedback with blocking reasons"@],
        },
        TaskPlanReviewDecision::ChangesRequested => match review.feedback {
            Some(f) => if f.requested_changes@.len() == 0 {
                seq!["change request requires at least one requested change"@]
            } else {
                Seq::empty()
            },
            None => seq!["change request requires feedback with requested changes"@],
        },
        TaskPlanReviewDecision::Approved => Seq::empty(),
    }
}

fn review_decision_errors_exec(review: &TaskPlanReview) -> (errors: Vec<String>)
    ensures
        views(errors@) == review_decision_errors(*review),
{
    let mut errors: Vec<String> = Vec::new();
    match review.decision {
        TaskPlanReviewDecision::Rejected => {
            match &review.feedback {
                Some(feedback) => {
                    if feedback.blocking_reasons.len() == 0 {
                        errors.push(String::from_str("rejection requires at least one blocking reason"));
                    }
                },
                None => {
                    errors.push(String::from_str("rejection requires feedback with blocking reasons"));
                },
            }
        },
        TaskPlanReviewDecision::ChangesRequested => {
            match &review.feedback {
                Some(feedback) => {
                    if feedback.requested_changes.len() == 0 {
                        errors.push(String::from_str("change request requires at least one requested change"));
                    }
                },
                None => {
                    errors.push(String::from_str("change request requires feedback with requested changes"));
                },
            }
        },
        TaskPlanReviewDecision::Approved => {},
    }
    assert(views(errors@) =~= review_decision_errors(*review));
    errors
}

/// Checks a plan review: non-blank author and rationale, no execution grant,
/// and feedback that backs a rejection or a change request.
pub fn validate_task_plan_review(review: &TaskPlanReview) -> (r: Result<(), Vec<String>>)
    ensures
        r is Ok <==> task_plan_review_errors(*review).len() == 0,
        r matches Err(e) ==> views(e@) == task_plan_review_errors(*review),
{
    let mut errors: Vec<String> = Vec::new();
    if str_is_blank(review.reviewer.as_str()) {
        errors.push(String::from_str("review author must not be empty"));
    }
    if str_is_blank(review.rationale.as_str()) {
        errors.push(String::from_str("rationale must not be empty"));
    }
    if review.creates_execution_grant {
        errors.push(String::from_str("creates_execution_grant must be false"));
    }
    if review.execution_allowed_now {
        errors.push(String::from_str("execution_allowed_now must be false"));
    }
    let mut rest = review_decision_errors_exec(review);
    errors.append(&mut rest);
    assert(views(errors@) =~= task_plan_review_errors(*review));
    if errors.len() == 0 {
        Ok(())
    } else {
        Err(errors)
    }
}

/// All texts of `v`, one after another.
pub open spec fn concat_texts(v: Seq<Seq<char>>) -> Seq<char>
    decreases v.len(),
{
    if v.len() == 0 {
        Seq::empty()
    } else {
        concat_texts(v.drop_last()) + v.last()
    }
}

/// Little-endian bytes of `n`, `k` of them.
pub open spec fn le_bytes(n: nat, k: nat) -> Seq<u8>
    decreases k,
{
    if k == 0 {
        Seq::empty()
    } else {
        seq![(n % 256) as u8] + le_bytes(n / 256, (k - 1) as nat)
    }
}

/// The bytes of `usize::to_le_bytes`.
pub open spec fn usize_le_bytes(n: usize) -> Seq<u8> {
    le_bytes(n as nat, (usize::BITS / 8) as nat)
}

/// The bytes hashed into a plan id.
pub open spec fn task_plan_id_preimage(
    user_intent: Seq<char>,
    title: Seq<char>,
    step_count: usize,
    goal_context_ids: Seq<Seq<char>>,
    skill_context_ids: Seq<Seq<char>>,
) -> Seq<u8> {
    encode_utf8(trim(user_intent)) + encode_utf8(trim(title)) + usize_le_bytes(step_count)
        + encode_utf8(concat_texts(goal_context_ids)) + encode_utf8(concat_texts(skill_context_ids))
}

proof fn lemma_le_bytes_step(n: nat, k: nat)
    requires
        k > 0,
    ensures
        le_bytes(n, k) == seq![(n % 256) as u8] + le_bytes(n / 256, (k - 1) as nat),
{
}

fn push_usize_le(out: &mut Vec<u8>, n: usize)
    ensures
        final(out)@ == old(out)@ + usize_le_bytes(n),
{
    let width: u32 = usize::BITS / 8;
    let mut v: usize = n;
    let mut k: u32 = 0;
    while k < width
        invariant
            width == usize::BITS / 8,
            k <= width,
            old(out)@ + usize_le_bytes(n) == out@ + le_bytes(v as nat, (width - k) as nat),
        decreases width - k,
    {
        let ghost before = out@;
        let ghost vv = v as nat;
        proof {
            lemma_le_bytes_step(vv, (width - k) as nat);
        }
        out.push((v % 256) as u8);
        v = v / 256;
        k += 1;
        assert(out@ + le_bytes(v as nat, (width - k) as nat) =~= before + (seq![(vv % 256) as u8]
            + le_bytes(vv / 256, (width - k) as nat)));
    }
    assert(out@ + le_bytes(v as nat, 0) =~= out@);
}

fn push_concat(out: &mut Vec<u8>, v: &Vec<String>)
    ensures
        final(out)@ == old(out)@ + encode_utf8(concat_texts(views(v@))),
{
    let mut text = String::new();
    let mut i: usize = 0;
    while i < v.len()
        invariant
            i <= v.len(),
            text@ == concat_texts(views(v@.subrange(0, i as int))),
        decreases v.len() - i,
    {
        text.append(v[i].as_str());
        i += 1;
        assert(views(v@.subrange(0, i as int)).drop_last() =~= views(v@.subrange(0, i - 1)));
    }
    assert(v@.subrange(0, v.len() as int) =~= v@);
    push_utf8(out, text.as_str());
}

/// Computes the content-addressed plan id from normalized fields.
pub fn task_plan_id_for(
    user_intent: &str,
    title: &str,
    step_count: usize,
    goal_context_ids: &Vec<String>,
    skill_context_ids: &Vec<String>,
) -> (id: TaskPlanId)
    ensures
        id.0@ == "tpl_"@ + digest_hex(
            task_plan_id_preimage(
                user_intent@,
                title@,
                step_count,
                views(goal_context_ids@),
                views(skill_context_ids@),
            ),
        ),
{
    let mut bytes: Vec<u8> = Vec::new();
    let ti = trim_str(user_intent);
    push_utf8(&mut bytes, ti.as_str());
    let tt = trim_str(title);
    push_utf8(&mut bytes, tt.as_str());
    push_usize_le(&mut bytes, step_count);
    push_concat(&mut bytes, goal_context_ids);
    push_concat(&mut bytes, skill_context_ids);
    let mut out = String::from_str("tpl_");
    push_digest_hex(&mut out, &bytes);
    TaskPlanId(out)
}

/// The text hashed into a plan hash: each step's id, title and kind JSON.
pub open spec fn steps_hash_text(steps: Seq<TaskPlanStep>) -> Seq<char>
    decreases steps.len(),
{
    if steps.len() == 0 {
        Seq::empty()
    } else {
        steps_hash_text(steps.drop_last()) + steps.last().step_id@ + steps.last().title@
            + steps.last().kind.json_view()
    }
}

/// The plan hash of steps and constraints.
pub open spec fn plan_hash_of(steps: Seq<TaskPlanStep>, constraints: Seq<Seq<char>>) -> Seq<char> {
    digest_hex(encode_utf8(steps_hash_text(steps) + concat_texts(constraints)))
}

/// Computes the plan hash from steps and constraints.
pub fn compute_plan_hash(steps: &Vec<TaskPlanStep>, constraints: &Vec<String>) -> (h: String)
    ensures
        h@ == plan_hash_of(steps@, views(constraints@)),
{
    let mut text = String::new();
    let mut i: usize = 0;
    while i < steps.len()
        invariant
            i <= steps.len(),
            text@ == steps_hash_text(steps@.subrange(0, i as int)),
        decreases steps.len() - i,
    {
        text.append(steps[i].step_id.as_str());
        text.append(steps[i].title.as_str());
        text.append(steps[i].kind.json_text());
        i += 1;
        assert(steps@.subrange(0, i as int).drop_last() =~= steps@.subrange(0, i - 1));
    }
    assert(steps@.subrange(0, steps.len() as int) =~= steps@);
    let mut j: usize = 0;
    let ghost base = text@;
    while j < constraints.len()
        invariant
            j <= constraints.len(),
            text@ == base + concat_texts(views(constraints@.subrange(0, j as int))),
        decreases constraints.len() - j,
    {
        text.append(constraints[j].as_str());
        j += 1;
        assert(views(constraints@.subrange(0, j as int)).drop_last() =~= views(
            constraints@.subrange(0, j - 1),
        ));
        assert(text@ =~= base + concat_texts(views(constraints@.subrange(0, j as int))));
    }
    assert(constraints@.subrange(0, constraints.len() as int) =~= constraints@);
    let mut bytes: Vec<u8> = Vec::new();
    push_utf8(&mut bytes, text.as_str());
    assert(bytes@ =~= encode_utf8(text@));
    let mut out = String::new();
    push_digest_hex(&mut out, &bytes);
    assert(out@ =~= plan_hash_of(steps@, views(constraints@)));
    out
}

/// A reviewed plan is not an execution grant: a review that passes validation has
/// an author and a rationale and grants no execution, and a rejection or change
/// request that passes carries the feedback behind it.
pub proof fn lemma_valid_review_grants_no_execution(review: TaskPlanReview)
    requires
        task_plan_review_errors(review).len() == 0,
    ensures
        !review.creates_execution_grant,
        !review.execution_allowed_now,
        !is_blank(review.reviewer@),
        !is_blank(review.rationale@),
        review.decision == TaskPlanReviewDecision::Rejected ==> (review.feedback matches Some(f)
            && f.blocking_reasons@.len() > 0),
        review.decision == TaskPlanReviewDecision::ChangesRequested ==> (review.feedback matches Some(f)
            && f.requested_changes@.len() > 0),
{
}

} // verus!
