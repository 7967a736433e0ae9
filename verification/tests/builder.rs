use workflow::builder::build_task_plan;
use workflow::context::TaskPlanInput;
use workflow::plan::{TaskPlanEvidenceKind, TaskPlanStatus, TaskPlanStepKind};

fn basic_input() -> TaskPlanInput {
    TaskPlanInput {
        user_intent: "Refactor the session module".into(),
        skill_context: vec![],
        goal_context: vec![],
        memory_summaries: vec!["some memory".into()],
        trace_summaries: vec!["some trace".into()],
        governance_summaries: vec![],
        policy_constraints: vec![],
    }
}

#[test]
fn builder_creates_plan_from_user_intent() {
    let plan = build_task_plan(&basic_input()).unwrap();
    assert_eq!("Refactor the session module", plan.title);
    assert_eq!(TaskPlanStatus::Reviewable, plan.status);
    assert!(!plan.steps.is_empty());
}

#[test]
fn builder_rejects_empty_intent() {
    let input = TaskPlanInput { user_intent: "   ".into(), ..basic_input() };
    assert!(build_task_plan(&input).is_err());
}

#[test]
fn builder_includes_active_goals_as_evidence() {
    let input = TaskPlanInput { goal_context: vec!["ship-product: Ship OpenWand".into()], ..basic_input() };
    let plan = build_task_plan(&input).unwrap();
    assert!(plan.evidence_links.iter().any(|e| matches!(e.kind, TaskPlanEvidenceKind::Goal)));
    assert!(plan.goal_context_ids.contains(&"ship-product".to_string()));
}

#[test]
fn builder_includes_enabled_skills_as_evidence() {
    let input = TaskPlanInput { skill_context: vec!["rust-test-triage: Triage tests".into()], ..basic_input() };
    let plan = build_task_plan(&input).unwrap();
    assert!(plan.evidence_links.iter().any(|e| matches!(e.kind, TaskPlanEvidenceKind::Skill)));
    assert!(plan.skill_context_ids.contains(&"rust-test-triage".to_string()));
}

#[test]
fn builder_copies_policy_constraints() {
    let input = TaskPlanInput { policy_constraints: vec!["No direct shell execution".into()], ..basic_input() };
    let plan = build_task_plan(&input).unwrap();
    assert!(plan.policy_constraints.contains(&"No direct shell execution".to_string()));
}

#[test]
fn builder_outputs_non_executing_step_kinds_only() {
    let plan = build_task_plan(&basic_input()).unwrap();
    for step in &plan.steps {
        match step.kind {
            TaskPlanStepKind::Observe
            | TaskPlanStepKind::Analyze
            | TaskPlanStepKind::ProposeChange
            | TaskPlanStepKind::RequestApproval
            | TaskPlanStepKind::Verify
            | TaskPlanStepKind::Report => {}
        }
    }
}

#[test]
fn builder_adds_assumption_for_missing_context() {
    let input = TaskPlanInput { memory_summaries: vec![], trace_summaries: vec![], ..basic_input() };
    let plan = build_task_plan(&input).unwrap();
    assert!(plan.assumptions.iter().any(|a| a.text.contains("No memory context")));
    assert!(plan.assumptions.iter().any(|a| a.text.contains("No trace context")));
}

#[test]
fn builder_orders_steps_deterministically() {
    let plan1 = build_task_plan(&basic_input()).unwrap();
    let plan2 = build_task_plan(&basic_input()).unwrap();
    let ids1: Vec<_> = plan1.steps.iter().map(|s| s.step_id.clone()).collect();
    let ids2: Vec<_> = plan2.steps.iter().map(|s| s.step_id.clone()).collect();
    assert_eq!(ids1, ids2);
    assert_eq!(plan1.plan_id, plan2.plan_id);
    assert_eq!(plan1.plan_hash, plan2.plan_hash);
}

#[test]
fn builder_policy_constraints_add_approval_step_and_risk() {
    let input = TaskPlanInput { policy_constraints: vec!["No shell".into()], ..basic_input() };
    let plan = build_task_plan(&input).unwrap();
    let ids: Vec<_> = plan.steps.iter().map(|s| s.step_id.as_str()).collect();
    assert_eq!(vec!["step_1", "step_2", "step_3", "step_4", "step_5", "step_6"], ids);
    assert_eq!(1, plan.required_approvals.len());
    assert_eq!("step_3", plan.required_approvals[0].step_id);
    assert_eq!(1, plan.risks.len());
    assert_eq!("medium", plan.steps[2].risk_level);
    assert_eq!(vec!["step_4".to_string()], plan.steps[4].depends_on);
    let plain = build_task_plan(&basic_input()).unwrap();
    assert_eq!(5, plain.steps.len());
    assert!(plain.required_approvals.is_empty());
    assert_eq!(vec!["step_3".to_string()], plain.steps[3].depends_on);
}

#[test]
fn builder_parses_context_and_shortens_long_titles() {
    let input = TaskPlanInput {
        user_intent: "x".repeat(90),
        goal_context: vec!["no colon here".into(), " g1 :  first goal ".into()],
        ..basic_input()
    };
    let plan = build_task_plan(&input).unwrap();
    assert_eq!(vec!["unknown".to_string(), "g1".to_string()], plan.goal_context_ids);
    assert_eq!("first goal", plan.evidence_links[1].summary);
    assert_eq!("no colon here", plan.evidence_links[0].summary);
    assert_eq!(format!("{}...", "x".repeat(77)), plan.title);
    assert_eq!(TaskPlanEvidenceKind::UserIntent, plan.evidence_links[2].kind);
    assert_eq!("user_intent", plan.evidence_links[2].id);
    assert!(plan.plan_id.0.starts_with("tpl_"));
    assert_eq!(4 + 64, plan.plan_id.0.len());
    assert_eq!(64, plan.plan_hash.len());
}

#[test]
fn builder_cuts_long_titles_at_a_character_boundary() {
    let intent = format!("{}é{}", "a".repeat(76), "a".repeat(10));
    let input = TaskPlanInput { user_intent: intent.clone(), ..basic_input() };
    let plan = build_task_plan(&input).unwrap();
    assert_eq!(format!("{}...", "a".repeat(76)), plan.title);
    assert_eq!(intent, plan.user_intent);
}

#[test]
fn builder_keeps_a_wide_character_that_ends_at_the_cut() {
    let intent = format!("{}é{}", "a".repeat(75), "a".repeat(10));
    let input = TaskPlanInput { user_intent: intent, ..basic_input() };
    let plan = build_task_plan(&input).unwrap();
    assert_eq!(format!("{}é...", "a".repeat(75)), plan.title);
}

#[test]
fn builder_plans_pass_validation_and_depend_backwards() {
    for constraints in [vec![], vec!["no network".to_string()]] {
        let input = TaskPlanInput { policy_constraints: constraints.clone(), ..basic_input() };
        let plan = build_task_plan(&input).unwrap();
        assert!(workflow::validation::validate_task_plan(&plan).is_ok());
        for (i, step) in plan.steps.iter().enumerate() {
            for dep in &step.depends_on {
                assert!(plan.steps[..i].iter().any(|s| &s.step_id == dep));
            }
        }
        assert_eq!(if constraints.is_empty() { 5 } else { 6 }, plan.steps.len());
    }
}
