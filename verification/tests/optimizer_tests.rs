use rig_your_goal::agents::{AgentOutput, Optimization};
use rig_your_goal::builder::VerificationResult;
use rig_your_goal::models::AgentType;
use rig_your_goal::optimizer::{GeneratorTaskResult, OptimizerAgent};
use rig_your_goal::workhub::{BugEntry, TodoItem, TodoList};
use tokio_util::sync::CancellationToken;

fn agent() -> OptimizerAgent {
    OptimizerAgent::new(CancellationToken::new())
}

fn bug(d: &str, resolved: bool) -> BugEntry {
    let mut b = BugEntry::new(d.to_string(), None);
    b.resolved = resolved;
    b
}

#[test]
fn optimizer_type_and_limit() {
    let a = agent();
    assert_eq!(a.agent_type(), AgentType::Optimizer);
    assert_eq!(a.max_retries, 10);
}

#[test]
fn unresolved_bugs_come_first_then_todos() {
    let a = agent();
    let bugs = vec![bug("crash", false), bug("old", true), bug("leak", false)];
    let reply = "ok {\"direction_summary\": \"speed\", \"todos\": [{\"description\": \"cache\", \"priority\": 2}, {\"description\": \"\", \"priority\": 1}, {\"description\": \"docs\"}, {\"priority\": 4}]}";
    let list = a.parse_todo_list(reply, &bugs).unwrap();
    assert_eq!(list.direction_summary, "speed");
    assert_eq!(
        list.items,
        vec![
            TodoItem { description: "Fix bug: crash".to_string(), priority: 1 },
            TodoItem { description: "Fix bug: leak".to_string(), priority: 1 },
            TodoItem { description: "cache".to_string(), priority: 2 },
            TodoItem { description: "docs".to_string(), priority: 3 },
        ]
    );
    assert_eq!(a.todo_note(&list), "Created todo list with 4 items\n");
}

#[test]
fn a_reply_without_json_continues_optimization() {
    let a = agent();
    let list = a.parse_todo_list("nothing to parse", &vec![bug("b", false)]).unwrap();
    assert_eq!(list.direction_summary, "Continue optimization");
    assert_eq!(list.items, vec![TodoItem { description: "Fix bug: b".to_string(), priority: 1 }]);
    let list = a.parse_todo_list("{\"todos\": []}", &vec![]).unwrap();
    assert_eq!(list.direction_summary, "Optimization");
    assert!(list.items.is_empty());
}

#[test]
fn large_priorities_are_cut_to_32_bits() {
    let a = agent();
    let list = a.parse_todo_list("{\"todos\": [{\"description\": \"x\", \"priority\": 4294967298}]}", &vec![]).unwrap();
    assert_eq!(list.items[0].priority, 2);
}

#[test]
fn analysis_prompt_lists_known_bugs() {
    let a = agent();
    let p = a.build_analysis_prompt("G", "reached", &Some("plan".to_string()), &vec![bug("b1", false), bug("b2", true)], &None);
    assert!(p.starts_with("You are an optimization agent. Analyze the achieved goal and identify optimization opportunities.\n\nGoal: G\nStatus: reached\n\nCurrent Plan:\nplan\n\nKnown Bugs:\n- b1 (resolved: false)\n- b2 (resolved: true)\n\nBased on the above"));
    let q = a.build_analysis_prompt("G", "s", &None, &vec![], &Some("c".to_string()));
    assert!(q.contains("Status: s\n\nPrevious Conclusion:\nc\n\nBased on"));
}

#[test]
fn specification_prompt_lists_items_with_priorities() {
    let a = agent();
    let mut list = TodoList::new("dir".to_string());
    list.add_item("one".to_string(), 1);
    list.add_item("two".to_string(), 3);
    let spec = a.transform_to_specification(&list, "Goal");
    assert_eq!(spec.goal_title, "Goal");
    assert_eq!(spec.direction, "dir");
    let p = a.build_specification_prompt(&spec);
    assert_eq!(
        p,
        "You are an optimization agent. Apply the following optimizations:\n\nGoal: Goal\nDirection: dir\n\nTodo Items:\n- [P1] one\n- [P3] two\n\nPlease apply these optimizations and provide:\n1. Summary of changes made\n2. Updated user manual\n3. List of specific optimizations (area, description, before, after)"
    );
}

#[test]
fn applied_result_and_its_verification() {
    let a = agent();
    let g = a.applied_result();
    assert!(g.success);
    assert_eq!(g.optimizations.len(), 1);
    assert_eq!(
        a.verify_prompt(&g),
        "Verify the following optimizations are correct and complete:\n\n- performance: Improved algorithm efficiency (O(n^2) -> O(n log n))"
    );
    assert!(a.verify_precheck(&g).is_none());
    let bad = GeneratorTaskResult { success: false, result: String::new(), user_manual: None, optimizations: vec![] };
    assert_eq!(a.verify_precheck(&bad).unwrap().reason, "Generator reported failure");
    assert_eq!(a.verification_passed().reason, "Optimization verification passed");
}

#[test]
fn conclusion_solidifies_only_without_optimizations() {
    let a = agent();
    let pass = VerificationResult { passed: true, reason: String::new() };
    let fail = VerificationResult { passed: false, reason: String::new() };
    let g = a.applied_result();
    let (c, n) = a.conclude(&pass, &g, 1);
    assert!(c.achieved && !c.solidified && n.finished);
    assert_eq!(c.optimizations, g.optimizations);
    assert_eq!(n.text, "Optimization complete! Creating conclusion...\n");
    let empty = GeneratorTaskResult { success: true, result: String::new(), user_manual: None, optimizations: vec![] };
    let (c, _) = a.conclude(&pass, &empty, 1);
    assert!(c.solidified);
    let (c, n) = a.conclude(&fail, &g, 2);
    assert_eq!(n.text, "Optimization attempt 2/10 failed, retrying\n");
    assert!(!n.finished && c.optimizations.is_empty());
    assert!(!a.run_finished(&c, 2));
    let (c, n) = a.conclude(&fail, &g, 10);
    assert_eq!(n.text, "Max retries (10) reached for optimization\n");
    assert_eq!(c.message, "Failed after 10 attempts");
    assert!(a.run_finished(&c, 10));
}

#[test]
fn optimizer_outputs() {
    let a = agent();
    let list = TodoList::new("d".to_string());
    let (out, note) = a.nothing_to_do(&list, Some("m".to_string())).unwrap();
    assert_eq!(note.text, "No optimization tasks found, goal is solidified\n");
    match out {
        AgentOutput::OptimizationResult { milestone_id, solidified, optimizations, .. } => {
            assert_eq!(milestone_id, "m");
            assert!(solidified);
            assert!(optimizations.is_empty());
        }
        _ => panic!("expected an optimisation result"),
    }
    let mut busy = TodoList::new("d".to_string());
    busy.add_item("x".to_string(), 1);
    assert!(a.nothing_to_do(&busy, None).is_none());
    match a.cancelled_output(None) {
        AgentOutput::OptimizationResult { milestone_id, solidified, .. } => {
            assert_eq!(milestone_id, "");
            assert!(!solidified);
        }
        _ => panic!("expected an optimisation result"),
    }
    let g = a.applied_result();
    let (c, _) = a.conclude(&VerificationResult { passed: true, reason: String::new() }, &g, 1);
    match a.final_output(None, c) {
        AgentOutput::OptimizationResult { optimizations, solidified, .. } => {
            assert_eq!(
                optimizations,
                vec![Optimization {
                    area: "performance".to_string(),
                    description: "Improved algorithm efficiency".to_string(),
                    before: "O(n^2)".to_string(),
                    after: "O(n log n)".to_string(),
                }]
            );
            assert!(!solidified);
        }
        _ => panic!("expected an optimisation result"),
    }
}
