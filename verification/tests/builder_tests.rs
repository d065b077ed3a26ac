use rig_your_goal::agents::AgentOutput;
use rig_your_goal::builder::{
    accepted_note, check_execute_response, poll_step, BuilderAgent, GeneratorTaskResult, PollStep,
    VerificationResult, ANALYSIS_TAIL,
};
use rig_your_goal::generator::{ExecuteResponse, GeneratedSkill, GeneratorTaskStatus, StatusResponse, TaskResult};
use rig_your_goal::models::AgentType;
use rig_your_goal::workhub::{ModuleSpec, SkillRequirement, Specification};
use tokio_util::sync::CancellationToken;

fn agent() -> BuilderAgent {
    BuilderAgent::new(CancellationToken::new())
}

fn status(st: GeneratorTaskStatus) -> StatusResponse {
    StatusResponse {
        task_id: "t".to_string(),
        status: st,
        progress: 40,
        current_step: None,
        result: None,
        error: None,
    }
}

#[test]
fn builder_reports_as_executor_and_retries_ten_times() {
    let a = agent();
    assert_eq!(a.agent_type(), AgentType::Executor);
    assert_eq!(a.max_retries, 10);
}

#[test]
fn builder_extracts_the_object_span() {
    let a = agent();
    assert_eq!(a.extract_json("Here: {\"a\": {\"b\": 1}} done"), "{\"a\": {\"b\": 1}}");
    assert_eq!(a.extract_json("no json here"), "no json here");
    assert_eq!(a.extract_json("only { open"), "only { open");
    assert_eq!(a.extract_json("}{"), "");
}

#[test]
fn plan_is_read_from_the_json_reply() {
    let a = agent();
    let reply = "Sure!\n{\"analysis\": \"do it\", \"modules\": [{\"name\": \"core\", \"description\": \"the core\", \"dependencies\": [\"db\", 3, \"net\"]}, {}], \"acceptance_criteria\": [\"fast\", false, \"safe\"]}";
    let plan = a.parse_plan(reply).unwrap();
    assert_eq!(plan.analysis, "do it");
    assert_eq!(plan.modules.len(), 2);
    assert_eq!(plan.modules[0].name, "core");
    assert_eq!(plan.modules[0].description, "the core");
    assert_eq!(plan.modules[0].dependencies, vec!["db".to_string(), "net".to_string()]);
    assert_eq!(plan.modules[1].name, "unknown");
    assert_eq!(plan.modules[1].description, "");
    assert!(plan.modules[1].dependencies.is_empty());
    assert_eq!(plan.acceptance_criteria, vec!["fast".to_string(), "safe".to_string()]);
    assert_eq!(a.plan_note(&plan), "Plan created with 2 modules\n");
}

#[test]
fn a_reply_without_json_becomes_the_analysis() {
    let a = agent();
    let plan = a.parse_plan("just words").unwrap();
    assert_eq!(plan.analysis, "just words");
    assert!(plan.modules.is_empty());
    assert!(plan.acceptance_criteria.is_empty());
}

#[test]
fn analysis_prompt_names_the_goal_and_the_previous_conclusion() {
    let a = agent();
    let p = a.build_analysis_prompt("Build X", "raw text", &Some("old".to_string()));
    assert!(p.starts_with(
        "You are a goal planning agent. Analyze the following goal and create a detailed plan.\n\nGoal: Build X\nRaw Input: raw text\n\nPrevious Conclusion:\nold\n\nCreate a plan with:\n"
    ));
    assert!(p.ends_with(ANALYSIS_TAIL));
    let q = a.build_analysis_prompt("G", "r", &None);
    assert!(!q.contains("Previous Conclusion"));
}

#[test]
fn specification_and_its_prompt() {
    let a = agent();
    let plan = a.parse_plan("{\"analysis\": \"A\", \"modules\": [{\"name\": \"m1\", \"description\": \"d1\"}, {\"name\": \"m2\", \"description\": \"d2\"}], \"acceptance_criteria\": [\"c1\", \"c2\"]}").unwrap();
    let spec = a.transform_to_specification(&plan, "Goal");
    assert_eq!(spec.project_background, "Project: Goal\n\nA");
    assert_eq!(spec.module_breakdown.len(), 2);
    assert!(spec.module_breakdown[1].skill_requirements.is_empty());
    let p = a.build_specification_prompt(&spec);
    assert_eq!(
        p,
        "You are a code generation agent. Here is your task:\n\nProject Background:\nProject: Goal\n\nA\n\nModule Breakdown:\n- m1: d1\n- m2: d2\n\nAcceptance Criteria:\nc1\nc2\n\nPlease generate the required code and provide a user manual.\nAfter generation, respond with:\n1. A summary of what was created\n2. A user manual (USER_MANUAL.md format)\n3. Any skills that should be saved for future use"
    );
}

#[test]
fn empty_specification_prompt_has_empty_sections() {
    let a = agent();
    let spec = Specification { project_background: "B".to_string(), module_breakdown: vec![], acceptance_criteria: vec![] };
    let p = a.build_specification_prompt(&spec);
    assert!(p.contains("Module Breakdown:\n\n\nAcceptance Criteria:\n\n\nPlease"));
    let _unused: Vec<ModuleSpec> = vec![];
}

#[test]
fn completed_task_gives_its_result() {
    let mut s = status(GeneratorTaskStatus::Completed);
    s.result = Some(TaskResult {
        summary: "built".to_string(),
        user_manual: Some("man".to_string()),
        skills: vec![GeneratedSkill { name: "sk".to_string(), description: "d".to_string(), path: Some("p".to_string()) }],
        files_modified: vec![],
    });
    let (step, note) = poll_step(s, 3);
    assert_eq!(note.as_deref(), Some("Generator task completed successfully\n"));
    match step {
        PollStep::Finished(Ok(g)) => {
            assert!(g.success);
            assert_eq!(g.result, "built");
            assert_eq!(g.user_manual.as_deref(), Some("man"));
            assert_eq!(g.skills.len(), 1);
            assert_eq!(g.skills[0].name, "sk");
            assert!(g.skills[0].parameters_schema.is_none());
        }
        _ => panic!("expected a finished result"),
    }
}

#[test]
fn completed_task_without_result_is_a_transport_error() {
    let (step, _) = poll_step(status(GeneratorTaskStatus::Completed), 0);
    match step {
        PollStep::Finished(Err(e)) => assert_eq!(e.message(), "Transport error: Generator completed but no result provided"),
        _ => panic!("expected an error"),
    }
}

#[test]
fn failed_task_is_an_unsuccessful_result() {
    let (step, note) = poll_step(status(GeneratorTaskStatus::Failed), 0);
    assert_eq!(note.as_deref(), Some("Generator task failed: Unknown error\n"));
    match step {
        PollStep::Finished(Ok(g)) => {
            assert!(!g.success);
            assert_eq!(g.result, "Unknown error");
        }
        _ => panic!("expected a finished result"),
    }
    let mut s = status(GeneratorTaskStatus::Failed);
    s.error = Some("boom".to_string());
    let (_, note) = poll_step(s, 0);
    assert_eq!(note.as_deref(), Some("Generator task failed: boom\n"));
}

#[test]
fn cancelled_task_ends_the_wait() {
    let (step, note) = poll_step(status(GeneratorTaskStatus::Cancelled), 0);
    assert!(note.is_none());
    match step {
        PollStep::Finished(Err(e)) => assert_eq!(e.message(), "Cancelled: Task was cancelled"),
        _ => panic!("expected an error"),
    }
}

#[test]
fn running_task_notes_progress_and_polls_again() {
    let mut s = status(GeneratorTaskStatus::Running);
    s.current_step = Some("Compiling".to_string());
    let (step, note) = poll_step(s, 0);
    assert_eq!(note.as_deref(), Some("[40%] Compiling\n"));
    assert!(matches!(step, PollStep::Continue(1)));
    let (step, note) = poll_step(status(GeneratorTaskStatus::Pending), 7);
    assert!(note.is_none());
    assert!(matches!(step, PollStep::Continue(8)));
}

#[test]
fn the_last_poll_times_out() {
    let (step, _) = poll_step(status(GeneratorTaskStatus::Pending), 599);
    match step {
        PollStep::Finished(Err(e)) => assert_eq!(e.message(), "Transport error: Generator task timed out"),
        _ => panic!("expected a time-out"),
    }
}

#[test]
fn refused_tasks_are_transport_errors() {
    let ok = ExecuteResponse { task_id: "t".to_string(), accepted: true, message: None };
    assert!(check_execute_response(&ok).is_ok());
    let no = ExecuteResponse { task_id: "t".to_string(), accepted: false, message: None };
    assert_eq!(check_execute_response(&no).unwrap_err().message(), "Transport error: Generator rejected task");
    let why = ExecuteResponse { task_id: "t".to_string(), accepted: false, message: Some("busy".to_string()) };
    assert_eq!(check_execute_response(&why).unwrap_err().message(), "Transport error: busy");
    assert_eq!(accepted_note("t9"), "Task t9 accepted, waiting for completion...\n");
}

#[test]
fn verification_and_conclusion() {
    let a = agent();
    let failed = GeneratorTaskResult { success: false, result: "x".to_string(), user_manual: None, skills: vec![] };
    let v = a.verify_precheck(&failed).unwrap();
    assert!(!v.passed);
    assert_eq!(v.reason, "Generator reported failure");
    let good = GeneratorTaskResult { success: true, result: "out".to_string(), user_manual: Some("m".to_string()), skills: vec![] };
    assert!(a.verify_precheck(&good).is_none());
    assert_eq!(a.verify_prompt(&good), "Verify the following output from a generator agent. Is it complete and correct?\n\nout");
    assert_eq!(
        good.enhance_prompt().as_deref(),
        Some("Review and improve this user manual. Make it clearer and more actionable:\n\nm")
    );
    assert!(failed.enhance_prompt().is_none());
    assert_eq!(a.verification_passed().reason, "Verification passed");

    let pass = VerificationResult { passed: true, reason: String::new() };
    let fail = VerificationResult { passed: false, reason: String::new() };
    let (c, n) = a.conclude(&pass, 1);
    assert!(c.achieved && n.finished);
    assert_eq!(c.message, "Goal successfully achieved");
    assert_eq!(n.text, "Goal achieved! Creating conclusion...\n");
    let (c, n) = a.conclude(&fail, 3);
    assert!(!c.achieved && !n.finished);
    assert_eq!(c.message, "Retrying...");
    assert_eq!(n.text, "Attempt 3/10 failed, will retry\n");
    assert!(!a.run_finished(&c, 3));
    let (c, n) = a.conclude(&fail, 10);
    assert!(!c.achieved && n.finished);
    assert_eq!(c.message, "Failed after 10 attempts");
    assert_eq!(n.text, "Max retries (10) reached, marking as failed\n");
    assert!(a.run_finished(&c, 10));
}

#[test]
fn builder_outputs() {
    let a = agent();
    match a.cancelled_output(None) {
        AgentOutput::BuilderResult { milestone_id, success, failure_reason, plan, .. } => {
            assert_eq!(milestone_id, "");
            assert!(!success);
            assert_eq!(failure_reason.as_deref(), Some("Cancelled by user"));
            assert!(plan.is_none());
        }
        _ => panic!("expected a builder result"),
    }
    let skills = vec![SkillRequirement { name: "s1".to_string(), description: "d".to_string(), parameters_schema: None }];
    let (c, _) = a.conclude(&VerificationResult { passed: false, reason: String::new() }, 10);
    match a.final_output(Some("m1".to_string()), Some(serde_json::Value::Bool(true)), &skills, c) {
        AgentOutput::BuilderResult { milestone_id, skills_used, success, failure_reason, plan, new_node_id } => {
            assert_eq!(milestone_id, "m1");
            assert_eq!(skills_used, vec!["s1".to_string()]);
            assert!(!success);
            assert_eq!(failure_reason.as_deref(), Some("Failed after 10 attempts"));
            assert_eq!(plan, Some(serde_json::Value::Bool(true)));
            assert!(new_node_id.is_none());
        }
        _ => panic!("expected a builder result"),
    }
}
