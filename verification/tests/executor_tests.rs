use rig_your_goal::agents::AgentOutput;
use rig_your_goal::executor::{bugs_logged_note, execute, execution_output, get_user_manual, skipping_note, ExecutionResult, ExecutionState, ExecutorAgent};
use rig_your_goal::models::AgentType;
use rig_your_goal::workhub::BugEntry;
use tokio_util::sync::CancellationToken;

#[test]
fn empty_state_summary() {
    let s = ExecutionState::new();
    assert_eq!(s.summary(), "Successes: 0\nFailures: 0\n");
}

#[test]
fn summary_counts_and_lists_recent_failures() {
    let mut s = ExecutionState::new();
    s.record_success("a", "ok");
    s.record_success("b", "ok");
    s.record_failure("c", "boom");
    assert_eq!(s.summary(), "Successes: 2\nFailures: 1\nRecent failures:\n- c: boom\n");
}

#[test]
fn summary_lists_at_most_five_failures() {
    let mut s = ExecutionState::new();
    for i in 0..7 {
        s.record_failure(&format!("s{}", i), "e");
    }
    let text = s.summary();
    assert!(text.starts_with("Successes: 0\nFailures: 7\nRecent failures:\n- s0: e\n"));
    assert!(text.contains("- s4: e\n"));
    assert!(!text.contains("- s5"));
    assert_eq!(text.matches("- s").count(), 5);
}

#[test]
fn executor_without_skills_skips_verification() {
    let a = ExecutorAgent::new(CancellationToken::new());
    assert_eq!(a.agent_type(), AgentType::Executor);
    assert_eq!(a.max_iterations, 50);
    assert_eq!(skipping_note(), "No skills available for execution \u{2014} skipping\n");
    let r = execute();
    assert!(r.success);
    assert_eq!(r.message, "No skills to execute - verification skipped");
    assert!(bugs_logged_note(&r).is_none());
    match execution_output(r) {
        AgentOutput::ExecutionResult { success, failure_reason, bugs_found, milestone_id, .. } => {
            assert!(success);
            assert!(failure_reason.is_none());
            assert!(bugs_found.is_empty());
            assert_eq!(milestone_id, "");
        }
        _ => panic!("expected an execution result"),
    }
}

#[test]
fn failed_execution_reports_its_bugs() {
    let r = ExecutionResult {
        success: false,
        message: "broken".to_string(),
        bugs: vec![BugEntry::new("x".to_string(), Some("trace".to_string())), BugEntry::new("y".to_string(), None)],
    };
    assert_eq!(bugs_logged_note(&r).as_deref(), Some("Logged 2 bugs\n"));
    match execution_output(r) {
        AgentOutput::ExecutionResult { success, failure_reason, bugs_found, .. } => {
            assert!(!success);
            assert_eq!(failure_reason.as_deref(), Some("broken"));
            assert_eq!(bugs_found.len(), 2);
            assert_eq!(bugs_found[0].error_output.as_deref(), Some("trace"));
            assert_eq!(bugs_found[1].description, "y");
        }
        _ => panic!("expected an execution result"),
    }
}

#[test]
fn user_manual_falls_back_to_a_note() {
    assert_eq!(get_user_manual(Some("m".to_string())), "m");
    assert_eq!(get_user_manual(None), "No user manual available");
}

#[test]
fn summary_follows_interleaved_records_in_call_order() {
    let mut s = ExecutionState::new();
    s.record_failure("f1", "e1");
    s.record_success("a", "ok");
    s.record_failure("f2", "e2");
    s.record_success("b", "ok");
    s.record_success("c", "ok");
    assert_eq!(s.summary(), "Successes: 3\nFailures: 2\nRecent failures:\n- f1: e1\n- f2: e2\n");
    assert_eq!(s.summary(), s.summary());
}
