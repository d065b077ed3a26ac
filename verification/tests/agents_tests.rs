use rig_your_goal::agents::{
    determine_agent_type, started_effect_message, started_goal_status, AgentStatus, AgentSupervisor,
    StartOutcome,
};
use rig_your_goal::models::AgentType;
use rig_your_goal::workhub::GoalStatus;

#[test]
fn agent_type_follows_the_goal_status() {
    assert_eq!(determine_agent_type(GoalStatus::Draft).unwrap(), AgentType::Summarizer);
    assert_eq!(determine_agent_type(GoalStatus::Pinned).unwrap(), AgentType::Builder);
    assert_eq!(determine_agent_type(GoalStatus::Building).unwrap(), AgentType::Builder);
    assert_eq!(determine_agent_type(GoalStatus::Reached).unwrap(), AgentType::Optimizer);
    assert_eq!(determine_agent_type(GoalStatus::Optimizing).unwrap(), AgentType::Optimizer);
    assert_eq!(determine_agent_type(GoalStatus::Failed).unwrap(), AgentType::Builder);
    let e = determine_agent_type(GoalStatus::Archived).unwrap_err();
    assert_eq!(e.kind(), "agent");
    assert_eq!(e.message(), "Agent error: No agent transition defined for goal status: archived");
}

#[test]
fn starting_an_agent_moves_the_goal() {
    assert_eq!(started_goal_status(AgentType::Summarizer), GoalStatus::Draft);
    assert_eq!(started_goal_status(AgentType::Builder), GoalStatus::Building);
    assert_eq!(started_goal_status(AgentType::Executor), GoalStatus::Building);
    assert_eq!(started_goal_status(AgentType::Optimizer), GoalStatus::Optimizing);
    assert_eq!(started_effect_message(AgentType::Builder), "builder agent started");
}

#[test]
fn start_records_a_starting_task() {
    let mut sup = AgentSupervisor::new();
    assert_eq!(sup.get_status("ws1"), None);
    let out = sup.start_agent("ws1", AgentType::Builder, "2024-01-01T00:00:00Z".to_string());
    assert_eq!(out, StartOutcome::Started(GoalStatus::Building));
    assert_eq!(out.status(), AgentStatus::Starting);
    assert_eq!(sup.get_status("ws1"), Some(AgentStatus::Starting));
}

#[test]
fn start_on_an_active_workspace_changes_nothing() {
    let mut sup = AgentSupervisor::new();
    let _ = sup.start_agent("ws", AgentType::Builder, "t0".to_string());
    sup.update_status("ws", AgentStatus::Running);
    let out = sup.start_agent("ws", AgentType::Optimizer, "t1".to_string());
    assert_eq!(out, StartOutcome::AlreadyActive(AgentStatus::Running));
    let running = sup.list_running();
    assert_eq!(running.len(), 1);
    assert_eq!(running[0].1, AgentType::Builder);
}

#[test]
fn a_finished_task_can_be_replaced() {
    let mut sup = AgentSupervisor::new();
    let _ = sup.start_agent("ws", AgentType::Builder, "t0".to_string());
    sup.update_status("ws", AgentStatus::Completed);
    assert!(sup.list_running().is_empty());
    let out = sup.start_agent("ws", AgentType::Optimizer, "t1".to_string());
    assert_eq!(out, StartOutcome::Started(GoalStatus::Optimizing));
    let running = sup.list_running();
    assert_eq!(running, vec![("ws".to_string(), AgentType::Optimizer, AgentStatus::Starting)]);
}

#[test]
fn stop_cancels_and_reports_canceling() {
    let mut sup = AgentSupervisor::new();
    let _ = sup.start_agent("a", AgentType::Summarizer, "t".to_string());
    assert_eq!(sup.stop_agent("a").unwrap(), AgentStatus::Canceling);
    assert_eq!(sup.get_status("a"), Some(AgentStatus::Canceling));
    assert!(sup.list_running().is_empty());
}

#[test]
fn stop_without_task_is_not_found() {
    let mut sup = AgentSupervisor::new();
    let e = sup.stop_agent("ghost").unwrap_err();
    assert_eq!(e.kind(), "not_found");
    assert_eq!(e.message(), "Not found: No running agent for workspace: ghost");
}

#[test]
fn list_running_lists_each_active_task_once() {
    let mut sup = AgentSupervisor::new();
    let _ = sup.start_agent("a", AgentType::Builder, "t".to_string());
    let _ = sup.start_agent("b", AgentType::Optimizer, "t".to_string());
    let _ = sup.start_agent("c", AgentType::Summarizer, "t".to_string());
    sup.update_status("a", AgentStatus::Running);
    sup.update_status("c", AgentStatus::Failed);
    let mut running = sup.list_running();
    running.sort_by(|x, y| x.0.cmp(&y.0));
    assert_eq!(
        running,
        vec![
            ("a".to_string(), AgentType::Builder, AgentStatus::Running),
            ("b".to_string(), AgentType::Optimizer, AgentStatus::Starting),
        ]
    );
}

#[test]
fn status_names_and_activity() {
    assert_eq!(AgentStatus::Canceling.debug_name(), "Canceling");
    assert!(AgentStatus::Starting.is_active());
    assert!(AgentStatus::Running.is_active());
    assert!(!AgentStatus::Completed.is_active());
    assert!(!AgentStatus::Failed.is_active());
}

#[test]
fn second_start_of_any_type_is_refused() {
    let mut sup = AgentSupervisor::new();
    let first = sup.start_agent("ws", AgentType::Summarizer, "t0".to_string());
    assert_eq!(first, StartOutcome::Started(GoalStatus::Draft));
    let second = sup.start_agent("ws", AgentType::Builder, "t1".to_string());
    assert_eq!(second, StartOutcome::AlreadyActive(AgentStatus::Starting));
    assert_eq!(sup.list_running(), vec![("ws".to_string(), AgentType::Summarizer, AgentStatus::Starting)]);
}

#[test]
fn other_workspaces_are_untouched() {
    let mut sup = AgentSupervisor::new();
    let _ = sup.start_agent("a", AgentType::Builder, "t".to_string());
    sup.update_status("a", AgentStatus::Running);
    let _ = sup.start_agent("b", AgentType::Optimizer, "t".to_string());
    assert_eq!(sup.get_status("a"), Some(AgentStatus::Running));
    sup.stop_agent("b").unwrap();
    assert_eq!(sup.get_status("a"), Some(AgentStatus::Running));
    assert_eq!(sup.get_status("b"), Some(AgentStatus::Canceling));
}

#[test]
fn a_stopped_workspace_can_start_again() {
    let mut sup = AgentSupervisor::new();
    let _ = sup.start_agent("ws", AgentType::Builder, "t0".to_string());
    sup.stop_agent("ws").unwrap();
    let out = sup.start_agent("ws", AgentType::Optimizer, "t1".to_string());
    assert_eq!(out, StartOutcome::Started(GoalStatus::Optimizing));
    assert_eq!(sup.list_running(), vec![("ws".to_string(), AgentType::Optimizer, AgentStatus::Starting)]);
}

#[test]
fn stop_reaches_the_running_agent_through_its_token() {
    let mut sup = AgentSupervisor::new();
    let _ = sup.start_agent("w", AgentType::Builder, "t".to_string());
    let token = sup.cancel_handle("w").unwrap();
    assert!(!token.is_cancelled());
    assert_eq!(sup.stop_agent("w").unwrap(), AgentStatus::Canceling);
    assert!(token.is_cancelled());
    assert!(sup.cancel_handle("w2").is_none());
    assert!(sup.stop_agent("w2").is_err());
}
