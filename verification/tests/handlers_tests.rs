use rig_your_goal::agents::{AgentOutput, Optimization};
use rig_your_goal::handlers::{
    BuilderResultHandler, ExecutorResultHandler, LogDetails, OptimizerResultHandler, ResultHandlerKind,
    ResultHandlerRegistry, SummarizerResultHandler,
};
use rig_your_goal::models::AgentType;
use rig_your_goal::runtime::{workspace_key, AgentInstance, AgentRuntime, Delivery};
use rig_your_goal::workhub::GoalStatus;
use serde_json::Value;
use tokio_util::sync::CancellationToken;

fn builder_result(success: bool) -> AgentOutput {
    AgentOutput::BuilderResult {
        milestone_id: "m".to_string(),
        plan: None,
        skills_used: vec!["s".to_string()],
        success,
        failure_reason: if success { None } else { Some("why".to_string()) },
        new_node_id: Some("n".to_string()),
    }
}

fn summary() -> AgentOutput {
    AgentOutput::GoalSummary {
        title: "T".to_string(),
        description: "D".to_string(),
        acceptance_criteria: vec!["a".to_string()],
        constraints: vec![],
        refinement_questions: vec!["q".to_string()],
    }
}

#[test]
fn builder_handler_plans_reached_or_failed() {
    let h = BuilderResultHandler;
    assert_eq!(h.agent_type(), AgentType::Builder);
    let p = h.persist(&builder_result(true)).unwrap();
    assert_eq!(p.goal_status, Some(GoalStatus::Reached));
    let log = p.log.unwrap();
    assert_eq!((log.agent_type, log.phase, log.event_type), ("builder", "building", "reached"));
    match log.details {
        LogDetails::BuilderReached { new_node_id, skills_used } => {
            assert_eq!(new_node_id.as_deref(), Some("n"));
            assert_eq!(skills_used, vec!["s".to_string()]);
        }
        _ => panic!("expected the reached details"),
    }
    let p = h.persist(&builder_result(false)).unwrap();
    assert_eq!(p.goal_status, Some(GoalStatus::Failed));
    let log = p.log.unwrap();
    assert_eq!(log.event_type, "failed");
    assert!(matches!(log.details, LogDetails::Text(ref m) if m == "why"));
    let e = h.persist(&summary()).unwrap_err();
    assert_eq!(e.message(), "Agent error: Builder persist received unexpected output variant");
    let e = h.to_effect_content(&summary(), Value::Null).unwrap_err();
    assert_eq!(e.message(), "Agent error: Builder handler received unexpected output variant");
    assert_eq!(h.to_effect_content(&builder_result(true), Value::Bool(true)).unwrap(), Value::Bool(true));
}

#[test]
fn summarizer_handler_stores_confirmed_summaries_only() {
    let h = SummarizerResultHandler;
    let p = h.persist(&summary()).unwrap();
    let s = p.summary.unwrap();
    assert_eq!(s.title, "T");
    assert_eq!(s.refinement_questions, vec!["q".to_string()]);
    assert_eq!(p.goal_status, Some(GoalStatus::Draft));
    assert!(matches!(p.log.unwrap().details, LogDetails::Output));
    let turn = AgentOutput::ConversationTurn { message: "hi".to_string(), summary_draft: None };
    let p = h.persist(&turn).unwrap();
    assert!(p.summary.is_none() && p.goal_status.is_none() && p.log.is_none());
    assert!(h.to_effect_content(&turn, Value::Null).is_ok());
    assert_eq!(
        h.persist(&builder_result(true)).unwrap_err().message(),
        "Agent error: Summarizer persist received unexpected output variant"
    );
}

#[test]
fn executor_handler_sets_only_the_status() {
    let h = ExecutorResultHandler;
    let out = AgentOutput::ExecutionResult {
        milestone_id: String::new(),
        plan: None,
        skills_used: vec![],
        success: false,
        failure_reason: None,
        bugs_found: vec![],
    };
    let p = h.persist(&out).unwrap();
    assert_eq!(p.goal_status, Some(GoalStatus::Failed));
    assert!(p.log.is_none());
    assert_eq!(
        h.to_effect_content(&summary(), Value::Null).unwrap_err().message(),
        "Agent error: Executor handler received unexpected output variant"
    );
}

#[test]
fn optimizer_handler_archives_solidified_goals() {
    let h = OptimizerResultHandler;
    let out = AgentOutput::OptimizationResult {
        milestone_id: String::new(),
        optimizations: vec![Optimization {
            area: "a".to_string(),
            description: "d".to_string(),
            before: "b".to_string(),
            after: "c".to_string(),
        }],
        solidified: true,
        new_node_id: None,
    };
    let p = h.persist(&out).unwrap();
    assert_eq!(p.goal_status, Some(GoalStatus::Archived));
    match p.log.unwrap().details {
        LogDetails::OptimizerCompleted { solidified, optimizations, new_node_id } => {
            assert!(solidified);
            assert_eq!(optimizations, 1);
            assert!(new_node_id.is_none());
        }
        _ => panic!("expected the completion details"),
    }
}

#[test]
fn registry_holds_one_handler_per_type() {
    let mut r = ResultHandlerRegistry::new();
    assert!(r.get(&AgentType::Builder).is_none());
    assert_eq!(
        r.handler_for(&AgentType::Builder).unwrap_err().message(),
        "Agent error: No handler registered for agent type: Builder"
    );
    r.register(ResultHandlerKind::Builder(BuilderResultHandler));
    assert_eq!(r.get(&AgentType::Builder), Some(ResultHandlerKind::Builder(BuilderResultHandler)));
    let std = ResultHandlerRegistry::standard();
    for t in [AgentType::Summarizer, AgentType::Builder, AgentType::Executor, AgentType::Optimizer] {
        assert_eq!(std.get(&t).unwrap().agent_type(), t);
    }
}

#[test]
fn runtime_creates_agents_and_routes_messages() {
    let rt = AgentRuntime::new();
    let a = rt.create_agent(AgentType::Builder, CancellationToken::new());
    assert!(matches!(a, AgentInstance::Builder(_)));
    assert_eq!(a.agent_type(), AgentType::Executor);
    assert_eq!(rt.delivery_for(AgentType::Summarizer), Delivery::RunTurn);
    assert_eq!(
        rt.delivery_for(AgentType::Optimizer),
        Delivery::StartAgent { message: "optimizer agent started".to_string() }
    );
    assert!(rt.handle_output(&builder_result(true), &AgentType::Builder, Value::Null).is_ok());
    assert!(rt.handle_output(&builder_result(true), &AgentType::Optimizer, Value::Null).is_err());
    assert_eq!(rt.persist_plan(&builder_result(true), &AgentType::Builder).unwrap().goal_status, Some(GoalStatus::Reached));
    assert_eq!(workspace_key(&Some("w".to_string()), "g"), "w");
    assert_eq!(workspace_key(&None, "g"), "g");
}
