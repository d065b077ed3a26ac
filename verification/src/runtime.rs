//! The agent runtime's decisions: which agent runs for a type, how a
//! delivered message is handled, and how an agent's output is checked
//! and turned into database writes.
use vstd::prelude::*;

use crate::agents::{started_effect_message, AgentOutput};
use crate::builder::BuilderAgent;
use crate::error::AppError;
use crate::executor::ExecutorAgent;
use crate::handlers::{effect_result, handled_type, is_agent_error, persist_result, PersistPlan, ResultHandlerRegistry};
use crate::models::{agent_type_debug_name, agent_type_name, AgentType};
use crate::optimizer::OptimizerAgent;
use crate::summarizer::GoalSummarizerAgent;
use crate::text::owned;

verus! {

/// An agent ready to run.
pub enum AgentInstance {
    Summarizer(GoalSummarizerAgent),
    Builder(BuilderAgent),
    Executor(ExecutorAgent),
    Optimizer(OptimizerAgent),
}

/// The agent instance kind that runs for an agent type.
pub open spec fn instance_for(i: AgentInstance, t: AgentType) -> bool {
    match t {
        AgentType::Summarizer => i is Summarizer,
        AgentType::Builder => i is Builder,
        AgentType::Executor => i is Executor,
        AgentType::Optimizer => i is Optimizer,
    }
}

/// The cancellation token the agent watches.
pub open spec fn instance_token(i: AgentInstance) -> tokio_util::sync::CancellationToken {
    match i {
        AgentInstance::Summarizer(a) => a.cancel_token,
        AgentInstance::Builder(a) => a.cancel_token,
        AgentInstance::Executor(a) => a.cancel_token,
        AgentInstance::Optimizer(a) => a.cancel_token,
    }
}

impl AgentInstance {
    /// The type the agent reports: the builder reports as an executor.
    pub fn agent_type(&self) -> (t: AgentType)
        ensures
            t == match *self {
                AgentInstance::Summarizer(_) => AgentType::Summarizer,
                AgentInstance::Builder(_) => AgentType::Executor,
                AgentInstance::Executor(_) => AgentType::Executor,
                AgentInstance::Optimizer(_) => AgentType::Optimizer,
            },
    {
        match self {
            AgentInstance::Summarizer(a) => a.agent_type(),
            AgentInstance::Builder(a) => a.agent_type(),
            AgentInstance::Executor(a) => a.agent_type(),
            AgentInstance::Optimizer(a) => a.agent_type(),
        }
    }

    /// Asks the agent to stop.
    pub fn cancel(&self) {
        match self {
            AgentInstance::Summarizer(a) => a.cancel(),
            AgentInstance::Builder(a) => a.cancel(),
            AgentInstance::Executor(a) => a.cancel(),
            AgentInstance::Optimizer(a) => a.cancel(),
        }
    }
}

/// How a delivered message is handled.
#[derive(Debug, Clone, PartialEq, Eq)]
pub enum Delivery {
    /// The summarizer answers it in a conversation turn.
    RunTurn,
    /// A background agent starts; the message is recorded as a result.
    StartAgent { message: String },
}

/// The workspace key an agent reports under: the workspace's id, or the
/// goal's where the goal has no workspace.
pub fn workspace_key(workspace_id: &Option<String>, goal_id: &str) -> (k: String)
    ensures
        k@ == match *workspace_id {
            Some(w) => w@,
            None => goal_id@,
        },
{
    match workspace_id {
        Some(w) => w.clone(),
        None => owned(goal_id),
    }
}

/// The runtime's handlers.
pub struct AgentRuntime {
    pub handlers: ResultHandlerRegistry,
}

impl AgentRuntime {
    /// A runtime with the four standard handlers.
    pub fn new() -> (r: AgentRuntime)
        ensures
            forall|t: AgentType| #[trigger] r.handlers@.contains_key(t) && handled_type(r.handlers@[t]) == t,
    {
        AgentRuntime { handlers: ResultHandlerRegistry::standard() }
    }

    /// The agent that runs for an agent type.
    pub fn create_agent(&self, agent_type: AgentType, cancel_token: tokio_util::sync::CancellationToken) -> (a: AgentInstance)
        ensures
            instance_for(a, agent_type),
            instance_token(a) == cancel_token,
    {
        match agent_type {
            AgentType::Summarizer => AgentInstance::Summarizer(GoalSummarizerAgent::new(cancel_token)),
            AgentType::Builder => AgentInstance::Builder(BuilderAgent::new(cancel_token)),
            AgentType::Executor => AgentInstance::Executor(ExecutorAgent::new(cancel_token)),
            AgentType::Optimizer => AgentInstance::Optimizer(OptimizerAgent::new(cancel_token)),
        }
    }

    /// How a message delivered while the goal calls for `agent_type` is
    /// handled: the summarizer answers it; any other agent is started,
    /// and `<agent type> agent started` is recorded.
    pub fn delivery_for(&self, agent_type: AgentType) -> (d: Delivery)
        ensures
            match d {
                Delivery::RunTurn => agent_type == AgentType::Summarizer,
                Delivery::StartAgent { message } => agent_type != AgentType::Summarizer
                    && message@ == agent_type_name(agent_type) + " agent started"@,
            },
    {
        match agent_type {
            AgentType::Summarizer => Delivery::RunTurn,
            _ => Delivery::StartAgent { message: started_effect_message(agent_type) },
        }
    }

    /// Checks an agent's output with the handler of its type; `content` is
    /// the output's serialised form, which becomes the recorded result.
    pub fn handle_output(&self, output: &AgentOutput, agent_type: &AgentType, content: serde_json::Value) -> (r: Result<serde_json::Value, AppError>)
        ensures
            self.handlers@.contains_key(*agent_type) ==> effect_result(self.handlers@[*agent_type], *output, content, r),
            !self.handlers@.contains_key(*agent_type) ==> is_agent_error(
                r,
                "No handler registered for agent type: "@ + agent_type_debug_name(*agent_type),
            ),
    {
        match self.handlers.handler_for(agent_type) {
            Ok(handler) => handler.to_effect_content(output, content),
            Err(e) => Err(e),
        }
    }

    /// The writes for an agent's output, planned by the handler of its
    /// type.
    pub fn persist_plan(&self, output: &AgentOutput, agent_type: &AgentType) -> (r: Result<PersistPlan, AppError>)
        ensures
            self.handlers@.contains_key(*agent_type) ==> persist_result(self.handlers@[*agent_type], *output, r),
            !self.handlers@.contains_key(*agent_type) ==> is_agent_error(
                r,
                "No handler registered for agent type: "@ + agent_type_debug_name(*agent_type),
            ),
    {
        match self.handlers.handler_for(agent_type) {
            Ok(handler) => handler.persist(output),
            Err(e) => Err(e),
        }
    }
}

} // verus!
