//! The events pushed to the front end: their channel names and payloads.
use vstd::prelude::*;

use crate::text::{concat2, owned};

verus! {

/// A piece of streamed agent text; `finished` marks the end of a reply.
#[derive(Debug, Clone, PartialEq, Eq)]
pub struct AgentStreamPayload {
    pub delta: String,
    pub finished: bool,
}

/// An agent's status change.
#[derive(Debug, Clone, PartialEq, Eq)]
pub struct AgentStatusPayload {
    pub agent_type: String,
    pub status: String,
    pub phase: String,
}

/// A decision an agent took, with its reasoning and optional data.
#[derive(Debug, Clone)]
pub struct AgentDecisionPayload {
    pub decision: String,
    pub reasoning: String,
    pub data: Option<serde_json::Value>,
}

/// A goal's status change.
#[derive(Debug, Clone, PartialEq, Eq)]
pub struct GoalStatusPayload {
    pub status: String,
    pub previous: String,
}

/// The gateway connection's state.
#[derive(Debug, Clone, PartialEq, Eq)]
pub struct OpenClawConnectionPayload {
    pub connected: bool,
    pub url: String,
}

/// The channel of a workspace's streamed agent text.
pub fn agent_stream_channel(workspace_id: &str) -> (s: String)
    ensures
        s@ == "ryg:agent:stream:"@ + workspace_id@,
{
    concat2("ryg:agent:stream:", workspace_id)
}

/// The channel of a workspace's agent status changes.
pub fn agent_status_channel(workspace_id: &str) -> (s: String)
    ensures
        s@ == "ryg:agent:status:"@ + workspace_id@,
{
    concat2("ryg:agent:status:", workspace_id)
}

/// The channel of a workspace's agent decisions.
pub fn agent_decision_channel(workspace_id: &str) -> (s: String)
    ensures
        s@ == "ryg:agent:decision:"@ + workspace_id@,
{
    concat2("ryg:agent:decision:", workspace_id)
}

/// The channel of a goal's status changes.
pub fn goal_status_channel(goal_id: &str) -> (s: String)
    ensures
        s@ == "ryg:goal:status:"@ + goal_id@,
{
    concat2("ryg:goal:status:", goal_id)
}

/// The channel of the gateway connection state.
pub fn openclaw_connection_channel() -> (s: &'static str)
    ensures
        s@ == "ryg:openclaw:connection"@,
{
    "ryg:openclaw:connection"
}

impl AgentStreamPayload {
    /// A stream payload.
    pub fn new(delta: &str, finished: bool) -> (p: AgentStreamPayload)
        ensures
            p.delta@ == delta@,
            p.finished == finished,
    {
        AgentStreamPayload { delta: owned(delta), finished }
    }
}

impl AgentStatusPayload {
    /// A status payload.
    pub fn new(agent_type: &str, status: &str, phase: &str) -> (p: AgentStatusPayload)
        ensures
            p.agent_type@ == agent_type@,
            p.status@ == status@,
            p.phase@ == phase@,
    {
        AgentStatusPayload { agent_type: owned(agent_type), status: owned(status), phase: owned(phase) }
    }
}

impl AgentDecisionPayload {
    /// A decision payload.
    pub fn new(decision: &str, reasoning: &str, data: Option<serde_json::Value>) -> (p: AgentDecisionPayload)
        ensures
            p.decision@ == decision@,
            p.reasoning@ == reasoning@,
            p.data == data,
    {
        AgentDecisionPayload { decision: owned(decision), reasoning: owned(reasoning), data }
    }
}

impl GoalStatusPayload {
    /// A goal status payload.
    pub fn new(status: &str, previous: &str) -> (p: GoalStatusPayload)
        ensures
            p.status@ == status@,
            p.previous@ == previous@,
    {
        GoalStatusPayload { status: owned(status), previous: owned(previous) }
    }
}

impl OpenClawConnectionPayload {
    /// A connection payload.
    pub fn new(connected: bool, url: &str) -> (p: OpenClawConnectionPayload)
        ensures
            p.connected == connected,
            p.url@ == url@,
    {
        OpenClawConnectionPayload { connected, url: owned(url) }
    }
}

} // verus!
