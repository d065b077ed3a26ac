//! Stored records (goals, milestones, skills, messages, agent logs), the
//! status vocabularies they use, and the parts of the repositories that
//! compute rather than talk to the database.
use vstd::prelude::*;

use crate::text::{concat2, str_eq};

verus! {

/// The four kinds of agent.
#[derive(Debug, Clone, Copy, PartialEq, Eq, Structural, Hash)]
pub enum AgentType {
    Summarizer,
    Builder,
    Executor,
    Optimizer,
}

/// The text form of an AgentType.
pub open spec fn agent_type_name(t: AgentType) -> Seq<char> {
    match t {
        AgentType::Summarizer => "summarizer"@,
        AgentType::Builder => "builder"@,
        AgentType::Executor => "executor"@,
        AgentType::Optimizer => "optimizer"@,
    }
}

/// The AgentType whose text form is `s`, if any.
pub open spec fn parse_agent_type(s: Seq<char>) -> Option<AgentType> {
    if s == "summarizer"@ {
        Some(AgentType::Summarizer)
    } else if s == "builder"@ {
        Some(AgentType::Builder)
    } else if s == "executor"@ {
        Some(AgentType::Executor)
    } else if s == "optimizer"@ {
        Some(AgentType::Optimizer)
    } else {
        None
    }
}

/// The text forms of the agent types are fixed: a text reads as a given
/// value exactly when it is that value's text (`summarizer`, `builder`,
/// `executor`, `optimizer`, in the order of the variants); any other text
/// reads as none. Each value is written as its own text.
pub proof fn law_agent_type_texts(s: Seq<char>, t: AgentType)
    ensures
        parse_agent_type(s) == Some(AgentType::Summarizer) <==> s == "summarizer"@,
        parse_agent_type(s) == Some(AgentType::Builder) <==> s == "builder"@,
        parse_agent_type(s) == Some(AgentType::Executor) <==> s == "executor"@,
        parse_agent_type(s) == Some(AgentType::Optimizer) <==> s == "optimizer"@,
        parse_agent_type(s) is None <==> (s != "summarizer"@ && s != "builder"@ && s != "executor"@ && s != "optimizer"@),
        t == AgentType::Summarizer ==> agent_type_name(t) == "summarizer"@,
        t == AgentType::Builder ==> agent_type_name(t) == "builder"@,
        t == AgentType::Executor ==> agent_type_name(t) == "executor"@,
        t == AgentType::Optimizer ==> agent_type_name(t) == "optimizer"@,
{
    lemma_agent_type_text_roundtrip(AgentType::Summarizer);
    lemma_agent_type_text_roundtrip(AgentType::Builder);
    lemma_agent_type_text_roundtrip(AgentType::Executor);
    lemma_agent_type_text_roundtrip(AgentType::Optimizer);
}

impl AgentType {
    /// The text form of this value.
    pub fn as_str(&self) -> (r: &'static str)
        ensures
            r@ == agent_type_name(*self),
    {
        match self {
            AgentType::Summarizer => "summarizer",
            AgentType::Builder => "builder",
            AgentType::Executor => "executor",
            AgentType::Optimizer => "optimizer",
        }
    }

    /// Reads an AgentType from its text form; any other text is refused with
    /// the message `Unknown agent type: <text>`.
    pub fn try_from_str(s: &str) -> (r: Result<AgentType, String>)
        ensures
            match r {
                Ok(t) => parse_agent_type(s@) == Some(t),
                Err(m) => parse_agent_type(s@) is None && m@ == "Unknown agent type: "@ + s@,
            },
    {
        if str_eq(s, "summarizer") {
            Ok(AgentType::Summarizer)
        } else if str_eq(s, "builder") {
            Ok(AgentType::Builder)
        } else if str_eq(s, "executor") {
            Ok(AgentType::Executor)
        } else if str_eq(s, "optimizer") {
            Ok(AgentType::Optimizer)
        } else {
            Err(concat2("Unknown agent type: ", s))
        }
    }
}

/// Reading back the text form of an AgentType gives that value, and it is
/// the only text that reads as that value.
pub proof fn lemma_agent_type_text_roundtrip(t: AgentType)
    ensures
        parse_agent_type(agent_type_name(t)) == Some(t),
        forall|s: Seq<char>| parse_agent_type(s) == Some(t) ==> s == agent_type_name(t),
{
    reveal_strlit("summarizer");
    reveal_strlit("builder");
    reveal_strlit("executor");
    reveal_strlit("optimizer");
    match t {
        AgentType::Summarizer => {  },
        AgentType::Builder => { assert("builder"@.len() != "summarizer"@.len()); },
        AgentType::Executor => { assert("executor"@.len() != "summarizer"@.len()); assert("executor"@.len() != "builder"@.len()); },
        AgentType::Optimizer => { assert("optimizer"@.len() != "summarizer"@.len()); assert("optimizer"@.len() != "builder"@.len()); assert("optimizer"@.len() != "executor"@.len()); },
    }
}

/// What an agent log entry records.
#[derive(Debug, Clone, Copy, PartialEq, Eq, Structural)]
pub enum AgentEventKind {
    Started,
    Progress,
    Decision,
    Error,
    Completed,
}

/// The text form of an AgentEventKind.
pub open spec fn agent_event_kind_name(t: AgentEventKind) -> Seq<char> {
    match t {
        AgentEventKind::Started => "started"@,
        AgentEventKind::Progress => "progress"@,
        AgentEventKind::Decision => "decision"@,
        AgentEventKind::Error => "error"@,
        AgentEventKind::Completed => "completed"@,
    }
}

/// The text forms of the agent event kinds are fixed: `started`,
/// `progress`, `decision`, `error`, `completed`, in the order of the
/// variants.
pub proof fn law_agent_event_kind_texts(t: AgentEventKind)
    ensures
        t == AgentEventKind::Started ==> agent_event_kind_name(t) == "started"@,
        t == AgentEventKind::Progress ==> agent_event_kind_name(t) == "progress"@,
        t == AgentEventKind::Decision ==> agent_event_kind_name(t) == "decision"@,
        t == AgentEventKind::Error ==> agent_event_kind_name(t) == "error"@,
        t == AgentEventKind::Completed ==> agent_event_kind_name(t) == "completed"@,
{
}

impl AgentEventKind {
    /// The text form of this value.
    pub fn as_str(&self) -> (r: &'static str)
        ensures
            r@ == agent_event_kind_name(*self),
    {
        match self {
            AgentEventKind::Started => "started",
            AgentEventKind::Progress => "progress",
            AgentEventKind::Decision => "decision",
            AgentEventKind::Error => "error",
            AgentEventKind::Completed => "completed",
        }
    }
}

/// The stored status of a goal.
#[derive(Debug, Clone, Copy, PartialEq, Eq, Structural)]
pub enum GoalStatus {
    Draft,
    Summarizing,
    Pinned,
    Executing,
    Achieved,
    Optimizing,
    Solidified,
    Failed,
}

/// The text form of a GoalStatus.
pub open spec fn goal_status_name(t: GoalStatus) -> Seq<char> {
    match t {
        GoalStatus::Draft => "draft"@,
        GoalStatus::Summarizing => "summarizing"@,
        GoalStatus::Pinned => "pinned"@,
        GoalStatus::Executing => "executing"@,
        GoalStatus::Achieved => "achieved"@,
        GoalStatus::Optimizing => "optimizing"@,
        GoalStatus::Solidified => "solidified"@,
        GoalStatus::Failed => "failed"@,
    }
}

/// The GoalStatus whose text form is `s`, if any.
pub open spec fn parse_goal_status(s: Seq<char>) -> Option<GoalStatus> {
    if s == "draft"@ {
        Some(GoalStatus::Draft)
    } else if s == "summarizing"@ {
        Some(GoalStatus::Summarizing)
    } else if s == "pinned"@ {
        Some(GoalStatus::Pinned)
    } else if s == "executing"@ {
        Some(GoalStatus::Executing)
    } else if s == "achieved"@ {
        Some(GoalStatus::Achieved)
    } else if s == "optimizing"@ {
        Some(GoalStatus::Optimizing)
    } else if s == "solidified"@ {
        Some(GoalStatus::Solidified)
    } else if s == "failed"@ {
        Some(GoalStatus::Failed)
    } else {
        None
    }
}

/// The text forms of the goal statuses are fixed: a text reads as a given
/// value exactly when it is that value's text (`draft`, `summarizing`,
/// `pinned`, `executing`, `achieved`, `optimizing`, `solidified`,
/// `failed`, in the order of the variants); any other text reads as none.
/// Each value is written as its own text.
pub proof fn law_goal_status_texts(s: Seq<char>, t: GoalStatus)
    ensures
        parse_goal_status(s) == Some(GoalStatus::Draft) <==> s == "draft"@,
        parse_goal_status(s) == Some(GoalStatus::Summarizing) <==> s == "summarizing"@,
        parse_goal_status(s) == Some(GoalStatus::Pinned) <==> s == "pinned"@,
        parse_goal_status(s) == Some(GoalStatus::Executing) <==> s == "executing"@,
        parse_goal_status(s) == Some(GoalStatus::Achieved) <==> s == "achieved"@,
        parse_goal_status(s) == Some(GoalStatus::Optimizing) <==> s == "optimizing"@,
        parse_goal_status(s) == Some(GoalStatus::Solidified) <==> s == "solidified"@,
        parse_goal_status(s) == Some(GoalStatus::Failed) <==> s == "failed"@,
        parse_goal_status(s) is None <==> (s != "draft"@ && s != "summarizing"@ && s != "pinned"@ && s != "executing"@ && s != "achieved"@ && s != "optimizing"@ && s != "solidified"@ && s != "failed"@),
        t == GoalStatus::Draft ==> goal_status_name(t) == "draft"@,
        t == GoalStatus::Summarizing ==> goal_status_name(t) == "summarizing"@,
        t == GoalStatus::Pinned ==> goal_status_name(t) == "pinned"@,
        t == GoalStatus::Executing ==> goal_status_name(t) == "executing"@,
        t == GoalStatus::Achieved ==> goal_status_name(t) == "achieved"@,
        t == GoalStatus::Optimizing ==> goal_status_name(t) == "optimizing"@,
        t == GoalStatus::Solidified ==> goal_status_name(t) == "solidified"@,
        t == GoalStatus::Failed ==> goal_status_name(t) == "failed"@,
{
    lemma_goal_status_text_roundtrip(GoalStatus::Draft);
    lemma_goal_status_text_roundtrip(GoalStatus::Summarizing);
    lemma_goal_status_text_roundtrip(GoalStatus::Pinned);
    lemma_goal_status_text_roundtrip(GoalStatus::Executing);
    lemma_goal_status_text_roundtrip(GoalStatus::Achieved);
    lemma_goal_status_text_roundtrip(GoalStatus::Optimizing);
    lemma_goal_status_text_roundtrip(GoalStatus::Solidified);
    lemma_goal_status_text_roundtrip(GoalStatus::Failed);
}

impl GoalStatus {
    /// The text form of this value.
    pub fn as_str(&self) -> (r: &'static str)
        ensures
            r@ == goal_status_name(*self),
    {
        match self {
            GoalStatus::Draft => "draft",
            GoalStatus::Summarizing => "summarizing",
            GoalStatus::Pinned => "pinned",
            GoalStatus::Executing => "executing",
            GoalStatus::Achieved => "achieved",
            GoalStatus::Optimizing => "optimizing",
            GoalStatus::Solidified => "solidified",
            GoalStatus::Failed => "failed",
        }
    }

    /// Reads a GoalStatus from its text form; any other text is refused with
    /// the message `Unknown goal status: <text>`.
    pub fn try_from_str(s: &str) -> (r: Result<GoalStatus, String>)
        ensures
            match r {
                Ok(t) => parse_goal_status(s@) == Some(t),
                Err(m) => parse_goal_status(s@) is None && m@ == "Unknown goal status: "@ + s@,
            },
    {
        if str_eq(s, "draft") {
            Ok(GoalStatus::Draft)
        } else if str_eq(s, "summarizing") {
            Ok(GoalStatus::Summarizing)
        } else if str_eq(s, "pinned") {
            Ok(GoalStatus::Pinned)
        } else if str_eq(s, "executing") {
            Ok(GoalStatus::Executing)
        } else if str_eq(s, "achieved") {
            Ok(GoalStatus::Achieved)
        } else if str_eq(s, "optimizing") {
            Ok(GoalStatus::Optimizing)
        } else if str_eq(s, "solidified") {
            Ok(GoalStatus::Solidified)
        } else if str_eq(s, "failed") {
            Ok(GoalStatus::Failed)
        } else {
            Err(concat2("Unknown goal status: ", s))
        }
    }
}

/// Reading back the text form of a GoalStatus gives that value, and it is
/// the only text that reads as that value.
pub proof fn lemma_goal_status_text_roundtrip(t: GoalStatus)
    ensures
        parse_goal_status(goal_status_name(t)) == Some(t),
        forall|s: Seq<char>| parse_goal_status(s) == Some(t) ==> s == goal_status_name(t),
{
    reveal_strlit("draft");
    reveal_strlit("summarizing");
    reveal_strlit("pinned");
    reveal_strlit("executing");
    reveal_strlit("achieved");
    reveal_strlit("optimizing");
    reveal_strlit("solidified");
    reveal_strlit("failed");
    match t {
        GoalStatus::Draft => {  },
        GoalStatus::Summarizing => { assert("summarizing"@.len() != "draft"@.len()); },
        GoalStatus::Pinned => { assert("pinned"@.len() != "draft"@.len()); assert("pinned"@.len() != "summarizing"@.len()); },
        GoalStatus::Executing => { assert("executing"@.len() != "draft"@.len()); assert("executing"@.len() != "summarizing"@.len()); assert("executing"@.len() != "pinned"@.len()); },
        GoalStatus::Achieved => { assert("achieved"@.len() != "draft"@.len()); assert("achieved"@.len() != "summarizing"@.len()); assert("achieved"@.len() != "pinned"@.len()); assert("achieved"@.len() != "executing"@.len()); },
        GoalStatus::Optimizing => { assert("optimizing"@.len() != "draft"@.len()); assert("optimizing"@.len() != "summarizing"@.len()); assert("optimizing"@.len() != "pinned"@.len()); assert("optimizing"@.len() != "executing"@.len()); assert("optimizing"@.len() != "achieved"@.len()); },
        GoalStatus::Solidified => { assert("solidified"@.len() != "draft"@.len()); assert("solidified"@.len() != "summarizing"@.len()); assert("solidified"@.len() != "pinned"@.len()); assert("solidified"@.len() != "executing"@.len()); assert("solidified"@.len() != "achieved"@.len()); assert("solidified"@[0] != "optimizing"@[0]); },
        GoalStatus::Failed => { assert("failed"@.len() != "draft"@.len()); assert("failed"@.len() != "summarizing"@.len()); assert("failed"@[0] != "pinned"@[0]); assert("failed"@.len() != "executing"@.len()); assert("failed"@.len() != "achieved"@.len()); assert("failed"@.len() != "optimizing"@.len()); assert("failed"@.len() != "solidified"@.len()); },
    }
}

/// Who wrote a chat message.
#[derive(Debug, Clone, Copy, PartialEq, Eq, Structural)]
pub enum MessageRole {
    User,
    AgentSummarizer,
    AgentExecutor,
    AgentOptimizer,
    System,
}

/// The text form of a MessageRole.
pub open spec fn message_role_name(t: MessageRole) -> Seq<char> {
    match t {
        MessageRole::User => "user"@,
        MessageRole::AgentSummarizer => "agent_summarizer"@,
        MessageRole::AgentExecutor => "agent_executor"@,
        MessageRole::AgentOptimizer => "agent_optimizer"@,
        MessageRole::System => "system"@,
    }
}

/// The MessageRole whose text form is `s`, if any.
pub open spec fn parse_message_role(s: Seq<char>) -> Option<MessageRole> {
    if s == "user"@ {
        Some(MessageRole::User)
    } else if s == "agent_summarizer"@ {
        Some(MessageRole::AgentSummarizer)
    } else if s == "agent_executor"@ {
        Some(MessageRole::AgentExecutor)
    } else if s == "agent_optimizer"@ {
        Some(MessageRole::AgentOptimizer)
    } else if s == "system"@ {
        Some(MessageRole::System)
    } else {
        None
    }
}

/// The text forms of the message roles are fixed: a text reads as a given
/// value exactly when it is that value's text (`user`,
/// `agent_summarizer`, `agent_executor`, `agent_optimizer`, `system`, in
/// the order of the variants); any other text reads as none. Each value
/// is written as its own text.
pub proof fn law_message_role_texts(s: Seq<char>, t: MessageRole)
    ensures
        parse_message_role(s) == Some(MessageRole::User) <==> s == "user"@,
        parse_message_role(s) == Some(MessageRole::AgentSummarizer) <==> s == "agent_summarizer"@,
        parse_message_role(s) == Some(MessageRole::AgentExecutor) <==> s == "agent_executor"@,
        parse_message_role(s) == Some(MessageRole::AgentOptimizer) <==> s == "agent_optimizer"@,
        parse_message_role(s) == Some(MessageRole::System) <==> s == "system"@,
        parse_message_role(s) is None <==> (s != "user"@ && s != "agent_summarizer"@ && s != "agent_executor"@ && s != "agent_optimizer"@ && s != "system"@),
        t == MessageRole::User ==> message_role_name(t) == "user"@,
        t == MessageRole::AgentSummarizer ==> message_role_name(t) == "agent_summarizer"@,
        t == MessageRole::AgentExecutor ==> message_role_name(t) == "agent_executor"@,
        t == MessageRole::AgentOptimizer ==> message_role_name(t) == "agent_optimizer"@,
        t == MessageRole::System ==> message_role_name(t) == "system"@,
{
    lemma_message_role_text_roundtrip(MessageRole::User);
    lemma_message_role_text_roundtrip(MessageRole::AgentSummarizer);
    lemma_message_role_text_roundtrip(MessageRole::AgentExecutor);
    lemma_message_role_text_roundtrip(MessageRole::AgentOptimizer);
    lemma_message_role_text_roundtrip(MessageRole::System);
}

impl MessageRole {
    /// The text form of this value.
    pub fn as_str(&self) -> (r: &'static str)
        ensures
            r@ == message_role_name(*self),
    {
        match self {
            MessageRole::User => "user",
            MessageRole::AgentSummarizer => "agent_summarizer",
            MessageRole::AgentExecutor => "agent_executor",
            MessageRole::AgentOptimizer => "agent_optimizer",
            MessageRole::System => "system",
        }
    }

    /// Reads a MessageRole from its text form; any other text is refused with
    /// the message `Unknown message role: <text>`.
    pub fn try_from_str(s: &str) -> (r: Result<MessageRole, String>)
        ensures
            match r {
                Ok(t) => parse_message_role(s@) == Some(t),
                Err(m) => parse_message_role(s@) is None && m@ == "Unknown message role: "@ + s@,
            },
    {
        if str_eq(s, "user") {
            Ok(MessageRole::User)
        } else if str_eq(s, "agent_summarizer") {
            Ok(MessageRole::AgentSummarizer)
        } else if str_eq(s, "agent_executor") {
            Ok(MessageRole::AgentExecutor)
        } else if str_eq(s, "agent_optimizer") {
            Ok(MessageRole::AgentOptimizer)
        } else if str_eq(s, "system") {
            Ok(MessageRole::System)
        } else {
            Err(concat2("Unknown message role: ", s))
        }
    }
}

/// Reading back the text form of a MessageRole gives that value, and it is
/// the only text that reads as that value.
pub proof fn lemma_message_role_text_roundtrip(t: MessageRole)
    ensures
        parse_message_role(message_role_name(t)) == Some(t),
        forall|s: Seq<char>| parse_message_role(s) == Some(t) ==> s == message_role_name(t),
{
    reveal_strlit("user");
    reveal_strlit("agent_summarizer");
    reveal_strlit("agent_executor");
    reveal_strlit("agent_optimizer");
    reveal_strlit("system");
    match t {
        MessageRole::User => {  },
        MessageRole::AgentSummarizer => { assert("agent_summarizer"@.len() != "user"@.len()); },
        MessageRole::AgentExecutor => { assert("agent_executor"@.len() != "user"@.len()); assert("agent_executor"@.len() != "agent_summarizer"@.len()); },
        MessageRole::AgentOptimizer => { assert("agent_optimizer"@.len() != "user"@.len()); assert("agent_optimizer"@.len() != "agent_summarizer"@.len()); assert("agent_optimizer"@.len() != "agent_executor"@.len()); },
        MessageRole::System => { assert("system"@.len() != "user"@.len()); assert("system"@.len() != "agent_summarizer"@.len()); assert("system"@.len() != "agent_executor"@.len()); assert("system"@.len() != "agent_optimizer"@.len()); },
    }
}

/// The status of a milestone.
#[derive(Debug, Clone, Copy, PartialEq, Eq, Structural)]
pub enum MilestoneStatus {
    Planned,
    InProgress,
    Completed,
    Failed,
    Pruned,
}

/// The text form of a MilestoneStatus.
pub open spec fn milestone_status_name(t: MilestoneStatus) -> Seq<char> {
    match t {
        MilestoneStatus::Planned => "planned"@,
        MilestoneStatus::InProgress => "in_progress"@,
        MilestoneStatus::Completed => "completed"@,
        MilestoneStatus::Failed => "failed"@,
        MilestoneStatus::Pruned => "pruned"@,
    }
}

/// The MilestoneStatus whose text form is `s`, if any.
pub open spec fn parse_milestone_status(s: Seq<char>) -> Option<MilestoneStatus> {
    if s == "planned"@ {
        Some(MilestoneStatus::Planned)
    } else if s == "in_progress"@ {
        Some(MilestoneStatus::InProgress)
    } else if s == "completed"@ {
        Some(MilestoneStatus::Completed)
    } else if s == "failed"@ {
        Some(MilestoneStatus::Failed)
    } else if s == "pruned"@ {
        Some(MilestoneStatus::Pruned)
    } else {
        None
    }
}

/// The text forms of the milestone statuses are fixed: a text reads as a
/// given value exactly when it is that value's text (`planned`,
/// `in_progress`, `completed`, `failed`, `pruned`, in the order of the
/// variants); any other text reads as none. Each value is written as its
/// own text.
pub proof fn law_milestone_status_texts(s: Seq<char>, t: MilestoneStatus)
    ensures
        parse_milestone_status(s) == Some(MilestoneStatus::Planned) <==> s == "planned"@,
        parse_milestone_status(s) == Some(MilestoneStatus::InProgress) <==> s == "in_progress"@,
        parse_milestone_status(s) == Some(MilestoneStatus::Completed) <==> s == "completed"@,
        parse_milestone_status(s) == Some(MilestoneStatus::Failed) <==> s == "failed"@,
        parse_milestone_status(s) == Some(MilestoneStatus::Pruned) <==> s == "pruned"@,
        parse_milestone_status(s) is None <==> (s != "planned"@ && s != "in_progress"@ && s != "completed"@ && s != "failed"@ && s != "pruned"@),
        t == MilestoneStatus::Planned ==> milestone_status_name(t) == "planned"@,
        t == MilestoneStatus::InProgress ==> milestone_status_name(t) == "in_progress"@,
        t == MilestoneStatus::Completed ==> milestone_status_name(t) == "completed"@,
        t == MilestoneStatus::Failed ==> milestone_status_name(t) == "failed"@,
        t == MilestoneStatus::Pruned ==> milestone_status_name(t) == "pruned"@,
{
    lemma_milestone_status_text_roundtrip(MilestoneStatus::Planned);
    lemma_milestone_status_text_roundtrip(MilestoneStatus::InProgress);
    lemma_milestone_status_text_roundtrip(MilestoneStatus::Completed);
    lemma_milestone_status_text_roundtrip(MilestoneStatus::Failed);
    lemma_milestone_status_text_roundtrip(MilestoneStatus::Pruned);
}

impl MilestoneStatus {
    /// The text form of this value.
    pub fn as_str(&self) -> (r: &'static str)
        ensures
            r@ == milestone_status_name(*self),
    {
        match self {
            MilestoneStatus::Planned => "planned",
            MilestoneStatus::InProgress => "in_progress",
            MilestoneStatus::Completed => "completed",
            MilestoneStatus::Failed => "failed",
            MilestoneStatus::Pruned => "pruned",
        }
    }

    /// Reads a MilestoneStatus from its text form; any other text is refused with
    /// the message `Unknown milestone status: <text>`.
    pub fn try_from_str(s: &str) -> (r: Result<MilestoneStatus, String>)
        ensures
            match r {
                Ok(t) => parse_milestone_status(s@) == Some(t),
                Err(m) => parse_milestone_status(s@) is None && m@ == "Unknown milestone status: "@ + s@,
            },
    {
        if str_eq(s, "planned") {
            Ok(MilestoneStatus::Planned)
        } else if str_eq(s, "in_progress") {
            Ok(MilestoneStatus::InProgress)
        } else if str_eq(s, "completed") {
            Ok(MilestoneStatus::Completed)
        } else if str_eq(s, "failed") {
            Ok(MilestoneStatus::Failed)
        } else if str_eq(s, "pruned") {
            Ok(MilestoneStatus::Pruned)
        } else {
            Err(concat2("Unknown milestone status: ", s))
        }
    }
}

/// Reading back the text form of a MilestoneStatus gives that value, and it is
/// the only text that reads as that value.
pub proof fn lemma_milestone_status_text_roundtrip(t: MilestoneStatus)
    ensures
        parse_milestone_status(milestone_status_name(t)) == Some(t),
        forall|s: Seq<char>| parse_milestone_status(s) == Some(t) ==> s == milestone_status_name(t),
{
    reveal_strlit("planned");
    reveal_strlit("in_progress");
    reveal_strlit("completed");
    reveal_strlit("failed");
    reveal_strlit("pruned");
    match t {
        MilestoneStatus::Planned => {  },
        MilestoneStatus::InProgress => { assert("in_progress"@.len() != "planned"@.len()); },
        MilestoneStatus::Completed => { assert("completed"@.len() != "planned"@.len()); assert("completed"@.len() != "in_progress"@.len()); },
        MilestoneStatus::Failed => { assert("failed"@.len() != "planned"@.len()); assert("failed"@.len() != "in_progress"@.len()); assert("failed"@.len() != "completed"@.len()); },
        MilestoneStatus::Pruned => { assert("pruned"@.len() != "planned"@.len()); assert("pruned"@.len() != "in_progress"@.len()); assert("pruned"@.len() != "completed"@.len()); assert("pruned"@[0] != "failed"@[0]); },
    }
}

/// The status of a skill.
#[derive(Debug, Clone, Copy, PartialEq, Eq, Structural)]
pub enum SkillStatus {
    Requested,
    Generated,
    Verified,
    Failed,
}

/// The text form of a SkillStatus.
pub open spec fn skill_status_name(t: SkillStatus) -> Seq<char> {
    match t {
        SkillStatus::Requested => "requested"@,
        SkillStatus::Generated => "generated"@,
        SkillStatus::Verified => "verified"@,
        SkillStatus::Failed => "failed"@,
    }
}

/// The SkillStatus whose text form is `s`, if any.
pub open spec fn parse_skill_status(s: Seq<char>) -> Option<SkillStatus> {
    if s == "requested"@ {
        Some(SkillStatus::Requested)
    } else if s == "generated"@ {
        Some(SkillStatus::Generated)
    } else if s == "verified"@ {
        Some(SkillStatus::Verified)
    } else if s == "failed"@ {
        Some(SkillStatus::Failed)
    } else {
        None
    }
}

/// The text forms of the skill statuses are fixed: a text reads as a
/// given value exactly when it is that value's text (`requested`,
/// `generated`, `verified`, `failed`, in the order of the variants); any
/// other text reads as none. Each value is written as its own text.
pub proof fn law_skill_status_texts(s: Seq<char>, t: SkillStatus)
    ensures
        parse_skill_status(s) == Some(SkillStatus::Requested) <==> s == "requested"@,
        parse_skill_status(s) == Some(SkillStatus::Generated) <==> s == "generated"@,
        parse_skill_status(s) == Some(SkillStatus::Verified) <==> s == "verified"@,
        parse_skill_status(s) == Some(SkillStatus::Failed) <==> s == "failed"@,
        parse_skill_status(s) is None <==> (s != "requested"@ && s != "generated"@ && s != "verified"@ && s != "failed"@),
        t == SkillStatus::Requested ==> skill_status_name(t) == "requested"@,
        t == SkillStatus::Generated ==> skill_status_name(t) == "generated"@,
        t == SkillStatus::Verified ==> skill_status_name(t) == "verified"@,
        t == SkillStatus::Failed ==> skill_status_name(t) == "failed"@,
{
    lemma_skill_status_text_roundtrip(SkillStatus::Requested);
    lemma_skill_status_text_roundtrip(SkillStatus::Generated);
    lemma_skill_status_text_roundtrip(SkillStatus::Verified);
    lemma_skill_status_text_roundtrip(SkillStatus::Failed);
}

impl SkillStatus {
    /// The text form of this value.
    pub fn as_str(&self) -> (r: &'static str)
        ensures
            r@ == skill_status_name(*self),
    {
        match self {
            SkillStatus::Requested => "requested",
            SkillStatus::Generated => "generated",
            SkillStatus::Verified => "verified",
            SkillStatus::Failed => "failed",
        }
    }

    /// Reads a SkillStatus from its text form; any other text is refused with
    /// the message `Unknown skill status: <text>`.
    pub fn try_from_str(s: &str) -> (r: Result<SkillStatus, String>)
        ensures
            match r {
                Ok(t) => parse_skill_status(s@) == Some(t),
                Err(m) => parse_skill_status(s@) is None && m@ == "Unknown skill status: "@ + s@,
            },
    {
        if str_eq(s, "requested") {
            Ok(SkillStatus::Requested)
        } else if str_eq(s, "generated") {
            Ok(SkillStatus::Generated)
        } else if str_eq(s, "verified") {
            Ok(SkillStatus::Verified)
        } else if str_eq(s, "failed") {
            Ok(SkillStatus::Failed)
        } else {
            Err(concat2("Unknown skill status: ", s))
        }
    }
}

/// Reading back the text form of a SkillStatus gives that value, and it is
/// the only text that reads as that value.
pub proof fn lemma_skill_status_text_roundtrip(t: SkillStatus)
    ensures
        parse_skill_status(skill_status_name(t)) == Some(t),
        forall|s: Seq<char>| parse_skill_status(s) == Some(t) ==> s == skill_status_name(t),
{
    reveal_strlit("requested");
    reveal_strlit("generated");
    reveal_strlit("verified");
    reveal_strlit("failed");
    match t {
        SkillStatus::Requested => {  },
        SkillStatus::Generated => { assert("generated"@[0] != "requested"@[0]); },
        SkillStatus::Verified => { assert("verified"@.len() != "requested"@.len()); assert("verified"@.len() != "generated"@.len()); },
        SkillStatus::Failed => { assert("failed"@.len() != "requested"@.len()); assert("failed"@.len() != "generated"@.len()); assert("failed"@.len() != "verified"@.len()); },
    }
}

impl AgentType {
    /// The variant name of this agent type, as `{:?}` prints it.
    pub fn debug_name(&self) -> (r: &'static str)
        ensures
            r@ == agent_type_debug_name(*self),
    {
        match self {
            AgentType::Summarizer => "Summarizer",
            AgentType::Builder => "Builder",
            AgentType::Executor => "Executor",
            AgentType::Optimizer => "Optimizer",
        }
    }
}

/// The variant name of an agent type.
pub open spec fn agent_type_debug_name(t: AgentType) -> Seq<char> {
    match t {
        AgentType::Summarizer => "Summarizer"@,
        AgentType::Builder => "Builder"@,
        AgentType::Executor => "Executor"@,
        AgentType::Optimizer => "Optimizer"@,
    }
}

/// The debug texts of the agent types: `Summarizer`, `Builder`,
/// `Executor`, `Optimizer`, in the order of the variants.
pub proof fn law_agent_type_debug_texts(t: AgentType)
    ensures
        t == AgentType::Summarizer ==> agent_type_debug_name(t) == "Summarizer"@,
        t == AgentType::Builder ==> agent_type_debug_name(t) == "Builder"@,
        t == AgentType::Executor ==> agent_type_debug_name(t) == "Executor"@,
        t == AgentType::Optimizer ==> agent_type_debug_name(t) == "Optimizer"@,
{
}

impl GoalStatus {
    /// A new goal starts as a draft.
    pub fn default_status() -> (s: GoalStatus)
        ensures
            s == GoalStatus::Draft,
    {
        GoalStatus::Draft
    }
}

/// One entry of a goal's agent log.
#[derive(Debug, Clone, PartialEq, Eq)]
pub struct AgentLog {
    pub id: String,
    pub goal_id: String,
    pub agent_type: String,
    pub phase: String,
    pub event_type: String,
    pub payload: Option<String>,
    pub created_at: String,
}

/// A goal as stored.
#[derive(Debug, Clone, PartialEq, Eq)]
pub struct Goal {
    pub id: String,
    pub title: String,
    pub summary: Option<String>,
    pub raw_input: String,
    pub status: String,
    pub parent_goal_id: Option<String>,
    pub fork_context: Option<String>,
    pub current_milestone_id: Option<String>,
    pub created_at: String,
    pub updated_at: String,
}

/// What a new goal is created from.
#[derive(Debug, Clone, PartialEq, Eq)]
pub struct CreateGoalInput {
    pub raw_input: String,
    pub title: String,
}

/// The fields of a goal that an update may replace.
#[derive(Debug, Clone, PartialEq, Eq)]
pub struct UpdateGoalInput {
    pub title: Option<String>,
    pub summary: Option<String>,
    pub raw_input: Option<String>,
}

/// The structured summary of a goal that the summarizer produces.
#[derive(Debug, Clone, PartialEq, Eq)]
pub struct GoalSummary {
    pub title: String,
    pub description: String,
    pub acceptance_criteria: Vec<String>,
    pub constraints: Vec<String>,
    pub refinement_questions: Vec<String>,
}

/// A goal with the goals forked from it.
#[derive(Debug)]
pub struct GoalTree {
    pub goal: Goal,
    pub children: Vec<GoalTree>,
}

/// A chat message as stored.
#[derive(Debug, Clone, PartialEq, Eq)]
pub struct Message {
    pub id: String,
    pub goal_id: String,
    pub role: String,
    pub content: String,
    pub metadata: Option<String>,
    pub created_at: String,
}

/// A milestone as stored.
#[derive(Debug, Clone, PartialEq, Eq)]
pub struct Milestone {
    pub id: String,
    pub goal_id: String,
    pub milestone_order: i32,
    pub parent_milestone_id: Option<String>,
    pub plan: Option<String>,
    pub plan_summary: Option<String>,
    pub skill_path: Option<String>,
    pub status: String,
    pub result_summary: Option<String>,
    pub created_at: String,
    pub updated_at: String,
}

/// A milestone's plan: its steps and the dependencies between them.
#[derive(Debug, Clone)]
pub struct Plan {
    pub steps: Vec<PlanStep>,
    pub dependencies: Vec<(usize, usize)>,
}

/// One step of a plan.
#[derive(Debug, Clone)]
pub struct PlanStep {
    pub id: String,
    pub description: String,
    pub skill_requirements: Vec<SkillRequirement>,
    pub status: PlanStepStatus,
    pub result: Option<String>,
}

/// The status of a plan step.
#[derive(Debug, Clone, Copy, PartialEq, Eq, Structural)]
pub enum PlanStepStatus {
    Pending,
    InProgress,
    Completed,
    Failed,
}

/// A skill that a plan step needs.
#[derive(Debug, Clone)]
pub struct SkillRequirement {
    pub name: String,
    pub description: String,
    pub parameters_schema: Option<serde_json::Value>,
    pub priority: u32,
}

/// A skill as stored.
#[derive(Debug, Clone, PartialEq, Eq)]
pub struct Skill {
    pub id: String,
    pub milestone_id: String,
    pub name: String,
    pub description: String,
    pub harness_skill_id: Option<String>,
    pub parameters_schema: Option<String>,
    pub test_report: Option<String>,
    pub status: String,
    pub source_code_ref: Option<String>,
    pub created_at: String,
    pub updated_at: String,
}

/// The view of an optional string.
pub open spec fn opt_view(o: Option<String>) -> Option<Seq<char>> {
    match o {
        Some(s) => Some(s@),
        None => None,
    }
}

/// A copy of an optional string slice.
pub fn opt_owned(o: Option<&str>) -> (r: Option<String>)
    ensures
        r is Some <==> o is Some,
        r matches Some(s) ==> s@ == o->0@,
{
    match o {
        Some(s) => Some(crate::text::owned(s)),
        None => None,
    }
}

/// Repository of agent log entries.
pub struct AgentLogsRepo;

impl AgentLogsRepo {
    /// The entry that appending a log line records: the given fields, the
    /// fresh identifier and the time of writing.
    pub fn entry(
        id: String,
        goal_id: &str,
        agent_type: &str,
        phase: &str,
        event_type: &str,
        payload: Option<&str>,
        now: String,
    ) -> (log: AgentLog)
        ensures
            log.id == id,
            log.goal_id@ == goal_id@,
            log.agent_type@ == agent_type@,
            log.phase@ == phase@,
            log.event_type@ == event_type@,
            opt_view(log.payload) == (match payload {
                Some(p) => Some(p@),
                None => None,
            }),
            log.created_at == now,
    {
        AgentLog {
            id,
            goal_id: crate::text::owned(goal_id),
            agent_type: crate::text::owned(agent_type),
            phase: crate::text::owned(phase),
            event_type: crate::text::owned(event_type),
            payload: opt_owned(payload),
            created_at: now,
        }
    }
}

/// Repository of chat messages.
pub struct MessagesRepo;

/// The query that lists a goal's messages, newest first, optionally only
/// those older than a given message and at most a given number.
pub open spec fn history_query(has_limit: bool, has_before: bool) -> Seq<char> {
    if has_limit && has_before {
        "SELECT * FROM messages WHERE goal_id = ? AND created_at < (SELECT created_at FROM messages WHERE id = ?) ORDER BY created_at DESC LIMIT ?"@
    } else if has_limit {
        "SELECT * FROM messages WHERE goal_id = ? ORDER BY created_at DESC LIMIT ?"@
    } else if has_before {
        "SELECT * FROM messages WHERE goal_id = ? AND created_at < (SELECT created_at FROM messages WHERE id = ?) ORDER BY created_at DESC"@
    } else {
        "SELECT * FROM messages WHERE goal_id = ? ORDER BY created_at DESC"@
    }
}

impl MessagesRepo {
    /// The SQL that lists a goal's history for the given paging options.
    /// Its parameters are, in order: the goal, then the `before` message
    /// if given, then the limit if given.
    pub fn history_query(limit: Option<u32>, before: Option<&str>) -> (q: &'static str)
        ensures
            q@ == history_query(limit is Some, before is Some),
    {
        match (limit, before) {
            (Some(_), Some(_)) => "SELECT * FROM messages WHERE goal_id = ? AND created_at < (SELECT created_at FROM messages WHERE id = ?) ORDER BY created_at DESC LIMIT ?",
            (Some(_), None) => "SELECT * FROM messages WHERE goal_id = ? ORDER BY created_at DESC LIMIT ?",
            (None, Some(_)) => "SELECT * FROM messages WHERE goal_id = ? AND created_at < (SELECT created_at FROM messages WHERE id = ?) ORDER BY created_at DESC",
            (None, None) => "SELECT * FROM messages WHERE goal_id = ? ORDER BY created_at DESC",
        }
    }
}

/// Repository of milestones.
pub struct MilestonesRepo;

impl MilestonesRepo {
    /// The order of a milestone forked from one with order `parent_order`:
    /// the next one.
    pub fn fork_order(parent_order: i32) -> (o: i32)
        requires
            parent_order < i32::MAX,
        ensures
            o == parent_order + 1,
    {
        parent_order + 1
    }

    /// The order of a forked milestone, or `None` where the parent's order
    /// is the largest one and no next order exists.
    pub fn checked_fork_order(parent_order: i32) -> (o: Option<i32>)
        ensures
            o matches Some(v) ==> v == parent_order + 1,
            o is None <==> parent_order == i32::MAX,
    {
        if parent_order < i32::MAX {
            Some(Self::fork_order(parent_order))
        } else {
            None
        }
    }
}

/// Repository of skills.
pub struct SkillsRepo;

} // verus!
