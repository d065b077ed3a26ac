//! Result handlers: for each agent type, which outputs it accepts as the
//! result a session records, and what the database keeps of them (the
//! goal's new workflow status, the summary, an agent-log entry).
//!
//! The shell serialises the output and performs the writes a plan lists.
use vstd::prelude::*;

use crate::agents::AgentOutput;
use crate::error::AppError;
use crate::models::{agent_type_debug_name, AgentType, GoalSummary};
use crate::text::{concat2, owned};
use crate::workhub::GoalStatus;

verus! {

/// What an agent-log entry carries besides its tags.
#[derive(Debug, Clone)]
pub enum LogDetails {
    /// Nothing.
    Empty,
    /// A text, such as a failure reason.
    Text(String),
    /// The builder reached the goal: the new node and the skills used.
    BuilderReached { new_node_id: Option<String>, skills_used: Vec<String> },
    /// The optimiser finished: whether it solidified the goal, how many
    /// optimisations it applied, and the new node.
    OptimizerCompleted { solidified: bool, optimizations: usize, new_node_id: Option<String> },
    /// The agent's whole output, serialised.
    Output,
}

/// An agent-log entry to append.
#[derive(Debug, Clone)]
pub struct LogEntry {
    pub agent_type: &'static str,
    pub phase: &'static str,
    pub event_type: &'static str,
    pub details: LogDetails,
}

/// What to write for an agent's output: the summary to store, the goal's
/// new workflow status and the log entry, each where there is one.
#[derive(Debug, Clone)]
pub struct PersistPlan {
    pub summary: Option<GoalSummary>,
    pub goal_status: Option<GoalStatus>,
    pub log: Option<LogEntry>,
}

/// `r` is the agent error with message `m`.
pub open spec fn is_agent_error<T>(r: Result<T, AppError>, m: Seq<char>) -> bool {
    r matches Err(AppError::Agent(x)) && x@ == m
}

/// `e` is a log entry with the given tags.
pub open spec fn log_tags(e: LogEntry, agent: Seq<char>, phase: Seq<char>, event: Seq<char>) -> bool {
    e.agent_type@ == agent && e.phase@ == phase && e.event_type@ == event
}

/// The plan changes only the goal's status.
pub open spec fn status_only(p: PersistPlan, s: GoalStatus) -> bool {
    p.summary is None && p.goal_status == Some(s) && p.log is None
}

/// The plan writes nothing.
pub open spec fn writes_nothing(p: PersistPlan) -> bool {
    p.summary is None && p.goal_status is None && p.log is None
}

/// The handler of the summarizer's outputs.
#[derive(Debug, Clone, Copy, PartialEq, Eq, Structural)]
pub struct SummarizerResultHandler;

/// The handler of the builder's outputs.
#[derive(Debug, Clone, Copy, PartialEq, Eq, Structural)]
pub struct BuilderResultHandler;

/// The handler of the executor's outputs.
#[derive(Debug, Clone, Copy, PartialEq, Eq, Structural)]
pub struct ExecutorResultHandler;

/// The handler of the optimiser's outputs.
#[derive(Debug, Clone, Copy, PartialEq, Eq, Structural)]
pub struct OptimizerResultHandler;

impl SummarizerResultHandler {
    /// The agent type handled.
    pub fn agent_type(&self) -> (t: AgentType)
        ensures
            t == AgentType::Summarizer,
    {
        AgentType::Summarizer
    }

    /// Accepts a conversation turn or a confirmed summary, whose
    /// serialised form is `content`, as the recorded result.
    pub fn to_effect_content(&self, output: &AgentOutput, content: serde_json::Value) -> (r: Result<serde_json::Value, AppError>)
        ensures
            (output is ConversationTurn || output is GoalSummary) ==> r == Ok::<serde_json::Value, AppError>(content),
            !(output is ConversationTurn || output is GoalSummary) ==> is_agent_error(
                r,
                "Summarizer handler received unexpected output variant"@,
            ),
    {
        match output {
            AgentOutput::ConversationTurn { .. } => Ok(content),
            AgentOutput::GoalSummary { .. } => Ok(content),
            _ => Err(AppError::Agent(owned("Summarizer handler received unexpected output variant"))),
        }
    }

    /// A confirmed summary is stored, the goal stays a draft, and the
    /// summarizer logs its completion with the whole output. A
    /// conversation turn writes nothing: it waits for the user's
    /// confirmation.
    pub fn persist(&self, output: &AgentOutput) -> (r: Result<PersistPlan, AppError>)
        ensures
            output is ConversationTurn ==> planned(r, |p: PersistPlan| writes_nothing(p)),
            output is GoalSummary ==> planned(r, |p: PersistPlan| summary_plan(p, *output)),
            !(output is ConversationTurn || output is GoalSummary) ==> is_agent_error(
                r,
                "Summarizer persist received unexpected output variant"@,
            ),
    {
        match output {
            AgentOutput::GoalSummary { title, description, acceptance_criteria, constraints, refinement_questions } => {
                let summary = GoalSummary {
                    title: title.clone(),
                    description: description.clone(),
                    acceptance_criteria: acceptance_criteria.clone(),
                    constraints: constraints.clone(),
                    refinement_questions: refinement_questions.clone(),
                };
                proof {
                    assert(summary.acceptance_criteria@ =~= acceptance_criteria@);
                    assert(summary.constraints@ =~= constraints@);
                    assert(summary.refinement_questions@ =~= refinement_questions@);
                }
                Ok(PersistPlan {
                    summary: Some(summary),
                    goal_status: Some(GoalStatus::Draft),
                    log: Some(LogEntry {
                        agent_type: "summarizer",
                        phase: "summarizing",
                        event_type: "completed",
                        details: LogDetails::Output,
                    }),
                })
            },
            AgentOutput::ConversationTurn { .. } => Ok(PersistPlan { summary: None, goal_status: None, log: None }),
            _ => Err(AppError::Agent(owned("Summarizer persist received unexpected output variant"))),
        }
    }
}

/// The handler produced a plan, and it satisfies `pred`.
pub open spec fn planned(r: Result<PersistPlan, AppError>, pred: spec_fn(PersistPlan) -> bool) -> bool {
    match r {
        Ok(p) => pred(p),
        Err(_) => false,
    }
}

/// The plan for a confirmed summary: the summary's fields are stored, the
/// goal stays a draft, and the completion is logged with the output.
pub open spec fn summary_plan(p: PersistPlan, o: AgentOutput) -> bool {
    match (o, p.summary, p.log) {
        (
            AgentOutput::GoalSummary { title, description, acceptance_criteria, constraints, refinement_questions },
            Some(s),
            Some(e),
        ) => {
            &&& s.title == title
            &&& s.description == description
            &&& s.acceptance_criteria@ == acceptance_criteria@
            &&& s.constraints@ == constraints@
            &&& s.refinement_questions@ == refinement_questions@
            &&& p.goal_status == Some(GoalStatus::Draft)
            &&& log_tags(e, "summarizer"@, "summarizing"@, "completed"@)
            &&& e.details is Output
        },
        _ => false,
    }
}

/// The plan for a builder result: a success reaches the goal and logs the
/// new node and the skills used; a failure fails the goal and logs the
/// reason.
pub open spec fn builder_plan(p: PersistPlan, o: AgentOutput) -> bool {
    match (o, p.log) {
        (AgentOutput::BuilderResult { success, failure_reason, new_node_id, skills_used, .. }, Some(e)) => {
            &&& p.summary is None
            &&& if success {
                &&& p.goal_status == Some(GoalStatus::Reached)
                &&& log_tags(e, "builder"@, "building"@, "reached"@)
                &&& match e.details {
                    LogDetails::BuilderReached { new_node_id: n, skills_used: s } => n == new_node_id
                        && s@ == skills_used@,
                    _ => false,
                }
            } else {
                &&& p.goal_status == Some(GoalStatus::Failed)
                &&& log_tags(e, "builder"@, "building"@, "failed"@)
                &&& match failure_reason {
                    Some(m) => e.details == LogDetails::Text(m),
                    None => e.details is Empty,
                }
            }
        },
        _ => false,
    }
}

/// The plan for an optimiser result: a solidified goal is archived,
/// otherwise it is reached again; the completion is logged with the count
/// of optimisations.
pub open spec fn optimizer_plan(p: PersistPlan, o: AgentOutput) -> bool {
    match (o, p.log) {
        (AgentOutput::OptimizationResult { solidified, optimizations, new_node_id, .. }, Some(e)) => {
            &&& p.summary is None
            &&& p.goal_status == Some(if solidified { GoalStatus::Archived } else { GoalStatus::Reached })
            &&& log_tags(e, "optimizer"@, "optimizing"@, "completed"@)
            &&& e.details == LogDetails::OptimizerCompleted {
                solidified,
                optimizations: optimizations@.len() as usize,
                new_node_id,
            }
        },
        _ => false,
    }
}

impl BuilderResultHandler {
    /// The agent type handled.
    pub fn agent_type(&self) -> (t: AgentType)
        ensures
            t == AgentType::Builder,
    {
        AgentType::Builder
    }

    /// Accepts a builder result, whose serialised form is `content`.
    pub fn to_effect_content(&self, output: &AgentOutput, content: serde_json::Value) -> (r: Result<serde_json::Value, AppError>)
        ensures
            output is BuilderResult ==> r == Ok::<serde_json::Value, AppError>(content),
            !(output is BuilderResult) ==> is_agent_error(r, "Builder handler received unexpected output variant"@),
    {
        match output {
            AgentOutput::BuilderResult { .. } => Ok(content),
            _ => Err(AppError::Agent(owned("Builder handler received unexpected output variant"))),
        }
    }

    /// What to write for a builder result.
    pub fn persist(&self, output: &AgentOutput) -> (r: Result<PersistPlan, AppError>)
        ensures
            output is BuilderResult ==> planned(r, |p: PersistPlan| builder_plan(p, *output)),
            !(output is BuilderResult) ==> is_agent_error(r, "Builder persist received unexpected output variant"@),
    {
        match output {
            AgentOutput::BuilderResult { success, failure_reason, new_node_id, skills_used, .. } => {
                if *success {
                    let skills = skills_used.clone();
                    proof {
                        assert(skills@ =~= skills_used@);
                    }
                    Ok(PersistPlan {
                        summary: None,
                        goal_status: Some(GoalStatus::Reached),
                        log: Some(LogEntry {
                            agent_type: "builder",
                            phase: "building",
                            event_type: "reached",
                            details: LogDetails::BuilderReached { new_node_id: new_node_id.clone(), skills_used: skills },
                        }),
                    })
                } else {
                    let details = match failure_reason {
                        Some(m) => LogDetails::Text(m.clone()),
                        None => LogDetails::Empty,
                    };
                    Ok(PersistPlan {
                        summary: None,
                        goal_status: Some(GoalStatus::Failed),
                        log: Some(LogEntry {
                            agent_type: "builder",
                            phase: "building",
                            event_type: "failed",
                            details,
                        }),
                    })
                }
            },
            _ => Err(AppError::Agent(owned("Builder persist received unexpected output variant"))),
        }
    }
}

impl ExecutorResultHandler {
    /// The agent type handled.
    pub fn agent_type(&self) -> (t: AgentType)
        ensures
            t == AgentType::Executor,
    {
        AgentType::Executor
    }

    /// Accepts an execution result, whose serialised form is `content`.
    pub fn to_effect_content(&self, output: &AgentOutput, content: serde_json::Value) -> (r: Result<serde_json::Value, AppError>)
        ensures
            output is ExecutionResult ==> r == Ok::<serde_json::Value, AppError>(content),
            !(output is ExecutionResult) ==> is_agent_error(r, "Executor handler received unexpected output variant"@),
    {
        match output {
            AgentOutput::ExecutionResult { .. } => Ok(content),
            _ => Err(AppError::Agent(owned("Executor handler received unexpected output variant"))),
        }
    }

    /// A successful execution reaches the goal; a failed one fails it.
    pub fn persist(&self, output: &AgentOutput) -> (r: Result<PersistPlan, AppError>)
        ensures
            *output matches AgentOutput::ExecutionResult { success, .. } ==> planned(
                r,
                |p: PersistPlan| status_only(p, if success { GoalStatus::Reached } else { GoalStatus::Failed }),
            ),
            !(output is ExecutionResult) ==> is_agent_error(r, "Executor persist received unexpected output variant"@),
    {
        match output {
            AgentOutput::ExecutionResult { success, .. } => {
                let status = if *success { GoalStatus::Reached } else { GoalStatus::Failed };
                Ok(PersistPlan { summary: None, goal_status: Some(status), log: None })
            },
            _ => Err(AppError::Agent(owned("Executor persist received unexpected output variant"))),
        }
    }
}

impl OptimizerResultHandler {
    /// The agent type handled.
    pub fn agent_type(&self) -> (t: AgentType)
        ensures
            t == AgentType::Optimizer,
    {
        AgentType::Optimizer
    }

    /// Accepts an optimisation result, whose serialised form is `content`.
    pub fn to_effect_content(&self, output: &AgentOutput, content: serde_json::Value) -> (r: Result<serde_json::Value, AppError>)
        ensures
            output is OptimizationResult ==> r == Ok::<serde_json::Value, AppError>(content),
            !(output is OptimizationResult) ==> is_agent_error(r, "Optimizer handler received unexpected output variant"@),
    {
        match output {
            AgentOutput::OptimizationResult { .. } => Ok(content),
            _ => Err(AppError::Agent(owned("Optimizer handler received unexpected output variant"))),
        }
    }

    /// What to write for an optimisation result.
    pub fn persist(&self, output: &AgentOutput) -> (r: Result<PersistPlan, AppError>)
        ensures
            output is OptimizationResult ==> planned(r, |p: PersistPlan| optimizer_plan(p, *output)),
            !(output is OptimizationResult) ==> is_agent_error(r, "Optimizer persist received unexpected output variant"@),
    {
        match output {
            AgentOutput::OptimizationResult { solidified, optimizations, new_node_id, .. } => {
                let status = if *solidified { GoalStatus::Archived } else { GoalStatus::Reached };
                Ok(PersistPlan {
                    summary: None,
                    goal_status: Some(status),
                    log: Some(LogEntry {
                        agent_type: "optimizer",
                        phase: "optimizing",
                        event_type: "completed",
                        details: LogDetails::OptimizerCompleted {
                            solidified: *solidified,
                            optimizations: optimizations.len(),
                            new_node_id: new_node_id.clone(),
                        },
                    }),
                })
            },
            _ => Err(AppError::Agent(owned("Optimizer persist received unexpected output variant"))),
        }
    }
}

// ---------------------------------------------------------------------
// The registry
// ---------------------------------------------------------------------

/// One of the result handlers.
#[derive(Debug, Clone, Copy, PartialEq, Eq, Structural)]
pub enum ResultHandlerKind {
    Summarizer(SummarizerResultHandler),
    Builder(BuilderResultHandler),
    Executor(ExecutorResultHandler),
    Optimizer(OptimizerResultHandler),
}

/// The agent type a handler handles.
pub open spec fn handled_type(h: ResultHandlerKind) -> AgentType {
    match h {
        ResultHandlerKind::Summarizer(_) => AgentType::Summarizer,
        ResultHandlerKind::Builder(_) => AgentType::Builder,
        ResultHandlerKind::Executor(_) => AgentType::Executor,
        ResultHandlerKind::Optimizer(_) => AgentType::Optimizer,
    }
}

/// Whether a handler accepts an output: the summarizer's takes
/// conversation turns and confirmed summaries, each other one the result
/// of its own agent.
pub open spec fn accepts(h: ResultHandlerKind, o: AgentOutput) -> bool {
    match h {
        ResultHandlerKind::Summarizer(_) => o is ConversationTurn || o is GoalSummary,
        ResultHandlerKind::Builder(_) => o is BuilderResult,
        ResultHandlerKind::Executor(_) => o is ExecutionResult,
        ResultHandlerKind::Optimizer(_) => o is OptimizationResult,
    }
}

/// The message with which a handler refuses an output it does not accept.
pub open spec fn refusal_message(h: ResultHandlerKind) -> Seq<char> {
    match h {
        ResultHandlerKind::Summarizer(_) => "Summarizer handler received unexpected output variant"@,
        ResultHandlerKind::Builder(_) => "Builder handler received unexpected output variant"@,
        ResultHandlerKind::Executor(_) => "Executor handler received unexpected output variant"@,
        ResultHandlerKind::Optimizer(_) => "Optimizer handler received unexpected output variant"@,
    }
}

/// The message with which a handler refuses to plan writes for an output
/// it does not accept.
pub open spec fn persist_refusal_message(h: ResultHandlerKind) -> Seq<char> {
    match h {
        ResultHandlerKind::Summarizer(_) => "Summarizer persist received unexpected output variant"@,
        ResultHandlerKind::Builder(_) => "Builder persist received unexpected output variant"@,
        ResultHandlerKind::Executor(_) => "Executor persist received unexpected output variant"@,
        ResultHandlerKind::Optimizer(_) => "Optimizer persist received unexpected output variant"@,
    }
}

/// What a handler's check gives for an output serialised as `content`:
/// the content where the handler accepts the output, else its refusal.
pub open spec fn effect_result(
    h: ResultHandlerKind,
    o: AgentOutput,
    content: serde_json::Value,
    r: Result<serde_json::Value, AppError>,
) -> bool {
    if accepts(h, o) {
        r == Ok::<serde_json::Value, AppError>(content)
    } else {
        is_agent_error(r, refusal_message(h))
    }
}

/// The plan a handler gives for an output it accepts.
pub open spec fn handler_plan(h: ResultHandlerKind, o: AgentOutput, p: PersistPlan) -> bool {
    match h {
        ResultHandlerKind::Summarizer(_) => if o is ConversationTurn {
            writes_nothing(p)
        } else {
            summary_plan(p, o)
        },
        ResultHandlerKind::Builder(_) => builder_plan(p, o),
        ResultHandlerKind::Executor(_) => match o {
            AgentOutput::ExecutionResult { success, .. } => status_only(
                p,
                if success { GoalStatus::Reached } else { GoalStatus::Failed },
            ),
            _ => false,
        },
        ResultHandlerKind::Optimizer(_) => optimizer_plan(p, o),
    }
}

/// What a handler's planning gives for an output: its plan where it
/// accepts the output, else its refusal.
pub open spec fn persist_result(h: ResultHandlerKind, o: AgentOutput, r: Result<PersistPlan, AppError>) -> bool {
    if accepts(h, o) {
        r matches Ok(p) && handler_plan(h, o, p)
    } else {
        is_agent_error(r, persist_refusal_message(h))
    }
}

impl ResultHandlerKind {
    /// The agent type handled.
    pub fn agent_type(&self) -> (t: AgentType)
        ensures
            t == handled_type(*self),
    {
        match self {
            ResultHandlerKind::Summarizer(h) => h.agent_type(),
            ResultHandlerKind::Builder(h) => h.agent_type(),
            ResultHandlerKind::Executor(h) => h.agent_type(),
            ResultHandlerKind::Optimizer(h) => h.agent_type(),
        }
    }

    /// The handler's check of an output, whose serialised form is
    /// `content`.
    pub fn to_effect_content(&self, output: &AgentOutput, content: serde_json::Value) -> (r: Result<serde_json::Value, AppError>)
        ensures
            effect_result(*self, *output, content, r),
    {
        match self {
            ResultHandlerKind::Summarizer(h) => h.to_effect_content(output, content),
            ResultHandlerKind::Builder(h) => h.to_effect_content(output, content),
            ResultHandlerKind::Executor(h) => h.to_effect_content(output, content),
            ResultHandlerKind::Optimizer(h) => h.to_effect_content(output, content),
        }
    }

    /// The handler's plan for an output.
    pub fn persist(&self, output: &AgentOutput) -> (r: Result<PersistPlan, AppError>)
        ensures
            persist_result(*self, *output, r),
    {
        match self {
            ResultHandlerKind::Summarizer(h) => h.persist(output),
            ResultHandlerKind::Builder(h) => h.persist(output),
            ResultHandlerKind::Executor(h) => h.persist(output),
            ResultHandlerKind::Optimizer(h) => h.persist(output),
        }
    }
}

/// A slot holds nothing, or a handler of its agent type.
pub open spec fn slot_holds(slot: Option<ResultHandlerKind>, t: AgentType) -> bool {
    match slot {
        Some(h) => handled_type(h) == t,
        None => true,
    }
}

/// The result handlers, at most one per agent type.
pub struct ResultHandlerRegistry {
    summarizer: Option<ResultHandlerKind>,
    builder: Option<ResultHandlerKind>,
    executor: Option<ResultHandlerKind>,
    optimizer: Option<ResultHandlerKind>,
}

impl View for ResultHandlerRegistry {
    type V = Map<AgentType, ResultHandlerKind>;

    closed spec fn view(&self) -> Map<AgentType, ResultHandlerKind> {
        Map::new(
            |t: AgentType| self.slot(t) is Some,
            |t: AgentType| self.slot(t)->0,
        )
    }
}

impl ResultHandlerRegistry {
    spec fn slot(&self, t: AgentType) -> Option<ResultHandlerKind> {
        match t {
            AgentType::Summarizer => self.summarizer,
            AgentType::Builder => self.builder,
            AgentType::Executor => self.executor,
            AgentType::Optimizer => self.optimizer,
        }
    }

    #[verifier::type_invariant]
    spec fn inv(self) -> bool {
        &&& slot_holds(self.summarizer, AgentType::Summarizer)
        &&& slot_holds(self.builder, AgentType::Builder)
        &&& slot_holds(self.executor, AgentType::Executor)
        &&& slot_holds(self.optimizer, AgentType::Optimizer)
    }

    /// A registry with no handler.
    pub fn new() -> (r: ResultHandlerRegistry)
        ensures
            r@ == Map::<AgentType, ResultHandlerKind>::empty(),
    {
        let r = ResultHandlerRegistry { summarizer: None, builder: None, executor: None, optimizer: None };
        assert(r@ =~= Map::<AgentType, ResultHandlerKind>::empty());
        r
    }

    /// Registers a handler under the agent type it handles, replacing the
    /// one registered there before.
    pub fn register(&mut self, handler: ResultHandlerKind)
        ensures
            final(self)@ == old(self)@.insert(handled_type(handler), handler),
    {
        proof {
            use_type_invariant(&*self);
        }
        match handler {
            ResultHandlerKind::Summarizer(_) => self.summarizer = Some(handler),
            ResultHandlerKind::Builder(_) => self.builder = Some(handler),
            ResultHandlerKind::Executor(_) => self.executor = Some(handler),
            ResultHandlerKind::Optimizer(_) => self.optimizer = Some(handler),
        }
        assert(self@ =~= old(self)@.insert(handled_type(handler), handler));
    }

    /// The handler registered for an agent type, if any; it handles that
    /// type.
    pub fn get(&self, agent_type: &AgentType) -> (r: Option<ResultHandlerKind>)
        ensures
            r == (if self@.contains_key(*agent_type) { Some(self@[*agent_type]) } else { None }),
            r matches Some(h) ==> handled_type(h) == *agent_type,
    {
        proof {
            use_type_invariant(self);
        }
        match agent_type {
            AgentType::Summarizer => self.summarizer,
            AgentType::Builder => self.builder,
            AgentType::Executor => self.executor,
            AgentType::Optimizer => self.optimizer,
        }
    }

    /// The registry with the four standard handlers.
    pub fn standard() -> (r: ResultHandlerRegistry)
        ensures
            forall|t: AgentType| #[trigger] r@.contains_key(t) && handled_type(r@[t]) == t,
    {
        let mut r = ResultHandlerRegistry::new();
        r.register(ResultHandlerKind::Summarizer(SummarizerResultHandler));
        r.register(ResultHandlerKind::Builder(BuilderResultHandler));
        r.register(ResultHandlerKind::Executor(ExecutorResultHandler));
        r.register(ResultHandlerKind::Optimizer(OptimizerResultHandler));
        proof {
            assert forall|t: AgentType| #[trigger] r@.contains_key(t) && handled_type(r@[t]) == t by {
                match t {
                    AgentType::Summarizer => {},
                    AgentType::Builder => {},
                    AgentType::Executor => {},
                    AgentType::Optimizer => {},
                }
            }
        }
        r
    }

    /// The handler for an agent type; without one the request is refused
    /// with `Agent("No handler registered for agent type: <Type>")`.
    pub fn handler_for(&self, agent_type: &AgentType) -> (r: Result<ResultHandlerKind, AppError>)
        ensures
            self@.contains_key(*agent_type) ==> r == Ok::<ResultHandlerKind, AppError>(self@[*agent_type]),
            !self@.contains_key(*agent_type) ==> is_agent_error(
                r,
                "No handler registered for agent type: "@ + agent_type_debug_name(*agent_type),
            ),
    {
        match self.get(agent_type) {
            Some(h) => Ok(h),
            None => Err(AppError::Agent(concat2("No handler registered for agent type: ", agent_type.debug_name()))),
        }
    }
}

} // verus!
