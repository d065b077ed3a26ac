//! What agents produce, how an agent type is chosen for a goal, and the
//! supervisor's table of background agent tasks.
use vstd::prelude::*;

use crate::error::AppError;
use crate::models::{AgentType, GoalSummary};
use crate::text::{concat2, str_eq};
use crate::workhub::{parse_workflow_status, workflow_status_name, GoalStatus};

verus! {

/// `tokio_util::sync::CancellationToken`, the handle through which a
/// running agent is asked to stop.
#[verifier::external_type_specification]
#[verifier::external_body]
pub struct ExCancellationToken(tokio_util::sync::CancellationToken);

/// Calls `CancellationToken::new`. The token starts in the non-cancelled
/// state; whether a token is cancelled is shared state that no contract
/// here follows, so nothing is stated of the result.
#[verifier::external_body]
pub(crate) fn new_cancel_token() -> (t: tokio_util::sync::CancellationToken) {
    tokio_util::sync::CancellationToken::new()
}

/// Calls `CancellationToken::cancel`, which cancels the token and the
/// tokens derived from it. The token's state is not modelled, so nothing
/// is stated.
#[verifier::external_body]
pub(crate) fn cancel_token(t: &tokio_util::sync::CancellationToken) {
    t.cancel();
}

/// Calls `Clone::clone` on a `CancellationToken`, which gives a second
/// handle to the same token: cancelling through either is seen by both,
/// and the token's own `==` holds between the two (it compares the shared
/// node). The copy is stated to be the same token.
#[verifier::external_body]
pub(crate) fn clone_cancel_token(t: &tokio_util::sync::CancellationToken) -> (r: tokio_util::sync::CancellationToken)
    ensures
        r == *t,
{
    t.clone()
}

/// A line of progress an agent streams to the front end; `finished` marks
/// the last line of a run.
#[derive(Debug, Clone, PartialEq, Eq)]
pub struct StreamNote {
    pub text: String,
    pub finished: bool,
}

/// Bug information found by an execution.
#[derive(Debug, Clone, PartialEq, Eq)]
pub struct BugInfo {
    pub description: String,
    pub error_output: Option<String>,
}

/// One optimisation an optimiser applied.
#[derive(Debug, Clone, PartialEq, Eq)]
pub struct Optimization {
    pub area: String,
    pub description: String,
    pub before: String,
    pub after: String,
}

/// The output of one agent run.
#[derive(Debug, Clone)]
pub enum AgentOutput {
    /// One turn of the summarizer's conversation; the summary draft is
    /// there once the model produced a complete summary.
    ConversationTurn { message: String, summary_draft: Option<GoalSummary> },
    /// The summary the user confirmed.
    GoalSummary {
        title: String,
        description: String,
        acceptance_criteria: Vec<String>,
        constraints: Vec<String>,
        refinement_questions: Vec<String>,
    },
    /// The builder's result.
    BuilderResult {
        milestone_id: String,
        plan: Option<serde_json::Value>,
        skills_used: Vec<String>,
        success: bool,
        failure_reason: Option<String>,
        new_node_id: Option<String>,
    },
    /// The executor's result.
    ExecutionResult {
        milestone_id: String,
        plan: Option<serde_json::Value>,
        skills_used: Vec<String>,
        success: bool,
        failure_reason: Option<String>,
        bugs_found: Vec<BugInfo>,
    },
    /// The optimiser's result.
    OptimizationResult {
        milestone_id: String,
        optimizations: Vec<Optimization>,
        solidified: bool,
        new_node_id: Option<String>,
    },
}

/// The status of a background agent task.
#[derive(Debug, Clone, Copy, PartialEq, Eq, Structural)]
pub enum AgentStatus {
    Starting,
    Running,
    Canceling,
    Completed,
    Failed,
}

/// A task that is starting or running.
pub open spec fn is_active(s: AgentStatus) -> bool {
    s == AgentStatus::Starting || s == AgentStatus::Running
}

/// The variant name of a status, as `{:?}` prints it.
pub open spec fn agent_status_debug_name(s: AgentStatus) -> Seq<char> {
    match s {
        AgentStatus::Starting => "Starting"@,
        AgentStatus::Running => "Running"@,
        AgentStatus::Canceling => "Canceling"@,
        AgentStatus::Completed => "Completed"@,
        AgentStatus::Failed => "Failed"@,
    }
}

impl AgentStatus {
    /// The variant name of this status.
    pub fn debug_name(&self) -> (r: &'static str)
        ensures
            r@ == agent_status_debug_name(*self),
    {
        match self {
            AgentStatus::Starting => "Starting",
            AgentStatus::Running => "Running",
            AgentStatus::Canceling => "Canceling",
            AgentStatus::Completed => "Completed",
            AgentStatus::Failed => "Failed",
        }
    }

    /// Whether the task is starting or running.
    pub fn is_active(&self) -> (b: bool)
        ensures
            b == is_active(*self),
    {
        match self {
            AgentStatus::Starting => true,
            AgentStatus::Running => true,
            _ => false,
        }
    }
}

// ---------------------------------------------------------------------
// Choosing the agent
// ---------------------------------------------------------------------

/// The agent that works on a goal in a given workflow status; an archived
/// goal has none.
pub open spec fn agent_for_status(s: GoalStatus) -> Option<AgentType> {
    match s {
        GoalStatus::Draft => Some(AgentType::Summarizer),
        GoalStatus::Pinned => Some(AgentType::Builder),
        GoalStatus::Building => Some(AgentType::Builder),
        GoalStatus::Reached => Some(AgentType::Optimizer),
        GoalStatus::Optimizing => Some(AgentType::Optimizer),
        GoalStatus::Failed => Some(AgentType::Builder),
        GoalStatus::Archived => None,
    }
}

/// Which agent a goal's stored status text calls for: `draft` the
/// summarizer; `pinned`, `building` and `failed` the builder; `reached`
/// and `optimizing` the optimizer; `archived` none.
pub proof fn law_stored_status_selects_agent(s: Seq<char>)
    ensures
        s == "draft"@ ==> (parse_workflow_status(s) matches Some(t) && agent_for_status(t) == Some(
            AgentType::Summarizer,
        )),
        s == "pinned"@ || s == "building"@ || s == "failed"@ ==> (parse_workflow_status(s) matches Some(t)
            && agent_for_status(t) == Some(AgentType::Builder)),
        s == "reached"@ || s == "optimizing"@ ==> (parse_workflow_status(s) matches Some(t)
            && agent_for_status(t) == Some(AgentType::Optimizer)),
        s == "archived"@ ==> (parse_workflow_status(s) matches Some(t) && agent_for_status(t) is None),
{
    crate::workhub::law_workflow_status_texts(s, GoalStatus::Draft);
}

/// The agent type for a goal's status. An archived goal is refused with
/// `Agent("No agent transition defined for goal status: archived")`.
pub fn determine_agent_type(goal_status: GoalStatus) -> (r: Result<AgentType, AppError>)
    ensures
        match agent_for_status(goal_status) {
            Some(t) => r == Ok::<AgentType, AppError>(t),
            None => r matches Err(AppError::Agent(m))
                && m@ == "No agent transition defined for goal status: archived"@,
        },
{
    match goal_status {
        GoalStatus::Draft => Ok(AgentType::Summarizer),
        GoalStatus::Pinned => Ok(AgentType::Builder),
        GoalStatus::Building => Ok(AgentType::Builder),
        GoalStatus::Reached => Ok(AgentType::Optimizer),
        GoalStatus::Optimizing => Ok(AgentType::Optimizer),
        GoalStatus::Failed => Ok(AgentType::Builder),
        GoalStatus::Archived => Err(AppError::Agent(
            "No agent transition defined for goal status: archived".to_string(),
        )),
    }
}

/// The workflow status a goal moves to when an agent of the given type
/// starts working on it.
pub open spec fn status_on_start(t: AgentType) -> GoalStatus {
    match t {
        AgentType::Summarizer => GoalStatus::Draft,
        AgentType::Builder => GoalStatus::Building,
        AgentType::Executor => GoalStatus::Building,
        AgentType::Optimizer => GoalStatus::Optimizing,
    }
}

/// The status text a goal is stored with when an agent starts: `draft`
/// for the summarizer, `building` for the builder and the executor,
/// `optimizing` for the optimizer; read back, it calls for that same
/// agent again, but for the executor, whose goal calls for the builder.
pub proof fn law_started_status_texts(t: AgentType)
    ensures
        t == AgentType::Summarizer ==> workflow_status_name(status_on_start(t)) == "draft"@,
        t == AgentType::Builder ==> workflow_status_name(status_on_start(t)) == "building"@,
        t == AgentType::Executor ==> workflow_status_name(status_on_start(t)) == "building"@,
        t == AgentType::Optimizer ==> workflow_status_name(status_on_start(t)) == "optimizing"@,
        t != AgentType::Executor ==> agent_for_status(status_on_start(t)) == Some(t),
        t == AgentType::Executor ==> agent_for_status(status_on_start(t)) == Some(AgentType::Builder),
{
}

/// The debug texts of the agent statuses: `Starting`, `Running`,
/// `Canceling`, `Completed`, `Failed`, in the order of the variants.
pub proof fn law_agent_status_debug_texts(s: AgentStatus)
    ensures
        s == AgentStatus::Starting ==> agent_status_debug_name(s) == "Starting"@,
        s == AgentStatus::Running ==> agent_status_debug_name(s) == "Running"@,
        s == AgentStatus::Canceling ==> agent_status_debug_name(s) == "Canceling"@,
        s == AgentStatus::Completed ==> agent_status_debug_name(s) == "Completed"@,
        s == AgentStatus::Failed ==> agent_status_debug_name(s) == "Failed"@,
{
}

/// The workflow status a goal moves to when an agent of the given type
/// starts.
pub fn started_goal_status(agent_type: AgentType) -> (s: GoalStatus)
    ensures
        s == status_on_start(agent_type),
{
    match agent_type {
        AgentType::Summarizer => GoalStatus::Draft,
        AgentType::Builder => GoalStatus::Building,
        AgentType::Executor => GoalStatus::Building,
        AgentType::Optimizer => GoalStatus::Optimizing,
    }
}

/// The message recorded when a delivered message starts a background
/// agent: `<agent type> agent started`.
pub fn started_effect_message(agent_type: AgentType) -> (m: String)
    ensures
        m@ == crate::models::agent_type_name(agent_type) + " agent started"@,
{
    concat2(agent_type.as_str(), " agent started")
}

// ---------------------------------------------------------------------
// The task table
// ---------------------------------------------------------------------

/// A background agent task.
pub struct AgentTaskHandle {
    pub agent_type: AgentType,
    pub cancel_token: tokio_util::sync::CancellationToken,
    pub status: AgentStatus,
    /// When the task was recorded, as RFC 3339 text.
    pub started_at: String,
    /// Whether a stop was requested: set, with the token cancelled, by
    /// `AgentSupervisor::stop_agent`.
    pub cancel_requested: Ghost<bool>,
}

/// A task as the table shows it: its agent type, its status, when it was
/// recorded (RFC 3339 text), whether a stop was requested (its token
/// cancelled), and the token its running agent watches.
pub type TaskEntry = (AgentType, AgentStatus, Seq<char>, bool, tokio_util::sync::CancellationToken);

/// The entry a task handle shows.
pub open spec fn entry_of(h: AgentTaskHandle) -> TaskEntry {
    (h.agent_type, h.status, h.started_at@, h.cancel_requested@, h.cancel_token)
}

/// No two entries share a workspace id.
pub open spec fn keys_unique(s: Seq<(String, AgentTaskHandle)>) -> bool {
    forall|i: int, j: int| 0 <= i < j < s.len() ==> #[trigger] s[i].0@ != #[trigger] s[j].0@
}

/// The table as a map from workspace id to agent type and status.
pub open spec fn task_map(s: Seq<(String, AgentTaskHandle)>) -> TaskTable
    decreases s.len(),
{
    if s.len() == 0 {
        Map::empty()
    } else {
        task_map(s.drop_last()).insert(s.last().0@, entry_of(s.last().1))
    }
}

proof fn lemma_task_map_dom(s: Seq<(String, AgentTaskHandle)>, k: Seq<char>)
    ensures
        task_map(s).contains_key(k) <==> exists|i: int| 0 <= i < s.len() && #[trigger] s[i].0@ == k,
    decreases s.len(),
{
    if s.len() > 0 {
        let t = s.drop_last();
        lemma_task_map_dom(t, k);
        if task_map(s).contains_key(k) {
            if s.last().0@ == k {
                assert(s[s.len() - 1].0@ == k);
            } else {
                let i = choose|i: int| 0 <= i < t.len() && #[trigger] t[i].0@ == k;
                assert(s[i] == t[i]);
            }
        }
        if exists|i: int| 0 <= i < s.len() && #[trigger] s[i].0@ == k {
            let i = choose|i: int| 0 <= i < s.len() && #[trigger] s[i].0@ == k;
            if i < s.len() - 1 {
                assert(t[i] == s[i]);
            }
        }
    }
}

proof fn lemma_task_map_at(s: Seq<(String, AgentTaskHandle)>, i: int)
    requires
        keys_unique(s),
        0 <= i < s.len(),
    ensures
        task_map(s).contains_key(s[i].0@),
        task_map(s)[s[i].0@] == entry_of(s[i].1),
    decreases s.len(),
{
    let t = s.drop_last();
    if i < s.len() - 1 {
        assert(t[i] == s[i]);
        assert(keys_unique(t)) by {
            assert forall|a: int, b: int| 0 <= a < b < t.len() implies #[trigger] t[a].0@ != #[trigger] t[b].0@ by {
                assert(t[a] == s[a] && t[b] == s[b]);
            }
        }
        lemma_task_map_at(t, i);
        assert(s[i].0@ != s[s.len() - 1].0@);
    }
}

/// Replacing the handle of one entry, keeping its key, keeps the keys
/// unique and sets that key's type and status in the map.
proof fn lemma_task_map_replace(
    before: Seq<(String, AgentTaskHandle)>,
    after: Seq<(String, AgentTaskHandle)>,
    i: int,
)
    requires
        keys_unique(before),
        0 <= i < before.len(),
        after.len() == before.len(),
        after[i].0@ == before[i].0@,
        forall|j: int| 0 <= j < after.len() && j != i ==> #[trigger] after[j] == before[j],
    ensures
        keys_unique(after),
        task_map(after) == task_map(before).insert(
            before[i].0@,
            entry_of(after[i].1),
        ),
{
    let k = before[i].0@;
    let v = entry_of(after[i].1);
    assert(keys_unique(after)) by {
        assert forall|a: int, b: int| 0 <= a < b < after.len() implies #[trigger] after[a].0@ != #[trigger] after[b].0@ by {
            if a != i {
                assert(after[a] == before[a]);
            }
            if b != i {
                assert(after[b] == before[b]);
            }
        }
    }
    lemma_task_map_at(after, i);
    assert forall|k2: Seq<char>| #[trigger] task_map(after).contains_key(k2) <==> task_map(before).insert(k, v).contains_key(k2) by {
        lemma_task_map_dom(after, k2);
        lemma_task_map_dom(before, k2);
        if task_map(before).contains_key(k2) {
            let j = choose|j: int| 0 <= j < before.len() && #[trigger] before[j].0@ == k2;
            if j != i {
                assert(after[j] == before[j]);
            }
            assert(after[j].0@ == k2);
        }
        if task_map(after).contains_key(k2) {
            let j = choose|j: int| 0 <= j < after.len() && #[trigger] after[j].0@ == k2;
            if j != i {
                assert(after[j] == before[j]);
            }
            assert(before[j].0@ == k2);
        }
    }
    assert forall|k2: Seq<char>| #[trigger] task_map(after).contains_key(k2) implies task_map(after)[k2] == task_map(before).insert(k, v)[k2] by {
        lemma_task_map_dom(after, k2);
        let j = choose|j: int| 0 <= j < after.len() && #[trigger] after[j].0@ == k2;
        lemma_task_map_at(after, j);
        if j != i {
            assert(after[j] == before[j]);
            lemma_task_map_at(before, j);
        }
    }
    assert(task_map(after) =~= task_map(before).insert(k, v));
}

/// Appending an entry under a new key keeps the keys unique and adds
/// that key to the map.
proof fn lemma_task_map_push(s: Seq<(String, AgentTaskHandle)>, e: (String, AgentTaskHandle))
    requires
        keys_unique(s),
        forall|j: int| 0 <= j < s.len() ==> #[trigger] s[j].0@ != e.0@,
    ensures
        keys_unique(s.push(e)),
        task_map(s.push(e)) == task_map(s).insert(e.0@, entry_of(e.1)),
{
    let t = s.push(e);
    assert(t.drop_last() =~= s);
    assert(keys_unique(t)) by {
        assert forall|a: int, b: int| 0 <= a < b < t.len() implies #[trigger] t[a].0@ != #[trigger] t[b].0@ by {
            assert(t[a] == s[a]);
            if b < s.len() {
                assert(t[b] == s[b]);
            }
        }
    }
}

/// The supervisor's table of background agent tasks, keyed by workspace
/// id. At most one task is recorded per workspace.
pub struct AgentSupervisor {
    tasks: Vec<(String, AgentTaskHandle)>,
}

/// `r` is the refusal for a workspace without a task.
pub open spec fn not_found_message(r: Result<AgentStatus, AppError>, workspace_id: Seq<char>) -> bool {
    r matches Err(AppError::NotFound(m)) && m@ == "No running agent for workspace: "@ + workspace_id
}

/// The task table: for each workspace id, its task.
pub type TaskTable = Map<Seq<char>, TaskEntry>;

/// Whether the workspace has a task that is starting or running.
pub open spec fn has_active_task(m: TaskTable, ws: Seq<char>) -> bool {
    m.contains_key(ws) && is_active(m[ws].1)
}

/// What a request to start an agent of type `t` for `ws` answers.
pub open spec fn start_outcome(m: TaskTable, ws: Seq<char>, t: AgentType) -> StartOutcome {
    if has_active_task(m, ws) {
        StartOutcome::AlreadyActive(m[ws].1)
    } else {
        StartOutcome::Started(status_on_start(t))
    }
}

/// The task table after a request, made at `at`, to start an agent of
/// type `t` for `ws`.
pub open spec fn tasks_after_start(
    m: TaskTable,
    ws: Seq<char>,
    t: AgentType,
    at: Seq<char>,
    token: tokio_util::sync::CancellationToken,
) -> TaskTable {
    if has_active_task(m, ws) {
        m
    } else {
        m.insert(ws, (t, AgentStatus::Starting, at, false, token))
    }
}

/// The task table after a request to stop the task of `ws`.
pub open spec fn tasks_after_stop(m: TaskTable, ws: Seq<char>) -> TaskTable {
    if m.contains_key(ws) {
        m.insert(ws, (m[ws].0, AgentStatus::Canceling, m[ws].2, true, m[ws].4))
    } else {
        m
    }
}

/// A workspace runs at most one agent: once a start request has been
/// made, a second one, of any type, is refused with the first task's
/// status and changes nothing.
pub proof fn law_one_agent_per_workspace(
    m: TaskTable,
    ws: Seq<char>,
    t1: AgentType,
    t2: AgentType,
    at1: Seq<char>,
    at2: Seq<char>,
    k1: tokio_util::sync::CancellationToken,
    k2: tokio_util::sync::CancellationToken,
)
    ensures
        ({
            let m1 = tasks_after_start(m, ws, t1, at1, k1);
            &&& has_active_task(m1, ws)
            &&& start_outcome(m1, ws, t2) == StartOutcome::AlreadyActive(m1[ws].1)
            &&& tasks_after_start(m1, ws, t2, at2, k2) == m1
        }),
{
}

/// Starting or stopping the agent of one workspace leaves every other
/// workspace's task as it was.
pub proof fn law_other_workspaces_untouched(
    m: TaskTable,
    ws: Seq<char>,
    other: Seq<char>,
    t: AgentType,
    at: Seq<char>,
    k: tokio_util::sync::CancellationToken,
)
    requires
        other != ws,
    ensures
        tasks_after_start(m, ws, t, at, k).contains_key(other) == m.contains_key(other),
        tasks_after_stop(m, ws).contains_key(other) == m.contains_key(other),
        m.contains_key(other) ==> tasks_after_start(m, ws, t, at, k)[other] == m[other]
            && tasks_after_stop(m, ws)[other] == m[other],
{
}

/// A stop request marks the task's stop as requested and keeps its
/// token, the one its running agent watches; a stopped task no longer
/// blocks its workspace: after a stop request, a start request of any
/// type succeeds and records a new starting task.
pub proof fn law_stop_then_start(
    m: TaskTable,
    ws: Seq<char>,
    t: AgentType,
    at: Seq<char>,
    k: tokio_util::sync::CancellationToken,
)
    requires
        m.contains_key(ws),
    ensures
        ({
            let m1 = tasks_after_stop(m, ws);
            &&& m1[ws] == (m[ws].0, AgentStatus::Canceling, m[ws].2, true, m[ws].4)
            &&& !has_active_task(m1, ws)
            &&& start_outcome(m1, ws, t) == StartOutcome::Started(status_on_start(t))
            &&& tasks_after_start(m1, ws, t, at, k)[ws] == (t, AgentStatus::Starting, at, false, k)
        }),
{
}

/// The outcome of a request to start an agent.
#[derive(Debug, Clone, Copy, PartialEq, Eq, Structural)]
pub enum StartOutcome {
    /// A task is already starting or running for the workspace; nothing
    /// changed.
    AlreadyActive(AgentStatus),
    /// A new task was recorded as starting; the goal moves to the given
    /// workflow status.
    Started(GoalStatus),
}

impl StartOutcome {
    /// The status reported to the caller.
    pub fn status(&self) -> (s: AgentStatus)
        ensures
            s == match *self {
                StartOutcome::AlreadyActive(st) => st,
                StartOutcome::Started(_) => AgentStatus::Starting,
            },
    {
        match self {
            StartOutcome::AlreadyActive(st) => *st,
            StartOutcome::Started(_) => AgentStatus::Starting,
        }
    }
}

impl View for AgentSupervisor {
    type V = TaskTable;

    closed spec fn view(&self) -> TaskTable {
        task_map(self.tasks@)
    }
}

impl AgentSupervisor {
    #[verifier::type_invariant]
    spec fn inv(self) -> bool {
        keys_unique(self.tasks@)
    }

    /// An empty table.
    pub fn new() -> (s: AgentSupervisor)
        ensures
            s@ == Map::<Seq<char>, TaskEntry>::empty(),
    {
        AgentSupervisor { tasks: Vec::new() }
    }

    /// The position of the workspace's entry, if any.
    fn find(&self, workspace_id: &str) -> (r: Option<usize>)
        ensures
            match r {
                Some(i) => i < self.tasks@.len() && self.tasks@[i as int].0@ == workspace_id@,
                None => forall|i: int| 0 <= i < self.tasks@.len() ==> #[trigger] self.tasks@[i].0@ != workspace_id@,
            },
    {
        let mut i: usize = 0;
        while i < self.tasks.len()
            invariant
                i <= self.tasks@.len(),
                forall|j: int| 0 <= j < i ==> #[trigger] self.tasks@[j].0@ != workspace_id@,
            decreases self.tasks@.len() - i,
        {
            if str_eq(self.tasks[i].0.as_str(), workspace_id) {
                return Some(i);
            }
            i = i + 1;
        }
        None
    }

    /// The status of the workspace's task, if one is recorded.
    pub fn get_status(&self, workspace_id: &str) -> (r: Option<AgentStatus>)
        ensures
            r == (if self@.contains_key(workspace_id@) {
                Some(self@[workspace_id@].1)
            } else {
                None
            }),
    {
        proof {
            use_type_invariant(self);
            lemma_task_map_dom(self.tasks@, workspace_id@);
        }
        match self.find(workspace_id) {
            Some(i) => {
                proof {
                    lemma_task_map_at(self.tasks@, i as int);
                }
                Some(self.tasks[i].1.status)
            },
            None => None,
        }
    }

    /// Sets the status and the stop flag of the entry at position `i`.
    fn set_at(&mut self, i: usize, status: AgentStatus, cancel_requested: Ghost<bool>)
        requires
            i < old(self).tasks@.len(),
        ensures
            final(self)@ == old(self)@.insert(
                old(self).tasks@[i as int].0@,
                (
                    old(self)@[old(self).tasks@[i as int].0@].0,
                    status,
                    old(self)@[old(self).tasks@[i as int].0@].2,
                    cancel_requested@,
                    old(self)@[old(self).tasks@[i as int].0@].4,
                ),
            ),
    {
        proof {
            use_type_invariant(&*self);
        }
        let mut tasks: Vec<(String, AgentTaskHandle)> = Vec::new();
        std::mem::swap(&mut tasks, &mut self.tasks);
        let ghost before = tasks@;
        proof {
            lemma_task_map_at(before, i as int);
        }
        let (k, mut h) = tasks.remove(i);
        h.status = status;
        h.cancel_requested = cancel_requested;
        tasks.insert(i, (k, h));
        proof {
            let after = tasks@;
            assert forall|j: int| 0 <= j < after.len() && j != i implies #[trigger] after[j] == before[j] by {
                if j < i {
                    assert(after[j] == before[j]);
                } else {
                    assert(after[j] == before[j]);
                }
            }
            lemma_task_map_replace(before, after, i as int);
        }
        self.tasks = tasks;
    }

    /// Sets the status of the workspace's task, where one is recorded; the
    /// rest of the table is unchanged.
    pub fn update_status(&mut self, workspace_id: &str, status: AgentStatus)
        ensures
            old(self)@.contains_key(workspace_id@) ==> final(self)@ == old(self)@.insert(
                workspace_id@,
                (
                    old(self)@[workspace_id@].0,
                    status,
                    old(self)@[workspace_id@].2,
                    old(self)@[workspace_id@].3,
                    old(self)@[workspace_id@].4,
                ),
            ),
            !old(self)@.contains_key(workspace_id@) ==> final(self)@ == old(self)@,
    {
        proof {
            use_type_invariant(&*self);
            lemma_task_map_dom(self.tasks@, workspace_id@);
        }
        match self.find(workspace_id) {
            Some(i) => {
                proof {
                    lemma_task_map_at(self.tasks@, i as int);
                }
                let flag: Ghost<bool> = Ghost(self.tasks@[i as int].1.cancel_requested@);
                self.set_at(i, status, flag);
            },
            None => {},
        }
    }

    /// Records a task for the workspace unless one is already starting or
    /// running there. Where one is, the table is unchanged and its status
    /// is reported. Otherwise a task of `agent_type` is recorded as
    /// starting (replacing a finished or canceled one), and the goal moves
    /// to the workflow status that agent starts it in.
    pub fn start_agent(&mut self, workspace_id: &str, agent_type: AgentType, started_at: String) -> (r: StartOutcome)
        ensures
            old(self)@.contains_key(workspace_id@) && is_active(old(self)@[workspace_id@].1) ==> {
                &&& r == StartOutcome::AlreadyActive(old(self)@[workspace_id@].1)
                &&& final(self)@ == old(self)@
            },
            !(old(self)@.contains_key(workspace_id@) && is_active(old(self)@[workspace_id@].1)) ==> {
                &&& r == StartOutcome::Started(status_on_start(agent_type))
                &&& final(self)@ == old(self)@.insert(
                    workspace_id@,
                    (agent_type, AgentStatus::Starting, started_at@, false, final(self)@[workspace_id@].4),
                )
            },
            r == start_outcome(old(self)@, workspace_id@, agent_type),
            final(self)@ == tasks_after_start(
                old(self)@,
                workspace_id@,
                agent_type,
                started_at@,
                final(self)@[workspace_id@].4,
            ),
    {
        proof {
            use_type_invariant(&*self);
            lemma_task_map_dom(self.tasks@, workspace_id@);
        }
        let found = self.find(workspace_id);
        match found {
            Some(i) => {
                proof {
                    lemma_task_map_at(self.tasks@, i as int);
                }
                let st = self.tasks[i].1.status;
                if st.is_active() {
                    return StartOutcome::AlreadyActive(st);
                }
            },
            None => {},
        }
        let handle = AgentTaskHandle {
            agent_type,
            cancel_token: new_cancel_token(),
            status: AgentStatus::Starting,
            started_at,
            cancel_requested: Ghost(false),
        };
        let key = crate::text::owned(workspace_id);
        let mut tasks: Vec<(String, AgentTaskHandle)> = Vec::new();
        std::mem::swap(&mut tasks, &mut self.tasks);
        let ghost before = tasks@;
        match found {
            Some(i) => {
                let _ = tasks.remove(i);
                tasks.insert(i, (key, handle));
                proof {
                    let after = tasks@;
                    assert forall|j: int| 0 <= j < after.len() && j != i implies #[trigger] after[j] == before[j] by {
                        if j < i {
                            assert(after[j] == before[j]);
                        } else {
                            assert(after[j] == before[j]);
                        }
                    }
                    lemma_task_map_replace(before, after, i as int);
                }
            },
            None => {
                proof {
                    lemma_task_map_push(before, (key, handle));
                }
                tasks.push((key, handle));
            },
        }
        self.tasks = tasks;
        StartOutcome::Started(started_goal_status(agent_type))
    }

    /// Asks the workspace's task to stop: its token is cancelled (so the
    /// running agent, which holds a handle to it, stops), the stop is
    /// recorded and its status becomes canceling. Without a task the request is refused
    /// with `NotFound("No running agent for workspace: <id>")`.
    pub fn stop_agent(&mut self, workspace_id: &str) -> (r: Result<AgentStatus, AppError>)
        ensures
            old(self)@.contains_key(workspace_id@) ==> {
                &&& r == Ok::<AgentStatus, AppError>(AgentStatus::Canceling)
                &&& final(self)@ == old(self)@.insert(
                    workspace_id@,
                    (
                        old(self)@[workspace_id@].0,
                        AgentStatus::Canceling,
                        old(self)@[workspace_id@].2,
                        true,
                        old(self)@[workspace_id@].4,
                    ),
                )
            },
            !old(self)@.contains_key(workspace_id@) ==> {
                &&& r matches Err(AppError::NotFound(m))
                &&& not_found_message(r, workspace_id@)
                &&& final(self)@ == old(self)@
            },
            final(self)@ == tasks_after_stop(old(self)@, workspace_id@),
    {
        proof {
            use_type_invariant(&*self);
            lemma_task_map_dom(self.tasks@, workspace_id@);
        }
        match self.find(workspace_id) {
            Some(i) => {
                cancel_token(&self.tasks[i].1.cancel_token);
                self.set_at(i, AgentStatus::Canceling, Ghost(true));
                Ok(AgentStatus::Canceling)
            },
            None => Err(AppError::NotFound(concat2("No running agent for workspace: ", workspace_id))),
        }
    }

    /// A handle to the cancellation token of the workspace's task, if one
    /// is recorded: the agent run for the task watches it, so that
    /// `stop_agent` reaches the running agent.
    pub fn cancel_handle(&self, workspace_id: &str) -> (r: Option<tokio_util::sync::CancellationToken>)
        ensures
            r is Some <==> self@.contains_key(workspace_id@),
            r matches Some(t) ==> t == self@[workspace_id@].4,
    {
        proof {
            use_type_invariant(self);
            lemma_task_map_dom(self.tasks@, workspace_id@);
        }
        match self.find(workspace_id) {
            Some(i) => {
                proof {
                    lemma_task_map_at(self.tasks@, i as int);
                }
                Some(clone_cancel_token(&self.tasks[i].1.cancel_token))
            },
            None => None,
        }
    }

    /// The tasks that are starting or running, each once, with their
    /// workspace id, agent type and status.
    pub fn list_running(&self) -> (r: Vec<(String, AgentType, AgentStatus)>)
        ensures
            forall|i: int| 0 <= i < r@.len() ==> {
                &&& self@.contains_key(#[trigger] r@[i].0@)
                &&& self@[r@[i].0@].0 == r@[i].1
                &&& self@[r@[i].0@].1 == r@[i].2
                &&& is_active(r@[i].2)
            },
            forall|k: Seq<char>| #[trigger] self@.contains_key(k) && is_active(self@[k].1) ==>
                exists|i: int| 0 <= i < r@.len() && r@[i].0@ == k,
            forall|i: int, j: int| 0 <= i < j < r@.len() ==> #[trigger] r@[i].0@ != #[trigger] r@[j].0@,
    {
        proof {
            use_type_invariant(self);
        }
        let ghost s = self.tasks@;
        let mut r: Vec<(String, AgentType, AgentStatus)> = Vec::new();
        let ghost mut idx: Seq<int> = Seq::empty();
        let mut i: usize = 0;
        while i < self.tasks.len()
            invariant
                s == self.tasks@,
                keys_unique(s),
                i <= s.len(),
                idx.len() == r@.len(),
                forall|m: int| 0 <= m < idx.len() ==> 0 <= #[trigger] idx[m] < i,
                forall|m: int, n: int| 0 <= m < n < idx.len() ==> #[trigger] idx[m] < #[trigger] idx[n],
                forall|m: int| 0 <= m < r@.len() ==> {
                    &&& (#[trigger] r@[m]).0@ == s[idx[m]].0@
                    &&& r@[m].1 == s[idx[m]].1.agent_type
                    &&& r@[m].2 == s[idx[m]].1.status
                    &&& is_active(r@[m].2)
                },
                forall|j: int| 0 <= j < i && is_active(#[trigger] s[j].1.status) ==>
                    exists|m: int| 0 <= m < r@.len() && idx[m] == j,
            decreases s.len() - i,
        {
            let st = self.tasks[i].1.status;
            let ghost idx0 = idx;
            let ghost r0 = r@;
            if st.is_active() {
                let key = crate::text::owned(self.tasks[i].0.as_str());
                r.push((key, self.tasks[i].1.agent_type, st));
                proof {
                    idx = idx.push(i as int);
                    assert(r@[r@.len() - 1].0@ == s[i as int].0@);
                }
            }
            proof {
                assert(forall|m: int| 0 <= m < idx0.len() ==> idx[m] == idx0[m]);
                assert forall|j: int| 0 <= j < i + 1 && is_active(#[trigger] s[j].1.status) implies
                    exists|m: int| 0 <= m < r@.len() && idx[m] == j by {
                    if j == i {
                        assert(idx[idx.len() - 1] == j);
                    } else {
                        let m = choose|m: int| 0 <= m < r0.len() && idx0[m] == j;
                        assert(idx[m] == j);
                    }
                }
            }
            i = i + 1;
        }
        proof {
            assert forall|m: int| 0 <= m < r@.len() implies {
                &&& self@.contains_key(#[trigger] r@[m].0@)
                &&& self@[r@[m].0@].0 == r@[m].1
                &&& self@[r@[m].0@].1 == r@[m].2
                &&& is_active(r@[m].2)
            } by {
                lemma_task_map_at(s, idx[m]);
            }
            assert forall|k: Seq<char>| #[trigger] self@.contains_key(k) && is_active(self@[k].1) implies
                exists|m: int| 0 <= m < r@.len() && r@[m].0@ == k by {
                lemma_task_map_dom(s, k);
                let j = choose|j: int| 0 <= j < s.len() && #[trigger] s[j].0@ == k;
                lemma_task_map_at(s, j);
                assert(is_active(s[j].1.status));
                let m = choose|m: int| 0 <= m < r@.len() && idx[m] == j;
                assert(r@[m].0@ == k);
            }
            assert forall|m: int, n: int| 0 <= m < n < r@.len() implies #[trigger] r@[m].0@ != #[trigger] r@[n].0@ by {
                assert(idx[m] < idx[n]);
                assert(s[idx[m]].0@ != s[idx[n]].0@);
            }
        }
        r
    }

}

} // verus!
