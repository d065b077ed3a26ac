//! What the front-end commands compute: the records they answer with and
//! the values they derive from their arguments. The shell runs the
//! commands themselves.
use vstd::prelude::*;

use crate::agents::{agent_status_debug_name, AgentStatus};
use crate::json::{get_member_str, json_debug, json_debug_text, member_str};
use crate::models::{agent_type_debug_name, AgentType, CreateGoalInput, Message};
use crate::text::{chars_of, owned, string_from_chars};

verus! {

/// The text that `{:?}` writes for a string: quoted and escaped.
pub uninterp spec fn str_debug_text(s: Seq<char>) -> Seq<char>;

/// Writes a string with `{:?}`.
#[verifier::external_body]
fn str_debug(s: &str) -> (r: String)
    ensures
        r@ == str_debug_text(s@),
{
    format!("{:?}", s)
}

/// The answer to an agent command: the workspace, and the agent's status
/// as its variant name where there is one.
#[derive(Debug, Clone, PartialEq, Eq)]
pub struct AgentStatusResponse {
    pub workspace_id: String,
    pub agent_type: Option<String>,
    pub status: Option<String>,
}

impl AgentStatusResponse {
    /// The answer for a workspace whose agent has the given status, if
    /// any; the agent type is not reported.
    pub fn for_status(workspace_id: String, status: Option<AgentStatus>) -> (r: AgentStatusResponse)
        ensures
            r.workspace_id == workspace_id,
            r.agent_type is None,
            match status {
                Some(s) => r.status matches Some(t) && t@ == agent_status_debug_name(s),
                None => r.status is None,
            },
    {
        let st = match status {
            Some(s) => Some(owned(s.debug_name())),
            None => None,
        };
        AgentStatusResponse { workspace_id, agent_type: None, status: st }
    }
}

/// The rows listing running agents: workspace, agent type and status,
/// the last two as variant names, in the order given.
pub fn running_rows(running: Vec<(String, AgentType, AgentStatus)>) -> (r: Vec<(String, String, String)>)
    ensures
        r@.len() == running@.len(),
        forall|i: int| 0 <= i < r@.len() ==> {
            &&& (#[trigger] r@[i]).0 == running@[i].0
            &&& r@[i].1@ == agent_type_debug_name(running@[i].1)
            &&& r@[i].2@ == agent_status_debug_name(running@[i].2)
        },
{
    let mut r: Vec<(String, String, String)> = Vec::new();
    let mut i: usize = 0;
    while i < running.len()
        invariant
            i <= running@.len(),
            r@.len() == i,
            forall|j: int| 0 <= j < i ==> {
                &&& (#[trigger] r@[j]).0 == running@[j].0
                &&& r@[j].1@ == agent_type_debug_name(running@[j].1)
                &&& r@[j].2@ == agent_status_debug_name(running@[j].2)
            },
        decreases running@.len() - i,
    {
        let row = &running[i];
        r.push((row.0.clone(), owned(row.1.debug_name()), owned(row.2.debug_name())));
        i = i + 1;
    }
    r
}

/// The answer to a message sent to the summarizer.
#[derive(Debug, Clone, PartialEq, Eq)]
pub struct SummarizerTurnResponse {
    pub cell_id: String,
    pub message: String,
    pub summary_ready: bool,
}

/// The status of a session cell's result.
#[derive(Debug, Clone, PartialEq, Eq)]
pub struct CellStatusResponse {
    pub cell_id: String,
    pub result_status: Option<String>,
}

/// A session cell's history.
#[derive(Debug, Clone)]
pub struct CellHistoryResponse {
    pub cell_id: String,
    pub messages: Vec<Message>,
}

/// The message text of a stored result: its `message` member where that
/// is a string, else the whole output as `{:?}` writes it.
pub open spec fn message_text(output: serde_json::Value) -> Seq<char> {
    match member_str(output, "message"@) {
        Some(m) => m,
        None => json_debug_text(output),
    }
}

/// The message text of a stored result's output.
pub fn extract_message_text(output: &serde_json::Value) -> (s: String)
    ensures
        s@ == message_text(*output),
{
    match get_member_str(output, "message") {
        Some(m) => m,
        None => json_debug(output),
    }
}

impl SummarizerTurnResponse {
    /// The answer for a stored turn: its message text and whether the
    /// summary is ready.
    pub fn for_turn(cell_id: String, output: &serde_json::Value, summary_ready: bool) -> (r: SummarizerTurnResponse)
        ensures
            r.cell_id == cell_id,
            r.message@ == message_text(*output),
            r.summary_ready == summary_ready,
    {
        SummarizerTurnResponse { cell_id, message: extract_message_text(output), summary_ready }
    }
}

impl CellStatusResponse {
    /// The answer for a cell whose result has the given status text, if
    /// any; the text is reported as `{:?}` writes it.
    pub fn for_status(cell_id: String, status: Option<String>) -> (r: CellStatusResponse)
        ensures
            r.cell_id == cell_id,
            match status {
                Some(s) => r.result_status matches Some(t) && t@ == str_debug_text(s@),
                None => r.result_status is None,
            },
    {
        let st = match status {
            Some(s) => Some(str_debug(s.as_str())),
            None => None,
        };
        CellStatusResponse { cell_id, result_status: st }
    }
}

// ---------------------------------------------------------------------
// Goals
// ---------------------------------------------------------------------

/// The first line of a text, as `str::lines` gives it: up to the first
/// line feed, without a carriage return just before it; none for an
/// empty text.
pub open spec fn first_line(s: Seq<char>) -> Option<Seq<char>> {
    if s.len() == 0 {
        None
    } else if exists|i: int| 0 <= i < s.len() && s[i] == '\n' {
        let i = choose|i: int| 0 <= i < s.len() && s[i] == '\n' && forall|j: int| 0 <= j < i ==> s[j] != '\n';
        if i > 0 && s[i - 1] == '\r' {
            Some(s.subrange(0, i - 1))
        } else {
            Some(s.subrange(0, i))
        }
    } else {
        Some(s)
    }
}

/// The title of a new goal: the first line of its content, or
/// `Untitled Goal` for empty content.
pub fn goal_title_from_content(content: &str) -> (t: String)
    ensures
        t@ == match first_line(content@) {
            Some(l) => l,
            None => "Untitled Goal"@,
        },
{
    let v = chars_of(content);
    if v.len() == 0 {
        return owned("Untitled Goal");
    }
    let mut i: usize = 0;
    while i < v.len()
        invariant
            v@ == content@,
            i <= v@.len(),
            forall|j: int| 0 <= j < i ==> v@[j] != '\n',
        decreases v@.len() - i,
    {
        if v[i] == '\n' {
            proof {
                let k = choose|k: int| 0 <= k < v@.len() && v@[k] == '\n' && forall|j: int| 0 <= j < k ==> v@[j] != '\n';
                assert(k == i) by {
                    if k < i {
                        assert(v@[k] != '\n');
                    }
                    if k > i {
                        assert(v@[i as int] != '\n');
                    }
                }
            }
            if i > 0 && v[i - 1] == '\r' {
                return string_from_chars(&v, 0, i - 1);
            }
            return string_from_chars(&v, 0, i);
        }
        i = i + 1;
    }
    assert(v@.subrange(0, v@.len() as int) == v@);
    string_from_chars(&v, 0, v.len())
}

/// The record that creates a goal from what the user wrote: the content,
/// titled by its first line.
pub fn create_goal_input(content: String) -> (g: CreateGoalInput)
    ensures
        g.raw_input == content,
        g.title@ == match first_line(content@) {
            Some(l) => l,
            None => "Untitled Goal"@,
        },
{
    let title = goal_title_from_content(content.as_str());
    CreateGoalInput { raw_input: content, title }
}

} // verus!
