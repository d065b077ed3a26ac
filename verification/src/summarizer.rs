//! The goal summarizer: a conversational analyst that turns the user's
//! description of a goal into a structured summary, one turn at a time.
use vstd::prelude::*;

use crate::agents::{cancel_token, AgentOutput};
use crate::error::AppError;
use crate::models::{AgentType, GoalSummary};
use crate::text::{chars_of, find_chars, find_seq, owned, rfind_chars, rfind_seq, string_from_chars, trim, trim_seq};

verus! {

/// The fence that opens and closes a code block.
pub open spec fn fence() -> Seq<char> {
    seq!['`', '`', '`']
}

/// The fence that opens a JSON code block.
pub open spec fn json_fence() -> Seq<char> {
    seq!['`', '`', '`', 'j', 's', 'o', 'n']
}

/// The JSON a reply holds, read the way the summarizer reads it: the
/// reply is trimmed; the inside of a ```` ```json ```` block (up to the
/// last fence), trimmed; else the inside of a fenced block, trimmed;
/// else, where the reply starts with `{`, everything up to its last `}`;
/// else the trimmed reply. A block is read only where its last fence
/// stands after the opening one: a reply cut short after an opening
/// fence is read on as if it had none.
pub open spec fn fenced_json(text: Seq<char>) -> Seq<char> {
    let t = trim_seq(text);
    let open_json = find_seq(t, json_fence());
    let open = find_seq(t, fence());
    let close = rfind_seq(t, fence());
    let brace = rfind_seq(t, seq!['}']);
    if open_json is Some && close is Some && open_json->0 + 7 <= close->0 {
        trim_seq(t.subrange(open_json->0 + 7, close->0))
    } else if open is Some && close is Some && open->0 != close->0 && open->0 + 3 <= close->0 {
        trim_seq(t.subrange(open->0 + 3, close->0))
    } else if t.len() > 0 && t[0] == '{' && brace is Some {
        t.subrange(0, brace->0 + 1)
    } else {
        t
    }
}

/// Extracts the JSON from a model reply: from a ```` ```json ```` block, a
/// fenced block, or a bare object.
pub fn extract_json(text: &str) -> (r: String)
    ensures
        r@ == fenced_json(text@),
{
    let trimmed = trim(text);
    let v = chars_of(trimmed.as_str());
    let json_open = vec!['`', '`', '`', 'j', 's', 'o', 'n'];
    let fence_v = vec!['`', '`', '`'];
    let brace_v = vec!['}'];
    assert(json_open@ == json_fence());
    assert(fence_v@ == fence());
    assert(brace_v@ == seq!['}']);
    let open_json = find_chars(&v, &json_open);
    let open = find_chars(&v, &fence_v);
    let close = rfind_chars(&v, &fence_v);
    let brace = rfind_chars(&v, &brace_v);
    assert(json_open@.len() == 7);
    assert(fence_v@.len() == 3);
    match (open_json, close) {
        (Some(s), Some(e)) => {
            assert(s + json_open@.len() <= v@.len());
            if s <= e && e - s >= 7 {
                let inner = string_from_chars(&v, s + 7, e);
                return trim(inner.as_str());
            }
        },
        _ => {},
    }
    match (open, close) {
        (Some(s), Some(e)) => {
            assert(s + fence_v@.len() <= v@.len());
            if s != e && s <= e && e - s >= 3 {
                let inner = string_from_chars(&v, s + 3, e);
                return trim(inner.as_str());
            }
        },
        _ => {},
    }
    if v.len() > 0 && v[0] == '{' {
        match brace {
            Some(e) => {
                return string_from_chars(&v, 0, e + 1);
            },
            None => {},
        }
    }
    assert(v@.subrange(0, v@.len() as int) == v@);
    string_from_chars(&v, 0, v.len())
}

/// The head of the summarizer's user prompt, before the goal's title.
pub const TURN_HEAD: &'static str = "Goal context: the user is defining a goal titled \"";

/// The rest of the summarizer's user prompt, after the goal's title.
pub const TURN_TAIL: &'static str = "\".\n\nPlease review the conversation history above and respond conversationally. If you have enough information, produce the goal summary JSON. If not, ask clarifying questions.";

/// The goal summarizer agent.
pub struct GoalSummarizerAgent {
    pub cancel_token: tokio_util::sync::CancellationToken,
}

impl GoalSummarizerAgent {
    /// A summarizer that stops when `cancel_token` is cancelled.
    pub fn new(cancel_token: tokio_util::sync::CancellationToken) -> (a: GoalSummarizerAgent)
        ensures
            a.cancel_token == cancel_token,
    {
        GoalSummarizerAgent { cancel_token }
    }

    /// The summarizer's agent type.
    pub fn agent_type(&self) -> (t: AgentType)
        ensures
            t == AgentType::Summarizer,
    {
        AgentType::Summarizer
    }

    /// Asks the running turn to stop.
    pub fn cancel(&self) {
        cancel_token(&self.cancel_token);
    }

    /// The user prompt of a turn, which names the goal being defined.
    pub fn user_prompt(&self, title: &str) -> (p: String)
        ensures
            p@ == TURN_HEAD@ + title@ + TURN_TAIL@,
    {
        let mut p = owned(TURN_HEAD);
        p.append(title);
        p.append(TURN_TAIL);
        p
    }

    /// The error a cancelled turn ends with.
    pub fn cancelled(&self) -> (e: AppError)
        ensures
            e matches AppError::Agent(m) && m@ == "Summarizer was canceled"@,
    {
        AppError::Agent(owned("Summarizer was canceled"))
    }

    /// The decision a finished turn reports: `summary_ready` where the
    /// reply held a complete summary, `conversation_turn` otherwise.
    pub fn decision(&self, summary_draft: &Option<GoalSummary>) -> (d: &'static str)
        ensures
            summary_draft is Some ==> d@ == "summary_ready"@,
            summary_draft is None ==> d@ == "conversation_turn"@,
    {
        match summary_draft {
            Some(_) => "summary_ready",
            None => "conversation_turn",
        }
    }

    /// The output of a turn: the whole reply and the summary read from it,
    /// if any.
    pub fn turn_output(&self, full_response: String, summary_draft: Option<GoalSummary>) -> (o: AgentOutput)
        ensures
            o == (AgentOutput::ConversationTurn { message: full_response, summary_draft }),
    {
        AgentOutput::ConversationTurn { message: full_response, summary_draft }
    }
}

} // verus!
