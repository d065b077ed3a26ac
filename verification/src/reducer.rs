//! The stream reducer: turns the chunks of a streamed model reply into
//! content-block events (start, deltas, stop) and assembles the final
//! assistant message.
//!
//! Blocks follow the content-block life cycle: each block starts, takes
//! its deltas and stops before the next one starts; blocks are numbered
//! 0, 1, 2, ... in the order they start; once the last block has stopped
//! the message completes, carrying every text, reasoning and tool-call
//! block of the reply, fully assembled and in order. A tool call
//! streamed in pieces is assembled from them (its name pieces joined, its
//! argument pieces read as JSON) unless its complete form arrives while
//! its block is open, which then takes its place.
//!
//! The shell converts each item of the model client's stream into an
//! [`AssistantChunk`] (or calls `finish_with_response` / `finish_stream`),
//! and delivers the pending events in order.
use vstd::prelude::*;

use crate::json::{json_parse, json_str, json_string_value, json_text, json_to_string, parse_json_value};
use crate::llm::{
    assistant_texts, AssistantContentBlock, AssistantMessage, ContentBlockHeader, ContentDelta,
    StreamEvent, TextContent, ThinkingContent, ToolCallContent,
};
use crate::text::{join_seq, str_eq};

verus! {

/// Which block, if any, the reducer is inside.
#[derive(Debug, Clone, PartialEq, Eq)]
pub enum ReducerState {
    Idle,
    InTextBlock { index: usize },
    InThinkingBlock { index: usize },
    InToolCallBlock { index: usize, internal_call_id: String },
    Complete,
}

/// The index of the open block, if any.
pub open spec fn open_block(s: ReducerState) -> Option<usize> {
    match s {
        ReducerState::InTextBlock { index } => Some(index),
        ReducerState::InThinkingBlock { index } => Some(index),
        ReducerState::InToolCallBlock { index, .. } => Some(index),
        _ => None,
    }
}

impl ReducerState {
    /// The index of the open block, if any.
    pub fn block_index(&self) -> (r: Option<usize>)
        ensures
            r == open_block(*self),
    {
        match self {
            ReducerState::InTextBlock { index } => Some(*index),
            ReducerState::InThinkingBlock { index } => Some(*index),
            ReducerState::InToolCallBlock { index, .. } => Some(*index),
            _ => None,
        }
    }

    /// The index one past the open block, or 0 where no block is open.
    pub fn next_block_index(&self) -> (r: usize)
        requires
            open_block(*self) != Some(usize::MAX),
        ensures
            r == match open_block(*self) {
                Some(i) => i + 1,
                None => 0,
            },
    {
        match self {
            ReducerState::InTextBlock { index } => *index + 1,
            ReducerState::InThinkingBlock { index } => *index + 1,
            ReducerState::InToolCallBlock { index, .. } => *index + 1,
            _ => 0,
        }
    }
}

/// A part of a complete reasoning item.
#[derive(Debug, Clone, PartialEq, Eq)]
pub enum ReasoningPart {
    Text(String),
    Summary(String),
    Other,
}

/// A piece of a streamed tool call.
#[derive(Debug, Clone, PartialEq, Eq)]
pub enum ToolCallDeltaContent {
    Name(String),
    Delta(String),
}

/// A chunk of a streamed model reply.
#[derive(Debug, Clone)]
pub enum AssistantChunk {
    Text(String),
    ReasoningDelta { id: Option<String>, reasoning: String },
    Reasoning(Vec<ReasoningPart>),
    ToolCallDelta { id: String, internal_call_id: String, content: ToolCallDeltaContent },
    ToolCall { id: String, name: String, arguments: serde_json::Value },
    Final,
}

/// The reducer: its state, the events waiting to be delivered, the
/// blocks of the message assembled so far, how many blocks have started
/// (the index the next block gets), and the pieces of the tool call
/// streaming in the open tool-call block: its id, its name and its
/// argument text so far.
pub struct Reducer {
    pub state: ReducerState,
    pub pending: std::collections::VecDeque<StreamEvent>,
    pub blocks: Vec<AssistantContentBlock>,
    pub block_count: usize,
    pub call_id: String,
    pub call_name: String,
    pub call_args: String,
}

impl Reducer {
    /// The open block is the last one started, and an open text or
    /// reasoning block is the last block of the message, where its
    /// deltas are assembled.
    pub open spec fn wf(self) -> bool {
        match self.state {
            ReducerState::InTextBlock { index } => {
                &&& index + 1 == self.block_count
                &&& self.blocks@.len() > 0
                &&& self.blocks@.last() is Text
            },
            ReducerState::InThinkingBlock { index } => {
                &&& index + 1 == self.block_count
                &&& self.blocks@.len() > 0
                &&& self.blocks@.last() is Thinking
            },
            ReducerState::InToolCallBlock { index, .. } => index + 1 == self.block_count,
            _ => true,
        }
    }
}

/// The stop event of the open block, if any.
pub open spec fn stop_events(s: ReducerState) -> Seq<StreamEvent> {
    match open_block(s) {
        Some(i) => seq![StreamEvent::ContentBlockStop { index: i }],
        None => seq![],
    }
}

/// The delta that a tool-call piece contributes.
pub open spec fn tool_delta(c: ToolCallDeltaContent) -> ContentDelta {
    match c {
        ToolCallDeltaContent::Name(n) => ContentDelta::ToolCallName(n),
        ToolCallDeltaContent::Delta(a) => ContentDelta::ToolCallArguments(a),
    }
}

/// The reasoning deltas of the text and summary parts of a reasoning item,
/// in order, all for block `index`.
pub open spec fn reasoning_deltas(parts: Seq<ReasoningPart>, index: usize) -> Seq<StreamEvent>
    decreases parts.len(),
{
    if parts.len() == 0 {
        seq![]
    } else {
        let rest = reasoning_deltas(parts.drop_last(), index);
        match parts.last() {
            ReasoningPart::Text(t) => rest.push(
                StreamEvent::ContentBlockDelta { index, delta: ContentDelta::Thinking(t) },
            ),
            ReasoningPart::Summary(t) => rest.push(
                StreamEvent::ContentBlockDelta { index, delta: ContentDelta::Thinking(t) },
            ),
            ReasoningPart::Other => rest,
        }
    }
}

/// The text of a reasoning item: its text and summary parts, in order.
pub open spec fn reasoning_text(parts: Seq<ReasoningPart>) -> Seq<char>
    decreases parts.len(),
{
    if parts.len() == 0 {
        seq![]
    } else {
        let rest = reasoning_text(parts.drop_last());
        match parts.last() {
            ReasoningPart::Text(t) => rest + t@,
            ReasoningPart::Summary(t) => rest + t@,
            ReasoningPart::Other => rest,
        }
    }
}

/// The reducer is inside the tool-call block of `call_id`.
pub open spec fn in_tool_call(s: ReducerState, call_id: String) -> bool {
    s matches ReducerState::InToolCallBlock { internal_call_id, .. } && internal_call_id@ == call_id@
}

/// The events pending in `r2` that were not pending in `r`.
pub open spec fn added(r: Reducer, r2: Reducer) -> Seq<StreamEvent> {
    r2.pending@.subrange(r.pending@.len() as int, r2.pending@.len() as int)
}

/// `r2` keeps the events pending in `r` and adds after them.
pub open spec fn extends(r: Reducer, r2: Reducer) -> bool {
    &&& r.pending@.len() <= r2.pending@.len()
    &&& r2.pending@ == r.pending@ + added(r, r2)
}

/// `b2` is `b` with `t` appended to the text of its last block, a text
/// block.
pub open spec fn text_appended(b: Seq<AssistantContentBlock>, b2: Seq<AssistantContentBlock>, t: Seq<char>) -> bool {
    &&& b.len() > 0
    &&& b2.len() == b.len()
    &&& b2.drop_last() == b.drop_last()
    &&& b.last() matches AssistantContentBlock::Text(c0)
    &&& b2.last() matches AssistantContentBlock::Text(c)
    &&& c.text@ == c0.text@ + t
}

/// `b2` is `b` with `t` appended to the reasoning of its last block, a
/// reasoning block (its signature kept).
pub open spec fn thinking_appended(b: Seq<AssistantContentBlock>, b2: Seq<AssistantContentBlock>, t: Seq<char>) -> bool {
    &&& b.len() > 0
    &&& b2.len() == b.len()
    &&& b2.drop_last() == b.drop_last()
    &&& b.last() matches AssistantContentBlock::Thinking(c0)
    &&& b2.last() matches AssistantContentBlock::Thinking(c)
    &&& c.thinking@ == c0.thinking@ + t
    &&& c.signature == c0.signature
}

/// The name a tool-call piece adds.
pub open spec fn piece_name(c: ToolCallDeltaContent) -> Seq<char> {
    match c {
        ToolCallDeltaContent::Name(n) => n@,
        ToolCallDeltaContent::Delta(_) => seq![],
    }
}

/// The argument text a tool-call piece adds.
pub open spec fn piece_args(c: ToolCallDeltaContent) -> Seq<char> {
    match c {
        ToolCallDeltaContent::Name(_) => seq![],
        ToolCallDeltaContent::Delta(a) => a@,
    }
}

/// `b` is the tool call assembled from streamed pieces: the call `id`,
/// the name pieces `name`, and as arguments the JSON value that the
/// argument pieces `args` hold, or, where they hold none, their text as a
/// JSON string.
pub open spec fn assembled_call(id: Seq<char>, name: Seq<char>, args: Seq<char>, b: AssistantContentBlock) -> bool {
    b matches AssistantContentBlock::ToolCall(c) && c.id@ == id && c.name@ == name && match json_parse(args) {
        Some(v) => c.arguments == v,
        None => json_str(c.arguments) == Some(args),
    }
}

/// `b2` is the blocks of `r` with the tool call streaming in its open
/// tool-call block, if any, assembled and added.
pub open spec fn flushed(r: Reducer, b2: Seq<AssistantContentBlock>) -> bool {
    if r.state is InToolCallBlock {
        &&& b2.len() == r.blocks@.len() + 1
        &&& b2.drop_last() == r.blocks@
        &&& assembled_call(r.call_id@, r.call_name@, r.call_args@, b2.last())
    } else {
        b2 == r.blocks@
    }
}

/// `b2` is the blocks of `r`, with the streaming tool call added (see
/// `flushed`), followed by `x`.
pub open spec fn flushed_then(r: Reducer, b2: Seq<AssistantContentBlock>, x: AssistantContentBlock) -> bool {
    &&& b2.len() > 0
    &&& flushed(r, b2.drop_last())
    &&& b2.last() == x
}

/// The complete tool call `id` takes the place of the streamed pieces:
/// the open block is a tool-call block streaming the call `id`.
pub open spec fn completes_streamed_call(r: Reducer, id: String) -> bool {
    r.state is InToolCallBlock && r.call_id@ == id@
}

/// What feeding `chunk` to `r` does, `r2` being the reducer after it. A
/// new block gets the index `r.block_count`; the open block, if any,
/// stops first. Text and reasoning are assembled into the message's
/// blocks as they stream; the pieces of a streamed tool call are
/// gathered and, when its block stops, the call they make is added; a
/// complete tool call adds its block (taking the place of its streamed
/// pieces, where its block is the open one); the final chunk completes
/// the message with every block assembled.
pub open spec fn feed_effect(r: Reducer, chunk: AssistantChunk, r2: Reducer) -> bool {
    let s = r.state;
    let n = r.block_count;
    let stop = stop_events(s);
    let evs = added(r, r2);
    &&& extends(r, r2)
    &&& match chunk {
        AssistantChunk::Text(t) => match s {
            ReducerState::InTextBlock { index } => {
                &&& evs == seq![StreamEvent::ContentBlockDelta { index, delta: ContentDelta::Text(t) }]
                &&& r2.state == s
                &&& r2.block_count == n
                &&& text_appended(r.blocks@, r2.blocks@, t@)
            },
            _ => {
                &&& evs == stop + seq![
                    StreamEvent::ContentBlockStart { index: n, block: ContentBlockHeader::Text },
                    StreamEvent::ContentBlockDelta { index: n, delta: ContentDelta::Text(t) },
                ]
                &&& r2.state == ReducerState::InTextBlock { index: n }
                &&& r2.block_count == n + 1
                &&& flushed_then(r, r2.blocks@, AssistantContentBlock::Text(TextContent { text: t }))
            },
        },
        AssistantChunk::ReasoningDelta { reasoning, .. } => match s {
            ReducerState::InThinkingBlock { index } => {
                &&& evs == seq![
                    StreamEvent::ContentBlockDelta { index, delta: ContentDelta::Thinking(reasoning) },
                ]
                &&& r2.state == s
                &&& r2.block_count == n
                &&& thinking_appended(r.blocks@, r2.blocks@, reasoning@)
            },
            _ => {
                &&& evs == stop + seq![
                    StreamEvent::ContentBlockStart { index: n, block: ContentBlockHeader::Thinking },
                    StreamEvent::ContentBlockDelta { index: n, delta: ContentDelta::Thinking(reasoning) },
                ]
                &&& r2.state == ReducerState::InThinkingBlock { index: n }
                &&& r2.block_count == n + 1
                &&& flushed_then(
                    r,
                    r2.blocks@,
                    AssistantContentBlock::Thinking(ThinkingContent { thinking: reasoning, signature: None }),
                )
            },
        },
        AssistantChunk::Reasoning(parts) => {
            &&& evs == stop + seq![
                StreamEvent::ContentBlockStart { index: n, block: ContentBlockHeader::Thinking },
            ] + reasoning_deltas(parts@, n) + seq![StreamEvent::ContentBlockStop { index: n }]
            &&& r2.state == ReducerState::Idle
            &&& r2.block_count == n + 1
            &&& r2.blocks@.len() > 0
            &&& flushed(r, r2.blocks@.drop_last())
            &&& r2.blocks@.last() matches AssistantContentBlock::Thinking(c)
            &&& c.thinking@ == reasoning_text(parts@)
            &&& c.signature is None
        },
        AssistantChunk::ToolCallDelta { id, internal_call_id, content } => {
            if in_tool_call(s, internal_call_id) {
                &&& evs == seq![
                    StreamEvent::ContentBlockDelta { index: open_block(s)->0, delta: tool_delta(content) },
                ]
                &&& r2.state == s
                &&& r2.block_count == n
                &&& r2.blocks@ == r.blocks@
                &&& r2.call_id@ == r.call_id@
                &&& r2.call_name@ == r.call_name@ + piece_name(content)
                &&& r2.call_args@ == r.call_args@ + piece_args(content)
            } else {
                &&& evs == stop + seq![
                    StreamEvent::ContentBlockStart {
                        index: n,
                        block: ContentBlockHeader::ToolCall { id, name: None },
                    },
                    StreamEvent::ContentBlockDelta { index: n, delta: tool_delta(content) },
                ]
                &&& r2.state == ReducerState::InToolCallBlock { index: n, internal_call_id }
                &&& r2.block_count == n + 1
                &&& flushed(r, r2.blocks@)
                &&& r2.call_id@ == id@
                &&& r2.call_name@ == piece_name(content)
                &&& r2.call_args@ == piece_args(content)
            }
        },
        AssistantChunk::ToolCall { id, name, arguments } => {
            &&& evs == stop + seq![
                StreamEvent::ContentBlockStart {
                    index: n,
                    block: ContentBlockHeader::ToolCall { id, name: Some(name) },
                },
                evs[stop.len() as int + 1],
                StreamEvent::ContentBlockStop { index: n },
            ]
            &&& evs[stop.len() as int + 1] matches StreamEvent::ContentBlockDelta {
                index,
                delta: ContentDelta::ToolCallArguments(a),
            } && index == n && a@ == json_text(arguments)
            &&& r2.state == ReducerState::Idle
            &&& r2.block_count == n + 1
            &&& if completes_streamed_call(r, id) {
                r2.blocks@ == r.blocks@.push(AssistantContentBlock::ToolCall(ToolCallContent { id, name, arguments }))
            } else {
                flushed_then(r, r2.blocks@, AssistantContentBlock::ToolCall(ToolCallContent { id, name, arguments }))
            }
        },
        AssistantChunk::Final => {
            &&& evs == stop + seq![evs.last()]
            &&& evs.last() matches StreamEvent::MessageComplete { message } && flushed(r, message.content@)
            &&& r2.state == ReducerState::Complete
            &&& r2.block_count == n
            &&& r2.blocks@.len() == 0
        },
    }
}

// ---------------------------------------------------------------------
// The content-block life cycle
// ---------------------------------------------------------------------

/// Where a stream of events stands: the open block, if any; the index the
/// next block must get; whether the message has completed.
pub type Cursor = (Option<usize>, int, bool);

/// The cursor after one event, or `None` where the event breaks the life
/// cycle: nothing follows the complete message; a block starts only when
/// none is open, with the next unused index; deltas and the stop go to
/// the open block; the message completes only when no block is open.
/// (The reducer reports no stream error; the shell ends the stream on
/// one.)
pub open spec fn cycle_step(c: Cursor, e: StreamEvent) -> Option<Cursor> {
    if c.2 {
        None
    } else {
        match e {
            StreamEvent::ContentBlockStart { index, .. } => if c.0 is None && index == c.1 {
                Some((Some(index), c.1 + 1, false))
            } else {
                None
            },
            StreamEvent::ContentBlockDelta { index, .. } => if c.0 == Some(index) {
                Some(c)
            } else {
                None
            },
            StreamEvent::ContentBlockStop { index } => if c.0 == Some(index) {
                Some((None, c.1, false))
            } else {
                None
            },
            StreamEvent::MessageComplete { .. } => if c.0 is None {
                Some((None, c.1, true))
            } else {
                None
            },
            StreamEvent::StreamError { .. } => None,
        }
    }
}

/// The cursor after a sequence of events, or `None` where the sequence
/// breaks the life cycle.
pub open spec fn cycle(c: Cursor, evs: Seq<StreamEvent>) -> Option<Cursor>
    decreases evs.len(),
{
    if evs.len() == 0 {
        Some(c)
    } else {
        match cycle_step(c, evs[0]) {
            Some(c1) => cycle(c1, evs.drop_first()),
            None => None,
        }
    }
}

/// The cursor a reducer stands at.
pub open spec fn cursor_of(r: Reducer) -> Cursor {
    (open_block(r.state), r.block_count as int, r.state == ReducerState::Complete)
}

/// The cursor of a new stream.
pub open spec fn start_cursor() -> Cursor {
    (None, 0, false)
}

/// How many complete messages a sequence of events holds.
pub open spec fn completions(evs: Seq<StreamEvent>) -> nat
    decreases evs.len(),
{
    if evs.len() == 0 {
        0
    } else {
        (if evs[0] is MessageComplete { 1nat } else { 0nat }) + completions(evs.drop_first())
    }
}

/// The life cycle of a concatenation is that of its parts in turn.
pub proof fn lemma_cycle_concat(c: Cursor, a: Seq<StreamEvent>, b: Seq<StreamEvent>)
    ensures
        cycle(c, a + b) == match cycle(c, a) {
            Some(c1) => cycle(c1, b),
            None => None,
        },
    decreases a.len(),
{
    if a.len() == 0 {
        assert(a + b == b);
    } else {
        assert((a + b)[0] == a[0]);
        assert((a + b).drop_first() == a.drop_first() + b);
        match cycle_step(c, a[0]) {
            Some(c1) => {
                lemma_cycle_concat(c1, a.drop_first(), b);
            },
            None => {},
        }
    }
}

proof fn lemma_cycle_one(c: Cursor, e: StreamEvent)
    ensures
        cycle(c, seq![e]) == cycle_step(c, e),
{
    reveal_with_fuel(cycle, 2);
    assert(seq![e][0] == e);
    assert(seq![e].drop_first() =~= Seq::<StreamEvent>::empty());
}

proof fn lemma_cycle_two(c: Cursor, e1: StreamEvent, e2: StreamEvent)
    ensures
        cycle(c, seq![e1, e2]) == match cycle_step(c, e1) {
            Some(c1) => cycle_step(c1, e2),
            None => None,
        },
{
    lemma_cycle_concat(c, seq![e1], seq![e2]);
    assert(seq![e1] + seq![e2] == seq![e1, e2]);
    lemma_cycle_one(c, e1);
    match cycle_step(c, e1) {
        Some(c1) => lemma_cycle_one(c1, e2),
        None => {},
    }
}

proof fn lemma_cycle_deltas(parts: Seq<ReasoningPart>, c: Cursor, index: usize)
    requires
        c.0 == Some(index),
        !c.2,
    ensures
        cycle(c, reasoning_deltas(parts, index)) == Some(c),
    decreases parts.len(),
{
    if parts.len() > 0 {
        lemma_cycle_deltas(parts.drop_last(), c, index);
        let rest = reasoning_deltas(parts.drop_last(), index);
        match parts.last() {
            ReasoningPart::Text(t) => {
                let e = StreamEvent::ContentBlockDelta { index, delta: ContentDelta::Thinking(t) };
                lemma_cycle_concat(c, rest, seq![e]);
                assert(rest.push(e) == rest + seq![e]);
                lemma_cycle_one(c, e);
            },
            ReasoningPart::Summary(t) => {
                let e = StreamEvent::ContentBlockDelta { index, delta: ContentDelta::Thinking(t) };
                lemma_cycle_concat(c, rest, seq![e]);
                assert(rest.push(e) == rest + seq![e]);
                lemma_cycle_one(c, e);
            },
            ReasoningPart::Other => {},
        }
    }
}

proof fn lemma_cycle_stop(r: Reducer)
    requires
        r.state != ReducerState::Complete,
    ensures
        cycle(cursor_of(r), stop_events(r.state)) == Some((None::<usize>, r.block_count as int, false)),
{
    match open_block(r.state) {
        Some(i) => {
            lemma_cycle_one(cursor_of(r), StreamEvent::ContentBlockStop { index: i });
        },
        None => {},
    }
}

/// A sequence of events that keeps the life cycle holds one complete
/// message exactly when it completes the message, and then that message
/// is its last event.
pub proof fn lemma_cycle_completions(c: Cursor, evs: Seq<StreamEvent>, c2: Cursor)
    requires
        cycle(c, evs) == Some(c2),
        !c.2,
    ensures
        completions(evs) == (if c2.2 { 1nat } else { 0nat }),
        c2.2 ==> evs.len() > 0 && evs.last() is MessageComplete,
    decreases evs.len(),
{
    if evs.len() > 0 {
        let c1 = cycle_step(c, evs[0])->0;
        let rest = evs.drop_first();
        assert(cycle(c1, rest) == Some(c2));
        if c1.2 {
            if rest.len() > 0 {
                assert(cycle_step(c1, rest[0]) is None);
                assert(cycle(c1, rest) is None);
            }
            assert(rest.len() == 0);
            assert(completions(rest) == 0);
        } else {
            lemma_cycle_completions(c1, rest, c2);
            if c2.2 {
                assert(evs.last() == rest.last());
            }
        }
    }
}

/// Every feed keeps the life cycle: the events it adds stop the open
/// block before a new one starts, number the new block with the next
/// unused index, send deltas to the open block, and complete the message
/// only after the last stop; the cursor moves to that of the new reducer.
/// Feeding also keeps the reducer well formed.
pub proof fn lemma_feed_keeps_cycle(r: Reducer, chunk: AssistantChunk, r2: Reducer)
    requires
        r.wf(),
        r.state != ReducerState::Complete,
        feed_effect(r, chunk, r2),
    ensures
        cycle(cursor_of(r), added(r, r2)) == Some(cursor_of(r2)),
        r2.wf(),
{
    let n = r.block_count;
    let stop = stop_events(r.state);
    let evs = added(r, r2);
    let c0 = cursor_of(r);
    let cs: Cursor = (None, n as int, false);
    lemma_cycle_stop(r);
    match chunk {
        AssistantChunk::Text(t) => {
            match r.state {
                ReducerState::InTextBlock { index } => {
                    lemma_cycle_one(c0, evs[0]);
                    assert(r2.blocks@.last() == r2.blocks@[r2.blocks@.len() - 1]);
                },
                _ => {
                    let tail = seq![
                        StreamEvent::ContentBlockStart { index: n, block: ContentBlockHeader::Text },
                        StreamEvent::ContentBlockDelta { index: n, delta: ContentDelta::Text(t) },
                    ];
                    lemma_cycle_concat(c0, stop, tail);
                    lemma_cycle_two(cs, tail[0], tail[1]);
                },
            }
        },
        AssistantChunk::ReasoningDelta { reasoning, .. } => {
            match r.state {
                ReducerState::InThinkingBlock { index } => {
                    lemma_cycle_one(c0, evs[0]);
                },
                _ => {
                    let tail = seq![
                        StreamEvent::ContentBlockStart { index: n, block: ContentBlockHeader::Thinking },
                        StreamEvent::ContentBlockDelta { index: n, delta: ContentDelta::Thinking(reasoning) },
                    ];
                    lemma_cycle_concat(c0, stop, tail);
                    lemma_cycle_two(cs, tail[0], tail[1]);
                },
            }
        },
        AssistantChunk::Reasoning(parts) => {
            let start = seq![
                StreamEvent::ContentBlockStart { index: n, block: ContentBlockHeader::Thinking },
            ];
            let ds = reasoning_deltas(parts@, n);
            let end = seq![StreamEvent::ContentBlockStop { index: n }];
            let co: Cursor = (Some(n), n + 1, false);
            lemma_cycle_concat(c0, stop + start + ds, end);
            lemma_cycle_concat(c0, stop + start, ds);
            lemma_cycle_concat(c0, stop, start);
            lemma_cycle_one(cs, start[0]);
            lemma_cycle_deltas(parts@, co, n);
            lemma_cycle_one(co, end[0]);
        },
        AssistantChunk::ToolCallDelta { id, internal_call_id, content } => {
            if in_tool_call(r.state, internal_call_id) {
                lemma_cycle_one(c0, evs[0]);
            } else {
                let tail = seq![
                    StreamEvent::ContentBlockStart {
                        index: n,
                        block: ContentBlockHeader::ToolCall { id, name: None },
                    },
                    StreamEvent::ContentBlockDelta { index: n, delta: tool_delta(content) },
                ];
                lemma_cycle_concat(c0, stop, tail);
                lemma_cycle_two(cs, tail[0], tail[1]);
            }
        },
        AssistantChunk::ToolCall { id, name, arguments } => {
            let k = stop.len() as int;
            let tail = evs.subrange(k, evs.len() as int);
            assert(evs == stop + tail);
            lemma_cycle_concat(c0, stop, tail);
            let t2 = tail.subrange(1, 3);
            assert(tail == seq![tail[0]] + t2);
            lemma_cycle_concat(cs, seq![tail[0]], t2);
            lemma_cycle_one(cs, tail[0]);
            assert(t2 == seq![t2[0], t2[1]]);
            lemma_cycle_two((Some(n), n + 1, false), t2[0], t2[1]);
        },
        AssistantChunk::Final => {
            let k = stop.len() as int;
            let tail = evs.subrange(k, evs.len() as int);
            assert(evs == stop + tail);
            lemma_cycle_concat(c0, stop, tail);
            assert(tail == seq![tail[0]]);
            lemma_cycle_one(cs, tail[0]);
        },
    }
}

/// A run of feeds: `rs[0]` is fed `chunks[0]` and becomes `rs[1]`, and so
/// on.
pub open spec fn feed_run(rs: Seq<Reducer>, chunks: Seq<AssistantChunk>) -> bool {
    &&& rs.len() == chunks.len() + 1
    &&& forall|i: int| 0 <= i < chunks.len() ==> feed_effect(#[trigger] rs[i], chunks[i], rs[i + 1])
}

/// `r` is a new reducer.
pub open spec fn is_new(r: Reducer) -> bool {
    &&& r.state == ReducerState::Idle
    &&& r.pending@.len() == 0
    &&& r.blocks@.len() == 0
    &&& r.block_count == 0
}

proof fn lemma_run_prefix(rs: Seq<Reducer>, chunks: Seq<AssistantChunk>)
    requires
        feed_run(rs, chunks),
        chunks.len() > 0,
    ensures
        feed_run(rs.drop_last(), chunks.drop_last()),
        rs.drop_last()[0] == rs[0],
        rs.drop_last().last() == rs[chunks.len() - 1],
        feed_effect(rs[chunks.len() - 1], chunks.last(), rs.last()),
{
    let n = chunks.len() - 1;
    let r2 = rs.drop_last();
    let c2 = chunks.drop_last();
    assert forall|i: int| 0 <= i < c2.len() implies feed_effect(#[trigger] r2[i], c2[i], r2[i + 1]) by {
        assert(feed_effect(rs[i], chunks[i], rs[i + 1]));
    }
    assert(feed_effect(rs[n], chunks[n], rs[n + 1]));
}

/// However many chunks a new reducer is fed (none after the final one),
/// the events pending follow the content-block life cycle: blocks are
/// numbered 0, 1, 2, ... as they start, none is reused; each block stops
/// before the next starts; only the last block may still be open; the
/// message completes at most once, after the stop of every block, and
/// nothing follows it. After the final chunk exactly one complete
/// message is pending, and it is the last event.
pub proof fn law_stream_follows_block_life_cycle(rs: Seq<Reducer>, chunks: Seq<AssistantChunk>)
    requires
        feed_run(rs, chunks),
        is_new(rs[0]),
        forall|i: int| 0 <= i < chunks.len() ==> (#[trigger] rs[i]).state != ReducerState::Complete,
    ensures
        rs.last().wf(),
        cycle(start_cursor(), rs.last().pending@) == Some(cursor_of(rs.last())),
        completions(rs.last().pending@) == (if rs.last().state == ReducerState::Complete { 1nat } else { 0nat }),
        rs.last().state == ReducerState::Complete ==> rs.last().pending@.last() is MessageComplete,
    decreases chunks.len(),
{
    if chunks.len() == 0 {
        assert(cycle(start_cursor(), rs[0].pending@) == Some(start_cursor()));
    } else {
        let n = chunks.len() - 1;
        lemma_run_prefix(rs, chunks);
        let r2 = rs.drop_last();
        assert forall|i: int| 0 <= i < chunks.drop_last().len() implies (#[trigger] r2[i]).state
            != ReducerState::Complete by {
            assert(r2[i] == rs[i]);
        }
        law_stream_follows_block_life_cycle(r2, chunks.drop_last());
        let a = rs[n];
        let b = rs.last();
        assert(a.state != ReducerState::Complete);
        lemma_feed_keeps_cycle(a, chunks.last(), b);
        assert(b.pending@ == a.pending@ + added(a, b));
        lemma_cycle_concat(start_cursor(), a.pending@, added(a, b));
    }
    lemma_cycle_completions(start_cursor(), rs.last().pending@, cursor_of(rs.last()));
}

/// The text of a message: its text blocks, concatenated in order (what
/// `AssistantMessage::extract_text` returns).
pub open spec fn message_text(blocks: Seq<AssistantContentBlock>) -> Seq<char> {
    join_seq(assistant_texts(blocks), seq![])
}

/// The reasoning of a message: its reasoning blocks, concatenated in
/// order.
pub open spec fn message_thinking(blocks: Seq<AssistantContentBlock>) -> Seq<char>
    decreases blocks.len(),
{
    if blocks.len() == 0 {
        seq![]
    } else {
        message_thinking(blocks.drop_last()) + match blocks.last() {
            AssistantContentBlock::Thinking(t) => t.thinking@,
            _ => seq![],
        }
    }
}

/// The tool-call blocks of a message, in order.
pub open spec fn message_tool_calls(blocks: Seq<AssistantContentBlock>) -> Seq<AssistantContentBlock>
    decreases blocks.len(),
{
    if blocks.len() == 0 {
        seq![]
    } else {
        let rest = message_tool_calls(blocks.drop_last());
        match blocks.last() {
            AssistantContentBlock::ToolCall(_) => rest.push(blocks.last()),
            _ => rest,
        }
    }
}

/// The text a chunk streams: that of a text chunk, else none.
pub open spec fn chunk_text(c: AssistantChunk) -> Seq<char> {
    match c {
        AssistantChunk::Text(t) => t@,
        _ => seq![],
    }
}

/// The reasoning a chunk streams: a reasoning piece, or the text and
/// summary parts of a complete reasoning item.
pub open spec fn chunk_thinking(c: AssistantChunk) -> Seq<char> {
    match c {
        AssistantChunk::ReasoningDelta { reasoning, .. } => reasoning@,
        AssistantChunk::Reasoning(parts) => reasoning_text(parts@),
        _ => seq![],
    }
}

/// The text that a sequence of chunks streams.
pub open spec fn streamed_text(chunks: Seq<AssistantChunk>) -> Seq<char>
    decreases chunks.len(),
{
    if chunks.len() == 0 {
        seq![]
    } else {
        streamed_text(chunks.drop_last()) + chunk_text(chunks.last())
    }
}

/// The reasoning that a sequence of chunks streams.
pub open spec fn streamed_thinking(chunks: Seq<AssistantChunk>) -> Seq<char>
    decreases chunks.len(),
{
    if chunks.len() == 0 {
        seq![]
    } else {
        streamed_thinking(chunks.drop_last()) + chunk_thinking(chunks.last())
    }
}

/// What a tool call of the message must be: its id, its name, and its
/// arguments: the given JSON value, or, where none is given, a JSON
/// string holding the given text.
pub type CallSpec = (Seq<char>, Seq<char>, Option<serde_json::Value>, Seq<char>);

/// A tool call streaming in pieces: its id, its internal id, and the
/// name and argument text gathered so far.
pub type StreamingCall = (Seq<char>, Seq<char>, Seq<char>, Seq<char>);

/// The tool call that the pieces of a streaming call make.
pub open spec fn streamed_call(o: StreamingCall) -> CallSpec {
    (o.0, o.2, json_parse(o.3), o.3)
}

/// The call that a streaming call, if any, adds when its block stops.
pub open spec fn flush_calls(o: Option<StreamingCall>) -> Seq<CallSpec> {
    match o {
        Some(x) => seq![streamed_call(x)],
        None => seq![],
    }
}

/// The tool calls a sequence of chunks makes, in order, with the call
/// still streaming at its end, if any: a piece of the streaming call
/// (same internal id) adds to it; a piece of another call, or any other
/// chunk, ends the streaming call, which then joins the calls; a complete
/// tool call joins the calls, taking the place of the streaming call of
/// the same id.
pub open spec fn streamed_calls(chunks: Seq<AssistantChunk>) -> (Seq<CallSpec>, Option<StreamingCall>)
    decreases chunks.len(),
{
    if chunks.len() == 0 {
        (seq![], None)
    } else {
        let prev = streamed_calls(chunks.drop_last());
        let d = prev.0;
        let o = prev.1;
        match chunks.last() {
            AssistantChunk::ToolCallDelta { id, internal_call_id, content } => {
                if o is Some && (o->0).1 == internal_call_id@ {
                    let x = o->0;
                    (d, Some((x.0, x.1, x.2 + piece_name(content), x.3 + piece_args(content))))
                } else {
                    (d + flush_calls(o), Some((id@, internal_call_id@, piece_name(content), piece_args(content))))
                }
            },
            AssistantChunk::ToolCall { id, name, arguments } => {
                let call: CallSpec = (id@, name@, Some(arguments), seq![]);
                if o is Some && (o->0).0 == id@ {
                    (d.push(call), None)
                } else {
                    ((d + flush_calls(o)).push(call), None)
                }
            },
            _ => (d + flush_calls(o), None),
        }
    }
}

/// `b` is a tool-call block as `c` says.
pub open spec fn call_matches(b: AssistantContentBlock, c: CallSpec) -> bool {
    b matches AssistantContentBlock::ToolCall(t) && t.id@ == c.0 && t.name@ == c.1 && match c.2 {
        Some(v) => t.arguments == v,
        None => json_str(t.arguments) == Some(c.3),
    }
}

/// The tool-call blocks `bs` are, one for one and in order, as `cs` says.
pub open spec fn calls_match(bs: Seq<AssistantContentBlock>, cs: Seq<CallSpec>) -> bool {
    &&& bs.len() == cs.len()
    &&& forall|i: int| 0 <= i < bs.len() ==> call_matches(#[trigger] bs[i], cs[i])
}

/// The reducer has assembled the tool calls `d` and is streaming `o`.
pub open spec fn calls_state(r: Reducer, d: Seq<CallSpec>, o: Option<StreamingCall>) -> bool {
    &&& calls_match(message_tool_calls(r.blocks@), d)
    &&& match o {
        Some(x) => {
            &&& r.state matches ReducerState::InToolCallBlock { internal_call_id, .. } && internal_call_id@ == x.1
            &&& r.call_id@ == x.0
            &&& r.call_name@ == x.2
            &&& r.call_args@ == x.3
        },
        None => !(r.state is InToolCallBlock),
    }
}

proof fn lemma_join_empty_push(p: Seq<Seq<char>>, x: Seq<char>)
    ensures
        join_seq(p.push(x), seq![]) == join_seq(p, seq![]) + x,
{
    let q = p.push(x);
    assert(q.drop_last() == p);
    if p.len() == 0 {
        assert(q.len() == 1);
        assert(join_seq(p, seq![]) + x =~= x);
    } else {
        assert(join_seq(q, seq![]) == join_seq(p, seq![]) + seq![] + x);
        assert(join_seq(p, seq![]) + seq![] =~= join_seq(p, seq![]));
    }
}

proof fn lemma_calls_push(bs: Seq<AssistantContentBlock>, cs: Seq<CallSpec>, b: AssistantContentBlock, c: CallSpec)
    requires
        calls_match(bs, cs),
        call_matches(b, c),
    ensures
        calls_match(bs.push(b), cs.push(c)),
{
    assert forall|i: int| 0 <= i < bs.push(b).len() implies call_matches(#[trigger] bs.push(b)[i], cs.push(c)[i]) by {
        if i < bs.len() {
            assert(bs.push(b)[i] == bs[i]);
            assert(cs.push(c)[i] == cs[i]);
        }
    }
}

/// Adding the streaming call, if any, to the blocks keeps the text and
/// the reasoning, and adds the call to the tool calls.
proof fn lemma_flush(r: Reducer, f: Seq<AssistantContentBlock>, d: Seq<CallSpec>, o: Option<StreamingCall>)
    requires
        flushed(r, f),
        calls_state(r, d, o),
    ensures
        message_text(f) == message_text(r.blocks@),
        message_thinking(f) == message_thinking(r.blocks@),
        calls_match(message_tool_calls(f), d + flush_calls(o)),
{
    if r.state is InToolCallBlock {
        let x = o->0;
        assert(f.drop_last() == r.blocks@);
        assert(assistant_texts(f) == assistant_texts(r.blocks@));
        assert(message_thinking(f) =~= message_thinking(r.blocks@) + Seq::<char>::empty());
        assert(message_tool_calls(f) == message_tool_calls(r.blocks@).push(f.last()));
        assert(call_matches(f.last(), streamed_call(x)));
        lemma_calls_push(message_tool_calls(r.blocks@), d, f.last(), streamed_call(x));
        assert(d + flush_calls(o) =~= d.push(streamed_call(x)));
    } else {
        assert(d + flush_calls(o) =~= d);
    }
}

/// Adding a block other than a tool call keeps the tool calls.
proof fn lemma_push_other(f: Seq<AssistantContentBlock>, x: AssistantContentBlock)
    requires
        !(x is ToolCall),
    ensures
        message_tool_calls(f.push(x)) == message_tool_calls(f),
{
    assert(f.push(x).drop_last() == f);
}

/// What one feed adds to the message being assembled: the text, the
/// reasoning and the tool calls the chunk streams.
#[verifier::rlimit(60)]
proof fn lemma_feed_content(r: Reducer, chunk: AssistantChunk, r2: Reducer, cs: Seq<AssistantChunk>)
    requires
        feed_effect(r, chunk, r2),
        !(chunk is Final),
        r.state != ReducerState::Complete,
        calls_state(r, streamed_calls(cs).0, streamed_calls(cs).1),
    ensures
        message_text(r2.blocks@) == message_text(r.blocks@) + chunk_text(chunk),
        message_thinking(r2.blocks@) == message_thinking(r.blocks@) + chunk_thinking(chunk),
        calls_state(r2, streamed_calls(cs.push(chunk)).0, streamed_calls(cs.push(chunk)).1),
        r2.state != ReducerState::Complete,
{
    let b = r.blocks@;
    let b2 = r2.blocks@;
    let e = Seq::<char>::empty();
    let d = streamed_calls(cs).0;
    let o = streamed_calls(cs).1;
    let cs2 = cs.push(chunk);
    assert(cs2.drop_last() == cs);
    assert(cs2.last() == chunk);
    match chunk {
        AssistantChunk::Text(t) => {
            match r.state {
                ReducerState::InTextBlock { .. } => {
                    let c0 = b.last()->Text_0;
                    let c = b2.last()->Text_0;
                    assert(assistant_texts(b) == assistant_texts(b.drop_last()).push(c0.text@));
                    assert(assistant_texts(b2) == assistant_texts(b2.drop_last()).push(c.text@));
                    lemma_join_empty_push(assistant_texts(b.drop_last()), c0.text@);
                    lemma_join_empty_push(assistant_texts(b.drop_last()), c.text@);
                    assert(message_text(b2) =~= message_text(b) + chunk_text(chunk));
                    assert(message_thinking(b) =~= message_thinking(b.drop_last()) + e);
                    assert(message_thinking(b2) =~= message_thinking(b2.drop_last()) + e);
                    assert(message_tool_calls(b2) == message_tool_calls(b.drop_last()));
                    assert(message_tool_calls(b) == message_tool_calls(b.drop_last()));
                    assert(d + flush_calls(o) =~= d);
                },
                _ => {
                    let f = b2.drop_last();
                    lemma_flush(r, f, d, o);
                    assert(b2 == f.push(b2.last()));
                    lemma_join_empty_push(assistant_texts(f), t@);
                    assert(message_thinking(b2) =~= message_thinking(f) + e);
                    lemma_push_other(f, b2.last());
                },
            }
            assert(message_thinking(b2) =~= message_thinking(b) + chunk_thinking(chunk));
        },
        AssistantChunk::ReasoningDelta { reasoning, .. } => {
            match r.state {
                ReducerState::InThinkingBlock { .. } => {
                    let c0 = b.last()->Thinking_0;
                    let c = b2.last()->Thinking_0;
                    assert(assistant_texts(b) == assistant_texts(b.drop_last()));
                    assert(assistant_texts(b2) == assistant_texts(b2.drop_last()));
                    assert(message_thinking(b) == message_thinking(b.drop_last()) + c0.thinking@);
                    assert(message_thinking(b2) == message_thinking(b2.drop_last()) + c.thinking@);
                    assert(message_thinking(b2) =~= message_thinking(b) + chunk_thinking(chunk));
                    assert(message_tool_calls(b2) == message_tool_calls(b.drop_last()));
                    assert(message_tool_calls(b) == message_tool_calls(b.drop_last()));
                    assert(d + flush_calls(o) =~= d);
                },
                _ => {
                    let f = b2.drop_last();
                    lemma_flush(r, f, d, o);
                    assert(b2 == f.push(b2.last()));
                    assert(assistant_texts(b2) == assistant_texts(f));
                    assert(message_thinking(b2) =~= message_thinking(b) + chunk_thinking(chunk));
                    lemma_push_other(f, b2.last());
                },
            }
            assert(message_text(b2) =~= message_text(b) + chunk_text(chunk));
        },
        AssistantChunk::Reasoning(_) => {
            let f = b2.drop_last();
            lemma_flush(r, f, d, o);
            assert(b2 == f.push(b2.last()));
            assert(assistant_texts(b2) == assistant_texts(f));
            assert(message_text(b2) =~= message_text(b) + chunk_text(chunk));
            assert(message_thinking(b2) =~= message_thinking(b) + chunk_thinking(chunk));
            lemma_push_other(f, b2.last());
        },
        AssistantChunk::ToolCallDelta { id, internal_call_id, content } => {
            if in_tool_call(r.state, internal_call_id) {
                assert(o is Some && (o->0).1 == internal_call_id@);
            } else {
                if o is Some {
                    assert((o->0).1 != internal_call_id@);
                }
                lemma_flush(r, b2, d, o);
            }
            assert(message_text(b2) =~= message_text(b) + chunk_text(chunk));
            assert(message_thinking(b2) =~= message_thinking(b) + chunk_thinking(chunk));
        },
        AssistantChunk::ToolCall { id, name, arguments } => {
            let x = b2.last();
            let call: CallSpec = (id@, name@, Some(arguments), seq![]);
            assert(call_matches(x, call));
            if completes_streamed_call(r, id) {
                assert(o is Some && (o->0).0 == id@);
                assert(b2.drop_last() == b);
                assert(assistant_texts(b2) == assistant_texts(b));
                assert(message_thinking(b2) =~= message_thinking(b) + e);
                assert(message_tool_calls(b2) == message_tool_calls(b).push(x));
                lemma_calls_push(message_tool_calls(b), d, x, call);
            } else {
                if o is Some {
                    assert((o->0).0 != id@);
                }
                let f = b2.drop_last();
                lemma_flush(r, f, d, o);
                assert(b2 == f.push(x));
                assert(assistant_texts(b2) == assistant_texts(f));
                assert(message_thinking(b2) =~= message_thinking(f) + e);
                assert(message_tool_calls(b2) == message_tool_calls(f).push(x));
                lemma_calls_push(message_tool_calls(f), d + flush_calls(o), x, call);
            }
            assert(message_text(b2) =~= message_text(b) + chunk_text(chunk));
            assert(message_thinking(b2) =~= message_thinking(b) + chunk_thinking(chunk));
        },
        AssistantChunk::Final => {},
    }
}

/// Until the reply ends, the message a new reducer assembles holds
/// everything streamed so far, in order: its text blocks, concatenated,
/// are the text chunks fed, concatenated; likewise its reasoning blocks
/// and the reasoning fed; its tool calls are the calls made so far (see
/// `streamed_calls`), and the call still streaming is the one gathered in
/// the open tool-call block.
#[verifier::rlimit(40)]
pub proof fn law_message_holds_streamed_content(rs: Seq<Reducer>, chunks: Seq<AssistantChunk>)
    requires
        feed_run(rs, chunks),
        is_new(rs[0]),
        forall|i: int| 0 <= i < chunks.len() ==> !(#[trigger] chunks[i] is Final),
    ensures
        message_text(rs.last().blocks@) == streamed_text(chunks),
        message_thinking(rs.last().blocks@) == streamed_thinking(chunks),
        calls_state(rs.last(), streamed_calls(chunks).0, streamed_calls(chunks).1),
        rs.last().state != ReducerState::Complete,
    decreases chunks.len(),
{
    if chunks.len() == 0 {
        assert(rs[0].blocks@ =~= Seq::<AssistantContentBlock>::empty());
        assert(message_tool_calls(rs[0].blocks@) =~= Seq::<AssistantContentBlock>::empty());
    } else {
        let n = chunks.len() - 1;
        lemma_run_prefix(rs, chunks);
        let c2 = chunks.drop_last();
        assert forall|i: int| 0 <= i < c2.len() implies !(#[trigger] c2[i] is Final) by {
            assert(c2[i] == chunks[i]);
        }
        law_message_holds_streamed_content(rs.drop_last(), c2);
        assert(!(chunks[n] is Final));
        lemma_feed_content(rs[n], chunks.last(), rs.last(), c2);
        assert(c2.push(chunks.last()) == chunks);
    }
}

/// The complete message carries the fully assembled reply: when a new
/// reducer has been fed a run of chunks ending in the final one, the last
/// pending event is the complete message; its text and its reasoning are
/// exactly those streamed, in order, and its tool calls are those the
/// chunks make (see `streamed_calls`), a call still streaming included.
pub proof fn law_complete_message_is_assembled(rs: Seq<Reducer>, chunks: Seq<AssistantChunk>)
    requires
        feed_run(rs, chunks),
        is_new(rs[0]),
        chunks.len() > 0,
        chunks.last() is Final,
        forall|i: int| 0 <= i < chunks.len() - 1 ==> !(#[trigger] chunks[i] is Final),
    ensures
        rs.last().pending@.len() > 0,
        rs.last().pending@.last() matches StreamEvent::MessageComplete { message } && {
            &&& message_text(message.content@) == streamed_text(chunks)
            &&& message_thinking(message.content@) == streamed_thinking(chunks)
            &&& calls_match(message_tool_calls(message.content@), streamed_calls(chunks).0)
        },
{
    let n = chunks.len() - 1;
    lemma_run_prefix(rs, chunks);
    let c2 = chunks.drop_last();
    assert forall|i: int| 0 <= i < c2.len() implies !(#[trigger] c2[i] is Final) by {
        assert(c2[i] == chunks[i]);
    }
    law_message_holds_streamed_content(rs.drop_last(), c2);
    let a = rs[n];
    let b = rs.last();
    assert(feed_effect(a, chunks.last(), b));
    let evs = added(a, b);
    assert(b.pending@.last() == evs.last());
    let message = evs.last()->MessageComplete_message;
    lemma_flush(a, message.content@, streamed_calls(c2).0, streamed_calls(c2).1);
    assert(streamed_text(chunks) =~= streamed_text(c2));
    assert(streamed_thinking(chunks) =~= streamed_thinking(c2));
}

// ---------------------------------------------------------------------
// The reducer
// ---------------------------------------------------------------------

/// `r2` is `r` after the reply ended: the open block's stop, then the
/// complete message `message`, became pending, and the reducer is
/// complete.
pub open spec fn finished_with(r: Reducer, r2: Reducer, message: AssistantMessage) -> bool {
    &&& r2.pending@ == r.pending@ + stop_events(r.state) + seq![StreamEvent::MessageComplete { message }]
    &&& r2.state == ReducerState::Complete
    &&& r2.block_count == r.block_count
}

/// `r2` holds what `r` holds but for its pending events and blocks.
pub open spec fn same_but_events_and_blocks(r: Reducer, r2: Reducer) -> bool {
    &&& r2.state == r.state
    &&& r2.block_count == r.block_count
    &&& r2.call_id == r.call_id
    &&& r2.call_name == r.call_name
    &&& r2.call_args == r.call_args
}

impl Reducer {
    /// A reducer with no open block, no pending events and no blocks.
    pub fn new() -> (r: Reducer)
        ensures
            is_new(r),
            r.wf(),
    {
        Reducer {
            state: ReducerState::Idle,
            pending: std::collections::VecDeque::new(),
            blocks: Vec::new(),
            block_count: 0,
            call_id: String::new(),
            call_name: String::new(),
            call_args: String::new(),
        }
    }

    /// Whether a chunk can be fed: there must be room for one more block
    /// index.
    pub fn can_feed(&self) -> (b: bool)
        ensures
            b == (self.block_count < usize::MAX),
    {
        self.block_count < usize::MAX
    }

    /// Whether the final message has been produced.
    pub fn is_complete(&self) -> (b: bool)
        ensures
            b == (self.state == ReducerState::Complete),
    {
        match self.state {
            ReducerState::Complete => true,
            _ => false,
        }
    }

    /// Queues the stop event of the open block, if any.
    fn push_stop(&mut self)
        ensures
            same_but_events_and_blocks(*old(self), *final(self)),
            final(self).blocks == old(self).blocks,
            final(self).pending@ == old(self).pending@ + stop_events(old(self).state),
    {
        match self.state.block_index() {
            Some(index) => {
                self.pending.push_back(StreamEvent::ContentBlockStop { index });
                assert(self.pending@ == old(self).pending@ + stop_events(old(self).state));
            },
            None => {
                assert(old(self).pending@ + stop_events(old(self).state) == old(self).pending@);
            },
        }
    }

    /// Adds to the message the tool call streaming in the open tool-call
    /// block, if any, assembled from its pieces.
    fn flush_call(&mut self)
        ensures
            same_but_events_and_blocks(*old(self), *final(self)),
            final(self).pending == old(self).pending,
            flushed(*old(self), final(self).blocks@),
    {
        match &self.state {
            ReducerState::InToolCallBlock { .. } => {
                let arguments = match parse_json_value(self.call_args.as_str()) {
                    Some(v) => v,
                    None => json_string_value(self.call_args.as_str()),
                };
                let id = self.call_id.clone();
                let name = self.call_name.clone();
                self.blocks.push(AssistantContentBlock::ToolCall(ToolCallContent { id, name, arguments }));
                assert(self.blocks@.drop_last() == old(self).blocks@);
            },
            _ => {},
        }
    }

    /// Closes the open block, if any: its stop event is queued and, where
    /// it streams a tool call, the call is added to the message.
    pub fn stop_current_block(&mut self)
        ensures
            same_but_events_and_blocks(*old(self), *final(self)),
            flushed(*old(self), final(self).blocks@),
            final(self).pending@ == old(self).pending@ + stop_events(old(self).state),
    {
        self.push_stop();
        self.flush_call();
    }

    /// Takes the next pending event, if any.
    pub fn next_pending(&mut self) -> (e: Option<StreamEvent>)
        ensures
            same_but_events_and_blocks(*old(self), *final(self)),
            final(self).blocks == old(self).blocks,
            old(self).pending@.len() == 0 ==> e is None && final(self).pending@ == old(self).pending@,
            old(self).pending@.len() > 0 ==> e == Some(old(self).pending@[0])
                && final(self).pending@ == old(self).pending@.drop_first(),
    {
        let e = self.pending.pop_front();
        proof {
            if old(self).pending@.len() > 0 {
                assert(self.pending@ =~= old(self).pending@.drop_first());
            }
        }
        e
    }

    /// Starts a new block: the open block stops (its streamed tool call,
    /// if any, added to the message where `flush` says so), and the block
    /// with the next index starts with the given header.
    fn start_block(&mut self, header: ContentBlockHeader, flush: bool) -> (n: usize)
        requires
            old(self).block_count < usize::MAX,
        ensures
            n == old(self).block_count,
            final(self).block_count == n + 1,
            final(self).state == old(self).state,
            final(self).call_id == old(self).call_id,
            final(self).call_name == old(self).call_name,
            final(self).call_args == old(self).call_args,
            flush ==> flushed(*old(self), final(self).blocks@),
            !flush ==> final(self).blocks == old(self).blocks,
            final(self).pending@ == old(self).pending@ + stop_events(old(self).state) + seq![
                StreamEvent::ContentBlockStart { index: n, block: header },
            ],
    {
        self.push_stop();
        if flush {
            self.flush_call();
        }
        let n = self.block_count;
        self.block_count = n + 1;
        self.pending.push_back(StreamEvent::ContentBlockStart { index: n, block: header });
        n
    }

    /// Appends `t` to the text of the last block, an open text block.
    fn append_text(&mut self, t: &str)
        requires
            old(self).blocks@.len() > 0,
            old(self).blocks@.last() is Text,
        ensures
            same_but_events_and_blocks(*old(self), *final(self)),
            final(self).pending == old(self).pending,
            text_appended(old(self).blocks@, final(self).blocks@, t@),
    {
        match self.blocks.pop() {
            Some(AssistantContentBlock::Text(mut c)) => {
                c.text.append(t);
                self.blocks.push(AssistantContentBlock::Text(c));
                assert(self.blocks@.drop_last() =~= old(self).blocks@.drop_last());
            },
            Some(other) => {
                self.blocks.push(other);
            },
            None => {},
        }
    }

    /// Appends `t` to the reasoning of the last block, an open reasoning
    /// block.
    fn append_thinking(&mut self, t: &str)
        requires
            old(self).blocks@.len() > 0,
            old(self).blocks@.last() is Thinking,
        ensures
            same_but_events_and_blocks(*old(self), *final(self)),
            final(self).pending == old(self).pending,
            thinking_appended(old(self).blocks@, final(self).blocks@, t@),
    {
        match self.blocks.pop() {
            Some(AssistantContentBlock::Thinking(mut c)) => {
                c.thinking.append(t);
                self.blocks.push(AssistantContentBlock::Thinking(c));
                assert(self.blocks@.drop_last() =~= old(self).blocks@.drop_last());
            },
            Some(other) => {
                self.blocks.push(other);
            },
            None => {},
        }
    }

    /// Adds a piece of the streaming tool call to its name or its
    /// argument text.
    fn gather_piece(&mut self, content: &ToolCallDeltaContent)
        ensures
            final(self).state == old(self).state,
            final(self).block_count == old(self).block_count,
            final(self).pending == old(self).pending,
            final(self).blocks == old(self).blocks,
            final(self).call_id == old(self).call_id,
            final(self).call_name@ == old(self).call_name@ + piece_name(*content),
            final(self).call_args@ == old(self).call_args@ + piece_args(*content),
    {
        match content {
            ToolCallDeltaContent::Name(n) => {
                self.call_name.append(n.as_str());
                assert(self.call_args@ =~= old(self).call_args@ + piece_args(*content));
            },
            ToolCallDeltaContent::Delta(a) => {
                self.call_args.append(a.as_str());
                assert(self.call_name@ =~= old(self).call_name@ + piece_name(*content));
            },
        }
    }

    /// Feeds one chunk of the model's reply.
    #[verifier::rlimit(80)]
    pub fn feed(&mut self, chunk: AssistantChunk)
        requires
            old(self).wf(),
            old(self).block_count < usize::MAX,
        ensures
            feed_effect(*old(self), chunk, *final(self)),
            final(self).wf(),
    {
        let ghost r0 = *self;
        let ghost p0 = self.pending@;
        let ghost s0 = self.state;
        let ghost ch = chunk;
        match chunk {
            AssistantChunk::Text(text) => {
                match &self.state {
                    ReducerState::InTextBlock { index } => {
                        let i = *index;
                        self.append_text(text.as_str());
                        self.pending.push_back(StreamEvent::ContentBlockDelta { index: i, delta: ContentDelta::Text(text) });
                    },
                    _ => {
                        let n = self.start_block(ContentBlockHeader::Text, true);
                        self.state = ReducerState::InTextBlock { index: n };
                        let copy = text.clone();
                        let ghost fl = self.blocks@;
                        self.blocks.push(AssistantContentBlock::Text(TextContent { text: copy }));
                        assert(self.blocks@.drop_last() == fl);
                        self.pending.push_back(StreamEvent::ContentBlockDelta { index: n, delta: ContentDelta::Text(text) });
                    },
                }
            },
            AssistantChunk::ReasoningDelta { id: _, reasoning } => {
                match &self.state {
                    ReducerState::InThinkingBlock { index } => {
                        let i = *index;
                        self.append_thinking(reasoning.as_str());
                        self.pending.push_back(StreamEvent::ContentBlockDelta { index: i, delta: ContentDelta::Thinking(reasoning) });
                    },
                    _ => {
                        let n = self.start_block(ContentBlockHeader::Thinking, true);
                        self.state = ReducerState::InThinkingBlock { index: n };
                        let copy = reasoning.clone();
                        let ghost fl = self.blocks@;
                        self.blocks.push(AssistantContentBlock::Thinking(ThinkingContent { thinking: copy, signature: None }));
                        assert(self.blocks@.drop_last() == fl);
                        self.pending.push_back(StreamEvent::ContentBlockDelta { index: n, delta: ContentDelta::Thinking(reasoning) });
                    },
                }
            },
            AssistantChunk::Reasoning(parts) => {
                let n = self.start_block(ContentBlockHeader::Thinking, true);
                self.state = ReducerState::Idle;
                let ghost base = self.pending@;
                let ghost fl = self.blocks@;
                let mut thinking = String::new();
                let mut k: usize = 0;
                while k < parts.len()
                    invariant
                        k <= parts@.len(),
                        self.pending@ == base + reasoning_deltas(parts@.subrange(0, k as int), n),
                        thinking@ == reasoning_text(parts@.subrange(0, k as int)),
                        self.state == ReducerState::Idle,
                        self.blocks@ == fl,
                        self.block_count == n + 1,
                    decreases parts@.len() - k,
                {
                    assert(parts@.subrange(0, k + 1).drop_last() == parts@.subrange(0, k as int));
                    match &parts[k] {
                        ReasoningPart::Text(t) => {
                            thinking.append(t.as_str());
                            self.pending.push_back(StreamEvent::ContentBlockDelta { index: n, delta: ContentDelta::Thinking(t.clone()) });
                        },
                        ReasoningPart::Summary(t) => {
                            thinking.append(t.as_str());
                            self.pending.push_back(StreamEvent::ContentBlockDelta { index: n, delta: ContentDelta::Thinking(t.clone()) });
                        },
                        ReasoningPart::Other => {},
                    }
                    k = k + 1;
                }
                assert(parts@.subrange(0, parts@.len() as int) == parts@);
                self.pending.push_back(StreamEvent::ContentBlockStop { index: n });
                self.blocks.push(AssistantContentBlock::Thinking(ThinkingContent { thinking, signature: None }));
                assert(self.blocks@.drop_last() == fl);
            },
            AssistantChunk::ToolCallDelta { id, internal_call_id, content } => {
                let same_block = match &self.state {
                    ReducerState::InToolCallBlock { internal_call_id: current, .. } => str_eq(current.as_str(), internal_call_id.as_str()),
                    _ => false,
                };
                if same_block {
                    self.gather_piece(&content);
                    let delta = match content {
                        ToolCallDeltaContent::Name(name) => ContentDelta::ToolCallName(name),
                        ToolCallDeltaContent::Delta(args) => ContentDelta::ToolCallArguments(args),
                    };
                    let idx = match self.state.block_index() {
                        Some(i) => i,
                        None => 0,
                    };
                    self.pending.push_back(StreamEvent::ContentBlockDelta { index: idx, delta });
                } else {
                    let call_id = id.clone();
                    let n = self.start_block(ContentBlockHeader::ToolCall { id, name: None }, true);
                    self.state = ReducerState::InToolCallBlock { index: n, internal_call_id };
                    self.call_id = call_id;
                    self.call_name = String::new();
                    self.call_args = String::new();
                    self.gather_piece(&content);
                    assert(self.call_name@ =~= piece_name(content));
                    assert(self.call_args@ =~= piece_args(content));
                    let delta = match content {
                        ToolCallDeltaContent::Name(name) => ContentDelta::ToolCallName(name),
                        ToolCallDeltaContent::Delta(args) => ContentDelta::ToolCallArguments(args),
                    };
                    self.pending.push_back(StreamEvent::ContentBlockDelta { index: n, delta });
                }
            },
            AssistantChunk::ToolCall { id, name, arguments } => {
                let supersedes = match &self.state {
                    ReducerState::InToolCallBlock { .. } => str_eq(self.call_id.as_str(), id.as_str()),
                    _ => false,
                };
                let n = self.start_block(ContentBlockHeader::ToolCall { id: id.clone(), name: Some(name.clone()) }, !supersedes);
                let args_text = json_to_string(&arguments);
                self.pending.push_back(StreamEvent::ContentBlockDelta { index: n, delta: ContentDelta::ToolCallArguments(args_text) });
                self.pending.push_back(StreamEvent::ContentBlockStop { index: n });
                let ghost fl = self.blocks@;
                self.blocks.push(AssistantContentBlock::ToolCall(ToolCallContent { id, name, arguments }));
                assert(self.blocks@.drop_last() == fl);
                self.state = ReducerState::Idle;
            },
            AssistantChunk::Final => {
                self.stop_current_block();
                self.state = ReducerState::Complete;
                let mut content: Vec<AssistantContentBlock> = Vec::new();
                std::mem::swap(&mut content, &mut self.blocks);
                self.pending.push_back(StreamEvent::MessageComplete { message: AssistantMessage { content } });
            },
        }
        proof {
            let p1 = self.pending@;
            let evs = p1.subrange(p0.len() as int, p1.len() as int);
            assert(p1 =~= p0 + evs);
            assert(p1.subrange(0, p0.len() as int) =~= p0);
            let stop = stop_events(s0);
            if ch is ToolCall || ch is Final {
                assert(evs.subrange(0, stop.len() as int) =~= stop);
            }
            assert(extends(r0, *self));
            assert(added(r0, *self) == evs);
            match ch {
                AssistantChunk::Text(t) => {
                    match s0 {
                        ReducerState::InTextBlock { index } => {
                            assert(evs =~= seq![StreamEvent::ContentBlockDelta { index, delta: ContentDelta::Text(t) }]);
                        },
                        _ => {
                            let n = r0.block_count;
                            assert(evs =~= stop + seq![
                                StreamEvent::ContentBlockStart { index: n, block: ContentBlockHeader::Text },
                                StreamEvent::ContentBlockDelta { index: n, delta: ContentDelta::Text(t) },
                            ]);
                        },
                    }
                },
                AssistantChunk::ReasoningDelta { reasoning, .. } => {
                    match s0 {
                        ReducerState::InThinkingBlock { index } => {
                            assert(evs =~= seq![StreamEvent::ContentBlockDelta { index, delta: ContentDelta::Thinking(reasoning) }]);
                        },
                        _ => {
                            let n = r0.block_count;
                            assert(evs =~= stop + seq![
                                StreamEvent::ContentBlockStart { index: n, block: ContentBlockHeader::Thinking },
                                StreamEvent::ContentBlockDelta { index: n, delta: ContentDelta::Thinking(reasoning) },
                            ]);
                        },
                    }
                },
                AssistantChunk::Reasoning(parts) => {
                    let n = r0.block_count;
                    assert(evs =~= stop + seq![
                        StreamEvent::ContentBlockStart { index: n, block: ContentBlockHeader::Thinking },
                    ] + reasoning_deltas(parts@, n) + seq![StreamEvent::ContentBlockStop { index: n }]);
                },
                AssistantChunk::ToolCallDelta { id, internal_call_id, content } => {
                    let n = r0.block_count;
                    if in_tool_call(s0, internal_call_id) {
                        assert(evs =~= seq![
                            StreamEvent::ContentBlockDelta { index: open_block(s0)->0, delta: tool_delta(content) },
                        ]);
                    } else {
                        assert(evs =~= stop + seq![
                            StreamEvent::ContentBlockStart {
                                index: n,
                                block: ContentBlockHeader::ToolCall { id, name: None },
                            },
                            StreamEvent::ContentBlockDelta { index: n, delta: tool_delta(content) },
                        ]);
                    }
                },
                AssistantChunk::ToolCall { id, name, .. } => {
                    let n = r0.block_count;
                    assert(evs =~= stop + seq![
                        StreamEvent::ContentBlockStart {
                            index: n,
                            block: ContentBlockHeader::ToolCall { id, name: Some(name) },
                        },
                        evs[stop.len() as int + 1],
                        StreamEvent::ContentBlockStop { index: n },
                    ]);
                },
                AssistantChunk::Final => {
                    assert(evs =~= stop + seq![evs.last()]);
                },
            }
            assert(feed_effect(r0, ch, *self));
            lemma_feed_keeps_cycle_wf(r0, ch, *self);
        }
    }

    /// Ends the reply with the model client's final response text: the
    /// open block stops, then the complete message becomes pending, and
    /// the reducer is complete. The message holds the assembled blocks
    /// (a streaming tool call included) where the text is empty and blocks
    /// were assembled, else just the text.
    pub fn finish_with_response(&mut self, text: String)
        ensures
            exists|message: AssistantMessage| {
                &&& #[trigger] finished_with(*old(self), *final(self), message)
                &&& if text@.len() == 0 && (old(self).blocks@.len() > 0 || old(self).state is InToolCallBlock) {
                    flushed(*old(self), message.content@) && final(self).blocks@.len() == 0
                } else {
                    crate::llm::is_text_only(message, text) && flushed(*old(self), final(self).blocks@)
                }
            },
            old(self).state != ReducerState::Complete ==> cycle(cursor_of(*old(self)), added(*old(self), *final(self)))
                == Some(cursor_of(*final(self))),
    {
        let ghost r0 = *self;
        let ghost text0 = text;
        self.stop_current_block();
        let ghost fl = self.blocks@;
        self.state = ReducerState::Complete;
        let text_empty = text.as_str().unicode_len() == 0;
        let message = if text_empty && self.blocks.len() > 0 {
            let mut content: Vec<AssistantContentBlock> = Vec::new();
            std::mem::swap(&mut content, &mut self.blocks);
            AssistantMessage { content }
        } else {
            AssistantMessage::text_only(text)
        };
        let ghost m = message;
        self.pending.push_back(StreamEvent::MessageComplete { message });
        proof {
            assert(self.pending@ =~= r0.pending@ + stop_events(r0.state) + seq![StreamEvent::MessageComplete { message: m }]);
            assert(finished_with(r0, *self, m));
            assert(fl.len() > 0 <==> (r0.blocks@.len() > 0 || r0.state is InToolCallBlock));
            if text_empty && fl.len() > 0 {
                assert(flushed(r0, m.content@) && self.blocks@.len() == 0);
            } else {
                assert(crate::llm::is_text_only(m, text0) && flushed(r0, self.blocks@));
            }
            assert(exists|message: AssistantMessage| {
                &&& #[trigger] finished_with(r0, *self, message)
                &&& if text0@.len() == 0 && (r0.blocks@.len() > 0 || r0.state is InToolCallBlock) {
                    flushed(r0, message.content@) && self.blocks@.len() == 0
                } else {
                    crate::llm::is_text_only(message, text0) && flushed(r0, self.blocks@)
                }
            });
            if r0.state != ReducerState::Complete {
                lemma_finish_keeps_cycle(r0, *self, m);
            }
        }
    }

    /// Ends the reply when the model client's stream ends. Unless the
    /// reducer is already complete, the open block stops, then the
    /// complete message, holding the assembled blocks, becomes pending,
    /// and the reducer is complete.
    pub fn finish_stream(&mut self)
        ensures
            old(self).state == ReducerState::Complete ==> *final(self) == *old(self),
            old(self).state != ReducerState::Complete ==> {
                &&& exists|message: AssistantMessage| #[trigger] finished_with(*old(self), *final(self), message)
                    && flushed(*old(self), message.content@)
                &&& final(self).blocks@.len() == 0
                &&& cycle(cursor_of(*old(self)), added(*old(self), *final(self))) == Some(cursor_of(*final(self)))
            },
    {
        if !self.is_complete() {
            let ghost r0 = *self;
            self.stop_current_block();
            self.state = ReducerState::Complete;
            let mut content: Vec<AssistantContentBlock> = Vec::new();
            std::mem::swap(&mut content, &mut self.blocks);
            let message = AssistantMessage { content };
            let ghost m = message;
            self.pending.push_back(StreamEvent::MessageComplete { message });
            proof {
                assert(self.pending@ =~= r0.pending@ + stop_events(r0.state) + seq![StreamEvent::MessageComplete { message: m }]);
                assert(finished_with(r0, *self, m));
                assert(flushed(r0, m.content@));
                lemma_finish_keeps_cycle(r0, *self, m);
            }
        }
    }
}

proof fn lemma_feed_keeps_cycle_wf(r: Reducer, chunk: AssistantChunk, r2: Reducer)
    requires
        r.wf(),
        feed_effect(r, chunk, r2),
    ensures
        r2.wf(),
{
    if r.state != ReducerState::Complete {
        lemma_feed_keeps_cycle(r, chunk, r2);
    } else {
        match chunk {
            AssistantChunk::Text(_) => {},
            AssistantChunk::ReasoningDelta { .. } => {},
            _ => {},
        }
    }
}

/// Ending the reply keeps the life cycle: the open block stops, then the
/// message completes.
proof fn lemma_finish_keeps_cycle(r: Reducer, r2: Reducer, message: AssistantMessage)
    requires
        r.state != ReducerState::Complete,
        finished_with(r, r2, message),
    ensures
        cycle(cursor_of(r), added(r, r2)) == Some(cursor_of(r2)),
{
    let stop = stop_events(r.state);
    let e = StreamEvent::MessageComplete { message };
    assert(added(r, r2) =~= stop + seq![e]);
    lemma_cycle_stop(r);
    lemma_cycle_concat(cursor_of(r), stop, seq![e]);
    lemma_cycle_one((None, r.block_count as int, false), e);
}

} // verus!
