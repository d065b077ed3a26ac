//! Chat messages exchanged with an LLM, the structured stream events that
//! a streamed completion is turned into, the per-agent system prompts, and
//! how stream events are delivered to the front end.
use vstd::prelude::*;

use crate::error::AppError;
use crate::events::AgentStreamPayload;
use crate::models::AgentType;
use crate::text::{concat2, join_seq, join_strings, views};

verus! {

/// A message of a conversation, by role.
#[derive(Debug, Clone)]
pub enum ChatMessage {
    User(UserMessage),
    Assistant(AssistantMessage),
    System(SystemMessage),
    ToolResult(ToolResultMessage),
}

/// A user message.
#[derive(Debug, Clone)]
pub struct UserMessage {
    pub content: Vec<UserContentBlock>,
}

/// An assistant message.
#[derive(Debug, Clone)]
pub struct AssistantMessage {
    pub content: Vec<AssistantContentBlock>,
}

/// A system message.
#[derive(Debug, Clone, PartialEq, Eq)]
pub struct SystemMessage {
    pub content: String,
}

/// The result of a tool call, sent back to the model.
#[derive(Debug, Clone, PartialEq, Eq)]
pub struct ToolResultMessage {
    pub tool_call_id: String,
    pub content: String,
}

/// A block of a user message.
#[derive(Debug, Clone, PartialEq, Eq)]
pub enum UserContentBlock {
    Text { text: String },
    Image { url: Option<String>, base64: Option<String>, media_type: Option<String> },
}

/// A block of an assistant message.
#[derive(Debug, Clone)]
pub enum AssistantContentBlock {
    Text(TextContent),
    Thinking(ThinkingContent),
    ToolCall(ToolCallContent),
}

/// Text.
#[derive(Debug, Clone, PartialEq, Eq)]
pub struct TextContent {
    pub text: String,
}

/// Reasoning text, with its signature where the provider gives one.
#[derive(Debug, Clone, PartialEq, Eq)]
pub struct ThinkingContent {
    pub thinking: String,
    pub signature: Option<String>,
}

/// A call of a tool, with its JSON arguments.
#[derive(Debug, Clone)]
pub struct ToolCallContent {
    pub id: String,
    pub name: String,
    pub arguments: serde_json::Value,
}

impl From<String> for TextContent {
    fn from(text: String) -> (t: TextContent) {
        TextContent { text }
    }
}

impl vstd::std_specs::convert::FromSpecImpl<String> for TextContent {
    open spec fn obeys_from_spec() -> bool {
        true
    }

    open spec fn from_spec(v: String) -> TextContent {
        TextContent { text: v }
    }
}

impl ChatMessage {
    /// A user message holding one text block.
    pub fn user(text: String) -> (m: ChatMessage)
        ensures
            m matches ChatMessage::User(u) && u.content@.len() == 1 && u.content@[0]
                == (UserContentBlock::Text { text }),
    {
        let mut content: Vec<UserContentBlock> = Vec::new();
        content.push(UserContentBlock::Text { text });
        ChatMessage::User(UserMessage { content })
    }

    /// An assistant message holding one text block.
    pub fn assistant_text(text: String) -> (m: ChatMessage)
        ensures
            m matches ChatMessage::Assistant(a) && is_text_only(a, text),
    {
        ChatMessage::Assistant(AssistantMessage::text_only(text))
    }

    /// A system message.
    pub fn system(content: String) -> (m: ChatMessage)
        ensures
            m == (ChatMessage::System(SystemMessage { content })),
    {
        ChatMessage::System(SystemMessage { content })
    }

    /// The result of the tool call `tool_call_id`.
    pub fn tool_result(tool_call_id: String, content: String) -> (m: ChatMessage)
        ensures
            m == (ChatMessage::ToolResult(ToolResultMessage { tool_call_id, content })),
    {
        ChatMessage::ToolResult(ToolResultMessage { tool_call_id, content })
    }
}

/// `a` holds exactly one text block, with text `text`.
pub open spec fn is_text_only(a: AssistantMessage, text: String) -> bool {
    &&& a.content@.len() == 1
    &&& a.content@[0] matches AssistantContentBlock::Text(t) && t.text == text
}

/// The texts of the text blocks of an assistant message, in order.
pub open spec fn assistant_texts(blocks: Seq<AssistantContentBlock>) -> Seq<Seq<char>>
    decreases blocks.len(),
{
    if blocks.len() == 0 {
        seq![]
    } else {
        let rest = assistant_texts(blocks.drop_last());
        match blocks.last() {
            AssistantContentBlock::Text(t) => rest.push(t.text@),
            _ => rest,
        }
    }
}

/// The texts of the text blocks of a user message, in order.
pub open spec fn user_texts(blocks: Seq<UserContentBlock>) -> Seq<Seq<char>>
    decreases blocks.len(),
{
    if blocks.len() == 0 {
        seq![]
    } else {
        let rest = user_texts(blocks.drop_last());
        match blocks.last() {
            UserContentBlock::Text { text } => rest.push(text@),
            _ => rest,
        }
    }
}

/// The text blocks of an assistant message, as a list of strings.
fn assistant_text_list(blocks: &Vec<AssistantContentBlock>) -> (r: Vec<String>)
    ensures
        views(r@) == assistant_texts(blocks@),
{
    let mut r: Vec<String> = Vec::new();
    let mut i: usize = 0;
    while i < blocks.len()
        invariant
            i <= blocks@.len(),
            views(r@) == assistant_texts(blocks@.subrange(0, i as int)),
        decreases blocks@.len() - i,
    {
        let ghost pre = blocks@.subrange(0, i as int);
        assert(blocks@.subrange(0, i + 1).drop_last() == pre);
        match &blocks[i] {
            AssistantContentBlock::Text(t) => {
                r.push(t.text.clone());
                assert(views(r@) == views(r@.drop_last()).push(t.text@)) by {
                    assert(r@.drop_last() =~= r@.subrange(0, r@.len() - 1));
                    assert(views(r@) =~= views(r@.drop_last()).push(t.text@));
                }
            },
            _ => {},
        }
        i = i + 1;
    }
    assert(blocks@.subrange(0, blocks@.len() as int) == blocks@);
    r
}

/// The text blocks of a user message, as a list of strings.
fn user_text_list(blocks: &Vec<UserContentBlock>) -> (r: Vec<String>)
    ensures
        views(r@) == user_texts(blocks@),
{
    let mut r: Vec<String> = Vec::new();
    let mut i: usize = 0;
    while i < blocks.len()
        invariant
            i <= blocks@.len(),
            views(r@) == user_texts(blocks@.subrange(0, i as int)),
        decreases blocks@.len() - i,
    {
        let ghost pre = blocks@.subrange(0, i as int);
        assert(blocks@.subrange(0, i + 1).drop_last() == pre);
        match &blocks[i] {
            UserContentBlock::Text { text } => {
                r.push(text.clone());
                assert(views(r@) =~= views(r@.drop_last()).push(text@));
            },
            _ => {},
        }
        i = i + 1;
    }
    assert(blocks@.subrange(0, blocks@.len() as int) == blocks@);
    r
}

impl AssistantMessage {
    /// A message holding one text block.
    pub fn text_only(text: String) -> (a: AssistantMessage)
        ensures
            is_text_only(a, text),
    {
        let mut content: Vec<AssistantContentBlock> = Vec::new();
        content.push(AssistantContentBlock::Text(TextContent { text }));
        AssistantMessage { content }
    }

    /// The text of the message: its text blocks, concatenated in order
    /// (reasoning and tool calls are left out).
    pub fn extract_text(&self) -> (s: String)
        ensures
            s@ == join_seq(assistant_texts(self.content@), seq![]),
    {
        let parts = assistant_text_list(&self.content);
        let s = join_strings(&parts, "");
        proof {
            reveal_strlit("");
            assert(""@ == Seq::<char>::empty());
        }
        s
    }
}

/// A message as the model client receives it: user and assistant
/// messages flattened to their text, joined by newlines.
#[derive(Debug, Clone, PartialEq, Eq)]
pub enum ModelMessage {
    User(String),
    Assistant(String),
    System(String),
    ToolResult { tool_call_id: String, content: String },
}

/// Flattens a chat message for the model client: the text blocks of a
/// user or assistant message joined with newlines (images, reasoning
/// and tool calls are left out).
pub fn to_model_message(msg: &ChatMessage) -> (m: ModelMessage)
    ensures
        match *msg {
            ChatMessage::User(u) => m matches ModelMessage::User(t) && t@ == join_seq(
                user_texts(u.content@),
                "\n"@,
            ),
            ChatMessage::Assistant(a) => m matches ModelMessage::Assistant(t) && t@ == join_seq(
                assistant_texts(a.content@),
                "\n"@,
            ),
            ChatMessage::System(s) => m == ModelMessage::System(s.content),
            ChatMessage::ToolResult(t) => m == (ModelMessage::ToolResult {
                tool_call_id: t.tool_call_id,
                content: t.content,
            }),
        },
{
    match msg {
        ChatMessage::User(u) => {
            let parts = user_text_list(&u.content);
            ModelMessage::User(join_strings(&parts, "\n"))
        },
        ChatMessage::Assistant(a) => {
            let parts = assistant_text_list(&a.content);
            ModelMessage::Assistant(join_strings(&parts, "\n"))
        },
        ChatMessage::System(s) => ModelMessage::System(s.content.clone()),
        ChatMessage::ToolResult(t) => ModelMessage::ToolResult {
            tool_call_id: t.tool_call_id.clone(),
            content: t.content.clone(),
        },
    }
}

// ---------------------------------------------------------------------
// Stream events
// ---------------------------------------------------------------------

/// A streamed completion, as content blocks: each block starts, receives
/// deltas, and stops; the assembled message completes the stream.
#[derive(Debug, Clone)]
pub enum StreamEvent {
    ContentBlockStart { index: usize, block: ContentBlockHeader },
    ContentBlockDelta { index: usize, delta: ContentDelta },
    ContentBlockStop { index: usize },
    MessageComplete { message: AssistantMessage },
    StreamError { message: String },
}

/// What kind of block starts.
#[derive(Debug, Clone, PartialEq, Eq)]
pub enum ContentBlockHeader {
    Text,
    Thinking,
    ToolCall { id: String, name: Option<String> },
}

/// An increment of a block.
#[derive(Debug, Clone, PartialEq, Eq)]
pub enum ContentDelta {
    Text(String),
    Thinking(String),
    ToolCallName(String),
    ToolCallArguments(String),
    Signature(String),
}

/// Adds the text of a text delta to `acc`; other events leave it as is.
/// This is how an agent collects the full reply of a streamed completion.
pub fn accumulate_text(acc: &mut String, event: &StreamEvent)
    ensures
        match *event {
            StreamEvent::ContentBlockDelta { delta: ContentDelta::Text(t), .. } => final(acc)@
                == old(acc)@ + t@,
            _ => final(acc)@ == old(acc)@,
        },
{
    match event {
        StreamEvent::ContentBlockDelta { delta: ContentDelta::Text(t), .. } => {
            acc.append(t.as_str());
        },
        _ => {},
    }
}

/// The error for a failure of the underlying stream.
pub fn stream_failure(reason: &str) -> (e: AppError)
    ensures
        e matches AppError::Llm(m) && m@ == "Stream error: "@ + reason@,
{
    AppError::Llm(concat2("Stream error: ", reason))
}

/// What a stream consumer is asked to do for one event.
#[derive(Debug, Clone, PartialEq, Eq)]
pub enum SinkCall {
    Nothing,
    TextDelta(String),
    ThinkingDelta(String),
    ToolCallStart { index: usize, id: String, name: Option<String> },
    ToolCallArgs { index: usize, args: String },
    MessageComplete(String),
    Error(String),
}

/// How a stream consumer handles an event: block starts and stops and
/// signatures need nothing; text and reasoning deltas are passed on; a
/// tool-call name starts a tool call (at index 0, with an empty id); a
/// complete message hands over its text; a stream error its message.
pub fn sink_call_for(event: StreamEvent) -> (c: SinkCall)
    ensures
        match event {
            StreamEvent::ContentBlockStart { .. } => c == SinkCall::Nothing,
            StreamEvent::ContentBlockStop { .. } => c == SinkCall::Nothing,
            StreamEvent::ContentBlockDelta { delta, .. } => match delta {
                ContentDelta::Text(t) => c == SinkCall::TextDelta(t),
                ContentDelta::Thinking(t) => c == SinkCall::ThinkingDelta(t),
                ContentDelta::ToolCallName(n) => c matches SinkCall::ToolCallStart { index, id, name }
                    && index == 0 && id@ == Seq::<char>::empty() && name == Some(n),
                ContentDelta::ToolCallArguments(a) => c == (SinkCall::ToolCallArgs { index: 0, args: a }),
                ContentDelta::Signature(_) => c == SinkCall::Nothing,
            },
            StreamEvent::MessageComplete { message } => c matches SinkCall::MessageComplete(t) && t@
                == join_seq(assistant_texts(message.content@), seq![]),
            StreamEvent::StreamError { message } => c == SinkCall::Error(message),
        },
{
    match event {
        StreamEvent::ContentBlockStart { .. } => SinkCall::Nothing,
        StreamEvent::ContentBlockStop { .. } => SinkCall::Nothing,
        StreamEvent::ContentBlockDelta { index: _, delta } => match delta {
            ContentDelta::Text(t) => SinkCall::TextDelta(t),
            ContentDelta::Thinking(t) => SinkCall::ThinkingDelta(t),
            ContentDelta::ToolCallName(n) => SinkCall::ToolCallStart { index: 0, id: String::new(), name: Some(n) },
            ContentDelta::ToolCallArguments(a) => SinkCall::ToolCallArgs { index: 0, args: a },
            ContentDelta::Signature(_) => SinkCall::Nothing,
        },
        StreamEvent::MessageComplete { message } => SinkCall::MessageComplete(message.extract_text()),
        StreamEvent::StreamError { message } => SinkCall::Error(message),
    }
}

/// What the front-end sink emits for a consumer call: text and reasoning
/// deltas and error messages as unfinished stream text, an empty finished
/// payload when the message completes, and nothing for tool calls.
pub fn stream_payload_for(call: SinkCall) -> (p: Option<AgentStreamPayload>)
    ensures
        match call {
            SinkCall::TextDelta(t) => p == Some((AgentStreamPayload { delta: t, finished: false })),
            SinkCall::ThinkingDelta(t) => p == Some((AgentStreamPayload { delta: t, finished: false })),
            SinkCall::Error(m) => p == Some((AgentStreamPayload { delta: m, finished: false })),
            SinkCall::MessageComplete(_) => p matches Some(q) && q.delta@ == Seq::<char>::empty()
                && q.finished,
            _ => p is None,
        },
{
    match call {
        SinkCall::TextDelta(t) => Some(AgentStreamPayload { delta: t, finished: false }),
        SinkCall::ThinkingDelta(t) => Some(AgentStreamPayload { delta: t, finished: false }),
        SinkCall::Error(m) => Some(AgentStreamPayload { delta: m, finished: false }),
        SinkCall::MessageComplete(_) => Some(AgentStreamPayload { delta: String::new(), finished: true }),
        _ => None,
    }
}

// ---------------------------------------------------------------------
// System prompts
// ---------------------------------------------------------------------

/// The system prompts of the agents.
pub struct PromptTemplate;

/// The system prompt of the summarizer.
pub open spec fn summarizer_prompt() -> Seq<char> {
    "You are a Goal Analysis Agent — a product analyst that helps users clarify their goals through conversation.\n\nYour job is to have a natural dialogue with the user to deeply understand what they want to achieve.\n\n## Conversation flow\n\n1. If the user's goal is vague or has gaps → ask ONE or TWO targeted clarifying questions\n2. If you have enough understanding → produce a structured goal summary in JSON\n\n## When to ask questions\n- Missing key details: target users, platform, scope, constraints\n- Ambiguous terms: \"make it good\", \"like X but better\"\n- Conflicting requirements\n- No clear acceptance criteria\n\n## When to produce a summary\n- You have a clear picture of what needs to be built\n- The user's last message didn't contain new clarifying information\n- The user explicitly asked for a summary\n\n## Output format\n\nWhen asking questions: just write natural conversational text. Do NOT wrap in JSON.\n\nWhen producing a summary: output ONLY the JSON block (you may wrap in ```json fence):\n\n```json\n{\n  \"title\": \"Concise title (5-10 words)\",\n  \"description\": \"Clear 2-3 sentence description\",\n  \"acceptance_criteria\": [\"Measurable criterion 1\", \"Measurable criterion 2\"],\n  \"constraints\": [\"Constraint 1\", \"Constraint 2\"],\n  \"refinement_questions\": []\n}\n```\n\n## Guidelines\n- Be conversational and friendly — this is a chat, not a form\n- Don't overwhelm the user with too many questions at once\n- Ground questions in what the user has already said\n- When producing the summary, be concrete and actionable\n- Do NOT add features or scope beyond what the user described\n- If the user says \"looks good\" or \"confirm\", produce the final summary JSON"@
}

/// The system prompt of the builder.
pub open spec fn builder_prompt() -> Seq<char> {
    "You are a Builder Agent (原型构建 Agent). Your task is to plan and achieve a goal for the first time.\n\nYour responsibilities:\n1. Analyze the goal requirements and constraints\n2. Create a detailed plan (PLAN.md) with module breakdown\n3. Transform the plan into a specification for the Generator (HarnessAgent)\n4. Verify the Generator's output meets acceptance criteria\n5. Run the Executor to test the implementation\n6. If tests pass, mark the goal as achieved; otherwise retry with fixes\n\nCore flow:\n- Phase 1: Initial Analysis - Get existing conclusion, analyze requirements, create PLAN.md\n- Phase 2: Transform & Dispatch - Create spec, send to Generator, wait for response\n- Phase 3: Verification - Check Generator result, run Executor for testing\n- Phase 4: Conclusion - Mark achieved or retry (max 10 attempts)\n\nGuidelines:\n- Be conservative in planning - small, verifiable steps\n- Each module should have clear skill requirements\n- Always verify before marking achieved\n- If bugs are found, analyze and request fixes\n"@
}

/// The system prompt of the executor.
pub open spec fn executor_prompt() -> Seq<char> {
    "You are an Execution Agent. Your task is to execute and test skills without modifying them.\n\nYour responsibilities:\n1. Receive user_manual.md and skills from the verification phase\n2. Execute each skill in a ReAct loop\n3. Report success or log bugs to the current worknode\n\nGuidelines:\n- Do NOT modify any skills - only execute and report\n- Use standard ReAct loop: Observe -> Think -> Act\n- If execution fails in optimization phase, add bugs to BUG.md\n- Maximum 50 iterations to prevent infinite loops\n"@
}

/// The system prompt of the optimizer.
pub open spec fn optimizer_prompt() -> Seq<char> {
    "You are a Goal Optimization Agent. Your task is to take an achieved goal and optimize it by solidifying parts that still depend on agent execution.\n\nYour responsibilities:\n1. Review PLAN.md, BUG.md, and CONCLUSION.md from parent node\n2. Create a todo list based on history and unresolved bugs\n3. Apply optimizations through the Generator\n4. Verify optimizations preserve the goal's achieved state\n5. Update bugs by removing resolved ones\n\nCore flow:\n- Phase 1: Analysis with History - Get plan, bugs, conclusion; create todo list\n- Phase 2: Transform & Dispatch - Create optimization spec, send to Generator\n- Phase 3: Verification - Run Executor to test optimizations\n- Phase 4: Conclusion - Mark achieved, update bugs, create new node\n\nGuidelines:\n- Solidification means converting agent-driven steps into deterministic code/workflows\n- Only optimize one area at a time to minimize risk\n- If optimization introduces regression, roll back and re-plan\n- Always update BUG.md to remove resolved bugs\n"@
}

/// The system prompt of an agent type.
pub open spec fn system_prompt_spec(t: AgentType) -> Seq<char> {
    match t {
        AgentType::Summarizer => summarizer_prompt(),
        AgentType::Builder => builder_prompt(),
        AgentType::Executor => executor_prompt(),
        AgentType::Optimizer => optimizer_prompt(),
    }
}

impl PromptTemplate {
    /// The system prompt for an agent type.
    pub fn system_prompt(agent_type: &AgentType) -> (p: &'static str)
        ensures
            p@ == system_prompt_spec(*agent_type),
    {
        match agent_type {
            AgentType::Summarizer => "You are a Goal Analysis Agent — a product analyst that helps users clarify their goals through conversation.\n\nYour job is to have a natural dialogue with the user to deeply understand what they want to achieve.\n\n## Conversation flow\n\n1. If the user's goal is vague or has gaps → ask ONE or TWO targeted clarifying questions\n2. If you have enough understanding → produce a structured goal summary in JSON\n\n## When to ask questions\n- Missing key details: target users, platform, scope, constraints\n- Ambiguous terms: \"make it good\", \"like X but better\"\n- Conflicting requirements\n- No clear acceptance criteria\n\n## When to produce a summary\n- You have a clear picture of what needs to be built\n- The user's last message didn't contain new clarifying information\n- The user explicitly asked for a summary\n\n## Output format\n\nWhen asking questions: just write natural conversational text. Do NOT wrap in JSON.\n\nWhen producing a summary: output ONLY the JSON block (you may wrap in ```json fence):\n\n```json\n{\n  \"title\": \"Concise title (5-10 words)\",\n  \"description\": \"Clear 2-3 sentence description\",\n  \"acceptance_criteria\": [\"Measurable criterion 1\", \"Measurable criterion 2\"],\n  \"constraints\": [\"Constraint 1\", \"Constraint 2\"],\n  \"refinement_questions\": []\n}\n```\n\n## Guidelines\n- Be conversational and friendly — this is a chat, not a form\n- Don't overwhelm the user with too many questions at once\n- Ground questions in what the user has already said\n- When producing the summary, be concrete and actionable\n- Do NOT add features or scope beyond what the user described\n- If the user says \"looks good\" or \"confirm\", produce the final summary JSON",
            AgentType::Builder => "You are a Builder Agent (原型构建 Agent). Your task is to plan and achieve a goal for the first time.\n\nYour responsibilities:\n1. Analyze the goal requirements and constraints\n2. Create a detailed plan (PLAN.md) with module breakdown\n3. Transform the plan into a specification for the Generator (HarnessAgent)\n4. Verify the Generator's output meets acceptance criteria\n5. Run the Executor to test the implementation\n6. If tests pass, mark the goal as achieved; otherwise retry with fixes\n\nCore flow:\n- Phase 1: Initial Analysis - Get existing conclusion, analyze requirements, create PLAN.md\n- Phase 2: Transform & Dispatch - Create spec, send to Generator, wait for response\n- Phase 3: Verification - Check Generator result, run Executor for testing\n- Phase 4: Conclusion - Mark achieved or retry (max 10 attempts)\n\nGuidelines:\n- Be conservative in planning - small, verifiable steps\n- Each module should have clear skill requirements\n- Always verify before marking achieved\n- If bugs are found, analyze and request fixes\n",
            AgentType::Executor => "You are an Execution Agent. Your task is to execute and test skills without modifying them.\n\nYour responsibilities:\n1. Receive user_manual.md and skills from the verification phase\n2. Execute each skill in a ReAct loop\n3. Report success or log bugs to the current worknode\n\nGuidelines:\n- Do NOT modify any skills - only execute and report\n- Use standard ReAct loop: Observe -> Think -> Act\n- If execution fails in optimization phase, add bugs to BUG.md\n- Maximum 50 iterations to prevent infinite loops\n",
            AgentType::Optimizer => "You are a Goal Optimization Agent. Your task is to take an achieved goal and optimize it by solidifying parts that still depend on agent execution.\n\nYour responsibilities:\n1. Review PLAN.md, BUG.md, and CONCLUSION.md from parent node\n2. Create a todo list based on history and unresolved bugs\n3. Apply optimizations through the Generator\n4. Verify optimizations preserve the goal's achieved state\n5. Update bugs by removing resolved ones\n\nCore flow:\n- Phase 1: Analysis with History - Get plan, bugs, conclusion; create todo list\n- Phase 2: Transform & Dispatch - Create optimization spec, send to Generator\n- Phase 3: Verification - Run Executor to test optimizations\n- Phase 4: Conclusion - Mark achieved, update bugs, create new node\n\nGuidelines:\n- Solidification means converting agent-driven steps into deterministic code/workflows\n- Only optimize one area at a time to minimize risk\n- If optimization introduces regression, roll back and re-plan\n- Always update BUG.md to remove resolved bugs\n",
        }
    }
}

/// Each agent type gets a system prompt of its own: no two agent types
/// share one.
pub proof fn law_system_prompts_differ(a: AgentType, b: AgentType)
    requires
        a != b,
    ensures
        system_prompt_spec(a) != system_prompt_spec(b),
{
    reveal_strlit("You are a Goal Analysis Agent — a product analyst that helps users clarify their goals through conversation.\n\nYour job is to have a natural dialogue with the user to deeply understand what they want to achieve.\n\n## Conversation flow\n\n1. If the user's goal is vague or has gaps → ask ONE or TWO targeted clarifying questions\n2. If you have enough understanding → produce a structured goal summary in JSON\n\n## When to ask questions\n- Missing key details: target users, platform, scope, constraints\n- Ambiguous terms: \"make it good\", \"like X but better\"\n- Conflicting requirements\n- No clear acceptance criteria\n\n## When to produce a summary\n- You have a clear picture of what needs to be built\n- The user's last message didn't contain new clarifying information\n- The user explicitly asked for a summary\n\n## Output format\n\nWhen asking questions: just write natural conversational text. Do NOT wrap in JSON.\n\nWhen producing a summary: output ONLY the JSON block (you may wrap in ```json fence):\n\n```json\n{\n  \"title\": \"Concise title (5-10 words)\",\n  \"description\": \"Clear 2-3 sentence description\",\n  \"acceptance_criteria\": [\"Measurable criterion 1\", \"Measurable criterion 2\"],\n  \"constraints\": [\"Constraint 1\", \"Constraint 2\"],\n  \"refinement_questions\": []\n}\n```\n\n## Guidelines\n- Be conversational and friendly — this is a chat, not a form\n- Don't overwhelm the user with too many questions at once\n- Ground questions in what the user has already said\n- When producing the summary, be concrete and actionable\n- Do NOT add features or scope beyond what the user described\n- If the user says \"looks good\" or \"confirm\", produce the final summary JSON");
    reveal_strlit("You are a Builder Agent (原型构建 Agent). Your task is to plan and achieve a goal for the first time.\n\nYour responsibilities:\n1. Analyze the goal requirements and constraints\n2. Create a detailed plan (PLAN.md) with module breakdown\n3. Transform the plan into a specification for the Generator (HarnessAgent)\n4. Verify the Generator's output meets acceptance criteria\n5. Run the Executor to test the implementation\n6. If tests pass, mark the goal as achieved; otherwise retry with fixes\n\nCore flow:\n- Phase 1: Initial Analysis - Get existing conclusion, analyze requirements, create PLAN.md\n- Phase 2: Transform & Dispatch - Create spec, send to Generator, wait for response\n- Phase 3: Verification - Check Generator result, run Executor for testing\n- Phase 4: Conclusion - Mark achieved or retry (max 10 attempts)\n\nGuidelines:\n- Be conservative in planning - small, verifiable steps\n- Each module should have clear skill requirements\n- Always verify before marking achieved\n- If bugs are found, analyze and request fixes\n");
    reveal_strlit("You are an Execution Agent. Your task is to execute and test skills without modifying them.\n\nYour responsibilities:\n1. Receive user_manual.md and skills from the verification phase\n2. Execute each skill in a ReAct loop\n3. Report success or log bugs to the current worknode\n\nGuidelines:\n- Do NOT modify any skills - only execute and report\n- Use standard ReAct loop: Observe -> Think -> Act\n- If execution fails in optimization phase, add bugs to BUG.md\n- Maximum 50 iterations to prevent infinite loops\n");
    reveal_strlit("You are a Goal Optimization Agent. Your task is to take an achieved goal and optimize it by solidifying parts that still depend on agent execution.\n\nYour responsibilities:\n1. Review PLAN.md, BUG.md, and CONCLUSION.md from parent node\n2. Create a todo list based on history and unresolved bugs\n3. Apply optimizations through the Generator\n4. Verify optimizations preserve the goal's achieved state\n5. Update bugs by removing resolved ones\n\nCore flow:\n- Phase 1: Analysis with History - Get plan, bugs, conclusion; create todo list\n- Phase 2: Transform & Dispatch - Create optimization spec, send to Generator\n- Phase 3: Verification - Run Executor to test optimizations\n- Phase 4: Conclusion - Mark achieved, update bugs, create new node\n\nGuidelines:\n- Solidification means converting agent-driven steps into deterministic code/workflows\n- Only optimize one area at a time to minimize risk\n- If optimization introduces regression, roll back and re-plan\n- Always update BUG.md to remove resolved bugs\n");
    assert(summarizer_prompt()[15] != optimizer_prompt()[15]);
    assert(summarizer_prompt()[10] != builder_prompt()[10]);
    assert(summarizer_prompt()[9] != executor_prompt()[9]);
    assert(builder_prompt()[9] != executor_prompt()[9]);
    assert(builder_prompt()[10] != optimizer_prompt()[10]);
    assert(executor_prompt()[9] != optimizer_prompt()[9]);
}

} // verus!
