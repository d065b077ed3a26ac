use rig_your_goal::agents::AgentOutput;
use rig_your_goal::models::{AgentType, GoalSummary};
use rig_your_goal::summarizer::{extract_json, GoalSummarizerAgent};
use tokio_util::sync::CancellationToken;

#[test]
fn json_code_block_is_extracted_and_trimmed() {
    let text = "Here is the summary:\n```json\n  {\"title\": \"x\"}  \n```\nDone.";
    assert_eq!(extract_json(text), "{\"title\": \"x\"}");
}

#[test]
fn plain_code_block_is_extracted() {
    assert_eq!(extract_json("```\n{\"a\":1}\n```"), "{\"a\":1}");
}

#[test]
fn bare_object_is_cut_at_its_last_brace() {
    assert_eq!(extract_json("  {\"a\": {\"b\": 2}} trailing"), "{\"a\": {\"b\": 2}}");
}

#[test]
fn other_text_is_returned_trimmed() {
    assert_eq!(extract_json("  just talking \n"), "just talking");
    assert_eq!(extract_json("single ``` fence"), "single ``` fence");
    assert_eq!(extract_json(""), "");
}

#[test]
fn a_reply_cut_short_after_an_opening_fence_is_read_as_plain_text() {
    assert_eq!(extract_json("```json {\"a\":1}"), "```json {\"a\":1}");
    assert_eq!(extract_json("````"), "````");
    assert_eq!(extract_json("{\"a\":1} ```json"), "{\"a\":1}");
}

#[test]
fn summarizer_turn_decisions() {
    let a = GoalSummarizerAgent::new(CancellationToken::new());
    assert_eq!(a.agent_type(), AgentType::Summarizer);
    let p = a.user_prompt("My goal");
    assert!(p.starts_with("Goal context: the user is defining a goal titled \"My goal\".\n\nPlease review"));
    assert!(p.ends_with("If not, ask clarifying questions."));
    assert_eq!(a.cancelled().message(), "Agent error: Summarizer was canceled");
    assert_eq!(a.decision(&None), "conversation_turn");
    let s = GoalSummary {
        title: "t".to_string(),
        description: "d".to_string(),
        acceptance_criteria: vec![],
        constraints: vec![],
        refinement_questions: vec![],
    };
    assert_eq!(a.decision(&Some(s.clone())), "summary_ready");
    match a.turn_output("hi".to_string(), Some(s)) {
        AgentOutput::ConversationTurn { message, summary_draft } => {
            assert_eq!(message, "hi");
            assert!(summary_draft.is_some());
        }
        _ => panic!("expected a conversation turn"),
    }
}
