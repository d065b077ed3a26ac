use rig_your_goal::agents::AgentStatus;
use rig_your_goal::commands::{
    create_goal_input, extract_message_text, goal_title_from_content, running_rows, AgentStatusResponse,
    CellStatusResponse, SummarizerTurnResponse,
};
use rig_your_goal::models::AgentType;
use serde_json::Value;

#[test]
fn goal_title_is_the_first_line() {
    assert_eq!(goal_title_from_content("Ship it\nwith details"), "Ship it");
    assert_eq!(goal_title_from_content("Windows line\r\nrest"), "Windows line");
    assert_eq!(goal_title_from_content("single"), "single");
    assert_eq!(goal_title_from_content("\nsecond"), "");
    assert_eq!(goal_title_from_content("keeps\rcarriage"), "keeps\rcarriage");
    assert_eq!(goal_title_from_content(""), "Untitled Goal");
    let g = create_goal_input("A\nB".to_string());
    assert_eq!(g.title, "A");
    assert_eq!(g.raw_input, "A\nB");
}

#[test]
fn message_text_of_a_stored_result() {
    let mut m = serde_json::Map::new();
    m.insert("message".to_string(), Value::String("hello".to_string()));
    assert_eq!(extract_message_text(&Value::Object(m)), "hello");
    let mut m = serde_json::Map::new();
    m.insert("message".to_string(), Value::Bool(true));
    let v = Value::Object(m);
    assert_eq!(extract_message_text(&v), format!("{:?}", v));
    let r = SummarizerTurnResponse::for_turn("c".to_string(), &Value::Null, true);
    assert_eq!(r.message, "Null");
    assert!(r.summary_ready);
}

#[test]
fn status_answers() {
    let r = AgentStatusResponse::for_status("w".to_string(), Some(AgentStatus::Running));
    assert_eq!(r.status.as_deref(), Some("Running"));
    assert!(r.agent_type.is_none());
    assert!(AgentStatusResponse::for_status("w".to_string(), None).status.is_none());
    let c = CellStatusResponse::for_status("c".to_string(), Some("ready".to_string()));
    assert_eq!(c.result_status.as_deref(), Some("\"ready\""));
    let rows = running_rows(vec![("w".to_string(), AgentType::Optimizer, AgentStatus::Starting)]);
    assert_eq!(rows, vec![("w".to_string(), "Optimizer".to_string(), "Starting".to_string())]);
}
