use rig_your_goal::config::{
    apply_env_overrides, configured_database_path, default_database_file_name, default_gateway_url,
    default_llm_model, default_llm_provider, default_log_level, default_max_concurrent_agents,
    default_max_tokens, default_streaming, default_timeout, AppConfig, ConnectionTestResult, EnvOverrides,
    LlmConfig, LlmProviderType,
};
use rig_your_goal::error::AppError;
use rig_your_goal::events::{
    agent_decision_channel, agent_status_channel, agent_stream_channel, goal_status_channel,
    openclaw_connection_channel, AgentStreamPayload,
};
use rig_your_goal::frame::{forwarded_event, ipc_reply, ipc_send_failed, GatewayError, GatewayRequest, GatewayResponse};
use rig_your_goal::gateway::{
    as_transport_error, classify_frame, incoming_frame_kind, read_incoming_frame, reply_for_response, request_id, FrameKind,
    GatewayCapabilities, OpenClawError,
};
use rig_your_goal::llm::{
    accumulate_text, sink_call_for, stream_payload_for, to_model_message, AssistantContentBlock, AssistantMessage,
    ChatMessage, ContentDelta, ModelMessage, PromptTemplate, SinkCall, StreamEvent, TextContent,
    ThinkingContent,
};
use rig_your_goal::models::{AgentType, GoalStatus, MessageRole, MessagesRepo, MilestoneStatus, MilestonesRepo, SkillStatus};
use rig_your_goal::text::{join_strings, trim, u64_to_decimal};
use serde_json::Value;

fn response(ok: bool, payload: Option<Value>, error: Option<GatewayError>) -> GatewayResponse {
    GatewayResponse { frame_type: "res".to_string(), id: "1".to_string(), ok, payload, error }
}

#[test]
fn defaults_match_the_settings_file() {
    assert_eq!(default_gateway_url(), "ws://localhost:9090/gateway");
    assert_eq!(default_timeout(), 30);
    assert_eq!(default_llm_provider(), LlmProviderType::OpenAi);
    assert_eq!(default_llm_model(), "gpt-4o");
    assert_eq!(default_max_tokens(), 4096);
    assert!(default_streaming());
    assert_eq!(default_max_concurrent_agents(), 3);
    assert_eq!(default_log_level(), "info");
    let c = AppConfig::default();
    assert_eq!(c.openclaw.request_timeout_secs, 30);
    assert_eq!(c.llm.model, "gpt-4o");
    assert_eq!(c.openclaw.device_identity.fingerprint, "");
    assert_eq!(c.openclaw.device_identity.public_key, "");
    assert_eq!(c.openclaw.device_identity.signature, "");
    assert!(!c.openclaw.auto_connect);
    assert_eq!(default_database_file_name(), "after-done.db");
    assert_eq!(configured_database_path(&c), None);
}

#[test]
fn environment_overrides_take_precedence() {
    let env = EnvOverrides {
        openclaw_url: Some("ws://x".to_string()),
        openclaw_auth_token: None,
        llm_api_key: Some("k".to_string()),
        llm_base_url: None,
        llm_model: Some("m".to_string()),
        log_level: Some("debug".to_string()),
    };
    let c = apply_env_overrides(AppConfig::default(), env);
    assert_eq!(c.openclaw.gateway_url, "ws://x");
    assert_eq!(c.openclaw.auth_token, "");
    assert_eq!(c.llm.api_key, "k");
    assert_eq!(c.llm.model, "m");
    assert_eq!(c.app.log_level, "debug");
}

#[test]
fn connection_test_results() {
    let r = ConnectionTestResult::gateway_outcome(Ok(Some("2.1".to_string())), 12);
    assert!(r.success);
    assert_eq!(r.message, "Successfully connected to OpenClaw Gateway (version: 2.1)");
    assert_eq!(r.latency_ms, Some(12));
    let r = ConnectionTestResult::gateway_outcome(Err("refused".to_string()), 3);
    assert_eq!(r.message, "Failed to connect: refused");
    let r = ConnectionTestResult::llm_outcome(Ok("  pong \n".to_string()), 5);
    assert_eq!(r.message, "LLM connection successful. Response: pong");
    assert!(ConnectionTestResult::llm_precheck(&LlmConfig::default()).is_some());
    assert_eq!(ConnectionTestResult::llm_missing_key().message, "API key is not configured");
}

#[test]
fn error_kinds_and_messages() {
    assert_eq!(AppError::NotFound("x".to_string()).kind(), "not_found");
    assert_eq!(AppError::Database("d".to_string()).message(), "Database error: d");
    assert_eq!(AppError::Cancelled("c".to_string()).message(), "Cancelled: c");
}

#[test]
fn event_channels_and_payloads() {
    assert_eq!(agent_stream_channel("w"), "ryg:agent:stream:w");
    assert_eq!(agent_status_channel("w"), "ryg:agent:status:w");
    assert_eq!(agent_decision_channel("w"), "ryg:agent:decision:w");
    assert_eq!(goal_status_channel("g"), "ryg:goal:status:g");
    assert_eq!(openclaw_connection_channel(), "ryg:openclaw:connection");
    let p = AgentStreamPayload::new("d", true);
    assert_eq!(p.delta, "d");
    assert!(p.finished);
}

#[test]
fn enum_text_forms_round_trip() {
    for t in [AgentType::Summarizer, AgentType::Builder, AgentType::Executor, AgentType::Optimizer] {
        assert_eq!(AgentType::try_from_str(t.as_str()).unwrap(), t);
    }
    assert_eq!(AgentType::try_from_str("wizard").unwrap_err(), "Unknown agent type: wizard");
    assert_eq!(GoalStatus::try_from_str(GoalStatus::Draft.as_str()).unwrap(), GoalStatus::Draft);
    assert!(MessageRole::try_from_str("nobody").is_err());
    assert_eq!(MilestoneStatus::try_from_str(MilestoneStatus::InProgress.as_str()).unwrap(), MilestoneStatus::InProgress);
    assert_eq!(SkillStatus::try_from_str(SkillStatus::Verified.as_str()).unwrap(), SkillStatus::Verified);
}

#[test]
fn repository_helpers() {
    assert_eq!(MilestonesRepo::fork_order(3), 4);
    assert_eq!(MilestonesRepo::checked_fork_order(i32::MAX), None);
    assert_eq!(
        MessagesRepo::history_query(Some(5), None),
        "SELECT * FROM messages WHERE goal_id = ? ORDER BY created_at DESC LIMIT ?"
    );
}

#[test]
fn gateway_frames_and_replies() {
    assert_eq!(classify_frame("res"), FrameKind::Response);
    assert_eq!(classify_frame("event"), FrameKind::Event);
    assert_eq!(classify_frame("req"), FrameKind::Request);
    assert_eq!(classify_frame("other"), FrameKind::Unknown);
    let v: Value = serde_json::from_str("{\"type\": \"event\", \"event\": \"x\"}").unwrap();
    assert_eq!(incoming_frame_kind(&v), FrameKind::Event);
    assert_eq!(incoming_frame_kind(&Value::Null), FrameKind::Unknown);
    assert_eq!(request_id(0), "req-0");
    assert_eq!(request_id(42), "req-42");
    assert_eq!(reply_for_response(response(true, Some(Value::Bool(true)), None)).unwrap(), Value::Bool(true));
    assert_eq!(
        reply_for_response(response(true, None, None)).unwrap_err(),
        OpenClawError::InvalidResponse("No payload".to_string())
    );
    let e = reply_for_response(response(false, None, Some(GatewayError { code: Some(-3), message: "bad".to_string(), data: None })))
        .unwrap_err();
    assert_eq!(e.message(), "Gateway error: code=Some(-3), message=bad");
    assert_eq!(as_transport_error(&OpenClawError::Timeout).message(), "Transport error: Request timed out");
    assert_eq!(GatewayCapabilities::default().version, "1.0.0");
}

#[test]
fn ipc_replies_and_events() {
    assert_eq!(ipc_reply(None).unwrap_err().message(), "Transport error: IPC channel closed");
    assert_eq!(ipc_reply(Some(response(false, None, None))).unwrap_err().message(), "Transport error: Unknown IPC error");
    assert_eq!(ipc_reply(Some(response(true, None, None))).unwrap_err().message(), "Transport error: Response has no payload");
    let ev = forwarded_event("m", Value::Null);
    assert_eq!(ev.event, "request.m");
    assert_eq!(ipc_send_failed("x").message(), "Transport error: Failed to send IPC request: x");
    let r = GatewayRequest::new("gateway.info", Value::Null);
    assert_eq!(r.frame_type, "req");
    assert_eq!(r.method, "gateway.info");
    assert_eq!(r.id.len(), 36);
    assert_ne!(GatewayRequest::new("a", Value::Null).id, r.id);
}

#[test]
fn chat_messages_flatten_to_text() {
    let m = ChatMessage::user("hi".to_string());
    assert_eq!(to_model_message(&m), ModelMessage::User("hi".to_string()));
    let a = AssistantMessage {
        content: vec![
            AssistantContentBlock::Text(TextContent { text: "a".to_string() }),
            AssistantContentBlock::Thinking(ThinkingContent { thinking: "t".to_string(), signature: None }),
            AssistantContentBlock::Text(TextContent { text: "b".to_string() }),
        ],
    };
    assert_eq!(a.extract_text(), "ab");
    assert_eq!(to_model_message(&ChatMessage::Assistant(a)), ModelMessage::Assistant("a\nb".to_string()));
    assert_eq!(AssistantMessage::text_only("x".to_string()).extract_text(), "x");
    let t: TextContent = "s".to_string().into();
    assert_eq!(t.text, "s");
}

#[test]
fn stream_consumers() {
    let mut acc = String::from("a");
    accumulate_text(&mut acc, &StreamEvent::ContentBlockDelta { index: 0, delta: ContentDelta::Text("b".to_string()) });
    accumulate_text(&mut acc, &StreamEvent::ContentBlockDelta { index: 0, delta: ContentDelta::Thinking("z".to_string()) });
    assert_eq!(acc, "ab");
    let c = sink_call_for(StreamEvent::ContentBlockDelta { index: 3, delta: ContentDelta::ToolCallName("f".to_string()) });
    assert_eq!(c, SinkCall::ToolCallStart { index: 0, id: String::new(), name: Some("f".to_string()) });
    let p = stream_payload_for(SinkCall::TextDelta("x".to_string())).unwrap();
    assert_eq!(p.delta, "x");
    assert!(!p.finished);
    assert!(stream_payload_for(SinkCall::Nothing).is_none());
    assert!(PromptTemplate::system_prompt(&AgentType::Executor).starts_with("You are an Execution Agent."));
}

#[test]
fn text_helpers() {
    assert_eq!(trim("  \t x y \n"), "x y");
    assert_eq!(u64_to_decimal(1200), "1200");
    assert_eq!(join_strings(&vec!["a".to_string(), "b".to_string()], ", "), "a, b");
    assert_eq!(join_strings(&vec![], ", "), "");
}

#[test]
fn incoming_frames_are_read_from_their_text() {
    let (kind, value) = read_incoming_frame("{\"type\": \"res\", \"id\": \"req-1\"}").unwrap();
    assert_eq!(kind, FrameKind::Response);
    assert_eq!(value["id"], "req-1");
    let (kind, _) = read_incoming_frame("{\"type\": \"event\"}").unwrap();
    assert_eq!(kind, FrameKind::Event);
    let (kind, _) = read_incoming_frame("[1, 2]").unwrap();
    assert_eq!(kind, FrameKind::Unknown);
    let e = read_incoming_frame("not json").unwrap_err();
    let expected = serde_json::from_str::<Value>("not json").unwrap_err().to_string();
    assert_eq!(e.message(), format!("Transport error: Invalid JSON: {}", expected));
}

#[test]
fn each_agent_type_has_its_own_system_prompt() {
    let types = [AgentType::Summarizer, AgentType::Builder, AgentType::Executor, AgentType::Optimizer];
    for (i, a) in types.iter().enumerate() {
        for (j, b) in types.iter().enumerate() {
            if i != j {
                assert_ne!(PromptTemplate::system_prompt(a), PromptTemplate::system_prompt(b));
            }
        }
    }
}
