use rig_your_goal::llm::{AssistantContentBlock, ContentBlockHeader, ContentDelta, StreamEvent};
use rig_your_goal::reducer::{AssistantChunk, ReasoningPart, Reducer, ReducerState, ToolCallDeltaContent};

fn drain(r: &mut Reducer) -> Vec<StreamEvent> {
    let mut out = Vec::new();
    while let Some(e) = r.next_pending() {
        out.push(e);
    }
    out
}

fn describe(e: &StreamEvent) -> String {
    match e {
        StreamEvent::ContentBlockStart { index, block } => format!("start {} {:?}", index, block),
        StreamEvent::ContentBlockDelta { index, delta } => format!("delta {} {:?}", index, delta),
        StreamEvent::ContentBlockStop { index } => format!("stop {}", index),
        StreamEvent::MessageComplete { message } => format!("complete {}", message.content.len()),
        StreamEvent::StreamError { message } => format!("error {}", message),
    }
}

/// Checks the content-block life cycle over a sequence of events: blocks
/// numbered 0, 1, 2, ... as they start, each stopped before the next, and
/// at most one complete message, last.
fn keeps_block_discipline(events: &[StreamEvent]) -> bool {
    let mut open: Option<usize> = None;
    let mut next: usize = 0;
    let mut done = false;
    for e in events {
        if done {
            return false;
        }
        match e {
            StreamEvent::ContentBlockStart { index, .. } => {
                if open.is_some() || *index != next {
                    return false;
                }
                open = Some(*index);
                next += 1;
            }
            StreamEvent::ContentBlockDelta { index, .. } => {
                if open != Some(*index) {
                    return false;
                }
            }
            StreamEvent::ContentBlockStop { index } => {
                if open != Some(*index) {
                    return false;
                }
                open = None;
            }
            StreamEvent::MessageComplete { .. } | StreamEvent::StreamError { .. } => {
                if open.is_some() {
                    return false;
                }
                done = true;
            }
        }
    }
    true
}

#[test]
fn text_then_more_text_stays_in_one_block() {
    let mut r = Reducer::new();
    r.feed(AssistantChunk::Text("Hel".to_string()));
    r.feed(AssistantChunk::Text("lo".to_string()));
    let evs: Vec<String> = drain(&mut r).iter().map(describe).collect();
    assert_eq!(
        evs,
        vec![
            "start 0 Text".to_string(),
            "delta 0 Text(\"Hel\")".to_string(),
            "delta 0 Text(\"lo\")".to_string(),
        ]
    );
    assert_eq!(r.state, ReducerState::InTextBlock { index: 0 });
}

#[test]
fn switching_block_kind_closes_the_open_block() {
    let mut r = Reducer::new();
    r.feed(AssistantChunk::ReasoningDelta { id: None, reasoning: "think".to_string() });
    r.feed(AssistantChunk::Text("answer".to_string()));
    let evs: Vec<String> = drain(&mut r).iter().map(describe).collect();
    assert_eq!(
        evs,
        vec![
            "start 0 Thinking".to_string(),
            "delta 0 Thinking(\"think\")".to_string(),
            "stop 0".to_string(),
            "start 1 Text".to_string(),
            "delta 1 Text(\"answer\")".to_string(),
        ]
    );
}

#[test]
fn complete_reasoning_is_its_own_block_and_resets_to_idle() {
    let mut r = Reducer::new();
    r.feed(AssistantChunk::Text("a".to_string()));
    r.feed(AssistantChunk::Reasoning(vec![
        ReasoningPart::Text("x".to_string()),
        ReasoningPart::Other,
        ReasoningPart::Summary("y".to_string()),
    ]));
    let evs: Vec<String> = drain(&mut r).iter().map(describe).collect();
    assert_eq!(
        evs,
        vec![
            "start 0 Text".to_string(),
            "delta 0 Text(\"a\")".to_string(),
            "stop 0".to_string(),
            "start 1 Thinking".to_string(),
            "delta 1 Thinking(\"x\")".to_string(),
            "delta 1 Thinking(\"y\")".to_string(),
            "stop 1".to_string(),
        ]
    );
    assert_eq!(r.state, ReducerState::Idle);
}

#[test]
fn streamed_tool_call_pieces_share_a_block_per_call_id() {
    let mut r = Reducer::new();
    r.feed(AssistantChunk::ToolCallDelta {
        id: "call-1".to_string(),
        internal_call_id: "i1".to_string(),
        content: ToolCallDeltaContent::Name("search".to_string()),
    });
    r.feed(AssistantChunk::ToolCallDelta {
        id: "call-1".to_string(),
        internal_call_id: "i1".to_string(),
        content: ToolCallDeltaContent::Delta("{\"q\":".to_string()),
    });
    r.feed(AssistantChunk::ToolCallDelta {
        id: "call-2".to_string(),
        internal_call_id: "i2".to_string(),
        content: ToolCallDeltaContent::Delta("{}".to_string()),
    });
    let evs = drain(&mut r);
    let text: Vec<String> = evs.iter().map(describe).collect();
    assert_eq!(text.len(), 6);
    assert_eq!(text[0], "start 0 ToolCall { id: \"call-1\", name: None }");
    assert_eq!(text[1], "delta 0 ToolCallName(\"search\")");
    assert_eq!(text[2], "delta 0 ToolCallArguments(\"{\\\"q\\\":\")");
    assert_eq!(text[3], "stop 0");
    assert_eq!(text[4], "start 1 ToolCall { id: \"call-2\", name: None }");
    assert!(keeps_block_discipline(&evs[..5]));
}

#[test]
fn complete_tool_call_is_collected_into_the_message() {
    let mut r = Reducer::new();
    let mut args = serde_json::Map::new();
    args.insert("q".to_string(), serde_json::Value::String("rust".to_string()));
    r.feed(AssistantChunk::Text("calling".to_string()));
    r.feed(AssistantChunk::ToolCall {
        id: "c".to_string(),
        name: "search".to_string(),
        arguments: serde_json::Value::Object(args),
    });
    r.feed(AssistantChunk::Final);
    let evs = drain(&mut r);
    assert!(keeps_block_discipline(&evs));
    assert!(r.is_complete());
    let text: Vec<String> = evs.iter().map(describe).collect();
    assert_eq!(text[2], "stop 0");
    assert_eq!(text[3], "start 1 ToolCall { id: \"c\", name: Some(\"search\") }");
    assert_eq!(text[4], "delta 1 ToolCallArguments(\"{\\\"q\\\":\\\"rust\\\"}\")");
    assert_eq!(text[5], "stop 1");
    match evs.last().unwrap() {
        StreamEvent::MessageComplete { message } => {
            assert_eq!(message.content.len(), 2);
            assert_eq!(message.extract_text(), "calling");
            match &message.content[1] {
                AssistantContentBlock::ToolCall(t) => {
                    assert_eq!(t.name, "search");
                    assert_eq!(t.arguments["q"], "rust");
                }
                _ => panic!("expected a tool call block"),
            }
        }
        _ => panic!("expected the complete message last"),
    }
    assert!(r.blocks.is_empty());
}

#[test]
fn final_chunk_closes_the_open_block_first() {
    let mut r = Reducer::new();
    r.feed(AssistantChunk::Text("x".to_string()));
    r.feed(AssistantChunk::Final);
    let evs: Vec<String> = drain(&mut r).iter().map(describe).collect();
    assert_eq!(evs, vec!["start 0 Text", "delta 0 Text(\"x\")", "stop 0", "complete 1"]);
}

#[test]
fn final_message_holds_the_assembled_text() {
    let mut r = Reducer::new();
    r.feed(AssistantChunk::Text("a".to_string()));
    r.feed(AssistantChunk::Final);
    let evs = drain(&mut r);
    assert!(matches!(evs[evs.len() - 2], StreamEvent::ContentBlockStop { index: 0 }));
    match evs.last().unwrap() {
        StreamEvent::MessageComplete { message } => {
            assert_eq!(message.content.len(), 1);
            match &message.content[0] {
                AssistantContentBlock::Text(t) => assert_eq!(t.text, "a"),
                _ => panic!("expected a text block"),
            }
            assert_eq!(message.extract_text(), "a");
        }
        _ => panic!("expected the complete message last"),
    }
    assert_eq!(r.state, ReducerState::Complete);
}

#[test]
fn final_message_keeps_every_block_in_order() {
    let mut r = Reducer::new();
    r.feed(AssistantChunk::ReasoningDelta { id: None, reasoning: "th".to_string() });
    r.feed(AssistantChunk::ReasoningDelta { id: None, reasoning: "ink".to_string() });
    r.feed(AssistantChunk::Text("Hel".to_string()));
    r.feed(AssistantChunk::Text("lo".to_string()));
    r.feed(AssistantChunk::Reasoning(vec![ReasoningPart::Text("x".to_string()), ReasoningPart::Summary("y".to_string())]));
    r.feed(AssistantChunk::Text("!".to_string()));
    r.feed(AssistantChunk::Final);
    let evs = drain(&mut r);
    assert!(keeps_block_discipline(&evs));
    match evs.last().unwrap() {
        StreamEvent::MessageComplete { message } => {
            assert_eq!(message.content.len(), 4);
            match &message.content[0] {
                AssistantContentBlock::Thinking(t) => assert_eq!(t.thinking, "think"),
                _ => panic!("expected a reasoning block"),
            }
            match &message.content[2] {
                AssistantContentBlock::Thinking(t) => assert_eq!(t.thinking, "xy"),
                _ => panic!("expected a reasoning block"),
            }
            assert_eq!(message.extract_text(), "Hello!");
        }
        _ => panic!("expected the complete message last"),
    }
}

#[test]
fn block_indexes_are_not_reused_after_a_complete_item() {
    let mut r = Reducer::new();
    r.feed(AssistantChunk::Text("a".to_string()));
    r.feed(AssistantChunk::Reasoning(vec![]));
    r.feed(AssistantChunk::Text("b".to_string()));
    let starts: Vec<usize> = drain(&mut r)
        .iter()
        .filter_map(|e| match e {
            StreamEvent::ContentBlockStart { index, .. } => Some(*index),
            _ => None,
        })
        .collect();
    assert_eq!(starts, vec![0, 1, 2]);
    assert_eq!(r.block_count, 3);
}

#[test]
fn a_long_mixed_stream_keeps_the_block_discipline() {
    let mut r = Reducer::new();
    let chunks = vec![
        AssistantChunk::ReasoningDelta { id: Some("r".to_string()), reasoning: "a".to_string() },
        AssistantChunk::ReasoningDelta { id: None, reasoning: "b".to_string() },
        AssistantChunk::Text("c".to_string()),
        AssistantChunk::ToolCallDelta {
            id: "1".to_string(),
            internal_call_id: "x".to_string(),
            content: ToolCallDeltaContent::Name("n".to_string()),
        },
        AssistantChunk::Reasoning(vec![]),
        AssistantChunk::Text("d".to_string()),
        AssistantChunk::ToolCall { id: "2".to_string(), name: "m".to_string(), arguments: serde_json::Value::Null },
        AssistantChunk::Text("e".to_string()),
        AssistantChunk::Final,
    ];
    for c in chunks {
        assert!(r.can_feed());
        r.feed(c);
    }
    let evs = drain(&mut r);
    assert!(keeps_block_discipline(&evs));
}

#[test]
fn finish_with_response_prefers_assembled_blocks_for_empty_text() {
    let mut r = Reducer::new();
    r.feed(AssistantChunk::ToolCall { id: "1".to_string(), name: "t".to_string(), arguments: serde_json::Value::Null });
    let _ = drain(&mut r);
    r.finish_with_response(String::new());
    assert!(r.is_complete());
    match drain(&mut r).as_slice() {
        [StreamEvent::MessageComplete { message }] => assert_eq!(message.content.len(), 1),
        _ => panic!("expected just the complete message"),
    }

    let mut r2 = Reducer::new();
    r2.feed(AssistantChunk::Text("partial".to_string()));
    let _ = drain(&mut r2);
    r2.finish_with_response("final text".to_string());
    let rest = drain(&mut r2);
    assert_eq!(rest.len(), 2);
    assert_eq!(describe(&rest[0]), "stop 0");
    match &rest[1] {
        StreamEvent::MessageComplete { message } => assert_eq!(message.extract_text(), "final text"),
        _ => panic!("expected the complete message after the stop"),
    }
}

#[test]
fn finish_stream_completes_once() {
    let mut r = Reducer::new();
    r.feed(AssistantChunk::Text("hi".to_string()));
    r.finish_stream();
    let evs = drain(&mut r);
    assert!(keeps_block_discipline(&evs));
    let text: Vec<String> = evs.iter().map(describe).collect();
    assert_eq!(text, vec!["start 0 Text", "delta 0 Text(\"hi\")", "stop 0", "complete 1"]);
    match evs.last().unwrap() {
        StreamEvent::MessageComplete { message } => assert_eq!(message.extract_text(), "hi"),
        _ => panic!("expected the complete message last"),
    }
    assert!(r.is_complete());
    r.finish_stream();
    assert!(drain(&mut r).is_empty());
}

#[test]
fn block_indices_follow_the_open_block() {
    assert_eq!(ReducerState::Idle.block_index(), None);
    assert_eq!(ReducerState::Complete.next_block_index(), 0);
    assert_eq!(ReducerState::InThinkingBlock { index: 4 }.block_index(), Some(4));
    assert_eq!(
        ReducerState::InToolCallBlock { index: 2, internal_call_id: "x".to_string() }.next_block_index(),
        3
    );
}

#[test]
fn a_streamed_tool_call_is_assembled_into_the_message() {
    let mut r = Reducer::new();
    r.feed(AssistantChunk::ToolCallDelta {
        id: "call-1".to_string(),
        internal_call_id: "i1".to_string(),
        content: ToolCallDeltaContent::Name("sea".to_string()),
    });
    r.feed(AssistantChunk::ToolCallDelta {
        id: "call-1".to_string(),
        internal_call_id: "i1".to_string(),
        content: ToolCallDeltaContent::Name("rch".to_string()),
    });
    r.feed(AssistantChunk::ToolCallDelta {
        id: "call-1".to_string(),
        internal_call_id: "i1".to_string(),
        content: ToolCallDeltaContent::Delta("{\"q\":".to_string()),
    });
    r.feed(AssistantChunk::ToolCallDelta {
        id: "call-1".to_string(),
        internal_call_id: "i1".to_string(),
        content: ToolCallDeltaContent::Delta("\"rust\"}".to_string()),
    });
    r.feed(AssistantChunk::Text("done".to_string()));
    r.feed(AssistantChunk::ToolCallDelta {
        id: "call-2".to_string(),
        internal_call_id: "i2".to_string(),
        content: ToolCallDeltaContent::Delta("{not json".to_string()),
    });
    r.feed(AssistantChunk::Final);
    let evs = drain(&mut r);
    assert!(keeps_block_discipline(&evs));
    match evs.last().unwrap() {
        StreamEvent::MessageComplete { message } => {
            assert_eq!(message.content.len(), 3);
            match &message.content[0] {
                AssistantContentBlock::ToolCall(t) => {
                    assert_eq!(t.id, "call-1");
                    assert_eq!(t.name, "search");
                    assert_eq!(t.arguments["q"], "rust");
                }
                _ => panic!("expected the assembled tool call first"),
            }
            assert_eq!(message.extract_text(), "done");
            match &message.content[2] {
                AssistantContentBlock::ToolCall(t) => {
                    assert_eq!(t.id, "call-2");
                    assert_eq!(t.name, "");
                    assert_eq!(t.arguments, serde_json::Value::String("{not json".to_string()));
                }
                _ => panic!("expected the second tool call last"),
            }
        }
        _ => panic!("expected the complete message last"),
    }
}

#[test]
fn a_complete_tool_call_takes_the_place_of_its_streamed_pieces() {
    let mut r = Reducer::new();
    r.feed(AssistantChunk::ToolCallDelta {
        id: "c".to_string(),
        internal_call_id: "i".to_string(),
        content: ToolCallDeltaContent::Name("search".to_string()),
    });
    r.feed(AssistantChunk::ToolCall { id: "c".to_string(), name: "search".to_string(), arguments: serde_json::Value::Null });
    r.feed(AssistantChunk::Final);
    let evs = drain(&mut r);
    assert!(keeps_block_discipline(&evs));
    match evs.last().unwrap() {
        StreamEvent::MessageComplete { message } => {
            assert_eq!(message.content.len(), 1);
            match &message.content[0] {
                AssistantContentBlock::ToolCall(t) => {
                    assert_eq!(t.name, "search");
                    assert_eq!(t.arguments, serde_json::Value::Null);
                }
                _ => panic!("expected the tool call"),
            }
        }
        _ => panic!("expected the complete message last"),
    }
}
