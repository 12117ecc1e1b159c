use chat_backend_rs::gemini::{
    api_key_header, KeyError,
    interactions_url, is_done_marker, is_invalid_request, CompletionChunk, GeminiChunkEvent,
    GeminiDelta, GeminiInteraction, GeminiStep, GeminiStream, StreamError, StreamInput,
};
use chat_backend_rs::usage::TokenUsage;

fn delta(kind: &str, arguments: Option<&str>, signature: Option<&str>, text: Option<&str>) -> GeminiDelta {
    GeminiDelta {
        delta_type: kind.to_string(),
        arguments: arguments.map(|s| s.to_string()),
        signature: signature.map(|s| s.to_string()),
        text: text.map(|s| s.to_string()),
    }
}

fn step_delta(index: usize, d: GeminiDelta) -> GeminiChunkEvent {
    GeminiChunkEvent::StepDelta { index: Some(index), delta: Some(d) }
}

#[test]
fn text_delta_gives_content() {
    let mut s = GeminiStream::new("agent".to_string());
    match s.step(step_delta(0, delta("text", None, None, Some("Hello")))) {
        Some(CompletionChunk::Content { agent_id, content, response_id }) => {
            assert_eq!(agent_id, "agent");
            assert_eq!(content, "Hello");
            assert_eq!(response_id, "");
        }
        other => panic!("unexpected {:?}", other),
    }
    assert!(s.step(step_delta(0, delta("text", None, None, None))).is_none());
}

#[test]
fn thought_signature_gives_thought_and_summary_gives_nothing() {
    let mut s = GeminiStream::new("a".to_string());
    match s.step(step_delta(0, delta("thought_signature", None, Some("sig"), None))) {
        Some(CompletionChunk::Thought { agent_id, thought }) => {
            assert_eq!(agent_id, "a");
            assert_eq!(thought, "sig");
        }
        other => panic!("unexpected {:?}", other),
    }
    assert!(s.step(step_delta(0, delta("thought_summary", None, None, Some("x")))).is_none());
    assert!(s.step(step_delta(0, delta("other", None, None, Some("x")))).is_none());
    assert!(s.step(GeminiChunkEvent::Unknown).is_none());
    assert!(s.step(GeminiChunkEvent::InteractionCreated).is_none());
}

#[test]
fn tool_call_gathers_argument_deltas() {
    let mut s = GeminiStream::new("a".to_string());
    let start = GeminiChunkEvent::StartDelta {
        index: Some(2),
        step: Some(GeminiStep {
            step_type: "function_call".to_string(),
            id: Some("call-1".to_string()),
            name: Some("lookup".to_string()),
        }),
    };
    assert!(s.step(start).is_none());
    assert!(s.step(step_delta(2, delta("arguments_delta", Some("{\"city\":"), None, None))).is_none());
    assert!(s.step(step_delta(2, delta("arguments_delta", Some(" \"Paris\"}"), None, None))).is_none());
    match s.step(GeminiChunkEvent::StopDelta { index: Some(2) }) {
        Some(CompletionChunk::ToolCall { agent_id, id, name, arguments }) => {
            assert_eq!(agent_id, "a");
            assert_eq!(id, Some("call-1".to_string()));
            assert_eq!(name, Some("lookup".to_string()));
            let mut expected = serde_json::Map::new();
            expected.insert("city".to_string(), serde_json::Value::String("Paris".to_string()));
            assert_eq!(arguments, Some(serde_json::Value::Object(expected)));
        }
        other => panic!("unexpected {:?}", other),
    }
    // The call is closed: a second stop gives nothing.
    assert!(s.step(GeminiChunkEvent::StopDelta { index: Some(2) }).is_none());
}

#[test]
fn tool_call_with_bad_json_gives_null_and_missing_index_is_slot_zero() {
    let mut s = GeminiStream::new("a".to_string());
    let start = GeminiChunkEvent::StartDelta {
        index: None,
        step: Some(GeminiStep { step_type: "function_call".to_string(), id: None, name: None }),
    };
    assert!(s.step(start).is_none());
    assert!(s
        .step(GeminiChunkEvent::StepDelta { index: None, delta: Some(delta("arguments_delta", Some("{oops"), None, None)) })
        .is_none());
    match s.step(GeminiChunkEvent::StopDelta { index: Some(0) }) {
        Some(CompletionChunk::ToolCall { id, name, arguments, .. }) => {
            assert_eq!(id, Some(String::new()));
            assert_eq!(name, Some(String::new()));
            assert_eq!(arguments, Some(serde_json::Value::Null));
        }
        other => panic!("unexpected {:?}", other),
    }
}

#[test]
fn arguments_for_an_unopened_slot_are_dropped() {
    let mut s = GeminiStream::new("a".to_string());
    assert!(s.step(step_delta(1, delta("arguments_delta", Some("{}"), None, None))).is_none());
    assert!(s.step(GeminiChunkEvent::StopDelta { index: Some(1) }).is_none());
    let other_step = GeminiChunkEvent::StartDelta {
        index: Some(1),
        step: Some(GeminiStep { step_type: "thought".to_string(), id: None, name: None }),
    };
    assert!(s.step(other_step).is_none());
    assert!(s.step(GeminiChunkEvent::StopDelta { index: Some(1) }).is_none());
}

#[test]
fn completed_interaction_gives_stop_with_usage() {
    let mut s = GeminiStream::new("a".to_string());
    let usage = TokenUsage { input_tokens: 5, output_tokens: 7, total_tokens: 12 };
    let ev = GeminiChunkEvent::InteractionCompleted {
        interaction: Some(GeminiInteraction { id: "int-1".to_string(), model: "gem".to_string(), usage: Some(usage) }),
    };
    match s.step(ev) {
        Some(CompletionChunk::Stop { agent_id, model, response_id, content, usage: u }) => {
            assert_eq!(agent_id, "a");
            assert_eq!(model, "gem");
            assert_eq!(response_id, "int-1");
            assert_eq!(content, "");
            assert_eq!(u, Some(usage));
        }
        other => panic!("unexpected {:?}", other),
    }
    let no_usage = GeminiChunkEvent::InteractionCompleted {
        interaction: Some(GeminiInteraction { id: "i".to_string(), model: "m".to_string(), usage: None }),
    };
    assert!(s.step(no_usage).is_none());
    assert!(s.step(GeminiChunkEvent::InteractionCompleted { interaction: None }).is_none());
}

#[test]
fn done_marker_is_found_anywhere() {
    assert!(is_done_marker("[DONE]"));
    assert!(is_done_marker("data: [DONE] "));
    assert!(!is_done_marker("[DONE"));
    assert!(!is_done_marker(""));
    assert!(!is_done_marker("{\"done\": true}"));
}

#[test]
fn url_and_status() {
    assert_eq!(interactions_url("https://api.example"), "https://api.example/v1beta/interactions");
    assert!(is_invalid_request(400));
    assert!(!is_invalid_request(200));
}

#[test]
fn stream_stops_on_done_transport_error_and_bad_data() {
    let mut s = GeminiStream::new("a".to_string());
    let a = s.handle(StreamInput::TransportError("reset".to_string()));
    assert!(a.stop);
    assert!(matches!(a.output, Some(Err(StreamError::Network(ref m))) if m == "reset"));

    let a = s.handle(StreamInput::Received { data: "[DONE]".to_string(), event: None, decode_error: "x".to_string() });
    assert!(a.stop);
    assert!(matches!(a.output, Some(Ok(CompletionChunk::Done))));

    let a = s.handle(StreamInput::Received { data: "{bad".to_string(), event: None, decode_error: "eof".to_string() });
    assert!(a.stop);
    match a.output {
        Some(Err(StreamError::Decode { error, data })) => {
            assert_eq!(error, "eof");
            assert_eq!(data, "{bad");
        }
        other => panic!("unexpected {:?}", other),
    }

    let a = s.handle(StreamInput::Received {
        data: "{}".to_string(),
        event: Some(GeminiChunkEvent::StepDelta {
            index: None,
            delta: Some(GeminiDelta { delta_type: "text".to_string(), arguments: None, signature: None, text: Some("hi".to_string()) }),
        }),
        decode_error: String::new(),
    });
    assert!(!a.stop);
    assert!(matches!(a.output, Some(Ok(CompletionChunk::Content { ref content, .. })) if content == "hi"));

    let a = s.handle(StreamInput::Received { data: "{}".to_string(), event: Some(GeminiChunkEvent::Unknown), decode_error: String::new() });
    assert!(!a.stop);
    assert!(a.output.is_none());
}

#[test]
fn api_key_header_accepts_visible_text_and_refuses_controls() {
    let v = api_key_header("AIza-key_123").unwrap();
    assert_eq!(v.to_str().unwrap(), "AIza-key_123");
    assert!(api_key_header("with\ttab").is_ok());
    assert!(api_key_header("clé").is_ok());
    assert_eq!(api_key_header("bad\nkey").unwrap_err(), KeyError::ApiKeyParsingFailed);
    assert!(api_key_header("del\u{7f}").is_err());
}
