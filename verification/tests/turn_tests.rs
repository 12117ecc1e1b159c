use chat_backend_rs::agent_response::{AgentChunkResponse, AgentIteration, AgentResponse, AgentToolCall};
use chat_backend_rs::turn::{
    AgentGoal, DecisionResponse, ExecutionMode, StageDecision, StageResponse, TurnChunkResponse,
    TurnExecution, TurnResponse,
};
use chat_backend_rs::ui::UiChunk;
use chat_backend_rs::usage::TokenUsage;

fn usage(i: u64, o: u64) -> TokenUsage {
    TokenUsage { input_tokens: i, output_tokens: o, total_tokens: i + o }
}

fn agent_response(id: &str, content: &str, u: TokenUsage) -> AgentResponse {
    AgentResponse {
        agent_id: id.to_string(),
        model: "model".to_string(),
        iterations: vec![AgentIteration {
            iteration: 0,
            tool_calls: vec![AgentToolCall {
                id: "t1".to_string(),
                name: "search".to_string(),
                input: serde_json::Value::Null,
                output: None,
                error: None,
                duration_ms: 3,
            }],
            usage: u,
            duration_ms: 5,
            response_id: "r".to_string(),
            finish_reason: "stop".to_string(),
        }],
        response_id: format!("resp-{}", id),
        content: content.to_string(),
        usage: u,
        duration_ms: 7,
    }
}

fn single(id: &str, u: TokenUsage) -> TurnResponse {
    TurnResponse::for_single_agent("p".to_string(), agent_response(id, "c", u))
}

#[test]
fn for_single_agent_copies_response() {
    let t = TurnResponse::for_single_agent("prompt".to_string(), agent_response("a", "done", usage(3, 4)));
    assert_eq!(t.agent_id, "a");
    assert_eq!(t.prompt, "prompt");
    assert_eq!(t.content, "done");
    assert_eq!(t.response_id, Some("resp-a".to_string()));
    assert_eq!(t.usage, usage(3, 4));
    match t.execution {
        TurnExecution::SingleAgent { response } => assert_eq!(response.agent_id, "a"),
        _ => panic!("expected a single agent turn"),
    }
}

#[test]
fn deterministic_turn_sums_stage_usage() {
    let mut t = TurnResponse::for_deterministic("p".to_string(), agent_response("orch", "goals", usage(10, 1)));
    assert_eq!(t.content, "");
    assert_eq!(t.response_id, None);
    t.add_stage(StageResponse {
        name: "s1".to_string(),
        responses: vec![single("x", usage(1, 2)), single("y", usage(3, 4))],
        duration_ms: 1,
    });
    t.add_stage(StageResponse { name: "s2".to_string(), responses: vec![single("z", usage(5, 6))], duration_ms: 1 });
    assert_eq!(t.usage, usage(19, 13));
    t.set_synthesizer(TurnResponse::for_single_agent("q".to_string(), agent_response("syn", "final", usage(2, 2))));
    assert_eq!(t.usage, usage(21, 15));
    assert_eq!(t.content, "final");
    match &t.execution {
        TurnExecution::Deterministic { orchestrator, stages, synthesizer } => {
            assert_eq!(orchestrator.agent_id, "orch");
            assert_eq!(stages.len(), 2);
            assert_eq!(stages[0].name, "s1");
            assert_eq!(synthesizer.as_ref().unwrap().agent_id, "syn");
        }
        _ => panic!("expected a deterministic turn"),
    }
}

#[test]
fn stage_grouping_does_not_change_usage() {
    let mut a = TurnResponse::for_dynamic("d".to_string(), "p".to_string());
    let mut b = TurnResponse::for_dynamic("d".to_string(), "p".to_string());
    let decision = || StageDecision { agents: vec![], execution: ExecutionMode::Parallel, stop: false, reasoning: None };
    a.add_decision(DecisionResponse { iteration: 1, decision: decision(), responses: vec![single("x", usage(1, 1))], duration_ms: 0 });
    a.add_decision(DecisionResponse { iteration: 2, decision: decision(), responses: vec![single("y", usage(2, 5))], duration_ms: 0 });
    b.add_decision(DecisionResponse {
        iteration: 1,
        decision: decision(),
        responses: vec![single("x", usage(1, 1)), single("y", usage(2, 5))],
        duration_ms: 0,
    });
    assert_eq!(a.usage, b.usage);
    assert_eq!(a.usage, usage(3, 6));
}

#[test]
fn dynamic_turn_ignores_stages_and_deterministic_ignores_decisions() {
    let mut d = TurnResponse::for_dynamic("d".to_string(), "p".to_string());
    assert_eq!(d.usage, TokenUsage::default());
    d.add_stage(StageResponse { name: "s".to_string(), responses: vec![single("x", usage(9, 9))], duration_ms: 0 });
    assert_eq!(d.usage, TokenUsage::default());
    match &d.execution {
        TurnExecution::Dynamic { decisions, synthesizer } => {
            assert!(decisions.is_empty());
            assert!(synthesizer.is_none());
        }
        _ => panic!("expected a dynamic turn"),
    }
    let mut t = TurnResponse::for_deterministic("p".to_string(), agent_response("o", "g", usage(1, 1)));
    t.add_decision(DecisionResponse {
        iteration: 0,
        decision: StageDecision {
            agents: vec![AgentGoal { id: "a".to_string(), goal: Some("g".to_string()) }],
            execution: ExecutionMode::Sequential,
            stop: true,
            reasoning: Some("why".to_string()),
        },
        responses: vec![single("x", usage(9, 9))],
        duration_ms: 0,
    });
    assert_eq!(t.usage, usage(1, 1));
}

#[test]
fn single_agent_synthesizer_keeps_execution_but_takes_content_and_usage() {
    let mut t = single("a", usage(1, 1));
    t.set_synthesizer(single("b", usage(2, 2)));
    assert_eq!(t.usage, usage(3, 3));
    assert_eq!(t.content, "c");
    match &t.execution {
        TurnExecution::SingleAgent { response } => assert_eq!(response.agent_id, "a"),
        _ => panic!("expected a single agent turn"),
    }
}

#[test]
fn execution_mode_parses_any_case() {
    assert_eq!(ExecutionMode::parse("sequential"), Ok(ExecutionMode::Sequential));
    assert_eq!(ExecutionMode::parse("Parallel"), Ok(ExecutionMode::Parallel));
    assert_eq!(ExecutionMode::parse("SEQUENTIAL"), Ok(ExecutionMode::Sequential));
    let e = ExecutionMode::parse("Concurrent").unwrap_err();
    assert_eq!(e.value, "Concurrent");
    assert_eq!(ExecutionMode::from_lowercase("parallel", "PaRaLLeL"), Ok(ExecutionMode::Parallel));
    assert!(ExecutionMode::from_lowercase("Parallel", "Parallel").is_err());
}

#[test]
fn execution_mode_name_round_trip() {
    for m in [ExecutionMode::Sequential, ExecutionMode::Parallel] {
        assert_eq!(ExecutionMode::parse(m.as_str()), Ok(m));
    }
    assert_eq!(ExecutionMode::Sequential.as_str(), "sequential");
}

#[test]
fn chunk_constructors_and_accessors() {
    let c = TurnChunkResponse::content("a".to_string(), "hi".to_string());
    assert!(!c.is_final());
    assert!(c.turn_response().is_none());
    let s = TurnChunkResponse::status("a".to_string(), "working".to_string());
    assert!(!s.is_final());
    let f = TurnChunkResponse::final_response(single("z", usage(1, 1)));
    assert!(f.is_final());
    assert_eq!(f.turn_response().unwrap().agent_id, "z");

    let ac = AgentChunkResponse::thought("a".to_string(), "hmm".to_string());
    assert!(!ac.is_final());
    assert!(ac.agent_response().is_none());
    let af = AgentChunkResponse::final_response(agent_response("q", "x", usage(0, 0)));
    assert!(af.is_final());
    assert_eq!(af.agent_response().unwrap().content, "x");
    match AgentChunkResponse::content("a".to_string(), "t".to_string()) {
        AgentChunkResponse::Content { agent_id, content } => {
            assert_eq!(agent_id, "a");
            assert_eq!(content, "t");
        }
        _ => panic!("expected content"),
    }
}

#[test]
fn ui_chunk_fills_one_field() {
    let u = UiChunk::from_turn_chunk(&TurnChunkResponse::content("a".to_string(), "hi".to_string()));
    assert_eq!(u, UiChunk { id: "a".to_string(), content: "hi".to_string(), thought: String::new(), status: String::new(), is_final: false });
    let u = UiChunk::from_turn_chunk(&TurnChunkResponse::thought("a".to_string(), "t".to_string()));
    assert_eq!(u.thought, "t");
    assert_eq!(u.content, "");
    let u = UiChunk::from_turn_chunk(&TurnChunkResponse::status("a".to_string(), "s".to_string()));
    assert_eq!(u.status, "s");
    assert!(!u.is_final);
    let u = UiChunk::from_turn_chunk(&TurnChunkResponse::final_response(single("z", usage(1, 1))));
    assert_eq!(u, UiChunk { id: "z".to_string(), content: String::new(), thought: String::new(), status: String::new(), is_final: true });
}

#[test]
fn token_usage_accumulates() {
    let mut u = usage(1, 2);
    u.accumulate(usage(3, 4));
    assert_eq!(u, usage(4, 6));
}

#[test]
fn ui_chunk_from_matches_from_turn_chunk() {
    let chunks = vec![
        TurnChunkResponse::content("a".to_string(), "hi".to_string()),
        TurnChunkResponse::thought("b".to_string(), "t".to_string()),
        TurnChunkResponse::status("c".to_string(), "s".to_string()),
        TurnChunkResponse::final_response(single("z", usage(1, 1))),
    ];
    for c in &chunks {
        assert_eq!(UiChunk::from(c), UiChunk::from_turn_chunk(c));
    }
    let u: UiChunk = (&chunks[0]).into();
    assert_eq!(u.content, "hi");
}

#[test]
fn turn_response_clone_copies_nested_turns() {
    let mut t = TurnResponse::for_deterministic("p".to_string(), agent_response("orch", "goals", usage(10, 1)));
    t.add_stage(StageResponse {
        name: "research".to_string(),
        responses: vec![single("r1", usage(2, 3))],
        duration_ms: 4,
    });
    t.set_synthesizer(single("syn", usage(5, 6)));
    let c = t.clone();
    assert_eq!(c.agent_id, t.agent_id);
    assert_eq!(c.content, t.content);
    assert_eq!(c.usage, t.usage);
    match (&c.execution, &t.execution) {
        (
            TurnExecution::Deterministic { stages: s1, synthesizer: Some(y1), .. },
            TurnExecution::Deterministic { stages: s2, synthesizer: Some(y2), .. },
        ) => {
            assert_eq!(s1.len(), s2.len());
            assert_eq!(s1[0].name, "research");
            assert_eq!(s1[0].responses[0].agent_id, "r1");
            assert_eq!(y1.agent_id, y2.agent_id);
        }
        _ => panic!("expected a deterministic turn with a synthesizer"),
    }
    let chunk = TurnChunkResponse::final_response(t);
    match chunk.clone() {
        TurnChunkResponse::Final { response } => assert_eq!(response.agent_id, "orch"),
        _ => panic!("expected the closing chunk"),
    }
}
