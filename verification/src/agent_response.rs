//! What a single agent produced: its streamed chunks and its final response.
use vstd::prelude::*;
use crate::usage::TokenUsage;

verus! {

/// One tool call made by an agent during an iteration.
#[derive(Debug, Clone)]
pub struct AgentToolCall {
    pub id: String,
    pub name: String,
    pub input: serde_json::Value,
    pub output: Option<serde_json::Value>,
    pub error: Option<String>,
    pub duration_ms: u64,
}

/// One round trip of an agent to its model.
#[derive(Debug, Clone)]
pub struct AgentIteration {
    pub iteration: u32,
    pub tool_calls: Vec<AgentToolCall>,
    pub usage: TokenUsage,
    pub duration_ms: u64,
    pub response_id: String,
    pub finish_reason: String,
}

/// The full response of an agent, kept for storage.
#[derive(Debug, Clone)]
pub struct AgentResponse {
    pub agent_id: String,
    pub model: String,
    pub iterations: Vec<AgentIteration>,
    pub response_id: String,
    pub content: String,
    pub usage: TokenUsage,
    pub duration_ms: u64,
}

/// A chunk of an agent's streamed answer.
#[derive(Debug, Clone)]
pub enum AgentChunkResponse {
    /// Incremental visible text chunk — forwarded to UI
    Content { agent_id: String, content: String },
    /// Incremental thought/reasoning — not forwarded to UI
    Thought { agent_id: String, thought: String },
    /// Agent execution complete — carries full agent response for storage
    Final { response: AgentResponse },
}

impl AgentChunkResponse {
    /// A visible text chunk of agent `agent_id`.
    pub fn content(agent_id: String, content: String) -> (r: Self)
        ensures
            r == (AgentChunkResponse::Content { agent_id, content }),
    {
        AgentChunkResponse::Content { agent_id, content }
    }

    /// A thought chunk of agent `agent_id`.
    pub fn thought(agent_id: String, thought: String) -> (r: Self)
        ensures
            r == (AgentChunkResponse::Thought { agent_id, thought }),
    {
        AgentChunkResponse::Thought { agent_id, thought }
    }

    /// The closing chunk, carrying the full response.
    pub fn final_response(response: AgentResponse) -> (r: Self)
        ensures
            r == (AgentChunkResponse::Final { response }),
    {
        AgentChunkResponse::Final { response }
    }

    /// Whether this is the closing chunk.
    pub fn is_final(&self) -> (b: bool)
        ensures
            b == (*self is Final),
    {
        match self {
            AgentChunkResponse::Final { .. } => true,
            _ => false,
        }
    }

    /// The full response, where this is the closing chunk.
    pub fn agent_response(&self) -> (r: Option<&AgentResponse>)
        ensures
            r == (match *self {
                AgentChunkResponse::Final { response } => Some(&response),
                _ => None,
            }),
    {
        match self {
            AgentChunkResponse::Final { response } => Some(response),
            _ => None,
        }
    }
}

} // verus!
