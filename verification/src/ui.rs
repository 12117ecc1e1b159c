//! The flat chunk that the user interface receives for each streamed chunk.
use vstd::prelude::*;
use crate::turn::TurnChunkResponse;

verus! {

/// A streamed chunk as the user interface sees it: one of content, thought
/// or status is filled, or `is_final` is set.
#[derive(Debug, Clone, PartialEq)]
pub struct UiChunk {
    pub id: String,
    pub content: String,
    pub thought: String,
    pub status: String,
    pub is_final: bool,
}

/// The user-interface chunk for `chunk`: its agent's id and its text in the
/// matching field, every other text empty; the closing chunk carries the id
/// of the agent that answered the turn and no text.
pub open spec fn ui_chunk_of(chunk: TurnChunkResponse) -> (Seq<char>, Seq<char>, Seq<char>, Seq<char>, bool) {
    match chunk {
        TurnChunkResponse::Content { agent_id, content } => (agent_id@, content@, seq![], seq![], false),
        TurnChunkResponse::Thought { agent_id, thought } => (agent_id@, seq![], thought@, seq![], false),
        TurnChunkResponse::Status { agent_id, status } => (agent_id@, seq![], seq![], status@, false),
        TurnChunkResponse::Final { response } => (response.agent_id@, seq![], seq![], seq![], true),
    }
}

/// The parts of a user-interface chunk, as plain values.
pub open spec fn ui_parts(u: UiChunk) -> (Seq<char>, Seq<char>, Seq<char>, Seq<char>, bool) {
    (u.id@, u.content@, u.thought@, u.status@, u.is_final)
}

impl UiChunk {
    /// The user-interface chunk for `chunk`.
    pub fn from_turn_chunk(chunk: &TurnChunkResponse) -> (r: UiChunk)
        ensures
            ui_parts(r) == ui_chunk_of(*chunk),
    {
        match chunk {
            TurnChunkResponse::Content { agent_id, content } => UiChunk {
                id: agent_id.clone(),
                content: content.clone(),
                thought: String::new(),
                status: String::new(),
                is_final: false,
            },
            TurnChunkResponse::Thought { agent_id, thought } => UiChunk {
                id: agent_id.clone(),
                content: String::new(),
                thought: thought.clone(),
                status: String::new(),
                is_final: false,
            },
            TurnChunkResponse::Status { agent_id, status } => UiChunk {
                id: agent_id.clone(),
                content: String::new(),
                thought: String::new(),
                status: status.clone(),
                is_final: false,
            },
            TurnChunkResponse::Final { response } => UiChunk {
                id: response.agent_id.clone(),
                content: String::new(),
                thought: String::new(),
                status: String::new(),
                is_final: true,
            },
        }
    }
}

impl From<&TurnChunkResponse> for UiChunk {
    /// The user-interface chunk for `chunk`, as `from_turn_chunk` builds it.
    fn from(chunk: &TurnChunkResponse) -> (r: UiChunk)
        ensures
            ui_parts(r) == ui_chunk_of(*chunk),
    {
        UiChunk::from_turn_chunk(chunk)
    }
}

/// Conversion from a streamed chunk is stated by the parts of its result
/// (`ui_parts`), not by equality with one value: a text's value is not fixed
/// by its characters here.
impl vstd::std_specs::convert::FromSpecImpl<&TurnChunkResponse> for UiChunk {
    open spec fn obeys_from_spec() -> bool {
        false
    }

    open spec fn from_spec(v: &TurnChunkResponse) -> UiChunk {
        choose|u: UiChunk| ui_parts(u) == ui_chunk_of(*v)
    }
}

} // verus!
