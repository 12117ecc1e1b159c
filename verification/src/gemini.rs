//! The decisions of the Gemini Interactions stream: which completion chunk
//! each server-sent event gives, and the tool calls whose arguments are still
//! arriving. The transport (HTTP, the event source, JSON decoding of the
//! events) runs around this and hands each decoded event to `GeminiStream::step`.
use vstd::prelude::*;
use std::collections::HashMap;
use crate::text::{chars_of, matches_at};
use crate::usage::TokenUsage;

verus! {

broadcast use {vstd::std_specs::hash::group_hash_axioms, vstd::string::group_string_axioms};

/// The step that a `StartDelta` event opens.
#[derive(Debug, Clone, PartialEq)]
pub struct GeminiStep {
    /// The kind of step; `function_call` opens a tool call.
    pub step_type: String,
    pub id: Option<String>,
    pub name: Option<String>,
}

/// The increment that a `StepDelta` event carries.
#[derive(Debug, Clone, PartialEq)]
pub struct GeminiDelta {
    /// The kind of increment: `arguments_delta`, `thought_summary`,
    /// `thought_signature`, `text`, or another.
    pub delta_type: String,
    pub arguments: Option<String>,
    pub signature: Option<String>,
    pub text: Option<String>,
}

/// The interaction that an `InteractionCompleted` event reports.
#[derive(Debug, Clone, PartialEq)]
pub struct GeminiInteraction {
    pub id: String,
    pub model: String,
    /// The tokens of the whole interaction, in the library's terms.
    pub usage: Option<TokenUsage>,
}

/// One decoded server-sent event of the Interactions stream.
#[derive(Debug, Clone, PartialEq)]
pub enum GeminiChunkEvent {
    InteractionCreated,
    InteractionCompleted { interaction: Option<GeminiInteraction> },
    StartDelta { index: Option<usize>, step: Option<GeminiStep> },
    StepDelta { index: Option<usize>, delta: Option<GeminiDelta> },
    StopDelta { index: Option<usize> },
    Unknown,
}

/// A provider-neutral chunk of a streamed completion.
#[derive(Debug)]
pub enum CompletionChunk {
    /// Visible text.
    Content { agent_id: String, content: String, response_id: String },
    /// A thought signature.
    Thought { agent_id: String, thought: String },
    /// A complete tool call.
    ToolCall {
        agent_id: String,
        id: Option<String>,
        name: Option<String>,
        arguments: Option<serde_json::Value>,
    },
    /// The end of the interaction, with its model, id and usage.
    Stop {
        agent_id: String,
        model: String,
        response_id: String,
        content: String,
        usage: Option<TokenUsage>,
    },
    /// The end of the stream.
    Done,
}

/// A tool call whose arguments are still arriving.
#[derive(Debug, Clone, PartialEq)]
pub struct PendingToolCall {
    pub id: String,
    pub name: String,
    /// The argument text received so far.
    pub arguments: String,
}

/// The JSON value that `text` holds, or JSON `null` where `text` is not JSON.
pub uninterp spec fn json_or_null(text: Seq<char>) -> serde_json::Value;

/// `serde_json::from_str` on a tool call's argument text, with a parse error
/// taken as JSON `null`. The result is named `json_or_null` of the text; the
/// JSON grammar itself is not stated here.
#[verifier::external_body]
fn parse_json_or_null(text: &str) -> (v: serde_json::Value)
    ensures
        v == json_or_null(text@),
{
    serde_json::from_str(text).unwrap_or(serde_json::Value::Null)
}

/// The pending tool calls as plain values: id, name and argument text.
pub open spec fn pending_view(m: Map<usize, PendingToolCall>) -> Map<
    usize,
    (Seq<char>, Seq<char>, Seq<char>),
> {
    m.map_values(|p: PendingToolCall| (p.id@, p.name@, p.arguments@))
}

/// The text of `o`, or the empty text.
pub open spec fn text_or_empty(o: Option<String>) -> Seq<char> {
    match o {
        Some(s) => s@,
        None => seq![],
    }
}

/// The slot that an event's index names; a missing index names slot 0.
pub open spec fn slot(index: Option<usize>) -> usize {
    match index {
        Some(i) => i,
        None => 0,
    }
}

/// The pending tool calls after `event`: a `function_call` step opens a call
/// in its slot (replacing one there), an `arguments_delta` extends the call
/// open in its slot, a `StopDelta` closes it; other events change nothing.
pub open spec fn pending_after(
    pending: Map<usize, (Seq<char>, Seq<char>, Seq<char>)>,
    event: GeminiChunkEvent,
) -> Map<usize, (Seq<char>, Seq<char>, Seq<char>)> {
    match event {
        GeminiChunkEvent::StartDelta { index, step: Some(st) } => if st.step_type@
            == "function_call"@ {
            pending.insert(slot(index), (text_or_empty(st.id), text_or_empty(st.name), seq![]))
        } else {
            pending
        },
        GeminiChunkEvent::StepDelta { index, delta: Some(d) } => if d.delta_type@
            == "arguments_delta"@ && pending.contains_key(slot(index)) {
            let p = pending[slot(index)];
            pending.insert(slot(index), (p.0, p.1, p.2 + text_or_empty(d.arguments)))
        } else {
            pending
        },
        GeminiChunkEvent::StopDelta { index } => pending.remove(slot(index)),
        _ => pending,
    }
}

/// Whether `chunk` is the chunk that `event` gives to agent `agent_id`,
/// where `pending` were the tool calls open before it.
pub open spec fn chunk_for(
    agent_id: Seq<char>,
    pending: Map<usize, (Seq<char>, Seq<char>, Seq<char>)>,
    event: GeminiChunkEvent,
    chunk: Option<CompletionChunk>,
) -> bool {
    match event {
        GeminiChunkEvent::InteractionCompleted { interaction: Some(i) } => match i.usage {
            Some(u) => chunk matches Some(
                CompletionChunk::Stop { agent_id: a, model, response_id, content, usage },
            ) && a@ == agent_id && model == i.model && response_id == i.id && content@.len() == 0
                && usage == Some(u),
            None => chunk is None,
        },
        GeminiChunkEvent::StepDelta { index, delta: Some(d) } => if d.delta_type@
            == "arguments_delta"@ {
            chunk is None
        } else if d.delta_type@ == "thought_signature"@ {
            match d.signature {
                Some(sig) => chunk matches Some(CompletionChunk::Thought { agent_id: a, thought })
                    && a@ == agent_id && thought == sig,
                None => chunk is None,
            }
        } else if d.delta_type@ == "text"@ {
            match d.text {
                Some(text) => chunk matches Some(
                    CompletionChunk::Content { agent_id: a, content, response_id },
                ) && a@ == agent_id && content == text && response_id@.len() == 0,
                None => chunk is None,
            }
        } else {
            chunk is None
        },
        GeminiChunkEvent::StopDelta { index } => if pending.contains_key(slot(index)) {
            let p = pending[slot(index)];
            chunk matches Some(CompletionChunk::ToolCall { agent_id: a, id, name, arguments })
                && a@ == agent_id && text_or_empty(id) == p.0 && id is Some && text_or_empty(name)
                == p.1 && name is Some && arguments == Some(json_or_null(p.2))
        } else {
            chunk is None
        },
        _ => chunk is None,
    }
}

/// The pending tool calls after each of `events` in turn.
pub open spec fn pending_after_all(
    pending: Map<usize, (Seq<char>, Seq<char>, Seq<char>)>,
    events: Seq<GeminiChunkEvent>,
) -> Map<usize, (Seq<char>, Seq<char>, Seq<char>)>
    decreases events.len(),
{
    if events.len() == 0 {
        pending
    } else {
        pending_after(pending_after_all(pending, events.drop_last()), events.last())
    }
}

/// The argument text that the increments `ds` carry, in order.
pub open spec fn arguments_text(ds: Seq<GeminiDelta>) -> Seq<char>
    decreases ds.len(),
{
    if ds.len() == 0 {
        seq![]
    } else {
        arguments_text(ds.drop_last()) + text_or_empty(ds.last().arguments)
    }
}

/// The events that open a tool call with `step` in slot `k` and then send
/// the argument increments `ds` to it.
pub open spec fn tool_call_events(k: usize, step: GeminiStep, ds: Seq<GeminiDelta>) -> Seq<
    GeminiChunkEvent,
> {
    seq![GeminiChunkEvent::StartDelta { index: Some(k), step: Some(step) }] + ds.map_values(
        |d: GeminiDelta| GeminiChunkEvent::StepDelta { index: Some(k), delta: Some(d) },
    )
}

/// A tool call opened in a slot gathers the argument increments sent to that
/// slot, in order: its id and name are those of the opening step, its
/// argument text is the increments joined.
pub proof fn tool_call_arguments_accumulate(
    pending: Map<usize, (Seq<char>, Seq<char>, Seq<char>)>,
    k: usize,
    step: GeminiStep,
    ds: Seq<GeminiDelta>,
)
    requires
        step.step_type@ == "function_call"@,
        forall|i: int| 0 <= i < ds.len() ==> #[trigger] ds[i].delta_type@ == "arguments_delta"@,
    ensures
        pending_after_all(pending, tool_call_events(k, step, ds)).contains_key(k),
        pending_after_all(pending, tool_call_events(k, step, ds))[k] == (
            text_or_empty(step.id),
            text_or_empty(step.name),
            arguments_text(ds),
        ),
    decreases ds.len(),
{
    let evs = tool_call_events(k, step, ds);
    if ds.len() == 0 {
        assert(evs.drop_last() =~= Seq::<GeminiChunkEvent>::empty());
    } else {
        let init = ds.drop_last();
        assert forall|i: int| 0 <= i < init.len() implies #[trigger] init[i].delta_type@
            == "arguments_delta"@ by {
            assert(init[i] == ds[i]);
        }
        tool_call_arguments_accumulate(pending, k, step, init);
        assert(evs.drop_last() =~= tool_call_events(k, step, init));
        assert(ds[ds.len() - 1].delta_type@ == "arguments_delta"@);
    }
}

/// The marker that ends the stream: `[DONE]`.
pub open spec fn done_marker() -> Seq<char> {
    seq!['[', 'D', 'O', 'N', 'E', ']']
}

/// Whether `p` occurs in `s`.
pub open spec fn contains_text(s: Seq<char>, p: Seq<char>) -> bool {
    exists|i: int| 0 <= i && i + p.len() <= s.len() && #[trigger] s.subrange(i, i + p.len()) == p
}

/// Whether an event's data holds the end-of-stream marker `[DONE]`.
pub fn is_done_marker(data: &str) -> (b: bool)
    ensures
        b == contains_text(data@, done_marker()),
{
    let v = chars_of(data);
    let p: Vec<char> = vec!['[', 'D', 'O', 'N', 'E', ']'];
    assert(p@ =~= done_marker());
    if v.len() < p.len() {
        return false;
    }
    let n = v.len();
    let last = n - p.len();
    let mut i: usize = 0;
    while i <= last
        invariant
            n == v@.len(),
            last + 6 == n,
            i <= last + 1,
            p@ == done_marker(),
            v@ == data@,
            forall|j: int| 0 <= j < i ==> #[trigger] v@.subrange(j, j + 6) != done_marker(),
        decreases last + 1 - i,
    {
        if matches_at(&v, i, i + 6, &p) {
            assert(v@.subrange(i as int, i + 6).take(6) =~= v@.subrange(i as int, i + 6));
            return true;
        }
        assert(v@.subrange(i as int, i + 6).take(6) =~= v@.subrange(i as int, i + 6));
        i = i + 1;
    }
    assert forall|j: int| 0 <= j && j + done_marker().len() <= data@.len() implies #[trigger] data@.subrange(
        j,
        j + done_marker().len(),
    ) != done_marker() by {
        assert(v@.subrange(j, j + 6) != done_marker());
    }
    false
}

/// The Interactions endpoint under the API's base URL.
pub fn interactions_url(base_url: &str) -> (r: String)
    ensures
        r@ == base_url@ + "/v1beta/interactions"@,
{
    String::from_str(base_url).concat("/v1beta/interactions")
}

/// Whether the HTTP status of the reply says the request was rejected as
/// invalid (400); the reply's body is then the error.
pub fn is_invalid_request(status: u16) -> (b: bool)
    ensures
        b == (status == 400),
{
    status == 400
}

/// `reqwest::header::HeaderValue` (http's): the value of an HTTP header.
#[verifier::external_type_specification]
#[verifier::external_body]
pub struct ExHeaderValue(reqwest::header::HeaderValue);

/// `reqwest::header::InvalidHeaderValue` (http's): the error of a text that
/// cannot be a header value.
#[verifier::external_type_specification]
#[verifier::external_body]
pub struct ExInvalidHeaderValue(reqwest::header::InvalidHeaderValue);

/// Whether character `c` may stand in a header value: a tab, or any
/// character but the control characters below 32 and DEL (127). Characters
/// beyond ASCII are written as bytes of 128 and more, which are allowed.
pub open spec fn header_char(c: char) -> bool {
    c == '\t' || (c as u32 >= 32 && c as u32 != 127)
}

/// Whether every character of `s` may stand in a header value.
pub open spec fn header_text(s: Seq<char>) -> bool {
    forall|i: int| 0 <= i < s.len() ==> #[trigger] header_char(s[i])
}

/// The header value that `HeaderValue::from_str` builds from a text: it
/// copies the text's bytes and marks the value as not sensitive, so it
/// depends on the text alone.
pub uninterp spec fn header_value_of(text: Seq<char>) -> reqwest::header::HeaderValue;

/// `HeaderValue::from_str` of http (through reqwest): it succeeds exactly
/// when each byte of the text is a tab or at least 32 and not 127, that is,
/// when `header_text` holds of its characters, and then gives the value
/// built from the text (`header_value_of`).
#[verifier::external_body]
fn header_value(s: &str) -> (r: Result<reqwest::header::HeaderValue, reqwest::header::InvalidHeaderValue>)
    ensures
        r is Ok <==> header_text(s@),
        r is Ok ==> r->Ok_0 == header_value_of(s@),
{
    reqwest::header::HeaderValue::from_str(s)
}

/// Why an API key cannot be sent.
#[derive(Debug, Clone, Copy, PartialEq, Eq)]
pub enum KeyError {
    /// The key holds a character that a header value cannot hold.
    ApiKeyParsingFailed,
}

/// The header value that carries the API key `key`; `ApiKeyParsingFailed`
/// where the key holds a control character other than tab, or DEL.
pub fn api_key_header(key: &str) -> (r: Result<reqwest::header::HeaderValue, KeyError>)
    ensures
        r is Ok <==> header_text(key@),
        r is Ok ==> r->Ok_0 == header_value_of(key@),
        r is Err ==> r->Err_0 == KeyError::ApiKeyParsingFailed,
{
    match header_value(key) {
        Ok(v) => Ok(v),
        Err(_) => Err(KeyError::ApiKeyParsingFailed),
    }
}

fn string_or_empty(o: Option<String>) -> (s: String)
    ensures
        s@ == text_or_empty(o),
{
    match o {
        Some(s) => s,
        None => String::new(),
    }
}

fn slot_of(index: Option<usize>) -> (r: usize)
    ensures
        r == slot(index),
{
    match index {
        Some(i) => i,
        None => 0,
    }
}

fn text_is(s: &String, lit: &str) -> (b: bool)
    ensures
        b == (s@ == lit@),
{
    *s == String::from_str(lit)
}

/// What the transport hands the stream.
#[derive(Debug)]
pub enum StreamInput {
    /// The transport failed, with this message.
    TransportError(String),
    /// An event arrived with data `data`. Where the data decoded, `event` is
    /// the decoded event; else `event` is `None` and `decode_error` is the
    /// decoder's message.
    Received { data: String, event: Option<GeminiChunkEvent>, decode_error: String },
}

/// Why the stream ended in an error.
#[derive(Debug)]
pub enum StreamError {
    /// The transport failed.
    Network(String),
    /// An event's data could not be decoded.
    Decode { error: String, data: String },
}

/// What the stream does with one input: what it yields, if anything, and
/// whether it ends.
#[derive(Debug)]
pub struct StreamAction {
    pub output: Option<Result<CompletionChunk, StreamError>>,
    pub stop: bool,
}

/// The chunk that an output yields, if it yields one.
pub open spec fn yielded_chunk(o: Option<Result<CompletionChunk, StreamError>>) -> Option<CompletionChunk> {
    match o {
        Some(Ok(c)) => Some(c),
        _ => None,
    }
}

/// Whether an output is an error.
pub open spec fn yields_error(o: Option<Result<CompletionChunk, StreamError>>) -> bool {
    match o {
        Some(Err(_)) => true,
        _ => false,
    }
}

/// The state of one streamed Gemini completion for agent `agent_id`.
pub struct GeminiStream {
    agent_id: String,
    pending: HashMap<usize, PendingToolCall>,
}

impl GeminiStream {
    /// The agent whose completion this stream carries.
    pub closed spec fn agent(&self) -> Seq<char> {
        self.agent_id@
    }

    /// The tool calls whose arguments are still arriving, by slot.
    pub closed spec fn pending(&self) -> Map<usize, (Seq<char>, Seq<char>, Seq<char>)> {
        pending_view(self.pending@)
    }

    /// A stream for agent `agent_id` with no tool call open.
    pub fn new(agent_id: String) -> (r: GeminiStream)
        ensures
            r.agent() == agent_id@,
            r.pending() == Map::<usize, (Seq<char>, Seq<char>, Seq<char>)>::empty(),
    {
        let r = GeminiStream { agent_id, pending: HashMap::new() };
        assert(r.pending() =~= Map::<usize, (Seq<char>, Seq<char>, Seq<char>)>::empty());
        r
    }

    /// The agent id, as an owned string.
    fn agent_string(&self) -> (s: String)
        ensures
            s@ == self.agent(),
    {
        self.agent_id.clone()
    }

    /// Takes in what the transport hands over. A transport error is yielded
    /// and ends the stream. Data holding `[DONE]` yields the end chunk and
    /// ends the stream. Data that did not decode yields a decoding error and
    /// ends the stream. A decoded event goes to `step`, and the stream goes on.
    pub fn handle(&mut self, input: StreamInput) -> (r: StreamAction)
        ensures
            final(self).agent() == old(self).agent(),
            match input {
                StreamInput::TransportError(e) => {
                    &&& r.stop
                    &&& r.output == Some(Err::<CompletionChunk, StreamError>(StreamError::Network(e)))
                    &&& final(self).pending() == old(self).pending()
                },
                StreamInput::Received { data, event, decode_error } => if contains_text(
                    data@,
                    done_marker(),
                ) {
                    &&& r.stop
                    &&& yielded_chunk(r.output) matches Some(CompletionChunk::Done)
                    &&& final(self).pending() == old(self).pending()
                } else {
                    match event {
                        None => {
                            &&& r.stop
                            &&& r.output == Some(
                                Err::<CompletionChunk, StreamError>(
                                    StreamError::Decode { error: decode_error, data },
                                ),
                            )
                            &&& final(self).pending() == old(self).pending()
                        },
                        Some(ev) => {
                            &&& !r.stop
                            &&& !yields_error(r.output)
                            &&& final(self).pending() == pending_after(old(self).pending(), ev)
                            &&& chunk_for(old(self).agent(), old(self).pending(), ev, yielded_chunk(r.output))
                        },
                    }
                },
            },
    {
        match input {
            StreamInput::TransportError(e) => StreamAction {
                output: Some(Err(StreamError::Network(e))),
                stop: true,
            },
            StreamInput::Received { data, event, decode_error } => {
                if is_done_marker(data.as_str()) {
                    StreamAction { output: Some(Ok(CompletionChunk::Done)), stop: true }
                } else {
                    match event {
                        None => StreamAction {
                            output: Some(Err(StreamError::Decode { error: decode_error, data })),
                            stop: true,
                        },
                        Some(ev) => {
                            let out = self.step(ev);
                            let output = match out {
                                Some(c) => Some(Ok(c)),
                                None => None,
                            };
                            StreamAction { output, stop: false }
                        },
                    }
                }
            },
        }
    }

    /// Takes in one decoded event: returns the chunk it gives, if any, and
    /// keeps track of the tool calls whose arguments are still arriving.
    pub fn step(&mut self, event: GeminiChunkEvent) -> (r: Option<CompletionChunk>)
        ensures
            final(self).agent() == old(self).agent(),
            final(self).pending() == pending_after(old(self).pending(), event),
            chunk_for(old(self).agent(), old(self).pending(), event, r),
    {
        let ghost old_pending = self.pending();
        match event {
            GeminiChunkEvent::InteractionCompleted { interaction } => {
                match interaction {
                    Some(i) => match i.usage {
                        Some(u) => Some(
                            CompletionChunk::Stop {
                                agent_id: self.agent_string(),
                                model: i.model,
                                response_id: i.id,
                                content: String::new(),
                                usage: Some(u),
                            },
                        ),
                        None => None,
                    },
                    None => None,
                }
            },
            GeminiChunkEvent::StartDelta { index, step } => {
                match step {
                    Some(st) => {
                        if text_is(&st.step_type, "function_call") {
                            let k = slot_of(index);
                            let call = PendingToolCall {
                                id: string_or_empty(st.id),
                                name: string_or_empty(st.name),
                                arguments: String::new(),
                            };
                            let ghost cv = (call.id@, call.name@, call.arguments@);
                            self.pending.insert(k, call);
                            assert(self.pending() =~= old_pending.insert(k, cv));
                        }
                    },
                    None => {},
                }
                None
            },
            GeminiChunkEvent::StepDelta { index, delta } => {
                match delta {
                    Some(d) => {
                        if text_is(&d.delta_type, "arguments_delta") {
                            let k = slot_of(index);
                            let removed = self.pending.remove(&k);
                            match removed {
                                Some(call) => {
                                    let extra = string_or_empty(d.arguments);
                                    let arguments = call.arguments.concat(extra.as_str());
                                    let updated = PendingToolCall {
                                        id: call.id,
                                        name: call.name,
                                        arguments,
                                    };
                                    let ghost cv = (updated.id@, updated.name@, updated.arguments@);
                                    self.pending.insert(k, updated);
                                    assert(self.pending() =~= old_pending.insert(k, cv));
                                },
                                None => {
                                    assert(self.pending() =~= old_pending);
                                },
                            }
                            None
                        } else if text_is(&d.delta_type, "thought_signature") {
                            match d.signature {
                                Some(sig) => Some(
                                    CompletionChunk::Thought {
                                        agent_id: self.agent_string(),
                                        thought: sig,
                                    },
                                ),
                                None => None,
                            }
                        } else if text_is(&d.delta_type, "text") {
                            match d.text {
                                Some(text) => Some(
                                    CompletionChunk::Content {
                                        agent_id: self.agent_string(),
                                        content: text,
                                        response_id: String::new(),
                                    },
                                ),
                                None => None,
                            }
                        } else {
                            None
                        }
                    },
                    None => None,
                }
            },
            GeminiChunkEvent::StopDelta { index } => {
                let k = slot_of(index);
                let removed = self.pending.remove(&k);
                assert(self.pending() =~= old_pending.remove(k));
                match removed {
                    Some(call) => {
                        assert(old_pending[k] == (call.id@, call.name@, call.arguments@));
                        let arguments = parse_json_or_null(call.arguments.as_str());
                        Some(
                            CompletionChunk::ToolCall {
                                agent_id: self.agent_string(),
                                id: Some(call.id),
                                name: Some(call.name),
                                arguments: Some(arguments),
                            },
                        )
                    },
                    None => None,
                }
            },
            _ => None,
        }
    }
}

} // verus!
