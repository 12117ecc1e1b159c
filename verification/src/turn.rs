//! A turn of a conversation with an agent pipeline: the orchestrator's stage
//! decisions, the streamed chunks and the recorded response with its token
//! usage, summed over every agent that ran.
use vstd::prelude::*;
use crate::agent_response::AgentResponse;
use crate::text::{ascii_lowercase, lowercase, to_lowercase};
use vstd::utf8::is_ascii_chars;
use crate::usage::{counts, fits, plus, zero, TokenUsage};

verus! {

broadcast use vstd::string::group_string_axioms;

/// A single completed exchange: the user prompt sent to an agent and the
/// assistant reply received.
#[derive(Debug, Clone, PartialEq)]
pub struct CompletionTurn {
    /// Position of this turn in the pipeline (1-based).
    pub sequence: u32,
    pub user_content: String,
    pub response_content: String,
    /// Provider-assigned ID for the assistant response; used for multi-turn context continuations.
    pub response_id: Option<String>,
}

/// An agent nominated by the orchestrator for a stage, with an optional goal override.
#[derive(Debug, Clone, PartialEq)]
pub struct AgentGoal {
    /// Must match the ID of a sub-agent registered in the pipeline config.
    pub id: String,
    /// Goal string forwarded as the prompt to the sub-agent; required when resolving.
    pub goal: Option<String>,
}

/// Controls whether agents in a stage run one-after-another or concurrently.
#[derive(Debug, Clone, Copy, PartialEq, Eq)]
pub enum ExecutionMode {
    /// Agents execute in order; each receives the previous agent's output as context.
    Sequential,
    /// Agents execute concurrently; results are merged afterwards.
    Parallel,
}

/// An execution mode name that is neither `sequential` nor `parallel`, in
/// any letter case.
#[derive(Debug, Clone, PartialEq)]
pub struct UnknownExecutionMode {
    /// The name as it was given.
    pub value: String,
}

/// The mode whose name is `lower`, already in lowercase; `given` is the name
/// as it was written, which the error repeats.
pub open spec fn mode_named(lower: Seq<char>, given: Seq<char>) -> Result<
    ExecutionMode,
    Seq<char>,
> {
    if lower == "sequential"@ {
        Ok(ExecutionMode::Sequential)
    } else if lower == "parallel"@ {
        Ok(ExecutionMode::Parallel)
    } else {
        Err(given)
    }
}

impl ExecutionMode {
    /// The mode named by `lower`, the lowercase form of the name `given`.
    pub fn from_lowercase(lower: &str, given: &str) -> (r: Result<ExecutionMode, UnknownExecutionMode>)
        ensures
            match mode_named(lower@, given@) {
                Ok(m) => r == Ok::<ExecutionMode, UnknownExecutionMode>(m),
                Err(g) => r is Err && r->Err_0.value@ == g,
            },
    {
        let l = String::from_str(lower);
        if l == String::from_str("sequential") {
            Ok(ExecutionMode::Sequential)
        } else if l == String::from_str("parallel") {
            Ok(ExecutionMode::Parallel)
        } else {
            Err(UnknownExecutionMode { value: String::from_str(given) })
        }
    }

    /// The mode named by `s`, in any letter case: `sequential` or `parallel`.
    /// On ASCII text the letter case is folded as `ascii_lowercase` does.
    pub fn parse(s: &str) -> (r: Result<ExecutionMode, UnknownExecutionMode>)
        ensures
            match mode_named(lowercase(s@), s@) {
                Ok(m) => r == Ok::<ExecutionMode, UnknownExecutionMode>(m),
                Err(g) => r is Err && r->Err_0.value@ == g,
            },
            is_ascii_chars(s@) ==> match mode_named(ascii_lowercase(s@), s@) {
                Ok(m) => r == Ok::<ExecutionMode, UnknownExecutionMode>(m),
                Err(g) => r is Err && r->Err_0.value@ == g,
            },
    {
        let lower = to_lowercase(s);
        ExecutionMode::from_lowercase(lower.as_str(), s)
    }

    /// The lowercase name of the mode.
    pub fn as_str(&self) -> (r: &'static str)
        ensures
            r@ == mode_name(*self),
    {
        match self {
            ExecutionMode::Sequential => "sequential",
            ExecutionMode::Parallel => "parallel",
        }
    }
}

/// The orchestrator's parsed decision for a single pipeline stage.
#[derive(Debug, Clone, PartialEq)]
pub struct StageDecision {
    /// Sub-agents to run in this stage, each paired with a goal string.
    pub agents: Vec<AgentGoal>,
    pub execution: ExecutionMode,
    /// When `true` this is the synthesis stage; exactly one agent must be listed and
    /// execution must be sequential.
    pub stop: bool,
    /// Optional chain-of-thought from the orchestrator (useful for debugging).
    pub reasoning: Option<String>,
}

/// A chunk of a turn's streamed answer.
#[derive(Debug)]
pub enum TurnChunkResponse {
    /// Incremental visible text chunk — forwarded to UI
    Content { agent_id: String, content: String },
    /// Incremental thought/reasoning — not forwarded to UI
    Thought { agent_id: String, thought: String },
    /// Pipeline status update — UI only
    Status { agent_id: String, status: String },
    /// Turn complete — carries the full turn response for storage
    Final { response: TurnResponse },
}

impl TurnChunkResponse {
    /// A visible text chunk of agent `agent_id`.
    pub fn content(agent_id: String, content: String) -> (r: Self)
        ensures
            r == (TurnChunkResponse::Content { agent_id, content }),
    {
        TurnChunkResponse::Content { agent_id, content }
    }

    /// A thought chunk of agent `agent_id`.
    pub fn thought(agent_id: String, thought: String) -> (r: Self)
        ensures
            r == (TurnChunkResponse::Thought { agent_id, thought }),
    {
        TurnChunkResponse::Thought { agent_id, thought }
    }

    /// A status update of agent `agent_id`.
    pub fn status(agent_id: String, status: String) -> (r: Self)
        ensures
            r == (TurnChunkResponse::Status { agent_id, status }),
    {
        TurnChunkResponse::Status { agent_id, status }
    }

    /// The closing chunk, carrying the full turn response.
    pub fn final_response(response: TurnResponse) -> (r: Self)
        ensures
            r == (TurnChunkResponse::Final { response }),
    {
        TurnChunkResponse::Final { response }
    }

    /// Whether this is the closing chunk.
    pub fn is_final(&self) -> (b: bool)
        ensures
            b == (*self is Final),
    {
        match self {
            TurnChunkResponse::Final { .. } => true,
            _ => false,
        }
    }

    /// The full turn response, where this is the closing chunk.
    pub fn turn_response(&self) -> (r: Option<&TurnResponse>)
        ensures
            r == (match *self {
                TurnChunkResponse::Final { response } => Some(&response),
                _ => None,
            }),
    {
        match self {
            TurnChunkResponse::Final { response } => Some(response),
            _ => None,
        }
    }
}

/// The recorded answer of a turn: who answered, what, and the tokens that
/// every agent of the turn consumed.
#[derive(Debug)]
pub struct TurnResponse {
    pub agent_id: String,
    pub prompt: String,
    /// The final response content.
    pub content: String,
    /// The model's response id.
    pub response_id: Option<String>,
    pub usage: TokenUsage,
    pub execution: TurnExecution,
}

/// How a turn was carried out.
#[derive(Debug)]
pub enum TurnExecution {
    /// One agent answered.
    SingleAgent { response: AgentResponse },
    /// An orchestrator set the goals once; the stages ran as configured.
    Deterministic {
        orchestrator: AgentResponse,
        stages: Vec<StageResponse>,
        synthesizer: Option<Box<TurnResponse>>,
    },
    /// The orchestrator decided each stage after the previous one.
    Dynamic { decisions: Vec<DecisionResponse>, synthesizer: Option<Box<TurnResponse>> },
}

/// The responses of one configured stage.
#[derive(Debug)]
pub struct StageResponse {
    pub name: String,
    pub responses: Vec<TurnResponse>,
    pub duration_ms: u64,
}

/// One decision of the orchestrator and the responses of the agents it chose.
#[derive(Debug)]
pub struct DecisionResponse {
    pub iteration: u32,
    pub decision: StageDecision,
    pub responses: Vec<TurnResponse>,
    pub duration_ms: u64,
}

/// A copy of the turn response `t`, part by part.
fn copy_turn(t: &TurnResponse) -> (r: TurnResponse)
    decreases t,
{
    TurnResponse {
        agent_id: t.agent_id.clone(),
        prompt: t.prompt.clone(),
        content: t.content.clone(),
        response_id: t.response_id.clone(),
        usage: t.usage,
        execution: copy_execution(&t.execution),
    }
}

/// A copy of the execution record `e`.
fn copy_execution(e: &TurnExecution) -> (r: TurnExecution)
    decreases e,
{
    match e {
        TurnExecution::SingleAgent { response } => TurnExecution::SingleAgent { response: response.clone() },
        TurnExecution::Deterministic { orchestrator, stages, synthesizer } => TurnExecution::Deterministic {
            orchestrator: orchestrator.clone(),
            stages: copy_stages(stages),
            synthesizer: copy_synthesizer(synthesizer),
        },
        TurnExecution::Dynamic { decisions, synthesizer } => TurnExecution::Dynamic {
            decisions: copy_decisions(decisions),
            synthesizer: copy_synthesizer(synthesizer),
        },
    }
}

/// A copy of the synthesizer's response `s`, if there is one.
fn copy_synthesizer(s: &Option<Box<TurnResponse>>) -> (r: Option<Box<TurnResponse>>)
    decreases s,
{
    match s {
        Some(b) => Some(Box::new(copy_turn(b))),
        None => None,
    }
}

/// A copy of each response of `rs`, in order.
fn copy_turns(rs: &Vec<TurnResponse>) -> (r: Vec<TurnResponse>)
    decreases rs,
{
    let mut r: Vec<TurnResponse> = Vec::new();
    let mut i: usize = 0;
    while i < rs.len()
        invariant
            i <= rs@.len(),
        decreases rs@.len() - i,
    {
        proof {
            assert(decreases_to!(rs => rs@[i as int]));
        }
        r.push(copy_turn(&rs[i]));
        i = i + 1;
    }
    r
}

/// A copy of the stage response `s`.
fn copy_stage(s: &StageResponse) -> (r: StageResponse)
    decreases s,
{
    StageResponse { name: s.name.clone(), responses: copy_turns(&s.responses), duration_ms: s.duration_ms }
}

/// A copy of each stage response of `ss`, in order.
fn copy_stages(ss: &Vec<StageResponse>) -> (r: Vec<StageResponse>)
    decreases ss,
{
    let mut r: Vec<StageResponse> = Vec::new();
    let mut i: usize = 0;
    while i < ss.len()
        invariant
            i <= ss@.len(),
        decreases ss@.len() - i,
    {
        proof {
            assert(decreases_to!(ss => ss@[i as int]));
        }
        r.push(copy_stage(&ss[i]));
        i = i + 1;
    }
    r
}

/// A copy of the decision response `d`.
fn copy_decision(d: &DecisionResponse) -> (r: DecisionResponse)
    decreases d,
{
    DecisionResponse {
        iteration: d.iteration,
        decision: d.decision.clone(),
        responses: copy_turns(&d.responses),
        duration_ms: d.duration_ms,
    }
}

/// A copy of each decision response of `ds`, in order.
fn copy_decisions(ds: &Vec<DecisionResponse>) -> (r: Vec<DecisionResponse>)
    decreases ds,
{
    let mut r: Vec<DecisionResponse> = Vec::new();
    let mut i: usize = 0;
    while i < ds.len()
        invariant
            i <= ds@.len(),
        decreases ds@.len() - i,
    {
        proof {
            assert(decreases_to!(ds => ds@[i as int]));
        }
        r.push(copy_decision(&ds[i]));
        i = i + 1;
    }
    r
}

impl Clone for TurnResponse {
    fn clone(&self) -> Self {
        copy_turn(self)
    }
}

impl Clone for TurnExecution {
    fn clone(&self) -> Self {
        copy_execution(self)
    }
}

impl Clone for StageResponse {
    fn clone(&self) -> Self {
        copy_stage(self)
    }
}

impl Clone for DecisionResponse {
    fn clone(&self) -> Self {
        copy_decision(self)
    }
}

impl Clone for TurnChunkResponse {
    fn clone(&self) -> Self {
        match self {
            TurnChunkResponse::Content { agent_id, content } => TurnChunkResponse::Content {
                agent_id: agent_id.clone(),
                content: content.clone(),
            },
            TurnChunkResponse::Thought { agent_id, thought } => TurnChunkResponse::Thought {
                agent_id: agent_id.clone(),
                thought: thought.clone(),
            },
            TurnChunkResponse::Status { agent_id, status } => TurnChunkResponse::Status {
                agent_id: agent_id.clone(),
                status: status.clone(),
            },
            TurnChunkResponse::Final { response } => TurnChunkResponse::Final { response: copy_turn(response) },
        }
    }
}

/// The token counts of the responses `rs`, added up.
pub open spec fn usage_sum(rs: Seq<TurnResponse>) -> (int, int, int)
    decreases rs.len(),
{
    if rs.len() == 0 {
        zero()
    } else {
        plus(usage_sum(rs.drop_last()), counts(rs.last().usage))
    }
}

/// A turn's usage does not depend on how its responses are grouped: adding
/// the responses `a`, then the responses `b`, gives what adding `a + b` at
/// once gives.
pub proof fn usage_grouping_is_irrelevant(u: (int, int, int), a: Seq<TurnResponse>, b: Seq<TurnResponse>)
    ensures
        usage_sum(a + b) == plus(usage_sum(a), usage_sum(b)),
        plus(plus(u, usage_sum(a)), usage_sum(b)) == plus(u, usage_sum(a + b)),
    decreases b.len(),
{
    if b.len() == 0 {
        assert(a + b =~= a);
    } else {
        usage_grouping_is_irrelevant(u, a, b.drop_last());
        assert((a + b).drop_last() =~= a + b.drop_last());
    }
}

/// The token counts after adding the responses of the stages `ss` to `u`,
/// one stage after another, as `add_stage` does.
pub open spec fn usage_after_stages(u: (int, int, int), ss: Seq<StageResponse>) -> (int, int, int)
    decreases ss.len(),
{
    if ss.len() == 0 {
        u
    } else {
        plus(usage_after_stages(u, ss.drop_last()), usage_sum(ss.last().responses@))
    }
}

/// The responses of the stages `ss`, in order.
pub open spec fn stage_responses(ss: Seq<StageResponse>) -> Seq<TurnResponse>
    decreases ss.len(),
{
    if ss.len() == 0 {
        seq![]
    } else {
        stage_responses(ss.drop_last()) + ss.last().responses@
    }
}

/// A deterministic turn's usage, after its stages and its synthesizer, is the
/// orchestrator's usage plus that of every stage response plus the
/// synthesizer's.
pub proof fn deterministic_turn_usage(orchestrator: TokenUsage, ss: Seq<StageResponse>, synthesizer: TokenUsage)
    ensures
        usage_after_stages(counts(orchestrator), ss) == plus(
            counts(orchestrator),
            usage_sum(stage_responses(ss)),
        ),
        plus(usage_after_stages(counts(orchestrator), ss), counts(synthesizer)) == plus(
            plus(counts(orchestrator), usage_sum(stage_responses(ss))),
            counts(synthesizer),
        ),
    decreases ss.len(),
{
    if ss.len() > 0 {
        deterministic_turn_usage(orchestrator, ss.drop_last(), synthesizer);
        usage_grouping_is_irrelevant(
            counts(orchestrator),
            stage_responses(ss.drop_last()),
            ss.last().responses@,
        );
    } else {
        assert(usage_sum(stage_responses(ss)) == zero());
    }
}

/// The name that `as_str` gives a mode.
pub open spec fn mode_name(m: ExecutionMode) -> Seq<char> {
    match m {
        ExecutionMode::Sequential => "sequential"@,
        ExecutionMode::Parallel => "parallel"@,
    }
}

/// A mode's own name reads back as that mode: the name is ASCII and already
/// lowercase, so `parse` of it gives the mode.
pub proof fn mode_name_round_trip(m: ExecutionMode, given: Seq<char>)
    ensures
        mode_named(mode_name(m), given) == Ok::<ExecutionMode, Seq<char>>(m),
        is_ascii_chars(mode_name(m)),
        ascii_lowercase(mode_name(m)) == mode_name(m),
        mode_named(ascii_lowercase(mode_name(m)), given) == Ok::<ExecutionMode, Seq<char>>(m),
{
    reveal_strlit("sequential");
    reveal_strlit("parallel");
    assert("sequential"@[0] == 's');
    assert("parallel"@[0] == 'p');
    assert(ascii_lowercase(mode_name(m)) =~= mode_name(m));
}

/// Parsing is blind to letter case on ASCII text: a name and its lowercase
/// form give the same mode, or both give an error.
pub proof fn mode_parse_ignores_case(s: Seq<char>)
    requires
        is_ascii_chars(s),
    ensures
        mode_named(ascii_lowercase(ascii_lowercase(s)), ascii_lowercase(s)) is Ok
            <==> mode_named(ascii_lowercase(s), s) is Ok,
        mode_named(ascii_lowercase(s), s) is Ok ==> mode_named(
            ascii_lowercase(ascii_lowercase(s)),
            ascii_lowercase(s),
        ) == mode_named(ascii_lowercase(s), s),
{
    crate::text::ascii_lowercase_is_idempotent(s);
}

/// Every partial sum of token counts over a prefix is at most the full sum.
proof fn lemma_usage_sum_prefix(rs: Seq<TurnResponse>, i: int)
    requires
        0 <= i <= rs.len(),
    ensures
        usage_sum(rs.take(i)).0 <= usage_sum(rs).0,
        usage_sum(rs.take(i)).1 <= usage_sum(rs).1,
        usage_sum(rs.take(i)).2 <= usage_sum(rs).2,
        0 <= usage_sum(rs.take(i)).0,
        0 <= usage_sum(rs.take(i)).1,
        0 <= usage_sum(rs.take(i)).2,
    decreases rs.len(),
{
    if i == rs.len() {
        assert(rs.take(i) =~= rs);
        lemma_usage_sum_nonneg(rs);
    } else {
        assert(rs.drop_last().take(i) =~= rs.take(i));
        lemma_usage_sum_prefix(rs.drop_last(), i);
    }
}

proof fn lemma_usage_sum_nonneg(rs: Seq<TurnResponse>)
    ensures
        0 <= usage_sum(rs).0,
        0 <= usage_sum(rs).1,
        0 <= usage_sum(rs).2,
    decreases rs.len(),
{
    if rs.len() > 0 {
        lemma_usage_sum_nonneg(rs.drop_last());
    }
}

/// Adds the token counts of every response in `rs` to `usage`.
fn add_usages(usage: &mut TokenUsage, rs: &Vec<TurnResponse>)
    requires
        fits(plus(counts(*old(usage)), usage_sum(rs@))),
    ensures
        counts(*final(usage)) == plus(counts(*old(usage)), usage_sum(rs@)),
{
    let ghost start = counts(*usage);
    let mut i: usize = 0;
    while i < rs.len()
        invariant
            i <= rs.len(),
            fits(plus(start, usage_sum(rs@))),
            counts(*usage) == plus(start, usage_sum(rs@.take(i as int))),
        decreases rs.len() - i,
    {
        proof {
            assert(rs@.take(i + 1).drop_last() =~= rs@.take(i as int));
            lemma_usage_sum_prefix(rs@, i + 1);
        }
        usage.accumulate(rs[i].usage);
        i = i + 1;
    }
    assert(rs@.take(i as int) =~= rs@);
}

/// Whether `a` and `b` agree on everything but their usage and execution.
pub open spec fn same_header(a: TurnResponse, b: TurnResponse) -> bool {
    &&& a.agent_id == b.agent_id
    &&& a.prompt == b.prompt
    &&& a.content == b.content
    &&& a.response_id == b.response_id
}

impl TurnResponse {
    /// The turn answered by one agent: its id, content, response id and usage,
    /// with the agent's response kept whole.
    pub fn for_single_agent(prompt: String, agent_response: AgentResponse) -> (r: Self)
        ensures
            r.agent_id == agent_response.agent_id,
            r.prompt == prompt,
            r.content == agent_response.content,
            r.response_id == Some(agent_response.response_id),
            r.usage == agent_response.usage,
            r.execution == (TurnExecution::SingleAgent { response: agent_response }),
    {
        let agent_id = agent_response.agent_id.clone();
        let content = agent_response.content.clone();
        let response_id = agent_response.response_id.clone();
        let usage = agent_response.usage;
        TurnResponse {
            agent_id,
            prompt,
            content,
            response_id: Some(response_id),
            usage,
            execution: TurnExecution::SingleAgent { response: agent_response },
        }
    }

    /// A turn driven by configured stages, started from the orchestrator's
    /// goal-setting response: no content or stages yet, the orchestrator's usage.
    pub fn for_deterministic(prompt: String, orchestrator_response: AgentResponse) -> (r: Self)
        ensures
            r.agent_id == orchestrator_response.agent_id,
            r.prompt == prompt,
            r.content@.len() == 0,
            r.response_id is None,
            r.usage == orchestrator_response.usage,
            r.execution is Deterministic,
            r.execution->Deterministic_orchestrator == orchestrator_response,
            r.execution->Deterministic_stages@.len() == 0,
            r.execution->Deterministic_synthesizer is None,
    {
        let agent_id = orchestrator_response.agent_id.clone();
        let usage = orchestrator_response.usage;
        TurnResponse {
            agent_id,
            prompt,
            content: String::new(),
            response_id: None,
            usage,
            execution: TurnExecution::Deterministic {
                orchestrator: orchestrator_response,
                stages: Vec::new(),
                synthesizer: None,
            },
        }
    }

    /// A turn whose stages the orchestrator decides as it goes: no content,
    /// decisions or usage yet.
    pub fn for_dynamic(agent_id: String, prompt: String) -> (r: Self)
        ensures
            r.agent_id == agent_id,
            r.prompt == prompt,
            r.content@.len() == 0,
            r.response_id is None,
            counts(r.usage) == zero(),
            r.execution is Dynamic,
            r.execution->Dynamic_decisions@.len() == 0,
            r.execution->Dynamic_synthesizer is None,
    {
        TurnResponse {
            agent_id,
            prompt,
            content: String::new(),
            response_id: None,
            usage: TokenUsage::default(),
            execution: TurnExecution::Dynamic { decisions: Vec::new(), synthesizer: None },
        }
    }

    /// Records a finished stage of a deterministic turn and adds the usage of
    /// its responses to the turn's; any other turn is left as it is.
    pub fn add_stage(&mut self, stage: StageResponse)
        requires
            old(self).execution is Deterministic ==> fits(
                plus(counts(old(self).usage), usage_sum(stage.responses@)),
            ),
        ensures
            old(self).execution is Deterministic ==> {
                &&& same_header(*final(self), *old(self))
                &&& counts(final(self).usage) == plus(
                    counts(old(self).usage),
                    usage_sum(stage.responses@),
                )
                &&& final(self).execution is Deterministic
                &&& final(self).execution->Deterministic_orchestrator == old(
                    self,
                ).execution->Deterministic_orchestrator
                &&& final(self).execution->Deterministic_stages@ == old(
                    self,
                ).execution->Deterministic_stages@.push(stage)
                &&& final(self).execution->Deterministic_synthesizer == old(
                    self,
                ).execution->Deterministic_synthesizer
            },
            !(old(self).execution is Deterministic) ==> *final(self) == *old(self),
    {
        if let TurnExecution::Deterministic { .. } = &self.execution {
            add_usages(&mut self.usage, &stage.responses);
            match &mut self.execution {
                TurnExecution::Deterministic { stages, .. } => {
                    stages.push(stage);
                },
                _ => {},
            }
        }
    }

    /// Records an orchestrator decision of a dynamic turn and adds the usage
    /// of its responses to the turn's; any other turn is left as it is.
    pub fn add_decision(&mut self, decision: DecisionResponse)
        requires
            old(self).execution is Dynamic ==> fits(
                plus(counts(old(self).usage), usage_sum(decision.responses@)),
            ),
        ensures
            old(self).execution is Dynamic ==> {
                &&& same_header(*final(self), *old(self))
                &&& counts(final(self).usage) == plus(
                    counts(old(self).usage),
                    usage_sum(decision.responses@),
                )
                &&& final(self).execution is Dynamic
                &&& final(self).execution->Dynamic_decisions@ == old(
                    self,
                ).execution->Dynamic_decisions@.push(decision)
                &&& final(self).execution->Dynamic_synthesizer == old(
                    self,
                ).execution->Dynamic_synthesizer
            },
            !(old(self).execution is Dynamic) ==> *final(self) == *old(self),
    {
        if let TurnExecution::Dynamic { .. } = &self.execution {
            add_usages(&mut self.usage, &decision.responses);
            match &mut self.execution {
                TurnExecution::Dynamic { decisions, .. } => {
                    decisions.push(decision);
                },
                _ => {},
            }
        }
    }

    /// Takes the content of the final response, adds its usage to the turn's,
    /// and keeps it as the synthesizer of a deterministic or dynamic turn.
    pub fn set_synthesizer(&mut self, final_response: TurnResponse)
        requires
            fits(plus(counts(old(self).usage), counts(final_response.usage))),
        ensures
            final(self).agent_id == old(self).agent_id,
            final(self).prompt == old(self).prompt,
            final(self).response_id == old(self).response_id,
            final(self).content == final_response.content,
            counts(final(self).usage) == plus(counts(old(self).usage), counts(final_response.usage)),
            match old(self).execution {
                TurnExecution::SingleAgent { .. } => final(self).execution == old(self).execution,
                TurnExecution::Deterministic { orchestrator, stages, .. } => final(self).execution
                    == (TurnExecution::Deterministic {
                    orchestrator,
                    stages,
                    synthesizer: Some(Box::new(final_response)),
                }),
                TurnExecution::Dynamic { decisions, .. } => final(self).execution == (
                TurnExecution::Dynamic { decisions, synthesizer: Some(Box::new(final_response)) }),
            },
    {
        self.content = final_response.content.clone();
        self.usage.accumulate(final_response.usage);
        match &mut self.execution {
            TurnExecution::Deterministic { synthesizer, .. } => {
                *synthesizer = Some(Box::new(final_response));
            },
            TurnExecution::Dynamic { synthesizer, .. } => {
                *synthesizer = Some(Box::new(final_response));
            },
            _ => {},
        }
    }
}

} // verus!
