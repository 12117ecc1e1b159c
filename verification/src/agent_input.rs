//! What an agent is built from: its id, its model settings and its prompt.
use vstd::prelude::*;

verus! {

/// A named set of completion settings (temperature, token budget, ...) that a
/// provider keeps under this name.
#[derive(Debug, Clone, PartialEq)]
pub struct Preset {
    pub name: String,
}

/// Which provider and model an agent runs on; each part may be left open.
#[derive(Debug, Clone, PartialEq)]
pub struct LlmConfig {
    /// Provider ID (e.g. `"anthropic"`, `"openai"`).
    pub llm: Option<String>,
    /// Model identifier forwarded to the provider.
    pub model: Option<String>,
    pub preset: Option<Preset>,
}

/// The first of two optional values that is present (`Option::or`).
pub open spec fn first_some<T>(a: Option<T>, b: Option<T>) -> Option<T> {
    match a {
        Some(x) => Some(x),
        None => b,
    }
}

/// The configuration that `a.merge(b)` returns: each part taken from `a`
/// where `a` has it, else from `b`.
pub open spec fn merged(a: LlmConfig, b: LlmConfig) -> LlmConfig {
    LlmConfig {
        llm: first_some(a.llm, b.llm),
        model: first_some(a.model, b.model),
        preset: first_some(a.preset, b.preset),
    }
}

/// The configuration with every part left open.
pub open spec fn empty_config() -> LlmConfig {
    LlmConfig { llm: None, model: None, preset: None }
}

impl Default for LlmConfig {
    /// The configuration with every part left open.
    fn default() -> (r: LlmConfig)
        ensures
            r == empty_config(),
    {
        LlmConfig { llm: None, model: None, preset: None }
    }
}

fn or_option<T>(a: Option<T>, b: Option<T>) -> (r: Option<T>)
    ensures
        r == first_some(a, b),
{
    match a {
        Some(x) => Some(x),
        None => b,
    }
}

impl LlmConfig {
    /// The configuration with every part left open.
    pub fn empty() -> (r: LlmConfig)
        ensures
            r == empty_config(),
    {
        LlmConfig { llm: None, model: None, preset: None }
    }

    /// Merge two configs — self takes priority, other fills in missing fields
    pub fn merge(self, other: LlmConfig) -> (r: LlmConfig)
        ensures
            r == merged(self, other),
    {
        LlmConfig {
            llm: or_option(self.llm, other.llm),
            model: or_option(self.model, other.model),
            preset: or_option(self.preset, other.preset),
        }
    }
}

/// A part that `a` sets survives a merge unchanged, whatever `b` holds; a part
/// that `a` leaves open is taken from `b`.
pub proof fn merge_prefers_self(a: LlmConfig, b: LlmConfig)
    ensures
        a.llm is Some ==> merged(a, b).llm == a.llm,
        a.model is Some ==> merged(a, b).model == a.model,
        a.preset is Some ==> merged(a, b).preset == a.preset,
        a.llm is None ==> merged(a, b).llm == b.llm,
        a.model is None ==> merged(a, b).model == b.model,
        a.preset is None ==> merged(a, b).preset == b.preset,
{
}

/// Merging with the empty configuration, on either side, changes nothing.
pub proof fn merge_empty_is_identity(a: LlmConfig)
    ensures
        merged(a, empty_config()) == a,
        merged(empty_config(), a) == a,
{
    match a.llm {
        Some(_) => {},
        None => {},
    }
}

/// Merging a configuration with itself gives it back.
pub proof fn merge_is_idempotent(a: LlmConfig)
    ensures
        merged(a, a) == a,
{
}

/// Merges may be grouped either way: a chain of fallbacks means the same
/// however it is built.
pub proof fn merge_is_associative(a: LlmConfig, b: LlmConfig, c: LlmConfig)
    ensures
        merged(merged(a, b), c) == merged(a, merged(b, c)),
{
}

/// What an agent is built from.
#[derive(Debug)]
pub struct AgentInput {
    pub agent_id: String,
    pub llm_config: LlmConfig,
    /// Optional system prompt override; `None` falls back to an empty string.
    pub system_prompt: Option<String>,
    /// Nested sub-agent inputs; empty for leaf agents, unused by `new()`.
    pub subs: Vec<AgentInput>,
    pub relay_tool_output: bool,
}

/// A copy of the agent input `a`, with a copy of each of its sub-agents.
fn copy_input(a: &AgentInput) -> (r: AgentInput)
    decreases a,
{
    AgentInput {
        agent_id: a.agent_id.clone(),
        llm_config: a.llm_config.clone(),
        system_prompt: a.system_prompt.clone(),
        subs: copy_inputs(&a.subs),
        relay_tool_output: a.relay_tool_output,
    }
}

/// A copy of each agent input of `xs`, in order.
fn copy_inputs(xs: &Vec<AgentInput>) -> (r: Vec<AgentInput>)
    decreases xs,
{
    let mut r: Vec<AgentInput> = Vec::new();
    let mut i: usize = 0;
    while i < xs.len()
        invariant
            i <= xs@.len(),
        decreases xs@.len() - i,
    {
        proof {
            assert(decreases_to!(xs => xs@[i as int]));
        }
        r.push(copy_input(&xs[i]));
        i = i + 1;
    }
    r
}

impl Clone for AgentInput {
    fn clone(&self) -> Self {
        copy_input(self)
    }
}

impl AgentInput {
    /// A leaf agent input: the given parts and no sub-agents.
    pub fn new(
        agent_id: String,
        llm_config: LlmConfig,
        system_prompt: Option<String>,
        relay_tool_output: bool,
    ) -> (r: Self)
        ensures
            r.agent_id == agent_id,
            r.llm_config == llm_config,
            r.system_prompt == system_prompt,
            r.subs@.len() == 0,
            r.relay_tool_output == relay_tool_output,
    {
        AgentInput { agent_id, llm_config, system_prompt, subs: Vec::new(), relay_tool_output }
    }
}

} // verus!
