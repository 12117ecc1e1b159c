use chat_backend_rs::agent_input::{AgentInput, LlmConfig, Preset};

fn cfg(llm: Option<&str>, model: Option<&str>, preset: Option<&str>) -> LlmConfig {
    LlmConfig {
        llm: llm.map(|s| s.to_string()),
        model: model.map(|s| s.to_string()),
        preset: preset.map(|s| Preset { name: s.to_string() }),
    }
}

#[test]
fn merge_prefers_self_and_fills_gaps() {
    let a = cfg(Some("anthropic"), None, None);
    let b = cfg(Some("openai"), Some("gpt"), Some("fast"));
    assert_eq!(a.merge(b), cfg(Some("anthropic"), Some("gpt"), Some("fast")));
}

#[test]
fn merge_with_empty_is_identity() {
    let a = cfg(Some("x"), None, Some("p"));
    assert_eq!(a.clone().merge(LlmConfig::empty()), a.clone());
    assert_eq!(LlmConfig::empty().merge(a.clone()), a);
}

#[test]
fn merge_is_idempotent_and_associative() {
    let a = cfg(None, Some("m1"), None);
    let b = cfg(Some("l2"), Some("m2"), None);
    let c = cfg(Some("l3"), None, Some("p3"));
    assert_eq!(a.clone().merge(a.clone()), a.clone());
    assert_eq!(
        a.clone().merge(b.clone()).merge(c.clone()),
        a.merge(b.merge(c))
    );
}

#[test]
fn agent_input_new_has_no_subs() {
    let i = AgentInput::new("agent".to_string(), cfg(Some("gemini"), None, None), None, true);
    assert_eq!(i.agent_id, "agent");
    assert!(i.subs.is_empty());
    assert!(i.relay_tool_output);
    assert_eq!(i.system_prompt, None);
    assert_eq!(i.llm_config, cfg(Some("gemini"), None, None));
}

#[test]
fn agent_input_clone_copies_sub_agents() {
    let mut parent = AgentInput::new("parent".to_string(), cfg(Some("gemini"), None, None), Some("sys".to_string()), false);
    parent.subs.push(AgentInput::new("child".to_string(), cfg(None, Some("m"), None), None, true));
    let c = parent.clone();
    assert_eq!(c.agent_id, "parent");
    assert_eq!(c.system_prompt, Some("sys".to_string()));
    assert_eq!(c.subs.len(), 1);
    assert_eq!(c.subs[0].agent_id, "child");
    assert!(c.subs[0].relay_tool_output);
}

#[test]
fn llm_config_default_is_empty() {
    let d = LlmConfig::default();
    assert_eq!(d, LlmConfig::empty());
    assert_eq!(d.llm, None);
    assert_eq!(d.model, None);
    assert_eq!(d.preset, None);
}
