use chat_backend_rs::chat::{
    Chat, ChatResponse, ChatStreamingMessage, CompletionMessage, CompletionResponseContent, MessageRole,
};
use chat_backend_rs::providers::{
    AgentService, LlmClientConfig, LlmEnv, LlmError, LlmKind, LlmProvider, ProviderDefault,
};
use chat_backend_rs::service::ChatService;

fn chat() -> Chat {
    Chat::with_id("c1".to_string(), "Gemini".to_string(), "m".to_string(), "t".to_string(), None, "p".to_string(), false)
}

#[test]
fn agents_are_kept_by_provider_and_model() {
    let mut s: ChatService<(), u32> = ChatService::new(());
    assert_eq!(s.key("OpenAI", "gpt"), "OpenAI:gpt");
    assert!(s.find_agent("OpenAI", "gpt").is_none());
    s.add_agent("OpenAI", "gpt", 1);
    s.add_agent("Gemini", "gem", 2);
    assert_eq!(*s.get_agent("OpenAI", "gpt"), 1);
    assert_eq!(*s.get_agent("Gemini", "gem"), 2);
    s.add_agent("OpenAI", "gpt", 3);
    assert_eq!(s.find_agent("OpenAI", "gpt"), Some(&3));
    assert!(s.find_agent("OpenAI", "gem").is_none());
    assert_eq!(*s.storage(), ());
}

#[test]
fn providers_are_replaced_and_listed() {
    let mut s: ChatService<(), u32> = ChatService::new(());
    assert!(s.get_llm_providers().is_empty());
    s.add_llm_provider(vec![LlmProvider::new("Gemini", "gem-3")]);
    s.add_llm_provider(vec![LlmProvider::new("OpenAI", "nano"), LlmProvider::new("Anthropic", "sonnet")]);
    let p = s.get_llm_providers();
    assert_eq!(p.len(), 2);
    assert_eq!(p[0], LlmProvider { id: "openai".to_string(), llm: "OpenAI".to_string(), models: vec!["nano".to_string()] });
    assert_eq!(p[1].id, "anthropic");
}

#[test]
fn completion_round_trip() {
    let s: ChatService<(), u32> = ChatService::new(());
    let mut c = chat();
    c.update_assistant_message("earlier".to_string(), "r0".to_string());
    let msgs = s.start_completion(&mut c, "next".to_string());
    assert_eq!(
        msgs,
        vec![
            CompletionMessage::Assistant { content: "earlier".to_string(), response_id: Some("r0".to_string()) },
            CompletionMessage::User { content: "next".to_string(), response_id: None },
        ]
    );
    let r = s.finish_completion(
        &mut c,
        vec![
            CompletionResponseContent::Text("one".to_string()),
            CompletionResponseContent::Other,
            CompletionResponseContent::Text("two".to_string()),
        ],
        "r1".to_string(),
    );
    assert_eq!(
        r,
        ChatResponse {
            id: "c1".to_string(),
            role: "assistant".to_string(),
            content: Some("two".to_string()),
            response_id: Some("r1".to_string()),
        }
    );
    assert_eq!(c.messages.len(), 4);
    assert_eq!(c.messages[2].content, "one");
    assert_eq!(c.messages[3].content, "two");
    assert_eq!(c.messages[3].role, MessageRole::Assistant);
    assert_eq!(c.messages[3].response_id, Some("r1".to_string()));
}

#[test]
fn completion_without_text_answers_empty() {
    let s: ChatService<(), u32> = ChatService::new(());
    let mut c = chat();
    let r = s.finish_completion(&mut c, vec![CompletionResponseContent::Other], "r".to_string());
    assert_eq!(r.content, Some(String::new()));
    assert!(c.messages.is_empty());
}

#[test]
fn streaming_message_is_recorded() {
    let s: ChatService<(), u32> = ChatService::new(());
    let mut c = chat();
    s.record_streaming_message(
        &mut c,
        ChatStreamingMessage {
            id: "c1".to_string(),
            user_content: "u".to_string(),
            assistant_content: "a".to_string(),
            response_id: "r".to_string(),
        },
    );
    assert_eq!(c.messages.len(), 2);
    assert_eq!(c.messages[0].role, MessageRole::User);
    assert_eq!(c.messages[1].content, "a");
    assert_eq!(s.create_completion_messages(&c).len(), 2);
}

fn env(a: Option<&str>, v: Option<&str>, g: Option<&str>, o: Option<&str>) -> LlmEnv {
    let own = |x: Option<&str>| x.map(|s| s.to_string());
    LlmEnv { anthropic_api_key: own(a), anthropic_version: own(v), gemini_api_key: own(g), openai_api_key: own(o) }
}

#[test]
fn get_llm_chooses_client() {
    let s = AgentService::new();
    let all = env(Some("ak"), Some("2023"), Some("gk"), Some("ok"));
    assert_eq!(
        s.get_llm("Anthropic", "sonnet".to_string(), all.clone()),
        Ok(LlmClientConfig { kind: LlmKind::Anthropic, api_key: "ak".to_string(), version: Some("2023".to_string()), model: "sonnet".to_string() })
    );
    assert_eq!(s.get_llm("Gemini", "g".to_string(), all.clone()).unwrap().api_key, "gk");
    assert_eq!(s.get_llm("OpenAI", "o".to_string(), all.clone()).unwrap().kind, LlmKind::OpenAI);
    let e = s.get_llm("gemini", "g".to_string(), all).unwrap_err();
    assert_eq!(e, LlmError::Unsupported("gemini".to_string()));
    assert_eq!(e.message(), "Llm client for 'gemini' is not supported");
}

#[test]
fn get_llm_reports_first_missing_variable() {
    let s = AgentService::new();
    let e = s.get_llm("Anthropic", "m".to_string(), env(None, None, None, None)).unwrap_err();
    assert_eq!(e.message(), "ANTHROPIC_API_KEY environment variable not set");
    let c = s.get_llm("Anthropic", "m".to_string(), env(Some("k"), None, None, None)).unwrap();
    assert_eq!(c.version, Some("2023-06-01".to_string()));
    assert_eq!(c.api_key, "k");
    let e = s.get_llm("Gemini", "m".to_string(), env(Some("k"), Some("v"), None, Some("o"))).unwrap_err();
    assert_eq!(e.message(), "GEMINI_API_KEY environment variable not set");
    let e = s.get_llm("OpenAI", "m".to_string(), env(None, None, Some("g"), None)).unwrap_err();
    assert_eq!(e.message(), "OPENAI_API_KEY environment variable not set");
}

#[test]
fn providers_are_listed_in_order_with_lowercase_ids() {
    let s = AgentService::new();
    let d = |l: &str, m: &str| ProviderDefault { llm: l.to_string(), model: m.to_string() };
    let p = s.get_llm_providers(&d("Gemini", "gem-3"), &d("OpenAI", "nano"), &d("Anthropic", "sonnet"));
    let ids: Vec<&str> = p.iter().map(|x| x.id.as_str()).collect();
    assert_eq!(ids, vec!["gemini", "openai", "anthropic"]);
    assert_eq!(p[0].llm, "Gemini");
    assert_eq!(p[2].models, vec!["sonnet".to_string()]);
    assert_eq!(s.llm_kind("Gemini"), Some(LlmKind::Gemini));
    assert_eq!(s.llm_kind("Bard"), None);
}

#[test]
fn agent_keys_collide_only_through_colons() {
    let mut s: ChatService<(), u32> = ChatService::new(());
    s.add_agent("a", "b:c", 1);
    s.add_agent("a:b", "c", 2);
    // Both pairs share the key "a:b:c": the second replaces the first.
    assert_eq!(s.find_agent("a", "b:c"), Some(&2));
    s.add_agent("x", "y", 3);
    s.add_agent("xy", "", 4);
    assert_eq!(s.find_agent("x", "y"), Some(&3));
    assert_eq!(s.find_agent("xy", ""), Some(&4));
}
