use chat_backend_rs::chat::{
    Chat, ChatConfig, ChatError, ChatErrorResponse, ChatMessage, ChatRequest, MessageRole, ERROR_STATUS,
};
use chat_backend_rs::store::ChatMap;

fn config() -> ChatConfig {
    ChatConfig {
        llm: Some("Gemini".to_string()),
        model: Some("gem-1".to_string()),
        title: Some("Trip".to_string()),
        system: Some("Be brief".to_string()),
        prompt: Some("Plan".to_string()),
        stream: true,
    }
}

fn is_uuid(id: &str) -> bool {
    let cs: Vec<char> = id.chars().collect();
    id.len() == 36
        && cs[14] == '4'
        && "89ab".contains(cs[19])
        && id.chars().enumerate().all(|(i, c)| {
            if i == 8 || i == 13 || i == 18 || i == 23 {
                c == '-'
            } else {
                c.is_ascii_digit() || ('a'..='f').contains(&c)
            }
        })
}

#[test]
fn validate_builds_chat_with_fresh_id() {
    let chat = config().validate().unwrap();
    assert!(is_uuid(&chat.id));
    assert_eq!(chat.llm, "Gemini");
    assert_eq!(chat.model, "gem-1");
    assert_eq!(chat.title, "Trip");
    assert_eq!(chat.system, Some("Be brief".to_string()));
    assert_eq!(chat.prompt, "Plan");
    assert!(chat.stream);
    assert!(chat.messages.is_empty());
    let other = config().validate().unwrap();
    assert_ne!(chat.id, other.id);
}

#[test]
fn validate_reports_first_missing_part() {
    let mut c = config();
    c.llm = None;
    c.title = None;
    assert_eq!(c.validate(), Err(ChatError::LlmBlank));
    let mut c = config();
    c.model = None;
    assert_eq!(c.validate(), Err(ChatError::ModelBlank));
    let mut c = config();
    c.title = None;
    c.prompt = None;
    assert_eq!(c.validate(), Err(ChatError::TitleBlank));
    let mut c = config();
    c.prompt = None;
    assert_eq!(c.validate_with_id("x".to_string()), Err(ChatError::PromptBlank));
    let mut c = config();
    c.system = None;
    assert_eq!(c.validate_with_id("x".to_string()).unwrap().system, None);
}

#[test]
fn error_messages() {
    assert_eq!(ChatError::LlmBlank.message(), "Llm cannot be blank.");
    assert_eq!(ChatError::ModelBlank.message(), "Model cannot be blank");
    assert_eq!(ChatError::TitleBlank.message(), "Title cannot be blank");
    assert_eq!(ChatError::PromptBlank.message(), "Prompt cannot be blank");
    assert_eq!(ChatError::NotFound("c1".to_string()).message(), "Chat not found: c1");
    assert_eq!(ChatError::AlreadyExists("c1".to_string()).message(), "Chat already exists: \"c1\"");
    let r = ChatErrorResponse::new("Chat Error", "Chat not found: c1".to_string());
    assert_eq!(r.error, "Chat Error");
    assert_eq!(r.detail, "Chat not found: c1");
    assert_eq!(ERROR_STATUS, 400);
}

#[test]
fn chat_new_and_messages() {
    let mut chat = Chat::new("OpenAI".to_string(), "m".to_string(), "t".to_string(), None, "p".to_string(), false);
    assert!(is_uuid(&chat.id));
    chat.update_user_message("hi".to_string());
    chat.update_assistant_message("hello".to_string(), "r1".to_string());
    assert_eq!(
        chat.messages,
        vec![
            ChatMessage { role: MessageRole::User, content: "hi".to_string(), response_id: None },
            ChatMessage { role: MessageRole::Assistant, content: "hello".to_string(), response_id: Some("r1".to_string()) },
        ]
    );
    assert_eq!(chat.clone(), chat);
    assert_eq!(MessageRole::User.as_str(), "user");
    assert_eq!(MessageRole::Assistant.as_str(), "assistant");
}

#[test]
fn store_reads_back_what_it_stored() {
    let mut m = ChatMap::new();
    let chat = m.add_chat_with_id("c1".to_string(), config()).unwrap();
    assert_eq!(chat.id, "c1");
    assert_eq!(m.get_chat_by_id("c1".to_string()), Ok(chat.clone()));
    assert_eq!(m.get_chat_by_id("c2".to_string()), Err(ChatError::NotFound("c2".to_string())));
    assert_eq!(m.get_chats(), vec![chat]);
}

#[test]
fn store_add_chat_to_map_uses_fresh_ids() {
    let mut m = ChatMap::new();
    let a = m.add_chat_to_map(config()).unwrap();
    let b = m.add_chat_to_map(config()).unwrap();
    assert!(is_uuid(&a.id) && is_uuid(&b.id));
    assert_eq!(m.get_chats().len(), 2);
    let mut bad = config();
    bad.model = None;
    assert_eq!(m.add_chat_to_map(bad), Err(ChatError::ModelBlank));
    assert_eq!(m.get_chats().len(), 2);
}

#[test]
fn store_duplicate_id_replaces_and_reports() {
    let mut m = ChatMap::new();
    m.add_chat_with_id("c1".to_string(), config()).unwrap();
    m.add_chatrequest_to_map(ChatRequest { id: "c1".to_string(), prompt: "q".to_string() }).unwrap();
    let mut c2 = config();
    c2.title = Some("Other".to_string());
    assert_eq!(m.add_chat_with_id("c1".to_string(), c2), Err(ChatError::AlreadyExists("c1".to_string())));
    let stored = m.get_chat_by_id("c1".to_string()).unwrap();
    assert_eq!(stored.title, "Other");
    assert!(stored.messages.is_empty());
}

#[test]
fn store_request_then_response() {
    let mut m = ChatMap::new();
    m.add_chat_with_id("c1".to_string(), config()).unwrap();
    m.add_chat_with_id("c2".to_string(), config()).unwrap();
    let after = m.add_chatrequest_to_map(ChatRequest { id: "c1".to_string(), prompt: "question".to_string() }).unwrap();
    assert_eq!(after.messages.len(), 1);
    m.add_chatresponse_to_map(&"c1".to_string(), "answer".to_string(), Some("r9".to_string())).unwrap();
    let c1 = m.get_chat_by_id("c1".to_string()).unwrap();
    assert_eq!(
        c1.messages,
        vec![
            ChatMessage { role: MessageRole::User, content: "question".to_string(), response_id: None },
            ChatMessage { role: MessageRole::Assistant, content: "answer".to_string(), response_id: Some("r9".to_string()) },
        ]
    );
    assert!(m.get_chat_by_id("c2".to_string()).unwrap().messages.is_empty());
    assert_eq!(
        m.add_chatrequest_to_map(ChatRequest { id: "nope".to_string(), prompt: "q".to_string() }),
        Err(ChatError::NotFound("nope".to_string()))
    );
    assert_eq!(m.add_chatresponse_to_map(&"nope".to_string(), "a".to_string(), None), Err(ChatError::NotFound("nope".to_string())));
}

#[test]
fn store_load_keeps_last_of_each_id() {
    let mut m = ChatMap::new();
    m.add_chat_with_id("keep".to_string(), config()).unwrap();
    let a = config().validate_with_id("x".to_string()).unwrap();
    let mut b = config();
    b.title = Some("second".to_string());
    let b = b.validate_with_id("x".to_string()).unwrap();
    let c = config().validate_with_id("y".to_string()).unwrap();
    m.load_chats(vec![a, b.clone(), c.clone()]);
    assert_eq!(m.get_chat_by_id("x".to_string()), Ok(b));
    assert_eq!(m.get_chat_by_id("y".to_string()), Ok(c));
    assert!(m.get_chat_by_id("keep".to_string()).is_ok());
    assert_eq!(m.get_chats().len(), 3);
}

#[test]
fn assistant_response_is_built() {
    let r = chat_backend_rs::chat::ChatResponse::assistant("c".to_string(), "hi".to_string(), Some("r".to_string()));
    assert_eq!(r.role, "assistant");
    assert_eq!(r.content, Some("hi".to_string()));
    assert_eq!(r.response_id, Some("r".to_string()));
    assert_eq!(r.id, "c");
}
