//! Chats: their configuration, their messages, and the requests and
//! responses exchanged about them.
use vstd::prelude::*;

verus! {

/// Who wrote a message.
#[derive(Debug, Clone, Copy, PartialEq, Eq, Structural)]
pub enum MessageRole {
    User,
    Assistant,
}

impl MessageRole {
    /// The role's name as the providers spell it.
    pub fn as_str(&self) -> (r: &'static str)
        ensures
            r@ == (match *self {
                MessageRole::User => "user"@,
                MessageRole::Assistant => "assistant"@,
            }),
    {
        match self {
            MessageRole::User => "user",
            MessageRole::Assistant => "assistant",
        }
    }
}

/// A stored message of a chat.
#[derive(Debug, PartialEq)]
pub struct ChatMessage {
    pub role: MessageRole,
    pub content: String,
    /// The provider's id of the response that the message answers or is.
    pub response_id: Option<String>,
}

/// A message as plain values.
pub struct MessageView {
    pub role: MessageRole,
    pub content: Seq<char>,
    pub response_id: Option<Seq<char>>,
}

/// The text of an optional string, where there is one.
pub open spec fn opt_view(o: Option<String>) -> Option<Seq<char>> {
    match o {
        Some(s) => Some(s@),
        None => None,
    }
}

impl View for ChatMessage {
    type V = MessageView;

    open spec fn view(&self) -> MessageView {
        MessageView { role: self.role, content: self.content@, response_id: opt_view(self.response_id) }
    }
}

fn clone_opt_string(o: &Option<String>) -> (r: Option<String>)
    ensures
        r == *o,
{
    match o {
        Some(s) => Some(s.clone()),
        None => None,
    }
}

impl Clone for ChatMessage {
    /// An equal message.
    fn clone(&self) -> (r: Self)
        ensures
            r == *self,
    {
        ChatMessage {
            role: self.role,
            content: self.content.clone(),
            response_id: clone_opt_string(&self.response_id),
        }
    }
}

impl ChatMessage {
    /// A message of the user.
    pub fn create_user_message(content: &str, response_id: Option<String>) -> (r: ChatMessage)
        ensures
            r.role == MessageRole::User,
            r.content@ == content@,
            r.response_id == response_id,
    {
        ChatMessage { role: MessageRole::User, content: String::from_str(content), response_id }
    }

    /// A message of the assistant.
    pub fn create_assistant_message(content: &str, response_id: Option<String>) -> (r: ChatMessage)
        ensures
            r.role == MessageRole::Assistant,
            r.content@ == content@,
            r.response_id == response_id,
    {
        ChatMessage { role: MessageRole::Assistant, content: String::from_str(content), response_id }
    }
}

/// A message as it is sent to a model.
#[derive(Debug, PartialEq)]
pub enum CompletionMessage {
    User { content: String, response_id: Option<String> },
    Assistant { content: String, response_id: Option<String> },
}

/// A part of a model's reply; only text parts are kept in a chat.
#[derive(Debug, PartialEq)]
pub enum CompletionResponseContent {
    Text(String),
    /// A part of another kind (a tool call, an image, ...).
    Other,
}

/// A conversation with one model.
#[derive(Debug, PartialEq)]
pub struct Chat {
    pub id: String,
    pub title: String,
    pub llm: String,
    pub model: String,
    pub system: Option<String>,
    pub prompt: String,
    pub messages: Vec<ChatMessage>,
    pub stream: bool,
}

/// A chat as plain values.
pub struct ChatView {
    pub id: Seq<char>,
    pub title: Seq<char>,
    pub llm: Seq<char>,
    pub model: Seq<char>,
    pub system: Option<Seq<char>>,
    pub prompt: Seq<char>,
    pub messages: Seq<MessageView>,
    pub stream: bool,
}

impl View for Chat {
    type V = ChatView;

    open spec fn view(&self) -> ChatView {
        ChatView {
            id: self.id@,
            title: self.title@,
            llm: self.llm@,
            model: self.model@,
            system: opt_view(self.system),
            prompt: self.prompt@,
            messages: self.messages@.map_values(|m: ChatMessage| m@),
            stream: self.stream,
        }
    }
}

/// Whether `a` and `b` agree on everything but their messages.
pub open spec fn same_settings(a: ChatView, b: ChatView) -> bool {
    &&& a.id == b.id
    &&& a.title == b.title
    &&& a.llm == b.llm
    &&& a.model == b.model
    &&& a.system == b.system
    &&& a.prompt == b.prompt
    &&& a.stream == b.stream
}

/// Whether `b` is `a` with the user message `content` appended.
pub open spec fn appended_user(a: ChatView, b: ChatView, content: Seq<char>) -> bool {
    &&& same_settings(a, b)
    &&& b.messages == a.messages.push(
        MessageView { role: MessageRole::User, content, response_id: None },
    )
}

/// Whether `b` is `a` with the assistant message `content`, answering
/// response `response_id`, appended.
pub open spec fn appended_assistant(
    a: ChatView,
    b: ChatView,
    content: Seq<char>,
    response_id: Seq<char>,
) -> bool {
    &&& same_settings(a, b)
    &&& b.messages == a.messages.push(
        MessageView { role: MessageRole::Assistant, content, response_id: Some(response_id) },
    )
}

/// Whether `id` is in the form that `Uuid::new_v4().to_string()` writes: 36
/// characters, lowercase hexadecimal digits in groups of 8, 4, 4, 4 and 12
/// separated by `-`, with the version digit `4` at position 14 and a variant
/// digit `8`, `9`, `a` or `b` at position 19.
pub open spec fn is_uuid_v4(id: Seq<char>) -> bool {
    &&& id.len() == 36
    &&& id[14] == '4'
    &&& (id[19] == '8' || id[19] == '9' || id[19] == 'a' || id[19] == 'b')
    &&& forall|i: int|
        0 <= i < 36 ==> if i == 8 || i == 13 || i == 18 || i == 23 {
            #[trigger] id[i] == '-'
        } else {
            ('0' <= id[i] <= '9') || ('a' <= id[i] <= 'f')
        }
}

/// `Uuid::new_v4().to_string()`: a fresh random id. Its value depends on
/// chance; what holds of every outcome is its hyphenated lowercase form with
/// the version-4 and variant digits.
#[verifier::external_body]
pub(crate) fn new_chat_id() -> (id: String)
    ensures
        is_uuid_v4(id@),
{
    uuid::Uuid::new_v4().to_string()
}

impl Clone for Chat {
    /// An equal chat.
    fn clone(&self) -> (r: Self)
        ensures
            r@ == self@,
    {
        let mut messages: Vec<ChatMessage> = Vec::new();
        let mut i: usize = 0;
        while i < self.messages.len()
            invariant
                i <= self.messages@.len(),
                messages@ == self.messages@.take(i as int),
            decreases self.messages@.len() - i,
        {
            messages.push(self.messages[i].clone());
            i = i + 1;
            assert(messages@ =~= self.messages@.take(i as int));
        }
        assert(messages@ =~= self.messages@);
        assert(messages@.map_values(|m: ChatMessage| m@) =~= self.messages@.map_values(
            |m: ChatMessage| m@,
        ));
        Chat {
            id: self.id.clone(),
            title: self.title.clone(),
            llm: self.llm.clone(),
            model: self.model.clone(),
            system: clone_opt_string(&self.system),
            prompt: self.prompt.clone(),
            messages,
            stream: self.stream,
        }
    }
}

impl Chat {
    /// A chat with a fresh random id and no messages.
    pub fn new(
        llm: String,
        model: String,
        title: String,
        system: Option<String>,
        prompt: String,
        stream: bool,
    ) -> (r: Self)
        ensures
            is_uuid_v4(r.id@),
            r.llm == llm,
            r.model == model,
            r.title == title,
            r.system == system,
            r.prompt == prompt,
            r.stream == stream,
            r.messages@.len() == 0,
    {
        let id = new_chat_id();
        Chat::with_id(id, llm, model, title, system, prompt, stream)
    }

    /// A chat with id `id` and no messages.
    pub fn with_id(
        id: String,
        llm: String,
        model: String,
        title: String,
        system: Option<String>,
        prompt: String,
        stream: bool,
    ) -> (r: Self)
        ensures
            r.id == id,
            r.llm == llm,
            r.model == model,
            r.title == title,
            r.system == system,
            r.prompt == prompt,
            r.stream == stream,
            r.messages@.len() == 0,
    {
        Chat { id, title, llm, model, system, prompt, messages: Vec::new(), stream }
    }

    /// Appends a message of the user, with no response id.
    pub fn update_user_message(&mut self, content: String)
        ensures
            appended_user(old(self)@, final(self)@, content@),
    {
        let message = ChatMessage::create_user_message(content.as_str(), None);
        self.messages.push(message);
        assert(self@.messages =~= old(self)@.messages.push(
            MessageView { role: MessageRole::User, content: content@, response_id: None },
        ));
    }

    /// Appends a message of the assistant, answering response `response_id`.
    pub fn update_assistant_message(&mut self, content: String, response_id: String)
        ensures
            appended_assistant(old(self)@, final(self)@, content@, response_id@),
    {
        let ghost rid = response_id@;
        let message = ChatMessage::create_assistant_message(content.as_str(), Some(response_id));
        self.messages.push(message);
        assert(self@.messages =~= old(self)@.messages.push(
            MessageView { role: MessageRole::Assistant, content: content@, response_id: Some(rid) },
        ));
    }
}

/// Why a chat operation failed.
#[derive(Debug, Clone, PartialEq)]
pub enum ChatError {
    /// The configuration names no provider.
    LlmBlank,
    /// The configuration names no model.
    ModelBlank,
    /// The configuration has no title.
    TitleBlank,
    /// The configuration has no prompt.
    PromptBlank,
    /// No chat has this id.
    NotFound(String),
    /// A chat with this id was already stored.
    AlreadyExists(String),
}

/// `format!("{:?}", s)`: the text written the way Rust's `Debug` writes a
/// string (quoted, with escapes). The result is named `debug_text` of `s`;
/// the escaping rules are not stated here.
pub uninterp spec fn debug_text(s: Seq<char>) -> Seq<char>;

#[verifier::external_body]
fn debug_string(s: &str) -> (r: String)
    ensures
        r@ == debug_text(s@),
{
    format!("{:?}", s)
}

/// Whether `e` reports that no chat has id `id`.
pub open spec fn is_not_found(e: ChatError, id: Seq<char>) -> bool {
    match e {
        ChatError::NotFound(x) => x@ == id,
        _ => false,
    }
}

/// Whether `e` reports that a chat with id `id` was already stored.
pub open spec fn is_already_exists(e: ChatError, id: Seq<char>) -> bool {
    match e {
        ChatError::AlreadyExists(x) => x@ == id,
        _ => false,
    }
}

/// The message of an error, as a user reads it.
pub open spec fn error_message(e: ChatError) -> Seq<char> {
    match e {
        ChatError::LlmBlank => "Llm cannot be blank."@,
        ChatError::ModelBlank => "Model cannot be blank"@,
        ChatError::TitleBlank => "Title cannot be blank"@,
        ChatError::PromptBlank => "Prompt cannot be blank"@,
        ChatError::NotFound(id) => "Chat not found: "@ + id@,
        ChatError::AlreadyExists(id) => "Chat already exists: "@ + debug_text(id@),
    }
}

impl ChatError {
    /// The message of the error, as a user reads it.
    pub fn message(&self) -> (r: String)
        ensures
            r@ == error_message(*self),
    {
        match self {
            ChatError::LlmBlank => String::from_str("Llm cannot be blank."),
            ChatError::ModelBlank => String::from_str("Model cannot be blank"),
            ChatError::TitleBlank => String::from_str("Title cannot be blank"),
            ChatError::PromptBlank => String::from_str("Prompt cannot be blank"),
            ChatError::NotFound(id) => String::from_str("Chat not found: ").concat(id.as_str()),
            ChatError::AlreadyExists(id) => {
                let quoted = debug_string(id.as_str());
                String::from_str("Chat already exists: ").concat(quoted.as_str())
            },
        }
    }
}

/// The settings of a chat to create, each of which may be missing.
#[derive(Debug, Clone, PartialEq)]
pub struct ChatConfig {
    pub llm: Option<String>,
    pub model: Option<String>,
    pub title: Option<String>,
    pub system: Option<String>,
    pub prompt: Option<String>,
    pub stream: bool,
}

/// The first part that a configuration lacks, in the order provider, model,
/// title, prompt; none where it is complete.
pub open spec fn missing_part(c: ChatConfig) -> Option<ChatError> {
    if c.llm is None {
        Some(ChatError::LlmBlank)
    } else if c.model is None {
        Some(ChatError::ModelBlank)
    } else if c.title is None {
        Some(ChatError::TitleBlank)
    } else if c.prompt is None {
        Some(ChatError::PromptBlank)
    } else {
        None
    }
}

/// A configuration is rejected for its first missing part, in the order
/// provider, model, title, prompt, whatever the parts after it hold: no
/// provider gives `LlmBlank`; a provider but no model gives `ModelBlank`;
/// both but no title gives `TitleBlank`; all three but no prompt gives
/// `PromptBlank`. Only a configuration with all four parts is accepted, and
/// two configurations that agree up to their first missing part get the same
/// error.
pub proof fn validation_reports_first_missing_part(c: ChatConfig, d: ChatConfig)
    ensures
        c.llm is None ==> missing_part(c) == Some(ChatError::LlmBlank),
        c.llm is Some && c.model is None ==> missing_part(c) == Some(ChatError::ModelBlank),
        c.llm is Some && c.model is Some && c.title is None ==> missing_part(c) == Some(
            ChatError::TitleBlank,
        ),
        c.llm is Some && c.model is Some && c.title is Some && c.prompt is None ==> missing_part(c)
            == Some(ChatError::PromptBlank),
        missing_part(c) is None <==> (c.llm is Some && c.model is Some && c.title is Some
            && c.prompt is Some),
        (c.llm is Some <==> d.llm is Some) && c.model is None && d.model is None ==> missing_part(c)
            == missing_part(d),
{
}

/// Whether `chat` is the chat that the complete configuration `c` describes,
/// with no messages yet.
pub open spec fn chat_of_config(c: ChatConfig, chat: Chat) -> bool {
    &&& c.llm == Some(chat.llm)
    &&& c.model == Some(chat.model)
    &&& c.title == Some(chat.title)
    &&& c.prompt == Some(chat.prompt)
    &&& chat.system == c.system
    &&& chat.stream == c.stream
    &&& chat.messages@.len() == 0
}

impl ChatConfig {
    /// The chat that this configuration describes, with a fresh random id;
    /// an error naming the first part missing (provider, model, title,
    /// prompt) where one is.
    pub fn validate(self) -> (r: Result<Chat, ChatError>)
        ensures
            match missing_part(self) {
                Some(e) => r == Err::<Chat, ChatError>(e),
                None => r is Ok && chat_of_config(self, r->Ok_0) && is_uuid_v4(
                    r->Ok_0.id@,
                ),
            },
    {
        match missing_part_of(&self) {
            Some(e) => Err(e),
            None => {
                let id = new_chat_id();
                self.validate_with_id(id)
            },
        }
    }

    /// The chat that this configuration describes, with id `id`; an error
    /// naming the first part missing where one is.
    pub fn validate_with_id(self, id: String) -> (r: Result<Chat, ChatError>)
        ensures
            match missing_part(self) {
                Some(e) => r == Err::<Chat, ChatError>(e),
                None => r is Ok && chat_of_config(self, r->Ok_0) && r->Ok_0.id == id,
            },
    {
        let llm = match self.llm {
            Some(v) => v,
            None => return Err(ChatError::LlmBlank),
        };
        let model = match self.model {
            Some(v) => v,
            None => return Err(ChatError::ModelBlank),
        };
        let title = match self.title {
            Some(v) => v,
            None => return Err(ChatError::TitleBlank),
        };
        let prompt = match self.prompt {
            Some(v) => v,
            None => return Err(ChatError::PromptBlank),
        };
        Ok(Chat::with_id(id, llm, model, title, self.system, prompt, self.stream))
    }
}

fn missing_part_of(c: &ChatConfig) -> (r: Option<ChatError>)
    ensures
        r == missing_part(*c),
{
    if c.llm.is_none() {
        Some(ChatError::LlmBlank)
    } else if c.model.is_none() {
        Some(ChatError::ModelBlank)
    } else if c.title.is_none() {
        Some(ChatError::TitleBlank)
    } else if c.prompt.is_none() {
        Some(ChatError::PromptBlank)
    } else {
        None
    }
}

/// A user prompt for chat `id`.
#[derive(Debug, Clone, PartialEq)]
pub struct ChatRequest {
    pub id: String,
    pub prompt: String,
}

/// The answer to a chat request.
#[derive(Debug, Clone, PartialEq)]
pub struct ChatResponse {
    pub id: String,
    pub role: String,
    pub content: Option<String>,
    pub response_id: Option<String>,
}

impl ChatResponse {
    /// The assistant's answer `content` in chat `id`, for the model's
    /// response `response_id`.
    pub fn assistant(id: String, content: String, response_id: Option<String>) -> (r: ChatResponse)
        ensures
            r.id == id,
            r.role@ == "assistant"@,
            r.content == Some(content),
            r.response_id == response_id,
    {
        ChatResponse { id, role: String::from_str("assistant"), content: Some(content), response_id }
    }
}

/// An error reported to a client: what failed, and why.
#[derive(Debug, Clone, PartialEq)]
pub struct ChatErrorResponse {
    pub error: String,
    pub detail: String,
}

/// The HTTP status of every error response: 400 Bad Request.
pub const ERROR_STATUS: u16 = 400;

impl ChatErrorResponse {
    /// The error response for a failure named `error`, with details `detail`.
    pub fn new(error: &str, detail: String) -> (r: ChatErrorResponse)
        ensures
            r.error@ == error@,
            r.detail == detail,
    {
        ChatErrorResponse { error: String::from_str(error), detail }
    }
}

/// An exchange that was streamed to the client, to be stored in chat `id`.
#[derive(Debug, Clone, PartialEq)]
pub struct ChatStreamingMessage {
    pub id: String,
    pub user_content: String,
    pub assistant_content: String,
    pub response_id: String,
}

} // verus!
