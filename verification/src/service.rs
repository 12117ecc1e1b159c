//! The chat service: its agents by provider and model, the providers it
//! offers, and the decisions of a chat completion (what is sent to the
//! model, what is stored of its reply, what is answered).
use vstd::prelude::*;
use crate::chat::{
    appended_user, same_settings, Chat, ChatMessage, ChatResponse, ChatStreamingMessage,
    ChatView, CompletionMessage, CompletionResponseContent, MessageRole, MessageView,
};
use crate::keyed::KeyedMap;
use crate::providers::{LlmProvider, ProviderView};

verus! {

broadcast use vstd::string::group_string_axioms;

/// The text of a message sent to a model, as plain values.
impl View for CompletionMessage {
    type V = MessageView;

    open spec fn view(&self) -> MessageView {
        match self {
            CompletionMessage::User { content, response_id } => MessageView {
                role: MessageRole::User,
                content: content@,
                response_id: crate::chat::opt_view(*response_id),
            },
            CompletionMessage::Assistant { content, response_id } => MessageView {
                role: MessageRole::Assistant,
                content: content@,
                response_id: crate::chat::opt_view(*response_id),
            },
        }
    }
}

/// The key under which the agent for provider `llm` and model `model` is kept:
/// `llm:model`.
pub open spec fn agent_key(llm: Seq<char>, model: Seq<char>) -> Seq<char> {
    llm + seq![':'] + model
}

/// Providers whose names hold no `:` get distinct agent keys for distinct
/// (provider, model) pairs, so that one never replaces the other's agent.
pub proof fn agent_keys_are_distinct(l1: Seq<char>, m1: Seq<char>, l2: Seq<char>, m2: Seq<char>)
    requires
        !l1.contains(':'),
        !l2.contains(':'),
        agent_key(l1, m1) == agent_key(l2, m2),
    ensures
        l1 == l2,
        m1 == m2,
{
    let k = agent_key(l1, m1);
    assert(k[l1.len() as int] == ':');
    assert(k[l2.len() as int] == ':');
    if l1.len() < l2.len() {
        assert(l2[l1.len() as int] == k[l1.len() as int]);
        assert(false);
    } else if l2.len() < l1.len() {
        assert(l1[l2.len() as int] == k[l2.len() as int]);
        assert(false);
    }
    assert(l1 =~= k.take(l1.len() as int));
    assert(l2 =~= k.take(l2.len() as int));
    assert(m1 =~= k.skip(l1.len() as int + 1));
    assert(m2 =~= k.skip(l2.len() as int + 1));
}

/// The agent table `m` after keeping `agents[i]` under `keys[i]`, one after
/// another, as a sequence of `add_agent` calls does.
pub open spec fn agents_after<A>(m: Map<Seq<char>, A>, keys: Seq<Seq<char>>, agents: Seq<A>) -> Map<
    Seq<char>,
    A,
>
    decreases keys.len(),
{
    if keys.len() == 0 || keys.len() != agents.len() {
        m
    } else {
        agents_after(m, keys.drop_last(), agents.drop_last()).insert(keys.last(), agents.last())
    }
}

/// An agent kept under key `k` is the one found under `k` after any later
/// additions under other keys.
pub proof fn agent_found_after_other_additions<A>(
    m: Map<Seq<char>, A>,
    k: Seq<char>,
    a: A,
    keys: Seq<Seq<char>>,
    agents: Seq<A>,
)
    requires
        keys.len() == agents.len(),
        forall|i: int| 0 <= i < keys.len() ==> #[trigger] keys[i] != k,
    ensures
        agents_after(m.insert(k, a), keys, agents).contains_key(k),
        agents_after(m.insert(k, a), keys, agents)[k] == a,
    decreases keys.len(),
{
    if keys.len() > 0 {
        let ki = keys.drop_last();
        assert forall|i: int| 0 <= i < ki.len() implies #[trigger] ki[i] != k by {
            assert(ki[i] == keys[i]);
        }
        agent_found_after_other_additions(m, k, a, ki, agents.drop_last());
        assert(keys[keys.len() - 1] != k);
    }
}

/// The texts of the text parts of a reply, in order.
pub open spec fn texts(cs: Seq<CompletionResponseContent>) -> Seq<Seq<char>>
    decreases cs.len(),
{
    if cs.len() == 0 {
        seq![]
    } else {
        match cs.last() {
            CompletionResponseContent::Text(t) => texts(cs.drop_last()).push(t@),
            CompletionResponseContent::Other => texts(cs.drop_last()),
        }
    }
}

/// The stored messages for the text parts `ts` of a reply with id `response_id`.
pub open spec fn assistant_messages(ts: Seq<Seq<char>>, response_id: Seq<char>) -> Seq<MessageView> {
    ts.map_values(
        |t: Seq<char>| MessageView { role: MessageRole::Assistant, content: t, response_id: Some(response_id) },
    )
}

/// The content answered for the text parts `ts` of a reply: the last of
/// them, or the empty text where there is none.
pub open spec fn answered_text(ts: Seq<Seq<char>>) -> Seq<char> {
    if ts.len() == 0 {
        seq![]
    } else {
        ts.last()
    }
}

/// The chat service: a store `storage`, agents of type `A` by provider and
/// model, and the providers it offers.
pub struct ChatService<S, A> {
    storage: S,
    agents: KeyedMap<A>,
    providers: Vec<LlmProvider>,
}

/// The answer to a reply is the content of the last message that the reply
/// stores: where the reply has text parts, the answer is the last of them,
/// which is the content of the last assistant message appended to any
/// history; one more text part `t` makes `t` the answer, so a reply with the
/// single text part `t` is answered with `t`. A reply with no text part is
/// answered with the empty text and stores nothing.
pub proof fn answer_is_last_stored_text(
    history: Seq<MessageView>,
    ts: Seq<Seq<char>>,
    response_id: Seq<char>,
    t: Seq<char>,
)
    ensures
        ts.len() > 0 ==> answered_text(ts) == ts.last() && answered_text(ts) == (history
            + assistant_messages(ts, response_id)).last().content,
        answered_text(ts.push(t)) == t,
        answered_text(seq![t]) == t,
        ts.len() == 0 ==> answered_text(ts) == Seq::<char>::empty() && history + assistant_messages(
            ts,
            response_id,
        ) == history,
{
    let all = history + assistant_messages(ts, response_id);
    if ts.len() > 0 {
        assert(all.last() == assistant_messages(ts, response_id)[ts.len() - 1]);
    } else {
        assert(all =~= history);
    }
    assert(ts.push(t).last() == t);
    assert(seq![t].last() == t);
}

impl<S, A> ChatService<S, A> {
    /// The agents, by key `llm:model`.
    pub closed spec fn agent_map(&self) -> Map<Seq<char>, A> {
        self.agents.view()
    }

    /// The providers offered, as plain values.
    pub closed spec fn provider_list(&self) -> Seq<ProviderView> {
        self.providers@.map_values(|p: LlmProvider| p@)
    }

    /// The store.
    pub closed spec fn store(&self) -> S {
        self.storage
    }

    /// A service over `storage` with no agents and no providers.
    pub fn new(storage: S) -> (r: Self)
        ensures
            r.store() == storage,
            r.agent_map() == Map::<Seq<char>, A>::empty(),
            r.provider_list().len() == 0,
    {
        ChatService { storage, agents: KeyedMap::new(), providers: Vec::new() }
    }

    /// The store.
    pub fn storage(&self) -> (r: &S)
        ensures
            *r == self.store(),
    {
        &self.storage
    }

    /// Replaces the providers offered.
    pub fn add_llm_provider(&mut self, providers: Vec<LlmProvider>)
        ensures
            final(self).provider_list() == providers@.map_values(|p: LlmProvider| p@),
            final(self).agent_map() == old(self).agent_map(),
            final(self).store() == old(self).store(),
    {
        self.providers = providers;
    }

    /// The providers offered.
    pub fn get_llm_providers(&self) -> (r: Vec<LlmProvider>)
        ensures
            r@.map_values(|p: LlmProvider| p@) == self.provider_list(),
    {
        let mut r: Vec<LlmProvider> = Vec::new();
        let mut i: usize = 0;
        while i < self.providers.len()
            invariant
                i <= self.providers@.len(),
                r@.len() == i,
                forall|j: int| 0 <= j < i ==> #[trigger] r@[j]@ == self.providers@[j]@,
            decreases self.providers@.len() - i,
        {
            r.push(self.providers[i].clone());
            i = i + 1;
        }
        assert(r@.map_values(|p: LlmProvider| p@) =~= self.provider_list());
        r
    }

    /// The key `llm:model` of the agent for provider `llm` and model `model`.
    pub fn key(&self, llm: &str, model: &str) -> (r: String)
        ensures
            r@ == agent_key(llm@, model@),
    {
        let sep = ":";
        proof {
            reveal_strlit(":");
        }
        assert(sep@ =~= seq![':']);
        String::from_str(llm).concat(sep).concat(model)
    }

    /// Keeps `agent` as the agent for provider `llm` and model `model`,
    /// replacing one kept under the same key.
    pub fn add_agent(&mut self, llm: &str, model: &str, agent: A)
        ensures
            final(self).agent_map() == old(self).agent_map().insert(agent_key(llm@, model@), agent),
            final(self).provider_list() == old(self).provider_list(),
            final(self).store() == old(self).store(),
    {
        proof {
            reveal_strlit(":");
        }
        let key = self.key(llm, model);
        let _ = self.agents.insert(key, agent);
    }

    /// The agent for provider `llm` and model `model`, if one is kept.
    pub fn find_agent(&self, llm: &str, model: &str) -> (r: Option<&A>)
        ensures
            match r {
                Some(a) => self.agent_map().contains_key(agent_key(llm@, model@)) && *a
                    == self.agent_map()[agent_key(llm@, model@)],
                None => !self.agent_map().contains_key(agent_key(llm@, model@)),
            },
    {
        proof {
            reveal_strlit(":");
        }
        let key = self.key(llm, model);
        self.agents.get(key.as_str())
    }

    /// The agent for provider `llm` and model `model`, which must be kept.
    pub fn get_agent(&self, llm: &str, model: &str) -> (r: &A)
        requires
            self.agent_map().contains_key(agent_key(llm@, model@)),
        ensures
            *r == self.agent_map()[agent_key(llm@, model@)],
    {
        proof {
            reveal_strlit(":");
        }
        let key = self.key(llm, model);
        let i = match self.agents.find(key.as_str()) {
            Some(i) => i,
            None => {
                assert(false);
                0
            },
        };
        self.agents.value_at(i)
    }

    /// The messages of `chat` as they are sent to a model: each stored
    /// message with its role, content and response id.
    pub fn create_completion_messages(&self, chat: &Chat) -> (r: Vec<CompletionMessage>)
        ensures
            r@.map_values(|m: CompletionMessage| m@) == chat@.messages,
    {
        let mut r: Vec<CompletionMessage> = Vec::new();
        let mut i: usize = 0;
        while i < chat.messages.len()
            invariant
                i <= chat.messages@.len(),
                r@.len() == i,
                forall|j: int| 0 <= j < i ==> #[trigger] r@[j]@ == chat.messages@[j]@,
            decreases chat.messages@.len() - i,
        {
            let m = chat.messages[i].clone();
            let cm = match m.role {
                MessageRole::User => CompletionMessage::User {
                    content: m.content,
                    response_id: m.response_id,
                },
                MessageRole::Assistant => CompletionMessage::Assistant {
                    content: m.content,
                    response_id: m.response_id,
                },
            };
            r.push(cm);
            i = i + 1;
        }
        assert(r@.map_values(|m: CompletionMessage| m@) =~= chat@.messages);
        r
    }

    /// Appends the user's `prompt` to `chat` and returns the messages to send
    /// to the model: the whole conversation, the prompt last.
    pub fn start_completion(&self, chat: &mut Chat, prompt: String) -> (r: Vec<CompletionMessage>)
        ensures
            appended_user(old(chat)@, final(chat)@, prompt@),
            r@.map_values(|m: CompletionMessage| m@) == final(chat)@.messages,
    {
        chat.update_user_message(prompt);
        self.create_completion_messages(chat)
    }

    /// Stores the model's reply in `chat`: one assistant message per text
    /// part, in order, each with the reply's id. The answer carries the
    /// chat's id, the role `assistant`, the last text part (or the empty text)
    /// and the reply's id.
    pub fn finish_completion(
        &self,
        chat: &mut Chat,
        contents: Vec<CompletionResponseContent>,
        response_id: String,
    ) -> (r: ChatResponse)
        ensures
            same_settings(old(chat)@, final(chat)@),
            final(chat)@.messages == old(chat)@.messages + assistant_messages(
                texts(contents@),
                response_id@,
            ),
            r.id@ == old(chat)@.id,
            r.role@ == "assistant"@,
            r.content matches Some(c) && c@ == answered_text(texts(contents@)),
            r.response_id matches Some(x) && x@ == response_id@,
            texts(contents@).len() > 0 ==> (r.content matches Some(c) && c@
                == final(chat)@.messages.last().content && c@ == texts(contents@).last()),
    {
        let id = chat.id.clone();
        let mut rcontent = String::new();
        let ghost start = chat@;
        let mut i: usize = 0;
        while i < contents.len()
            invariant
                i <= contents@.len(),
                same_settings(start, chat@),
                chat@.messages == start.messages + assistant_messages(
                    texts(contents@.take(i as int)),
                    response_id@,
                ),
                rcontent@ == answered_text(texts(contents@.take(i as int))),
            decreases contents@.len() - i,
        {
            proof {
                assert(contents@.take(i + 1).drop_last() =~= contents@.take(i as int));
            }
            match &contents[i] {
                CompletionResponseContent::Text(val) => {
                    rcontent = val.clone();
                    let ghost before = chat@.messages;
                    chat.update_assistant_message(val.clone(), response_id.clone());
                    proof {
                        let ts = texts(contents@.take(i as int));
                        assert(texts(contents@.take(i + 1)) == ts.push(val@));
                        assert(assistant_messages(ts.push(val@), response_id@) =~= assistant_messages(
                            ts,
                            response_id@,
                        ).push(
                            MessageView {
                                role: MessageRole::Assistant,
                                content: val@,
                                response_id: Some(response_id@),
                            },
                        ));
                        assert(chat@.messages =~= start.messages + assistant_messages(
                            ts.push(val@),
                            response_id@,
                        ));
                    }
                },
                CompletionResponseContent::Other => {},
            }
            i = i + 1;
        }
        assert(contents@.take(i as int) =~= contents@);
        proof {
            answer_is_last_stored_text(start.messages, texts(contents@), response_id@, seq![]);
        }
        ChatResponse::assistant(id, rcontent, Some(response_id))
    }

    /// Stores a streamed exchange in `chat`: the user's content, then the
    /// assistant's content with the response id.
    pub fn record_streaming_message(&self, chat: &mut Chat, request: ChatStreamingMessage)
        ensures
            same_settings(old(chat)@, final(chat)@),
            final(chat)@.messages == old(chat)@.messages.push(
                MessageView {
                    role: MessageRole::User,
                    content: request.user_content@,
                    response_id: None,
                },
            ).push(
                MessageView {
                    role: MessageRole::Assistant,
                    content: request.assistant_content@,
                    response_id: Some(request.response_id@),
                },
            ),
    {
        chat.update_user_message(request.user_content);
        chat.update_assistant_message(request.assistant_content, request.response_id);
    }
}

} // verus!
