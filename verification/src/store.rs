//! The in-memory chat store: chats by id, created from a configuration and
//! extended by user requests and assistant responses.
use vstd::prelude::*;
use crate::chat::{
    is_already_exists, is_not_found, missing_part, new_chat_id, Chat, ChatConfig,
    ChatError, ChatMessage, ChatRequest, ChatView, MessageRole, MessageView,
};
use crate::keyed::KeyedMap;

verus! {

/// The store as plain values: each chat, by its id.
pub type StoreView = Map<Seq<char>, ChatView>;

/// `m` with a message appended to chat `id`.
pub open spec fn with_message(m: StoreView, id: Seq<char>, msg: MessageView) -> StoreView {
    m.insert(id, ChatView { messages: m[id].messages.push(msg), ..m[id] })
}

/// The message that a user request with `prompt` appends.
pub open spec fn user_message(prompt: Seq<char>) -> MessageView {
    MessageView { role: MessageRole::User, content: prompt, response_id: None }
}

/// The message that an assistant response appends.
pub open spec fn assistant_message(text: Seq<char>, response_id: Option<Seq<char>>) -> MessageView {
    MessageView { role: MessageRole::Assistant, content: text, response_id }
}

/// Chats by id.
pub struct ChatMap {
    chats: KeyedMap<Chat>,
}

impl View for ChatMap {
    type V = StoreView;

    closed spec fn view(&self) -> StoreView {
        self.chats.view().map_values(|c: Chat| c@)
    }
}

impl ChatMap {
    /// The invariant: every chat is stored under its own id.
    #[verifier::type_invariant]
    closed spec fn wf(&self) -> bool {
        forall|k: Seq<char>| #[trigger] self.chats.view().contains_key(k) ==> self.chats.view()[k]@.id == k
    }

    /// The empty store.
    pub fn new() -> (r: ChatMap)
        ensures
            r@ == Map::<Seq<char>, ChatView>::empty(),
    {
        let r = ChatMap { chats: KeyedMap::new() };
        assert(r@ =~= Map::<Seq<char>, ChatView>::empty());
        r
    }

    /// Every chat, each once, in the order the store keeps them.
    pub fn get_chats(&self) -> (r: Vec<Chat>)
        ensures
            self@.dom().finite(),
            r@.len() == self@.dom().len(),
            forall|k: Seq<char>| #[trigger] self@.contains_key(k) ==> exists|i: int|
                0 <= i < r@.len() && r@[i]@.id == k,
            forall|i: int|
                0 <= i < r@.len() ==> self@.contains_key(#[trigger] r@[i]@.id) && self@[r@[i]@.id]
                    == r@[i]@,
            forall|i: int, j: int| 0 <= i < j < r@.len() ==> r@[i]@.id != r@[j]@.id,
    {
        proof {
            use_type_invariant(self);
            use_type_invariant(&self.chats);
            self.chats.lemma_order_agrees();
        }
        let n = self.chats.len();
        let mut r: Vec<Chat> = Vec::new();
        let mut i: usize = 0;
        while i < n
            invariant
                self.chats.wf(),
                n == self.chats.key_seq().len(),
                n == self.chats.value_seq().len(),
                i <= n,
                r@.len() == i,
                forall|k: Seq<char>| #[trigger] self.chats.view().contains_key(k) ==> self.chats.view()[k]@.id == k,
                forall|j: int| 0 <= j < i ==> #[trigger] r@[j]@ == self.chats.value_seq()[j]@,
            decreases n - i,
        {
            r.push(self.chats.value_at(i).clone());
            i = i + 1;
        }
        proof {
            self.chats.lemma_order_agrees();
            assert(self@.dom() =~= self.chats.view().dom());
            assert forall|i: int| 0 <= i < r@.len() implies r@[i]@.id == self.chats.key_seq()[i]@ by {
                let k = self.chats.key_seq()[i]@;
                assert(crate::keyed::has_key(self.chats.key_seq(), k));
                assert(self.chats.view().contains_key(k));
                assert(self.chats.view()[k] == self.chats.value_seq()[i]);
                assert(self.chats.view()[k]@.id == k);
            }
            assert forall|i: int, j: int| 0 <= i < j < r@.len() implies r@[i]@.id != r@[j]@.id by {
                assert(r@[i]@.id == self.chats.key_seq()[i]@);
                assert(r@[j]@.id == self.chats.key_seq()[j]@);
            }
            assert forall|i: int| 0 <= i < r@.len() implies self@.contains_key(#[trigger] r@[i]@.id)
                && self@[r@[i]@.id] == r@[i]@ by {
                let k = self.chats.key_seq()[i]@;
                assert(self.chats.view()[k] == self.chats.value_seq()[i]);
                assert(crate::keyed::has_key(self.chats.key_seq(), k));
            }
            assert forall|k: Seq<char>| #[trigger] self@.contains_key(k) implies exists|i: int|
                0 <= i < r@.len() && r@[i]@.id == k by {
                assert(self.chats.view().contains_key(k));
                assert(crate::keyed::has_key(self.chats.key_seq(), k));
                let j = crate::keyed::key_index(self.chats.key_seq(), k);
                assert(r@[j]@.id == self.chats.key_seq()[j]@);
            }
        }
        r
    }

    /// The chat with id `id`; `NotFound` where there is none.
    pub fn get_chat_by_id(&self, id: String) -> (r: Result<Chat, ChatError>)
        ensures
            match r {
                Ok(c) => self@.contains_key(id@) && c@ == self@[id@],
                Err(e) => !self@.contains_key(id@) && is_not_found(e, id@),
            },
    {
        match self.chats.get(id.as_str()) {
            Some(c) => Ok(c.clone()),
            None => Err(ChatError::NotFound(id)),
        }
    }

    /// Creates the chat that `config` describes, under a fresh random id.
    pub fn add_chat_to_map(&mut self, config: ChatConfig) -> (r: Result<Chat, ChatError>)
        ensures
            match missing_part(config) {
                Some(e) => r == Err::<Chat, ChatError>(e) && final(self)@ == old(self)@,
                None => exists|k: Seq<char>|
                    {
                        &&& crate::chat::is_uuid_v4(k)
                        &&& #[trigger] final(self)@.contains_key(k)
                        &&& final(self)@ == old(self)@.insert(k, final(self)@[k])
                        &&& final(self)@[k].id == k
                        &&& final(self)@[k].messages.len() == 0
                        &&& final(self)@[k].llm == config.llm->Some_0@
                        &&& final(self)@[k].model == config.model->Some_0@
                        &&& final(self)@[k].title == config.title->Some_0@
                        &&& final(self)@[k].prompt == config.prompt->Some_0@
                        &&& final(self)@[k].system == crate::chat::opt_view(config.system)
                        &&& final(self)@[k].stream == config.stream
                        &&& if old(self)@.contains_key(k) {
                            r is Err && is_already_exists(r->Err_0, k)
                        } else {
                            r matches Ok(c) && c@ == final(self)@[k]
                        }
                    },
            },
    {
        let id = new_chat_id();
        let ghost k = id@;
        let r = self.add_chat_with_id(id, config);
        proof {
            if missing_part(config) is None {
                assert(final(self)@.contains_key(k));
            }
        }
        r
    }

    /// Creates the chat that `config` describes, under id `id`. Where a chat
    /// with that id was stored, it is replaced and `AlreadyExists` returned.
    pub fn add_chat_with_id(&mut self, id: String, config: ChatConfig) -> (r: Result<Chat, ChatError>)
        ensures
            match missing_part(config) {
                Some(e) => r == Err::<Chat, ChatError>(e) && final(self)@ == old(self)@,
                None => {
                    &&& final(self)@.contains_key(id@)
                    &&& final(self)@ == old(self)@.insert(id@, final(self)@[id@])
                    &&& final(self)@[id@].id == id@
                    &&& final(self)@[id@].messages.len() == 0
                    &&& final(self)@[id@].llm == config.llm->Some_0@
                    &&& final(self)@[id@].model == config.model->Some_0@
                    &&& final(self)@[id@].title == config.title->Some_0@
                    &&& final(self)@[id@].prompt == config.prompt->Some_0@
                    &&& final(self)@[id@].system == crate::chat::opt_view(config.system)
                    &&& final(self)@[id@].stream == config.stream
                    &&& if old(self)@.contains_key(id@) {
                        r is Err && is_already_exists(r->Err_0, id@)
                    } else {
                        r matches Ok(c) && c@ == final(self)@[id@]
                    }
                },
            },
    {
        let key = id.clone();
        let chat = match config.validate_with_id(id) {
            Ok(c) => c,
            Err(e) => return Err(e),
        };
        let had = self.store_chat(chat.clone());
        if had {
            Err(ChatError::AlreadyExists(key))
        } else {
            Ok(chat)
        }
    }

    /// Stores `chat` under its id, replacing a chat stored under it; whether
    /// one was stored is returned.
    fn store_chat(&mut self, chat: Chat) -> (had: bool)
        ensures
            final(self)@ == old(self)@.insert(chat@.id, chat@),
            had == old(self)@.contains_key(chat@.id),
    {
        let key = chat.id.clone();
        let ghost cv = chat@;
        let ghost old_view = self@;
        let mut held = ChatMap { chats: KeyedMap::new() };
        std::mem::swap(self, &mut held);
        proof {
            use_type_invariant(&held);
        }
        let ChatMap { mut chats } = held;
        let ghost old_inner = chats.view();
        let previous = chats.insert(key, chat);
        proof {
            assert forall|k: Seq<char>| #[trigger] chats.view().contains_key(k) implies chats.view()[k]@.id
                == k by {
                if k != cv.id {
                    assert(old_inner.contains_key(k));
                }
            }
        }
        let r = ChatMap { chats };
        proof {
            assert(r@ =~= old_view.insert(cv.id, cv));
        }
        *self = r;
        previous.is_some()
    }

    /// Appends the user's prompt to the chat that `request` names and returns
    /// the chat; `NotFound` where there is none.
    pub fn add_chatrequest_to_map(&mut self, request: ChatRequest) -> (r: Result<Chat, ChatError>)
        ensures
            old(self)@.contains_key(request.id@) ==> {
                let m = with_message(old(self)@, request.id@, user_message(request.prompt@));
                &&& final(self)@ == m
                &&& r matches Ok(c) && c@ == m[request.id@]
            },
            !old(self)@.contains_key(request.id@) ==> final(self)@ == old(self)@ && r is Err && is_not_found(r->Err_0, request.id@),
    {
        let msg = ChatMessage::create_user_message(request.prompt.as_str(), None);
        match self.append_message(request.id.as_str(), msg) {
            Ok(()) => {
                self.get_chat_by_id(request.id)
            },
            Err(e) => Err(e),
        }
    }

    /// Appends the assistant's response to chat `id`; `NotFound` where there
    /// is none.
    pub fn add_chatresponse_to_map(
        &mut self,
        id: &String,
        response_text: String,
        response_id: Option<String>,
    ) -> (r: Result<(), ChatError>)
        ensures
            old(self)@.contains_key(id@) ==> r is Ok && final(self)@ == with_message(
                old(self)@,
                id@,
                assistant_message(response_text@, crate::chat::opt_view(response_id)),
            ),
            !old(self)@.contains_key(id@) ==> final(self)@ == old(self)@ && r is Err && is_not_found(r->Err_0, id@),
    {
        let msg = ChatMessage::create_assistant_message(response_text.as_str(), response_id);
        self.append_message(id.as_str(), msg)
    }

    /// Appends `msg` to chat `id`; `NotFound` where there is none.
    fn append_message(&mut self, id: &str, msg: ChatMessage) -> (r: Result<(), ChatError>)
        ensures
            old(self)@.contains_key(id@) ==> r is Ok && final(self)@ == with_message(
                old(self)@,
                id@,
                msg@,
            ),
            !old(self)@.contains_key(id@) ==> final(self)@ == old(self)@ && r is Err && is_not_found(r->Err_0, id@),
    {
        proof {
            use_type_invariant(&*self);
        }
        match self.chats.find(id) {
            Some(i) => {
                let ghost old_view = self@;
                let mut chat = self.chats.value_at(i).clone();
                let ghost mv = msg@;
                chat.messages.push(msg);
                proof {
                    assert(chat@.messages =~= old_view[id@].messages.push(mv));
                    assert(chat@ == ChatView { messages: old_view[id@].messages.push(mv), ..old_view[id@] });
                }
                let _had = self.store_chat(chat);
                proof {
                    assert(self@ =~= with_message(old_view, id@, mv));
                }
                Ok(())
            },
            None => Err(ChatError::NotFound(String::from_str(id))),
        }
    }

    /// Stores each of `chats` under its id, replacing a stored chat with the
    /// same id; later chats of the list win over earlier ones.
    pub fn load_chats(&mut self, chats: Vec<Chat>)
        ensures
            final(self)@ == loaded(old(self)@, chats@.map_values(|c: Chat| c@)),
    {
        let ghost start = self@;
        let ghost views = chats@.map_values(|c: Chat| c@);
        let mut i: usize = 0;
        while i < chats.len()
            invariant
                i <= chats@.len(),
                views == chats@.map_values(|c: Chat| c@),
                self@ == loaded(start, views.take(i as int)),
            decreases chats@.len() - i,
        {
            let c = chats[i].clone();
            let ghost before = self@;
            let ghost cv = c@;
            let _had = self.store_chat(c);
            proof {
                assert(self@ =~= before.insert(cv.id, cv));
                assert(views.take(i + 1).drop_last() =~= views.take(i as int));
            }
            i = i + 1;
        }
        assert(views.take(chats@.len() as int) =~= views);
    }
}

/// Appending a message to a chat changes that chat's messages only: every
/// other chat, and every other part of that chat, stays as it was.
pub proof fn appending_touches_one_chat(m: StoreView, id: Seq<char>, msg: MessageView)
    requires
        m.contains_key(id),
    ensures
        with_message(m, id, msg).dom() == m.dom(),
        with_message(m, id, msg)[id].messages == m[id].messages.push(msg),
        crate::chat::same_settings(with_message(m, id, msg)[id], m[id]),
        forall|k: Seq<char>| k != id && m.contains_key(k) ==> #[trigger] with_message(m, id, msg)[k] == m[k],
{
    assert(with_message(m, id, msg).dom() =~= m.dom());
}

/// A request followed by its response leaves the chat's history as it was,
/// then the user's prompt, then the assistant's reply.
pub proof fn request_then_response(
    m: StoreView,
    id: Seq<char>,
    prompt: Seq<char>,
    text: Seq<char>,
    response_id: Option<Seq<char>>,
)
    requires
        m.contains_key(id),
    ensures
        ({
            let after = with_message(
                with_message(m, id, user_message(prompt)),
                id,
                assistant_message(text, response_id),
            );
            &&& after.dom() == m.dom()
            &&& after[id].messages == m[id].messages + seq![
                user_message(prompt),
                assistant_message(text, response_id),
            ]
        }),
{
    let m1 = with_message(m, id, user_message(prompt));
    let after = with_message(m1, id, assistant_message(text, response_id));
    assert(after.dom() =~= m.dom());
    assert(after[id].messages =~= m[id].messages + seq![
        user_message(prompt),
        assistant_message(text, response_id),
    ]);
}

/// The last chat of `cs` with id `k`, if there is one.
pub open spec fn last_with_id(cs: Seq<ChatView>, k: Seq<char>) -> Option<ChatView>
    decreases cs.len(),
{
    if cs.len() == 0 {
        None
    } else if cs.last().id == k {
        Some(cs.last())
    } else {
        last_with_id(cs.drop_last(), k)
    }
}

/// After loading a list of chats, each id of the list is found, holding the
/// last chat of the list with that id; every other id keeps what it held.
pub proof fn loading_keeps_last_of_each_id(m: StoreView, cs: Seq<ChatView>, k: Seq<char>)
    ensures
        match last_with_id(cs, k) {
            Some(c) => loaded(m, cs).contains_key(k) && loaded(m, cs)[k] == c,
            None => loaded(m, cs).contains_key(k) == m.contains_key(k) && (m.contains_key(k)
                ==> loaded(m, cs)[k] == m[k]),
        },
    decreases cs.len(),
{
    if cs.len() > 0 {
        loading_keeps_last_of_each_id(m, cs.drop_last(), k);
    }
}

/// Loading chats that the store already holds, each under its id, changes
/// nothing: reloading a store's own chats gives the store back.
pub proof fn loading_held_chats_changes_nothing(m: StoreView, cs: Seq<ChatView>)
    requires
        forall|i: int| 0 <= i < cs.len() ==> m.contains_key(#[trigger] cs[i].id) && m[cs[i].id] == cs[i],
    ensures
        loaded(m, cs) == m,
    decreases cs.len(),
{
    if cs.len() > 0 {
        let init = cs.drop_last();
        assert forall|i: int| 0 <= i < init.len() implies m.contains_key(#[trigger] init[i].id) && m[init[i].id]
            == init[i] by {
            assert(init[i] == cs[i]);
        }
        loading_held_chats_changes_nothing(m, init);
        let last = cs[cs.len() - 1];
        assert(m.contains_key(last.id) && m[last.id] == last);
        assert(m.insert(last.id, last) =~= m);
    }
}

/// `m` with each chat of `cs` stored under its id, in order.
pub open spec fn loaded(m: StoreView, cs: Seq<ChatView>) -> StoreView
    decreases cs.len(),
{
    if cs.len() == 0 {
        m
    } else {
        loaded(m, cs.drop_last()).insert(cs.last().id, cs.last())
    }
}

} // verus!
