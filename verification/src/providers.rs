//! The model providers the service offers, and the choice of a provider's
//! client by name.
use vstd::prelude::*;
use crate::text::{lowercase, to_lowercase};

verus! {

/// A provider as the user interface lists it: an id, its name and its models.
#[derive(Debug, PartialEq)]
pub struct LlmProvider {
    pub id: String,
    pub llm: String,
    pub models: Vec<String>,
}

/// A provider as plain values.
pub struct ProviderView {
    pub id: Seq<char>,
    pub llm: Seq<char>,
    pub models: Seq<Seq<char>>,
}

impl View for LlmProvider {
    type V = ProviderView;

    open spec fn view(&self) -> ProviderView {
        ProviderView { id: self.id@, llm: self.llm@, models: self.models@.map_values(|m: String| m@) }
    }
}

impl Clone for LlmProvider {
    /// An equal provider.
    fn clone(&self) -> (r: Self)
        ensures
            r@ == self@,
    {
        let mut models: Vec<String> = Vec::new();
        let mut i: usize = 0;
        while i < self.models.len()
            invariant
                i <= self.models@.len(),
                models@.len() == i,
                forall|j: int| 0 <= j < i ==> #[trigger] models@[j]@ == self.models@[j]@,
            decreases self.models@.len() - i,
        {
            models.push(self.models[i].clone());
            i = i + 1;
        }
        assert(models@.map_values(|m: String| m@) =~= self.models@.map_values(|m: String| m@));
        LlmProvider { id: self.id.clone(), llm: self.llm.clone(), models }
    }
}

/// The provider entry for provider `llm` and its default model: its id is
/// the lowercase name.
pub open spec fn provider_entry(llm: Seq<char>, model: Seq<char>) -> ProviderView {
    ProviderView { id: lowercase(llm), llm, models: seq![model] }
}

impl LlmProvider {
    /// The entry of provider `llm` with the single model `model`.
    pub fn new(llm: &str, model: &str) -> (r: LlmProvider)
        ensures
            r@ == provider_entry(llm@, model@),
    {
        let mut models: Vec<String> = Vec::new();
        models.push(String::from_str(model));
        let r = LlmProvider { id: to_lowercase(llm), llm: String::from_str(llm), models };
        assert(r@.models =~= seq![model@]);
        r
    }
}

/// A provider's name and its default model, as its client library names them.
#[derive(Debug, Clone, PartialEq)]
pub struct ProviderDefault {
    pub llm: String,
    pub model: String,
}

/// The providers whose clients can be built.
#[derive(Debug, Clone, Copy, PartialEq, Eq, Structural)]
pub enum LlmKind {
    Anthropic,
    Gemini,
    OpenAI,
}

/// The environment variables that a provider's client is configured from.
#[derive(Debug, Clone, PartialEq)]
pub struct LlmEnv {
    /// `ANTHROPIC_API_KEY`.
    pub anthropic_api_key: Option<String>,
    /// `ANTHROPIC_VERSION`.
    pub anthropic_version: Option<String>,
    /// `GEMINI_API_KEY`.
    pub gemini_api_key: Option<String>,
    /// `OPENAI_API_KEY`.
    pub openai_api_key: Option<String>,
}

/// What a provider's client is built from.
#[derive(Debug, Clone, PartialEq)]
pub struct LlmClientConfig {
    pub kind: LlmKind,
    pub api_key: String,
    /// The API version; Anthropic's client takes one.
    pub version: Option<String>,
    pub model: String,
}

/// Why no client could be chosen.
#[derive(Debug, Clone, PartialEq)]
pub enum LlmError {
    /// No client is known for this provider name.
    Unsupported(String),
    /// This environment variable is not set.
    MissingEnv(String),
}

/// The provider that `llm` names: `Anthropic`, `Gemini` or `OpenAI`, spelled
/// exactly so.
pub open spec fn kind_named(llm: Seq<char>) -> Option<LlmKind> {
    if llm == "Anthropic"@ {
        Some(LlmKind::Anthropic)
    } else if llm == "Gemini"@ {
        Some(LlmKind::Gemini)
    } else if llm == "OpenAI"@ {
        Some(LlmKind::OpenAI)
    } else {
        None
    }
}

/// The text of an optional string, where there is one.
pub open spec fn env_view(o: Option<String>) -> Option<Seq<char>> {
    match o {
        Some(s) => Some(s@),
        None => None,
    }
}

/// The outcome of choosing a client for `llm` and `model` in environment
/// `env`: the client's settings, or what is missing. Only the provider's API
/// key is required; Anthropic's API version is taken from `ANTHROPIC_VERSION`
/// where it is set, else it is `ANTHROPIC_DEFAULT_VERSION`.
pub open spec fn chosen_client(llm: Seq<char>, model: Seq<char>, env: LlmEnv) -> Result<
    (LlmKind, Seq<char>, Option<Seq<char>>, Seq<char>),
    LlmErrorView,
> {
    match kind_named(llm) {
        None => Err(LlmErrorView::Unsupported(llm)),
        Some(LlmKind::Anthropic) => match env.anthropic_api_key {
            None => Err(LlmErrorView::MissingEnv("ANTHROPIC_API_KEY"@)),
            Some(k) => Ok(
                (
                    LlmKind::Anthropic,
                    k@,
                    Some(
                        match env.anthropic_version {
                            Some(v) => v@,
                            None => "2023-06-01"@,
                        },
                    ),
                    model,
                ),
            ),
        },
        Some(LlmKind::Gemini) => match env.gemini_api_key {
            None => Err(LlmErrorView::MissingEnv("GEMINI_API_KEY"@)),
            Some(k) => Ok((LlmKind::Gemini, k@, None, model)),
        },
        Some(LlmKind::OpenAI) => match env.openai_api_key {
            None => Err(LlmErrorView::MissingEnv("OPENAI_API_KEY"@)),
            Some(k) => Ok((LlmKind::OpenAI, k@, None, model)),
        },
    }
}

/// The API key that the environment holds for provider `kind`.
pub open spec fn provider_key(kind: LlmKind, env: LlmEnv) -> Option<String> {
    match kind {
        LlmKind::Anthropic => env.anthropic_api_key,
        LlmKind::Gemini => env.gemini_api_key,
        LlmKind::OpenAI => env.openai_api_key,
    }
}

/// Choosing a client succeeds exactly for a provider that is one of the
/// three and whose API key is set. The chosen client is of that provider,
/// carries that key, and runs the model asked for, unchanged; only
/// Anthropic's client has a version. The model plays no part in whether a
/// client is chosen: two models give the same outcome but for the model.
pub proof fn chosen_client_runs_the_model_asked_for(
    llm: Seq<char>,
    model: Seq<char>,
    other_model: Seq<char>,
    env: LlmEnv,
)
    ensures
        chosen_client(llm, model, env) is Ok <==> (kind_named(llm) is Some && provider_key(
            kind_named(llm)->Some_0,
            env,
        ) is Some),
        chosen_client(llm, model, env) is Ok ==> {
            let c = chosen_client(llm, model, env)->Ok_0;
            let kind = kind_named(llm)->Some_0;
            &&& c.3 == model
            &&& c.0 == kind
            &&& c.1 == provider_key(kind, env)->Some_0@
            &&& (c.2 is Some <==> kind == LlmKind::Anthropic)
            &&& (kind == LlmKind::Anthropic && env.anthropic_version is Some ==> c.2 == Some(
                env.anthropic_version->Some_0@,
            ))
            &&& (kind == LlmKind::Anthropic && env.anthropic_version is None ==> c.2 == Some(
                ANTHROPIC_DEFAULT_VERSION@,
            ))
        },
        kind_named(llm) is None ==> chosen_client(llm, model, env) == Err::<
            (LlmKind, Seq<char>, Option<Seq<char>>, Seq<char>),
            LlmErrorView,
        >(LlmErrorView::Unsupported(llm)),
        chosen_client(llm, model, env) is Ok == chosen_client(llm, other_model, env) is Ok,
        chosen_client(llm, model, env) is Err ==> chosen_client(llm, model, env)
            == chosen_client(llm, other_model, env),
        chosen_client(llm, model, env) is Ok ==> {
            let a = chosen_client(llm, model, env)->Ok_0;
            let b = chosen_client(llm, other_model, env)->Ok_0;
            a.0 == b.0 && a.1 == b.1 && a.2 == b.2 && b.3 == other_model
        },
{
    reveal_strlit("2023-06-01");
}

/// An `LlmError` as plain values.
pub enum LlmErrorView {
    Unsupported(Seq<char>),
    MissingEnv(Seq<char>),
}

impl View for LlmError {
    type V = LlmErrorView;

    open spec fn view(&self) -> LlmErrorView {
        match self {
            LlmError::Unsupported(s) => LlmErrorView::Unsupported(s@),
            LlmError::MissingEnv(s) => LlmErrorView::MissingEnv(s@),
        }
    }
}

/// The message of an error, as a user reads it.
pub open spec fn llm_error_message(e: LlmErrorView) -> Seq<char> {
    match e {
        LlmErrorView::Unsupported(llm) => "Llm client for '"@ + llm + "' is not supported"@,
        LlmErrorView::MissingEnv(name) => name + " environment variable not set"@,
    }
}

impl LlmError {
    /// The message of the error, as a user reads it.
    pub fn message(&self) -> (r: String)
        ensures
            r@ == llm_error_message(self@),
    {
        match self {
            LlmError::Unsupported(llm) => String::from_str("Llm client for '").concat(
                llm.as_str(),
            ).concat("' is not supported"),
            LlmError::MissingEnv(name) => name.clone().concat(" environment variable not set"),
        }
    }
}

fn take_env(o: Option<String>, name: &str) -> (r: Result<String, LlmError>)
    ensures
        match o {
            Some(s) => r == Ok::<String, LlmError>(s),
            None => r is Err && r->Err_0@ == LlmErrorView::MissingEnv(name@),
        },
{
    match o {
        Some(s) => Ok(s),
        None => Err(LlmError::MissingEnv(String::from_str(name))),
    }
}

/// The service that builds agents for the providers it knows.
#[derive(Debug, Clone, Copy)]
pub struct AgentService {}

impl AgentService {
    /// The service.
    pub fn new() -> (r: AgentService)
        ensures
            r == (AgentService {  }),
    {
        AgentService {  }
    }

    /// The provider that `llm` names, if it is one of `Anthropic`, `Gemini`
    /// and `OpenAI`.
    pub fn llm_kind(&self, llm: &str) -> (r: Option<LlmKind>)
        ensures
            r == kind_named(llm@),
    {
        let l = String::from_str(llm);
        if l == String::from_str("Anthropic") {
            Some(LlmKind::Anthropic)
        } else if l == String::from_str("Gemini") {
            Some(LlmKind::Gemini)
        } else if l == String::from_str("OpenAI") {
            Some(LlmKind::OpenAI)
        } else {
            None
        }
    }

    /// The settings of the client for provider `llm` and model `model`,
    /// taken from `env`: the provider's API key and, for Anthropic, its API
    /// version (`ANTHROPIC_VERSION`, or the default version where that is not
    /// set). An error names an unknown provider or the unset API key.
    pub fn get_llm(&self, llm: &str, model: String, env: LlmEnv) -> (r: Result<LlmClientConfig, LlmError>)
        ensures
            match chosen_client(llm@, model@, env) {
                Ok(c) => r is Ok && r->Ok_0.kind == c.0 && r->Ok_0.api_key@ == c.1 && env_view(
                    r->Ok_0.version,
                ) == c.2 && r->Ok_0.model@ == c.3,
                Err(e) => r is Err && r->Err_0@ == e,
            },
            r is Ok ==> r->Ok_0.model@ == model@ && Some(r->Ok_0.kind) == kind_named(llm@),
    {
        match self.llm_kind(llm) {
            None => Err(LlmError::Unsupported(String::from_str(llm))),
            Some(LlmKind::Anthropic) => {
                let api_key = take_env(env.anthropic_api_key, "ANTHROPIC_API_KEY")?;
                let version = match env.anthropic_version {
                    Some(v) => v,
                    None => String::from_str(ANTHROPIC_DEFAULT_VERSION),
                };
                Ok(LlmClientConfig { kind: LlmKind::Anthropic, api_key, version: Some(version), model })
            },
            Some(LlmKind::Gemini) => {
                let api_key = take_env(env.gemini_api_key, "GEMINI_API_KEY")?;
                Ok(LlmClientConfig { kind: LlmKind::Gemini, api_key, version: None, model })
            },
            Some(LlmKind::OpenAI) => {
                let api_key = take_env(env.openai_api_key, "OPENAI_API_KEY")?;
                Ok(LlmClientConfig { kind: LlmKind::OpenAI, api_key, version: None, model })
            },
        }
    }

    /// The providers offered, in the order Gemini, OpenAI, Anthropic, each
    /// with its default model and its lowercase name as id.
    pub fn get_llm_providers(
        &self,
        gemini: &ProviderDefault,
        openai: &ProviderDefault,
        anthropic: &ProviderDefault,
    ) -> (r: Vec<LlmProvider>)
        ensures
            r@.len() == 3,
            r@[0]@ == provider_entry(gemini.llm@, gemini.model@),
            r@[1]@ == provider_entry(openai.llm@, openai.model@),
            r@[2]@ == provider_entry(anthropic.llm@, anthropic.model@),
    {
        let mut providers: Vec<LlmProvider> = Vec::new();
        providers.push(LlmProvider::new(gemini.llm.as_str(), gemini.model.as_str()));
        providers.push(LlmProvider::new(openai.llm.as_str(), openai.model.as_str()));
        providers.push(LlmProvider::new(anthropic.llm.as_str(), anthropic.model.as_str()));
        providers
    }
}

/// The Anthropic API version used where `ANTHROPIC_VERSION` is not set.
pub const ANTHROPIC_DEFAULT_VERSION: &'static str = "2023-06-01";

/// The token budget of every chat agent.
pub const AGENT_MAX_TOKENS: i32 = 5000;

} // verus!
