//! A model: its name, whom it is asked from, how often, and what is tried next.
use crate::config::provider::{LlmView, ProviderConfig, ProviderView};
use crate::llm::manager;
use crate::llm::manager::{LlmError, LlmErrorView, LlmManager};
use crate::llm::message::{CompletionError, ErrorView, Usage};
use crate::llm::routing;
use crate::llm::routing::{RoutingConfig, RoutingView};
use crate::text;
use vstd::arithmetic::power2;
use vstd::prelude::*;

verus! {

// ---------------------------------------------------------------------------
// Names
// ---------------------------------------------------------------------------

/// The whole name of a model.
pub open spec fn full_name(provider: Seq<char>, model_name: Seq<char>) -> Seq<char> {
    provider + "/"@ + model_name
}

/// No part of the text is a slash.
pub open spec fn has_no_slash(s: Seq<char>) -> bool {
    forall|i: int| 0 <= i < s.len() ==> s[i] != '/'
}

/// A text with a slash behind a part without one is cut there.
proof fn lemma_cut_at_first_slash(provider: Seq<char>, model_name: Seq<char>)
    requires
        has_no_slash(provider),
    ensures
        text::cut(full_name(provider, model_name), "/"@) == Some((provider, model_name)),
    decreases provider.len(),
{
    reveal_strlit("/");
    let whole = full_name(provider, model_name);
    lemma_first_slash(provider, model_name);
    assert(whole.subrange(0, provider.len() as int) =~= provider);
    assert(whole.subrange(provider.len() as int + 1, whole.len() as int) =~= model_name);
}

/// Where the first slash stands.
proof fn lemma_first_slash(provider: Seq<char>, model_name: Seq<char>)
    requires
        has_no_slash(provider),
    ensures
        text::position_of(full_name(provider, model_name), "/"@) == Some(provider.len() as int),
    decreases provider.len(),
{
    reveal_strlit("/");
    let whole = full_name(provider, model_name);
    if provider.len() == 0 {
        assert(whole.subrange(0, 1) =~= "/"@);
    } else {
        assert(whole[0] == provider[0]);
        assert(whole.subrange(0, 1)[0] == whole[0]);
        assert(whole.drop_first() =~= full_name(provider.drop_first(), model_name));
        lemma_first_slash(provider.drop_first(), model_name);
    }
}

/// What stands before the first slash has none.
proof fn lemma_no_slash_before(s: Seq<char>)
    ensures
        match text::position_of(s, "/"@) {
            Some(i) => 0 <= i < s.len() && s[i] == '/' && has_no_slash(s.subrange(0, i)),
            None => true,
        },
    decreases s.len(),
{
    reveal_strlit("/");
    text::lemma_position_of(s, "/"@);
    if text::begins_with(s, "/"@) {
        assert(s.subrange(0, 1)[0] == s[0]);
    } else if s.len() > 0 {
        lemma_no_slash_before(s.drop_first());
        if let Some(i) = text::position_of(s.drop_first(), "/"@) {
            if s[0] == '/' {
                assert(s.subrange(0, 1) =~= "/"@);
            }
            let before = s.subrange(0, i + 1);
            assert forall|j: int| 0 <= j < before.len() implies before[j] != '/' by {
                if j > 0 {
                    assert(s.drop_first().subrange(0, i)[j - 1] == s[j]);
                }
            }
        }
    }
}

/// The provider of a model's name has no slash.
proof fn lemma_provider_has_no_slash(name: Seq<char>)
    ensures
        has_no_slash(manager::model_parts(name).0),
{
    lemma_no_slash_before(name);
    reveal_strlit("anthropic");
}

/// A model by name, with what it is used for.
pub struct SpacebotModel {
    model_name: String,
    provider: String,
    full_model_name: String,
    routing: Option<RoutingConfig>,
    agent_id: Option<String>,
    process_type: Option<String>,
    worker_type: Option<String>,
}

/// The view of a [`SpacebotModel`]. The whole name is made of the two others.
#[verifier::ext_equal]
pub struct ModelView {
    pub provider: Seq<char>,
    pub model_name: Seq<char>,
    pub routing: Option<RoutingView>,
    pub agent_id: Option<Seq<char>>,
    pub process_type: Option<Seq<char>>,
    pub worker_type: Option<Seq<char>>,
}

impl View for SpacebotModel {
    type V = ModelView;

    closed spec fn view(&self) -> ModelView {
        ModelView {
            provider: self.provider@,
            model_name: self.model_name@,
            routing: routing::routing_view(self.routing),
            agent_id: text::view_of(self.agent_id),
            process_type: text::view_of(self.process_type),
            worker_type: text::view_of(self.worker_type),
        }
    }
}

/// A model with a name and nothing more.
pub open spec fn named(name: Seq<char>) -> ModelView {
    let parts = manager::model_parts(name);
    ModelView {
        provider: parts.0,
        model_name: parts.1,
        routing: None,
        agent_id: None,
        process_type: None,
        worker_type: None,
    }
}

impl SpacebotModel {
    /// The whole name is that of the provider and the model, and the provider ends at
    /// its first slash.
    #[verifier::type_invariant]
    spec fn well_formed(self) -> bool {
        &&& self.full_model_name@ == full_name(self.provider@, self.model_name@)
        &&& has_no_slash(self.provider@)
    }

    /// The model of a name. "openrouter/provider/model" is the model "provider/model"
    /// of OpenRouter, and a name without a slash is one of Anthropic's.
    pub fn make(model: &str) -> (made: SpacebotModel)
        ensures
            made@ == named(model@),
    {
        let (provider, model_name) = manager::split_model_name(model);
        let start = text::concat(provider.as_str(), "/");
        let full_model_name = text::concat(start.as_str(), model_name.as_str());
        proof {
            lemma_provider_has_no_slash(model@);
        }
        SpacebotModel {
            model_name,
            provider,
            full_model_name,
            routing: None,
            agent_id: None,
            process_type: None,
            worker_type: None,
        }
    }

    /// The provider's id.
    pub fn provider(&self) -> (id: &str)
        ensures
            id@ == self@.provider,
    {
        self.provider.as_str()
    }

    /// The name of the model at its provider.
    pub fn model_name(&self) -> (name: &str)
        ensures
            name@ == self@.model_name,
    {
        self.model_name.as_str()
    }

    /// The whole name.
    pub fn full_model_name(&self) -> (name: &str)
        ensures
            name@ == full_name(self@.provider, self@.model_name),
    {
        proof {
            use_type_invariant(self);
        }
        self.full_model_name.as_str()
    }

    /// The routing, where one is attached.
    pub fn routing(&self) -> (routing: &Option<RoutingConfig>)
        ensures
            routing::routing_view(*routing) == self@.routing,
    {
        &self.routing
    }

    /// Attach routing config for fallback behavior.
    pub fn with_routing(self, routing: RoutingConfig) -> (model: SpacebotModel)
        ensures
            model@ == (ModelView { routing: Some(routing@), ..self@ }),
    {
        proof {
            use_type_invariant(&self);
        }
        let mut model = self;
        model.routing = Some(routing);
        model
    }

    /// Attach agent context for per-agent metric labels.
    pub fn with_context(self, agent_id: String, process_type: String) -> (model: SpacebotModel)
        ensures
            model@ == (ModelView {
                agent_id: Some(agent_id@),
                process_type: Some(process_type@),
                ..self@
            }),
    {
        proof {
            use_type_invariant(&self);
        }
        let mut model = self;
        model.agent_id = Some(agent_id);
        model.process_type = Some(process_type);
        model
    }

    /// Attach a worker type label for metrics (e.g. "builtin", "opencode").
    pub fn with_worker_type(self, worker_type: String) -> (model: SpacebotModel)
        ensures
            model@ == (ModelView { worker_type: Some(worker_type@), ..self@ }),
    {
        proof {
            use_type_invariant(&self);
        }
        let mut model = self;
        model.worker_type = Some(worker_type);
        model
    }

    /// The same model again.
    pub fn duplicate(&self) -> (copy: SpacebotModel)
        ensures
            copy@ == self@,
    {
        proof {
            use_type_invariant(self);
        }
        SpacebotModel {
            model_name: self.model_name.clone(),
            provider: self.provider.clone(),
            full_model_name: self.full_model_name.clone(),
            routing: match &self.routing {
                Some(routing) => Some(routing.duplicate()),
                None => None,
            },
            agent_id: self.agent_id.clone(),
            process_type: self.process_type.clone(),
            worker_type: self.worker_type.clone(),
        }
    }

    /// The model that an attempt under a name asks: this very model under its own
    /// name, and the one of that name under another.
    pub fn for_attempt(&self, name: &str) -> (model: SpacebotModel)
        ensures
            model@ == (if name@ == full_name(self@.provider, self@.model_name) {
                self@
            } else {
                named(name@)
            }),
    {
        if text::same(name, self.full_model_name()) {
            self.duplicate()
        } else {
            SpacebotModel::make(name)
        }
    }
}

/// A model's whole name names that model: made from it, it has the same provider and
/// the same name.
pub proof fn law_full_name_names_the_model(name: Seq<char>)
    ensures
        named(full_name(named(name).provider, named(name).model_name)) == named(name),
{
    lemma_provider_has_no_slash(name);
    lemma_cut_at_first_slash(named(name).provider, named(name).model_name);
}

/// A name with a slash in it is its own whole name.
pub proof fn law_whole_names_are_kept(name: Seq<char>)
    requires
        text::has(name, "/"@),
    ensures
        full_name(named(name).provider, named(name).model_name) == name,
{
    reveal_strlit("/");
    lemma_no_slash_before(name);
    assert(full_name(named(name).provider, named(name).model_name) =~= name);
}

/// "openrouter/" before a name asks OpenRouter for that name, slashes and all.
pub proof fn law_openrouter_names(rest: Seq<char>)
    ensures
        named("openrouter/"@ + rest).provider == "openrouter"@,
        named("openrouter/"@ + rest).model_name == rest,
{
    reveal_strlit("openrouter/");
    reveal_strlit("openrouter");
    reveal_strlit("/");
    assert("openrouter/"@ + rest =~= full_name("openrouter"@, rest));
    lemma_cut_at_first_slash("openrouter"@, rest);
}

// ---------------------------------------------------------------------------
// Whom a model is asked from
// ---------------------------------------------------------------------------

/// A token that a provider may need.
#[derive(Clone, Copy, Debug, PartialEq, Eq)]
pub enum TokenKind {
    Nothing,
    Anthropic,
    OpenAi,
    Copilot,
}

/// What was granted for a call: a token, where there is one, and what goes with it.
pub struct Grant {
    pub token: Result<Option<String>, LlmError>,
    /// The address that a Copilot token names.
    pub derived_base_url: Option<String>,
    pub default_base_url: String,
    pub version: String,
}

/// The token that a provider may need.
pub open spec fn token_kind(provider_id: Seq<char>) -> TokenKind {
    if provider_id == "anthropic"@ {
        TokenKind::Anthropic
    } else if provider_id == "openai-chatgpt"@ {
        TokenKind::OpenAi
    } else if provider_id == "github-copilot"@ {
        TokenKind::Copilot
    } else {
        TokenKind::Nothing
    }
}

/// The provider with a token of its own, once there was no trouble with the token.
pub open spec fn with_token(
    llm: LlmView,
    kind: TokenKind,
    token: Option<Seq<char>>,
    base_url: Seq<char>,
    version: Seq<char>,
    provider_id: Seq<char>,
) -> Result<ProviderView, LlmErrorView> {
    match kind {
        TokenKind::Anthropic => manager::anthropic_provider(llm, token),
        TokenKind::OpenAi => manager::chatgpt_provider(token),
        TokenKind::Copilot => manager::copilot_provider(token, base_url, version),
        TokenKind::Nothing => manager::configured_provider(llm, provider_id),
    }
}

/// The address of a Copilot provider.
pub open spec fn granted_url(grant: Grant) -> Seq<char> {
    match grant.derived_base_url {
        Some(url) => url@,
        None => grant.default_base_url@,
    }
}

/// The provider that a model is asked from. Trouble with a token is trouble only
/// where a token is needed.
pub open spec fn provider_of(llm: LlmView, provider_id: Seq<char>, grant: Grant) -> Result<
    ProviderView,
    LlmErrorView,
> {
    let kind = token_kind(provider_id);
    match grant.token {
        Ok(token) => with_token(
            llm,
            kind,
            text::view_of(token),
            granted_url(grant),
            grant.version@,
            provider_id,
        ),
        Err(trouble) => if kind == TokenKind::Nothing {
            manager::configured_provider(llm, provider_id)
        } else {
            Err(trouble@)
        },
    }
}

/// The token that a provider may need.
fn kind_of(provider_id: &str) -> (kind: TokenKind)
    ensures
        kind == token_kind(provider_id@),
{
    if text::same(provider_id, "anthropic") {
        TokenKind::Anthropic
    } else if text::same(provider_id, "openai-chatgpt") {
        TokenKind::OpenAi
    } else if text::same(provider_id, "github-copilot") {
        TokenKind::Copilot
    } else {
        TokenKind::Nothing
    }
}

impl SpacebotModel {
    /// The token to get before this model can be asked.
    pub fn needed_token(&self) -> (kind: TokenKind)
        ensures
            kind == token_kind(self@.provider),
    {
        kind_of(self.provider.as_str())
    }

    /// The provider that this model is asked from.
    pub fn provider_config_for_current_model(&self, manager: &LlmManager, grant: Grant) -> (result:
        Result<ProviderConfig, LlmError>)
        ensures
            manager::provider_result(result) == provider_of(
                manager.config@,
                self@.provider,
                grant,
            ),
    {
        let kind = self.needed_token();
        let token = match grant.token {
            Ok(token) => token,
            Err(trouble) => {
                return match kind {
                    TokenKind::Nothing => manager.get_provider(self.provider.as_str()),
                    _ => Err(trouble),
                };
            },
        };
        match kind {
            TokenKind::Anthropic => manager.get_anthropic_provider(token),
            TokenKind::OpenAi => manager.get_openai_chatgpt_provider(token),
            TokenKind::Copilot => manager.get_github_copilot_provider(
                token,
                grant.derived_base_url,
                grant.default_base_url.as_str(),
                grant.version.as_str(),
            ),
            TokenKind::Nothing => manager.get_provider(self.provider.as_str()),
        }
    }
}

/// A saved ChatGPT token does not shadow a configured OpenAI key: whatever was granted,
/// an OpenAI model is asked with the key in the configuration.
pub proof fn law_openai_key_is_not_shadowed(llm: LlmView, grant: Grant)
    ensures
        provider_of(llm, "openai"@, grant) == manager::configured_provider(llm, "openai"@),
{
    reveal_strlit("openai");
    reveal_strlit("anthropic");
    reveal_strlit("openai-chatgpt");
    reveal_strlit("github-copilot");
    assert("openai"@.len() != "anthropic"@.len());
    assert("openai"@.len() != "openai-chatgpt"@.len());
    assert("openai"@.len() != "github-copilot"@.len());
}

/// A configured Anthropic key is used only without an OAuth token.
pub proof fn law_anthropic_token_is_preferred(
    llm: LlmView,
    token: Seq<char>,
    asked: Result<ProviderView, LlmErrorView>,
)
    requires
        asked == manager::anthropic_provider(llm, Some(token)),
    ensures
        asked matches Ok(provider) && provider.api_key == token,
{
}

// ---------------------------------------------------------------------------
// Retries
// ---------------------------------------------------------------------------

/// How often a model is tried, and how long the first wait is. Each further wait is
/// twice as long as the one before it.
#[derive(Clone, Copy, Debug, PartialEq, Eq)]
pub struct RetryPolicy {
    pub max_attempts: u32,
    pub base_delay_ms: u64,
}

/// The wait before an attempt, in milliseconds; the first attempt needs none.
pub open spec fn delay_before(policy: RetryPolicy, attempt: nat) -> nat {
    if attempt == 0 {
        0
    } else {
        policy.base_delay_ms as nat * power2::pow2((attempt - 1) as nat)
    }
}

/// The waits of a policy are numbers that a machine can hold.
pub open spec fn is_timely(policy: RetryPolicy) -> bool {
    &&& policy.max_attempts <= 65
    &&& policy.max_attempts > 0 ==> delay_before(policy, (policy.max_attempts - 1) as nat)
        <= u64::MAX
}

/// What came of an attempt at a model.
#[derive(Debug, PartialEq, Eq)]
pub enum Trial {
    Answered,
    /// It failed, with what the texts of errors are known to mean: whether this one may
    /// pass, and whether it speaks of a rate limit.
    Failed { error: CompletionError, retriable: bool, is_rate_limit: bool },
}

/// The view of a [`Trial`].
pub enum TrialView {
    Answered,
    Failed { error: ErrorView, retriable: bool, is_rate_limit: bool },
}

impl View for Trial {
    type V = TrialView;

    open spec fn view(&self) -> TrialView {
        match self {
            Trial::Answered => TrialView::Answered,
            Trial::Failed { error, retriable, is_rate_limit } => TrialView::Failed {
                error: error@,
                retriable: *retriable,
                is_rate_limit: *is_rate_limit,
            },
        }
    }
}

/// What is to be done about a model.
#[derive(Debug, PartialEq, Eq)]
pub enum RetryStep {
    /// Ask it after a wait.
    Try { delay_ms: u64 },
    /// Hand on its answer.
    Done,
    /// Hand on the error, and whether it was a rate limit.
    GiveUp { error: CompletionError, was_rate_limit: bool },
}

/// The view of a [`RetryStep`].
pub enum RetryStepView {
    Try { delay_ms: nat },
    Done,
    GiveUp { error: ErrorView, was_rate_limit: bool },
}

impl View for RetryStep {
    type V = RetryStepView;

    open spec fn view(&self) -> RetryStepView {
        match self {
            RetryStep::Try { delay_ms } => RetryStepView::Try { delay_ms: *delay_ms as nat },
            RetryStep::Done => RetryStepView::Done,
            RetryStep::GiveUp { error, was_rate_limit } => RetryStepView::GiveUp {
                error: error@,
                was_rate_limit: *was_rate_limit,
            },
        }
    }
}

/// The attempts at one model.
#[derive(Debug, PartialEq, Eq)]
pub struct Retries {
    pub policy: RetryPolicy,
    pub model_name: String,
    pub attempt: u32,
    pub last_error: Option<String>,
}

/// The view of [`Retries`].
#[verifier::ext_equal]
pub struct RetriesView {
    pub policy: RetryPolicy,
    pub model_name: Seq<char>,
    pub attempt: nat,
    pub last_error: Option<Seq<char>>,
}

impl View for Retries {
    type V = RetriesView;

    open spec fn view(&self) -> RetriesView {
        RetriesView {
            policy: self.policy,
            model_name: self.model_name@,
            attempt: self.attempt as nat,
            last_error: text::view_of(self.last_error),
        }
    }
}

/// The attempts at a model before the first.
pub open spec fn first_attempt(policy: RetryPolicy, model_name: Seq<char>) -> RetriesView {
    RetriesView { policy, model_name, attempt: 0, last_error: None }
}

impl RetriesView {
    /// There is another attempt to make.
    pub open spec fn goes_on(self) -> bool {
        self.attempt < self.policy.max_attempts
    }

    /// What is left after an attempt with an error that may pass.
    pub open spec fn after(self, error: ErrorView) -> RetriesView {
        RetriesView { attempt: self.attempt + 1, last_error: Some(error.shown()), ..self }
    }

    /// What is to be done next: another attempt after a wait, or, once none is left, to
    /// give up. The flag tells whether the text of the last error speaks of a rate limit.
    pub open spec fn next_step(self, is_rate_limit: bool) -> RetryStepView {
        if self.goes_on() {
            RetryStepView::Try { delay_ms: delay_before(self.policy, self.attempt) }
        } else {
            RetryStepView::GiveUp { error: self.exhausted(), was_rate_limit: is_rate_limit }
        }
    }

    /// What is left after an attempt.
    pub open spec fn after_trial(self, trial: TrialView) -> RetriesView {
        match trial {
            TrialView::Answered => self,
            TrialView::Failed { error, retriable, .. } => if retriable {
                self.after(error)
            } else {
                self
            },
        }
    }

    /// What is to be done after an attempt. An error that will not pass comes back as it
    /// is, and is none of a rate limit.
    pub open spec fn step_after(self, trial: TrialView) -> RetryStepView {
        match trial {
            TrialView::Answered => RetryStepView::Done,
            TrialView::Failed { error, retriable, is_rate_limit } => if retriable {
                self.after(error).next_step(is_rate_limit)
            } else {
                RetryStepView::GiveUp { error, was_rate_limit: false }
            },
        }
    }

    /// The text of the last error.
    pub open spec fn last_text(self) -> Seq<char> {
        match self.last_error {
            Some(t) => t,
            None => Seq::empty(),
        }
    }

    /// The error once no attempt is left.
    pub open spec fn exhausted(self) -> ErrorView {
        ErrorView::Provider(
            self.model_name + " failed after "@ + text::decimal(self.policy.max_attempts as nat)
                + " attempts: "@ + self.last_text(),
        )
    }
}

impl Retries {
    /// The attempts at a model.
    pub fn new(policy: RetryPolicy, model_name: &str) -> (retries: Retries)
        ensures
            retries@ == first_attempt(policy, model_name@),
    {
        Retries { policy, model_name: model_name.to_owned(), attempt: 0, last_error: None }
    }

    /// How long to wait before the next attempt, where there is one.
    pub fn next_delay(&self) -> (delay: Option<u64>)
        requires
            is_timely(self.policy),
        ensures
            match delay {
                Some(ms) => self@.goes_on() && ms == delay_before(self.policy, self@.attempt),
                None => !self@.goes_on(),
            },
    {
        if self.attempt >= self.policy.max_attempts {
            return None;
        }
        if self.attempt == 0 {
            return Some(0);
        }
        let mut delay: u64 = self.policy.base_delay_ms;
        let mut doubled: u32 = 0;
        proof {
            assert(power2::pow2(0) == 1) by {
                power2::lemma2_to64();
            }
        }
        while doubled < self.attempt - 1
            invariant
                doubled <= self.attempt - 1,
                1 <= self.attempt < self.policy.max_attempts,
                is_timely(self.policy),
                delay == self.policy.base_delay_ms * power2::pow2(doubled as nat),
            decreases self.attempt - doubled,
        {
            proof {
                lemma_delays_grow(
                    self.policy,
                    (doubled + 2) as nat,
                    (self.policy.max_attempts - 1) as nat,
                );
                lemma_next_delay(self.policy, (doubled + 1) as nat);
            }
            delay = delay * 2;
            doubled = doubled + 1;
        }
        Some(delay)
    }

    /// What is to be done next. The flag tells whether the text of the last error, which
    /// is empty before the first attempt, speaks of a rate limit.
    pub fn next_step(&self, is_rate_limit: bool) -> (step: RetryStep)
        requires
            is_timely(self.policy),
        ensures
            step@ == self@.next_step(is_rate_limit),
    {
        match self.next_delay() {
            Some(delay_ms) => RetryStep::Try { delay_ms },
            None => RetryStep::GiveUp { error: self.exhausted(), was_rate_limit: is_rate_limit },
        }
    }

    /// Takes in what came of an attempt, and says what is to be done next. An answer ends
    /// the attempts; so does an error that will not pass, which comes back as it is.
    pub fn advance(&mut self, trial: Trial) -> (step: RetryStep)
        requires
            is_timely(old(self).policy),
            old(self)@.goes_on(),
        ensures
            final(self)@ == old(self)@.after_trial(trial@),
            step@ == old(self)@.step_after(trial@),
    {
        match trial {
            Trial::Answered => RetryStep::Done,
            Trial::Failed { error, retriable, is_rate_limit } => {
                if !retriable {
                    return RetryStep::GiveUp { error, was_rate_limit: false };
                }
                self.last_error = Some(error.message());
                self.attempt = self.attempt + 1;
                self.next_step(is_rate_limit)
            },
        }
    }

    /// The text of the last error; empty before the first attempt.
    pub fn last_error_text(&self) -> (text: String)
        ensures
            text@ == self@.last_text(),
    {
        match &self.last_error {
            Some(t) => t.clone(),
            None => String::new(),
        }
    }

    /// The error once no attempt is left.
    pub fn exhausted(&self) -> (error: CompletionError)
        ensures
            error@ == self@.exhausted(),
    {
        let a = text::concat(self.model_name.as_str(), " failed after ");
        let count = text::decimal_of(self.policy.max_attempts as u64);
        let b = text::concat(a.as_str(), count.as_str());
        let c = text::concat(b.as_str(), " attempts: ");
        let last = self.last_error_text();
        CompletionError::ProviderError(text::concat(c.as_str(), last.as_str()))
    }
}

/// A wait is twice the one before it.
proof fn lemma_next_delay(policy: RetryPolicy, attempt: nat)
    requires
        attempt >= 1,
    ensures
        delay_before(policy, attempt + 1) == 2 * delay_before(policy, attempt),
{
    power2::lemma_pow2_unfold(attempt);
    let base = policy.base_delay_ms as nat;
    let power = power2::pow2((attempt - 1) as nat);
    assert(base * (2 * power) == 2 * (base * power)) by (nonlinear_arith);
}

/// A later wait is no shorter.
proof fn lemma_delays_grow(policy: RetryPolicy, attempt: nat, later: nat)
    requires
        1 <= attempt <= later,
    ensures
        delay_before(policy, attempt) <= delay_before(policy, later),
    decreases later - attempt,
{
    if attempt < later {
        lemma_delays_grow(policy, attempt, (later - 1) as nat);
        lemma_next_delay(policy, (later - 1) as nat);
    }
}

/// Backing off is exponential: the first attempt waits for nothing, the second for the
/// base delay, and each further one twice as long as the one before it.
pub proof fn law_waits_double(policy: RetryPolicy, attempt: nat)
    requires
        attempt >= 1,
    ensures
        delay_before(policy, 0) == 0,
        delay_before(policy, 1) == policy.base_delay_ms,
        delay_before(policy, attempt + 1) == 2 * delay_before(policy, attempt),
{
    power2::lemma2_to64();
    assert(policy.base_delay_ms * power2::pow2(0) == policy.base_delay_ms);
    lemma_next_delay(policy, attempt);
}

/// How the attempts at a model end: how often it was asked, and the error, with whether
/// it was a rate limit, where it did not answer.
pub struct RetryRun {
    pub calls: nat,
    pub error: Option<(ErrorView, bool)>,
}

/// The end of the attempts, step by step, where `trial` tells what comes of each attempt.
/// The flag tells whether the text of the last error speaks of a rate limit.
pub open spec fn retry_run(
    retries: RetriesView,
    trial: spec_fn(nat) -> TrialView,
    is_rate_limit: bool,
) -> RetryRun
    decreases retries.policy.max_attempts - retries.attempt,
{
    match retries.next_step(is_rate_limit) {
        RetryStepView::Try { .. } => {
            let came = trial(retries.attempt);
            match retries.step_after(came) {
                RetryStepView::Done => RetryRun { calls: 1, error: None },
                RetryStepView::GiveUp { error, was_rate_limit } => RetryRun {
                    calls: 1,
                    error: Some((error, was_rate_limit)),
                },
                RetryStepView::Try { .. } => {
                    let rest = retry_run(
                        retries.after_trial(came),
                        trial,
                        came->is_rate_limit,
                    );
                    RetryRun { calls: rest.calls + 1, error: rest.error }
                },
            }
        },
        RetryStepView::GiveUp { error, was_rate_limit } => RetryRun {
            calls: 0,
            error: Some((error, was_rate_limit)),
        },
        RetryStepView::Done => RetryRun { calls: 0, error: None },
    }
}

/// An error that may pass.
pub open spec fn may_pass(trial: TrialView) -> bool {
    trial matches TrialView::Failed { retriable, .. } && retriable
}

/// The end of the attempts from some attempt on.
proof fn lemma_retries_end(
    retries: RetriesView,
    trial: spec_fn(nat) -> TrialView,
    is_rate_limit: bool,
    k: nat,
)
    requires
        retries.attempt <= k < retries.policy.max_attempts,
        forall|j: nat| retries.attempt <= j < k ==> may_pass(#[trigger] trial(j)),
        may_pass(trial(k)) ==> k + 1 == retries.policy.max_attempts,
    ensures
        retry_run(retries, trial, is_rate_limit) == (RetryRun {
            calls: (k + 1 - retries.attempt) as nat,
            error: end_of_attempts(retries, trial(k)),
        }),
    decreases k - retries.attempt,
{
    if retries.attempt < k {
        let came = trial(retries.attempt);
        assert(may_pass(came));
        lemma_retries_end(retries.after_trial(came), trial, came->is_rate_limit, k);
    }
}

/// What the attempts come to when the given one is the last: nothing after an answer; an
/// error that will not pass as it is, and none of a rate limit; and otherwise the text of
/// the last error after the name of the model and the number of attempts, with whether
/// that text speaks of a rate limit.
pub open spec fn end_of_attempts(retries: RetriesView, last: TrialView) -> Option<
    (ErrorView, bool),
> {
    match last {
        TrialView::Answered => None,
        TrialView::Failed { error, retriable, is_rate_limit } => if retriable {
            Some(
                (
                    ErrorView::Provider(
                        retries.model_name + " failed after "@ + text::decimal(
                            retries.policy.max_attempts as nat,
                        ) + " attempts: "@ + error.shown(),
                    ),
                    is_rate_limit,
                ),
            )
        } else {
            Some((error, false))
        },
    }
}

/// A model is asked again only after errors that may pass, and no more often than the
/// policy says. The first answer is handed on at once; so is the first error that will
/// not pass, as none of a rate limit. After as many errors as there are attempts, the
/// error ends with the text of the last one, and is one of a rate limit where that text
/// says so.
pub proof fn law_retries_end(
    policy: RetryPolicy,
    model_name: Seq<char>,
    trial: spec_fn(nat) -> TrialView,
    blank_is_rate_limit: bool,
    k: nat,
)
    requires
        k < policy.max_attempts,
        forall|j: nat| j < k ==> may_pass(#[trigger] trial(j)),
        may_pass(trial(k)) ==> k + 1 == policy.max_attempts,
    ensures
        retry_run(first_attempt(policy, model_name), trial, blank_is_rate_limit) == (RetryRun {
            calls: k + 1,
            error: end_of_attempts(first_attempt(policy, model_name), trial(k)),
        }),
{
    lemma_retries_end(first_attempt(policy, model_name), trial, blank_is_rate_limit, k);
}

// ---------------------------------------------------------------------------
// Fallbacks
// ---------------------------------------------------------------------------

/// What is being done about the model of a chain that comes next.
#[derive(Clone, Copy, Debug, PartialEq, Eq, Structural)]
pub enum Phase {
    /// It is looked up whether it is in cooldown.
    Checking,
    /// It is asked.
    Asking,
    /// A model has answered.
    Answered,
}

/// The models to try in turn, and what came of them so far.
#[derive(Debug, PartialEq, Eq)]
pub struct FallbackChain {
    pub models: Vec<String>,
    pub has_fallbacks: bool,
    pub position: usize,
    pub phase: Phase,
    pub last_error: Option<CompletionError>,
}

/// The view of a [`FallbackChain`].
#[verifier::ext_equal]
pub struct ChainView {
    pub models: Seq<Seq<char>>,
    pub has_fallbacks: bool,
    pub position: nat,
    pub phase: Phase,
    pub last_error: Option<ErrorView>,
}

impl View for FallbackChain {
    type V = ChainView;

    open spec fn view(&self) -> ChainView {
        ChainView {
            models: text::views(self.models@),
            has_fallbacks: self.has_fallbacks,
            position: self.position as nat,
            phase: self.phase,
            last_error: match self.last_error {
                Some(error) => Some(error@),
                None => None,
            },
        }
    }
}

/// A chain before anything was tried: the primary model, then as many of its fallbacks
/// as may be tried.
pub open spec fn new_chain(
    primary: Seq<char>,
    fallbacks: Seq<Seq<char>>,
    max_fallbacks: nat,
) -> ChainView {
    ChainView {
        models: seq![primary] + (if fallbacks.len() <= max_fallbacks {
            fallbacks
        } else {
            fallbacks.subrange(0, max_fallbacks as int)
        }),
        has_fallbacks: fallbacks.len() > 0,
        position: 0,
        phase: Phase::Checking,
        last_error: None,
    }
}

/// What happens to a chain.
#[derive(Debug, PartialEq, Eq)]
pub enum ChainEvent {
    /// It was looked up whether the model is in cooldown.
    Checked { rate_limited: bool },
    /// The model answered.
    Answered,
    /// The model failed, perhaps by a rate limit.
    Failed { error: CompletionError, was_rate_limit: bool },
}

/// The view of a [`ChainEvent`].
pub enum ChainEventView {
    Checked { rate_limited: bool },
    Answered,
    Failed { error: ErrorView, was_rate_limit: bool },
}

impl View for ChainEvent {
    type V = ChainEventView;

    open spec fn view(&self) -> ChainEventView {
        match self {
            ChainEvent::Checked { rate_limited } => ChainEventView::Checked {
                rate_limited: *rate_limited,
            },
            ChainEvent::Answered => ChainEventView::Answered,
            ChainEvent::Failed { error, was_rate_limit } => ChainEventView::Failed {
                error: error@,
                was_rate_limit: *was_rate_limit,
            },
        }
    }
}

/// What is to be done for a chain.
#[derive(Debug, PartialEq, Eq)]
pub enum ChainAction {
    /// Look up whether the model is in cooldown.
    Check { model: String },
    /// Ask the model, as often as it may be tried.
    Ask { model: String },
    /// Hand on the answer.
    Done,
    /// Hand on the error.
    GiveUp { error: CompletionError },
}

/// The view of a [`ChainAction`].
pub enum ChainActionView {
    Check { model: Seq<char> },
    Ask { model: Seq<char> },
    Done,
    GiveUp { error: ErrorView },
}

impl View for ChainAction {
    type V = ChainActionView;

    open spec fn view(&self) -> ChainActionView {
        match self {
            ChainAction::Check { model } => ChainActionView::Check { model: model@ },
            ChainAction::Ask { model } => ChainActionView::Ask { model: model@ },
            ChainAction::Done => ChainActionView::Done,
            ChainAction::GiveUp { error } => ChainActionView::GiveUp { error: error@ },
        }
    }
}

/// What follows from an event: a model whose rate limit is to be recorded, and then what
/// is to be done.
#[derive(Debug, PartialEq, Eq)]
pub struct ChainStep {
    pub record: Option<String>,
    pub action: ChainAction,
}

impl ChainView {
    /// The model to try.
    pub open spec fn current(self) -> Option<Seq<char>> {
        if self.position < self.models.len() {
            Some(self.models[self.position as int])
        } else {
            None
        }
    }

    /// A model in cooldown is passed over, but for a primary one that nothing could
    /// stand in for.
    pub open spec fn passes_over(self, rate_limited: bool) -> bool {
        rate_limited && (self.position > 0 || self.has_fallbacks)
    }

    /// The chain once a model was passed over.
    pub open spec fn passed(self) -> ChainView {
        ChainView { position: self.position + 1, phase: Phase::Checking, ..self }
    }

    /// The chain once a model failed.
    pub open spec fn failed(self, error: ErrorView) -> ChainView {
        ChainView { last_error: Some(error), ..self.passed() }
    }

    /// An event that can happen now: a model is looked up before it is asked, and only a
    /// model that is asked answers or fails.
    pub open spec fn accepts(self, event: ChainEventView) -> bool {
        &&& self.current() is Some
        &&& match event {
            ChainEventView::Checked { .. } => self.phase == Phase::Checking,
            _ => self.phase == Phase::Asking,
        }
    }

    /// The chain after an event.
    pub open spec fn after(self, event: ChainEventView) -> ChainView {
        match event {
            ChainEventView::Checked { rate_limited } => if self.passes_over(rate_limited) {
                self.passed()
            } else {
                ChainView { phase: Phase::Asking, ..self }
            },
            ChainEventView::Answered => ChainView { phase: Phase::Answered, ..self },
            ChainEventView::Failed { error, .. } => self.failed(error),
        }
    }

    /// The model whose rate limit is to be recorded after an event: the one that was
    /// asked, where it failed by a rate limit.
    pub open spec fn recorded(self, event: ChainEventView) -> Option<Seq<char>> {
        match event {
            ChainEventView::Failed { was_rate_limit, .. } => if was_rate_limit {
                self.current()
            } else {
                None
            },
            _ => None,
        }
    }

    /// What is to be done: the next model is looked up and then asked; an answer ends the
    /// chain, and so does the lack of a further model.
    pub open spec fn next_action(self) -> ChainActionView {
        match (self.phase, self.current()) {
            (Phase::Answered, _) => ChainActionView::Done,
            (_, None) => ChainActionView::GiveUp { error: self.error() },
            (Phase::Checking, Some(model)) => ChainActionView::Check { model },
            (Phase::Asking, Some(model)) => ChainActionView::Ask { model },
        }
    }

    /// The error once no model is left.
    pub open spec fn error(self) -> ErrorView {
        match self.last_error {
            Some(error) => error,
            None => ErrorView::Provider("all models in fallback chain failed"@),
        }
    }
}

impl FallbackChain {
    /// A chain before anything was tried.
    pub fn new(primary: &str, fallbacks: &Vec<String>, max_fallbacks: usize) -> (chain:
        FallbackChain)
        ensures
            chain@ == new_chain(primary@, text::views(fallbacks@), max_fallbacks as nat),
    {
        let mut models: Vec<String> = Vec::new();
        models.push(primary.to_owned());
        let mut i: usize = 0;
        while i < fallbacks.len() && i < max_fallbacks
            invariant
                i <= fallbacks@.len(),
                i <= max_fallbacks,
                text::views(models@) == seq![primary@] + text::views(fallbacks@).subrange(
                    0,
                    i as int,
                ),
            decreases fallbacks@.len() - i,
        {
            let ghost before = models@;
            models.push(fallbacks[i].clone());
            proof {
                assert(text::views(models@) =~= text::views(before).push(
                    text::views(fallbacks@)[i as int],
                ));
                assert(text::views(models@) =~= seq![primary@] + text::views(fallbacks@).subrange(
                    0,
                    i + 1,
                ));
            }
            i += 1;
        }
        proof {
            let all = text::views(fallbacks@);
            assert(all.subrange(0, all.len() as int) =~= all);
        }
        FallbackChain {
            models,
            has_fallbacks: fallbacks.len() > 0,
            position: 0,
            phase: Phase::Checking,
            last_error: None,
        }
    }

    /// The model to try.
    fn current(&self) -> (name: Option<String>)
        ensures
            text::view_of(name) == self@.current(),
    {
        if self.position < self.models.len() {
            Some(self.models[self.position].clone())
        } else {
            None
        }
    }

    /// The error once no model is left.
    fn error(&self) -> (error: CompletionError)
        ensures
            error@ == self@.error(),
    {
        match &self.last_error {
            Some(error) => error.duplicate(),
            None => CompletionError::ProviderError(
                "all models in fallback chain failed".to_owned(),
            ),
        }
    }

    /// What is to be done.
    pub fn next_action(&self) -> (action: ChainAction)
        ensures
            action@ == self@.next_action(),
    {
        match (self.phase, self.current()) {
            (Phase::Answered, _) => ChainAction::Done,
            (_, None) => ChainAction::GiveUp { error: self.error() },
            (Phase::Checking, Some(model)) => ChainAction::Check { model },
            (Phase::Asking, Some(model)) => ChainAction::Ask { model },
        }
    }

    /// Takes in an event, and says what follows from it.
    pub fn advance(&mut self, event: ChainEvent) -> (step: ChainStep)
        requires
            old(self)@.accepts(event@),
        ensures
            final(self)@ == old(self)@.after(event@),
            text::view_of(step.record) == old(self)@.recorded(event@),
            step.action@ == final(self)@.next_action(),
    {
        let mut record: Option<String> = None;
        proof {
            assert(self.position < self.models.len());
        }
        match event {
            ChainEvent::Checked { rate_limited } => {
                if rate_limited && (self.position > 0 || self.has_fallbacks) {
                    self.position = self.position + 1;
                } else {
                    self.phase = Phase::Asking;
                }
            },
            ChainEvent::Answered => {
                self.phase = Phase::Answered;
            },
            ChainEvent::Failed { error, was_rate_limit } => {
                if was_rate_limit {
                    record = self.current();
                }
                self.last_error = Some(error);
                self.position = self.position + 1;
                self.phase = Phase::Checking;
            },
        }
        ChainStep { record, action: self.next_action() }
    }
}

/// How a chain ends: the positions of the models that were asked and of those whose rate
/// limit was recorded, and the error where none answered.
pub struct ChainRun {
    pub asked: Seq<int>,
    pub recorded: Seq<int>,
    pub error: Option<ErrorView>,
}

/// The error with which a chain has ended, where it has.
pub open spec fn final_error(chain: ChainView) -> Option<ErrorView> {
    match chain.next_action() {
        ChainActionView::GiveUp { error } => Some(error),
        _ => None,
    }
}

/// The end of a chain, step by step: `cooling` tells of each position whether its model is
/// in cooldown when it comes up, and `outcome` what comes of asking it, an answer or an
/// error that may be one of a rate limit.
pub open spec fn chain_run(
    chain: ChainView,
    cooling: spec_fn(int) -> bool,
    outcome: spec_fn(int) -> Option<(ErrorView, bool)>,
) -> ChainRun
    decreases chain.models.len() - chain.position,
{
    let at = chain.position as int;
    if chain.phase != Phase::Checking || chain.current() is None {
        ChainRun { asked: Seq::empty(), recorded: Seq::empty(), error: final_error(chain) }
    } else {
        let checked = chain.after(ChainEventView::Checked { rate_limited: cooling(at) });
        if checked.phase != Phase::Asking {
            chain_run(checked, cooling, outcome)
        } else {
            match outcome(at) {
                None => ChainRun {
                    asked: seq![at],
                    recorded: Seq::empty(),
                    error: final_error(checked.after(ChainEventView::Answered)),
                },
                Some((error, was_rate_limit)) => {
                    let event = ChainEventView::Failed { error, was_rate_limit };
                    let rest = chain_run(checked.after(event), cooling, outcome);
                    ChainRun {
                        asked: seq![at] + rest.asked,
                        recorded: if checked.recorded(event) is Some {
                            seq![at] + rest.recorded
                        } else {
                            rest.recorded
                        },
                        error: rest.error,
                    }
                },
            }
        }
    }
}

/// The model at a position comes up: every one before it, from a position on, was passed
/// over or failed.
pub open spec fn comes_up(
    chain: ChainView,
    cooling: spec_fn(int) -> bool,
    outcome: spec_fn(int) -> Option<(ErrorView, bool)>,
    from: int,
    i: int,
) -> bool {
    &&& from <= i < chain.models.len()
    &&& forall|j: int|
        from <= j < i ==> (is_skipped(chain, cooling, j) || #[trigger] outcome(j) is Some)
}

/// The model at a position is passed over: it is in cooldown, and it is a fallback or has
/// fallbacks.
pub open spec fn is_skipped(chain: ChainView, cooling: spec_fn(int) -> bool, i: int) -> bool {
    cooling(i) && (i > 0 || chain.has_fallbacks)
}

/// The model at a position is asked.
pub open spec fn is_asked(
    chain: ChainView,
    cooling: spec_fn(int) -> bool,
    outcome: spec_fn(int) -> Option<(ErrorView, bool)>,
    from: int,
    i: int,
) -> bool {
    comes_up(chain, cooling, outcome, from, i) && !is_skipped(chain, cooling, i)
}

/// What a run comes to, from a position on.
pub open spec fn is_run(
    chain: ChainView,
    cooling: spec_fn(int) -> bool,
    outcome: spec_fn(int) -> Option<(ErrorView, bool)>,
    from: int,
    run: ChainRun,
) -> bool {
    &&& forall|i: int|
        run.asked.contains(i) <==> #[trigger] is_asked(chain, cooling, outcome, from, i)
    &&& forall|a: int, b: int|
        0 <= a < b < run.asked.len() ==> #[trigger] run.asked[a] < #[trigger] run.asked[b]
    &&& forall|i: int|
        run.recorded.contains(i) <==> #[trigger] is_asked(chain, cooling, outcome, from, i)
            && (outcome(i) matches Some((_, was_rate_limit)) && was_rate_limit)
    &&& match run.error {
        None => run.asked.len() > 0 && outcome(run.asked.last()) is None,
        Some(error) => {
            &&& forall|i: int|
                is_asked(chain, cooling, outcome, from, i) ==> #[trigger] outcome(i) is Some
            &&& if run.asked.len() > 0 {
                outcome(run.asked.last()) matches Some((last, _)) && error == last
            } else {
                error == chain.error()
            }
        },
    }
}

/// A list with one more in front.
proof fn lemma_contains_in_front(x: int, rest: Seq<int>, i: int)
    ensures
        (seq![x] + rest).contains(i) <==> i == x || rest.contains(i),
{
    let whole = seq![x] + rest;
    if i == x {
        assert(whole[0] == x);
    }
    if rest.contains(i) {
        let k = rest.index_of(i);
        assert(whole[k + 1] == i);
    }
    if whole.contains(i) && i != x {
        let k = whole.index_of(i);
        assert(rest[k - 1] == i);
    }
}

/// A run from the next position on is a run from a position whose model is passed over.
proof fn lemma_rest_of_run(
    chain: ChainView,
    next: ChainView,
    cooling: spec_fn(int) -> bool,
    outcome: spec_fn(int) -> Option<(ErrorView, bool)>,
    at: int,
    run: ChainRun,
)
    requires
        next == chain.passed(),
        0 <= at < chain.models.len(),
        is_skipped(chain, cooling, at),
        is_run(next, cooling, outcome, at + 1, run),
    ensures
        is_run(chain, cooling, outcome, at, run),
{
    lemma_asked_from_next(chain, next, cooling, outcome, at);
    assert forall|i: int| run.asked.contains(i) <==> #[trigger] is_asked(
        chain,
        cooling,
        outcome,
        at,
        i,
    ) by {
        assert(run.asked.contains(i) <==> is_asked(next, cooling, outcome, at + 1, i));
    }
    assert forall|i: int|
        run.recorded.contains(i) <==> #[trigger] is_asked(chain, cooling, outcome, at, i) && (
        outcome(i) matches Some((_, limited)) && limited) by {
        assert(run.recorded.contains(i) <==> is_asked(next, cooling, outcome, at + 1, i) && (
        outcome(i) matches Some((_, limited)) && limited));
    }
    if run.error is Some {
        assert forall|i: int| is_asked(chain, cooling, outcome, at, i) implies #[trigger] outcome(
            i,
        ) is Some by {
            assert(is_asked(next, cooling, outcome, at + 1, i));
        }
    }
}

/// A chain that has come to a position runs as it should from there on.
proof fn lemma_chain_runs(
    chain: ChainView,
    cooling: spec_fn(int) -> bool,
    outcome: spec_fn(int) -> Option<(ErrorView, bool)>,
)
    requires
        chain.phase == Phase::Checking,
    ensures
        is_run(
            chain,
            cooling,
            outcome,
            chain.position as int,
            chain_run(chain, cooling, outcome),
        ),
    decreases chain.models.len() - chain.position,
{
    let at = chain.position as int;
    let run = chain_run(chain, cooling, outcome);
    if chain.current() is None {
        assert(forall|i: int| !is_asked(chain, cooling, outcome, at, i));
    } else {
        let checked = chain.after(ChainEventView::Checked { rate_limited: cooling(at) });
        if is_skipped(chain, cooling, at) {
            lemma_chain_runs(checked, cooling, outcome);
            lemma_rest_of_run(chain, checked, cooling, outcome, at, run);
        } else {
            match outcome(at) {
                None => {
                    assert(run.asked[0] == at);
                    assert forall|i: int| run.asked.contains(i) <==> #[trigger] is_asked(
                        chain,
                        cooling,
                        outcome,
                        at,
                        i,
                    ) by {
                        if i > at && comes_up(chain, cooling, outcome, at, i) {
                            assert(outcome(at) is Some);
                        }
                    }
                },
                Some((error, was_rate_limit)) => {
                    let event = ChainEventView::Failed { error, was_rate_limit };
                    let next = checked.after(event);
                    let rest = chain_run(next, cooling, outcome);
                    lemma_chain_runs(next, cooling, outcome);
                    lemma_asked_from_next(chain, next, cooling, outcome, at);
                    assert forall|i: int| run.asked.contains(i) <==> #[trigger] is_asked(
                        chain,
                        cooling,
                        outcome,
                        at,
                        i,
                    ) by {
                        lemma_contains_in_front(at, rest.asked, i);
                        assert(rest.asked.contains(i) <==> is_asked(
                            next,
                            cooling,
                            outcome,
                            at + 1,
                            i,
                        ));
                    }
                    assert forall|i: int|
                        run.recorded.contains(i) <==> #[trigger] is_asked(
                            chain,
                            cooling,
                            outcome,
                            at,
                            i,
                        ) && (outcome(i) matches Some((_, limited)) && limited) by {
                        lemma_contains_in_front(at, rest.recorded, i);
                        assert(rest.recorded.contains(i) <==> is_asked(
                            next,
                            cooling,
                            outcome,
                            at + 1,
                            i,
                        ) && (outcome(i) matches Some((_, limited)) && limited));
                    }
                    assert forall|a: int, b: int|
                        0 <= a < b < run.asked.len() implies #[trigger] run.asked[a]
                        < #[trigger] run.asked[b] by {
                        assert(run.asked[b] == rest.asked[b - 1]);
                        if a == 0 {
                            assert(rest.asked.contains(rest.asked[b - 1]));
                            assert(is_asked(next, cooling, outcome, at + 1, rest.asked[b - 1]));
                        } else {
                            assert(run.asked[a] == rest.asked[a - 1]);
                        }
                    }
                    if rest.asked.len() > 0 {
                        assert(run.asked.last() == rest.asked.last());
                    }
                    if run.error is Some {
                        assert forall|i: int|
                            is_asked(chain, cooling, outcome, at, i) implies #[trigger] outcome(
                            i,
                        ) is Some by {
                            if i != at {
                                assert(is_asked(next, cooling, outcome, at + 1, i));
                            }
                        }
                    }
                },
            }
        }
    }
}

/// Behind a model that was passed over or failed, the same models are asked as from the
/// next position on.
proof fn lemma_asked_from_next(
    chain: ChainView,
    next: ChainView,
    cooling: spec_fn(int) -> bool,
    outcome: spec_fn(int) -> Option<(ErrorView, bool)>,
    at: int,
)
    requires
        next.models == chain.models,
        next.has_fallbacks == chain.has_fallbacks,
        0 <= at < chain.models.len(),
        is_skipped(chain, cooling, at) || outcome(at) is Some,
    ensures
        forall|i: int| #[trigger]
            is_asked(chain, cooling, outcome, at, i) <==> (i == at && !is_skipped(
                chain,
                cooling,
                at,
            ) || is_asked(next, cooling, outcome, at + 1, i)),
{
    assert forall|i: int| #[trigger]
        is_asked(chain, cooling, outcome, at, i) <==> (i == at && !is_skipped(chain, cooling, at)
            || is_asked(next, cooling, outcome, at + 1, i)) by {
        if is_asked(chain, cooling, outcome, at, i) && i != at {
            assert forall|j: int| at + 1 <= j < i implies (is_skipped(next, cooling, j)
                || #[trigger] outcome(j) is Some) by {
                assert(is_skipped(chain, cooling, j) || outcome(j) is Some);
            }
        }
        if is_asked(next, cooling, outcome, at + 1, i) {
            assert forall|j: int| at <= j < i implies (is_skipped(chain, cooling, j)
                || #[trigger] outcome(j) is Some) by {
                if j > at {
                    assert(is_skipped(next, cooling, j) || outcome(j) is Some);
                }
            }
        }
    }
}

/// A chain asks its models in order, the primary one first, then as many of its fallbacks
/// as may be tried, each once at most. It passes over those in cooldown, but for a primary
/// one without fallbacks. The first answer ends it: no model behind one that answered is
/// asked. A rate limit is recorded of exactly those models that were asked and failed by
/// one. Where none answered, the error is that of the last one that was asked.
pub proof fn law_chain_tries_each_model_once(
    primary: Seq<char>,
    fallbacks: Seq<Seq<char>>,
    max_fallbacks: nat,
    cooling: spec_fn(int) -> bool,
    outcome: spec_fn(int) -> Option<(ErrorView, bool)>,
)
    ensures
        ({
            let chain = new_chain(primary, fallbacks, max_fallbacks);
            &&& is_run(chain, cooling, outcome, 0, chain_run(chain, cooling, outcome))
            &&& chain.error() == ErrorView::Provider("all models in fallback chain failed"@)
            &&& chain.models[0] == primary
            &&& chain.models.len() <= max_fallbacks + 1
            &&& forall|i: int|
                0 < i < chain.models.len() ==> #[trigger] chain.models[i] == fallbacks[i - 1]
        }),
{
    lemma_chain_runs(new_chain(primary, fallbacks, max_fallbacks), cooling, outcome);
}

/// A model without fallbacks is asked even in cooldown; one with fallbacks is not.
pub proof fn law_cooldown_spares_a_model_with_fallbacks(
    primary: Seq<char>,
    fallbacks: Seq<Seq<char>>,
    max_fallbacks: nat,
)
    ensures
        new_chain(primary, fallbacks, max_fallbacks).passes_over(true) <==> fallbacks.len() > 0,
        !new_chain(primary, fallbacks, max_fallbacks).passes_over(false),
{
}

// ---------------------------------------------------------------------------
// What is measured
// ---------------------------------------------------------------------------

/// The labels under which a model's use is counted.
#[derive(Debug, PartialEq, Eq)]
pub struct MetricLabels {
    pub agent: String,
    pub model: String,
    pub tier: String,
    pub worker: String,
}

/// The view of [`MetricLabels`].
#[verifier::ext_equal]
pub struct LabelsView {
    pub agent: Seq<char>,
    pub model: Seq<char>,
    pub tier: Seq<char>,
    pub worker: Seq<char>,
}

impl View for MetricLabels {
    type V = LabelsView;

    open spec fn view(&self) -> LabelsView {
        LabelsView {
            agent: self.agent@,
            model: self.model@,
            tier: self.tier@,
            worker: self.worker@,
        }
    }
}

/// A label, or that it is not known.
pub open spec fn known_label(value: Option<Seq<char>>) -> Seq<char> {
    match value {
        Some(v) => v,
        None => "unknown"@,
    }
}

/// The labels of a model. Only a worker is of an unknown kind; anything else is of no
/// kind.
pub open spec fn labels_of(model: ModelView) -> LabelsView {
    let tier = known_label(model.process_type);
    LabelsView {
        agent: known_label(model.agent_id),
        model: full_name(model.provider, model.model_name),
        tier,
        worker: match model.worker_type {
            Some(kind) => kind,
            None => if tier == "worker"@ {
                "unknown"@
            } else {
                ""@
            },
        },
    }
}

/// A label, or that it is not known.
fn label_or_unknown(value: &Option<String>) -> (label: String)
    ensures
        label@ == known_label(text::view_of(*value)),
{
    match value {
        Some(v) => v.clone(),
        None => "unknown".to_owned(),
    }
}

impl SpacebotModel {
    /// The labels under which this model's use is counted.
    pub fn metric_labels(&self) -> (labels: MetricLabels)
        ensures
            labels@ == labels_of(self@),
    {
        let tier = label_or_unknown(&self.process_type);
        let worker = match &self.worker_type {
            Some(kind) => kind.clone(),
            None => if text::same(tier.as_str(), "worker") {
                "unknown".to_owned()
            } else {
                "".to_owned()
            },
        };
        MetricLabels {
            agent: label_or_unknown(&self.agent_id),
            model: self.full_model_name().to_owned(),
            tier,
            worker,
        }
    }
}

/// What an error is counted as.
#[derive(Clone, Copy, Debug, PartialEq, Eq)]
pub enum ErrorKind {
    RateLimit,
    Timeout,
    ContextOverflow,
    Provider,
    Other,
}

/// What an error is counted as.
pub open spec fn error_kind(error: ErrorView) -> ErrorKind {
    match error {
        ErrorView::Provider(message) => if text::has(message, "rate"@) || text::has(
            message,
            "429"@,
        ) {
            ErrorKind::RateLimit
        } else if text::has(message, "timeout"@) {
            ErrorKind::Timeout
        } else if text::has(message, "context"@) || text::has(message, "too long"@) {
            ErrorKind::ContextOverflow
        } else {
            ErrorKind::Provider
        },
        ErrorView::Response(_) => ErrorKind::Other,
    }
}

/// The label of a kind of error.
pub open spec fn kind_label(kind: ErrorKind) -> Seq<char> {
    match kind {
        ErrorKind::RateLimit => "rate_limit"@,
        ErrorKind::Timeout => "timeout"@,
        ErrorKind::ContextOverflow => "context_overflow"@,
        ErrorKind::Provider => "provider_error"@,
        ErrorKind::Other => "other"@,
    }
}

/// Finds what an error is counted as.
pub fn classify_error(error: &CompletionError) -> (kind: ErrorKind)
    ensures
        kind == error_kind(error@),
{
    match error {
        CompletionError::ProviderError(message) => {
            let m = message.as_str();
            if text::contains(m, "rate") || text::contains(m, "429") {
                ErrorKind::RateLimit
            } else if text::contains(m, "timeout") {
                ErrorKind::Timeout
            } else if text::contains(m, "context") || text::contains(m, "too long") {
                ErrorKind::ContextOverflow
            } else {
                ErrorKind::Provider
            }
        },
        CompletionError::ResponseError(_) => ErrorKind::Other,
    }
}

impl ErrorKind {
    /// The label of this kind of error.
    pub fn as_str(&self) -> (label: &'static str)
        ensures
            label@ == kind_label(*self),
    {
        match self {
            ErrorKind::RateLimit => "rate_limit",
            ErrorKind::Timeout => "timeout",
            ErrorKind::ContextOverflow => "context_overflow",
            ErrorKind::Provider => "provider_error",
            ErrorKind::Other => "other",
        }
    }
}

/// The kinds of tokens that are counted, with how many there were. A reply without any
/// in or out is not counted, and cached ones only where there were some.
pub open spec fn counted_tokens(usage: Usage) -> Seq<(Seq<char>, u64)> {
    if usage.input_tokens == 0 && usage.output_tokens == 0 {
        Seq::empty()
    } else if usage.cached_input_tokens > 0 {
        seq![
            ("input"@, usage.input_tokens),
            ("output"@, usage.output_tokens),
            ("cached_input"@, usage.cached_input_tokens),
        ]
    } else {
        seq![("input"@, usage.input_tokens), ("output"@, usage.output_tokens)]
    }
}

/// Lists the kinds of tokens that are counted, with how many there were.
pub fn token_counts(usage: &Usage) -> (counts: Vec<(&'static str, u64)>)
    ensures
        counts@.map_values(|c: (&'static str, u64)| (c.0@, c.1)) == counted_tokens(*usage),
{
    let mut counts: Vec<(&'static str, u64)> = Vec::new();
    if usage.input_tokens > 0 || usage.output_tokens > 0 {
        counts.push(("input", usage.input_tokens));
        counts.push(("output", usage.output_tokens));
        if usage.cached_input_tokens > 0 {
            counts.push(("cached_input", usage.cached_input_tokens));
        }
    }
    proof {
        assert(counts@.map_values(|c: (&'static str, u64)| (c.0@, c.1)) =~= counted_tokens(
            *usage,
        ));
    }
    counts
}

/// A chain tries the primary model and then its fallbacks in order, all of them where as
/// many may be tried, and else as many as may be.
pub proof fn law_chain_has_every_fallback_that_may_be_tried(
    primary: Seq<char>,
    fallbacks: Seq<Seq<char>>,
    max_fallbacks: nat,
    i: int,
)
    requires
        0 <= i < fallbacks.len(),
        i < max_fallbacks,
    ensures
        ({
            let chain = new_chain(primary, fallbacks, max_fallbacks);
            &&& chain.models.len() == 1 + (if fallbacks.len() <= max_fallbacks {
                fallbacks.len()
            } else {
                max_fallbacks
            })
            &&& chain.models[0] == primary
            &&& chain.models[i + 1] == fallbacks[i]
            &&& chain.has_fallbacks
            &&& chain.position == 0
            &&& chain.phase == Phase::Checking
            &&& chain.last_error is None
        }),
{
}

} // verus!
