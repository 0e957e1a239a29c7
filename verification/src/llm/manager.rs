//! Credentials of providers, and which models are in cooldown.
//!
//! The manager decides; whoever runs it tells the time, refreshes tokens over the
//! network, and keeps them on disk.
use crate::config::provider;
use crate::config::provider::{ApiType, LlmConfig, LlmView, ProviderConfig, ProviderView};
use crate::config::resolve;
use crate::string_map;
use crate::string_map::StringMap;
use crate::text;
use crate::views;
use vstd::prelude::*;

verus! {

/// Why a provider or its key cannot be had.
#[derive(Debug, PartialEq, Eq)]
pub enum LlmError {
    UnknownProvider(String),
    MissingProviderKey(String),
    /// A token could not be exchanged; the text says why.
    TokenExchange(String),
}

/// The view of an [`LlmError`].
pub enum LlmErrorView {
    UnknownProvider(Seq<char>),
    MissingProviderKey(Seq<char>),
    TokenExchange(Seq<char>),
}

impl View for LlmError {
    type V = LlmErrorView;

    open spec fn view(&self) -> LlmErrorView {
        match self {
            LlmError::UnknownProvider(id) => LlmErrorView::UnknownProvider(id@),
            LlmError::MissingProviderKey(id) => LlmErrorView::MissingProviderKey(id@),
            LlmError::TokenExchange(reason) => LlmErrorView::TokenExchange(reason@),
        }
    }
}

/// OAuth credentials.
#[derive(PartialEq, Eq)]
pub struct OAuthCredentials {
    pub access_token: String,
    pub account_id: Option<String>,
}

/// A GitHub Copilot API token, and the hash of the personal access token that it was
/// exchanged for.
#[derive(PartialEq, Eq)]
pub struct CopilotToken {
    pub token: String,
    pub pat_hash: String,
}

/// Manages LLM provider credentials and tracks rate limit state.
pub struct LlmManager {
    pub config: LlmConfig,
    /// Models that hit a rate limit, with the moment at which they last did, in
    /// nanoseconds on the clock of whoever runs the manager.
    pub rate_limited: StringMap<u64>,
    /// Instance directory for reading and writing credentials.
    pub instance_dir: Option<String>,
    /// Anthropic OAuth credentials (refreshed lazily).
    pub anthropic_oauth_credentials: Option<OAuthCredentials>,
    /// OpenAI OAuth credentials (refreshed lazily).
    pub openai_oauth_credentials: Option<OAuthCredentials>,
    /// GitHub Copilot API token (exchanged from PAT, refreshed lazily).
    pub copilot_token: Option<CopilotToken>,
}

/// The view of a result that is a provider.
pub open spec fn provider_result(result: Result<ProviderConfig, LlmError>) -> Result<
    ProviderView,
    LlmErrorView,
> {
    match result {
        Ok(provider) => Ok(provider@),
        Err(refusal) => Err(refusal@),
    }
}

/// The provider of an id, in whatever case it is written.
pub open spec fn configured_provider(llm: LlmView, provider_id: Seq<char>) -> Result<
    ProviderView,
    LlmErrorView,
> {
    let id = resolve::lowercased(provider_id);
    if llm.providers.contains_key(id) {
        Ok(llm.providers[id])
    } else {
        Err(LlmErrorView::UnknownProvider(provider_id))
    }
}

/// The provider under an id as it is written.
pub open spec fn provider_under(llm: LlmView, provider_id: Seq<char>) -> Result<
    ProviderView,
    LlmErrorView,
> {
    if llm.providers.contains_key(provider_id) {
        Ok(llm.providers[provider_id])
    } else {
        Err(LlmErrorView::UnknownProvider(provider_id))
    }
}

/// What a request for a token comes to.
#[derive(PartialEq, Eq)]
pub enum TokenStep {
    /// The token, where there are credentials.
    Ready(Option<String>),
    /// The credentials have expired and are to be refreshed first.
    Refresh,
}

/// The view of a [`TokenStep`].
pub enum TokenStepView {
    Ready(Option<Seq<char>>),
    Refresh,
}

impl View for TokenStep {
    type V = TokenStepView;

    open spec fn view(&self) -> TokenStepView {
        match self {
            TokenStep::Ready(token) => TokenStepView::Ready(text::view_of(*token)),
            TokenStep::Refresh => TokenStepView::Refresh,
        }
    }
}

/// The key of the configured Anthropic provider, where there is one.
pub open spec fn anthropic_key(llm: LlmView) -> Option<Seq<char>> {
    match configured_provider(llm, "anthropic"@) {
        Ok(configured) => Some(configured.api_key),
        Err(_) => None,
    }
}

/// What a request for the Anthropic token comes to: the OAuth token where there are
/// credentials, and otherwise the key in the configuration.
pub open spec fn anthropic_step(
    llm: LlmView,
    credentials: Option<OAuthCredentials>,
    expired: bool,
) -> TokenStepView {
    match credentials {
        Some(_) => token_step(credentials, expired),
        None => TokenStepView::Ready(anthropic_key(llm)),
    }
}

/// What a request for a token comes to: credentials that have not expired give it.
pub open spec fn token_step(credentials: Option<OAuthCredentials>, expired: bool) -> TokenStepView {
    match credentials {
        None => TokenStepView::Ready(None),
        Some(c) => if expired {
            TokenStepView::Refresh
        } else {
            TokenStepView::Ready(Some(c.access_token@))
        },
    }
}

/// The token after a refresh: that of the new credentials, or, where the refresh
/// failed, the old one, which the provider will reject with a clearer message than a
/// missing key would get.
pub open spec fn refreshed_token(
    credentials: Option<OAuthCredentials>,
    outcome: Option<OAuthCredentials>,
) -> Option<Seq<char>> {
    match credentials {
        None => None,
        Some(old_ones) => match outcome {
            Some(new_ones) => Some(new_ones.access_token@),
            None => Some(old_ones.access_token@),
        },
    }
}

/// The credentials after a refresh.
pub open spec fn refreshed_credentials(
    credentials: Option<OAuthCredentials>,
    outcome: Option<OAuthCredentials>,
) -> Option<OAuthCredentials> {
    match credentials {
        None => None,
        Some(old_ones) => match outcome {
            Some(new_ones) => Some(new_ones),
            None => Some(old_ones),
        },
    }
}

/// Where refreshed credentials are to be saved: in the instance directory, where it is
/// set and there are new credentials.
pub open spec fn saved_in(
    instance_dir: Option<String>,
    credentials: Option<OAuthCredentials>,
    outcome: Option<OAuthCredentials>,
) -> Option<Seq<char>> {
    if credentials is Some && outcome is Some {
        text::view_of(instance_dir)
    } else {
        None
    }
}

/// What came of refreshing a token.
#[derive(PartialEq, Eq)]
pub struct Refreshed {
    /// The token.
    pub token: Option<String>,
    /// The directory in which the manager's new credentials are to be saved; none where
    /// there is nothing to save, or no place for it.
    pub save_in: Option<String>,
}

/// What a request for a token comes to.
fn step_for(credentials: &Option<OAuthCredentials>, expired: bool) -> (step: TokenStep)
    ensures
        step@ == token_step(*credentials, expired),
{
    match credentials {
        None => TokenStep::Ready(None),
        Some(c) => if expired {
            TokenStep::Refresh
        } else {
            TokenStep::Ready(Some(c.access_token.clone()))
        },
    }
}

/// Takes in the outcome of a refresh.
fn take_refreshed(
    credentials: &mut Option<OAuthCredentials>,
    outcome: Option<OAuthCredentials>,
) -> (token: Option<String>)
    ensures
        text::view_of(token) == refreshed_token(*old(credentials), outcome),
        *final(credentials) == refreshed_credentials(*old(credentials), outcome),
{
    let old_ones = credentials.take();
    match old_ones {
        None => None,
        Some(c) => match outcome {
            Some(new_ones) => {
                let token = new_ones.access_token.clone();
                *credentials = Some(new_ones);
                Some(token)
            },
            None => {
                let token = c.access_token.clone();
                *credentials = Some(c);
                Some(token)
            },
        },
    }
}

/// Where refreshed credentials are to be saved.
fn place_for(
    instance_dir: &Option<String>,
    credentials: &Option<OAuthCredentials>,
    outcome: &Option<OAuthCredentials>,
) -> (place: Option<String>)
    ensures
        text::view_of(place) == saved_in(*instance_dir, *credentials, *outcome),
{
    if credentials.is_some() && outcome.is_some() {
        instance_dir.clone()
    } else {
        None
    }
}

/// The Anthropic provider: the configured one, with an OAuth token in the place of its
/// key where there is one; without a configured one, one made of the token alone.
pub open spec fn anthropic_provider(llm: LlmView, token: Option<Seq<char>>) -> Result<
    ProviderView,
    LlmErrorView,
> {
    match configured_provider(llm, "anthropic"@) {
        Ok(configured) => match token {
            Some(t) => Ok(ProviderView { api_key: t, ..configured }),
            None => Ok(configured),
        },
        Err(_) => match token {
            Some(t) => Ok(
                ProviderView {
                    api_type: ApiType::Anthropic,
                    base_url: "https://api.anthropic.com"@,
                    api_key: t,
                    name: None,
                    use_proxy_api_key: false,
                    extra_headers: Seq::empty(),
                },
            ),
            None => Err(LlmErrorView::UnknownProvider("anthropic"@)),
        },
    }
}

/// The ChatGPT provider, which an OAuth token alone makes.
pub open spec fn chatgpt_provider(token: Option<Seq<char>>) -> Result<ProviderView, LlmErrorView> {
    match token {
        Some(t) => Ok(
            ProviderView {
                api_type: ApiType::OpenAiResponses,
                base_url: "https://chatgpt.com/backend-api/codex"@,
                api_key: t,
                name: None,
                use_proxy_api_key: false,
                extra_headers: Seq::empty(),
            },
        ),
        None => Err(LlmErrorView::UnknownProvider("openai-chatgpt"@)),
    }
}

/// The GitHub Copilot provider: its address is the one that its token names, and it
/// wants to know the editor.
pub open spec fn copilot_provider(
    token: Option<Seq<char>>,
    base_url: Seq<char>,
    version: Seq<char>,
) -> Result<ProviderView, LlmErrorView> {
    match token {
        Some(t) => Ok(
            ProviderView {
                api_type: ApiType::OpenAiChatCompletions,
                base_url,
                api_key: t,
                name: Some("GitHub Copilot"@),
                use_proxy_api_key: true,
                extra_headers: seq![
                    ("user-agent"@, "spacebot/"@ + version),
                    ("editor-version"@, "vscode/1.96.2"@),
                    ("editor-plugin-version"@, "copilot-chat/0.26.7"@),
                ],
            },
        ),
        None => Err(LlmErrorView::UnknownProvider("github-copilot"@)),
    }
}

/// The personal access token of the configured Copilot provider, where it is not
/// empty.
pub open spec fn personal_token(llm: LlmView) -> Option<Seq<char>> {
    match configured_provider(llm, "github-copilot"@) {
        Ok(configured) => if configured.api_key.len() > 0 {
            Some(configured.api_key)
        } else {
            None
        },
        Err(_) => None,
    }
}

/// The kept Copilot token, where it is for the same personal access token.
pub open spec fn matching_token(kept: Option<CopilotToken>, pat_hash: Seq<char>) -> Option<
    Seq<char>,
> {
    match kept {
        Some(t) => if t.pat_hash@ == pat_hash {
            Some(t.token@)
        } else {
            None
        },
        None => None,
    }
}

impl LlmManager {
    /// Create a new LLM manager with the given configuration.
    pub fn new(config: LlmConfig) -> (manager: LlmManager)
        ensures
            manager.config == config,
            manager.rate_limited@ == Map::<Seq<char>, u64>::empty(),
            manager.instance_dir is None,
            manager.anthropic_oauth_credentials is None,
            manager.openai_oauth_credentials is None,
            manager.copilot_token is None,
    {
        LlmManager {
            config,
            rate_limited: StringMap::new(),
            instance_dir: None,
            anthropic_oauth_credentials: None,
            openai_oauth_credentials: None,
            copilot_token: None,
        }
    }

    /// Set the instance directory and take in the credentials that are stored in it. One
    /// that is not there, or cannot be read, leaves the one in memory as it was.
    pub fn set_instance_dir(
        &mut self,
        instance_dir: String,
        anthropic: Option<OAuthCredentials>,
        openai: Option<OAuthCredentials>,
        copilot: Option<CopilotToken>,
    )
        ensures
            *final(self) == (LlmManager {
                instance_dir: Some(instance_dir),
                anthropic_oauth_credentials: resolve::or_else(
                    anthropic,
                    old(self).anthropic_oauth_credentials,
                ),
                openai_oauth_credentials: resolve::or_else(
                    openai,
                    old(self).openai_oauth_credentials,
                ),
                copilot_token: resolve::or_else(copilot, old(self).copilot_token),
                ..*old(self)
            }),
    {
        self.instance_dir = Some(instance_dir);
        if let Some(c) = anthropic {
            self.anthropic_oauth_credentials = Some(c);
        }
        if let Some(c) = openai {
            self.openai_oauth_credentials = Some(c);
        }
        if let Some(t) = copilot {
            self.copilot_token = Some(t);
        }
    }

    /// Initialize with an instance directory and the credentials that are stored in it.
    pub fn with_instance_dir(
        config: LlmConfig,
        instance_dir: String,
        anthropic: Option<OAuthCredentials>,
        openai: Option<OAuthCredentials>,
        copilot: Option<CopilotToken>,
    ) -> (manager: LlmManager)
        ensures
            manager.config == config,
            manager.rate_limited@ == Map::<Seq<char>, u64>::empty(),
            manager.instance_dir == Some(instance_dir),
            manager.anthropic_oauth_credentials == anthropic,
            manager.openai_oauth_credentials == openai,
            manager.copilot_token == copilot,
    {
        let mut manager = LlmManager::new(config);
        manager.set_instance_dir(instance_dir, anthropic, openai, copilot);
        manager
    }

    /// Swaps in new provider credentials.
    pub fn reload_config(&mut self, config: LlmConfig)
        ensures
            *final(self) == (LlmManager { config, ..*old(self) }),
    {
        self.config = config;
    }

    /// The provider of an id, in whatever case it is written.
    pub fn get_provider(&self, provider_id: &str) -> (result: Result<ProviderConfig, LlmError>)
        ensures
            provider_result(result) == configured_provider(self.config@, provider_id@),
            resolve::is_plain(provider_id@) ==> provider_result(result) == provider_under(
                self.config@,
                provider_id@,
            ),
    {
        let id = resolve::lowercase(provider_id);
        match self.config.providers.get(id.as_str()) {
            Some(configured) => Ok(configured.duplicate()),
            None => Err(LlmError::UnknownProvider(provider_id.to_owned())),
        }
    }

    /// Get the appropriate API key for Anthropic.
    ///
    /// If OAuth credentials are available, this is the OAuth access token (to be
    /// refreshed first where it has expired). Otherwise it falls back to the static API
    /// key from config.
    pub fn get_anthropic_token(&self, expired: bool) -> (step: TokenStep)
        ensures
            step@ == anthropic_step(self.config@, self.anthropic_oauth_credentials, expired),
            self.anthropic_oauth_credentials is None ==> step@ == TokenStepView::Ready(
                match provider_under(self.config@, "anthropic"@) {
                    Ok(configured) => Some(configured.api_key),
                    Err(_) => None,
                },
            ),
    {
        proof {
            reveal_strlit("anthropic");
        }
        if self.anthropic_oauth_credentials.is_some() {
            return step_for(&self.anthropic_oauth_credentials, expired);
        }
        match self.get_provider("anthropic") {
            Ok(configured) => TokenStep::Ready(Some(configured.api_key)),
            Err(_) => TokenStep::Ready(None),
        }
    }

    /// Takes in the outcome of refreshing the Anthropic credentials, and gives the
    /// token and where the new credentials are to be saved.
    pub fn anthropic_refreshed(&mut self, outcome: Option<OAuthCredentials>) -> (refreshed:
        Refreshed)
        ensures
            text::view_of(refreshed.token) == refreshed_token(
                old(self).anthropic_oauth_credentials,
                outcome,
            ),
            text::view_of(refreshed.save_in) == saved_in(
                old(self).instance_dir,
                old(self).anthropic_oauth_credentials,
                outcome,
            ),
            *final(self) == (LlmManager {
                anthropic_oauth_credentials: refreshed_credentials(
                    old(self).anthropic_oauth_credentials,
                    outcome,
                ),
                ..*old(self)
            }),
    {
        let save_in = place_for(&self.instance_dir, &self.anthropic_oauth_credentials, &outcome);
        let token = take_refreshed(&mut self.anthropic_oauth_credentials, outcome);
        Refreshed { token, save_in }
    }

    /// Resolve the Anthropic provider config, preferring an OAuth token.
    pub fn get_anthropic_provider(&self, token: Option<String>) -> (result: Result<
        ProviderConfig,
        LlmError,
    >)
        ensures
            provider_result(result) == anthropic_provider(self.config@, text::view_of(token)),
    {
        match self.get_provider("anthropic") {
            Ok(configured) => match token {
                Some(t) => {
                    let mut changed = configured;
                    changed.api_key = t;
                    Ok(changed)
                },
                None => Ok(configured),
            },
            Err(_) => match token {
                Some(t) => {
                    let made = ProviderConfig {
                        api_type: ApiType::Anthropic,
                        base_url: "https://api.anthropic.com".to_owned(),
                        api_key: t,
                        name: None,
                        use_proxy_api_key: false,
                        extra_headers: Vec::new(),
                    };
                    proof {
                        assert(made@.extra_headers =~= Seq::empty());
                    }
                    Ok(made)
                },
                None => Err(LlmError::UnknownProvider("anthropic".to_owned())),
            },
        }
    }

    /// Set OpenAI OAuth credentials in memory after successful auth.
    pub fn set_openai_oauth_credentials(&mut self, creds: OAuthCredentials)
        ensures
            *final(self) == (LlmManager { openai_oauth_credentials: Some(creds), ..*old(self) }),
    {
        self.openai_oauth_credentials = Some(creds);
    }

    /// Clear OpenAI OAuth credentials from memory.
    pub fn clear_openai_oauth_credentials(&mut self)
        ensures
            *final(self) == (LlmManager { openai_oauth_credentials: None, ..*old(self) }),
    {
        self.openai_oauth_credentials = None;
    }

    /// What a request for the OpenAI token comes to.
    pub fn get_openai_token(&self, expired: bool) -> (step: TokenStep)
        ensures
            step@ == token_step(self.openai_oauth_credentials, expired),
    {
        step_for(&self.openai_oauth_credentials, expired)
    }

    /// Takes in the outcome of refreshing the OpenAI credentials, and gives the token and
    /// where the new credentials are to be saved.
    pub fn openai_refreshed(&mut self, outcome: Option<OAuthCredentials>) -> (refreshed: Refreshed)
        ensures
            text::view_of(refreshed.token) == refreshed_token(
                old(self).openai_oauth_credentials,
                outcome,
            ),
            text::view_of(refreshed.save_in) == saved_in(
                old(self).instance_dir,
                old(self).openai_oauth_credentials,
                outcome,
            ),
            *final(self) == (LlmManager {
                openai_oauth_credentials: refreshed_credentials(
                    old(self).openai_oauth_credentials,
                    outcome,
                ),
                ..*old(self)
            }),
    {
        let save_in = place_for(&self.instance_dir, &self.openai_oauth_credentials, &outcome);
        let token = take_refreshed(&mut self.openai_oauth_credentials, outcome);
        Refreshed { token, save_in }
    }

    /// Resolve the OpenAI provider config from static API-key configuration. ChatGPT
    /// has a provider of its own, so a saved OAuth token cannot shadow a configured
    /// key.
    pub fn get_openai_provider(&self) -> (result: Result<ProviderConfig, LlmError>)
        ensures
            provider_result(result) == configured_provider(self.config@, "openai"@),
            provider_result(result) == provider_under(self.config@, "openai"@),
    {
        proof {
            reveal_strlit("openai");
        }
        self.get_provider("openai")
    }

    /// Resolve the OpenAI ChatGPT OAuth provider config.
    pub fn get_openai_chatgpt_provider(&self, token: Option<String>) -> (result: Result<
        ProviderConfig,
        LlmError,
    >)
        ensures
            provider_result(result) == chatgpt_provider(text::view_of(token)),
    {
        match token {
            Some(t) => {
                let made = ProviderConfig {
                    api_type: ApiType::OpenAiResponses,
                    base_url: "https://chatgpt.com/backend-api/codex".to_owned(),
                    api_key: t,
                    name: None,
                    use_proxy_api_key: false,
                    extra_headers: Vec::new(),
                };
                proof {
                    assert(made@.extra_headers =~= Seq::empty());
                }
                Ok(made)
            },
            None => Err(LlmError::UnknownProvider("openai-chatgpt".to_owned())),
        }
    }

    /// Get OpenAI OAuth account id (for ChatGPT Plus/Pro account scoping headers).
    pub fn get_openai_account_id(&self) -> (id: Option<String>)
        ensures
            id == (match self.openai_oauth_credentials {
                Some(c) => c.account_id,
                None => None,
            }),
    {
        match &self.openai_oauth_credentials {
            Some(c) => c.account_id.clone(),
            None => None,
        }
    }

    /// The personal access token that a Copilot token is exchanged for, where there is
    /// one.
    pub fn github_pat(&self) -> (token: Option<String>)
        ensures
            text::view_of(token) == personal_token(self.config@),
    {
        match self.get_provider("github-copilot") {
            Ok(configured) => if configured.api_key.as_str().is_empty() {
                None
            } else {
                Some(configured.api_key)
            },
            Err(_) => None,
        }
    }

    /// The kept Copilot token, where it has not expired and is for the personal access
    /// token with the given hash. Without it one is to be exchanged.
    pub fn get_copilot_token(&self, pat_hash: &str, expired: bool) -> (token: Option<String>)
        ensures
            text::view_of(token) == (if expired {
                None
            } else {
                matching_token(self.copilot_token, pat_hash@)
            }),
    {
        match &self.copilot_token {
            Some(kept) => if !expired && text::same(kept.pat_hash.as_str(), pat_hash) {
                Some(kept.token.clone())
            } else {
                None
            },
            None => None,
        }
    }

    /// Takes in the outcome of exchanging a personal access token. A new token is to be
    /// saved in the instance directory, where it is set. Where the exchange failed, the
    /// kept token serves on, even if it has expired, but only for the same personal
    /// access token.
    pub fn copilot_exchanged(&mut self, pat_hash: &str, outcome: Result<CopilotToken, String>) -> (
    result: Result<Refreshed, LlmError>)
        ensures
            match outcome {
                Ok(exchanged) => {
                    &&& result matches Ok(refreshed) && text::view_of(refreshed.token) == Some(
                        exchanged.token@,
                    ) && text::view_of(refreshed.save_in) == text::view_of(old(self).instance_dir)
                    &&& *final(self) == (LlmManager {
                        copilot_token: Some(exchanged),
                        ..*old(self)
                    })
                },
                Err(reason) => {
                    &&& *final(self) == *old(self)
                    &&& match matching_token(old(self).copilot_token, pat_hash@) {
                        Some(kept) => result matches Ok(refreshed) && text::view_of(
                            refreshed.token,
                        ) == Some(kept) && refreshed.save_in is None,
                        None => result matches Err(refusal) && refusal@
                            == LlmErrorView::TokenExchange(reason@),
                    }
                },
            },
    {
        match outcome {
            Ok(exchanged) => {
                let token = exchanged.token.clone();
                self.copilot_token = Some(exchanged);
                Ok(Refreshed { token: Some(token), save_in: self.instance_dir.clone() })
            },
            Err(reason) => {
                match &self.copilot_token {
                    Some(kept) => if text::same(kept.pat_hash.as_str(), pat_hash) {
                        return Ok(Refreshed { token: Some(kept.token.clone()), save_in: None });
                    },
                    None => {},
                }
                Err(LlmError::TokenExchange(reason))
            },
        }
    }

    /// Resolve the GitHub Copilot provider config with an API token, at the address
    /// that the token names, or else at the default one.
    pub fn get_github_copilot_provider(
        &self,
        token: Option<String>,
        derived_base_url: Option<String>,
        default_base_url: &str,
        version: &str,
    ) -> (result: Result<ProviderConfig, LlmError>)
        ensures
            provider_result(result) == copilot_provider(
                text::view_of(token),
                match derived_base_url {
                    Some(url) => url@,
                    None => default_base_url@,
                },
                version@,
            ),
    {
        let api_key = match token {
            Some(t) => t,
            None => {
                return Err(LlmError::UnknownProvider("github-copilot".to_owned()));
            },
        };
        let base_url = match derived_base_url {
            Some(url) => url,
            None => default_base_url.to_owned(),
        };
        let mut extra_headers: Vec<(String, String)> = Vec::new();
        extra_headers.push(("user-agent".to_owned(), text::concat("spacebot/", version)));
        extra_headers.push(("editor-version".to_owned(), "vscode/1.96.2".to_owned()));
        extra_headers.push(("editor-plugin-version".to_owned(), "copilot-chat/0.26.7".to_owned()));
        proof {
            assert(provider::header_views(extra_headers@) =~= seq![
                ("user-agent"@, "spacebot/"@ + version@),
                ("editor-version"@, "vscode/1.96.2"@),
                ("editor-plugin-version"@, "copilot-chat/0.26.7"@),
            ]);
        }
        Ok(
            ProviderConfig {
                api_type: ApiType::OpenAiChatCompletions,
                base_url,
                api_key,
                name: Some("GitHub Copilot".to_owned()),
                use_proxy_api_key: true,
                extra_headers,
            },
        )
    }

    /// Clear cached GitHub Copilot token from memory only.
    pub fn clear_copilot_token(&mut self)
        ensures
            *final(self) == (LlmManager { copilot_token: None, ..*old(self) }),
    {
        self.copilot_token = None;
    }

    /// Get the appropriate API key for a provider.
    pub fn get_api_key(&self, provider_id: &str) -> (result: Result<String, LlmError>)
        ensures
            match configured_provider(self.config@, provider_id@) {
                Ok(configured) => if configured.api_key.len() == 0 {
                    result matches Err(refusal) && refusal@ == LlmErrorView::MissingProviderKey(
                        provider_id@,
                    )
                } else {
                    result matches Ok(key) && key@ == configured.api_key
                },
                Err(unknown) => result matches Err(refusal) && refusal@ == unknown,
            },
    {
        match self.get_provider(provider_id) {
            Ok(configured) => if configured.api_key.as_str().is_empty() {
                Err(LlmError::MissingProviderKey(provider_id.to_owned()))
            } else {
                Ok(configured.api_key)
            },
            Err(refusal) => Err(refusal),
        }
    }

    /// Get configured Ollama base URL, if provided.
    pub fn ollama_base_url(&self) -> (url: Option<String>)
        ensures
            url == self.config.ollama_base_url,
    {
        self.config.ollama_base_url.clone()
    }

    /// Resolve a model name to provider and model components.
    /// Format: "provider/model-name" or just "model-name" (defaults to anthropic).
    pub fn resolve_model(&self, model_name: &str) -> (result: Result<(String, String), LlmError>)
        ensures
            result matches Ok(parts) && (parts.0@, parts.1@) == model_parts(model_name@),
    {
        Ok(split_model_name(model_name))
    }
}

/// Asking with the key that the Anthropic token falls back to is asking the configured
/// provider as it is.
pub proof fn law_fallback_key_leaves_the_provider(llm: LlmView)
    ensures
        anthropic_provider(llm, anthropic_key(llm)) == anthropic_provider(llm, None),
{
}

/// The provider and the model of a model's name.
pub open spec fn model_parts(model_name: Seq<char>) -> (Seq<char>, Seq<char>) {
    match text::cut(model_name, "/"@) {
        Some((provider, model)) => (provider, model),
        None => ("anthropic"@, model_name),
    }
}

/// Splits a model's name into its provider and its model.
pub fn split_model_name(model_name: &str) -> (parts: (String, String))
    ensures
        (parts.0@, parts.1@) == model_parts(model_name@),
{
    match text::split_once(model_name, "/") {
        Some((provider, model)) => (provider, model),
        None => ("anthropic".to_owned(), model_name.to_owned()),
    }
}

// ---------------------------------------------------------------------------
// Rate limits
// ---------------------------------------------------------------------------

/// The whole seconds between two moments, in nanoseconds; none where the second is not
/// after the first.
pub open spec fn elapsed_secs(from: u64, to: u64) -> int {
    if to > from {
        (to - from) / 1_000_000_000
    } else {
        0
    }
}

/// A model that hit a rate limit at a moment is in cooldown at another.
pub open spec fn is_cooling(limited_at: u64, now: u64, cooldown_secs: u64) -> bool {
    elapsed_secs(limited_at, now) < cooldown_secs
}

/// A model is in cooldown.
pub open spec fn in_cooldown(
    limited: Map<Seq<char>, u64>,
    model: Seq<char>,
    now: u64,
    cooldown_secs: u64,
) -> bool {
    limited.contains_key(model) && is_cooling(limited[model], now, cooldown_secs)
}

/// The models whose cooldown is not over.
pub open spec fn still_cooling(limited: Map<Seq<char>, u64>, now: u64, cooldown_secs: u64) -> Map<
    Seq<char>,
    u64,
> {
    Map::new(
        |model: Seq<char>| in_cooldown(limited, model, now, cooldown_secs),
        |model: Seq<char>| limited[model],
    )
}

/// Whether a model that hit a rate limit at a moment is in cooldown at another.
fn cooling(limited_at: u64, now: u64, cooldown_secs: u64) -> (yes: bool)
    ensures
        yes == is_cooling(limited_at, now, cooldown_secs),
{
    let seconds: u64 = if now > limited_at {
        (now - limited_at) / 1_000_000_000
    } else {
        0
    };
    seconds < cooldown_secs
}

impl LlmManager {
    /// Record that a model hit a rate limit.
    pub fn record_rate_limit(&mut self, model_name: &str, now: u64)
        ensures
            final(self).rate_limited@ == old(self).rate_limited@.insert(model_name@, now),
            final(self).config == old(self).config,
            final(self).instance_dir == old(self).instance_dir,
            final(self).anthropic_oauth_credentials == old(self).anthropic_oauth_credentials,
            final(self).openai_oauth_credentials == old(self).openai_oauth_credentials,
            final(self).copilot_token == old(self).copilot_token,
    {
        self.rate_limited.insert(model_name.to_owned(), now);
    }

    /// Check if a model is currently in rate limit cooldown.
    pub fn is_rate_limited(&self, model_name: &str, cooldown_secs: u64, now: u64) -> (yes: bool)
        ensures
            yes == in_cooldown(self.rate_limited@, model_name@, now, cooldown_secs),
    {
        match self.rate_limited.get(model_name) {
            Some(limited_at) => cooling(*limited_at, now, cooldown_secs),
            None => false,
        }
    }

    /// Clean up expired rate limit entries.
    pub fn cleanup_rate_limits(&mut self, cooldown_secs: u64, now: u64)
        ensures
            final(self).rate_limited@ == still_cooling(
                old(self).rate_limited@,
                now,
                cooldown_secs,
            ),
            final(self).config == old(self).config,
            final(self).instance_dir == old(self).instance_dir,
            final(self).anthropic_oauth_credentials == old(self).anthropic_oauth_credentials,
            final(self).openai_oauth_credentials == old(self).openai_oauth_credentials,
            final(self).copilot_token == old(self).copilot_token,
    {
        let ghost before = self.rate_limited@;
        let entries = self.rate_limited.entries();
        let mut kept: StringMap<u64> = StringMap::new();
        let mut i: usize = 0;
        proof {
            string_map::lemma_no_entries(entries@);
            assert(kept@ =~= still_cooling(
                string_map::entries_map(entries@.subrange(0, 0)),
                now,
                cooldown_secs,
            ));
        }
        while i < entries.len()
            invariant
                i <= entries@.len(),
                string_map::keys_are_distinct(entries@),
                kept@ == still_cooling(
                    string_map::entries_map(entries@.subrange(0, i as int)),
                    now,
                    cooldown_secs,
                ),
            decreases entries@.len() - i,
        {
            let ghost shorter = entries@.subrange(0, i as int);
            let ghost had = kept@;
            proof {
                let longer = entries@.subrange(0, i as int + 1);
                assert(longer =~= shorter.push(entries@[i as int]));
                string_map::lemma_entries_map_push(shorter, entries@[i as int]);
                string_map::lemma_key_is_new(shorter, entries@[i as int]);
            }
            if cooling(entries[i].1, now, cooldown_secs) {
                kept.insert(entries[i].0.clone(), entries[i].1);
            }
            proof {
                let longer = entries@.subrange(0, i as int + 1);
                assert(kept@ =~= still_cooling(
                    string_map::entries_map(longer),
                    now,
                    cooldown_secs,
                ));
            }
            i += 1;
        }
        proof {
            assert(entries@.subrange(0, entries@.len() as int) =~= entries@);
        }
        self.rate_limited = kept;
    }
}

/// A model is in cooldown from the moment it hits a rate limit until the cooldown has
/// passed, and not after.
pub proof fn law_cooldown_lasts_as_long_as_it_says(
    limited: Map<Seq<char>, u64>,
    model: Seq<char>,
    at: u64,
    now: u64,
    cooldown_secs: u64,
)
    requires
        at <= now,
    ensures
        in_cooldown(limited.insert(model, at), model, now, cooldown_secs) <==> now - at
            < cooldown_secs * 1_000_000_000,
{
}

/// Hitting a rate limit puts no other model into cooldown, and takes none out of it.
pub proof fn law_rate_limits_are_apart(
    limited: Map<Seq<char>, u64>,
    model: Seq<char>,
    other: Seq<char>,
    at: u64,
    now: u64,
    cooldown_secs: u64,
)
    requires
        other != model,
    ensures
        in_cooldown(limited.insert(model, at), other, now, cooldown_secs) == in_cooldown(
            limited,
            other,
            now,
            cooldown_secs,
        ),
{
}

/// Cleaning up at one moment does not change which models are in cooldown at that
/// moment or later.
pub proof fn law_cleanup_keeps_cooldowns(
    limited: Map<Seq<char>, u64>,
    model: Seq<char>,
    cleaned_at: u64,
    now: u64,
    cooldown_secs: u64,
)
    requires
        cleaned_at <= now,
    ensures
        in_cooldown(still_cooling(limited, cleaned_at, cooldown_secs), model, now, cooldown_secs)
            == in_cooldown(limited, model, now, cooldown_secs),
{
    if in_cooldown(limited, model, now, cooldown_secs) {
        let from = limited[model];
        assert(elapsed_secs(from, cleaned_at) <= elapsed_secs(from, now));
    }
}

} // verus!
