//! Which fields of a configuration hold secrets, and under which names the secrets
//! store keeps them.
use crate::config::agent::DefaultsConfig;
use crate::config::messaging::{
    DiscordConfig, EmailConfig, SignalConfig, SlackConfig, TelegramConfig, TwitchConfig,
};
use crate::config::provider::LlmConfig;
use crate::views;
use vstd::prelude::*;

verus! {

/// How the secret of a named instance is named: the platform, the instance and the
/// field.
#[derive(Debug, Clone, Copy, PartialEq, Eq)]
pub struct InstancePattern {
    pub platform_prefix: &'static str,
    pub field_suffix: &'static str,
}

/// A field that holds a secret.
#[derive(Debug, Clone, Copy, PartialEq, Eq)]
pub struct SecretField {
    pub toml_key: &'static str,
    pub secret_name: &'static str,
    pub instance_pattern: Option<InstancePattern>,
}

/// The view of a [`SecretField`].
#[verifier::ext_equal]
pub struct SecretFieldView {
    pub toml_key: Seq<char>,
    pub secret_name: Seq<char>,
    pub instance_pattern: Option<(Seq<char>, Seq<char>)>,
}

impl View for SecretField {
    type V = SecretFieldView;

    open spec fn view(&self) -> SecretFieldView {
        SecretFieldView {
            toml_key: self.toml_key@,
            secret_name: self.secret_name@,
            instance_pattern: match self.instance_pattern {
                Some(pattern) => Some((pattern.platform_prefix@, pattern.field_suffix@)),
                None => None,
            },
        }
    }
}

/// A secret of the instance as a whole.
pub open spec fn shared_secret(toml_key: Seq<char>, secret_name: Seq<char>) -> SecretFieldView {
    SecretFieldView { toml_key, secret_name, instance_pattern: None }
}

/// A secret that each named instance has too.
pub open spec fn instance_secret(
    toml_key: Seq<char>,
    secret_name: Seq<char>,
    platform_prefix: Seq<char>,
    field_suffix: Seq<char>,
) -> SecretFieldView {
    SecretFieldView {
        toml_key,
        secret_name,
        instance_pattern: Some((platform_prefix, field_suffix)),
    }
}

/// A secret of the instance as a whole.
fn shared(toml_key: &'static str, secret_name: &'static str) -> (field: SecretField)
    ensures
        field@ == shared_secret(toml_key@, secret_name@),
{
    SecretField { toml_key, secret_name, instance_pattern: None }
}

/// A secret that each named instance has too.
fn per_instance(
    toml_key: &'static str,
    secret_name: &'static str,
    platform_prefix: &'static str,
    field_suffix: &'static str,
) -> (field: SecretField)
    ensures
        field@ == instance_secret(toml_key@, secret_name@, platform_prefix@, field_suffix@),
{
    SecretField {
        toml_key,
        secret_name,
        instance_pattern: Some(InstancePattern { platform_prefix, field_suffix }),
    }
}

/// A section of the configuration that holds secrets.
pub trait SystemSecrets {
    /// The name of the section.
    spec fn section_name() -> Seq<char>;

    /// The section is one of a messaging platform.
    spec fn is_platform() -> bool;

    /// The fields that hold secrets.
    spec fn fields() -> Seq<SecretFieldView>;

    /// The name of the section.
    fn section() -> (name: &'static str)
        ensures
            name@ == Self::section_name(),
    ;

    /// Whether the section is one of a messaging platform.
    fn is_messaging_adapter() -> (yes: bool)
        ensures
            yes == Self::is_platform(),
    ;

    /// The fields that hold secrets.
    fn secret_fields() -> (list: Vec<SecretField>)
        ensures
            views::list(list@) == Self::fields(),
    ;
}

impl SystemSecrets for LlmConfig {
    open spec fn section_name() -> Seq<char> {
        "llm"@
    }

    open spec fn is_platform() -> bool {
        false
    }

    open spec fn fields() -> Seq<SecretFieldView> {
        seq![
            shared_secret("anthropic_key"@, "ANTHROPIC_API_KEY"@),
            shared_secret("anthropic_key"@, "ANTHROPIC_AUTH_TOKEN"@),
            shared_secret("openai_key"@, "OPENAI_API_KEY"@),
            shared_secret("openrouter_key"@, "OPENROUTER_API_KEY"@),
            shared_secret("kilo_key"@, "KILO_API_KEY"@),
            shared_secret("zhipu_key"@, "ZHIPU_API_KEY"@),
            shared_secret("groq_key"@, "GROQ_API_KEY"@),
            shared_secret("together_key"@, "TOGETHER_API_KEY"@),
            shared_secret("fireworks_key"@, "FIREWORKS_API_KEY"@),
            shared_secret("deepseek_key"@, "DEEPSEEK_API_KEY"@),
            shared_secret("xai_key"@, "XAI_API_KEY"@),
            shared_secret("mistral_key"@, "MISTRAL_API_KEY"@),
            shared_secret("gemini_key"@, "GEMINI_API_KEY"@),
            shared_secret("gemini_key"@, "GOOGLE_API_KEY"@),
            shared_secret("ollama_key"@, "OLLAMA_API_KEY"@),
            shared_secret("opencode_zen_key"@, "OPENCODE_ZEN_API_KEY"@),
            shared_secret("opencode_go_key"@, "OPENCODE_GO_API_KEY"@),
            shared_secret("nvidia_key"@, "NVIDIA_API_KEY"@),
            shared_secret("minimax_key"@, "MINIMAX_API_KEY"@),
            shared_secret("minimax_cn_key"@, "MINIMAX_CN_API_KEY"@),
            shared_secret("moonshot_key"@, "MOONSHOT_API_KEY"@),
            shared_secret("zai_coding_plan_key"@, "ZAI_CODING_PLAN_API_KEY"@),
            shared_secret("cerebras_key"@, "CEREBRAS_API_KEY"@),
            shared_secret("sambanova_key"@, "SAMBANOVA_API_KEY"@),
            shared_secret("github_copilot_key"@, "GITHUB_COPILOT_API_KEY"@),
        ]
    }

    fn section() -> (name: &'static str) {
        "llm"
    }

    fn is_messaging_adapter() -> (yes: bool) {
        false
    }

    fn secret_fields() -> (list: Vec<SecretField>) {
        let mut list: Vec<SecretField> = Vec::new();
        list.push(shared("anthropic_key", "ANTHROPIC_API_KEY"));
        list.push(shared("anthropic_key", "ANTHROPIC_AUTH_TOKEN"));
        list.push(shared("openai_key", "OPENAI_API_KEY"));
        list.push(shared("openrouter_key", "OPENROUTER_API_KEY"));
        list.push(shared("kilo_key", "KILO_API_KEY"));
        list.push(shared("zhipu_key", "ZHIPU_API_KEY"));
        list.push(shared("groq_key", "GROQ_API_KEY"));
        list.push(shared("together_key", "TOGETHER_API_KEY"));
        list.push(shared("fireworks_key", "FIREWORKS_API_KEY"));
        list.push(shared("deepseek_key", "DEEPSEEK_API_KEY"));
        list.push(shared("xai_key", "XAI_API_KEY"));
        list.push(shared("mistral_key", "MISTRAL_API_KEY"));
        list.push(shared("gemini_key", "GEMINI_API_KEY"));
        list.push(shared("gemini_key", "GOOGLE_API_KEY"));
        list.push(shared("ollama_key", "OLLAMA_API_KEY"));
        list.push(shared("opencode_zen_key", "OPENCODE_ZEN_API_KEY"));
        list.push(shared("opencode_go_key", "OPENCODE_GO_API_KEY"));
        list.push(shared("nvidia_key", "NVIDIA_API_KEY"));
        list.push(shared("minimax_key", "MINIMAX_API_KEY"));
        list.push(shared("minimax_cn_key", "MINIMAX_CN_API_KEY"));
        list.push(shared("moonshot_key", "MOONSHOT_API_KEY"));
        list.push(shared("zai_coding_plan_key", "ZAI_CODING_PLAN_API_KEY"));
        list.push(shared("cerebras_key", "CEREBRAS_API_KEY"));
        list.push(shared("sambanova_key", "SAMBANOVA_API_KEY"));
        list.push(shared("github_copilot_key", "GITHUB_COPILOT_API_KEY"));
        proof {
            assert(views::list(list@) =~= Self::fields());
        }
        list
    }
}

impl SystemSecrets for DefaultsConfig {
    open spec fn section_name() -> Seq<char> {
        "defaults"@
    }

    open spec fn is_platform() -> bool {
        false
    }

    open spec fn fields() -> Seq<SecretFieldView> {
        seq![
            shared_secret("brave_search_key"@, "BRAVE_SEARCH_API_KEY"@),
        ]
    }

    fn section() -> (name: &'static str) {
        "defaults"
    }

    fn is_messaging_adapter() -> (yes: bool) {
        false
    }

    fn secret_fields() -> (list: Vec<SecretField>) {
        let mut list: Vec<SecretField> = Vec::new();
        list.push(shared("brave_search_key", "BRAVE_SEARCH_API_KEY"));
        proof {
            assert(views::list(list@) =~= Self::fields());
        }
        list
    }
}

impl SystemSecrets for DiscordConfig {
    open spec fn section_name() -> Seq<char> {
        "discord"@
    }

    open spec fn is_platform() -> bool {
        true
    }

    open spec fn fields() -> Seq<SecretFieldView> {
        seq![
            instance_secret("token"@, "DISCORD_BOT_TOKEN"@, "DISCORD"@, "BOT_TOKEN"@),
        ]
    }

    fn section() -> (name: &'static str) {
        "discord"
    }

    fn is_messaging_adapter() -> (yes: bool) {
        true
    }

    fn secret_fields() -> (list: Vec<SecretField>) {
        let mut list: Vec<SecretField> = Vec::new();
        list.push(per_instance("token", "DISCORD_BOT_TOKEN", "DISCORD", "BOT_TOKEN"));
        proof {
            assert(views::list(list@) =~= Self::fields());
        }
        list
    }
}

impl SystemSecrets for SlackConfig {
    open spec fn section_name() -> Seq<char> {
        "slack"@
    }

    open spec fn is_platform() -> bool {
        true
    }

    open spec fn fields() -> Seq<SecretFieldView> {
        seq![
            instance_secret("bot_token"@, "SLACK_BOT_TOKEN"@, "SLACK"@, "BOT_TOKEN"@),
            instance_secret("app_token"@, "SLACK_APP_TOKEN"@, "SLACK"@, "APP_TOKEN"@),
        ]
    }

    fn section() -> (name: &'static str) {
        "slack"
    }

    fn is_messaging_adapter() -> (yes: bool) {
        true
    }

    fn secret_fields() -> (list: Vec<SecretField>) {
        let mut list: Vec<SecretField> = Vec::new();
        list.push(per_instance("bot_token", "SLACK_BOT_TOKEN", "SLACK", "BOT_TOKEN"));
        list.push(per_instance("app_token", "SLACK_APP_TOKEN", "SLACK", "APP_TOKEN"));
        proof {
            assert(views::list(list@) =~= Self::fields());
        }
        list
    }
}

impl SystemSecrets for TelegramConfig {
    open spec fn section_name() -> Seq<char> {
        "telegram"@
    }

    open spec fn is_platform() -> bool {
        true
    }

    open spec fn fields() -> Seq<SecretFieldView> {
        seq![
            instance_secret("token"@, "TELEGRAM_BOT_TOKEN"@, "TELEGRAM"@, "BOT_TOKEN"@),
        ]
    }

    fn section() -> (name: &'static str) {
        "telegram"
    }

    fn is_messaging_adapter() -> (yes: bool) {
        true
    }

    fn secret_fields() -> (list: Vec<SecretField>) {
        let mut list: Vec<SecretField> = Vec::new();
        list.push(per_instance("token", "TELEGRAM_BOT_TOKEN", "TELEGRAM", "BOT_TOKEN"));
        proof {
            assert(views::list(list@) =~= Self::fields());
        }
        list
    }
}

impl SystemSecrets for EmailConfig {
    open spec fn section_name() -> Seq<char> {
        "email"@
    }

    open spec fn is_platform() -> bool {
        true
    }

    open spec fn fields() -> Seq<SecretFieldView> {
        seq![
            instance_secret("imap_username"@, "EMAIL_IMAP_USERNAME"@, "EMAIL"@, "IMAP_USERNAME"@),
            instance_secret("imap_password"@, "EMAIL_IMAP_PASSWORD"@, "EMAIL"@, "IMAP_PASSWORD"@),
            instance_secret("smtp_username"@, "EMAIL_SMTP_USERNAME"@, "EMAIL"@, "SMTP_USERNAME"@),
            instance_secret("smtp_password"@, "EMAIL_SMTP_PASSWORD"@, "EMAIL"@, "SMTP_PASSWORD"@),
        ]
    }

    fn section() -> (name: &'static str) {
        "email"
    }

    fn is_messaging_adapter() -> (yes: bool) {
        true
    }

    fn secret_fields() -> (list: Vec<SecretField>) {
        let mut list: Vec<SecretField> = Vec::new();
        list.push(per_instance("imap_username", "EMAIL_IMAP_USERNAME", "EMAIL", "IMAP_USERNAME"));
        list.push(per_instance("imap_password", "EMAIL_IMAP_PASSWORD", "EMAIL", "IMAP_PASSWORD"));
        list.push(per_instance("smtp_username", "EMAIL_SMTP_USERNAME", "EMAIL", "SMTP_USERNAME"));
        list.push(per_instance("smtp_password", "EMAIL_SMTP_PASSWORD", "EMAIL", "SMTP_PASSWORD"));
        proof {
            assert(views::list(list@) =~= Self::fields());
        }
        list
    }
}

impl SystemSecrets for TwitchConfig {
    open spec fn section_name() -> Seq<char> {
        "twitch"@
    }

    open spec fn is_platform() -> bool {
        true
    }

    open spec fn fields() -> Seq<SecretFieldView> {
        seq![
            instance_secret("oauth_token"@, "TWITCH_OAUTH_TOKEN"@, "TWITCH"@, "OAUTH_TOKEN"@),
            instance_secret("client_id"@, "TWITCH_CLIENT_ID"@, "TWITCH"@, "CLIENT_ID"@),
            instance_secret("client_secret"@, "TWITCH_CLIENT_SECRET"@, "TWITCH"@, "CLIENT_SECRET"@),
            instance_secret("refresh_token"@, "TWITCH_REFRESH_TOKEN"@, "TWITCH"@, "REFRESH_TOKEN"@),
        ]
    }

    fn section() -> (name: &'static str) {
        "twitch"
    }

    fn is_messaging_adapter() -> (yes: bool) {
        true
    }

    fn secret_fields() -> (list: Vec<SecretField>) {
        let mut list: Vec<SecretField> = Vec::new();
        list.push(per_instance("oauth_token", "TWITCH_OAUTH_TOKEN", "TWITCH", "OAUTH_TOKEN"));
        list.push(per_instance("client_id", "TWITCH_CLIENT_ID", "TWITCH", "CLIENT_ID"));
        list.push(per_instance("client_secret", "TWITCH_CLIENT_SECRET", "TWITCH", "CLIENT_SECRET"));
        list.push(per_instance("refresh_token", "TWITCH_REFRESH_TOKEN", "TWITCH", "REFRESH_TOKEN"));
        proof {
            assert(views::list(list@) =~= Self::fields());
        }
        list
    }
}

impl SystemSecrets for SignalConfig {
    open spec fn section_name() -> Seq<char> {
        "signal"@
    }

    open spec fn is_platform() -> bool {
        true
    }

    open spec fn fields() -> Seq<SecretFieldView> {
        seq![
            shared_secret("http_url"@, "SIGNAL_HTTP_URL"@),
            shared_secret("account"@, "SIGNAL_ACCOUNT"@),
        ]
    }

    fn section() -> (name: &'static str) {
        "signal"
    }

    fn is_messaging_adapter() -> (yes: bool) {
        true
    }

    fn secret_fields() -> (list: Vec<SecretField>) {
        let mut list: Vec<SecretField> = Vec::new();
        list.push(shared("http_url", "SIGNAL_HTTP_URL"));
        list.push(shared("account", "SIGNAL_ACCOUNT"));
        proof {
            assert(views::list(list@) =~= Self::fields());
        }
        list
    }
}

} // verus!
