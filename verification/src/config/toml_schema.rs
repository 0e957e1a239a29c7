//! The configuration file as it is written, section by section.
use crate::config::agent::SandboxConfig;
use crate::config::error::{Double, Single};
use crate::config::provider::ApiType;
use crate::string_map::StringMap;
use vstd::prelude::*;

verus! {

/// `[defaults.routing]` and `[agents.routing]`.
#[derive(Debug, PartialEq, Eq)]
pub struct TomlRoutingConfig {
    pub channel: Option<String>,
    pub branch: Option<String>,
    pub worker: Option<String>,
    pub compactor: Option<String>,
    pub cortex: Option<String>,
    pub voice: Option<String>,
    pub task_overrides: StringMap<String>,
    pub fallbacks: Option<StringMap<Vec<String>>>,
    pub rate_limit_cooldown_secs: Option<u64>,
    pub channel_thinking_effort: Option<String>,
    pub branch_thinking_effort: Option<String>,
    pub worker_thinking_effort: Option<String>,
    pub compactor_thinking_effort: Option<String>,
    pub cortex_thinking_effort: Option<String>,
}

/// `compaction`.
#[derive(Debug, PartialEq, Eq)]
pub struct TomlCompactionConfig {
    pub background_threshold: Option<Single>,
    pub aggressive_threshold: Option<Single>,
    pub emergency_threshold: Option<Single>,
}

/// `memory_persistence`.
#[derive(Debug, PartialEq, Eq)]
pub struct TomlMemoryPersistenceConfig {
    pub enabled: Option<bool>,
    pub message_interval: Option<usize>,
}

/// `coalesce`.
#[derive(Debug, PartialEq, Eq)]
pub struct TomlCoalesceConfig {
    pub enabled: Option<bool>,
    pub debounce_ms: Option<u64>,
    pub max_wait_ms: Option<u64>,
    pub min_messages: Option<usize>,
    pub multi_user_only: Option<bool>,
}

/// `ingestion`.
#[derive(Debug, PartialEq, Eq)]
pub struct TomlIngestionConfig {
    pub enabled: Option<bool>,
    pub poll_interval_secs: Option<u64>,
    pub chunk_size: Option<usize>,
}

/// `warmup`.
#[derive(Debug, PartialEq, Eq)]
pub struct TomlWarmupConfig {
    pub enabled: Option<bool>,
    pub eager_embedding_load: Option<bool>,
    pub refresh_secs: Option<u64>,
    pub startup_delay_secs: Option<u64>,
}

/// `channel`.
#[derive(Debug, PartialEq, Eq)]
pub struct TomlChannelConfig {
    pub listen_only_mode: Option<bool>,
    pub save_attachments: Option<bool>,
}

/// `cortex`.
#[derive(Debug, PartialEq, Eq)]
pub struct TomlCortexConfig {
    pub tick_interval_secs: Option<u64>,
    pub worker_timeout_secs: Option<u64>,
    pub branch_timeout_secs: Option<u64>,
    pub detached_worker_timeout_retry_limit: Option<u8>,
    pub supervisor_kill_budget_per_tick: Option<usize>,
    pub circuit_breaker_threshold: Option<u8>,
    pub bulletin_interval_secs: Option<u64>,
    pub bulletin_max_words: Option<usize>,
    pub bulletin_max_turns: Option<usize>,
    pub maintenance_interval_secs: Option<u64>,
    pub maintenance_decay_rate: Option<Single>,
    pub maintenance_prune_threshold: Option<Single>,
    pub maintenance_min_age_days: Option<i64>,
    pub maintenance_merge_similarity_threshold: Option<Single>,
    pub association_interval_secs: Option<u64>,
    pub association_similarity_threshold: Option<Single>,
    pub association_updates_threshold: Option<Single>,
    pub association_max_per_pass: Option<usize>,
}

/// `browser`.
#[derive(Debug, PartialEq, Eq)]
pub struct TomlBrowserConfig {
    pub enabled: Option<bool>,
    pub headless: Option<bool>,
    pub evaluate_enabled: Option<bool>,
    pub executable_path: Option<String>,
    pub screenshot_dir: Option<String>,
    pub persist_session: Option<bool>,
    pub close_policy: Option<String>,
}

/// `opencode.permissions`.
#[derive(Debug, PartialEq, Eq)]
pub struct TomlOpenCodePermissions {
    pub edit: Option<String>,
    pub bash: Option<String>,
    pub webfetch: Option<String>,
}

/// `opencode`.
#[derive(Debug, PartialEq, Eq)]
pub struct TomlOpenCodeConfig {
    pub enabled: Option<bool>,
    pub path: Option<String>,
    pub max_servers: Option<usize>,
    pub server_startup_timeout_secs: Option<u64>,
    pub max_restart_retries: Option<u32>,
    pub permissions: Option<TomlOpenCodePermissions>,
}

/// `projects`.
#[derive(Debug, PartialEq, Eq)]
pub struct TomlProjectsConfig {
    pub use_worktrees: Option<bool>,
    pub worktree_name_template: Option<String>,
    pub auto_create_worktrees: Option<bool>,
    pub auto_discover_repos: Option<bool>,
    pub auto_discover_worktrees: Option<bool>,
    pub disk_usage_warning_threshold: Option<u64>,
}

/// `[[defaults.mcp]]` and `[[agents.mcp]]`.
#[derive(Debug, PartialEq, Eq)]
pub struct TomlMcpServerConfig {
    pub name: String,
    pub transport: String,
    pub enabled: bool,
    pub command: Option<String>,
    pub args: Vec<String>,
    pub env: StringMap<String>,
    pub url: Option<String>,
    pub headers: StringMap<String>,
}

/// `[[messaging.discord.instances]]`.
#[derive(PartialEq, Eq)]
pub struct TomlDiscordInstanceConfig {
    pub name: String,
    pub enabled: bool,
    pub token: Option<String>,
    pub dm_allowed_users: Vec<String>,
    pub allow_bot_messages: bool,
}

/// `[messaging.discord]`.
#[derive(PartialEq, Eq)]
pub struct TomlDiscordConfig {
    pub enabled: bool,
    pub token: Option<String>,
    pub instances: Vec<TomlDiscordInstanceConfig>,
    pub dm_allowed_users: Vec<String>,
    pub allow_bot_messages: bool,
}

/// `[[messaging.slack.commands]]`.
#[derive(PartialEq, Eq)]
pub struct TomlSlackCommandConfig {
    pub command: String,
    pub agent_id: String,
    pub description: Option<String>,
}

/// `[[messaging.slack.instances]]`.
#[derive(PartialEq, Eq)]
pub struct TomlSlackInstanceConfig {
    pub name: String,
    pub enabled: bool,
    pub bot_token: Option<String>,
    pub app_token: Option<String>,
    pub dm_allowed_users: Vec<String>,
    pub commands: Vec<TomlSlackCommandConfig>,
}

/// `[messaging.slack]`.
#[derive(PartialEq, Eq)]
pub struct TomlSlackConfig {
    pub enabled: bool,
    pub bot_token: Option<String>,
    pub app_token: Option<String>,
    pub instances: Vec<TomlSlackInstanceConfig>,
    pub dm_allowed_users: Vec<String>,
    pub commands: Vec<TomlSlackCommandConfig>,
}

/// `[[messaging.telegram.instances]]`.
#[derive(PartialEq, Eq)]
pub struct TomlTelegramInstanceConfig {
    pub name: String,
    pub enabled: bool,
    pub token: Option<String>,
    pub dm_allowed_users: Vec<String>,
}

/// `[messaging.telegram]`.
#[derive(PartialEq, Eq)]
pub struct TomlTelegramConfig {
    pub enabled: bool,
    pub token: Option<String>,
    pub instances: Vec<TomlTelegramInstanceConfig>,
    pub dm_allowed_users: Vec<String>,
}

/// `[[messaging.email.instances]]`.
#[derive(PartialEq, Eq)]
pub struct TomlEmailInstanceConfig {
    pub name: String,
    pub enabled: bool,
    pub imap_host: Option<String>,
    pub imap_port: u16,
    pub imap_username: Option<String>,
    pub imap_password: Option<String>,
    pub imap_use_tls: bool,
    pub smtp_host: Option<String>,
    pub smtp_port: u16,
    pub smtp_username: Option<String>,
    pub smtp_password: Option<String>,
    pub smtp_use_starttls: bool,
    pub from_address: Option<String>,
    pub from_name: Option<String>,
    pub poll_interval_secs: u64,
    pub folders: Vec<String>,
    pub allowed_senders: Vec<String>,
    pub max_body_bytes: usize,
    pub max_attachment_bytes: usize,
}

/// `[messaging.email]`.
#[derive(PartialEq, Eq)]
pub struct TomlEmailConfig {
    pub enabled: bool,
    pub imap_host: Option<String>,
    pub imap_port: u16,
    pub imap_username: Option<String>,
    pub imap_password: Option<String>,
    pub imap_use_tls: bool,
    pub smtp_host: Option<String>,
    pub smtp_port: u16,
    pub smtp_username: Option<String>,
    pub smtp_password: Option<String>,
    pub smtp_use_starttls: bool,
    pub from_address: Option<String>,
    pub from_name: Option<String>,
    pub poll_interval_secs: u64,
    pub folders: Vec<String>,
    pub allowed_senders: Vec<String>,
    pub max_body_bytes: usize,
    pub max_attachment_bytes: usize,
    pub instances: Vec<TomlEmailInstanceConfig>,
}

/// `[[messaging.twitch.instances]]`.
#[derive(PartialEq, Eq)]
pub struct TomlTwitchInstanceConfig {
    pub name: String,
    pub enabled: bool,
    pub username: Option<String>,
    pub oauth_token: Option<String>,
    pub client_id: Option<String>,
    pub client_secret: Option<String>,
    pub refresh_token: Option<String>,
    pub channels: Vec<String>,
    pub trigger_prefix: Option<String>,
}

/// `[messaging.twitch]`.
#[derive(PartialEq, Eq)]
pub struct TomlTwitchConfig {
    pub enabled: bool,
    pub username: Option<String>,
    pub oauth_token: Option<String>,
    pub client_id: Option<String>,
    pub client_secret: Option<String>,
    pub refresh_token: Option<String>,
    pub instances: Vec<TomlTwitchInstanceConfig>,
    pub channels: Vec<String>,
    pub trigger_prefix: Option<String>,
}

/// `[messaging.webhook]`.
#[derive(PartialEq, Eq)]
pub struct TomlWebhookConfig {
    pub enabled: bool,
    pub port: u16,
    pub bind: String,
    pub auth_token: Option<String>,
}

/// `[[messaging.signal.instances]]`.
#[derive(PartialEq, Eq)]
pub struct TomlSignalInstanceConfig {
    pub name: String,
    pub enabled: bool,
    pub http_url: Option<String>,
    pub account: Option<String>,
    pub dm_allowed_users: Vec<String>,
    pub group_ids: Vec<String>,
    pub group_allowed_users: Vec<String>,
    pub ignore_stories: bool,
}

/// `[messaging.signal]`.
#[derive(PartialEq, Eq)]
pub struct TomlSignalConfig {
    pub enabled: bool,
    pub http_url: Option<String>,
    pub account: Option<String>,
    pub instances: Vec<TomlSignalInstanceConfig>,
    pub dm_allowed_users: Vec<String>,
    pub group_ids: Vec<String>,
    pub group_allowed_users: Vec<String>,
    pub ignore_stories: bool,
}

/// `[messaging]`.
#[derive(PartialEq, Eq)]
pub struct TomlMessagingConfig {
    pub discord: Option<TomlDiscordConfig>,
    pub slack: Option<TomlSlackConfig>,
    pub telegram: Option<TomlTelegramConfig>,
    pub email: Option<TomlEmailConfig>,
    pub webhook: Option<TomlWebhookConfig>,
    pub twitch: Option<TomlTwitchConfig>,
    pub signal: Option<TomlSignalConfig>,
}

/// `[llm.providers.<id>]`.
#[derive(PartialEq, Eq)]
pub struct TomlProviderConfig {
    pub api_type: ApiType,
    pub base_url: String,
    pub api_key: String,
    pub name: Option<String>,
}

/// `[llm]`.
#[derive(PartialEq, Eq)]
pub struct TomlLlmConfig {
    pub anthropic_key: Option<String>,
    pub openai_key: Option<String>,
    pub openrouter_key: Option<String>,
    pub kilo_key: Option<String>,
    pub zhipu_key: Option<String>,
    pub groq_key: Option<String>,
    pub together_key: Option<String>,
    pub fireworks_key: Option<String>,
    pub deepseek_key: Option<String>,
    pub xai_key: Option<String>,
    pub mistral_key: Option<String>,
    pub gemini_key: Option<String>,
    pub ollama_key: Option<String>,
    pub ollama_base_url: Option<String>,
    pub opencode_zen_key: Option<String>,
    pub opencode_go_key: Option<String>,
    pub nvidia_key: Option<String>,
    pub minimax_key: Option<String>,
    pub minimax_cn_key: Option<String>,
    pub moonshot_key: Option<String>,
    pub zai_coding_plan_key: Option<String>,
    pub github_copilot_key: Option<String>,
    /// The providers, each with its id, in the order in which they are taken in.
    pub providers: Vec<(String, TomlProviderConfig)>,
}

/// `[defaults]`.
#[derive(PartialEq, Eq)]
pub struct TomlDefaultsConfig {
    pub routing: Option<TomlRoutingConfig>,
    pub max_concurrent_branches: Option<usize>,
    pub max_concurrent_workers: Option<usize>,
    pub max_turns: Option<usize>,
    pub branch_max_turns: Option<usize>,
    pub context_window: Option<usize>,
    pub compaction: Option<TomlCompactionConfig>,
    pub memory_persistence: Option<TomlMemoryPersistenceConfig>,
    pub coalesce: Option<TomlCoalesceConfig>,
    pub ingestion: Option<TomlIngestionConfig>,
    pub cortex: Option<TomlCortexConfig>,
    pub warmup: Option<TomlWarmupConfig>,
    pub browser: Option<TomlBrowserConfig>,
    pub channel: Option<TomlChannelConfig>,
    pub mcp: Vec<TomlMcpServerConfig>,
    pub brave_search_key: Option<String>,
    pub cron_timezone: Option<String>,
    pub user_timezone: Option<String>,
    pub opencode: Option<TomlOpenCodeConfig>,
    pub worker_log_mode: Option<String>,
    pub projects: Option<TomlProjectsConfig>,
}

/// `[[agents.cron]]`.
#[derive(Debug, PartialEq, Eq)]
pub struct TomlCronDef {
    pub id: String,
    pub prompt: String,
    pub cron_expr: Option<String>,
    pub interval_secs: Option<u64>,
    pub delivery_target: String,
    pub active_start_hour: Option<u8>,
    pub active_end_hour: Option<u8>,
    pub enabled: bool,
    pub run_once: bool,
    pub timeout_secs: Option<u64>,
}

/// `[[agents]]`.
#[derive(PartialEq, Eq)]
pub struct TomlAgentConfig {
    pub id: String,
    pub default: bool,
    pub display_name: Option<String>,
    pub role: Option<String>,
    pub gradient_start: Option<String>,
    pub gradient_end: Option<String>,
    pub workspace: Option<String>,
    pub routing: Option<TomlRoutingConfig>,
    pub max_concurrent_branches: Option<usize>,
    pub max_concurrent_workers: Option<usize>,
    pub max_turns: Option<usize>,
    pub branch_max_turns: Option<usize>,
    pub context_window: Option<usize>,
    pub compaction: Option<TomlCompactionConfig>,
    pub memory_persistence: Option<TomlMemoryPersistenceConfig>,
    pub coalesce: Option<TomlCoalesceConfig>,
    pub ingestion: Option<TomlIngestionConfig>,
    pub cortex: Option<TomlCortexConfig>,
    pub warmup: Option<TomlWarmupConfig>,
    pub browser: Option<TomlBrowserConfig>,
    pub channel: Option<TomlChannelConfig>,
    pub mcp: Option<Vec<TomlMcpServerConfig>>,
    pub brave_search_key: Option<String>,
    pub cron_timezone: Option<String>,
    pub user_timezone: Option<String>,
    pub sandbox: Option<SandboxConfig>,
    pub projects: Option<TomlProjectsConfig>,
    pub cron: Vec<TomlCronDef>,
}

/// `[[bindings]]`.
#[derive(Debug, PartialEq, Eq)]
pub struct TomlBinding {
    pub agent_id: String,
    pub channel: String,
    pub adapter: Option<String>,
    pub guild_id: Option<String>,
    pub workspace_id: Option<String>,
    pub chat_id: Option<String>,
    pub channel_ids: Vec<String>,
    pub require_mention: bool,
    pub dm_allowed_users: Vec<String>,
}

/// `[api]`.
#[derive(PartialEq, Eq)]
pub struct TomlApiConfig {
    pub enabled: bool,
    pub port: u16,
    pub bind: String,
    pub auth_token: Option<String>,
}

/// `[metrics]`.
#[derive(Debug, PartialEq, Eq)]
pub struct TomlMetricsConfig {
    pub enabled: bool,
    pub port: u16,
    pub bind: String,
}

/// `[telemetry]`.
#[derive(PartialEq, Eq)]
pub struct TomlTelemetryConfig {
    pub otlp_endpoint: Option<String>,
    pub otlp_headers: Option<String>,
    pub service_name: Option<String>,
    pub sample_rate: Option<Double>,
}

/// `[[links]]`.
#[derive(Debug, PartialEq, Eq)]
pub struct TomlLinkDef {
    pub from: String,
    pub to: String,
    pub direction: String,
    pub kind: String,
    /// An older name for `kind`.
    pub relationship: Option<String>,
}

/// `[[groups]]`.
#[derive(Debug, PartialEq, Eq)]
pub struct TomlGroupDef {
    pub name: String,
    pub agent_ids: Vec<String>,
    pub color: Option<String>,
}

/// `[[humans]]`.
#[derive(Debug, PartialEq, Eq)]
pub struct TomlHumanDef {
    pub id: String,
    pub display_name: Option<String>,
    pub role: Option<String>,
    pub bio: Option<String>,
    pub discord_id: Option<String>,
    pub telegram_id: Option<String>,
    pub slack_id: Option<String>,
    pub email: Option<String>,
}

/// The whole file.
#[derive(PartialEq, Eq)]
pub struct TomlConfig {
    pub llm: TomlLlmConfig,
    pub defaults: TomlDefaultsConfig,
    pub agents: Vec<TomlAgentConfig>,
    pub links: Vec<TomlLinkDef>,
    pub groups: Vec<TomlGroupDef>,
    pub humans: Vec<TomlHumanDef>,
    pub messaging: TomlMessagingConfig,
    pub bindings: Vec<TomlBinding>,
    pub api: TomlApiConfig,
    pub metrics: TomlMetricsConfig,
    pub telemetry: TomlTelemetryConfig,
}

} // verus!
