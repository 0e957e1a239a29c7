//! Messaging platforms: credentials and rules of each, and of their named instances.
use crate::text;
use crate::views;
use vstd::prelude::*;

verus! {

/// A named Discord bot.
#[derive(PartialEq, Eq)]
pub struct DiscordInstanceConfig {
    pub name: String,
    pub enabled: bool,
    pub token: String,
    /// User IDs allowed to DM this bot instance.
    pub dm_allowed_users: Vec<String>,
    /// Whether this bot instance processes messages from other bots.
    pub allow_bot_messages: bool,
}

/// The view of a [`DiscordInstanceConfig`].
#[verifier::ext_equal]
pub struct DiscordInstanceView {
    pub name: Seq<char>,
    pub enabled: bool,
    pub token: Seq<char>,
    pub dm_allowed_users: Seq<Seq<char>>,
    pub allow_bot_messages: bool,
}

impl View for DiscordInstanceConfig {
    type V = DiscordInstanceView;

    open spec fn view(&self) -> DiscordInstanceView {
        DiscordInstanceView {
            name: self.name@,
            enabled: self.enabled,
            token: self.token@,
            dm_allowed_users: text::views(self.dm_allowed_users@),
            allow_bot_messages: self.allow_bot_messages,
        }
    }
}

/// Discord credentials and rules.
#[derive(PartialEq, Eq)]
pub struct DiscordConfig {
    pub enabled: bool,
    pub token: String,
    /// Additional named Discord bot instances for this platform.
    pub instances: Vec<DiscordInstanceConfig>,
    /// User IDs allowed to DM the bot. If empty, DMs are ignored entirely.
    pub dm_allowed_users: Vec<String>,
    /// Whether to process messages from other bots (self-messages are always ignored).
    pub allow_bot_messages: bool,
}

/// The view of a [`DiscordConfig`].
#[verifier::ext_equal]
pub struct DiscordView {
    pub enabled: bool,
    pub token: Seq<char>,
    pub instances: Seq<DiscordInstanceView>,
    pub dm_allowed_users: Seq<Seq<char>>,
    pub allow_bot_messages: bool,
}

impl View for DiscordConfig {
    type V = DiscordView;

    open spec fn view(&self) -> DiscordView {
        DiscordView {
            enabled: self.enabled,
            token: self.token@,
            instances: views::list(self.instances@),
            dm_allowed_users: text::views(self.dm_allowed_users@),
            allow_bot_messages: self.allow_bot_messages,
        }
    }
}

/// A single slash command definition for the Slack adapter.
///
/// Maps a Slack slash command (e.g. `/ask`) to a target agent.
/// Commands not listed here are acknowledged but produce a "not configured" reply.
#[derive(Debug, PartialEq, Eq)]
pub struct SlackCommandConfig {
    /// The slash command string exactly as Slack sends it, e.g. `"/ask"`.
    pub command: String,
    /// ID of the agent that should handle this command.
    pub agent_id: String,
    /// Short description shown in Slack's command autocomplete hint (optional).
    pub description: Option<String>,
}

/// The view of a [`SlackCommandConfig`].
#[verifier::ext_equal]
pub struct SlackCommandView {
    pub command: Seq<char>,
    pub agent_id: Seq<char>,
    pub description: Option<Seq<char>>,
}

impl View for SlackCommandConfig {
    type V = SlackCommandView;

    open spec fn view(&self) -> SlackCommandView {
        SlackCommandView {
            command: self.command@,
            agent_id: self.agent_id@,
            description: text::view_of(self.description),
        }
    }
}

/// A named Slack app.
#[derive(PartialEq, Eq)]
pub struct SlackInstanceConfig {
    pub name: String,
    pub enabled: bool,
    pub bot_token: String,
    pub app_token: String,
    /// User IDs allowed to DM this app instance.
    pub dm_allowed_users: Vec<String>,
    /// Slash command definitions for this app instance.
    pub commands: Vec<SlackCommandConfig>,
}

/// The view of a [`SlackInstanceConfig`].
#[verifier::ext_equal]
pub struct SlackInstanceView {
    pub name: Seq<char>,
    pub enabled: bool,
    pub bot_token: Seq<char>,
    pub app_token: Seq<char>,
    pub dm_allowed_users: Seq<Seq<char>>,
    pub commands: Seq<SlackCommandView>,
}

impl View for SlackInstanceConfig {
    type V = SlackInstanceView;

    open spec fn view(&self) -> SlackInstanceView {
        SlackInstanceView {
            name: self.name@,
            enabled: self.enabled,
            bot_token: self.bot_token@,
            app_token: self.app_token@,
            dm_allowed_users: text::views(self.dm_allowed_users@),
            commands: views::list(self.commands@),
        }
    }
}

/// Slack credentials and rules.
#[derive(PartialEq, Eq)]
pub struct SlackConfig {
    pub enabled: bool,
    pub bot_token: String,
    pub app_token: String,
    /// Additional named Slack app instances for this platform.
    pub instances: Vec<SlackInstanceConfig>,
    /// User IDs allowed to DM the bot. If empty, DMs are ignored entirely.
    pub dm_allowed_users: Vec<String>,
    /// Slash command definitions. If empty, all slash commands are ignored.
    pub commands: Vec<SlackCommandConfig>,
}

/// The view of a [`SlackConfig`].
#[verifier::ext_equal]
pub struct SlackView {
    pub enabled: bool,
    pub bot_token: Seq<char>,
    pub app_token: Seq<char>,
    pub instances: Seq<SlackInstanceView>,
    pub dm_allowed_users: Seq<Seq<char>>,
    pub commands: Seq<SlackCommandView>,
}

impl View for SlackConfig {
    type V = SlackView;

    open spec fn view(&self) -> SlackView {
        SlackView {
            enabled: self.enabled,
            bot_token: self.bot_token@,
            app_token: self.app_token@,
            instances: views::list(self.instances@),
            dm_allowed_users: text::views(self.dm_allowed_users@),
            commands: views::list(self.commands@),
        }
    }
}

/// A named Telegram bot.
#[derive(PartialEq, Eq)]
pub struct TelegramInstanceConfig {
    pub name: String,
    pub enabled: bool,
    pub token: String,
    /// User IDs allowed to DM this bot instance.
    pub dm_allowed_users: Vec<String>,
}

/// The view of a [`TelegramInstanceConfig`].
#[verifier::ext_equal]
pub struct TelegramInstanceView {
    pub name: Seq<char>,
    pub enabled: bool,
    pub token: Seq<char>,
    pub dm_allowed_users: Seq<Seq<char>>,
}

impl View for TelegramInstanceConfig {
    type V = TelegramInstanceView;

    open spec fn view(&self) -> TelegramInstanceView {
        TelegramInstanceView {
            name: self.name@,
            enabled: self.enabled,
            token: self.token@,
            dm_allowed_users: text::views(self.dm_allowed_users@),
        }
    }
}

/// Telegram credentials and rules.
#[derive(PartialEq, Eq)]
pub struct TelegramConfig {
    pub enabled: bool,
    pub token: String,
    /// Additional named Telegram bot instances for this platform.
    pub instances: Vec<TelegramInstanceConfig>,
    /// User IDs allowed to DM the bot. If empty, DMs are ignored entirely.
    pub dm_allowed_users: Vec<String>,
}

/// The view of a [`TelegramConfig`].
#[verifier::ext_equal]
pub struct TelegramView {
    pub enabled: bool,
    pub token: Seq<char>,
    pub instances: Seq<TelegramInstanceView>,
    pub dm_allowed_users: Seq<Seq<char>>,
}

impl View for TelegramConfig {
    type V = TelegramView;

    open spec fn view(&self) -> TelegramView {
        TelegramView {
            enabled: self.enabled,
            token: self.token@,
            instances: views::list(self.instances@),
            dm_allowed_users: text::views(self.dm_allowed_users@),
        }
    }
}

/// Per-instance config for a named email adapter.
#[derive(PartialEq, Eq)]
pub struct EmailInstanceConfig {
    pub name: String,
    pub enabled: bool,
    pub imap_host: String,
    pub imap_port: u16,
    pub imap_username: String,
    pub imap_password: String,
    pub imap_use_tls: bool,
    pub smtp_host: String,
    pub smtp_port: u16,
    pub smtp_username: String,
    pub smtp_password: String,
    pub smtp_use_starttls: bool,
    pub from_address: String,
    pub from_name: Option<String>,
    pub poll_interval_secs: u64,
    pub folders: Vec<String>,
    pub allowed_senders: Vec<String>,
    pub max_body_bytes: usize,
    pub max_attachment_bytes: usize,
}

/// The view of an [`EmailInstanceConfig`].
#[verifier::ext_equal]
pub struct EmailInstanceView {
    pub name: Seq<char>,
    pub enabled: bool,
    pub imap_host: Seq<char>,
    pub imap_port: u16,
    pub imap_username: Seq<char>,
    pub imap_password: Seq<char>,
    pub imap_use_tls: bool,
    pub smtp_host: Seq<char>,
    pub smtp_port: u16,
    pub smtp_username: Seq<char>,
    pub smtp_password: Seq<char>,
    pub smtp_use_starttls: bool,
    pub from_address: Seq<char>,
    pub from_name: Option<Seq<char>>,
    pub poll_interval_secs: u64,
    pub folders: Seq<Seq<char>>,
    pub allowed_senders: Seq<Seq<char>>,
    pub max_body_bytes: usize,
    pub max_attachment_bytes: usize,
}

impl View for EmailInstanceConfig {
    type V = EmailInstanceView;

    open spec fn view(&self) -> EmailInstanceView {
        EmailInstanceView {
            name: self.name@,
            enabled: self.enabled,
            imap_host: self.imap_host@,
            imap_port: self.imap_port,
            imap_username: self.imap_username@,
            imap_password: self.imap_password@,
            imap_use_tls: self.imap_use_tls,
            smtp_host: self.smtp_host@,
            smtp_port: self.smtp_port,
            smtp_username: self.smtp_username@,
            smtp_password: self.smtp_password@,
            smtp_use_starttls: self.smtp_use_starttls,
            from_address: self.from_address@,
            from_name: text::view_of(self.from_name),
            poll_interval_secs: self.poll_interval_secs,
            folders: text::views(self.folders@),
            allowed_senders: text::views(self.allowed_senders@),
            max_body_bytes: self.max_body_bytes,
            max_attachment_bytes: self.max_attachment_bytes,
        }
    }
}

/// Email credentials and rules.
#[derive(PartialEq, Eq)]
pub struct EmailConfig {
    pub enabled: bool,
    pub imap_host: String,
    pub imap_port: u16,
    pub imap_username: String,
    pub imap_password: String,
    pub imap_use_tls: bool,
    pub smtp_host: String,
    pub smtp_port: u16,
    pub smtp_username: String,
    pub smtp_password: String,
    pub smtp_use_starttls: bool,
    pub from_address: String,
    pub from_name: Option<String>,
    pub poll_interval_secs: u64,
    pub folders: Vec<String>,
    pub allowed_senders: Vec<String>,
    pub max_body_bytes: usize,
    pub max_attachment_bytes: usize,
    pub instances: Vec<EmailInstanceConfig>,
}

/// The view of an [`EmailConfig`].
#[verifier::ext_equal]
pub struct EmailView {
    pub enabled: bool,
    pub imap_host: Seq<char>,
    pub imap_port: u16,
    pub imap_username: Seq<char>,
    pub imap_password: Seq<char>,
    pub imap_use_tls: bool,
    pub smtp_host: Seq<char>,
    pub smtp_port: u16,
    pub smtp_username: Seq<char>,
    pub smtp_password: Seq<char>,
    pub smtp_use_starttls: bool,
    pub from_address: Seq<char>,
    pub from_name: Option<Seq<char>>,
    pub poll_interval_secs: u64,
    pub folders: Seq<Seq<char>>,
    pub allowed_senders: Seq<Seq<char>>,
    pub max_body_bytes: usize,
    pub max_attachment_bytes: usize,
    pub instances: Seq<EmailInstanceView>,
}

impl View for EmailConfig {
    type V = EmailView;

    open spec fn view(&self) -> EmailView {
        EmailView {
            enabled: self.enabled,
            imap_host: self.imap_host@,
            imap_port: self.imap_port,
            imap_username: self.imap_username@,
            imap_password: self.imap_password@,
            imap_use_tls: self.imap_use_tls,
            smtp_host: self.smtp_host@,
            smtp_port: self.smtp_port,
            smtp_username: self.smtp_username@,
            smtp_password: self.smtp_password@,
            smtp_use_starttls: self.smtp_use_starttls,
            from_address: self.from_address@,
            from_name: text::view_of(self.from_name),
            poll_interval_secs: self.poll_interval_secs,
            folders: text::views(self.folders@),
            allowed_senders: text::views(self.allowed_senders@),
            max_body_bytes: self.max_body_bytes,
            max_attachment_bytes: self.max_attachment_bytes,
            instances: views::list(self.instances@),
        }
    }
}

/// A named Twitch bot.
#[derive(PartialEq, Eq)]
pub struct TwitchInstanceConfig {
    pub name: String,
    pub enabled: bool,
    pub username: String,
    pub oauth_token: String,
    pub client_id: Option<String>,
    pub client_secret: Option<String>,
    pub refresh_token: Option<String>,
    /// Channels to join (without the # prefix).
    pub channels: Vec<String>,
    /// Optional prefix that triggers the bot for this instance.
    pub trigger_prefix: Option<String>,
}

/// The view of a [`TwitchInstanceConfig`].
#[verifier::ext_equal]
pub struct TwitchInstanceView {
    pub name: Seq<char>,
    pub enabled: bool,
    pub username: Seq<char>,
    pub oauth_token: Seq<char>,
    pub client_id: Option<Seq<char>>,
    pub client_secret: Option<Seq<char>>,
    pub refresh_token: Option<Seq<char>>,
    pub channels: Seq<Seq<char>>,
    pub trigger_prefix: Option<Seq<char>>,
}

impl View for TwitchInstanceConfig {
    type V = TwitchInstanceView;

    open spec fn view(&self) -> TwitchInstanceView {
        TwitchInstanceView {
            name: self.name@,
            enabled: self.enabled,
            username: self.username@,
            oauth_token: self.oauth_token@,
            client_id: text::view_of(self.client_id),
            client_secret: text::view_of(self.client_secret),
            refresh_token: text::view_of(self.refresh_token),
            channels: text::views(self.channels@),
            trigger_prefix: text::view_of(self.trigger_prefix),
        }
    }
}

/// Twitch credentials and rules.
#[derive(PartialEq, Eq)]
pub struct TwitchConfig {
    pub enabled: bool,
    pub username: String,
    pub oauth_token: String,
    pub client_id: Option<String>,
    pub client_secret: Option<String>,
    pub refresh_token: Option<String>,
    /// Additional named Twitch bot instances for this platform.
    pub instances: Vec<TwitchInstanceConfig>,
    /// Channels to join (without the # prefix).
    pub channels: Vec<String>,
    /// Optional prefix that triggers the bot (e.g. "!ask"). If empty, all messages are
    /// processed.
    pub trigger_prefix: Option<String>,
}

/// The view of a [`TwitchConfig`].
#[verifier::ext_equal]
pub struct TwitchView {
    pub enabled: bool,
    pub username: Seq<char>,
    pub oauth_token: Seq<char>,
    pub client_id: Option<Seq<char>>,
    pub client_secret: Option<Seq<char>>,
    pub refresh_token: Option<Seq<char>>,
    pub instances: Seq<TwitchInstanceView>,
    pub channels: Seq<Seq<char>>,
    pub trigger_prefix: Option<Seq<char>>,
}

impl View for TwitchConfig {
    type V = TwitchView;

    open spec fn view(&self) -> TwitchView {
        TwitchView {
            enabled: self.enabled,
            username: self.username@,
            oauth_token: self.oauth_token@,
            client_id: text::view_of(self.client_id),
            client_secret: text::view_of(self.client_secret),
            refresh_token: text::view_of(self.refresh_token),
            instances: views::list(self.instances@),
            channels: text::views(self.channels@),
            trigger_prefix: text::view_of(self.trigger_prefix),
        }
    }
}

/// Webhook endpoint.
#[derive(Debug, PartialEq, Eq)]
pub struct WebhookConfig {
    pub enabled: bool,
    pub port: u16,
    pub bind: String,
    pub auth_token: Option<String>,
}

/// The view of a [`WebhookConfig`].
#[verifier::ext_equal]
pub struct WebhookView {
    pub enabled: bool,
    pub port: u16,
    pub bind: Seq<char>,
    pub auth_token: Option<Seq<char>>,
}

impl View for WebhookConfig {
    type V = WebhookView;

    open spec fn view(&self) -> WebhookView {
        WebhookView {
            enabled: self.enabled,
            port: self.port,
            bind: self.bind@,
            auth_token: text::view_of(self.auth_token),
        }
    }
}

/// Per-instance config for a named Signal adapter.
#[derive(PartialEq, Eq)]
pub struct SignalInstanceConfig {
    pub name: String,
    pub enabled: bool,
    /// Base URL of this instance's signal-cli daemon.
    pub http_url: String,
    /// E.164 phone number for this instance's Signal account.
    pub account: String,
    /// Phone numbers or UUIDs allowed to DM the bot. If empty, DMs are ignored.
    pub dm_allowed_users: Vec<String>,
    /// Group IDs allowed for this adapter. If empty, all groups are blocked.
    pub group_ids: Vec<String>,
    /// User IDs allowed to message in Signal groups.
    pub group_allowed_users: Vec<String>,
    /// Whether to silently drop story messages.
    pub ignore_stories: bool,
}

/// The view of a [`SignalInstanceConfig`].
#[verifier::ext_equal]
pub struct SignalInstanceView {
    pub name: Seq<char>,
    pub enabled: bool,
    pub http_url: Seq<char>,
    pub account: Seq<char>,
    pub dm_allowed_users: Seq<Seq<char>>,
    pub group_ids: Seq<Seq<char>>,
    pub group_allowed_users: Seq<Seq<char>>,
    pub ignore_stories: bool,
}

impl View for SignalInstanceConfig {
    type V = SignalInstanceView;

    open spec fn view(&self) -> SignalInstanceView {
        SignalInstanceView {
            name: self.name@,
            enabled: self.enabled,
            http_url: self.http_url@,
            account: self.account@,
            dm_allowed_users: text::views(self.dm_allowed_users@),
            group_ids: text::views(self.group_ids@),
            group_allowed_users: text::views(self.group_allowed_users@),
            ignore_stories: self.ignore_stories,
        }
    }
}

/// Signal messaging via signal-cli JSON-RPC daemon.
#[derive(PartialEq, Eq)]
pub struct SignalConfig {
    pub enabled: bool,
    /// Base URL of the signal-cli JSON-RPC HTTP daemon (e.g. `http://127.0.0.1:8686`).
    /// May contain embedded credentials.
    pub http_url: String,
    /// E.164 phone number of the bot's Signal account (e.g. `+1234567890`).
    pub account: String,
    /// Additional named Signal adapter instances.
    pub instances: Vec<SignalInstanceConfig>,
    /// Phone numbers or UUIDs allowed to DM the bot. If empty, DMs are ignored.
    pub dm_allowed_users: Vec<String>,
    /// Group IDs allowed for this adapter. If empty, all groups are blocked.
    pub group_ids: Vec<String>,
    /// User IDs allowed to message in Signal groups.
    pub group_allowed_users: Vec<String>,
    /// Whether to silently drop story messages.
    pub ignore_stories: bool,
}

/// The view of a [`SignalConfig`].
#[verifier::ext_equal]
pub struct SignalView {
    pub enabled: bool,
    pub http_url: Seq<char>,
    pub account: Seq<char>,
    pub instances: Seq<SignalInstanceView>,
    pub dm_allowed_users: Seq<Seq<char>>,
    pub group_ids: Seq<Seq<char>>,
    pub group_allowed_users: Seq<Seq<char>>,
    pub ignore_stories: bool,
}

impl View for SignalConfig {
    type V = SignalView;

    open spec fn view(&self) -> SignalView {
        SignalView {
            enabled: self.enabled,
            http_url: self.http_url@,
            account: self.account@,
            instances: views::list(self.instances@),
            dm_allowed_users: text::views(self.dm_allowed_users@),
            group_ids: text::views(self.group_ids@),
            group_allowed_users: text::views(self.group_allowed_users@),
            ignore_stories: self.ignore_stories,
        }
    }
}

/// Messaging platform credentials (instance-level).
#[derive(PartialEq, Eq)]
pub struct MessagingConfig {
    pub discord: Option<DiscordConfig>,
    pub slack: Option<SlackConfig>,
    pub telegram: Option<TelegramConfig>,
    pub email: Option<EmailConfig>,
    pub webhook: Option<WebhookConfig>,
    pub twitch: Option<TwitchConfig>,
    pub signal: Option<SignalConfig>,
}

/// The view of a [`MessagingConfig`].
#[verifier::ext_equal]
pub struct MessagingView {
    pub discord: Option<DiscordView>,
    pub slack: Option<SlackView>,
    pub telegram: Option<TelegramView>,
    pub email: Option<EmailView>,
    pub webhook: Option<WebhookView>,
    pub twitch: Option<TwitchView>,
    pub signal: Option<SignalView>,
}

impl View for MessagingConfig {
    type V = MessagingView;

    open spec fn view(&self) -> MessagingView {
        MessagingView {
            discord: views::optional(self.discord),
            slack: views::optional(self.slack),
            telegram: views::optional(self.telegram),
            email: views::optional(self.email),
            webhook: views::optional(self.webhook),
            twitch: views::optional(self.twitch),
            signal: views::optional(self.signal),
        }
    }
}

impl Default for MessagingConfig {
    fn default() -> (config: MessagingConfig)
        ensures
            config == (MessagingConfig {
                discord: None,
                slack: None,
                telegram: None,
                email: None,
                webhook: None,
                twitch: None,
                signal: None,
            }),
    {
        MessagingConfig {
            discord: None,
            slack: None,
            telegram: None,
            email: None,
            webhook: None,
            twitch: None,
            signal: None,
        }
    }
}

} // verus!
