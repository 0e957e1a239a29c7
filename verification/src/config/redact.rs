//! What may be shown of a configuration: everything but its secrets.
use crate::config::agent::{DefaultsConfig, DefaultsView};
use crate::config::messaging::{
    DiscordConfig, DiscordInstanceConfig, DiscordInstanceView, DiscordView, EmailConfig,
    EmailInstanceConfig, EmailInstanceView, EmailView, SignalConfig, SignalInstanceConfig,
    SignalInstanceView, SignalView, SlackCommandConfig, SlackCommandView, SlackConfig,
    SlackInstanceConfig, SlackInstanceView, SlackView, TelegramConfig, TelegramInstanceConfig,
    TelegramInstanceView, TelegramView, TwitchConfig, TwitchInstanceConfig, TwitchInstanceView,
    TwitchView,
};
use crate::config::provider::{ApiType, LlmConfig, ProviderConfig, ProviderView};
use crate::string_map;
use crate::string_map::StringMap;
use crate::text;
use crate::views;
use vstd::prelude::*;

verus! {

/// What is shown of a value.
#[derive(Debug, PartialEq, Eq)]
pub enum Shown {
    Flag(bool),
    Number(u64),
    Text(String),
    OptionalText(Option<String>),
    Texts(Vec<String>),
    Api(ApiType),
    /// The value itself, as it is.
    AsItIs,
    /// `[REDACTED]` in place of the value.
    Redacted,
    /// `[REDACTED]` in place of the value, where there is one.
    OptionalRedacted(bool),
    /// Slash commands, as they are.
    Commands(Vec<SlackCommandConfig>),
}

/// The view of a [`Shown`] value.
#[verifier::ext_equal]
pub enum ShownView {
    Flag(bool),
    Number(u64),
    Text(Seq<char>),
    OptionalText(Option<Seq<char>>),
    Texts(Seq<Seq<char>>),
    Api(ApiType),
    AsItIs,
    Redacted,
    OptionalRedacted(bool),
    Commands(Seq<SlackCommandView>),
}

impl View for Shown {
    type V = ShownView;

    open spec fn view(&self) -> ShownView {
        match self {
            Shown::Flag(b) => ShownView::Flag(*b),
            Shown::Number(n) => ShownView::Number(*n),
            Shown::Text(t) => ShownView::Text(t@),
            Shown::OptionalText(t) => ShownView::OptionalText(text::view_of(*t)),
            Shown::Texts(list) => ShownView::Texts(text::views(list@)),
            Shown::Api(api_type) => ShownView::Api(*api_type),
            Shown::AsItIs => ShownView::AsItIs,
            Shown::Redacted => ShownView::Redacted,
            Shown::OptionalRedacted(b) => ShownView::OptionalRedacted(*b),
            Shown::Commands(list) => ShownView::Commands(views::list(list@)),
        }
    }
}

/// What is shown of a field.
#[derive(Debug, PartialEq, Eq)]
pub struct ShownField {
    pub name: &'static str,
    pub value: Shown,
}

impl View for ShownField {
    type V = (Seq<char>, ShownView);

    open spec fn view(&self) -> (Seq<char>, ShownView) {
        (self.name@, self.value@)
    }
}

/// What is shown of an instance or a provider.
#[derive(Debug, PartialEq, Eq)]
pub struct ShownRecord {
    pub fields: Vec<ShownField>,
}

impl View for ShownRecord {
    type V = Seq<(Seq<char>, ShownView)>;

    open spec fn view(&self) -> Seq<(Seq<char>, ShownView)> {
        views::list(self.fields@)
    }
}

/// What is shown of a platform: its own fields, and its instances where they are
/// shown.
#[derive(Debug, PartialEq, Eq)]
pub struct ShownPlatform {
    pub fields: Vec<ShownField>,
    pub instances: Vec<ShownRecord>,
}

/// The view of a [`ShownPlatform`].
#[verifier::ext_equal]
pub struct ShownPlatformView {
    pub fields: Seq<(Seq<char>, ShownView)>,
    pub instances: Seq<Seq<(Seq<char>, ShownView)>>,
}

impl View for ShownPlatform {
    type V = ShownPlatformView;

    open spec fn view(&self) -> ShownPlatformView {
        ShownPlatformView {
            fields: views::list(self.fields@),
            instances: views::list(self.instances@),
        }
    }
}

/// What is shown of a text.
fn text_field(name: &'static str, value: &String) -> (field: ShownField)
    ensures
        field@ == (name@, ShownView::Text(value@)),
{
    ShownField { name, value: Shown::Text(value.clone()) }
}

/// What is shown of an optional text.
fn optional_field(name: &'static str, value: &Option<String>) -> (field: ShownField)
    ensures
        field@ == (name@, ShownView::OptionalText(text::view_of(*value))),
{
    ShownField { name, value: Shown::OptionalText(value.clone()) }
}

/// What is shown of a list of texts.
fn texts_field(name: &'static str, value: &Vec<String>) -> (field: ShownField)
    ensures
        field@ == (name@, ShownView::Texts(text::views(value@))),
{
    ShownField { name, value: Shown::Texts(string_map::duplicate_texts(value)) }
}

/// What is shown of a truth value.
fn flag_field(name: &'static str, value: bool) -> (field: ShownField)
    ensures
        field@ == (name@, ShownView::Flag(value)),
{
    ShownField { name, value: Shown::Flag(value) }
}

/// What is shown of a number.
fn number_field(name: &'static str, value: u64) -> (field: ShownField)
    ensures
        field@ == (name@, ShownView::Number(value)),
{
    ShownField { name, value: Shown::Number(value) }
}

/// What is shown of a secret.
fn redacted_field(name: &'static str) -> (field: ShownField)
    ensures
        field@ == (name@, ShownView::Redacted),
{
    ShownField { name, value: Shown::Redacted }
}

/// What is shown of an optional secret.
fn optional_redacted_field(name: &'static str, value: &Option<String>) -> (field: ShownField)
    ensures
        field@ == (name@, ShownView::OptionalRedacted(text::view_of(*value) is Some)),
{
    ShownField { name, value: Shown::OptionalRedacted(value.is_some()) }
}

/// What is shown of a value that is shown as it is.
fn plain_field(name: &'static str) -> (field: ShownField)
    ensures
        field@ == (name@, ShownView::AsItIs),
{
    ShownField { name, value: Shown::AsItIs }
}

/// What is shown of slash commands.
fn commands_field(name: &'static str, commands: &Vec<SlackCommandConfig>) -> (field: ShownField)
    ensures
        field@ == (name@, ShownView::Commands(views::list(commands@))),
{
    let mut list: Vec<SlackCommandConfig> = Vec::new();
    let mut i: usize = 0;
    while i < commands.len()
        invariant
            i <= commands@.len(),
            list@.len() == i,
            forall|j: int| 0 <= j < i ==> (#[trigger] list@[j])@ == commands@[j]@,
        decreases commands@.len() - i,
    {
        list.push(
            SlackCommandConfig {
                command: commands[i].command.clone(),
                agent_id: commands[i].agent_id.clone(),
                description: commands[i].description.clone(),
            },
        );
        i += 1;
    }
    proof {
        assert(views::list(list@) =~= views::list(commands@));
    }
    ShownField { name, value: Shown::Commands(list) }
}

/// What is shown of a named Discord bot.
pub open spec fn discord_instance_shown(c: DiscordInstanceView) -> Seq<(Seq<char>, ShownView)> {
    seq![
        ("name"@, ShownView::Text(c.name)),
        ("enabled"@, ShownView::Flag(c.enabled)),
        ("token"@, ShownView::Redacted),
        ("dm_allowed_users"@, ShownView::Texts(c.dm_allowed_users)),
        ("allow_bot_messages"@, ShownView::Flag(c.allow_bot_messages)),
    ]
}

impl DiscordInstanceConfig {
    /// What may be shown.
    pub fn shown(&self) -> (record: ShownRecord)
        ensures
            record@ == discord_instance_shown(self@),
    {
        let mut fields: Vec<ShownField> = Vec::new();
        fields.push(text_field("name", &self.name));
        fields.push(flag_field("enabled", self.enabled));
        fields.push(redacted_field("token"));
        fields.push(texts_field("dm_allowed_users", &self.dm_allowed_users));
        fields.push(flag_field("allow_bot_messages", self.allow_bot_messages));
        proof {
            assert(views::list(fields@) =~= discord_instance_shown(self@));
        }
        ShownRecord { fields }
    }
}

/// What is shown of Discord.
pub open spec fn discord_shown(c: DiscordView) -> ShownPlatformView {
    ShownPlatformView {
        fields: seq![
            ("enabled"@, ShownView::Flag(c.enabled)),
            ("token"@, ShownView::Redacted),
            ("dm_allowed_users"@, ShownView::Texts(c.dm_allowed_users)),
            ("allow_bot_messages"@, ShownView::Flag(c.allow_bot_messages)),
        ],
        instances: c.instances.map_values(|i: DiscordInstanceView| discord_instance_shown(i)),
    }
}

/// What is shown of the instances.
fn discord_instances_shown(instances: &Vec<DiscordInstanceConfig>) -> (records: Vec<ShownRecord>)
    ensures
        views::list(records@) == views::list(instances@).map_values(
            |i: DiscordInstanceView| discord_instance_shown(i),
        ),
{
    let mut records: Vec<ShownRecord> = Vec::new();
    let mut i: usize = 0;
    while i < instances.len()
        invariant
            i <= instances@.len(),
            records@.len() == i,
            forall|j: int|
                0 <= j < i ==> (#[trigger] records@[j])@ == discord_instance_shown(instances@[j]@),
        decreases instances@.len() - i,
    {
        records.push(instances[i].shown());
        i += 1;
    }
    proof {
        assert(views::list(records@) =~= views::list(instances@).map_values(
            |i: DiscordInstanceView| discord_instance_shown(i),
        ));
    }
    records
}

impl DiscordConfig {
    /// What may be shown.
    pub fn shown(&self) -> (platform: ShownPlatform)
        ensures
            platform@ == discord_shown(self@),
    {
        let mut fields: Vec<ShownField> = Vec::new();
        fields.push(flag_field("enabled", self.enabled));
        fields.push(redacted_field("token"));
        fields.push(texts_field("dm_allowed_users", &self.dm_allowed_users));
        fields.push(flag_field("allow_bot_messages", self.allow_bot_messages));
        let instances = discord_instances_shown(&self.instances);
        proof {
            assert(views::list(fields@) =~= discord_shown(self@).fields);
        }
        ShownPlatform { fields, instances }
    }
}

/// What is shown of a named Slack app.
pub open spec fn slack_instance_shown(c: SlackInstanceView) -> Seq<(Seq<char>, ShownView)> {
    seq![
        ("name"@, ShownView::Text(c.name)),
        ("enabled"@, ShownView::Flag(c.enabled)),
        ("bot_token"@, ShownView::Redacted),
        ("app_token"@, ShownView::Redacted),
        ("dm_allowed_users"@, ShownView::Texts(c.dm_allowed_users)),
        ("commands"@, ShownView::Commands(c.commands)),
    ]
}

impl SlackInstanceConfig {
    /// What may be shown.
    pub fn shown(&self) -> (record: ShownRecord)
        ensures
            record@ == slack_instance_shown(self@),
    {
        let mut fields: Vec<ShownField> = Vec::new();
        fields.push(text_field("name", &self.name));
        fields.push(flag_field("enabled", self.enabled));
        fields.push(redacted_field("bot_token"));
        fields.push(redacted_field("app_token"));
        fields.push(texts_field("dm_allowed_users", &self.dm_allowed_users));
        fields.push(commands_field("commands", &self.commands));
        proof {
            assert(views::list(fields@) =~= slack_instance_shown(self@));
        }
        ShownRecord { fields }
    }
}

/// What is shown of Slack.
pub open spec fn slack_shown(c: SlackView) -> ShownPlatformView {
    ShownPlatformView {
        fields: seq![
            ("enabled"@, ShownView::Flag(c.enabled)),
            ("bot_token"@, ShownView::Redacted),
            ("app_token"@, ShownView::Redacted),
            ("dm_allowed_users"@, ShownView::Texts(c.dm_allowed_users)),
            ("commands"@, ShownView::Commands(c.commands)),
        ],
        instances: c.instances.map_values(|i: SlackInstanceView| slack_instance_shown(i)),
    }
}

/// What is shown of the instances.
fn slack_instances_shown(instances: &Vec<SlackInstanceConfig>) -> (records: Vec<ShownRecord>)
    ensures
        views::list(records@) == views::list(instances@).map_values(
            |i: SlackInstanceView| slack_instance_shown(i),
        ),
{
    let mut records: Vec<ShownRecord> = Vec::new();
    let mut i: usize = 0;
    while i < instances.len()
        invariant
            i <= instances@.len(),
            records@.len() == i,
            forall|j: int|
                0 <= j < i ==> (#[trigger] records@[j])@ == slack_instance_shown(instances@[j]@),
        decreases instances@.len() - i,
    {
        records.push(instances[i].shown());
        i += 1;
    }
    proof {
        assert(views::list(records@) =~= views::list(instances@).map_values(
            |i: SlackInstanceView| slack_instance_shown(i),
        ));
    }
    records
}

impl SlackConfig {
    /// What may be shown.
    pub fn shown(&self) -> (platform: ShownPlatform)
        ensures
            platform@ == slack_shown(self@),
    {
        let mut fields: Vec<ShownField> = Vec::new();
        fields.push(flag_field("enabled", self.enabled));
        fields.push(redacted_field("bot_token"));
        fields.push(redacted_field("app_token"));
        fields.push(texts_field("dm_allowed_users", &self.dm_allowed_users));
        fields.push(commands_field("commands", &self.commands));
        let instances = slack_instances_shown(&self.instances);
        proof {
            assert(views::list(fields@) =~= slack_shown(self@).fields);
        }
        ShownPlatform { fields, instances }
    }
}

/// What is shown of a named Telegram bot.
pub open spec fn telegram_instance_shown(c: TelegramInstanceView) -> Seq<(Seq<char>, ShownView)> {
    seq![
        ("name"@, ShownView::Text(c.name)),
        ("enabled"@, ShownView::Flag(c.enabled)),
        ("token"@, ShownView::Redacted),
        ("dm_allowed_users"@, ShownView::Texts(c.dm_allowed_users)),
    ]
}

impl TelegramInstanceConfig {
    /// What may be shown.
    pub fn shown(&self) -> (record: ShownRecord)
        ensures
            record@ == telegram_instance_shown(self@),
    {
        let mut fields: Vec<ShownField> = Vec::new();
        fields.push(text_field("name", &self.name));
        fields.push(flag_field("enabled", self.enabled));
        fields.push(redacted_field("token"));
        fields.push(texts_field("dm_allowed_users", &self.dm_allowed_users));
        proof {
            assert(views::list(fields@) =~= telegram_instance_shown(self@));
        }
        ShownRecord { fields }
    }
}

/// What is shown of Telegram.
pub open spec fn telegram_shown(c: TelegramView) -> ShownPlatformView {
    ShownPlatformView {
        fields: seq![
            ("enabled"@, ShownView::Flag(c.enabled)),
            ("token"@, ShownView::Redacted),
            ("dm_allowed_users"@, ShownView::Texts(c.dm_allowed_users)),
        ],
        instances: c.instances.map_values(|i: TelegramInstanceView| telegram_instance_shown(i)),
    }
}

/// What is shown of the instances.
fn telegram_instances_shown(instances: &Vec<TelegramInstanceConfig>) -> (records: Vec<ShownRecord>)
    ensures
        views::list(records@) == views::list(instances@).map_values(
            |i: TelegramInstanceView| telegram_instance_shown(i),
        ),
{
    let mut records: Vec<ShownRecord> = Vec::new();
    let mut i: usize = 0;
    while i < instances.len()
        invariant
            i <= instances@.len(),
            records@.len() == i,
            forall|j: int|
                0 <= j < i ==> (#[trigger] records@[j])@ == telegram_instance_shown(instances@[j]@),
        decreases instances@.len() - i,
    {
        records.push(instances[i].shown());
        i += 1;
    }
    proof {
        assert(views::list(records@) =~= views::list(instances@).map_values(
            |i: TelegramInstanceView| telegram_instance_shown(i),
        ));
    }
    records
}

impl TelegramConfig {
    /// What may be shown.
    pub fn shown(&self) -> (platform: ShownPlatform)
        ensures
            platform@ == telegram_shown(self@),
    {
        let mut fields: Vec<ShownField> = Vec::new();
        fields.push(flag_field("enabled", self.enabled));
        fields.push(redacted_field("token"));
        fields.push(texts_field("dm_allowed_users", &self.dm_allowed_users));
        let instances = telegram_instances_shown(&self.instances);
        proof {
            assert(views::list(fields@) =~= telegram_shown(self@).fields);
        }
        ShownPlatform { fields, instances }
    }
}

/// What is shown of a named email adapter.
pub open spec fn email_instance_shown(c: EmailInstanceView) -> Seq<(Seq<char>, ShownView)> {
    seq![
        ("name"@, ShownView::Text(c.name)),
        ("enabled"@, ShownView::Flag(c.enabled)),
        ("imap_host"@, ShownView::Text(c.imap_host)),
        ("imap_port"@, ShownView::Number(c.imap_port as u64)),
        ("imap_username"@, ShownView::Redacted),
        ("imap_password"@, ShownView::Redacted),
        ("imap_use_tls"@, ShownView::Flag(c.imap_use_tls)),
        ("smtp_host"@, ShownView::Text(c.smtp_host)),
        ("smtp_port"@, ShownView::Number(c.smtp_port as u64)),
        ("smtp_username"@, ShownView::Redacted),
        ("smtp_password"@, ShownView::Redacted),
        ("smtp_use_starttls"@, ShownView::Flag(c.smtp_use_starttls)),
        ("from_address"@, ShownView::Redacted),
        ("from_name"@, ShownView::OptionalText(c.from_name)),
        ("poll_interval_secs"@, ShownView::Number(c.poll_interval_secs as u64)),
        ("folders"@, ShownView::Texts(c.folders)),
        ("allowed_senders"@, ShownView::Redacted),
        ("max_body_bytes"@, ShownView::Number(c.max_body_bytes as u64)),
        ("max_attachment_bytes"@, ShownView::Number(c.max_attachment_bytes as u64)),
    ]
}

impl EmailInstanceConfig {
    /// What may be shown.
    pub fn shown(&self) -> (record: ShownRecord)
        ensures
            record@ == email_instance_shown(self@),
    {
        let mut fields: Vec<ShownField> = Vec::new();
        fields.push(text_field("name", &self.name));
        fields.push(flag_field("enabled", self.enabled));
        fields.push(text_field("imap_host", &self.imap_host));
        fields.push(number_field("imap_port", self.imap_port as u64));
        fields.push(redacted_field("imap_username"));
        fields.push(redacted_field("imap_password"));
        fields.push(flag_field("imap_use_tls", self.imap_use_tls));
        fields.push(text_field("smtp_host", &self.smtp_host));
        fields.push(number_field("smtp_port", self.smtp_port as u64));
        fields.push(redacted_field("smtp_username"));
        fields.push(redacted_field("smtp_password"));
        fields.push(flag_field("smtp_use_starttls", self.smtp_use_starttls));
        fields.push(redacted_field("from_address"));
        fields.push(optional_field("from_name", &self.from_name));
        fields.push(number_field("poll_interval_secs", self.poll_interval_secs as u64));
        fields.push(texts_field("folders", &self.folders));
        fields.push(redacted_field("allowed_senders"));
        fields.push(number_field("max_body_bytes", self.max_body_bytes as u64));
        fields.push(number_field("max_attachment_bytes", self.max_attachment_bytes as u64));
        proof {
            assert(views::list(fields@) =~= email_instance_shown(self@));
        }
        ShownRecord { fields }
    }
}

/// What is shown of email, whose instances are not shown.
pub open spec fn email_shown(c: EmailView) -> ShownPlatformView {
    ShownPlatformView {
        fields: seq![
            ("enabled"@, ShownView::Flag(c.enabled)),
            ("imap_host"@, ShownView::Text(c.imap_host)),
            ("imap_port"@, ShownView::Number(c.imap_port as u64)),
            ("imap_username"@, ShownView::Redacted),
            ("imap_password"@, ShownView::Redacted),
            ("imap_use_tls"@, ShownView::Flag(c.imap_use_tls)),
            ("smtp_host"@, ShownView::Text(c.smtp_host)),
            ("smtp_port"@, ShownView::Number(c.smtp_port as u64)),
            ("smtp_username"@, ShownView::Redacted),
            ("smtp_password"@, ShownView::Redacted),
            ("smtp_use_starttls"@, ShownView::Flag(c.smtp_use_starttls)),
            ("from_address"@, ShownView::Redacted),
            ("from_name"@, ShownView::OptionalText(c.from_name)),
            ("poll_interval_secs"@, ShownView::Number(c.poll_interval_secs as u64)),
            ("folders"@, ShownView::Texts(c.folders)),
            ("allowed_senders"@, ShownView::Redacted),
            ("max_body_bytes"@, ShownView::Number(c.max_body_bytes as u64)),
            ("max_attachment_bytes"@, ShownView::Number(c.max_attachment_bytes as u64)),
        ],
        instances: Seq::empty(),
    }
}

impl EmailConfig {
    /// What may be shown.
    pub fn shown(&self) -> (platform: ShownPlatform)
        ensures
            platform@ == email_shown(self@),
    {
        let mut fields: Vec<ShownField> = Vec::new();
        fields.push(flag_field("enabled", self.enabled));
        fields.push(text_field("imap_host", &self.imap_host));
        fields.push(number_field("imap_port", self.imap_port as u64));
        fields.push(redacted_field("imap_username"));
        fields.push(redacted_field("imap_password"));
        fields.push(flag_field("imap_use_tls", self.imap_use_tls));
        fields.push(text_field("smtp_host", &self.smtp_host));
        fields.push(number_field("smtp_port", self.smtp_port as u64));
        fields.push(redacted_field("smtp_username"));
        fields.push(redacted_field("smtp_password"));
        fields.push(flag_field("smtp_use_starttls", self.smtp_use_starttls));
        fields.push(redacted_field("from_address"));
        fields.push(optional_field("from_name", &self.from_name));
        fields.push(number_field("poll_interval_secs", self.poll_interval_secs as u64));
        fields.push(texts_field("folders", &self.folders));
        fields.push(redacted_field("allowed_senders"));
        fields.push(number_field("max_body_bytes", self.max_body_bytes as u64));
        fields.push(number_field("max_attachment_bytes", self.max_attachment_bytes as u64));
        let instances = Vec::new();
        proof {
            assert(views::list(fields@) =~= email_shown(self@).fields);
            assert(views::list(instances@) =~= Seq::empty());
        }
        ShownPlatform { fields, instances }
    }
}

/// What is shown of a named Twitch bot.
pub open spec fn twitch_instance_shown(c: TwitchInstanceView) -> Seq<(Seq<char>, ShownView)> {
    seq![
        ("name"@, ShownView::Text(c.name)),
        ("enabled"@, ShownView::Flag(c.enabled)),
        ("username"@, ShownView::Text(c.username)),
        ("oauth_token"@, ShownView::Redacted),
        ("client_id"@, ShownView::OptionalText(c.client_id)),
        ("client_secret"@, ShownView::OptionalRedacted(c.client_secret is Some)),
        ("refresh_token"@, ShownView::OptionalRedacted(c.refresh_token is Some)),
        ("channels"@, ShownView::Texts(c.channels)),
        ("trigger_prefix"@, ShownView::OptionalText(c.trigger_prefix)),
    ]
}

impl TwitchInstanceConfig {
    /// What may be shown.
    pub fn shown(&self) -> (record: ShownRecord)
        ensures
            record@ == twitch_instance_shown(self@),
    {
        let mut fields: Vec<ShownField> = Vec::new();
        fields.push(text_field("name", &self.name));
        fields.push(flag_field("enabled", self.enabled));
        fields.push(text_field("username", &self.username));
        fields.push(redacted_field("oauth_token"));
        fields.push(optional_field("client_id", &self.client_id));
        fields.push(optional_redacted_field("client_secret", &self.client_secret));
        fields.push(optional_redacted_field("refresh_token", &self.refresh_token));
        fields.push(texts_field("channels", &self.channels));
        fields.push(optional_field("trigger_prefix", &self.trigger_prefix));
        proof {
            assert(views::list(fields@) =~= twitch_instance_shown(self@));
        }
        ShownRecord { fields }
    }
}

/// What is shown of Twitch.
pub open spec fn twitch_shown(c: TwitchView) -> ShownPlatformView {
    ShownPlatformView {
        fields: seq![
            ("enabled"@, ShownView::Flag(c.enabled)),
            ("username"@, ShownView::Text(c.username)),
            ("oauth_token"@, ShownView::Redacted),
            ("channels"@, ShownView::Texts(c.channels)),
            ("trigger_prefix"@, ShownView::OptionalText(c.trigger_prefix)),
        ],
        instances: c.instances.map_values(|i: TwitchInstanceView| twitch_instance_shown(i)),
    }
}

/// What is shown of the instances.
fn twitch_instances_shown(instances: &Vec<TwitchInstanceConfig>) -> (records: Vec<ShownRecord>)
    ensures
        views::list(records@) == views::list(instances@).map_values(
            |i: TwitchInstanceView| twitch_instance_shown(i),
        ),
{
    let mut records: Vec<ShownRecord> = Vec::new();
    let mut i: usize = 0;
    while i < instances.len()
        invariant
            i <= instances@.len(),
            records@.len() == i,
            forall|j: int|
                0 <= j < i ==> (#[trigger] records@[j])@ == twitch_instance_shown(instances@[j]@),
        decreases instances@.len() - i,
    {
        records.push(instances[i].shown());
        i += 1;
    }
    proof {
        assert(views::list(records@) =~= views::list(instances@).map_values(
            |i: TwitchInstanceView| twitch_instance_shown(i),
        ));
    }
    records
}

impl TwitchConfig {
    /// What may be shown.
    pub fn shown(&self) -> (platform: ShownPlatform)
        ensures
            platform@ == twitch_shown(self@),
    {
        let mut fields: Vec<ShownField> = Vec::new();
        fields.push(flag_field("enabled", self.enabled));
        fields.push(text_field("username", &self.username));
        fields.push(redacted_field("oauth_token"));
        fields.push(texts_field("channels", &self.channels));
        fields.push(optional_field("trigger_prefix", &self.trigger_prefix));
        let instances = twitch_instances_shown(&self.instances);
        proof {
            assert(views::list(fields@) =~= twitch_shown(self@).fields);
        }
        ShownPlatform { fields, instances }
    }
}

/// What is shown of a named Signal adapter.
pub open spec fn signal_instance_shown(c: SignalInstanceView) -> Seq<(Seq<char>, ShownView)> {
    seq![
        ("name"@, ShownView::Text(c.name)),
        ("enabled"@, ShownView::Flag(c.enabled)),
        ("http_url"@, ShownView::Redacted),
        ("account"@, ShownView::Redacted),
        ("dm_allowed_users"@, ShownView::Redacted),
        ("group_ids"@, ShownView::Texts(c.group_ids)),
        ("group_allowed_users"@, ShownView::Redacted),
        ("ignore_stories"@, ShownView::Flag(c.ignore_stories)),
    ]
}

impl SignalInstanceConfig {
    /// What may be shown.
    pub fn shown(&self) -> (record: ShownRecord)
        ensures
            record@ == signal_instance_shown(self@),
    {
        let mut fields: Vec<ShownField> = Vec::new();
        fields.push(text_field("name", &self.name));
        fields.push(flag_field("enabled", self.enabled));
        fields.push(redacted_field("http_url"));
        fields.push(redacted_field("account"));
        fields.push(redacted_field("dm_allowed_users"));
        fields.push(texts_field("group_ids", &self.group_ids));
        fields.push(redacted_field("group_allowed_users"));
        fields.push(flag_field("ignore_stories", self.ignore_stories));
        proof {
            assert(views::list(fields@) =~= signal_instance_shown(self@));
        }
        ShownRecord { fields }
    }
}

/// What is shown of Signal.
pub open spec fn signal_shown(c: SignalView) -> ShownPlatformView {
    ShownPlatformView {
        fields: seq![
            ("enabled"@, ShownView::Flag(c.enabled)),
            ("http_url"@, ShownView::Redacted),
            ("account"@, ShownView::Redacted),
            ("dm_allowed_users"@, ShownView::Redacted),
            ("group_ids"@, ShownView::Texts(c.group_ids)),
            ("group_allowed_users"@, ShownView::Redacted),
            ("ignore_stories"@, ShownView::Flag(c.ignore_stories)),
        ],
        instances: c.instances.map_values(|i: SignalInstanceView| signal_instance_shown(i)),
    }
}

/// What is shown of the instances.
fn signal_instances_shown(instances: &Vec<SignalInstanceConfig>) -> (records: Vec<ShownRecord>)
    ensures
        views::list(records@) == views::list(instances@).map_values(
            |i: SignalInstanceView| signal_instance_shown(i),
        ),
{
    let mut records: Vec<ShownRecord> = Vec::new();
    let mut i: usize = 0;
    while i < instances.len()
        invariant
            i <= instances@.len(),
            records@.len() == i,
            forall|j: int|
                0 <= j < i ==> (#[trigger] records@[j])@ == signal_instance_shown(instances@[j]@),
        decreases instances@.len() - i,
    {
        records.push(instances[i].shown());
        i += 1;
    }
    proof {
        assert(views::list(records@) =~= views::list(instances@).map_values(
            |i: SignalInstanceView| signal_instance_shown(i),
        ));
    }
    records
}

impl SignalConfig {
    /// What may be shown.
    pub fn shown(&self) -> (platform: ShownPlatform)
        ensures
            platform@ == signal_shown(self@),
    {
        let mut fields: Vec<ShownField> = Vec::new();
        fields.push(flag_field("enabled", self.enabled));
        fields.push(redacted_field("http_url"));
        fields.push(redacted_field("account"));
        fields.push(redacted_field("dm_allowed_users"));
        fields.push(texts_field("group_ids", &self.group_ids));
        fields.push(redacted_field("group_allowed_users"));
        fields.push(flag_field("ignore_stories", self.ignore_stories));
        let instances = signal_instances_shown(&self.instances);
        proof {
            assert(views::list(fields@) =~= signal_shown(self@).fields);
        }
        ShownPlatform { fields, instances }
    }
}

/// What is shown of a provider: of its headers the names.
pub open spec fn provider_shown(c: ProviderView) -> Seq<(Seq<char>, ShownView)> {
    seq![
        ("api_type"@, ShownView::Api(c.api_type)),
        ("base_url"@, ShownView::Text(c.base_url)),
        ("api_key"@, ShownView::Redacted),
        ("name"@, ShownView::OptionalText(c.name)),
        ("use_proxy_api_key"@, ShownView::Flag(c.use_proxy_api_key)),
        (
            "extra_headers"@,
            ShownView::Texts(c.extra_headers.map_values(|h: (Seq<char>, Seq<char>)| h.0)),
        ),
    ]
}

/// The names of a list of headers.
fn header_names(headers: &Vec<(String, String)>) -> (names: Vec<String>)
    ensures
        text::views(names@) == crate::config::provider::header_views(headers@).map_values(
            |h: (Seq<char>, Seq<char>)| h.0,
        ),
{
    let mut names: Vec<String> = Vec::new();
    let mut i: usize = 0;
    while i < headers.len()
        invariant
            i <= headers@.len(),
            names@.len() == i,
            forall|j: int| 0 <= j < i ==> (#[trigger] names@[j])@ == headers@[j].0@,
        decreases headers@.len() - i,
    {
        names.push(headers[i].0.clone());
        i += 1;
    }
    proof {
        assert(text::views(names@) =~= crate::config::provider::header_views(
            headers@,
        ).map_values(|h: (Seq<char>, Seq<char>)| h.0));
    }
    names
}

impl ProviderConfig {
    /// What may be shown.
    pub fn shown(&self) -> (record: ShownRecord)
        ensures
            record@ == provider_shown(self@),
    {
        let mut fields: Vec<ShownField> = Vec::new();
        fields.push(ShownField { name: "api_type", value: Shown::Api(self.api_type) });
        fields.push(text_field("base_url", &self.base_url));
        fields.push(redacted_field("api_key"));
        fields.push(optional_field("name", &self.name));
        fields.push(flag_field("use_proxy_api_key", self.use_proxy_api_key));
        fields.push(
            ShownField {
                name: "extra_headers",
                value: Shown::Texts(header_names(&self.extra_headers)),
            },
        );
        proof {
            assert(views::list(fields@) =~= provider_shown(self@));
        }
        ShownRecord { fields }
    }
}

/// Which credentials there are.
#[derive(Debug, Clone, Copy, PartialEq, Eq, Structural)]
pub struct KeysPresent {
    pub anthropic_key: bool,
    pub openai_key: bool,
    pub openrouter_key: bool,
    pub kilo_key: bool,
    pub zhipu_key: bool,
    pub groq_key: bool,
    pub together_key: bool,
    pub fireworks_key: bool,
    pub deepseek_key: bool,
    pub xai_key: bool,
    pub mistral_key: bool,
    pub gemini_key: bool,
    pub ollama_key: bool,
    pub opencode_zen_key: bool,
    pub opencode_go_key: bool,
    pub nvidia_key: bool,
    pub minimax_key: bool,
    pub moonshot_key: bool,
    pub zai_coding_plan_key: bool,
    pub github_copilot_key: bool,
}

/// Which of the credentials there are.
pub open spec fn are_keys_of(keys: KeysPresent, c: LlmConfig) -> bool {
    &&& keys.anthropic_key == (c.anthropic_key is Some)
    &&& keys.openai_key == (c.openai_key is Some)
    &&& keys.openrouter_key == (c.openrouter_key is Some)
    &&& keys.kilo_key == (c.kilo_key is Some)
    &&& keys.zhipu_key == (c.zhipu_key is Some)
    &&& keys.groq_key == (c.groq_key is Some)
    &&& keys.together_key == (c.together_key is Some)
    &&& keys.fireworks_key == (c.fireworks_key is Some)
    &&& keys.deepseek_key == (c.deepseek_key is Some)
    &&& keys.xai_key == (c.xai_key is Some)
    &&& keys.mistral_key == (c.mistral_key is Some)
    &&& keys.gemini_key == (c.gemini_key is Some)
    &&& keys.ollama_key == (c.ollama_key is Some)
    &&& keys.opencode_zen_key == (c.opencode_zen_key is Some)
    &&& keys.opencode_go_key == (c.opencode_go_key is Some)
    &&& keys.nvidia_key == (c.nvidia_key is Some)
    &&& keys.minimax_key == (c.minimax_key is Some)
    &&& keys.moonshot_key == (c.moonshot_key is Some)
    &&& keys.zai_coding_plan_key == (c.zai_coding_plan_key is Some)
    &&& keys.github_copilot_key == (c.github_copilot_key is Some)
}

/// What is shown of the providers.
pub open spec fn providers_shown(providers: Map<Seq<char>, ProviderView>) -> Map<
    Seq<char>,
    Seq<(Seq<char>, ShownView)>,
> {
    providers.map_values(|p: ProviderView| provider_shown(p))
}

/// What is shown of credentials and providers: which credentials there are, the
/// address of Ollama, and what is shown of each provider.
#[derive(Debug, PartialEq, Eq)]
pub struct ShownLlm {
    pub keys: KeysPresent,
    pub ollama_base_url: Option<String>,
    pub providers: StringMap<ShownRecord>,
}

/// What is shown of the providers.
fn show_providers(providers: &StringMap<ProviderConfig>) -> (records: StringMap<ShownRecord>)
    ensures
        views::entries(records@) == providers_shown(
            crate::config::provider::provider_views(providers@),
        ),
{
    let entries = providers.entries();
    let mut records: StringMap<ShownRecord> = StringMap::new();
    let mut i: usize = 0;
    proof {
        assert(views::entries(records@) =~= Map::empty());
        string_map::lemma_no_entries(entries@);
    }
    while i < entries.len()
        invariant
            i <= entries@.len(),
            string_map::keys_are_distinct(entries@),
            views::entries(records@) == providers_shown(
                crate::config::provider::provider_views(
                    string_map::entries_map(entries@.subrange(0, i as int)),
                ),
            ),
        decreases entries@.len() - i,
    {
        let ghost before = records@;
        let ghost shorter = entries@.subrange(0, i as int);
        let record = entries[i].1.shown();
        let key = entries[i].0.clone();
        records.insert(key, record);
        proof {
            let longer = entries@.subrange(0, i as int + 1);
            assert(longer =~= shorter.push(entries@[i as int]));
            string_map::lemma_entries_map_push(shorter, entries@[i as int]);
            assert(views::entries(records@) =~= views::entries(before).insert(key@, record@));
            assert(providers_shown(
                crate::config::provider::provider_views(string_map::entries_map(longer)),
            ) =~= providers_shown(
                crate::config::provider::provider_views(string_map::entries_map(shorter)),
            ).insert(key@, record@));
        }
        i += 1;
    }
    proof {
        assert(entries@.subrange(0, entries@.len() as int) =~= entries@);
    }
    records
}

impl LlmConfig {
    /// What may be shown.
    pub fn shown(&self) -> (llm: ShownLlm)
        ensures
            are_keys_of(llm.keys, *self),
            llm.ollama_base_url == self.ollama_base_url,
            views::entries(llm.providers@) == providers_shown(
                crate::config::provider::provider_views(self.providers@),
            ),
    {
        let keys = KeysPresent {
            anthropic_key: self.anthropic_key.is_some(),
            openai_key: self.openai_key.is_some(),
            openrouter_key: self.openrouter_key.is_some(),
            kilo_key: self.kilo_key.is_some(),
            zhipu_key: self.zhipu_key.is_some(),
            groq_key: self.groq_key.is_some(),
            together_key: self.together_key.is_some(),
            fireworks_key: self.fireworks_key.is_some(),
            deepseek_key: self.deepseek_key.is_some(),
            xai_key: self.xai_key.is_some(),
            mistral_key: self.mistral_key.is_some(),
            gemini_key: self.gemini_key.is_some(),
            ollama_key: self.ollama_key.is_some(),
            opencode_zen_key: self.opencode_zen_key.is_some(),
            opencode_go_key: self.opencode_go_key.is_some(),
            nvidia_key: self.nvidia_key.is_some(),
            minimax_key: self.minimax_key.is_some(),
            moonshot_key: self.moonshot_key.is_some(),
            zai_coding_plan_key: self.zai_coding_plan_key.is_some(),
            github_copilot_key: self.github_copilot_key.is_some(),
        };
        ShownLlm {
            keys,
            ollama_base_url: self.ollama_base_url.clone(),
            providers: show_providers(&self.providers),
        }
    }
}

/// What is shown of the default settings: all as they are, but for the search key.
pub open spec fn defaults_shown(c: DefaultsView) -> Seq<(Seq<char>, ShownView)> {
    seq![
        ("routing"@, ShownView::AsItIs),
        ("max_concurrent_branches"@, ShownView::AsItIs),
        ("max_concurrent_workers"@, ShownView::AsItIs),
        ("max_turns"@, ShownView::AsItIs),
        ("branch_max_turns"@, ShownView::AsItIs),
        ("context_window"@, ShownView::AsItIs),
        ("compaction"@, ShownView::AsItIs),
        ("memory_persistence"@, ShownView::AsItIs),
        ("coalesce"@, ShownView::AsItIs),
        ("ingestion"@, ShownView::AsItIs),
        ("cortex"@, ShownView::AsItIs),
        ("warmup"@, ShownView::AsItIs),
        ("browser"@, ShownView::AsItIs),
        ("channel"@, ShownView::AsItIs),
        ("mcp"@, ShownView::AsItIs),
        ("brave_search_key"@, ShownView::OptionalRedacted(c.brave_search_key is Some)),
        ("cron_timezone"@, ShownView::AsItIs),
        ("user_timezone"@, ShownView::AsItIs),
        ("history_backfill_count"@, ShownView::AsItIs),
        ("cron"@, ShownView::AsItIs),
        ("opencode"@, ShownView::AsItIs),
        ("worker_log_mode"@, ShownView::AsItIs),
        ("projects"@, ShownView::AsItIs),
    ]
}

impl DefaultsConfig {
    /// What may be shown.
    pub fn shown(&self) -> (record: ShownRecord)
        ensures
            record@ == defaults_shown(self@),
    {
        let mut fields: Vec<ShownField> = Vec::new();
        fields.push(plain_field("routing"));
        fields.push(plain_field("max_concurrent_branches"));
        fields.push(plain_field("max_concurrent_workers"));
        fields.push(plain_field("max_turns"));
        fields.push(plain_field("branch_max_turns"));
        fields.push(plain_field("context_window"));
        fields.push(plain_field("compaction"));
        fields.push(plain_field("memory_persistence"));
        fields.push(plain_field("coalesce"));
        fields.push(plain_field("ingestion"));
        fields.push(plain_field("cortex"));
        fields.push(plain_field("warmup"));
        fields.push(plain_field("browser"));
        fields.push(plain_field("channel"));
        fields.push(plain_field("mcp"));
        fields.push(optional_redacted_field("brave_search_key", &self.brave_search_key));
        fields.push(plain_field("cron_timezone"));
        fields.push(plain_field("user_timezone"));
        fields.push(plain_field("history_backfill_count"));
        fields.push(plain_field("cron"));
        fields.push(plain_field("opencode"));
        fields.push(plain_field("worker_log_mode"));
        fields.push(plain_field("projects"));
        proof {
            assert(views::list(fields@) =~= defaults_shown(self@));
        }
        ShownRecord { fields }
    }
}

// ---------------------------------------------------------------------------
// Secrets are not shown
// ---------------------------------------------------------------------------

/// What is shown of an instance does not depend on its secrets.
pub proof fn law_instances_show_no_secret(
    discord: DiscordInstanceView,
    slack: SlackInstanceView,
    telegram: TelegramInstanceView,
    twitch: TwitchInstanceView,
    secret: Seq<char>,
    other: Seq<char>,
)
    ensures
        discord_instance_shown(DiscordInstanceView { token: secret, ..discord })
            == discord_instance_shown(discord),
        slack_instance_shown(SlackInstanceView { bot_token: secret, app_token: other, ..slack })
            == slack_instance_shown(slack),
        telegram_instance_shown(TelegramInstanceView { token: secret, ..telegram })
            == telegram_instance_shown(telegram),
        twitch_instance_shown(TwitchInstanceView { oauth_token: secret, ..twitch })
            == twitch_instance_shown(twitch),
        twitch.client_secret is Some ==> twitch_instance_shown(
            TwitchInstanceView { client_secret: Some(secret), ..twitch },
        ) == twitch_instance_shown(twitch),
        twitch.refresh_token is Some ==> twitch_instance_shown(
            TwitchInstanceView { refresh_token: Some(secret), ..twitch },
        ) == twitch_instance_shown(twitch),
{
}

/// What is shown of an email adapter does not depend on its credentials, its address
/// or its senders.
pub proof fn law_email_shows_no_secret(
    email: EmailView,
    instance: EmailInstanceView,
    imap_username: Seq<char>,
    imap_password: Seq<char>,
    smtp_username: Seq<char>,
    smtp_password: Seq<char>,
    from_address: Seq<char>,
    allowed_senders: Seq<Seq<char>>,
)
    ensures
        email_shown(
            EmailView {
                imap_username,
                imap_password,
                smtp_username,
                smtp_password,
                from_address,
                allowed_senders,
                ..email
            },
        ) == email_shown(email),
        email_instance_shown(
            EmailInstanceView {
                imap_username,
                imap_password,
                smtp_username,
                smtp_password,
                from_address,
                allowed_senders,
                ..instance
            },
        ) == email_instance_shown(instance),
{
}

/// What is shown of a Signal adapter does not depend on its address, its account or
/// its users.
pub proof fn law_signal_shows_no_secret(
    signal: SignalView,
    instance: SignalInstanceView,
    http_url: Seq<char>,
    account: Seq<char>,
    dm_allowed_users: Seq<Seq<char>>,
    group_allowed_users: Seq<Seq<char>>,
)
    ensures
        signal_shown(
            SignalView { http_url, account, dm_allowed_users, group_allowed_users, ..signal },
        ) == signal_shown(signal),
        signal_instance_shown(
            SignalInstanceView {
                http_url,
                account,
                dm_allowed_users,
                group_allowed_users,
                ..instance
            },
        ) == signal_instance_shown(instance),
{
}

/// What is shown of a platform does not depend on the secrets of its default adapter.
pub proof fn law_platforms_show_no_secret(
    discord: DiscordView,
    slack: SlackView,
    telegram: TelegramView,
    twitch: TwitchView,
    secret: Seq<char>,
    other: Seq<char>,
    client_id: Option<Seq<char>>,
    client_secret: Option<Seq<char>>,
    refresh_token: Option<Seq<char>>,
)
    ensures
        discord_shown(DiscordView { token: secret, ..discord }) == discord_shown(discord),
        slack_shown(SlackView { bot_token: secret, app_token: other, ..slack }) == slack_shown(
            slack,
        ),
        telegram_shown(TelegramView { token: secret, ..telegram }) == telegram_shown(telegram),
        twitch_shown(
            TwitchView { oauth_token: secret, client_id, client_secret, refresh_token, ..twitch },
        ) == twitch_shown(twitch),
{
}

/// What is shown of a provider does not depend on its key.
pub proof fn law_providers_show_no_key(provider: ProviderView, api_key: Seq<char>)
    ensures
        provider_shown(ProviderView { api_key, ..provider }) == provider_shown(provider),
{
}

/// Which credentials there are says nothing of the keys: any other key in the place
/// of one that is there shows the same.
pub proof fn law_credentials_show_no_key(keys: KeysPresent, llm: LlmConfig, key: String)
    requires
        are_keys_of(keys, llm),
    ensures
        llm.anthropic_key is Some ==> are_keys_of(
            keys,
            LlmConfig { anthropic_key: Some(key), ..llm },
        ),
        llm.openai_key is Some ==> are_keys_of(keys, LlmConfig { openai_key: Some(key), ..llm }),
        llm.openrouter_key is Some ==> are_keys_of(
            keys,
            LlmConfig { openrouter_key: Some(key), ..llm },
        ),
        llm.kilo_key is Some ==> are_keys_of(keys, LlmConfig { kilo_key: Some(key), ..llm }),
        llm.zhipu_key is Some ==> are_keys_of(keys, LlmConfig { zhipu_key: Some(key), ..llm }),
        llm.groq_key is Some ==> are_keys_of(keys, LlmConfig { groq_key: Some(key), ..llm }),
        llm.together_key is Some ==> are_keys_of(
            keys,
            LlmConfig { together_key: Some(key), ..llm },
        ),
        llm.fireworks_key is Some ==> are_keys_of(
            keys,
            LlmConfig { fireworks_key: Some(key), ..llm },
        ),
        llm.deepseek_key is Some ==> are_keys_of(
            keys,
            LlmConfig { deepseek_key: Some(key), ..llm },
        ),
        llm.xai_key is Some ==> are_keys_of(keys, LlmConfig { xai_key: Some(key), ..llm }),
        llm.mistral_key is Some ==> are_keys_of(keys, LlmConfig { mistral_key: Some(key), ..llm }),
        llm.gemini_key is Some ==> are_keys_of(keys, LlmConfig { gemini_key: Some(key), ..llm }),
        llm.ollama_key is Some ==> are_keys_of(keys, LlmConfig { ollama_key: Some(key), ..llm }),
        llm.opencode_zen_key is Some ==> are_keys_of(
            keys,
            LlmConfig { opencode_zen_key: Some(key), ..llm },
        ),
        llm.opencode_go_key is Some ==> are_keys_of(
            keys,
            LlmConfig { opencode_go_key: Some(key), ..llm },
        ),
        llm.nvidia_key is Some ==> are_keys_of(keys, LlmConfig { nvidia_key: Some(key), ..llm }),
        llm.minimax_key is Some ==> are_keys_of(keys, LlmConfig { minimax_key: Some(key), ..llm }),
        llm.moonshot_key is Some ==> are_keys_of(
            keys,
            LlmConfig { moonshot_key: Some(key), ..llm },
        ),
        llm.zai_coding_plan_key is Some ==> are_keys_of(
            keys,
            LlmConfig { zai_coding_plan_key: Some(key), ..llm },
        ),
        llm.github_copilot_key is Some ==> are_keys_of(
            keys,
            LlmConfig { github_copilot_key: Some(key), ..llm },
        ),
{
}

} // verus!
