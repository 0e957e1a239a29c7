//! Messaging platforms as a configuration file describes them.
//!
//! Credentials of a platform's default adapter come from the environment before they
//! come from the file; those of a named instance come from the file. A named instance
//! whose credentials cannot be had is kept, but disabled.
use crate::config::messaging::{
    DiscordConfig, DiscordInstanceConfig, DiscordInstanceView, DiscordView, EmailConfig,
    EmailInstanceConfig, EmailInstanceView, EmailView, MessagingConfig, MessagingView, SignalConfig,
    SignalInstanceConfig, SignalInstanceView, SignalView, SlackCommandConfig, SlackCommandView,
    SlackConfig, SlackInstanceConfig, SlackInstanceView, SlackView, TelegramConfig,
    TelegramInstanceConfig, TelegramInstanceView, TelegramView, TwitchConfig, TwitchInstanceConfig,
    TwitchInstanceView, TwitchView, WebhookConfig, WebhookView,
};
use crate::config::resolve;
use crate::config::resolve::ResolveContext;
use crate::config::toml_schema::{
    TomlDiscordConfig, TomlDiscordInstanceConfig, TomlEmailConfig, TomlEmailInstanceConfig,
    TomlMessagingConfig, TomlSignalConfig, TomlSignalInstanceConfig, TomlSlackCommandConfig,
    TomlSlackConfig, TomlSlackInstanceConfig, TomlTelegramConfig, TomlTelegramInstanceConfig,
    TomlTwitchConfig, TomlTwitchInstanceConfig, TomlWebhookConfig,
};
use crate::text;
use crate::views;
use vstd::prelude::*;

verus! {

/// A named Discord bot of the file. Without its token it is disabled.
pub open spec fn discord_instance(
    context: ResolveContext,
    toml: TomlDiscordInstanceConfig,
) -> DiscordInstanceView {
    let token = resolve::resolved_option(context, toml.token);
    DiscordInstanceView {
        name: toml.name@,
        enabled: toml.enabled && token is Some,
        token: resolve::or_empty(token),
        dm_allowed_users: text::views(toml.dm_allowed_users@),
        allow_bot_messages: toml.allow_bot_messages,
    }
}

/// The Discord settings of the file; none where there is neither a token nor an
/// instance.
pub open spec fn discord(context: ResolveContext, toml: TomlDiscordConfig) -> Option<DiscordView> {
    let token = resolve::or_else(
        context.var("DISCORD_BOT_TOKEN"@),
        resolve::resolved_option(context, toml.token),
    );
    if token is None && toml.instances@.len() == 0 {
        None
    } else {
        Some(
            DiscordView {
                enabled: toml.enabled,
                token: resolve::or_empty(token),
                instances: toml.instances@.map_values(
                    |item: TomlDiscordInstanceConfig| discord_instance(context, item),
                ),
                dm_allowed_users: text::views(toml.dm_allowed_users@),
                allow_bot_messages: toml.allow_bot_messages,
            },
        )
    }
}

/// Reads a named Discord bot of the file.
pub fn discord_instance_from_toml(
    context: &ResolveContext,
    toml: TomlDiscordInstanceConfig,
) -> (instance: DiscordInstanceConfig)
    ensures
        instance@ == discord_instance(*context, toml),
{
    let token = resolve::resolve_option(context, &toml.token);
    DiscordInstanceConfig {
        name: toml.name,
        enabled: toml.enabled && token.is_some(),
        token: resolve::text_or_empty(token),
        dm_allowed_users: toml.dm_allowed_users,
        allow_bot_messages: toml.allow_bot_messages,
    }
}

/// Reads the named Discord bots of the file.
pub fn discord_instances_from_toml(
    context: &ResolveContext,
    raw: Vec<TomlDiscordInstanceConfig>,
) -> (list: Vec<DiscordInstanceConfig>)
    ensures
        views::list(list@) == raw@.map_values(
            |item: TomlDiscordInstanceConfig| discord_instance(*context, item),
        ),
{
    let ghost all = raw@;
    let mut list: Vec<DiscordInstanceConfig> = Vec::new();
    for item in it: raw.into_iter()
        invariant
            it.seq() == all,
            list@.len() == it.index(),
            forall|j: int|
                0 <= j < it.index() ==> (#[trigger] list@[j])@ == discord_instance(
                    *context,
                    all[j],
                ),
    {
        list.push(discord_instance_from_toml(context, item));
    }
    proof {
        assert(views::list(list@) =~= all.map_values(
            |item: TomlDiscordInstanceConfig| discord_instance(*context, item),
        ));
    }
    list
}

/// Reads the Discord settings of the file.
pub fn discord_from_toml(
    context: &ResolveContext,
    toml: TomlDiscordConfig,
) -> (config: Option<DiscordConfig>)
    ensures
        views::optional(config) == discord(*context, toml),
{
    let token = resolve::env_then_file(context, "DISCORD_BOT_TOKEN", &toml.token);
    if token.is_none() && toml.instances.len() == 0 {
        return None;
    }
    Some(
        DiscordConfig {
            enabled: toml.enabled,
            token: resolve::text_or_empty(token),
            instances: discord_instances_from_toml(context, toml.instances),
            dm_allowed_users: toml.dm_allowed_users,
            allow_bot_messages: toml.allow_bot_messages,
        },
    )
}

/// A named Telegram bot of the file. Without its token it is disabled.
pub open spec fn telegram_instance(
    context: ResolveContext,
    toml: TomlTelegramInstanceConfig,
) -> TelegramInstanceView {
    let token = resolve::resolved_option(context, toml.token);
    TelegramInstanceView {
        name: toml.name@,
        enabled: toml.enabled && token is Some,
        token: resolve::or_empty(token),
        dm_allowed_users: text::views(toml.dm_allowed_users@),
    }
}

/// The Telegram settings of the file; none where there is neither a token nor an
/// instance.
pub open spec fn telegram(
    context: ResolveContext,
    toml: TomlTelegramConfig,
) -> Option<TelegramView> {
    let token = resolve::or_else(
        context.var("TELEGRAM_BOT_TOKEN"@),
        resolve::resolved_option(context, toml.token),
    );
    if token is None && toml.instances@.len() == 0 {
        None
    } else {
        Some(
            TelegramView {
                enabled: toml.enabled,
                token: resolve::or_empty(token),
                instances: toml.instances@.map_values(
                    |item: TomlTelegramInstanceConfig| telegram_instance(context, item),
                ),
                dm_allowed_users: text::views(toml.dm_allowed_users@),
            },
        )
    }
}

/// Reads a named Telegram bot of the file.
pub fn telegram_instance_from_toml(
    context: &ResolveContext,
    toml: TomlTelegramInstanceConfig,
) -> (instance: TelegramInstanceConfig)
    ensures
        instance@ == telegram_instance(*context, toml),
{
    let token = resolve::resolve_option(context, &toml.token);
    TelegramInstanceConfig {
        name: toml.name,
        enabled: toml.enabled && token.is_some(),
        token: resolve::text_or_empty(token),
        dm_allowed_users: toml.dm_allowed_users,
    }
}

/// Reads the named Telegram bots of the file.
pub fn telegram_instances_from_toml(
    context: &ResolveContext,
    raw: Vec<TomlTelegramInstanceConfig>,
) -> (list: Vec<TelegramInstanceConfig>)
    ensures
        views::list(list@) == raw@.map_values(
            |item: TomlTelegramInstanceConfig| telegram_instance(*context, item),
        ),
{
    let ghost all = raw@;
    let mut list: Vec<TelegramInstanceConfig> = Vec::new();
    for item in it: raw.into_iter()
        invariant
            it.seq() == all,
            list@.len() == it.index(),
            forall|j: int|
                0 <= j < it.index() ==> (#[trigger] list@[j])@ == telegram_instance(
                    *context,
                    all[j],
                ),
    {
        list.push(telegram_instance_from_toml(context, item));
    }
    proof {
        assert(views::list(list@) =~= all.map_values(
            |item: TomlTelegramInstanceConfig| telegram_instance(*context, item),
        ));
    }
    list
}

/// Reads the Telegram settings of the file.
pub fn telegram_from_toml(
    context: &ResolveContext,
    toml: TomlTelegramConfig,
) -> (config: Option<TelegramConfig>)
    ensures
        views::optional(config) == telegram(*context, toml),
{
    let token = resolve::env_then_file(context, "TELEGRAM_BOT_TOKEN", &toml.token);
    if token.is_none() && toml.instances.len() == 0 {
        return None;
    }
    Some(
        TelegramConfig {
            enabled: toml.enabled,
            token: resolve::text_or_empty(token),
            instances: telegram_instances_from_toml(context, toml.instances),
            dm_allowed_users: toml.dm_allowed_users,
        },
    )
}

/// A slash command of the file.
pub open spec fn slack_command(toml: TomlSlackCommandConfig) -> SlackCommandView {
    SlackCommandView {
        command: toml.command@,
        agent_id: toml.agent_id@,
        description: text::view_of(toml.description),
    }
}

/// Reads a slash command of the file.
pub fn slack_command_from_toml(toml: TomlSlackCommandConfig) -> (command: SlackCommandConfig)
    ensures
        command@ == slack_command(toml),
{
    SlackCommandConfig {
        command: toml.command,
        agent_id: toml.agent_id,
        description: toml.description,
    }
}

/// Reads the slash commands of the file.
pub fn slack_commands_from_toml(raw: Vec<TomlSlackCommandConfig>) -> (list: Vec<SlackCommandConfig>)
    ensures
        views::list(list@) == raw@.map_values(|item: TomlSlackCommandConfig| slack_command(item)),
{
    let ghost all = raw@;
    let mut list: Vec<SlackCommandConfig> = Vec::new();
    for item in it: raw.into_iter()
        invariant
            it.seq() == all,
            list@.len() == it.index(),
            forall|j: int|
                0 <= j < it.index() ==> (#[trigger] list@[j])@ == slack_command(all[j]),
    {
        list.push(slack_command_from_toml(item));
    }
    proof {
        assert(views::list(list@) =~= all.map_values(
            |item: TomlSlackCommandConfig| slack_command(item),
        ));
    }
    list
}

/// A named Slack app of the file. Without both its tokens it is disabled.
pub open spec fn slack_instance(
    context: ResolveContext,
    toml: TomlSlackInstanceConfig,
) -> SlackInstanceView {
    let bot_token = resolve::resolved_option(context, toml.bot_token);
    let app_token = resolve::resolved_option(context, toml.app_token);
    SlackInstanceView {
        name: toml.name@,
        enabled: toml.enabled && bot_token is Some && app_token is Some,
        bot_token: resolve::or_empty(bot_token),
        app_token: resolve::or_empty(app_token),
        dm_allowed_users: text::views(toml.dm_allowed_users@),
        commands: toml.commands@.map_values(|item: TomlSlackCommandConfig| slack_command(item)),
    }
}

/// The Slack settings of the file; none where a token is missing and there is no
/// instance.
pub open spec fn slack(context: ResolveContext, toml: TomlSlackConfig) -> Option<SlackView> {
    let bot_token = resolve::or_else(
        context.var("SLACK_BOT_TOKEN"@),
        resolve::resolved_option(context, toml.bot_token),
    );
    let app_token = resolve::or_else(
        context.var("SLACK_APP_TOKEN"@),
        resolve::resolved_option(context, toml.app_token),
    );
    if (bot_token is None || app_token is None) && toml.instances@.len() == 0 {
        None
    } else {
        Some(
            SlackView {
                enabled: toml.enabled,
                bot_token: resolve::or_empty(bot_token),
                app_token: resolve::or_empty(app_token),
                instances: toml.instances@.map_values(
                    |item: TomlSlackInstanceConfig| slack_instance(context, item),
                ),
                dm_allowed_users: text::views(toml.dm_allowed_users@),
                commands: toml.commands@.map_values(
                    |item: TomlSlackCommandConfig| slack_command(item),
                ),
            },
        )
    }
}

/// Reads a named Slack app of the file.
pub fn slack_instance_from_toml(context: &ResolveContext, toml: TomlSlackInstanceConfig) -> (
instance: SlackInstanceConfig)
    ensures
        instance@ == slack_instance(*context, toml),
{
    let bot_token = resolve::resolve_option(context, &toml.bot_token);
    let app_token = resolve::resolve_option(context, &toml.app_token);
    SlackInstanceConfig {
        name: toml.name,
        enabled: toml.enabled && bot_token.is_some() && app_token.is_some(),
        bot_token: resolve::text_or_empty(bot_token),
        app_token: resolve::text_or_empty(app_token),
        dm_allowed_users: toml.dm_allowed_users,
        commands: slack_commands_from_toml(toml.commands),
    }
}

/// Reads the named Slack apps of the file.
pub fn slack_instances_from_toml(
    context: &ResolveContext,
    raw: Vec<TomlSlackInstanceConfig>,
) -> (list: Vec<SlackInstanceConfig>)
    ensures
        views::list(list@) == raw@.map_values(
            |item: TomlSlackInstanceConfig| slack_instance(*context, item),
        ),
{
    let ghost all = raw@;
    let mut list: Vec<SlackInstanceConfig> = Vec::new();
    for item in it: raw.into_iter()
        invariant
            it.seq() == all,
            list@.len() == it.index(),
            forall|j: int|
                0 <= j < it.index() ==> (#[trigger] list@[j])@ == slack_instance(*context, all[j]),
    {
        list.push(slack_instance_from_toml(context, item));
    }
    proof {
        assert(views::list(list@) =~= all.map_values(
            |item: TomlSlackInstanceConfig| slack_instance(*context, item),
        ));
    }
    list
}

/// Reads the Slack settings of the file.
pub fn slack_from_toml(context: &ResolveContext, toml: TomlSlackConfig) -> (config: Option<
    SlackConfig,
>)
    ensures
        views::optional(config) == slack(*context, toml),
{
    let bot_token = resolve::env_then_file(context, "SLACK_BOT_TOKEN", &toml.bot_token);
    let app_token = resolve::env_then_file(context, "SLACK_APP_TOKEN", &toml.app_token);
    if (bot_token.is_none() || app_token.is_none()) && toml.instances.len() == 0 {
        return None;
    }
    Some(
        SlackConfig {
            enabled: toml.enabled,
            bot_token: resolve::text_or_empty(bot_token),
            app_token: resolve::text_or_empty(app_token),
            instances: slack_instances_from_toml(context, toml.instances),
            dm_allowed_users: toml.dm_allowed_users,
            commands: slack_commands_from_toml(toml.commands),
        },
    )
}

/// The value where there is one, else another.
pub open spec fn or_text(value: Option<Seq<char>>, other: Seq<char>) -> Seq<char> {
    match value {
        Some(v) => v,
        None => other,
    }
}

/// The text where there is one, else a copy of another.
fn or_copy(value: Option<String>, other: &String) -> (text: String)
    ensures
        text@ == or_text(text::view_of(value), other@),
{
    match value {
        Some(v) => v,
        None => other.clone(),
    }
}

/// The mail folders to look into; `INBOX` where none is named.
pub open spec fn mail_folders(folders: Seq<Seq<char>>) -> Seq<Seq<char>> {
    if folders.len() == 0 {
        seq!["INBOX"@]
    } else {
        folders
    }
}

/// The mail folders to look into.
fn folders_or_inbox(folders: Vec<String>) -> (chosen: Vec<String>)
    ensures
        text::views(chosen@) == mail_folders(text::views(folders@)),
{
    if folders.len() == 0 {
        let mut chosen: Vec<String> = Vec::new();
        chosen.push("INBOX".to_owned());
        proof {
            assert(text::views(chosen@) =~= seq!["INBOX"@]);
        }
        chosen
    } else {
        folders
    }
}

/// A named email adapter of the file. Without its IMAP credentials and its SMTP host
/// it is disabled. Sending falls back on the credentials for reading, and the sender's
/// address on the name that mail is sent under.
pub open spec fn email_instance(
    context: ResolveContext,
    toml: TomlEmailInstanceConfig,
) -> EmailInstanceView {
    let imap_host = resolve::resolved_option(context, toml.imap_host);
    let imap_username = resolve::resolved_option(context, toml.imap_username);
    let imap_password = resolve::resolved_option(context, toml.imap_password);
    let smtp_host = resolve::resolved_option(context, toml.smtp_host);
    let smtp_username = or_text(
        resolve::resolved_option(context, toml.smtp_username),
        resolve::or_empty(imap_username),
    );
    EmailInstanceView {
        name: toml.name@,
        enabled: toml.enabled && imap_host is Some && imap_username is Some && imap_password is Some
            && smtp_host is Some,
        imap_host: resolve::or_empty(imap_host),
        imap_port: toml.imap_port,
        imap_username: resolve::or_empty(imap_username),
        imap_password: resolve::or_empty(imap_password),
        imap_use_tls: toml.imap_use_tls,
        smtp_host: resolve::or_empty(smtp_host),
        smtp_port: toml.smtp_port,
        smtp_username,
        smtp_password: or_text(
            resolve::resolved_option(context, toml.smtp_password),
            resolve::or_empty(imap_password),
        ),
        smtp_use_starttls: toml.smtp_use_starttls,
        from_address: or_text(resolve::resolved_option(context, toml.from_address), smtp_username),
        from_name: resolve::resolved_option(context, toml.from_name),
        poll_interval_secs: toml.poll_interval_secs,
        folders: mail_folders(text::views(toml.folders@)),
        allowed_senders: text::views(toml.allowed_senders@),
        max_body_bytes: toml.max_body_bytes,
        max_attachment_bytes: toml.max_attachment_bytes,
    }
}

/// A value of the default email adapter.
pub open spec fn mail_value(
    context: ResolveContext,
    name: Seq<char>,
    value: Option<String>,
) -> Option<Seq<char>> {
    resolve::or_else(context.var(name), resolve::resolved_option(context, value))
}

/// The default email adapter has what it needs.
pub open spec fn has_default_mail(context: ResolveContext, toml: TomlEmailConfig) -> bool {
    &&& mail_value(context, "EMAIL_IMAP_HOST"@, toml.imap_host) is Some
    &&& mail_value(context, "EMAIL_IMAP_USERNAME"@, toml.imap_username) is Some
    &&& mail_value(context, "EMAIL_IMAP_PASSWORD"@, toml.imap_password) is Some
    &&& mail_value(context, "EMAIL_SMTP_HOST"@, toml.smtp_host) is Some
}

/// The email settings of the file; none where the default adapter lacks something and
/// there is no instance.
pub open spec fn email(context: ResolveContext, toml: TomlEmailConfig) -> Option<EmailView> {
    if !has_default_mail(context, toml) && toml.instances@.len() == 0 {
        None
    } else {
        let imap_username = resolve::or_empty(
            mail_value(context, "EMAIL_IMAP_USERNAME"@, toml.imap_username),
        );
        let imap_password = resolve::or_empty(
            mail_value(context, "EMAIL_IMAP_PASSWORD"@, toml.imap_password),
        );
        let smtp_username = or_text(
            mail_value(context, "EMAIL_SMTP_USERNAME"@, toml.smtp_username),
            imap_username,
        );
        Some(
            EmailView {
                enabled: toml.enabled,
                imap_host: resolve::or_empty(
                    mail_value(context, "EMAIL_IMAP_HOST"@, toml.imap_host),
                ),
                imap_port: toml.imap_port,
                imap_username,
                imap_password,
                imap_use_tls: toml.imap_use_tls,
                smtp_host: resolve::or_empty(
                    mail_value(context, "EMAIL_SMTP_HOST"@, toml.smtp_host),
                ),
                smtp_port: toml.smtp_port,
                smtp_username,
                smtp_password: or_text(
                    mail_value(context, "EMAIL_SMTP_PASSWORD"@, toml.smtp_password),
                    imap_password,
                ),
                smtp_use_starttls: toml.smtp_use_starttls,
                from_address: or_text(
                    mail_value(context, "EMAIL_FROM_ADDRESS"@, toml.from_address),
                    smtp_username,
                ),
                from_name: mail_value(context, "EMAIL_FROM_NAME"@, toml.from_name),
                poll_interval_secs: toml.poll_interval_secs,
                folders: mail_folders(text::views(toml.folders@)),
                allowed_senders: text::views(toml.allowed_senders@),
                max_body_bytes: toml.max_body_bytes,
                max_attachment_bytes: toml.max_attachment_bytes,
                instances: toml.instances@.map_values(
                    |item: TomlEmailInstanceConfig| email_instance(context, item),
                ),
            },
        )
    }
}

/// Reads a named email adapter of the file.
pub fn email_instance_from_toml(context: &ResolveContext, toml: TomlEmailInstanceConfig) -> (
instance: EmailInstanceConfig)
    ensures
        instance@ == email_instance(*context, toml),
{
    let imap_host = resolve::resolve_option(context, &toml.imap_host);
    let imap_username = resolve::resolve_option(context, &toml.imap_username);
    let imap_password = resolve::resolve_option(context, &toml.imap_password);
    let smtp_host = resolve::resolve_option(context, &toml.smtp_host);
    let has_credentials = imap_host.is_some() && imap_username.is_some() && imap_password.is_some()
        && smtp_host.is_some();
    let imap_username = resolve::text_or_empty(imap_username);
    let imap_password = resolve::text_or_empty(imap_password);
    let smtp_username = or_copy(
        resolve::resolve_option(context, &toml.smtp_username),
        &imap_username,
    );
    let smtp_password = or_copy(
        resolve::resolve_option(context, &toml.smtp_password),
        &imap_password,
    );
    let from_address = or_copy(
        resolve::resolve_option(context, &toml.from_address),
        &smtp_username,
    );
    let from_name = resolve::resolve_option(context, &toml.from_name);
    EmailInstanceConfig {
        name: toml.name,
        enabled: toml.enabled && has_credentials,
        imap_host: resolve::text_or_empty(imap_host),
        imap_port: toml.imap_port,
        imap_username,
        imap_password,
        imap_use_tls: toml.imap_use_tls,
        smtp_host: resolve::text_or_empty(smtp_host),
        smtp_port: toml.smtp_port,
        smtp_username,
        smtp_password,
        smtp_use_starttls: toml.smtp_use_starttls,
        from_address,
        from_name,
        poll_interval_secs: toml.poll_interval_secs,
        folders: folders_or_inbox(toml.folders),
        allowed_senders: toml.allowed_senders,
        max_body_bytes: toml.max_body_bytes,
        max_attachment_bytes: toml.max_attachment_bytes,
    }
}

/// Reads the named email adapters of the file.
pub fn email_instances_from_toml(
    context: &ResolveContext,
    raw: Vec<TomlEmailInstanceConfig>,
) -> (list: Vec<EmailInstanceConfig>)
    ensures
        views::list(list@) == raw@.map_values(
            |item: TomlEmailInstanceConfig| email_instance(*context, item),
        ),
{
    let ghost all = raw@;
    let mut list: Vec<EmailInstanceConfig> = Vec::new();
    for item in it: raw.into_iter()
        invariant
            it.seq() == all,
            list@.len() == it.index(),
            forall|j: int|
                0 <= j < it.index() ==> (#[trigger] list@[j])@ == email_instance(*context, all[j]),
    {
        list.push(email_instance_from_toml(context, item));
    }
    proof {
        assert(views::list(list@) =~= all.map_values(
            |item: TomlEmailInstanceConfig| email_instance(*context, item),
        ));
    }
    list
}

/// Reads the email settings of the file.
pub fn email_from_toml(context: &ResolveContext, toml: TomlEmailConfig) -> (config: Option<
    EmailConfig,
>)
    ensures
        views::optional(config) == email(*context, toml),
{
    let imap_host = resolve::env_then_file(context, "EMAIL_IMAP_HOST", &toml.imap_host);
    let imap_username = resolve::env_then_file(context, "EMAIL_IMAP_USERNAME", &toml.imap_username);
    let imap_password = resolve::env_then_file(context, "EMAIL_IMAP_PASSWORD", &toml.imap_password);
    let smtp_host = resolve::env_then_file(context, "EMAIL_SMTP_HOST", &toml.smtp_host);
    let has_default = imap_host.is_some() && imap_username.is_some() && imap_password.is_some()
        && smtp_host.is_some();
    if !has_default && toml.instances.len() == 0 {
        return None;
    }
    let imap_host = resolve::text_or_empty(imap_host);
    let imap_username = resolve::text_or_empty(imap_username);
    let imap_password = resolve::text_or_empty(imap_password);
    let smtp_host = resolve::text_or_empty(smtp_host);
    let smtp_username = or_copy(
        resolve::env_then_file(context, "EMAIL_SMTP_USERNAME", &toml.smtp_username),
        &imap_username,
    );
    let smtp_password = or_copy(
        resolve::env_then_file(context, "EMAIL_SMTP_PASSWORD", &toml.smtp_password),
        &imap_password,
    );
    let from_address = or_copy(
        resolve::env_then_file(context, "EMAIL_FROM_ADDRESS", &toml.from_address),
        &smtp_username,
    );
    let from_name = resolve::env_then_file(context, "EMAIL_FROM_NAME", &toml.from_name);
    Some(
        EmailConfig {
            enabled: toml.enabled,
            imap_host,
            imap_port: toml.imap_port,
            imap_username,
            imap_password,
            imap_use_tls: toml.imap_use_tls,
            smtp_host,
            smtp_port: toml.smtp_port,
            smtp_username,
            smtp_password,
            smtp_use_starttls: toml.smtp_use_starttls,
            from_address,
            from_name,
            poll_interval_secs: toml.poll_interval_secs,
            folders: folders_or_inbox(toml.folders),
            allowed_senders: toml.allowed_senders,
            max_body_bytes: toml.max_body_bytes,
            max_attachment_bytes: toml.max_attachment_bytes,
            instances: email_instances_from_toml(context, toml.instances),
        },
    )
}

/// A named Twitch bot of the file. Without its user name and token it is disabled.
pub open spec fn twitch_instance(
    context: ResolveContext,
    toml: TomlTwitchInstanceConfig,
) -> TwitchInstanceView {
    let username = resolve::resolved_option(context, toml.username);
    let oauth_token = resolve::resolved_option(context, toml.oauth_token);
    TwitchInstanceView {
        name: toml.name@,
        enabled: toml.enabled && username is Some && oauth_token is Some,
        username: resolve::or_empty(username),
        oauth_token: resolve::or_empty(oauth_token),
        client_id: resolve::resolved_option(context, toml.client_id),
        client_secret: resolve::resolved_option(context, toml.client_secret),
        refresh_token: resolve::resolved_option(context, toml.refresh_token),
        channels: text::views(toml.channels@),
        trigger_prefix: text::view_of(toml.trigger_prefix),
    }
}

/// The Twitch settings of the file; none where the user name or the token is missing
/// and there is no instance. The values for refreshing the token come from the file
/// before they come from the environment.
pub open spec fn twitch(context: ResolveContext, toml: TomlTwitchConfig) -> Option<TwitchView> {
    let username = resolve::or_else(
        context.var("TWITCH_BOT_USERNAME"@),
        resolve::resolved_option(context, toml.username),
    );
    let oauth_token = resolve::or_else(
        context.var("TWITCH_OAUTH_TOKEN"@),
        resolve::resolved_option(context, toml.oauth_token),
    );
    if (username is None || oauth_token is None) && toml.instances@.len() == 0 {
        None
    } else {
        Some(
            TwitchView {
                enabled: toml.enabled,
                username: resolve::or_empty(username),
                oauth_token: resolve::or_empty(oauth_token),
                client_id: resolve::or_else(
                    resolve::resolved_option(context, toml.client_id),
                    context.var("TWITCH_CLIENT_ID"@),
                ),
                client_secret: resolve::or_else(
                    resolve::resolved_option(context, toml.client_secret),
                    context.var("TWITCH_CLIENT_SECRET"@),
                ),
                refresh_token: resolve::or_else(
                    resolve::resolved_option(context, toml.refresh_token),
                    context.var("TWITCH_REFRESH_TOKEN"@),
                ),
                instances: toml.instances@.map_values(
                    |item: TomlTwitchInstanceConfig| twitch_instance(context, item),
                ),
                channels: text::views(toml.channels@),
                trigger_prefix: text::view_of(toml.trigger_prefix),
            },
        )
    }
}

/// Reads a named Twitch bot of the file.
pub fn twitch_instance_from_toml(context: &ResolveContext, toml: TomlTwitchInstanceConfig) -> (
instance: TwitchInstanceConfig)
    ensures
        instance@ == twitch_instance(*context, toml),
{
    let username = resolve::resolve_option(context, &toml.username);
    let oauth_token = resolve::resolve_option(context, &toml.oauth_token);
    TwitchInstanceConfig {
        name: toml.name,
        enabled: toml.enabled && username.is_some() && oauth_token.is_some(),
        username: resolve::text_or_empty(username),
        oauth_token: resolve::text_or_empty(oauth_token),
        client_id: resolve::resolve_option(context, &toml.client_id),
        client_secret: resolve::resolve_option(context, &toml.client_secret),
        refresh_token: resolve::resolve_option(context, &toml.refresh_token),
        channels: toml.channels,
        trigger_prefix: toml.trigger_prefix,
    }
}

/// Reads the named Twitch bots of the file.
pub fn twitch_instances_from_toml(
    context: &ResolveContext,
    raw: Vec<TomlTwitchInstanceConfig>,
) -> (list: Vec<TwitchInstanceConfig>)
    ensures
        views::list(list@) == raw@.map_values(
            |item: TomlTwitchInstanceConfig| twitch_instance(*context, item),
        ),
{
    let ghost all = raw@;
    let mut list: Vec<TwitchInstanceConfig> = Vec::new();
    for item in it: raw.into_iter()
        invariant
            it.seq() == all,
            list@.len() == it.index(),
            forall|j: int|
                0 <= j < it.index() ==> (#[trigger] list@[j])@ == twitch_instance(*context, all[j]),
    {
        list.push(twitch_instance_from_toml(context, item));
    }
    proof {
        assert(views::list(list@) =~= all.map_values(
            |item: TomlTwitchInstanceConfig| twitch_instance(*context, item),
        ));
    }
    list
}

/// Reads the Twitch settings of the file.
pub fn twitch_from_toml(context: &ResolveContext, toml: TomlTwitchConfig) -> (config: Option<
    TwitchConfig,
>)
    ensures
        views::optional(config) == twitch(*context, toml),
{
    let username = resolve::env_then_file(context, "TWITCH_BOT_USERNAME", &toml.username);
    let oauth_token = resolve::env_then_file(context, "TWITCH_OAUTH_TOKEN", &toml.oauth_token);
    if (username.is_none() || oauth_token.is_none()) && toml.instances.len() == 0 {
        return None;
    }
    let client_id = resolve::file_then_env(context, &toml.client_id, "TWITCH_CLIENT_ID");
    let client_secret = resolve::file_then_env(
        context,
        &toml.client_secret,
        "TWITCH_CLIENT_SECRET",
    );
    let refresh_token = resolve::file_then_env(
        context,
        &toml.refresh_token,
        "TWITCH_REFRESH_TOKEN",
    );
    Some(
        TwitchConfig {
            enabled: toml.enabled,
            username: resolve::text_or_empty(username),
            oauth_token: resolve::text_or_empty(oauth_token),
            client_id,
            client_secret,
            refresh_token,
            instances: twitch_instances_from_toml(context, toml.instances),
            channels: toml.channels,
            trigger_prefix: toml.trigger_prefix,
        },
    )
}

/// A named Signal adapter of the file. Without its address and its account it is
/// disabled.
pub open spec fn signal_instance(
    context: ResolveContext,
    toml: TomlSignalInstanceConfig,
) -> SignalInstanceView {
    let http_url = resolve::resolved_option(context, toml.http_url);
    let account = resolve::resolved_option(context, toml.account);
    SignalInstanceView {
        name: toml.name@,
        enabled: toml.enabled && http_url is Some && account is Some,
        http_url: resolve::or_empty(http_url),
        account: resolve::or_empty(account),
        dm_allowed_users: text::views(toml.dm_allowed_users@),
        group_ids: text::views(toml.group_ids@),
        group_allowed_users: text::views(toml.group_allowed_users@),
        ignore_stories: toml.ignore_stories,
    }
}

/// Some adapter of the list is enabled.
pub open spec fn any_enabled(instances: Seq<SignalInstanceView>) -> bool {
    exists|i: int| 0 <= i < instances.len() && (#[trigger] instances[i]).enabled
}

/// The Signal settings of the file; none where the address or the account is missing
/// and no instance is enabled.
pub open spec fn signal(context: ResolveContext, toml: TomlSignalConfig) -> Option<SignalView> {
    let http_url = resolve::or_else(
        context.var("SIGNAL_HTTP_URL"@),
        resolve::resolved_option(context, toml.http_url),
    );
    let account = resolve::or_else(
        context.var("SIGNAL_ACCOUNT"@),
        resolve::resolved_option(context, toml.account),
    );
    let instances = toml.instances@.map_values(
        |item: TomlSignalInstanceConfig| signal_instance(context, item),
    );
    if (http_url is None || account is None) && !any_enabled(instances) {
        None
    } else {
        Some(
            SignalView {
                enabled: toml.enabled,
                http_url: resolve::or_empty(http_url),
                account: resolve::or_empty(account),
                instances,
                dm_allowed_users: text::views(toml.dm_allowed_users@),
                group_ids: text::views(toml.group_ids@),
                group_allowed_users: text::views(toml.group_allowed_users@),
                ignore_stories: toml.ignore_stories,
            },
        )
    }
}

/// Reads a named Signal adapter of the file.
pub fn signal_instance_from_toml(context: &ResolveContext, toml: TomlSignalInstanceConfig) -> (
instance: SignalInstanceConfig)
    ensures
        instance@ == signal_instance(*context, toml),
{
    let http_url = resolve::resolve_option(context, &toml.http_url);
    let account = resolve::resolve_option(context, &toml.account);
    SignalInstanceConfig {
        name: toml.name,
        enabled: toml.enabled && http_url.is_some() && account.is_some(),
        http_url: resolve::text_or_empty(http_url),
        account: resolve::text_or_empty(account),
        dm_allowed_users: toml.dm_allowed_users,
        group_ids: toml.group_ids,
        group_allowed_users: toml.group_allowed_users,
        ignore_stories: toml.ignore_stories,
    }
}

/// Whether some adapter of the list is enabled.
fn has_enabled(instances: &Vec<SignalInstanceConfig>) -> (yes: bool)
    ensures
        yes == any_enabled(views::list(instances@)),
{
    let ghost list = views::list(instances@);
    let mut i: usize = 0;
    while i < instances.len()
        invariant
            i <= instances@.len(),
            list == views::list(instances@),
            forall|j: int| 0 <= j < i ==> !(#[trigger] list[j]).enabled,
        decreases instances@.len() - i,
    {
        assert(list[i as int] == instances@[i as int]@);
        if instances[i].enabled {
            assert(list[i as int].enabled);
            return true;
        }
        i += 1;
    }
    false
}

/// Reads the named Signal adapters of the file.
pub fn signal_instances_from_toml(
    context: &ResolveContext,
    raw: Vec<TomlSignalInstanceConfig>,
) -> (list: Vec<SignalInstanceConfig>)
    ensures
        views::list(list@) == raw@.map_values(
            |item: TomlSignalInstanceConfig| signal_instance(*context, item),
        ),
{
    let ghost all = raw@;
    let mut list: Vec<SignalInstanceConfig> = Vec::new();
    for item in it: raw.into_iter()
        invariant
            it.seq() == all,
            list@.len() == it.index(),
            forall|j: int|
                0 <= j < it.index() ==> (#[trigger] list@[j])@ == signal_instance(*context, all[j]),
    {
        list.push(signal_instance_from_toml(context, item));
    }
    proof {
        assert(views::list(list@) =~= all.map_values(
            |item: TomlSignalInstanceConfig| signal_instance(*context, item),
        ));
    }
    list
}

/// Reads the Signal settings of the file.
pub fn signal_from_toml(context: &ResolveContext, toml: TomlSignalConfig) -> (config: Option<
    SignalConfig,
>)
    ensures
        views::optional(config) == signal(*context, toml),
{
    let http_url = resolve::env_then_file(context, "SIGNAL_HTTP_URL", &toml.http_url);
    let account = resolve::env_then_file(context, "SIGNAL_ACCOUNT", &toml.account);
    let instances = signal_instances_from_toml(context, toml.instances);
    if (http_url.is_none() || account.is_none()) && !has_enabled(&instances) {
        return None;
    }
    Some(
        SignalConfig {
            enabled: toml.enabled,
            http_url: resolve::text_or_empty(http_url),
            account: resolve::text_or_empty(account),
            instances,
            dm_allowed_users: toml.dm_allowed_users,
            group_ids: toml.group_ids,
            group_allowed_users: toml.group_allowed_users,
            ignore_stories: toml.ignore_stories,
        },
    )
}

/// The webhook of the file.
pub open spec fn webhook(context: ResolveContext, toml: TomlWebhookConfig) -> WebhookView {
    WebhookView {
        enabled: toml.enabled,
        port: toml.port,
        bind: toml.bind@,
        auth_token: resolve::resolved_option(context, toml.auth_token),
    }
}

/// The messaging platforms of the file.
pub open spec fn messaging(context: ResolveContext, toml: TomlMessagingConfig) -> MessagingView {
    MessagingView {
        discord: match toml.discord {
            Some(t) => discord(context, t),
            None => None,
        },
        slack: match toml.slack {
            Some(t) => slack(context, t),
            None => None,
        },
        telegram: match toml.telegram {
            Some(t) => telegram(context, t),
            None => None,
        },
        email: match toml.email {
            Some(t) => email(context, t),
            None => None,
        },
        webhook: match toml.webhook {
            Some(t) => Some(webhook(context, t)),
            None => None,
        },
        twitch: match toml.twitch {
            Some(t) => twitch(context, t),
            None => None,
        },
        signal: match toml.signal {
            Some(t) => signal(context, t),
            None => None,
        },
    }
}

/// Reads the messaging platforms of the file.
pub fn messaging_from_toml(
    context: &ResolveContext,
    toml: TomlMessagingConfig,
) -> (config: MessagingConfig)
    ensures
        config@ == messaging(*context, toml),
{
    MessagingConfig {
        discord: match toml.discord {
            Some(t) => discord_from_toml(context, t),
            None => None,
        },
        slack: match toml.slack {
            Some(t) => slack_from_toml(context, t),
            None => None,
        },
        telegram: match toml.telegram {
            Some(t) => telegram_from_toml(context, t),
            None => None,
        },
        email: match toml.email {
            Some(t) => email_from_toml(context, t),
            None => None,
        },
        webhook: match toml.webhook {
            Some(t) => Some(
                WebhookConfig {
                    enabled: t.enabled,
                    port: t.port,
                    bind: t.bind,
                    auth_token: resolve::resolve_option(context, &t.auth_token),
                },
            ),
            None => None,
        },
        twitch: match toml.twitch {
            Some(t) => twitch_from_toml(context, t),
            None => None,
        },
        signal: match toml.signal {
            Some(t) => signal_from_toml(context, t),
            None => None,
        },
    }
}

/// An instance that is enabled has the credentials it needs: every reference to them
/// was resolved.
pub proof fn law_enabled_instances_have_credentials(
    context: ResolveContext,
    on_discord: TomlDiscordInstanceConfig,
    on_slack: TomlSlackInstanceConfig,
    on_telegram: TomlTelegramInstanceConfig,
    by_mail: TomlEmailInstanceConfig,
    on_twitch: TomlTwitchInstanceConfig,
    on_signal: TomlSignalInstanceConfig,
)
    ensures
        discord_instance(context, on_discord).enabled ==> resolve::resolved_option(
            context,
            on_discord.token,
        ) == Some(discord_instance(context, on_discord).token),
        slack_instance(context, on_slack).enabled ==> resolve::resolved_option(
            context,
            on_slack.bot_token,
        ) == Some(slack_instance(context, on_slack).bot_token) && resolve::resolved_option(
            context,
            on_slack.app_token,
        ) == Some(slack_instance(context, on_slack).app_token),
        telegram_instance(context, on_telegram).enabled ==> resolve::resolved_option(
            context,
            on_telegram.token,
        ) == Some(telegram_instance(context, on_telegram).token),
        email_instance(context, by_mail).enabled ==> {
            let instance = email_instance(context, by_mail);
            &&& resolve::resolved_option(context, by_mail.imap_host) == Some(instance.imap_host)
            &&& resolve::resolved_option(context, by_mail.imap_username) == Some(
                instance.imap_username,
            )
            &&& resolve::resolved_option(context, by_mail.imap_password) == Some(
                instance.imap_password,
            )
            &&& resolve::resolved_option(context, by_mail.smtp_host) == Some(instance.smtp_host)
        },
        twitch_instance(context, on_twitch).enabled ==> {
            let instance = twitch_instance(context, on_twitch);
            &&& resolve::resolved_option(context, on_twitch.username) == Some(instance.username)
            &&& resolve::resolved_option(context, on_twitch.oauth_token) == Some(
                instance.oauth_token,
            )
        },
        signal_instance(context, on_signal).enabled ==> {
            let instance = signal_instance(context, on_signal);
            &&& resolve::resolved_option(context, on_signal.http_url) == Some(instance.http_url)
            &&& resolve::resolved_option(context, on_signal.account) == Some(instance.account)
        },
{
}

} // verus!
