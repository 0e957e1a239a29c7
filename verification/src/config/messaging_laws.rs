//! What the messaging sections of a file set, and what comes of it.
use crate::config::credential_laws;
use crate::config::file_laws;
use crate::config::messaging::{
    DiscordInstanceView, DiscordView, EmailInstanceView, EmailView, SignalInstanceView, SignalView,
    SlackCommandView, SlackInstanceView, SlackView, TelegramInstanceView, TelegramView,
    TwitchInstanceView, TwitchView, WebhookView,
};
use crate::config::messaging_load;
use crate::config::resolve::ResolveContext;
use crate::config::toml_schema::{TomlMessagingConfig, TomlSlackCommandConfig};
use crate::text;
use vstd::prelude::*;

verus! {

/// The value where there is one, and an empty text else.
pub open spec fn filled(value: Option<Seq<char>>) -> Seq<char> {
    if value is Some {
        value->0
    } else {
        Seq::empty()
    }
}

/// The value where there is one, and the other else.
pub open spec fn instead(value: Option<Seq<char>>, other: Seq<char>) -> Seq<char> {
    if value is Some {
        value->0
    } else {
        other
    }
}

/// A platform without a section is not configured.
pub proof fn law_platforms_need_a_section(context: ResolveContext, toml: TomlMessagingConfig)
    ensures
        toml.discord is None ==> messaging_load::messaging(context, toml).discord is None,
        toml.slack is None ==> messaging_load::messaging(context, toml).slack is None,
        toml.telegram is None ==> messaging_load::messaging(context, toml).telegram is None,
        toml.email is None ==> messaging_load::messaging(context, toml).email is None,
        toml.webhook is None ==> messaging_load::messaging(context, toml).webhook is None,
        toml.twitch is None ==> messaging_load::messaging(context, toml).twitch is None,
        toml.signal is None ==> messaging_load::messaging(context, toml).signal is None,
{
}

/// Discord is configured where it has a token, from the environment or else from the file,
/// or an instance. It has what its section sets, and its instances are those of the
/// section, in order, each with the token that it names; one without a token is switched
/// off.
pub proof fn law_discord_is_that_of_the_file(
    context: ResolveContext,
    toml: TomlMessagingConfig,
    i: int,
)
    requires
        toml.discord is Some,
    ensures
        ({
            let section = toml.discord->0;
            let token = credential_laws::either(file_laws::env(context, "DISCORD_BOT_TOKEN"@), credential_laws::written(context, section.token));
            let result = messaging_load::messaging(context, toml).discord;
            &&& result is Some <==> token is Some || section.instances@.len() > 0
            &&& result matches Some(discord) ==> {
                &&& discord.enabled == section.enabled
                &&& discord.token == filled(token)
                &&& discord.dm_allowed_users == text::views(section.dm_allowed_users@)
                &&& discord.allow_bot_messages == section.allow_bot_messages
                &&& discord.instances.len() == section.instances@.len()
                &&& 0 <= i < section.instances@.len() ==> {
                    let own = section.instances@[i];
                    discord.instances[i] == (DiscordInstanceView {
                        name: own.name@,
                        enabled: own.enabled && credential_laws::written(context, own.token) is Some,
                        token: filled(credential_laws::written(context, own.token)),
                        dm_allowed_users: text::views(own.dm_allowed_users@),
                        allow_bot_messages: own.allow_bot_messages,
                    })
                }
            }
        }),
{
}

/// Telegram is configured where it has a token, from the environment or else from the
/// file, or an instance. It has what its section sets, and its instances are those of the
/// section, in order, each with the token that it names; one without a token is switched
/// off.
pub proof fn law_telegram_is_that_of_the_file(
    context: ResolveContext,
    toml: TomlMessagingConfig,
    i: int,
)
    requires
        toml.telegram is Some,
    ensures
        ({
            let section = toml.telegram->0;
            let token = credential_laws::either(file_laws::env(context, "TELEGRAM_BOT_TOKEN"@), credential_laws::written(context, section.token));
            let result = messaging_load::messaging(context, toml).telegram;
            &&& result is Some <==> token is Some || section.instances@.len() > 0
            &&& result matches Some(telegram) ==> {
                &&& telegram.enabled == section.enabled
                &&& telegram.token == filled(token)
                &&& telegram.dm_allowed_users == text::views(section.dm_allowed_users@)
                &&& telegram.instances.len() == section.instances@.len()
                &&& 0 <= i < section.instances@.len() ==> {
                    let own = section.instances@[i];
                    telegram.instances[i] == (TelegramInstanceView {
                        name: own.name@,
                        enabled: own.enabled && credential_laws::written(context, own.token) is Some,
                        token: filled(credential_laws::written(context, own.token)),
                        dm_allowed_users: text::views(own.dm_allowed_users@),
                    })
                }
            }
        }),
{
}

/// The commands of a list are those of its sections, in order.
proof fn lemma_commands(list: Seq<TomlSlackCommandConfig>)
    ensures
        list.map_values(|item: TomlSlackCommandConfig| messaging_load::slack_command(item))
            == list.map_values(
            |item: TomlSlackCommandConfig|
                SlackCommandView {
                    command: item.command@,
                    agent_id: item.agent_id@,
                    description: text::view_of(item.description),
                },
        ),
{
    let a = list.map_values(|item: TomlSlackCommandConfig| messaging_load::slack_command(item));
    let b = list.map_values(
        |item: TomlSlackCommandConfig|
            SlackCommandView {
                command: item.command@,
                agent_id: item.agent_id@,
                description: text::view_of(item.description),
            },
    );
    assert(a =~= b);
}

/// Slack is configured where it has both tokens, from the environment or else from the
/// file, or an instance. It has what its section sets, commands and all, and its instances
/// are those of the section, in order, each with the tokens that it names; one without
/// both is switched off.
pub proof fn law_slack_is_that_of_the_file(
    context: ResolveContext,
    toml: TomlMessagingConfig,
    i: int,
)
    requires
        toml.slack is Some,
    ensures
        ({
            let section = toml.slack->0;
            let bot = credential_laws::either(file_laws::env(context, "SLACK_BOT_TOKEN"@), credential_laws::written(context, section.bot_token));
            let app = credential_laws::either(file_laws::env(context, "SLACK_APP_TOKEN"@), credential_laws::written(context, section.app_token));
            let result = messaging_load::messaging(context, toml).slack;
            &&& result is Some <==> (bot is Some && app is Some) || section.instances@.len() > 0
            &&& result matches Some(slack) ==> {
                &&& slack.enabled == section.enabled
                &&& slack.bot_token == filled(bot)
                &&& slack.app_token == filled(app)
                &&& slack.dm_allowed_users == text::views(section.dm_allowed_users@)
                &&& slack.commands == section.commands@.map_values(
                    |item: TomlSlackCommandConfig|
                        SlackCommandView {
                            command: item.command@,
                            agent_id: item.agent_id@,
                            description: text::view_of(item.description),
                        },
                )
                &&& slack.instances.len() == section.instances@.len()
                &&& 0 <= i < section.instances@.len() ==> {
                    let own = section.instances@[i];
                    slack.instances[i] == (SlackInstanceView {
                        name: own.name@,
                        enabled: own.enabled && credential_laws::written(context, own.bot_token) is Some && credential_laws::written(
                            context,
                            own.app_token,
                        ) is Some,
                        bot_token: filled(credential_laws::written(context, own.bot_token)),
                        app_token: filled(credential_laws::written(context, own.app_token)),
                        dm_allowed_users: text::views(own.dm_allowed_users@),
                        commands: own.commands@.map_values(
                            |item: TomlSlackCommandConfig|
                                SlackCommandView {
                                    command: item.command@,
                                    agent_id: item.agent_id@,
                                    description: text::view_of(item.description),
                                },
                        ),
                    })
                }
            }
        }),
{
    let section = toml.slack->0;
    lemma_commands(section.commands@);
    if 0 <= i < section.instances@.len() {
        lemma_commands(section.instances@[i].commands@);
    }
}

/// Twitch is configured where it has a name and a token, from the environment or else from
/// the file, or an instance. Its client and its refresh token come from the file and else
/// from the environment; the rest is what its section sets, and its instances are those of
/// the section, in order.
pub proof fn law_twitch_is_that_of_the_file(
    context: ResolveContext,
    toml: TomlMessagingConfig,
    i: int,
)
    requires
        toml.twitch is Some,
    ensures
        ({
            let section = toml.twitch->0;
            let name = credential_laws::either(
                file_laws::env(context, "TWITCH_BOT_USERNAME"@),
                credential_laws::written(context, section.username),
            );
            let token = credential_laws::either(
                file_laws::env(context, "TWITCH_OAUTH_TOKEN"@),
                credential_laws::written(context, section.oauth_token),
            );
            let result = messaging_load::messaging(context, toml).twitch;
            &&& result is Some <==> (name is Some && token is Some) || section.instances@.len() > 0
            &&& result matches Some(twitch) ==> {
                &&& twitch.enabled == section.enabled
                &&& twitch.username == filled(name)
                &&& twitch.oauth_token == filled(token)
                &&& twitch.client_id == credential_laws::either(
                    credential_laws::written(context, section.client_id),
                    file_laws::env(context, "TWITCH_CLIENT_ID"@),
                )
                &&& twitch.client_secret == credential_laws::either(
                    credential_laws::written(context, section.client_secret),
                    file_laws::env(context, "TWITCH_CLIENT_SECRET"@),
                )
                &&& twitch.refresh_token == credential_laws::either(
                    credential_laws::written(context, section.refresh_token),
                    file_laws::env(context, "TWITCH_REFRESH_TOKEN"@),
                )
                &&& twitch.channels == text::views(section.channels@)
                &&& twitch.trigger_prefix == text::view_of(section.trigger_prefix)
                &&& twitch.instances.len() == section.instances@.len()
                &&& 0 <= i < section.instances@.len() ==> {
                    let own = section.instances@[i];
                    twitch.instances[i] == (TwitchInstanceView {
                        name: own.name@,
                        enabled: own.enabled && credential_laws::written(context, own.username) is Some && credential_laws::written(
                            context,
                            own.oauth_token,
                        ) is Some,
                        username: filled(credential_laws::written(context, own.username)),
                        oauth_token: filled(credential_laws::written(context, own.oauth_token)),
                        client_id: credential_laws::written(context, own.client_id),
                        client_secret: credential_laws::written(context, own.client_secret),
                        refresh_token: credential_laws::written(context, own.refresh_token),
                        channels: text::views(own.channels@),
                        trigger_prefix: text::view_of(own.trigger_prefix),
                    })
                }
            }
        }),
{
}

/// Signal is configured where it has an address and an account, from the environment or
/// else from the file, or an instance that is switched on. It has what its section sets,
/// and its instances are those of the section, in order; one without address or account is
/// switched off.
pub proof fn law_signal_is_that_of_the_file(
    context: ResolveContext,
    toml: TomlMessagingConfig,
    i: int,
)
    requires
        toml.signal is Some,
    ensures
        ({
            let section = toml.signal->0;
            let url = credential_laws::either(file_laws::env(context, "SIGNAL_HTTP_URL"@), credential_laws::written(context, section.http_url));
            let account = credential_laws::either(file_laws::env(context, "SIGNAL_ACCOUNT"@), credential_laws::written(context, section.account));
            let result = messaging_load::messaging(context, toml).signal;
            let some_on = exists|j: int|
                0 <= j < section.instances@.len() && (#[trigger] section.instances@[j]).enabled
                    && credential_laws::written(context, section.instances@[j].http_url) is Some && credential_laws::written(
                    context,
                    section.instances@[j].account,
                ) is Some;
            &&& result is Some <==> (url is Some && account is Some) || some_on
            &&& result matches Some(signal) ==> {
                &&& signal.enabled == section.enabled
                &&& signal.http_url == filled(url)
                &&& signal.account == filled(account)
                &&& signal.dm_allowed_users == text::views(section.dm_allowed_users@)
                &&& signal.group_ids == text::views(section.group_ids@)
                &&& signal.group_allowed_users == text::views(section.group_allowed_users@)
                &&& signal.ignore_stories == section.ignore_stories
                &&& signal.instances.len() == section.instances@.len()
                &&& 0 <= i < section.instances@.len() ==> {
                    let own = section.instances@[i];
                    signal.instances[i] == (SignalInstanceView {
                        name: own.name@,
                        enabled: own.enabled && credential_laws::written(context, own.http_url) is Some && credential_laws::written(
                            context,
                            own.account,
                        ) is Some,
                        http_url: filled(credential_laws::written(context, own.http_url)),
                        account: filled(credential_laws::written(context, own.account)),
                        dm_allowed_users: text::views(own.dm_allowed_users@),
                        group_ids: text::views(own.group_ids@),
                        group_allowed_users: text::views(own.group_allowed_users@),
                        ignore_stories: own.ignore_stories,
                    })
                }
            }
        }),
{
    let section = toml.signal->0;
    let instances = section.instances@.map_values(
        |item: crate::config::toml_schema::TomlSignalInstanceConfig|
            messaging_load::signal_instance(context, item),
    );
    if messaging_load::any_enabled(instances) {
        let j = choose|j: int| 0 <= j < instances.len() && (#[trigger] instances[j]).enabled;
        assert(section.instances@[j].enabled);
    }
    assert forall|j: int|
        0 <= j < section.instances@.len() && (#[trigger] section.instances@[j]).enabled && credential_laws::written(
            context,
            section.instances@[j].http_url,
        ) is Some && credential_laws::written(
            context,
            section.instances@[j].account,
        ) is Some implies messaging_load::any_enabled(instances) by {
        assert(instances[j].enabled);
    }
}

/// Webhooks are what their section sets; their token may be a reference.
pub proof fn law_webhooks_are_those_of_the_file(context: ResolveContext, toml: TomlMessagingConfig)
    requires
        toml.webhook is Some,
    ensures
        messaging_load::messaging(context, toml).webhook == Some(
            WebhookView {
                enabled: toml.webhook->0.enabled,
                port: toml.webhook->0.port,
                bind: toml.webhook->0.bind@,
                auth_token: credential_laws::written(context, toml.webhook->0.auth_token),
            },
        ),
{
}

/// A value of the mail account: that of the environment, or else that of the file.
pub open spec fn mail(context: ResolveContext, name: Seq<char>, value: Option<String>) -> Option<
    Seq<char>,
> {
    credential_laws::either(file_laws::env(context, name), credential_laws::written(context, value))
}

/// Mail is configured where it has a host, a name and a password to read from and a host to
/// send by, each from the environment or else from the file, or an instance. The account
/// to send by is that to read from unless it is given, and so is the sender's address; the
/// folder is the inbox unless folders are given. The rest is what the section sets.
pub proof fn law_mail_is_that_of_the_file(context: ResolveContext, toml: TomlMessagingConfig)
    requires
        toml.email is Some,
    ensures
        ({
            let section = toml.email->0;
            let host = mail(context, "EMAIL_IMAP_HOST"@, section.imap_host);
            let name = mail(context, "EMAIL_IMAP_USERNAME"@, section.imap_username);
            let password = mail(context, "EMAIL_IMAP_PASSWORD"@, section.imap_password);
            let out = mail(context, "EMAIL_SMTP_HOST"@, section.smtp_host);
            let out_name = mail(context, "EMAIL_SMTP_USERNAME"@, section.smtp_username);
            let out_password = mail(context, "EMAIL_SMTP_PASSWORD"@, section.smtp_password);
            let sender = mail(context, "EMAIL_FROM_ADDRESS"@, section.from_address);
            let result = messaging_load::messaging(context, toml).email;
            &&& result is Some <==> (host is Some && name is Some && password is Some
                && out is Some) || section.instances@.len() > 0
            &&& result matches Some(email) ==> {
                &&& email.enabled == section.enabled
                &&& email.imap_host == filled(host)
                &&& email.imap_port == section.imap_port
                &&& email.imap_username == filled(name)
                &&& email.imap_password == filled(password)
                &&& email.imap_use_tls == section.imap_use_tls
                &&& email.smtp_host == filled(out)
                &&& email.smtp_port == section.smtp_port
                &&& email.smtp_username == instead(out_name, filled(name))
                &&& email.smtp_password == instead(out_password, filled(password))
                &&& email.smtp_use_starttls == section.smtp_use_starttls
                &&& email.from_address == instead(sender, instead(out_name, filled(name)))
                &&& email.from_name == mail(context, "EMAIL_FROM_NAME"@, section.from_name)
                &&& email.poll_interval_secs == section.poll_interval_secs
                &&& email.folders == (if section.folders@.len() > 0 {
                    text::views(section.folders@)
                } else {
                    seq!["INBOX"@]
                })
                &&& email.allowed_senders == text::views(section.allowed_senders@)
                &&& email.max_body_bytes == section.max_body_bytes
                &&& email.max_attachment_bytes == section.max_attachment_bytes
                &&& email.instances.len() == section.instances@.len()
            }
        }),
{
}

/// The instances of mail are those of the section, in order, each with what it sets; one
/// without a host, a name and a password to read from and a host to send by is switched
/// off.
pub proof fn law_mail_instances_are_those_of_the_file(
    context: ResolveContext,
    toml: TomlMessagingConfig,
    i: int,
)
    requires
        toml.email is Some,
        messaging_load::messaging(context, toml).email is Some,
        0 <= i < toml.email->0.instances@.len(),
    ensures
        ({
            let own = toml.email->0.instances@[i];
            let host = credential_laws::written(context, own.imap_host);
            let name = credential_laws::written(context, own.imap_username);
            let password = credential_laws::written(context, own.imap_password);
            let out = credential_laws::written(context, own.smtp_host);
            let out_name = credential_laws::written(context, own.smtp_username);
            messaging_load::messaging(context, toml).email->0.instances[i] == (EmailInstanceView {
                name: own.name@,
                enabled: own.enabled && host is Some && name is Some && password is Some
                    && out is Some,
                imap_host: filled(host),
                imap_port: own.imap_port,
                imap_username: filled(name),
                imap_password: filled(password),
                imap_use_tls: own.imap_use_tls,
                smtp_host: filled(out),
                smtp_port: own.smtp_port,
                smtp_username: instead(out_name, filled(name)),
                smtp_password: instead(credential_laws::written(context, own.smtp_password), filled(password)),
                smtp_use_starttls: own.smtp_use_starttls,
                from_address: instead(
                    credential_laws::written(context, own.from_address),
                    instead(out_name, filled(name)),
                ),
                from_name: credential_laws::written(context, own.from_name),
                poll_interval_secs: own.poll_interval_secs,
                folders: if own.folders@.len() > 0 {
                    text::views(own.folders@)
                } else {
                    seq!["INBOX"@]
                },
                allowed_senders: text::views(own.allowed_senders@),
                max_body_bytes: own.max_body_bytes,
                max_attachment_bytes: own.max_attachment_bytes,
            })
        }),
{
}

} // verus!
