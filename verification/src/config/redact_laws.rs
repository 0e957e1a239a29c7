//! What is shown of a configuration: what is open as it is, and secrets not at all.
use crate::config::agent::DefaultsView;
use crate::config::messaging::{
    DiscordInstanceView, DiscordView, EmailInstanceView, EmailView, SignalInstanceView, SignalView,
    SlackInstanceView, SlackView, TelegramInstanceView, TelegramView, TwitchInstanceView,
    TwitchView,
};
use crate::config::provider::{LlmConfig, ProviderView};
use crate::config::redact;
use crate::config::redact::{KeysPresent, ShownView};
use vstd::prelude::*;

verus! {

/// A field is shown under a name, and nothing else is shown under it.
pub open spec fn shows(
    fields: Seq<(Seq<char>, ShownView)>,
    name: Seq<char>,
    value: ShownView,
) -> bool {
    &&& exists|i: int| 0 <= i < fields.len() && #[trigger] fields[i] == (name, value)
    &&& forall|i: int|
        0 <= i < fields.len() && (#[trigger] fields[i]).0 == name ==> fields[i].1 == value
}

/// What is shown of an instance of Discord: what is open under its name, and that there are secrets.
pub proof fn law_what_is_shown_of_discord_instance(c: DiscordInstanceView)
    ensures
        shows(redact::discord_instance_shown(c), "name"@, ShownView::Text(c.name)),
        shows(redact::discord_instance_shown(c), "enabled"@, ShownView::Flag(c.enabled)),
        shows(redact::discord_instance_shown(c), "token"@, ShownView::Redacted),
        shows(redact::discord_instance_shown(c), "dm_allowed_users"@, ShownView::Texts(c.dm_allowed_users)),
        shows(redact::discord_instance_shown(c), "allow_bot_messages"@, ShownView::Flag(c.allow_bot_messages)),
{
    reveal_strlit("name");
    reveal_strlit("enabled");
    reveal_strlit("token");
    reveal_strlit("dm_allowed_users");
    reveal_strlit("allow_bot_messages");
    assert("name"@.len() == 4);
    assert("enabled"@.len() == 7);
    assert("token"@.len() == 5);
    assert("dm_allowed_users"@.len() == 16);
    assert("allow_bot_messages"@.len() == 18);
    let fields = redact::discord_instance_shown(c);
    assert(fields[0].0 == "name"@);
    assert(fields[1].0 == "enabled"@);
    assert(fields[2].0 == "token"@);
    assert(fields[3].0 == "dm_allowed_users"@);
    assert(fields[4].0 == "allow_bot_messages"@);
}

/// What is shown of Discord: what is open under its name, and that there are secrets.
pub proof fn law_what_is_shown_of_discord(c: DiscordView)
    ensures
        shows(redact::discord_shown(c).fields, "enabled"@, ShownView::Flag(c.enabled)),
        shows(redact::discord_shown(c).fields, "token"@, ShownView::Redacted),
        shows(redact::discord_shown(c).fields, "dm_allowed_users"@, ShownView::Texts(c.dm_allowed_users)),
        shows(redact::discord_shown(c).fields, "allow_bot_messages"@, ShownView::Flag(c.allow_bot_messages)),
        redact::discord_shown(c).instances.len() == c.instances.len(),
        forall|i: int|
            0 <= i < c.instances.len() ==> #[trigger] redact::discord_shown(c).instances[i]
                == redact::discord_instance_shown(c.instances[i]),
{
    reveal_strlit("enabled");
    reveal_strlit("token");
    reveal_strlit("dm_allowed_users");
    reveal_strlit("allow_bot_messages");
    assert("enabled"@.len() == 7);
    assert("token"@.len() == 5);
    assert("dm_allowed_users"@.len() == 16);
    assert("allow_bot_messages"@.len() == 18);
    let fields = redact::discord_shown(c).fields;
    assert(fields[0].0 == "enabled"@);
    assert(fields[1].0 == "token"@);
    assert(fields[2].0 == "dm_allowed_users"@);
    assert(fields[3].0 == "allow_bot_messages"@);
}

/// What is shown of an instance of Slack: what is open under its name, and that there are secrets.
pub proof fn law_what_is_shown_of_slack_instance(c: SlackInstanceView)
    ensures
        shows(redact::slack_instance_shown(c), "name"@, ShownView::Text(c.name)),
        shows(redact::slack_instance_shown(c), "enabled"@, ShownView::Flag(c.enabled)),
        shows(redact::slack_instance_shown(c), "bot_token"@, ShownView::Redacted),
        shows(redact::slack_instance_shown(c), "app_token"@, ShownView::Redacted),
        shows(redact::slack_instance_shown(c), "dm_allowed_users"@, ShownView::Texts(c.dm_allowed_users)),
        shows(redact::slack_instance_shown(c), "commands"@, ShownView::Commands(c.commands)),
{
    reveal_strlit("name");
    reveal_strlit("enabled");
    reveal_strlit("bot_token");
    reveal_strlit("app_token");
    reveal_strlit("dm_allowed_users");
    reveal_strlit("commands");
    assert("name"@.len() == 4);
    assert("enabled"@.len() == 7);
    assert("bot_token"@.len() == 9 && "bot_token"@[0] == 'b');
    assert("app_token"@.len() == 9 && "app_token"@[0] == 'a');
    assert("dm_allowed_users"@.len() == 16);
    assert("commands"@.len() == 8);
    let fields = redact::slack_instance_shown(c);
    assert(fields[0].0 == "name"@);
    assert(fields[1].0 == "enabled"@);
    assert(fields[2].0 == "bot_token"@);
    assert(fields[3].0 == "app_token"@);
    assert(fields[4].0 == "dm_allowed_users"@);
    assert(fields[5].0 == "commands"@);
}

/// What is shown of Slack: what is open under its name, and that there are secrets.
pub proof fn law_what_is_shown_of_slack(c: SlackView)
    ensures
        shows(redact::slack_shown(c).fields, "enabled"@, ShownView::Flag(c.enabled)),
        shows(redact::slack_shown(c).fields, "bot_token"@, ShownView::Redacted),
        shows(redact::slack_shown(c).fields, "app_token"@, ShownView::Redacted),
        shows(redact::slack_shown(c).fields, "dm_allowed_users"@, ShownView::Texts(c.dm_allowed_users)),
        shows(redact::slack_shown(c).fields, "commands"@, ShownView::Commands(c.commands)),
        redact::slack_shown(c).instances.len() == c.instances.len(),
        forall|i: int|
            0 <= i < c.instances.len() ==> #[trigger] redact::slack_shown(c).instances[i]
                == redact::slack_instance_shown(c.instances[i]),
{
    reveal_strlit("enabled");
    reveal_strlit("bot_token");
    reveal_strlit("app_token");
    reveal_strlit("dm_allowed_users");
    reveal_strlit("commands");
    assert("enabled"@.len() == 7);
    assert("bot_token"@.len() == 9 && "bot_token"@[0] == 'b');
    assert("app_token"@.len() == 9 && "app_token"@[0] == 'a');
    assert("dm_allowed_users"@.len() == 16);
    assert("commands"@.len() == 8);
    let fields = redact::slack_shown(c).fields;
    assert(fields[0].0 == "enabled"@);
    assert(fields[1].0 == "bot_token"@);
    assert(fields[2].0 == "app_token"@);
    assert(fields[3].0 == "dm_allowed_users"@);
    assert(fields[4].0 == "commands"@);
}

/// What is shown of an instance of Telegram: what is open under its name, and that there are secrets.
pub proof fn law_what_is_shown_of_telegram_instance(c: TelegramInstanceView)
    ensures
        shows(redact::telegram_instance_shown(c), "name"@, ShownView::Text(c.name)),
        shows(redact::telegram_instance_shown(c), "enabled"@, ShownView::Flag(c.enabled)),
        shows(redact::telegram_instance_shown(c), "token"@, ShownView::Redacted),
        shows(redact::telegram_instance_shown(c), "dm_allowed_users"@, ShownView::Texts(c.dm_allowed_users)),
{
    reveal_strlit("name");
    reveal_strlit("enabled");
    reveal_strlit("token");
    reveal_strlit("dm_allowed_users");
    assert("name"@.len() == 4);
    assert("enabled"@.len() == 7);
    assert("token"@.len() == 5);
    assert("dm_allowed_users"@.len() == 16);
    let fields = redact::telegram_instance_shown(c);
    assert(fields[0].0 == "name"@);
    assert(fields[1].0 == "enabled"@);
    assert(fields[2].0 == "token"@);
    assert(fields[3].0 == "dm_allowed_users"@);
}

/// What is shown of Telegram: what is open under its name, and that there are secrets.
pub proof fn law_what_is_shown_of_telegram(c: TelegramView)
    ensures
        shows(redact::telegram_shown(c).fields, "enabled"@, ShownView::Flag(c.enabled)),
        shows(redact::telegram_shown(c).fields, "token"@, ShownView::Redacted),
        shows(redact::telegram_shown(c).fields, "dm_allowed_users"@, ShownView::Texts(c.dm_allowed_users)),
        redact::telegram_shown(c).instances.len() == c.instances.len(),
        forall|i: int|
            0 <= i < c.instances.len() ==> #[trigger] redact::telegram_shown(c).instances[i]
                == redact::telegram_instance_shown(c.instances[i]),
{
    reveal_strlit("enabled");
    reveal_strlit("token");
    reveal_strlit("dm_allowed_users");
    assert("enabled"@.len() == 7);
    assert("token"@.len() == 5);
    assert("dm_allowed_users"@.len() == 16);
    let fields = redact::telegram_shown(c).fields;
    assert(fields[0].0 == "enabled"@);
    assert(fields[1].0 == "token"@);
    assert(fields[2].0 == "dm_allowed_users"@);
}

/// What is shown of an instance of mail: what is open under its name, and that there are secrets.
pub proof fn law_what_is_shown_of_email_instance(c: EmailInstanceView)
    ensures
        shows(redact::email_instance_shown(c), "name"@, ShownView::Text(c.name)),
        shows(redact::email_instance_shown(c), "enabled"@, ShownView::Flag(c.enabled)),
        shows(redact::email_instance_shown(c), "imap_host"@, ShownView::Text(c.imap_host)),
        shows(redact::email_instance_shown(c), "imap_port"@, ShownView::Number(c.imap_port as u64)),
        shows(redact::email_instance_shown(c), "imap_username"@, ShownView::Redacted),
        shows(redact::email_instance_shown(c), "imap_password"@, ShownView::Redacted),
        shows(redact::email_instance_shown(c), "imap_use_tls"@, ShownView::Flag(c.imap_use_tls)),
        shows(redact::email_instance_shown(c), "smtp_host"@, ShownView::Text(c.smtp_host)),
        shows(redact::email_instance_shown(c), "smtp_port"@, ShownView::Number(c.smtp_port as u64)),
        shows(redact::email_instance_shown(c), "smtp_username"@, ShownView::Redacted),
        shows(redact::email_instance_shown(c), "smtp_password"@, ShownView::Redacted),
        shows(redact::email_instance_shown(c), "smtp_use_starttls"@, ShownView::Flag(c.smtp_use_starttls)),
        shows(redact::email_instance_shown(c), "from_address"@, ShownView::Redacted),
        shows(redact::email_instance_shown(c), "from_name"@, ShownView::OptionalText(c.from_name)),
        shows(redact::email_instance_shown(c), "poll_interval_secs"@, ShownView::Number(c.poll_interval_secs as u64)),
        shows(redact::email_instance_shown(c), "folders"@, ShownView::Texts(c.folders)),
        shows(redact::email_instance_shown(c), "allowed_senders"@, ShownView::Redacted),
        shows(redact::email_instance_shown(c), "max_body_bytes"@, ShownView::Number(c.max_body_bytes as u64)),
        shows(redact::email_instance_shown(c), "max_attachment_bytes"@, ShownView::Number(c.max_attachment_bytes as u64)),
{
    reveal_strlit("name");
    reveal_strlit("enabled");
    reveal_strlit("imap_host");
    reveal_strlit("imap_port");
    reveal_strlit("imap_username");
    reveal_strlit("imap_password");
    reveal_strlit("imap_use_tls");
    reveal_strlit("smtp_host");
    reveal_strlit("smtp_port");
    reveal_strlit("smtp_username");
    reveal_strlit("smtp_password");
    reveal_strlit("smtp_use_starttls");
    reveal_strlit("from_address");
    reveal_strlit("from_name");
    reveal_strlit("poll_interval_secs");
    reveal_strlit("folders");
    reveal_strlit("allowed_senders");
    reveal_strlit("max_body_bytes");
    reveal_strlit("max_attachment_bytes");
    assert("name"@.len() == 4);
    assert("enabled"@.len() == 7 && "enabled"@[0] == 'e');
    assert("imap_host"@.len() == 9 && "imap_host"@[0] == 'i' && "imap_host"@[5] == 'h');
    assert("imap_port"@.len() == 9 && "imap_port"@[0] == 'i' && "imap_port"@[5] == 'p');
    assert("imap_username"@.len() == 13 && "imap_username"@[0] == 'i' && "imap_username"@[5] == 'u');
    assert("imap_password"@.len() == 13 && "imap_password"@[0] == 'i' && "imap_password"@[5] == 'p');
    assert("imap_use_tls"@.len() == 12 && "imap_use_tls"@[0] == 'i');
    assert("smtp_host"@.len() == 9 && "smtp_host"@[0] == 's' && "smtp_host"@[5] == 'h');
    assert("smtp_port"@.len() == 9 && "smtp_port"@[0] == 's' && "smtp_port"@[5] == 'p');
    assert("smtp_username"@.len() == 13 && "smtp_username"@[0] == 's' && "smtp_username"@[5] == 'u');
    assert("smtp_password"@.len() == 13 && "smtp_password"@[0] == 's' && "smtp_password"@[5] == 'p');
    assert("smtp_use_starttls"@.len() == 17);
    assert("from_address"@.len() == 12 && "from_address"@[0] == 'f');
    assert("from_name"@.len() == 9 && "from_name"@[0] == 'f');
    assert("poll_interval_secs"@.len() == 18);
    assert("folders"@.len() == 7 && "folders"@[0] == 'f');
    assert("allowed_senders"@.len() == 15);
    assert("max_body_bytes"@.len() == 14);
    assert("max_attachment_bytes"@.len() == 20);
    let fields = redact::email_instance_shown(c);
    assert(fields[0].0 == "name"@);
    assert(fields[1].0 == "enabled"@);
    assert(fields[2].0 == "imap_host"@);
    assert(fields[3].0 == "imap_port"@);
    assert(fields[4].0 == "imap_username"@);
    assert(fields[5].0 == "imap_password"@);
    assert(fields[6].0 == "imap_use_tls"@);
    assert(fields[7].0 == "smtp_host"@);
    assert(fields[8].0 == "smtp_port"@);
    assert(fields[9].0 == "smtp_username"@);
    assert(fields[10].0 == "smtp_password"@);
    assert(fields[11].0 == "smtp_use_starttls"@);
    assert(fields[12].0 == "from_address"@);
    assert(fields[13].0 == "from_name"@);
    assert(fields[14].0 == "poll_interval_secs"@);
    assert(fields[15].0 == "folders"@);
    assert(fields[16].0 == "allowed_senders"@);
    assert(fields[17].0 == "max_body_bytes"@);
    assert(fields[18].0 == "max_attachment_bytes"@);
}

/// What is shown of mail: what is open under its name, and that there are secrets.
pub proof fn law_what_is_shown_of_email(c: EmailView)
    ensures
        shows(redact::email_shown(c).fields, "enabled"@, ShownView::Flag(c.enabled)),
        shows(redact::email_shown(c).fields, "imap_host"@, ShownView::Text(c.imap_host)),
        shows(redact::email_shown(c).fields, "imap_port"@, ShownView::Number(c.imap_port as u64)),
        shows(redact::email_shown(c).fields, "imap_username"@, ShownView::Redacted),
        shows(redact::email_shown(c).fields, "imap_password"@, ShownView::Redacted),
        shows(redact::email_shown(c).fields, "imap_use_tls"@, ShownView::Flag(c.imap_use_tls)),
        shows(redact::email_shown(c).fields, "smtp_host"@, ShownView::Text(c.smtp_host)),
        shows(redact::email_shown(c).fields, "smtp_port"@, ShownView::Number(c.smtp_port as u64)),
        shows(redact::email_shown(c).fields, "smtp_username"@, ShownView::Redacted),
        shows(redact::email_shown(c).fields, "smtp_password"@, ShownView::Redacted),
        shows(redact::email_shown(c).fields, "smtp_use_starttls"@, ShownView::Flag(c.smtp_use_starttls)),
        shows(redact::email_shown(c).fields, "from_address"@, ShownView::Redacted),
        shows(redact::email_shown(c).fields, "from_name"@, ShownView::OptionalText(c.from_name)),
        shows(redact::email_shown(c).fields, "poll_interval_secs"@, ShownView::Number(c.poll_interval_secs as u64)),
        shows(redact::email_shown(c).fields, "folders"@, ShownView::Texts(c.folders)),
        shows(redact::email_shown(c).fields, "allowed_senders"@, ShownView::Redacted),
        shows(redact::email_shown(c).fields, "max_body_bytes"@, ShownView::Number(c.max_body_bytes as u64)),
        shows(redact::email_shown(c).fields, "max_attachment_bytes"@, ShownView::Number(c.max_attachment_bytes as u64)),
        redact::email_shown(c).instances.len() == 0,
{
    reveal_strlit("enabled");
    reveal_strlit("imap_host");
    reveal_strlit("imap_port");
    reveal_strlit("imap_username");
    reveal_strlit("imap_password");
    reveal_strlit("imap_use_tls");
    reveal_strlit("smtp_host");
    reveal_strlit("smtp_port");
    reveal_strlit("smtp_username");
    reveal_strlit("smtp_password");
    reveal_strlit("smtp_use_starttls");
    reveal_strlit("from_address");
    reveal_strlit("from_name");
    reveal_strlit("poll_interval_secs");
    reveal_strlit("folders");
    reveal_strlit("allowed_senders");
    reveal_strlit("max_body_bytes");
    reveal_strlit("max_attachment_bytes");
    assert("enabled"@.len() == 7 && "enabled"@[0] == 'e');
    assert("imap_host"@.len() == 9 && "imap_host"@[0] == 'i' && "imap_host"@[5] == 'h');
    assert("imap_port"@.len() == 9 && "imap_port"@[0] == 'i' && "imap_port"@[5] == 'p');
    assert("imap_username"@.len() == 13 && "imap_username"@[0] == 'i' && "imap_username"@[5] == 'u');
    assert("imap_password"@.len() == 13 && "imap_password"@[0] == 'i' && "imap_password"@[5] == 'p');
    assert("imap_use_tls"@.len() == 12 && "imap_use_tls"@[0] == 'i');
    assert("smtp_host"@.len() == 9 && "smtp_host"@[0] == 's' && "smtp_host"@[5] == 'h');
    assert("smtp_port"@.len() == 9 && "smtp_port"@[0] == 's' && "smtp_port"@[5] == 'p');
    assert("smtp_username"@.len() == 13 && "smtp_username"@[0] == 's' && "smtp_username"@[5] == 'u');
    assert("smtp_password"@.len() == 13 && "smtp_password"@[0] == 's' && "smtp_password"@[5] == 'p');
    assert("smtp_use_starttls"@.len() == 17);
    assert("from_address"@.len() == 12 && "from_address"@[0] == 'f');
    assert("from_name"@.len() == 9 && "from_name"@[0] == 'f');
    assert("poll_interval_secs"@.len() == 18);
    assert("folders"@.len() == 7 && "folders"@[0] == 'f');
    assert("allowed_senders"@.len() == 15);
    assert("max_body_bytes"@.len() == 14);
    assert("max_attachment_bytes"@.len() == 20);
    let fields = redact::email_shown(c).fields;
    assert(fields[0].0 == "enabled"@);
    assert(fields[1].0 == "imap_host"@);
    assert(fields[2].0 == "imap_port"@);
    assert(fields[3].0 == "imap_username"@);
    assert(fields[4].0 == "imap_password"@);
    assert(fields[5].0 == "imap_use_tls"@);
    assert(fields[6].0 == "smtp_host"@);
    assert(fields[7].0 == "smtp_port"@);
    assert(fields[8].0 == "smtp_username"@);
    assert(fields[9].0 == "smtp_password"@);
    assert(fields[10].0 == "smtp_use_starttls"@);
    assert(fields[11].0 == "from_address"@);
    assert(fields[12].0 == "from_name"@);
    assert(fields[13].0 == "poll_interval_secs"@);
    assert(fields[14].0 == "folders"@);
    assert(fields[15].0 == "allowed_senders"@);
    assert(fields[16].0 == "max_body_bytes"@);
    assert(fields[17].0 == "max_attachment_bytes"@);
}

/// What is shown of an instance of Twitch: what is open under its name, and that there are secrets.
pub proof fn law_what_is_shown_of_twitch_instance(c: TwitchInstanceView)
    ensures
        shows(redact::twitch_instance_shown(c), "name"@, ShownView::Text(c.name)),
        shows(redact::twitch_instance_shown(c), "enabled"@, ShownView::Flag(c.enabled)),
        shows(redact::twitch_instance_shown(c), "username"@, ShownView::Text(c.username)),
        shows(redact::twitch_instance_shown(c), "oauth_token"@, ShownView::Redacted),
        shows(redact::twitch_instance_shown(c), "client_id"@, ShownView::OptionalText(c.client_id)),
        shows(redact::twitch_instance_shown(c), "client_secret"@, ShownView::OptionalRedacted(c.client_secret is Some)),
        shows(redact::twitch_instance_shown(c), "refresh_token"@, ShownView::OptionalRedacted(c.refresh_token is Some)),
        shows(redact::twitch_instance_shown(c), "channels"@, ShownView::Texts(c.channels)),
        shows(redact::twitch_instance_shown(c), "trigger_prefix"@, ShownView::OptionalText(c.trigger_prefix)),
{
    reveal_strlit("name");
    reveal_strlit("enabled");
    reveal_strlit("username");
    reveal_strlit("oauth_token");
    reveal_strlit("client_id");
    reveal_strlit("client_secret");
    reveal_strlit("refresh_token");
    reveal_strlit("channels");
    reveal_strlit("trigger_prefix");
    assert("name"@.len() == 4);
    assert("enabled"@.len() == 7);
    assert("username"@.len() == 8 && "username"@[0] == 'u');
    assert("oauth_token"@.len() == 11);
    assert("client_id"@.len() == 9);
    assert("client_secret"@.len() == 13 && "client_secret"@[0] == 'c');
    assert("refresh_token"@.len() == 13 && "refresh_token"@[0] == 'r');
    assert("channels"@.len() == 8 && "channels"@[0] == 'c');
    assert("trigger_prefix"@.len() == 14);
    let fields = redact::twitch_instance_shown(c);
    assert(fields[0].0 == "name"@);
    assert(fields[1].0 == "enabled"@);
    assert(fields[2].0 == "username"@);
    assert(fields[3].0 == "oauth_token"@);
    assert(fields[4].0 == "client_id"@);
    assert(fields[5].0 == "client_secret"@);
    assert(fields[6].0 == "refresh_token"@);
    assert(fields[7].0 == "channels"@);
    assert(fields[8].0 == "trigger_prefix"@);
}

/// What is shown of Twitch: what is open under its name, and that there are secrets.
pub proof fn law_what_is_shown_of_twitch(c: TwitchView)
    ensures
        shows(redact::twitch_shown(c).fields, "enabled"@, ShownView::Flag(c.enabled)),
        shows(redact::twitch_shown(c).fields, "username"@, ShownView::Text(c.username)),
        shows(redact::twitch_shown(c).fields, "oauth_token"@, ShownView::Redacted),
        shows(redact::twitch_shown(c).fields, "channels"@, ShownView::Texts(c.channels)),
        shows(redact::twitch_shown(c).fields, "trigger_prefix"@, ShownView::OptionalText(c.trigger_prefix)),
        redact::twitch_shown(c).instances.len() == c.instances.len(),
        forall|i: int|
            0 <= i < c.instances.len() ==> #[trigger] redact::twitch_shown(c).instances[i]
                == redact::twitch_instance_shown(c.instances[i]),
{
    reveal_strlit("enabled");
    reveal_strlit("username");
    reveal_strlit("oauth_token");
    reveal_strlit("channels");
    reveal_strlit("trigger_prefix");
    assert("enabled"@.len() == 7);
    assert("username"@.len() == 8 && "username"@[0] == 'u');
    assert("oauth_token"@.len() == 11);
    assert("channels"@.len() == 8 && "channels"@[0] == 'c');
    assert("trigger_prefix"@.len() == 14);
    let fields = redact::twitch_shown(c).fields;
    assert(fields[0].0 == "enabled"@);
    assert(fields[1].0 == "username"@);
    assert(fields[2].0 == "oauth_token"@);
    assert(fields[3].0 == "channels"@);
    assert(fields[4].0 == "trigger_prefix"@);
}

/// What is shown of an instance of Signal: what is open under its name, and that there are secrets.
pub proof fn law_what_is_shown_of_signal_instance(c: SignalInstanceView)
    ensures
        shows(redact::signal_instance_shown(c), "name"@, ShownView::Text(c.name)),
        shows(redact::signal_instance_shown(c), "enabled"@, ShownView::Flag(c.enabled)),
        shows(redact::signal_instance_shown(c), "http_url"@, ShownView::Redacted),
        shows(redact::signal_instance_shown(c), "account"@, ShownView::Redacted),
        shows(redact::signal_instance_shown(c), "dm_allowed_users"@, ShownView::Redacted),
        shows(redact::signal_instance_shown(c), "group_ids"@, ShownView::Texts(c.group_ids)),
        shows(redact::signal_instance_shown(c), "group_allowed_users"@, ShownView::Redacted),
        shows(redact::signal_instance_shown(c), "ignore_stories"@, ShownView::Flag(c.ignore_stories)),
{
    reveal_strlit("name");
    reveal_strlit("enabled");
    reveal_strlit("http_url");
    reveal_strlit("account");
    reveal_strlit("dm_allowed_users");
    reveal_strlit("group_ids");
    reveal_strlit("group_allowed_users");
    reveal_strlit("ignore_stories");
    assert("name"@.len() == 4);
    assert("enabled"@.len() == 7 && "enabled"@[0] == 'e');
    assert("http_url"@.len() == 8);
    assert("account"@.len() == 7 && "account"@[0] == 'a');
    assert("dm_allowed_users"@.len() == 16);
    assert("group_ids"@.len() == 9);
    assert("group_allowed_users"@.len() == 19);
    assert("ignore_stories"@.len() == 14);
    let fields = redact::signal_instance_shown(c);
    assert(fields[0].0 == "name"@);
    assert(fields[1].0 == "enabled"@);
    assert(fields[2].0 == "http_url"@);
    assert(fields[3].0 == "account"@);
    assert(fields[4].0 == "dm_allowed_users"@);
    assert(fields[5].0 == "group_ids"@);
    assert(fields[6].0 == "group_allowed_users"@);
    assert(fields[7].0 == "ignore_stories"@);
}

/// What is shown of Signal: what is open under its name, and that there are secrets.
pub proof fn law_what_is_shown_of_signal(c: SignalView)
    ensures
        shows(redact::signal_shown(c).fields, "enabled"@, ShownView::Flag(c.enabled)),
        shows(redact::signal_shown(c).fields, "http_url"@, ShownView::Redacted),
        shows(redact::signal_shown(c).fields, "account"@, ShownView::Redacted),
        shows(redact::signal_shown(c).fields, "dm_allowed_users"@, ShownView::Redacted),
        shows(redact::signal_shown(c).fields, "group_ids"@, ShownView::Texts(c.group_ids)),
        shows(redact::signal_shown(c).fields, "group_allowed_users"@, ShownView::Redacted),
        shows(redact::signal_shown(c).fields, "ignore_stories"@, ShownView::Flag(c.ignore_stories)),
        redact::signal_shown(c).instances.len() == c.instances.len(),
        forall|i: int|
            0 <= i < c.instances.len() ==> #[trigger] redact::signal_shown(c).instances[i]
                == redact::signal_instance_shown(c.instances[i]),
{
    reveal_strlit("enabled");
    reveal_strlit("http_url");
    reveal_strlit("account");
    reveal_strlit("dm_allowed_users");
    reveal_strlit("group_ids");
    reveal_strlit("group_allowed_users");
    reveal_strlit("ignore_stories");
    assert("enabled"@.len() == 7 && "enabled"@[0] == 'e');
    assert("http_url"@.len() == 8);
    assert("account"@.len() == 7 && "account"@[0] == 'a');
    assert("dm_allowed_users"@.len() == 16);
    assert("group_ids"@.len() == 9);
    assert("group_allowed_users"@.len() == 19);
    assert("ignore_stories"@.len() == 14);
    let fields = redact::signal_shown(c).fields;
    assert(fields[0].0 == "enabled"@);
    assert(fields[1].0 == "http_url"@);
    assert(fields[2].0 == "account"@);
    assert(fields[3].0 == "dm_allowed_users"@);
    assert(fields[4].0 == "group_ids"@);
    assert(fields[5].0 == "group_allowed_users"@);
    assert(fields[6].0 == "ignore_stories"@);
}

/// What is shown of a provider: what is open under its name, and that there are secrets.
pub proof fn law_what_is_shown_of_provider(c: ProviderView)
    ensures
        shows(redact::provider_shown(c), "api_type"@, ShownView::Api(c.api_type)),
        shows(redact::provider_shown(c), "base_url"@, ShownView::Text(c.base_url)),
        shows(redact::provider_shown(c), "api_key"@, ShownView::Redacted),
        shows(redact::provider_shown(c), "name"@, ShownView::OptionalText(c.name)),
        shows(redact::provider_shown(c), "use_proxy_api_key"@, ShownView::Flag(c.use_proxy_api_key)),
        shows(redact::provider_shown(c), "extra_headers"@, ShownView::Texts(c.extra_headers.map_values(|h: (Seq<char>, Seq<char>)| h.0))),
{
    reveal_strlit("api_type");
    reveal_strlit("base_url");
    reveal_strlit("api_key");
    reveal_strlit("name");
    reveal_strlit("use_proxy_api_key");
    reveal_strlit("extra_headers");
    assert("api_type"@.len() == 8 && "api_type"@[0] == 'a');
    assert("base_url"@.len() == 8 && "base_url"@[0] == 'b');
    assert("api_key"@.len() == 7);
    assert("name"@.len() == 4);
    assert("use_proxy_api_key"@.len() == 17);
    assert("extra_headers"@.len() == 13);
    let fields = redact::provider_shown(c);
    assert(fields[0].0 == "api_type"@);
    assert(fields[1].0 == "base_url"@);
    assert(fields[2].0 == "api_key"@);
    assert(fields[3].0 == "name"@);
    assert(fields[4].0 == "use_proxy_api_key"@);
    assert(fields[5].0 == "extra_headers"@);
}

/// Of the default settings all is shown as it is, but for the search key, of which only is
/// shown whether there is one.
pub proof fn law_what_is_shown_of_defaults(c: DefaultsView)
    ensures
        redact::defaults_shown(c).len() == 23,
        shows(
            redact::defaults_shown(c),
            "brave_search_key"@,
            ShownView::OptionalRedacted(c.brave_search_key is Some),
        ),
        redact::defaults_shown(c).contains(("routing"@, ShownView::AsItIs)),
        redact::defaults_shown(c).contains(("max_concurrent_branches"@, ShownView::AsItIs)),
        redact::defaults_shown(c).contains(("max_concurrent_workers"@, ShownView::AsItIs)),
        redact::defaults_shown(c).contains(("max_turns"@, ShownView::AsItIs)),
        redact::defaults_shown(c).contains(("branch_max_turns"@, ShownView::AsItIs)),
        redact::defaults_shown(c).contains(("context_window"@, ShownView::AsItIs)),
        redact::defaults_shown(c).contains(("compaction"@, ShownView::AsItIs)),
        redact::defaults_shown(c).contains(("memory_persistence"@, ShownView::AsItIs)),
        redact::defaults_shown(c).contains(("coalesce"@, ShownView::AsItIs)),
        redact::defaults_shown(c).contains(("ingestion"@, ShownView::AsItIs)),
        redact::defaults_shown(c).contains(("cortex"@, ShownView::AsItIs)),
        redact::defaults_shown(c).contains(("warmup"@, ShownView::AsItIs)),
        redact::defaults_shown(c).contains(("browser"@, ShownView::AsItIs)),
        redact::defaults_shown(c).contains(("channel"@, ShownView::AsItIs)),
        redact::defaults_shown(c).contains(("mcp"@, ShownView::AsItIs)),
        redact::defaults_shown(c).contains(("cron_timezone"@, ShownView::AsItIs)),
        redact::defaults_shown(c).contains(("user_timezone"@, ShownView::AsItIs)),
        redact::defaults_shown(c).contains(("history_backfill_count"@, ShownView::AsItIs)),
        redact::defaults_shown(c).contains(("cron"@, ShownView::AsItIs)),
        redact::defaults_shown(c).contains(("opencode"@, ShownView::AsItIs)),
        redact::defaults_shown(c).contains(("worker_log_mode"@, ShownView::AsItIs)),
        redact::defaults_shown(c).contains(("projects"@, ShownView::AsItIs)),
{
    reveal_strlit("routing");
    reveal_strlit("max_concurrent_branches");
    reveal_strlit("max_concurrent_workers");
    reveal_strlit("max_turns");
    reveal_strlit("branch_max_turns");
    reveal_strlit("context_window");
    reveal_strlit("compaction");
    reveal_strlit("memory_persistence");
    reveal_strlit("coalesce");
    reveal_strlit("ingestion");
    reveal_strlit("cortex");
    reveal_strlit("warmup");
    reveal_strlit("browser");
    reveal_strlit("channel");
    reveal_strlit("mcp");
    reveal_strlit("brave_search_key");
    reveal_strlit("cron_timezone");
    reveal_strlit("user_timezone");
    reveal_strlit("history_backfill_count");
    reveal_strlit("cron");
    reveal_strlit("opencode");
    reveal_strlit("worker_log_mode");
    reveal_strlit("projects");
    assert("brave_search_key"@.len() == 16 && "brave_search_key"@[3] == 'v');
    assert("routing"@.len() == 7);
    assert("max_concurrent_branches"@.len() == 23);
    assert("max_concurrent_workers"@.len() == 22);
    assert("max_turns"@.len() == 9);
    assert("branch_max_turns"@.len() == 16 && "branch_max_turns"@[3] == 'n');
    assert("context_window"@.len() == 14);
    assert("compaction"@.len() == 10);
    assert("memory_persistence"@.len() == 18);
    assert("coalesce"@.len() == 8);
    assert("ingestion"@.len() == 9);
    assert("cortex"@.len() == 6);
    assert("warmup"@.len() == 6);
    assert("browser"@.len() == 7);
    assert("channel"@.len() == 7);
    assert("mcp"@.len() == 3);
    assert("cron_timezone"@.len() == 13);
    assert("user_timezone"@.len() == 13);
    assert("history_backfill_count"@.len() == 22);
    assert("cron"@.len() == 4);
    assert("opencode"@.len() == 8);
    assert("worker_log_mode"@.len() == 15);
    assert("projects"@.len() == 8);
    let fields = redact::defaults_shown(c);
    assert(fields[0].0 == "routing"@);
    assert(fields[1].0 == "max_concurrent_branches"@);
    assert(fields[2].0 == "max_concurrent_workers"@);
    assert(fields[3].0 == "max_turns"@);
    assert(fields[4].0 == "branch_max_turns"@);
    assert(fields[5].0 == "context_window"@);
    assert(fields[6].0 == "compaction"@);
    assert(fields[7].0 == "memory_persistence"@);
    assert(fields[8].0 == "coalesce"@);
    assert(fields[9].0 == "ingestion"@);
    assert(fields[10].0 == "cortex"@);
    assert(fields[11].0 == "warmup"@);
    assert(fields[12].0 == "browser"@);
    assert(fields[13].0 == "channel"@);
    assert(fields[14].0 == "mcp"@);
    assert(fields[15].0 == "brave_search_key"@);
    assert(fields[16].0 == "cron_timezone"@);
    assert(fields[17].0 == "user_timezone"@);
    assert(fields[18].0 == "history_backfill_count"@);
    assert(fields[19].0 == "cron"@);
    assert(fields[20].0 == "opencode"@);
    assert(fields[21].0 == "worker_log_mode"@);
    assert(fields[22].0 == "projects"@);
    assert(fields[0] == ("routing"@, ShownView::AsItIs));
    assert(fields[1] == ("max_concurrent_branches"@, ShownView::AsItIs));
    assert(fields[2] == ("max_concurrent_workers"@, ShownView::AsItIs));
    assert(fields[3] == ("max_turns"@, ShownView::AsItIs));
    assert(fields[4] == ("branch_max_turns"@, ShownView::AsItIs));
    assert(fields[5] == ("context_window"@, ShownView::AsItIs));
    assert(fields[6] == ("compaction"@, ShownView::AsItIs));
    assert(fields[7] == ("memory_persistence"@, ShownView::AsItIs));
    assert(fields[8] == ("coalesce"@, ShownView::AsItIs));
    assert(fields[9] == ("ingestion"@, ShownView::AsItIs));
    assert(fields[10] == ("cortex"@, ShownView::AsItIs));
    assert(fields[11] == ("warmup"@, ShownView::AsItIs));
    assert(fields[12] == ("browser"@, ShownView::AsItIs));
    assert(fields[13] == ("channel"@, ShownView::AsItIs));
    assert(fields[14] == ("mcp"@, ShownView::AsItIs));
    assert(fields[16] == ("cron_timezone"@, ShownView::AsItIs));
    assert(fields[17] == ("user_timezone"@, ShownView::AsItIs));
    assert(fields[18] == ("history_backfill_count"@, ShownView::AsItIs));
    assert(fields[19] == ("cron"@, ShownView::AsItIs));
    assert(fields[20] == ("opencode"@, ShownView::AsItIs));
    assert(fields[21] == ("worker_log_mode"@, ShownView::AsItIs));
    assert(fields[22] == ("projects"@, ShownView::AsItIs));
}

/// Every provider is shown under its id, and no other.
pub proof fn law_every_provider_is_shown(
    providers: Map<Seq<char>, ProviderView>,
    id: Seq<char>,
)
    ensures
        redact::providers_shown(providers).contains_key(id) <==> providers.contains_key(id),
        providers.contains_key(id) ==> redact::providers_shown(providers)[id]
            == redact::provider_shown(providers[id]),
{
}

/// Of each credential is told whether there is one, and nothing else.
pub proof fn law_which_credentials_there_are_is_told(keys: KeysPresent, c: LlmConfig)
    requires
        redact::are_keys_of(keys, c),
    ensures
        keys.anthropic_key <==> c.anthropic_key is Some,
        keys.openai_key <==> c.openai_key is Some,
        keys.openrouter_key <==> c.openrouter_key is Some,
        keys.kilo_key <==> c.kilo_key is Some,
        keys.zhipu_key <==> c.zhipu_key is Some,
        keys.groq_key <==> c.groq_key is Some,
        keys.together_key <==> c.together_key is Some,
        keys.fireworks_key <==> c.fireworks_key is Some,
        keys.deepseek_key <==> c.deepseek_key is Some,
        keys.xai_key <==> c.xai_key is Some,
        keys.mistral_key <==> c.mistral_key is Some,
        keys.gemini_key <==> c.gemini_key is Some,
        keys.ollama_key <==> c.ollama_key is Some,
        keys.opencode_zen_key <==> c.opencode_zen_key is Some,
        keys.opencode_go_key <==> c.opencode_go_key is Some,
        keys.nvidia_key <==> c.nvidia_key is Some,
        keys.minimax_key <==> c.minimax_key is Some,
        keys.moonshot_key <==> c.moonshot_key is Some,
        keys.zai_coding_plan_key <==> c.zai_coding_plan_key is Some,
        keys.github_copilot_key <==> c.github_copilot_key is Some,
{
}

} // verus!
