//! What the environment alone sets, and what comes of it.
use crate::config::agent::{DefaultsConfig, DefaultsView, ModuleDefaultsView, SandboxView};
use crate::config::error::{ConfigErrorView, Double};
use crate::config::file_laws;
use crate::config::load;
use crate::config::load::{ConfigView, Surroundings};
use crate::config::messaging::{
    DiscordConfig, EmailConfig, SignalConfig, SlackConfig, TelegramConfig, TwitchConfig,
};
use crate::config::path;
use crate::config::provider::{LlmConfig, LlmView};
use crate::config::readiness;
use crate::config::readiness::{WarmupState, WarmupStatus, WorkReadinessReason};
use crate::config::resolve::ResolveContext;
use crate::config::secrets::{SecretFieldView, SystemSecrets};
use crate::config::settings::WarmupConfig;
use crate::config::startup;
use crate::llm::routing::RoutingView;
use crate::text;
use crate::text_laws;
use vstd::prelude::*;

verus! {

/// The first of three names that is there, and else the last.
pub open spec fn chosen(
    own: Option<Seq<char>>,
    anthropic: Option<Seq<char>>,
    general: Option<Seq<char>>,
    base: Seq<char>,
) -> Seq<char> {
    if own is Some {
        own->0
    } else if anthropic is Some {
        "anthropic/"@ + anthropic->0
    } else if general is Some {
        general->0
    } else {
        base
    }
}

/// The environment names models for all processes but the voice at once, Anthropic's
/// before others, and for the channel, the worker and the voice by themselves, which goes
/// first. What it does not name stays.
pub proof fn law_models_of_the_environment(context: ResolveContext, base: RoutingView)
    ensures
        ({
            let routing = startup::env_routing(context, base);
            let general = file_laws::env(context, "SPACEBOT_MODEL"@);
            let anthropic = file_laws::env(context, "ANTHROPIC_MODEL"@);
            let channel = file_laws::env(context, "SPACEBOT_CHANNEL_MODEL"@);
            let worker = file_laws::env(context, "SPACEBOT_WORKER_MODEL"@);
            let voice = file_laws::env(context, "SPACEBOT_VOICE_MODEL"@);
            &&& routing.channel == chosen(channel, anthropic, general, base.channel)
            &&& routing.worker == chosen(worker, anthropic, general, base.worker)
            &&& routing.branch == chosen(None, anthropic, general, base.branch)
            &&& routing.compactor == chosen(None, anthropic, general, base.compactor)
            &&& routing.cortex == chosen(None, anthropic, general, base.cortex)
            &&& routing.voice == chosen(voice, None, None, base.voice)
            &&& routing.task_overrides == base.task_overrides
            &&& routing.fallbacks == base.fallbacks
            &&& routing.rate_limit_cooldown_secs == base.rate_limit_cooldown_secs
        }),
{
}

/// Without a file there is one agent, `main`, which is the default one and uses the models
/// of the environment over those of the providers; the administrator, linked to it; no
/// platform and no binding; the HTTP API on its usual port; and the telemetry of the
/// environment.
pub proof fn law_the_environment_alone_gives_one_agent(
    config: ConfigView,
    surroundings: Surroundings,
    llm: LlmView,
    inferred: Option<RoutingView>,
    api_bind: Seq<char>,
    sandbox: SandboxView,
)
    requires
        startup::config_of_env(config.instance_dir, surroundings, llm, inferred, api_bind) == Ok::<
            ConfigView,
            ConfigErrorView,
        >(config),
    ensures
        ({
            let context = surroundings.context;
            let base = if inferred is Some {
                inferred->0
            } else {
                surroundings.modules@.routing
            };
            let agent = config.agents[0].resolved(
                context,
                config.instance_dir,
                config.defaults,
                sandbox,
            );
            &&& config.llm == llm
            &&& config.agents.len() == 1
            &&& config.agents[0].id == "main"@
            &&& config.agents[0].default
            &&& agent.routing == startup::env_routing(context, base)
            &&& agent.max_turns == config.defaults.max_turns
            &&& agent.sandbox == sandbox
            &&& config.humans.len() == 1 && config.humans[0].id == "admin"@
            &&& config.links.len() == 1 && config.links[0].from == "admin"@ && config.links[0].to
                == "main"@
            &&& config.groups.len() == 0
            &&& config.bindings.len() == 0
            &&& config.messaging.discord is None && config.messaging.slack is None
                && config.messaging.telegram is None && config.messaging.email is None
                && config.messaging.webhook is None && config.messaging.twitch is None
                && config.messaging.signal is None
            &&& config.api.enabled && config.api.port == 19898 && config.api.bind == api_bind
                && config.api.auth_token is None
            &&& !config.metrics.enabled && config.metrics.port == 9090 && config.metrics.bind
                == "0.0.0.0"@
            &&& config.telemetry.otlp_endpoint == file_laws::env(
                context,
                "OTEL_EXPORTER_OTLP_ENDPOINT"@,
            )
            &&& config.telemetry.service_name == (match file_laws::env(
                context,
                "OTEL_SERVICE_NAME"@,
            ) {
                Some(name) => name,
                None => "spacebot"@,
            })
            &&& config.telemetry.sample_rate == Double { bits: 0x3ff0_0000_0000_0000 }
            &&& load::otlp_headers(file_laws::env(context, "OTEL_EXPORTER_OTLP_HEADERS"@)) == Ok::<
                Map<Seq<char>, Seq<char>>,
                ConfigErrorView,
            >(config.telemetry.otlp_headers)
            &&& config.defaults.max_turns == 5
            &&& config.defaults.browser.chrome_cache_dir == path::joined(
                config.instance_dir,
                "chrome_cache"@,
            )
            &&& config.defaults.routing == surroundings.modules@.routing
        }),
{
}

/// An instance lives where the environment says, and else in `.spacebot` under the home
/// directory.
pub proof fn law_instances_live_where_the_environment_says(
    context: ResolveContext,
    home: Option<Seq<char>>,
    dir: Seq<char>,
)
    ensures
        file_laws::env(context, "SPACEBOT_DIR"@) == Some(dir) ==> startup::instance_dir_of(
            context,
            home,
        ) == dir,
        file_laws::env(context, "SPACEBOT_DIR"@) is None && home is Some
            ==> startup::instance_dir_of(context, home) == path::joined(home->0, ".spacebot"@),
        file_laws::env(context, "SPACEBOT_DIR"@) is None && home is None
            ==> startup::instance_dir_of(context, home) == "./.spacebot"@,
{
}

/// Paths are joined with one separator between them, and an absolute part stands for
/// itself.
pub proof fn law_paths_are_joined_with_one_separator(base: Seq<char>, part: Seq<char>)
    requires
        base.len() > 0,
        base.last() != '/',
    ensures
        !(part.len() > 0 && part[0] == '/') ==> path::joined(base, part) == base + seq!['/'] + part,
        !(part.len() > 0 && part[0] == '/') ==> path::joined(base + seq!['/'], part) == base
            + seq!['/'] + part,
        path::joined(base, seq!['/'] + part) == seq!['/'] + part,
{
    assert((base + seq!['/']).last() == '/');
}

/// Each of these variables gives a key, and nothing else does.
pub proof fn law_variables_that_give_a_key(context: ResolveContext)
    ensures
        startup::gives_key(context) <==> {
            ||| context.env@.contains_key("ANTHROPIC_API_KEY"@)
            ||| context.env@.contains_key("ANTHROPIC_AUTH_TOKEN"@)
            ||| context.env@.contains_key("ANTHROPIC_OAUTH_TOKEN"@)
            ||| context.env@.contains_key("OPENAI_API_KEY"@)
            ||| context.env@.contains_key("OPENROUTER_API_KEY"@)
            ||| context.env@.contains_key("KILO_API_KEY"@)
            ||| context.env@.contains_key("ZHIPU_API_KEY"@)
            ||| context.env@.contains_key("GROQ_API_KEY"@)
            ||| context.env@.contains_key("TOGETHER_API_KEY"@)
            ||| context.env@.contains_key("FIREWORKS_API_KEY"@)
            ||| context.env@.contains_key("DEEPSEEK_API_KEY"@)
            ||| context.env@.contains_key("XAI_API_KEY"@)
            ||| context.env@.contains_key("MISTRAL_API_KEY"@)
            ||| context.env@.contains_key("GEMINI_API_KEY"@)
            ||| context.env@.contains_key("NVIDIA_API_KEY"@)
            ||| context.env@.contains_key("OLLAMA_API_KEY"@)
            ||| context.env@.contains_key("OLLAMA_BASE_URL"@)
            ||| context.env@.contains_key("OPENCODE_ZEN_API_KEY"@)
            ||| context.env@.contains_key("OPENCODE_GO_API_KEY"@)
            ||| context.env@.contains_key("MINIMAX_API_KEY"@)
            ||| context.env@.contains_key("MINIMAX_CN_API_KEY"@)
            ||| context.env@.contains_key("MOONSHOT_API_KEY"@)
            ||| context.env@.contains_key("ZAI_CODING_PLAN_API_KEY"@)
            ||| context.env@.contains_key("GITHUB_COPILOT_API_KEY"@)
        },
{
    let names = startup::key_variables();
    assert(names[0] == "ANTHROPIC_API_KEY"@);
    assert(names[1] == "ANTHROPIC_AUTH_TOKEN"@);
    assert(names[2] == "ANTHROPIC_OAUTH_TOKEN"@);
    assert(names[3] == "OPENAI_API_KEY"@);
    assert(names[4] == "OPENROUTER_API_KEY"@);
    assert(names[5] == "KILO_API_KEY"@);
    assert(names[6] == "ZHIPU_API_KEY"@);
    assert(names[7] == "GROQ_API_KEY"@);
    assert(names[8] == "TOGETHER_API_KEY"@);
    assert(names[9] == "FIREWORKS_API_KEY"@);
    assert(names[10] == "DEEPSEEK_API_KEY"@);
    assert(names[11] == "XAI_API_KEY"@);
    assert(names[12] == "MISTRAL_API_KEY"@);
    assert(names[13] == "GEMINI_API_KEY"@);
    assert(names[14] == "NVIDIA_API_KEY"@);
    assert(names[15] == "OLLAMA_API_KEY"@);
    assert(names[16] == "OLLAMA_BASE_URL"@);
    assert(names[17] == "OPENCODE_ZEN_API_KEY"@);
    assert(names[18] == "OPENCODE_GO_API_KEY"@);
    assert(names[19] == "MINIMAX_API_KEY"@);
    assert(names[20] == "MINIMAX_CN_API_KEY"@);
    assert(names[21] == "MOONSHOT_API_KEY"@);
    assert(names[22] == "ZAI_CODING_PLAN_API_KEY"@);
    assert(names[23] == "GITHUB_COPILOT_API_KEY"@);
}

/// A key at the top of a file that no section is known for is warned of by its name, each
/// one and in order; a known one is not.
pub proof fn law_unknown_keys_are_warned_of(keys: Seq<Seq<char>>, key: Seq<char>)
    ensures
        seq![
            "llm"@,
            "defaults"@,
            "agents"@,
            "links"@,
            "groups"@,
            "humans"@,
            "messaging"@,
            "bindings"@,
            "api"@,
            "metrics"@,
            "telemetry"@,
        ].contains(key) <==> startup::key_warnings(keys.push(key)) == startup::key_warnings(keys),
        startup::key_warning(key) matches Some(warning) ==> startup::key_warnings(keys.push(key))
            == startup::key_warnings(keys).push(warning) && exists|i: int|
            0 <= i && i + key.len() <= warning.len() && #[trigger] warning.subrange(
                i,
                i + key.len(),
            ) == key,
{
    assert(keys.push(key).drop_last() =~= keys);
    let known = seq![
        "llm"@,
        "defaults"@,
        "agents"@,
        "links"@,
        "groups"@,
        "humans"@,
        "messaging"@,
        "bindings"@,
        "api"@,
        "metrics"@,
        "telemetry"@,
    ];
    assert(known =~= startup::known_keys());
    let warnings = startup::key_warnings(keys);
    if let Some(warning) = startup::key_warning(key) {
        assert(warnings.push(warning).len() == warnings.len() + 1);
        let first = "config.toml contains top-level key `"@;
        let second = "config.toml contains unknown top-level key `"@;
        if key == "mcp_servers"@ || key == "mcp"@ {
            let n = first.len() as int;
            assert(warning.subrange(n, n + key.len()) =~= key);
        } else {
            let n = second.len() as int;
            assert(warning.subrange(n, n + key.len()) =~= key);
        }
    }
}

/// Sections name their secrets: each key of a file with the variable that it is read from
/// otherwise, and for platforms with instances the pattern by which those are named.
pub proof fn law_sections_name_their_secrets()
    ensures
        <LlmConfig as SystemSecrets>::fields().contains(
            SecretFieldView {
                toml_key: "anthropic_key"@,
                secret_name: "ANTHROPIC_API_KEY"@,
                instance_pattern: None,
            },
        ),
        <LlmConfig as SystemSecrets>::fields().contains(
            SecretFieldView {
                toml_key: "anthropic_key"@,
                secret_name: "ANTHROPIC_AUTH_TOKEN"@,
                instance_pattern: None,
            },
        ),
        <LlmConfig as SystemSecrets>::fields().contains(
            SecretFieldView {
                toml_key: "openai_key"@,
                secret_name: "OPENAI_API_KEY"@,
                instance_pattern: None,
            },
        ),
        <LlmConfig as SystemSecrets>::fields().contains(
            SecretFieldView {
                toml_key: "openrouter_key"@,
                secret_name: "OPENROUTER_API_KEY"@,
                instance_pattern: None,
            },
        ),
        <LlmConfig as SystemSecrets>::fields().contains(
            SecretFieldView {
                toml_key: "kilo_key"@,
                secret_name: "KILO_API_KEY"@,
                instance_pattern: None,
            },
        ),
        <LlmConfig as SystemSecrets>::fields().contains(
            SecretFieldView {
                toml_key: "zhipu_key"@,
                secret_name: "ZHIPU_API_KEY"@,
                instance_pattern: None,
            },
        ),
        <LlmConfig as SystemSecrets>::fields().contains(
            SecretFieldView {
                toml_key: "groq_key"@,
                secret_name: "GROQ_API_KEY"@,
                instance_pattern: None,
            },
        ),
        <LlmConfig as SystemSecrets>::fields().contains(
            SecretFieldView {
                toml_key: "together_key"@,
                secret_name: "TOGETHER_API_KEY"@,
                instance_pattern: None,
            },
        ),
        <LlmConfig as SystemSecrets>::fields().contains(
            SecretFieldView {
                toml_key: "fireworks_key"@,
                secret_name: "FIREWORKS_API_KEY"@,
                instance_pattern: None,
            },
        ),
        <LlmConfig as SystemSecrets>::fields().contains(
            SecretFieldView {
                toml_key: "deepseek_key"@,
                secret_name: "DEEPSEEK_API_KEY"@,
                instance_pattern: None,
            },
        ),
        <LlmConfig as SystemSecrets>::fields().contains(
            SecretFieldView {
                toml_key: "xai_key"@,
                secret_name: "XAI_API_KEY"@,
                instance_pattern: None,
            },
        ),
        <LlmConfig as SystemSecrets>::fields().contains(
            SecretFieldView {
                toml_key: "mistral_key"@,
                secret_name: "MISTRAL_API_KEY"@,
                instance_pattern: None,
            },
        ),
        <LlmConfig as SystemSecrets>::fields().contains(
            SecretFieldView {
                toml_key: "gemini_key"@,
                secret_name: "GEMINI_API_KEY"@,
                instance_pattern: None,
            },
        ),
        <LlmConfig as SystemSecrets>::fields().contains(
            SecretFieldView {
                toml_key: "gemini_key"@,
                secret_name: "GOOGLE_API_KEY"@,
                instance_pattern: None,
            },
        ),
        <LlmConfig as SystemSecrets>::fields().contains(
            SecretFieldView {
                toml_key: "ollama_key"@,
                secret_name: "OLLAMA_API_KEY"@,
                instance_pattern: None,
            },
        ),
        <LlmConfig as SystemSecrets>::fields().contains(
            SecretFieldView {
                toml_key: "opencode_zen_key"@,
                secret_name: "OPENCODE_ZEN_API_KEY"@,
                instance_pattern: None,
            },
        ),
        <LlmConfig as SystemSecrets>::fields().contains(
            SecretFieldView {
                toml_key: "opencode_go_key"@,
                secret_name: "OPENCODE_GO_API_KEY"@,
                instance_pattern: None,
            },
        ),
        <LlmConfig as SystemSecrets>::fields().contains(
            SecretFieldView {
                toml_key: "nvidia_key"@,
                secret_name: "NVIDIA_API_KEY"@,
                instance_pattern: None,
            },
        ),
        <LlmConfig as SystemSecrets>::fields().contains(
            SecretFieldView {
                toml_key: "minimax_key"@,
                secret_name: "MINIMAX_API_KEY"@,
                instance_pattern: None,
            },
        ),
        <LlmConfig as SystemSecrets>::fields().contains(
            SecretFieldView {
                toml_key: "minimax_cn_key"@,
                secret_name: "MINIMAX_CN_API_KEY"@,
                instance_pattern: None,
            },
        ),
        <LlmConfig as SystemSecrets>::fields().contains(
            SecretFieldView {
                toml_key: "moonshot_key"@,
                secret_name: "MOONSHOT_API_KEY"@,
                instance_pattern: None,
            },
        ),
        <LlmConfig as SystemSecrets>::fields().contains(
            SecretFieldView {
                toml_key: "zai_coding_plan_key"@,
                secret_name: "ZAI_CODING_PLAN_API_KEY"@,
                instance_pattern: None,
            },
        ),
        <LlmConfig as SystemSecrets>::fields().contains(
            SecretFieldView {
                toml_key: "github_copilot_key"@,
                secret_name: "GITHUB_COPILOT_API_KEY"@,
                instance_pattern: None,
            },
        ),
        <DiscordConfig as SystemSecrets>::fields().contains(
            SecretFieldView {
                toml_key: "token"@,
                secret_name: "DISCORD_BOT_TOKEN"@,
                instance_pattern: Some(("DISCORD"@, "BOT_TOKEN"@)),
            },
        ),
        <SlackConfig as SystemSecrets>::fields().contains(
            SecretFieldView {
                toml_key: "bot_token"@,
                secret_name: "SLACK_BOT_TOKEN"@,
                instance_pattern: Some(("SLACK"@, "BOT_TOKEN"@)),
            },
        ),
        <SlackConfig as SystemSecrets>::fields().contains(
            SecretFieldView {
                toml_key: "app_token"@,
                secret_name: "SLACK_APP_TOKEN"@,
                instance_pattern: Some(("SLACK"@, "APP_TOKEN"@)),
            },
        ),
        <TelegramConfig as SystemSecrets>::fields().contains(
            SecretFieldView {
                toml_key: "token"@,
                secret_name: "TELEGRAM_BOT_TOKEN"@,
                instance_pattern: Some(("TELEGRAM"@, "BOT_TOKEN"@)),
            },
        ),
        <EmailConfig as SystemSecrets>::fields().contains(
            SecretFieldView {
                toml_key: "imap_username"@,
                secret_name: "EMAIL_IMAP_USERNAME"@,
                instance_pattern: Some(("EMAIL"@, "IMAP_USERNAME"@)),
            },
        ),
        <EmailConfig as SystemSecrets>::fields().contains(
            SecretFieldView {
                toml_key: "imap_password"@,
                secret_name: "EMAIL_IMAP_PASSWORD"@,
                instance_pattern: Some(("EMAIL"@, "IMAP_PASSWORD"@)),
            },
        ),
        <EmailConfig as SystemSecrets>::fields().contains(
            SecretFieldView {
                toml_key: "smtp_username"@,
                secret_name: "EMAIL_SMTP_USERNAME"@,
                instance_pattern: Some(("EMAIL"@, "SMTP_USERNAME"@)),
            },
        ),
        <EmailConfig as SystemSecrets>::fields().contains(
            SecretFieldView {
                toml_key: "smtp_password"@,
                secret_name: "EMAIL_SMTP_PASSWORD"@,
                instance_pattern: Some(("EMAIL"@, "SMTP_PASSWORD"@)),
            },
        ),
        <TwitchConfig as SystemSecrets>::fields().contains(
            SecretFieldView {
                toml_key: "oauth_token"@,
                secret_name: "TWITCH_OAUTH_TOKEN"@,
                instance_pattern: Some(("TWITCH"@, "OAUTH_TOKEN"@)),
            },
        ),
        <TwitchConfig as SystemSecrets>::fields().contains(
            SecretFieldView {
                toml_key: "client_id"@,
                secret_name: "TWITCH_CLIENT_ID"@,
                instance_pattern: Some(("TWITCH"@, "CLIENT_ID"@)),
            },
        ),
        <TwitchConfig as SystemSecrets>::fields().contains(
            SecretFieldView {
                toml_key: "client_secret"@,
                secret_name: "TWITCH_CLIENT_SECRET"@,
                instance_pattern: Some(("TWITCH"@, "CLIENT_SECRET"@)),
            },
        ),
        <TwitchConfig as SystemSecrets>::fields().contains(
            SecretFieldView {
                toml_key: "refresh_token"@,
                secret_name: "TWITCH_REFRESH_TOKEN"@,
                instance_pattern: Some(("TWITCH"@, "REFRESH_TOKEN"@)),
            },
        ),
        <SignalConfig as SystemSecrets>::fields().contains(
            SecretFieldView {
                toml_key: "http_url"@,
                secret_name: "SIGNAL_HTTP_URL"@,
                instance_pattern: None,
            },
        ),
        <SignalConfig as SystemSecrets>::fields().contains(
            SecretFieldView {
                toml_key: "account"@,
                secret_name: "SIGNAL_ACCOUNT"@,
                instance_pattern: None,
            },
        ),
        <DefaultsConfig as SystemSecrets>::fields().contains(
            SecretFieldView {
                toml_key: "brave_search_key"@,
                secret_name: "BRAVE_SEARCH_API_KEY"@,
                instance_pattern: None,
            },
        ),
{
    assert(<LlmConfig as SystemSecrets>::fields()[0].secret_name == "ANTHROPIC_API_KEY"@);
    assert(<LlmConfig as SystemSecrets>::fields()[1].secret_name == "ANTHROPIC_AUTH_TOKEN"@);
    assert(<LlmConfig as SystemSecrets>::fields()[2].secret_name == "OPENAI_API_KEY"@);
    assert(<LlmConfig as SystemSecrets>::fields()[3].secret_name == "OPENROUTER_API_KEY"@);
    assert(<LlmConfig as SystemSecrets>::fields()[4].secret_name == "KILO_API_KEY"@);
    assert(<LlmConfig as SystemSecrets>::fields()[5].secret_name == "ZHIPU_API_KEY"@);
    assert(<LlmConfig as SystemSecrets>::fields()[6].secret_name == "GROQ_API_KEY"@);
    assert(<LlmConfig as SystemSecrets>::fields()[7].secret_name == "TOGETHER_API_KEY"@);
    assert(<LlmConfig as SystemSecrets>::fields()[8].secret_name == "FIREWORKS_API_KEY"@);
    assert(<LlmConfig as SystemSecrets>::fields()[9].secret_name == "DEEPSEEK_API_KEY"@);
    assert(<LlmConfig as SystemSecrets>::fields()[10].secret_name == "XAI_API_KEY"@);
    assert(<LlmConfig as SystemSecrets>::fields()[11].secret_name == "MISTRAL_API_KEY"@);
    assert(<LlmConfig as SystemSecrets>::fields()[12].secret_name == "GEMINI_API_KEY"@);
    assert(<LlmConfig as SystemSecrets>::fields()[13].secret_name == "GOOGLE_API_KEY"@);
    assert(<LlmConfig as SystemSecrets>::fields()[14].secret_name == "OLLAMA_API_KEY"@);
    assert(<LlmConfig as SystemSecrets>::fields()[15].secret_name == "OPENCODE_ZEN_API_KEY"@);
    assert(<LlmConfig as SystemSecrets>::fields()[16].secret_name == "OPENCODE_GO_API_KEY"@);
    assert(<LlmConfig as SystemSecrets>::fields()[17].secret_name == "NVIDIA_API_KEY"@);
    assert(<LlmConfig as SystemSecrets>::fields()[18].secret_name == "MINIMAX_API_KEY"@);
    assert(<LlmConfig as SystemSecrets>::fields()[19].secret_name == "MINIMAX_CN_API_KEY"@);
    assert(<LlmConfig as SystemSecrets>::fields()[20].secret_name == "MOONSHOT_API_KEY"@);
    assert(<LlmConfig as SystemSecrets>::fields()[21].secret_name == "ZAI_CODING_PLAN_API_KEY"@);
    assert(<LlmConfig as SystemSecrets>::fields()[24].secret_name == "GITHUB_COPILOT_API_KEY"@);
    assert(<DiscordConfig as SystemSecrets>::fields()[0].secret_name == "DISCORD_BOT_TOKEN"@);
    assert(<SlackConfig as SystemSecrets>::fields()[0].secret_name == "SLACK_BOT_TOKEN"@);
    assert(<SlackConfig as SystemSecrets>::fields()[1].secret_name == "SLACK_APP_TOKEN"@);
    assert(<TelegramConfig as SystemSecrets>::fields()[0].secret_name == "TELEGRAM_BOT_TOKEN"@);
    assert(<EmailConfig as SystemSecrets>::fields()[0].secret_name == "EMAIL_IMAP_USERNAME"@);
    assert(<EmailConfig as SystemSecrets>::fields()[1].secret_name == "EMAIL_IMAP_PASSWORD"@);
    assert(<EmailConfig as SystemSecrets>::fields()[2].secret_name == "EMAIL_SMTP_USERNAME"@);
    assert(<EmailConfig as SystemSecrets>::fields()[3].secret_name == "EMAIL_SMTP_PASSWORD"@);
    assert(<TwitchConfig as SystemSecrets>::fields()[0].secret_name == "TWITCH_OAUTH_TOKEN"@);
    assert(<TwitchConfig as SystemSecrets>::fields()[1].secret_name == "TWITCH_CLIENT_ID"@);
    assert(<TwitchConfig as SystemSecrets>::fields()[2].secret_name == "TWITCH_CLIENT_SECRET"@);
    assert(<TwitchConfig as SystemSecrets>::fields()[3].secret_name == "TWITCH_REFRESH_TOKEN"@);
    assert(<SignalConfig as SystemSecrets>::fields()[0].secret_name == "SIGNAL_HTTP_URL"@);
    assert(<SignalConfig as SystemSecrets>::fields()[1].secret_name == "SIGNAL_ACCOUNT"@);
    assert(<DefaultsConfig as SystemSecrets>::fields()[0].secret_name == "BRAVE_SEARCH_API_KEY"@);
}

/// What keeps an agent from work is named in order: that it is not warm, then that its
/// embeddings are missing, then that it has no bulletin, then that the bulletin is older
/// than twice the refresh interval and than a minute. The age counts from the last refresh
/// where there was one.
pub proof fn law_reasons_come_in_order(
    config: WarmupConfig,
    status: WarmupStatus,
    now: i64,
    refreshed: i64,
)
    ensures
        status.state != WarmupState::Warm ==> readiness::first_reason(config, status, now) == Some(
            WorkReadinessReason::StateNotWarm,
        ),
        status.state == WarmupState::Warm && config.eager_embedding_load && !status.embedding_ready
            ==> readiness::first_reason(config, status, now) == Some(
            WorkReadinessReason::EmbeddingNotReady,
        ),
        status.state == WarmupState::Warm && (!config.eager_embedding_load
            || status.embedding_ready) && status.last_refresh_unix_ms is None
            && status.bulletin_age_secs is None ==> readiness::first_reason(config, status, now)
            == Some(WorkReadinessReason::BulletinMissing),
        status.state == WarmupState::Warm && (!config.eager_embedding_load
            || status.embedding_ready) && status.last_refresh_unix_ms == Some(refreshed) && now
            - refreshed <= i64::MAX && 1 <= config.refresh_secs <= 1_000_000_000 ==> (
        readiness::first_reason(config, status, now) == Some(WorkReadinessReason::BulletinStale)
            <==> (now - refreshed) / 1000 > 2 * config.refresh_secs && (now - refreshed) / 1000
            > 60),
        status.state == WarmupState::Warm && (!config.eager_embedding_load
            || status.embedding_ready) && status.last_refresh_unix_ms == Some(refreshed) && now
            <= refreshed ==> readiness::first_reason(config, status, now) is None,
{
    if now > refreshed {
        let age = (now - refreshed) / 1000;
        assert(0 <= age <= now - refreshed);
    }
}

/// A variable of the environment describes a provider where its name begins with one of two
/// words, or where the word for a provider and that for a key both stand in it.
pub proof fn law_variables_that_describe_a_provider(
    context: ResolveContext,
    before: Seq<char>,
    rest: Seq<char>,
)
    ensures
        context.env@.contains_key("SPACEBOT_PROVIDER_"@ + rest) ==> startup::gives_provider(
            context,
        ),
        context.env@.contains_key("PROVIDER_"@ + rest) ==> startup::gives_provider(context),
        context.env@.contains_key(before + "PROVIDER"@ + rest) && text::has(
            before + "PROVIDER"@ + rest,
            "API_KEY"@,
        ) ==> startup::gives_provider(context),
        (forall|name: Seq<char>| #[trigger]
            context.env@.contains_key(name) ==> !text::has(name, "PROVIDER"@))
            ==> !startup::gives_provider(context),
{
    reveal_strlit("SPACEBOT_PROVIDER_");
    reveal_strlit("PROVIDER_");
    reveal_strlit("PROVIDER");
    let own = "SPACEBOT_PROVIDER_"@;
    let word = "PROVIDER"@;
    let short = "PROVIDER_"@;
    assert((own + rest).subrange(0, own.len() as int) =~= own);
    assert((short + rest).subrange(0, short.len() as int) =~= short);
    let mixed = before + word + rest;
    let at = before.len() as int;
    assert(mixed.subrange(at, at + word.len()) =~= word);
    text_laws::law_what_is_found_is_there(mixed, word);
    assert(text::begins_with(own + rest, own));
    assert(text::begins_with(short + rest, short));
    assert(startup::describes_provider(own + rest));
    assert(startup::describes_provider(short + rest));
    if forall|name: Seq<char>| #[trigger]
        context.env@.contains_key(name) ==> !text::has(name, word) {
        assert forall|name: Seq<char>| #[trigger] context.env@.contains_key(
            name,
        ) implies !startup::describes_provider(name) by {
            text_laws::law_what_is_found_is_there(name, word);
            if text::begins_with(name, own) {
                assert(own.subrange(9, 17) =~= word);
                assert(name.subrange(9, 17) =~= name.subrange(0, 18).subrange(9, 17));
                assert(name.subrange(9, 9int + word.len()) == word);
            }
            if text::begins_with(name, short) {
                assert(short.subrange(0, 8) =~= word);
                assert(name.subrange(0, 8) =~= name.subrange(0, 9).subrange(0, 8));
                assert(name.subrange(0, 0int + word.len()) == word);
            }
        }
    }
}

/// The text about a human stands in a file of its own below the directory of the instance.
pub proof fn law_texts_about_humans_have_files_of_their_own(dir: Seq<char>, id: Seq<char>)
    requires
        dir.len() > 0,
        dir.last() != '/',
        id.len() > 0,
        id[0] != '/',
        id.last() != '/',
    ensures
        load::human_text_path(dir, id) == dir + "/humans/"@ + id + "/HUMAN.md"@,
{
    reveal_strlit("humans");
    reveal_strlit("/humans/");
    reveal_strlit("HUMAN.md");
    reveal_strlit("/HUMAN.md");
    assert("humans"@.len() == 6 && "humans"@[0] == 'h' && "humans"@.last() == 's');
    assert("HUMAN.md"@.len() == 8 && "HUMAN.md"@[0] == 'H');
    assert(seq!['/'] + "humans"@ + seq!['/'] =~= "/humans/"@);
    assert(seq!['/'] + "HUMAN.md"@ =~= "/HUMAN.md"@);
    let first = path::joined(dir, "humans"@);
    assert(first =~= dir + seq!['/'] + "humans"@);
    assert(first.last() == 's');
    let second = path::joined(first, id);
    assert(second =~= dir + "/humans/"@ + id);
    assert(second.last() == id.last());
    assert(load::human_text_path(dir, id) =~= second + "/HUMAN.md"@);
}

} // verus!
