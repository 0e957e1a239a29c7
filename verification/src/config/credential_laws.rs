//! Where credentials come from, and which providers they give.
use crate::config::error::ConfigErrorView;
use crate::config::file_laws;
use crate::config::llm_load;
use crate::config::provider::{ApiType, LlmView, ProviderView};
use crate::config::providers;
use crate::config::resolve;
use crate::config::resolve::ResolveContext;
use crate::config::toml_schema::{TomlLlmConfig, TomlProviderConfig};
use crate::text;
use vstd::prelude::*;

verus! {

/// What a value of the file stands for, where the file has one.
pub open spec fn written(context: ResolveContext, value: Option<String>) -> Option<Seq<char>> {
    match value {
        Some(v) => resolve::resolved(context, v@),
        None => None,
    }
}

/// The first of two values that is there.
pub open spec fn either(first: Option<Seq<char>>, second: Option<Seq<char>>) -> Option<Seq<char>> {
    if first is Some {
        first
    } else {
        second
    }
}

/// Each key of a configuration is what the file gives for it, and else what its variable
/// of the environment holds; for Kilo and OpenCode Go the environment goes first. For
/// Anthropic the environment has a key, or else a token.
pub proof fn law_keys_come_from_file_and_environment(
    context: ResolveContext,
    toml: TomlLlmConfig,
    llm: LlmView,
)
    requires
        llm_load::llm_of_file(context, toml) == Ok::<LlmView, ConfigErrorView>(llm),
    ensures
        llm.anthropic_key == either(
            written(context, toml.anthropic_key),
            either(
                file_laws::env(context, "ANTHROPIC_API_KEY"@),
                file_laws::env(context, "ANTHROPIC_AUTH_TOKEN"@),
            ),
        ),
        llm.ollama_base_url == either(
            written(context, toml.ollama_base_url),
            file_laws::env(context, "OLLAMA_BASE_URL"@),
        ),
        llm.openai_key == either(
            written(context, toml.openai_key),
            file_laws::env(context, "OPENAI_API_KEY"@),
        ),
        llm.openrouter_key == either(
            written(context, toml.openrouter_key),
            file_laws::env(context, "OPENROUTER_API_KEY"@),
        ),
        llm.kilo_key == either(
            file_laws::env(context, "KILO_API_KEY"@),
            written(context, toml.kilo_key),
        ),
        llm.zhipu_key == either(
            written(context, toml.zhipu_key),
            file_laws::env(context, "ZHIPU_API_KEY"@),
        ),
        llm.groq_key == either(
            written(context, toml.groq_key),
            file_laws::env(context, "GROQ_API_KEY"@),
        ),
        llm.together_key == either(
            written(context, toml.together_key),
            file_laws::env(context, "TOGETHER_API_KEY"@),
        ),
        llm.fireworks_key == either(
            written(context, toml.fireworks_key),
            file_laws::env(context, "FIREWORKS_API_KEY"@),
        ),
        llm.deepseek_key == either(
            written(context, toml.deepseek_key),
            file_laws::env(context, "DEEPSEEK_API_KEY"@),
        ),
        llm.xai_key == either(
            written(context, toml.xai_key),
            file_laws::env(context, "XAI_API_KEY"@),
        ),
        llm.mistral_key == either(
            written(context, toml.mistral_key),
            file_laws::env(context, "MISTRAL_API_KEY"@),
        ),
        llm.gemini_key == either(
            written(context, toml.gemini_key),
            file_laws::env(context, "GEMINI_API_KEY"@),
        ),
        llm.ollama_key == either(
            written(context, toml.ollama_key),
            file_laws::env(context, "OLLAMA_API_KEY"@),
        ),
        llm.opencode_zen_key == either(
            written(context, toml.opencode_zen_key),
            file_laws::env(context, "OPENCODE_ZEN_API_KEY"@),
        ),
        llm.opencode_go_key == either(
            file_laws::env(context, "OPENCODE_GO_API_KEY"@),
            written(context, toml.opencode_go_key),
        ),
        llm.nvidia_key == either(
            written(context, toml.nvidia_key),
            file_laws::env(context, "NVIDIA_API_KEY"@),
        ),
        llm.minimax_key == either(
            written(context, toml.minimax_key),
            file_laws::env(context, "MINIMAX_API_KEY"@),
        ),
        llm.minimax_cn_key == either(
            written(context, toml.minimax_cn_key),
            file_laws::env(context, "MINIMAX_CN_API_KEY"@),
        ),
        llm.moonshot_key == either(
            written(context, toml.moonshot_key),
            file_laws::env(context, "MOONSHOT_API_KEY"@),
        ),
        llm.zai_coding_plan_key == either(
            written(context, toml.zai_coding_plan_key),
            file_laws::env(context, "ZAI_CODING_PLAN_API_KEY"@),
        ),
        llm.github_copilot_key == either(
            written(context, toml.github_copilot_key),
            file_laws::env(context, "GITHUB_COPILOT_API_KEY"@),
        ),
{
}

/// Without a file each key is what its variable of the environment holds.
pub proof fn law_keys_of_the_environment(context: ResolveContext)
    ensures
        ({
            let llm = llm_load::llm_of_env(context);
            &&& llm.anthropic_key == either(
                file_laws::env(context, "ANTHROPIC_API_KEY"@),
                file_laws::env(context, "ANTHROPIC_AUTH_TOKEN"@),
            )
            &&& llm.ollama_base_url == file_laws::env(context, "OLLAMA_BASE_URL"@)
            &&& llm.openai_key == file_laws::env(context, "OPENAI_API_KEY"@)
            &&& llm.openrouter_key == file_laws::env(context, "OPENROUTER_API_KEY"@)
            &&& llm.kilo_key == file_laws::env(context, "KILO_API_KEY"@)
            &&& llm.zhipu_key == file_laws::env(context, "ZHIPU_API_KEY"@)
            &&& llm.groq_key == file_laws::env(context, "GROQ_API_KEY"@)
            &&& llm.together_key == file_laws::env(context, "TOGETHER_API_KEY"@)
            &&& llm.fireworks_key == file_laws::env(context, "FIREWORKS_API_KEY"@)
            &&& llm.deepseek_key == file_laws::env(context, "DEEPSEEK_API_KEY"@)
            &&& llm.xai_key == file_laws::env(context, "XAI_API_KEY"@)
            &&& llm.mistral_key == file_laws::env(context, "MISTRAL_API_KEY"@)
            &&& llm.gemini_key == file_laws::env(context, "GEMINI_API_KEY"@)
            &&& llm.ollama_key == file_laws::env(context, "OLLAMA_API_KEY"@)
            &&& llm.opencode_zen_key == file_laws::env(context, "OPENCODE_ZEN_API_KEY"@)
            &&& llm.opencode_go_key == file_laws::env(context, "OPENCODE_GO_API_KEY"@)
            &&& llm.nvidia_key == file_laws::env(context, "NVIDIA_API_KEY"@)
            &&& llm.minimax_key == file_laws::env(context, "MINIMAX_API_KEY"@)
            &&& llm.minimax_cn_key == file_laws::env(context, "MINIMAX_CN_API_KEY"@)
            &&& llm.moonshot_key == file_laws::env(context, "MOONSHOT_API_KEY"@)
            &&& llm.zai_coding_plan_key == file_laws::env(context, "ZAI_CODING_PLAN_API_KEY"@)
            &&& llm.github_copilot_key == file_laws::env(context, "GITHUB_COPILOT_API_KEY"@)
        }),
{
}

/// A provider that a key stands for is there as the list has it, unless its id is taken.
proof fn lemma_shorthand_is_kept(
    known: Map<Seq<char>, ProviderView>,
    list: Seq<(Seq<char>, Option<ProviderView>)>,
    k: int,
)
    requires
        0 <= k < list.len(),
        list[k].1 is Some,
        !known.contains_key(list[k].0),
        forall|j: int| 0 <= j < list.len() && j != k ==> (#[trigger] list[j]).0 != list[k].0,
    ensures
        llm_load::with_shorthands(known, list).contains_key(list[k].0),
        llm_load::with_shorthands(known, list)[list[k].0] == list[k].1->0,
    decreases list.len(),
{
    let rest = list.drop_last();
    if k < rest.len() {
        assert(rest[k] == list[k]);
        assert forall|j: int| 0 <= j < rest.len() && j != k implies (#[trigger] rest[j]).0
            != rest[k].0 by {
            assert(rest[j] == list[j]);
        }
        lemma_shorthand_is_kept(known, rest, k);
    } else {
        assert forall|j: int| 0 <= j < rest.len() implies (#[trigger] rest[j]).0 != list[k].0 by {
            assert(rest[j] == list[j]);
        }
        lemma_other_ids_stay_free(known, rest, list[k].0);
    }
}

/// An id that neither is taken nor is in the list is not there.
proof fn lemma_other_ids_stay_free(
    known: Map<Seq<char>, ProviderView>,
    list: Seq<(Seq<char>, Option<ProviderView>)>,
    id: Seq<char>,
)
    requires
        !known.contains_key(id),
        forall|j: int| 0 <= j < list.len() ==> (#[trigger] list[j]).0 != id,
    ensures
        !llm_load::with_shorthands(known, list).contains_key(id),
    decreases list.len(),
{
    if list.len() > 0 {
        let rest = list.drop_last();
        assert(list[list.len() - 1].0 != id);
        assert forall|j: int| 0 <= j < rest.len() implies (#[trigger] rest[j]).0 != id by {
            assert(rest[j] == list[j]);
        }
        lemma_other_ids_stay_free(known, rest, id);
    }
}

/// The ids that keys stand for are all different.
proof fn lemma_ids_are_different(llm: LlmView, base_url: Seq<char>, token: bool)
    ensures
        ({
            let list = llm_load::shorthands(llm, base_url, token);
            forall|i: int, j: int|
                0 <= i < list.len() && 0 <= j < list.len() && i != j ==> (#[trigger] list[i]).0 != (
                #[trigger] list[j]).0
        }),
{
    reveal_strlit("anthropic");
    reveal_strlit("openai");
    reveal_strlit("openrouter");
    reveal_strlit("kilo");
    reveal_strlit("zhipu");
    reveal_strlit("zai-coding-plan");
    reveal_strlit("opencode-zen");
    reveal_strlit("opencode-go");
    reveal_strlit("github-copilot");
    reveal_strlit("minimax");
    reveal_strlit("minimax-cn");
    reveal_strlit("moonshot");
    reveal_strlit("nvidia");
    reveal_strlit("fireworks");
    reveal_strlit("deepseek");
    reveal_strlit("gemini");
    reveal_strlit("groq");
    reveal_strlit("together");
    reveal_strlit("xai");
    reveal_strlit("mistral");
    reveal_strlit("ollama");
    assert("anthropic"@.len() == 9 && "anthropic"@[0] == 'a' && "anthropic"@[1] == 'n' && "anthropic"@[2]
        == 't');
    assert("openai"@.len() == 6 && "openai"@[0] == 'o' && "openai"@[1] == 'p' && "openai"@[2]
        == 'e');
    assert("openrouter"@.len() == 10 && "openrouter"@[0] == 'o' && "openrouter"@[1] == 'p' && "openrouter"@[2]
        == 'e');
    assert("kilo"@.len() == 4 && "kilo"@[0] == 'k' && "kilo"@[1] == 'i' && "kilo"@[2]
        == 'l');
    assert("zhipu"@.len() == 5 && "zhipu"@[0] == 'z' && "zhipu"@[1] == 'h' && "zhipu"@[2]
        == 'i');
    assert("zai-coding-plan"@.len() == 15 && "zai-coding-plan"@[0] == 'z' && "zai-coding-plan"@[1] == 'a' && "zai-coding-plan"@[2]
        == 'i');
    assert("opencode-zen"@.len() == 12 && "opencode-zen"@[0] == 'o' && "opencode-zen"@[1] == 'p' && "opencode-zen"@[2]
        == 'e');
    assert("opencode-go"@.len() == 11 && "opencode-go"@[0] == 'o' && "opencode-go"@[1] == 'p' && "opencode-go"@[2]
        == 'e');
    assert("github-copilot"@.len() == 14 && "github-copilot"@[0] == 'g' && "github-copilot"@[1] == 'i' && "github-copilot"@[2]
        == 't');
    assert("minimax"@.len() == 7 && "minimax"@[0] == 'm' && "minimax"@[1] == 'i' && "minimax"@[2]
        == 'n');
    assert("minimax-cn"@.len() == 10 && "minimax-cn"@[0] == 'm' && "minimax-cn"@[1] == 'i' && "minimax-cn"@[2]
        == 'n');
    assert("moonshot"@.len() == 8 && "moonshot"@[0] == 'm' && "moonshot"@[1] == 'o' && "moonshot"@[2]
        == 'o');
    assert("nvidia"@.len() == 6 && "nvidia"@[0] == 'n' && "nvidia"@[1] == 'v' && "nvidia"@[2]
        == 'i');
    assert("fireworks"@.len() == 9 && "fireworks"@[0] == 'f' && "fireworks"@[1] == 'i' && "fireworks"@[2]
        == 'r');
    assert("deepseek"@.len() == 8 && "deepseek"@[0] == 'd' && "deepseek"@[1] == 'e' && "deepseek"@[2]
        == 'e');
    assert("gemini"@.len() == 6 && "gemini"@[0] == 'g' && "gemini"@[1] == 'e' && "gemini"@[2]
        == 'm');
    assert("groq"@.len() == 4 && "groq"@[0] == 'g' && "groq"@[1] == 'r' && "groq"@[2]
        == 'o');
    assert("together"@.len() == 8 && "together"@[0] == 't' && "together"@[1] == 'o' && "together"@[2]
        == 'g');
    assert("xai"@.len() == 3 && "xai"@[0] == 'x' && "xai"@[1] == 'a' && "xai"@[2]
        == 'i');
    assert("mistral"@.len() == 7 && "mistral"@[0] == 'm' && "mistral"@[1] == 'i' && "mistral"@[2]
        == 's');
    assert("ollama"@.len() == 6 && "ollama"@[0] == 'o' && "ollama"@[1] == 'l' && "ollama"@[2]
        == 'l');
}

/// The providers of the file stand under their ids in lower case, and under no others.
proof fn lemma_file_ids(
    context: ResolveContext,
    list: Seq<(String, TomlProviderConfig)>,
    id: Seq<char>,
)
    requires
        llm_load::file_providers(context, list) is Ok,
        forall|i: int| 0 <= i < list.len() ==> resolve::lowercased((#[trigger] list[i]).0@) != id,
    ensures
        !llm_load::file_providers(context, list)->Ok_0.contains_key(id),
    decreases list.len(),
{
    if list.len() > 0 {
        let rest = list.drop_last();
        assert(resolve::lowercased(list[list.len() - 1].0@) != id);
        assert forall|i: int| 0 <= i < rest.len() implies resolve::lowercased(
            (#[trigger] rest[i]).0@,
        ) != id by {
            assert(rest[i] == list[i]);
        }
        lemma_file_ids(context, rest, id);
    }
}

/// The file describes no provider under an id.
pub open spec fn leaves_free(toml: TomlLlmConfig, id: Seq<char>) -> bool {
    forall|i: int|
        0 <= i < toml.providers@.len() ==> resolve::lowercased(
            (#[trigger] toml.providers@[i]).0@,
        ) != id
}

/// A key gives its provider, under its id, at its own address and with that key, unless the
/// file describes a provider under the same id.
pub proof fn law_every_key_gives_its_own_provider(
    context: ResolveContext,
    toml: TomlLlmConfig,
    llm: LlmView,
)
    requires
        llm_load::llm_of_file(context, toml) == Ok::<LlmView, ConfigErrorView>(llm),
    ensures
        llm.openai_key is Some && leaves_free(toml, "openai"@) ==> llm.providers.contains_key("openai"@)
            && llm.providers["openai"@] == (ProviderView {
            api_type: ApiType::OpenAiCompletions,
            base_url: "https://api.openai.com"@,
            api_key: llm.openai_key->0,
            name: None,
            use_proxy_api_key: false,
            extra_headers: Seq::empty(),
        }),
        llm.openrouter_key is Some && leaves_free(toml, "openrouter"@) ==> llm.providers.contains_key("openrouter"@)
            && llm.providers["openrouter"@] == (ProviderView {
            api_type: ApiType::OpenAiCompletions,
            base_url: "https://openrouter.ai/api"@,
            api_key: llm.openrouter_key->0,
            name: None,
            use_proxy_api_key: false,
            extra_headers: providers::openrouter_headers(),
        }),
        llm.kilo_key is Some && leaves_free(toml, "kilo"@) ==> llm.providers.contains_key("kilo"@)
            && llm.providers["kilo"@] == (ProviderView {
            api_type: ApiType::KiloGateway,
            base_url: "https://api.kilo.ai/api/gateway"@,
            api_key: llm.kilo_key->0,
            name: Some("Kilo Gateway"@),
            use_proxy_api_key: false,
            extra_headers: Seq::empty(),
        }),
        llm.zhipu_key is Some && leaves_free(toml, "zhipu"@) ==> llm.providers.contains_key("zhipu"@)
            && llm.providers["zhipu"@] == (ProviderView {
            api_type: ApiType::OpenAiChatCompletions,
            base_url: "https://api.z.ai/api/paas/v4"@,
            api_key: llm.zhipu_key->0,
            name: Some("Z.AI (GLM)"@),
            use_proxy_api_key: false,
            extra_headers: Seq::empty(),
        }),
        llm.zai_coding_plan_key is Some && leaves_free(toml, "zai-coding-plan"@) ==> llm.providers.contains_key("zai-coding-plan"@)
            && llm.providers["zai-coding-plan"@] == (ProviderView {
            api_type: ApiType::OpenAiChatCompletions,
            base_url: "https://api.z.ai/api/coding/paas/v4"@,
            api_key: llm.zai_coding_plan_key->0,
            name: Some("Z.AI Coding Plan"@),
            use_proxy_api_key: false,
            extra_headers: Seq::empty(),
        }),
        llm.opencode_zen_key is Some && leaves_free(toml, "opencode-zen"@) ==> llm.providers.contains_key("opencode-zen"@)
            && llm.providers["opencode-zen"@] == (ProviderView {
            api_type: ApiType::OpenAiCompletions,
            base_url: "https://opencode.ai/zen"@,
            api_key: llm.opencode_zen_key->0,
            name: None,
            use_proxy_api_key: false,
            extra_headers: Seq::empty(),
        }),
        llm.opencode_go_key is Some && leaves_free(toml, "opencode-go"@) ==> llm.providers.contains_key("opencode-go"@)
            && llm.providers["opencode-go"@] == (ProviderView {
            api_type: ApiType::OpenAiCompletions,
            base_url: "https://opencode.ai/zen/go"@,
            api_key: llm.opencode_go_key->0,
            name: None,
            use_proxy_api_key: false,
            extra_headers: Seq::empty(),
        }),
        llm.minimax_key is Some && leaves_free(toml, "minimax"@) ==> llm.providers.contains_key("minimax"@)
            && llm.providers["minimax"@] == (ProviderView {
            api_type: ApiType::Anthropic,
            base_url: "https://api.minimax.io/anthropic"@,
            api_key: llm.minimax_key->0,
            name: None,
            use_proxy_api_key: false,
            extra_headers: Seq::empty(),
        }),
        llm.minimax_cn_key is Some && leaves_free(toml, "minimax-cn"@) ==> llm.providers.contains_key("minimax-cn"@)
            && llm.providers["minimax-cn"@] == (ProviderView {
            api_type: ApiType::Anthropic,
            base_url: "https://api.minimaxi.com/anthropic"@,
            api_key: llm.minimax_cn_key->0,
            name: None,
            use_proxy_api_key: false,
            extra_headers: Seq::empty(),
        }),
        llm.moonshot_key is Some && leaves_free(toml, "moonshot"@) ==> llm.providers.contains_key("moonshot"@)
            && llm.providers["moonshot"@] == (ProviderView {
            api_type: ApiType::OpenAiCompletions,
            base_url: "https://api.moonshot.ai"@,
            api_key: llm.moonshot_key->0,
            name: None,
            use_proxy_api_key: false,
            extra_headers: Seq::empty(),
        }),
        llm.nvidia_key is Some && leaves_free(toml, "nvidia"@) ==> llm.providers.contains_key("nvidia"@)
            && llm.providers["nvidia"@] == (ProviderView {
            api_type: ApiType::OpenAiCompletions,
            base_url: "https://integrate.api.nvidia.com"@,
            api_key: llm.nvidia_key->0,
            name: None,
            use_proxy_api_key: false,
            extra_headers: Seq::empty(),
        }),
        llm.fireworks_key is Some && leaves_free(toml, "fireworks"@) ==> llm.providers.contains_key("fireworks"@)
            && llm.providers["fireworks"@] == (ProviderView {
            api_type: ApiType::OpenAiCompletions,
            base_url: "https://api.fireworks.ai/inference"@,
            api_key: llm.fireworks_key->0,
            name: None,
            use_proxy_api_key: false,
            extra_headers: Seq::empty(),
        }),
        llm.deepseek_key is Some && leaves_free(toml, "deepseek"@) ==> llm.providers.contains_key("deepseek"@)
            && llm.providers["deepseek"@] == (ProviderView {
            api_type: ApiType::OpenAiCompletions,
            base_url: "https://api.deepseek.com"@,
            api_key: llm.deepseek_key->0,
            name: None,
            use_proxy_api_key: false,
            extra_headers: Seq::empty(),
        }),
        llm.gemini_key is Some && leaves_free(toml, "gemini"@) ==> llm.providers.contains_key("gemini"@)
            && llm.providers["gemini"@] == (ProviderView {
            api_type: ApiType::Gemini,
            base_url: "https://generativelanguage.googleapis.com/v1beta/openai"@,
            api_key: llm.gemini_key->0,
            name: None,
            use_proxy_api_key: false,
            extra_headers: Seq::empty(),
        }),
        llm.groq_key is Some && leaves_free(toml, "groq"@) ==> llm.providers.contains_key("groq"@)
            && llm.providers["groq"@] == (ProviderView {
            api_type: ApiType::OpenAiCompletions,
            base_url: "https://api.groq.com/openai"@,
            api_key: llm.groq_key->0,
            name: None,
            use_proxy_api_key: false,
            extra_headers: Seq::empty(),
        }),
        llm.together_key is Some && leaves_free(toml, "together"@) ==> llm.providers.contains_key("together"@)
            && llm.providers["together"@] == (ProviderView {
            api_type: ApiType::OpenAiCompletions,
            base_url: "https://api.together.xyz"@,
            api_key: llm.together_key->0,
            name: None,
            use_proxy_api_key: false,
            extra_headers: Seq::empty(),
        }),
        llm.xai_key is Some && leaves_free(toml, "xai"@) ==> llm.providers.contains_key("xai"@)
            && llm.providers["xai"@] == (ProviderView {
            api_type: ApiType::OpenAiCompletions,
            base_url: "https://api.x.ai"@,
            api_key: llm.xai_key->0,
            name: None,
            use_proxy_api_key: false,
            extra_headers: Seq::empty(),
        }),
        llm.mistral_key is Some && leaves_free(toml, "mistral"@) ==> llm.providers.contains_key("mistral"@)
            && llm.providers["mistral"@] == (ProviderView {
            api_type: ApiType::OpenAiCompletions,
            base_url: "https://api.mistral.ai"@,
            api_key: llm.mistral_key->0,
            name: None,
            use_proxy_api_key: false,
            extra_headers: Seq::empty(),
        }),
{
    let known = llm_load::file_providers(context, toml.providers@)->Ok_0;
    let base_url = llm_load::anthropic_base_url(context);
    let token = llm_load::key_is_auth_token(
        context,
        resolve::resolved_option(context, toml.anthropic_key),
    );
    let before = llm_load::credentials(context, toml, known);
    let list = llm_load::shorthands(before, base_url, token);
    lemma_ids_are_different(before, base_url, token);
    reveal_strlit("anthropic");
    reveal_strlit("openai");
    reveal_strlit("openrouter");
    reveal_strlit("kilo");
    reveal_strlit("zhipu");
    reveal_strlit("zai-coding-plan");
    reveal_strlit("opencode-zen");
    reveal_strlit("opencode-go");
    reveal_strlit("github-copilot");
    reveal_strlit("minimax");
    reveal_strlit("minimax-cn");
    reveal_strlit("moonshot");
    reveal_strlit("nvidia");
    reveal_strlit("fireworks");
    reveal_strlit("deepseek");
    reveal_strlit("gemini");
    reveal_strlit("groq");
    reveal_strlit("together");
    reveal_strlit("xai");
    reveal_strlit("mistral");
    reveal_strlit("ollama");
    assert("anthropic"@.len() == 9 && "anthropic"@[0] == 'a' && "anthropic"@[1] == 'n' && "anthropic"@[2]
        == 't');
    assert("openai"@.len() == 6 && "openai"@[0] == 'o' && "openai"@[1] == 'p' && "openai"@[2]
        == 'e');
    assert("openrouter"@.len() == 10 && "openrouter"@[0] == 'o' && "openrouter"@[1] == 'p' && "openrouter"@[2]
        == 'e');
    assert("kilo"@.len() == 4 && "kilo"@[0] == 'k' && "kilo"@[1] == 'i' && "kilo"@[2]
        == 'l');
    assert("zhipu"@.len() == 5 && "zhipu"@[0] == 'z' && "zhipu"@[1] == 'h' && "zhipu"@[2]
        == 'i');
    assert("zai-coding-plan"@.len() == 15 && "zai-coding-plan"@[0] == 'z' && "zai-coding-plan"@[1] == 'a' && "zai-coding-plan"@[2]
        == 'i');
    assert("opencode-zen"@.len() == 12 && "opencode-zen"@[0] == 'o' && "opencode-zen"@[1] == 'p' && "opencode-zen"@[2]
        == 'e');
    assert("opencode-go"@.len() == 11 && "opencode-go"@[0] == 'o' && "opencode-go"@[1] == 'p' && "opencode-go"@[2]
        == 'e');
    assert("github-copilot"@.len() == 14 && "github-copilot"@[0] == 'g' && "github-copilot"@[1] == 'i' && "github-copilot"@[2]
        == 't');
    assert("minimax"@.len() == 7 && "minimax"@[0] == 'm' && "minimax"@[1] == 'i' && "minimax"@[2]
        == 'n');
    assert("minimax-cn"@.len() == 10 && "minimax-cn"@[0] == 'm' && "minimax-cn"@[1] == 'i' && "minimax-cn"@[2]
        == 'n');
    assert("moonshot"@.len() == 8 && "moonshot"@[0] == 'm' && "moonshot"@[1] == 'o' && "moonshot"@[2]
        == 'o');
    assert("nvidia"@.len() == 6 && "nvidia"@[0] == 'n' && "nvidia"@[1] == 'v' && "nvidia"@[2]
        == 'i');
    assert("fireworks"@.len() == 9 && "fireworks"@[0] == 'f' && "fireworks"@[1] == 'i' && "fireworks"@[2]
        == 'r');
    assert("deepseek"@.len() == 8 && "deepseek"@[0] == 'd' && "deepseek"@[1] == 'e' && "deepseek"@[2]
        == 'e');
    assert("gemini"@.len() == 6 && "gemini"@[0] == 'g' && "gemini"@[1] == 'e' && "gemini"@[2]
        == 'm');
    assert("groq"@.len() == 4 && "groq"@[0] == 'g' && "groq"@[1] == 'r' && "groq"@[2]
        == 'o');
    assert("together"@.len() == 8 && "together"@[0] == 't' && "together"@[1] == 'o' && "together"@[2]
        == 'g');
    assert("xai"@.len() == 3 && "xai"@[0] == 'x' && "xai"@[1] == 'a' && "xai"@[2]
        == 'i');
    assert("mistral"@.len() == 7 && "mistral"@[0] == 'm' && "mistral"@[1] == 'i' && "mistral"@[2]
        == 's');
    assert("ollama"@.len() == 6 && "ollama"@[0] == 'o' && "ollama"@[1] == 'l' && "ollama"@[2]
        == 'l');
    if leaves_free(toml, "openai"@) {
        lemma_file_ids(context, toml.providers@, "openai"@);
        assert(list[1].0 == "openai"@);
        if list[1].1 is Some {
            lemma_shorthand_is_kept(known, list, 1);
        }
    }
    if leaves_free(toml, "openrouter"@) {
        lemma_file_ids(context, toml.providers@, "openrouter"@);
        assert(list[2].0 == "openrouter"@);
        if list[2].1 is Some {
            lemma_shorthand_is_kept(known, list, 2);
        }
    }
    if leaves_free(toml, "kilo"@) {
        lemma_file_ids(context, toml.providers@, "kilo"@);
        assert(list[3].0 == "kilo"@);
        if list[3].1 is Some {
            lemma_shorthand_is_kept(known, list, 3);
        }
    }
    if leaves_free(toml, "zhipu"@) {
        lemma_file_ids(context, toml.providers@, "zhipu"@);
        assert(list[4].0 == "zhipu"@);
        if list[4].1 is Some {
            lemma_shorthand_is_kept(known, list, 4);
        }
    }
    if leaves_free(toml, "zai-coding-plan"@) {
        lemma_file_ids(context, toml.providers@, "zai-coding-plan"@);
        assert(list[5].0 == "zai-coding-plan"@);
        if list[5].1 is Some {
            lemma_shorthand_is_kept(known, list, 5);
        }
    }
    if leaves_free(toml, "opencode-zen"@) {
        lemma_file_ids(context, toml.providers@, "opencode-zen"@);
        assert(list[6].0 == "opencode-zen"@);
        if list[6].1 is Some {
            lemma_shorthand_is_kept(known, list, 6);
        }
    }
    if leaves_free(toml, "opencode-go"@) {
        lemma_file_ids(context, toml.providers@, "opencode-go"@);
        assert(list[7].0 == "opencode-go"@);
        if list[7].1 is Some {
            lemma_shorthand_is_kept(known, list, 7);
        }
    }
    if leaves_free(toml, "minimax"@) {
        lemma_file_ids(context, toml.providers@, "minimax"@);
        assert(list[9].0 == "minimax"@);
        if list[9].1 is Some {
            lemma_shorthand_is_kept(known, list, 9);
        }
    }
    if leaves_free(toml, "minimax-cn"@) {
        lemma_file_ids(context, toml.providers@, "minimax-cn"@);
        assert(list[10].0 == "minimax-cn"@);
        if list[10].1 is Some {
            lemma_shorthand_is_kept(known, list, 10);
        }
    }
    if leaves_free(toml, "moonshot"@) {
        lemma_file_ids(context, toml.providers@, "moonshot"@);
        assert(list[11].0 == "moonshot"@);
        if list[11].1 is Some {
            lemma_shorthand_is_kept(known, list, 11);
        }
    }
    if leaves_free(toml, "nvidia"@) {
        lemma_file_ids(context, toml.providers@, "nvidia"@);
        assert(list[12].0 == "nvidia"@);
        if list[12].1 is Some {
            lemma_shorthand_is_kept(known, list, 12);
        }
    }
    if leaves_free(toml, "fireworks"@) {
        lemma_file_ids(context, toml.providers@, "fireworks"@);
        assert(list[13].0 == "fireworks"@);
        if list[13].1 is Some {
            lemma_shorthand_is_kept(known, list, 13);
        }
    }
    if leaves_free(toml, "deepseek"@) {
        lemma_file_ids(context, toml.providers@, "deepseek"@);
        assert(list[14].0 == "deepseek"@);
        if list[14].1 is Some {
            lemma_shorthand_is_kept(known, list, 14);
        }
    }
    if leaves_free(toml, "gemini"@) {
        lemma_file_ids(context, toml.providers@, "gemini"@);
        assert(list[15].0 == "gemini"@);
        if list[15].1 is Some {
            lemma_shorthand_is_kept(known, list, 15);
        }
    }
    if leaves_free(toml, "groq"@) {
        lemma_file_ids(context, toml.providers@, "groq"@);
        assert(list[16].0 == "groq"@);
        if list[16].1 is Some {
            lemma_shorthand_is_kept(known, list, 16);
        }
    }
    if leaves_free(toml, "together"@) {
        lemma_file_ids(context, toml.providers@, "together"@);
        assert(list[17].0 == "together"@);
        if list[17].1 is Some {
            lemma_shorthand_is_kept(known, list, 17);
        }
    }
    if leaves_free(toml, "xai"@) {
        lemma_file_ids(context, toml.providers@, "xai"@);
        assert(list[18].0 == "xai"@);
        if list[18].1 is Some {
            lemma_shorthand_is_kept(known, list, 18);
        }
    }
    if leaves_free(toml, "mistral"@) {
        lemma_file_ids(context, toml.providers@, "mistral"@);
        assert(list[19].0 == "mistral"@);
        if list[19].1 is Some {
            lemma_shorthand_is_kept(known, list, 19);
        }
    }
}

/// The key of Anthropic gives Anthropic, at the address of the environment or at its own,
/// and says whether it is a token; a key of Copilot gives Copilot; an address or a key of
/// Ollama gives Ollama, on this machine by default. A provider that the file describes
/// under the same id goes before each of them.
pub proof fn law_anthropic_copilot_and_ollama_keys(
    context: ResolveContext,
    toml: TomlLlmConfig,
    llm: LlmView,
)
    requires
        llm_load::llm_of_file(context, toml) == Ok::<LlmView, ConfigErrorView>(llm),
    ensures
        llm.anthropic_key is Some && leaves_free(toml, "anthropic"@) ==> llm.providers.contains_key(
            "anthropic"@,
        ) && llm.providers["anthropic"@] == (ProviderView {
            api_type: ApiType::Anthropic,
            base_url: match file_laws::env(context, "ANTHROPIC_BASE_URL"@) {
                Some(url) => url,
                None => "https://api.anthropic.com"@,
            },
            api_key: llm.anthropic_key->0,
            name: None,
            use_proxy_api_key: written(context, toml.anthropic_key) is None && file_laws::env(
                context,
                "ANTHROPIC_API_KEY"@,
            ) is None,
            extra_headers: Seq::empty(),
        }),
        llm.github_copilot_key is Some && leaves_free(toml, "github-copilot"@)
            ==> llm.providers.contains_key("github-copilot"@) && llm.providers["github-copilot"@]
            == (ProviderView {
            api_type: ApiType::OpenAiChatCompletions,
            base_url: "https://api.individual.githubcopilot.com"@,
            api_key: llm.github_copilot_key->0,
            name: Some("GitHub Copilot"@),
            use_proxy_api_key: true,
            extra_headers: Seq::empty(),
        }),
        (llm.ollama_key is Some || llm.ollama_base_url is Some) && leaves_free(toml, "ollama"@)
            ==> llm.providers.contains_key("ollama"@) && llm.providers["ollama"@] == (ProviderView {
            api_type: ApiType::OpenAiCompletions,
            base_url: match llm.ollama_base_url {
                Some(url) => url,
                None => "http://localhost:11434"@,
            },
            api_key: match llm.ollama_key {
                Some(key) => key,
                None => Seq::empty(),
            },
            name: None,
            use_proxy_api_key: false,
            extra_headers: Seq::empty(),
        }),
{
    let known = llm_load::file_providers(context, toml.providers@)->Ok_0;
    let base_url = llm_load::anthropic_base_url(context);
    let token = llm_load::key_is_auth_token(
        context,
        resolve::resolved_option(context, toml.anthropic_key),
    );
    let before = llm_load::credentials(context, toml, known);
    let list = llm_load::shorthands(before, base_url, token);
    lemma_ids_are_different(before, base_url, token);
    if leaves_free(toml, "anthropic"@) {
        lemma_file_ids(context, toml.providers@, "anthropic"@);
        assert(list[0].0 == "anthropic"@);
        if list[0].1 is Some {
            lemma_shorthand_is_kept(known, list, 0);
        }
    }
    if leaves_free(toml, "github-copilot"@) {
        lemma_file_ids(context, toml.providers@, "github-copilot"@);
        assert(list[8].0 == "github-copilot"@);
        if list[8].1 is Some {
            lemma_shorthand_is_kept(known, list, 8);
        }
    }
    if leaves_free(toml, "ollama"@) {
        lemma_file_ids(context, toml.providers@, "ollama"@);
        assert(list[20].0 == "ollama"@);
        if list[20].1 is Some {
            lemma_shorthand_is_kept(known, list, 20);
        }
    }
}

proof fn lemma_file_provider_is_kept(
    context: ResolveContext,
    list: Seq<(String, TomlProviderConfig)>,
    i: int,
)
    requires
        llm_load::file_providers(context, list) is Ok,
        0 <= i < list.len(),
        forall|j: int|
            i < j < list.len() ==> resolve::lowercased((#[trigger] list[j]).0@)
                != resolve::lowercased(list[i].0@),
    ensures
        resolve::resolved(context, list[i].1.api_key@) is Some,
        llm_load::file_providers(context, list)->Ok_0.contains_key(
            resolve::lowercased(list[i].0@),
        ),
        llm_load::file_providers(context, list)->Ok_0[resolve::lowercased(list[i].0@)] == (
        ProviderView {
            api_type: list[i].1.api_type,
            base_url: list[i].1.base_url@,
            api_key: resolve::resolved(context, list[i].1.api_key@)->0,
            name: text::view_of(list[i].1.name),
            use_proxy_api_key: false,
            extra_headers: if resolve::lowercased(list[i].0@) == "openrouter"@ {
                providers::openrouter_headers()
            } else {
                Seq::empty()
            },
        }),
    decreases list.len(),
{
    if i < list.len() - 1 {
        let rest = list.drop_last();
        assert(rest[i] == list[i]);
        assert forall|j: int| i < j < rest.len() implies resolve::lowercased(
            (#[trigger] rest[j]).0@,
        ) != resolve::lowercased(rest[i].0@) by {
            assert(rest[j] == list[j]);
        }
        lemma_file_provider_is_kept(context, rest, i);
        assert(resolve::lowercased(list[list.len() - 1].0@) != resolve::lowercased(list[i].0@));
    }
}

/// A provider that the file describes is a provider of the configuration, under its id in
/// lower case, with the kind of API, the address and the name that the file gives and with
/// the key that it names, whatever other keys there are. Of two with the same id the later
/// one counts.
pub proof fn law_providers_of_the_file_are_kept(
    context: ResolveContext,
    toml: TomlLlmConfig,
    llm: LlmView,
    i: int,
)
    requires
        llm_load::llm_of_file(context, toml) == Ok::<LlmView, ConfigErrorView>(llm),
        0 <= i < toml.providers@.len(),
        forall|j: int|
            i < j < toml.providers@.len() ==> resolve::lowercased(
                (#[trigger] toml.providers@[j]).0@,
            ) != resolve::lowercased(toml.providers@[i].0@),
    ensures
        ({
            let id = resolve::lowercased(toml.providers@[i].0@);
            let section = toml.providers@[i].1;
            &&& llm.providers.contains_key(id)
            &&& resolve::resolved(context, section.api_key@) is Some
            &&& llm.providers[id] == (ProviderView {
                api_type: section.api_type,
                base_url: section.base_url@,
                api_key: resolve::resolved(context, section.api_key@)->0,
                name: text::view_of(section.name),
                use_proxy_api_key: false,
                extra_headers: if id == "openrouter"@ {
                    providers::openrouter_headers()
                } else {
                    Seq::empty()
                },
            })
        }),
{
    lemma_file_provider_is_kept(context, toml.providers@, i);
    let known = llm_load::file_providers(context, toml.providers@)->Ok_0;
    let base_url = llm_load::anthropic_base_url(context);
    let token = llm_load::key_is_auth_token(
        context,
        resolve::resolved_option(context, toml.anthropic_key),
    );
    let before = llm_load::credentials(context, toml, known);
    llm_load::law_keys_never_replace_a_provider(
        known,
        llm_load::shorthands(before, base_url, token),
        resolve::lowercased(toml.providers@[i].0@),
    );
}

proof fn lemma_checks(list: Seq<(String, TomlProviderConfig)>)
    ensures
        llm_load::providers_check(list) is Ok <==> forall|i: int|
            0 <= i < list.len() ==> ({
                let (id, section) = #[trigger] list[i];
                &&& 0 < id@.len()
                &&& text::utf8_len(id@) <= 64
                &&& !text::has(id@, "/"@)
                &&& !text::has_whitespace(id@)
                &&& resolve::url_refusal(section.base_url@) is None
            }),
    decreases list.len(),
{
    if list.len() > 0 {
        let rest = list.drop_last();
        lemma_checks(rest);
        let last = list[list.len() - 1];
        assert forall|i: int| 0 <= i < rest.len() implies #[trigger] rest[i] == list[i] by {}
        if llm_load::providers_check(list) is Ok {
            assert forall|i: int| 0 <= i < list.len() implies ({
                let (id, section) = #[trigger] list[i];
                &&& 0 < id@.len()
                &&& text::utf8_len(id@) <= 64
                &&& !text::has(id@, "/"@)
                &&& !text::has_whitespace(id@)
                &&& resolve::url_refusal(section.base_url@) is None
            }) by {
                if i < rest.len() {
                    assert(rest[i] == list[i]);
                }
            }
        }
    }
}

proof fn lemma_keys_resolve(context: ResolveContext, list: Seq<(String, TomlProviderConfig)>)
    ensures
        llm_load::file_providers(context, list) is Ok <==> forall|i: int|
            0 <= i < list.len() ==> resolve::resolved(
                context,
                (#[trigger] list[i]).1.api_key@,
            ) is Some,
    decreases list.len(),
{
    if list.len() > 0 {
        let rest = list.drop_last();
        lemma_keys_resolve(context, rest);
        let last = list[list.len() - 1];
        assert forall|i: int| 0 <= i < rest.len() implies #[trigger] rest[i] == list[i] by {}
        if llm_load::file_providers(context, list) is Ok {
            assert forall|i: int| 0 <= i < list.len() implies resolve::resolved(
                context,
                (#[trigger] list[i]).1.api_key@,
            ) is Some by {
                if i < rest.len() {
                    assert(rest[i] == list[i]);
                }
            }
        }
    }
}

/// The providers of a file are accepted exactly where each has an id of at most 64 bytes
/// that is not empty and has neither a slash nor white space, an address that is a URL, and
/// a key that stands for something.
pub proof fn law_providers_are_accepted_where_they_are_in_order(
    context: ResolveContext,
    toml: TomlLlmConfig,
)
    ensures
        llm_load::llm_of_file(context, toml) is Ok <==> forall|i: int|
            0 <= i < toml.providers@.len() ==> ({
                let (id, section) = #[trigger] toml.providers@[i];
                &&& 0 < id@.len()
                &&& text::utf8_len(id@) <= 64
                &&& !text::has(id@, "/"@)
                &&& !text::has_whitespace(id@)
                &&& resolve::url_refusal(section.base_url@) is None
                &&& resolve::resolved(context, section.api_key@) is Some
            }),
{
    let list = toml.providers@;
    lemma_checks(list);
    lemma_keys_resolve(context, list);
    if llm_load::llm_of_file(context, toml) is Err {
        if llm_load::providers_check(list) is Err {
            let bad = choose|i: int|
                0 <= i < list.len() && !({
                    let (id, section) = #[trigger] list[i];
                    &&& 0 < id@.len()
                    &&& text::utf8_len(id@) <= 64
                    &&& !text::has(id@, "/"@)
                    &&& !text::has_whitespace(id@)
                    &&& resolve::url_refusal(section.base_url@) is None
                });
            assert(0 <= bad < list.len());
        } else {
            let bad = choose|i: int|
                0 <= i < list.len() && resolve::resolved(
                    context,
                    (#[trigger] list[i]).1.api_key@,
                ) is None;
            assert(0 <= bad < list.len());
        }
    }
}

/// The known providers in the order in which routing prefers them.
pub open spec fn preference() -> Seq<Seq<char>> {
    seq![
        "anthropic"@,
        "openrouter"@,
        "kilo"@,
        "openai"@,
        "openai-chatgpt"@,
        "deepseek"@,
        "gemini"@,
        "xai"@,
        "groq"@,
        "together"@,
        "fireworks"@,
        "mistral"@,
        "zhipu"@,
        "ollama"@,
        "opencode-zen"@,
        "opencode-go"@,
        "nvidia"@,
        "minimax"@,
        "minimax-cn"@,
        "moonshot"@,
        "zai-coding-plan"@,
        "github-copilot"@,
    ]
}

proof fn lemma_first_configured<V>(
    names: Seq<Seq<char>>,
    configured: Map<Seq<char>, V>,
    k: int,
)
    requires
        0 <= k < names.len(),
        configured.contains_key(names[k]),
        forall|j: int| 0 <= j < k ==> !configured.contains_key(#[trigger] names[j]),
    ensures
        providers::first_configured(names, configured) == Some(names[k]),
    decreases names.len(),
{
    let rest = names.drop_last();
    if k < rest.len() {
        assert forall|j: int| 0 <= j < k implies !configured.contains_key(#[trigger] rest[j]) by {
            assert(rest[j] == names[j]);
        }
        lemma_first_configured(rest, configured, k);
    } else {
        assert forall|j: int| 0 <= j < rest.len() implies !configured.contains_key(
            #[trigger] rest[j],
        ) by {
            assert(rest[j] == names[j]);
        }
        lemma_none_configured(rest, configured);
    }
}

proof fn lemma_none_configured<V>(names: Seq<Seq<char>>, configured: Map<Seq<char>, V>)
    requires
        forall|j: int| 0 <= j < names.len() ==> !configured.contains_key(#[trigger] names[j]),
    ensures
        providers::first_configured(names, configured) is None,
    decreases names.len(),
{
    if names.len() > 0 {
        let rest = names.drop_last();
        assert(!configured.contains_key(names[names.len() - 1]));
        assert forall|j: int| 0 <= j < rest.len() implies !configured.contains_key(
            #[trigger] rest[j],
        ) by {
            assert(rest[j] == names[j]);
        }
        lemma_none_configured(rest, configured);
    }
}

/// Routing is taken from the known provider that is preferred among those configured, and
/// from that one alone; where no known one is configured, from any that is.
pub proof fn law_routing_prefers_known_providers<V>(
    configured: Map<Seq<char>, V>,
    name: Seq<char>,
    k: int,
)
    ensures
        0 <= k < preference().len() && configured.contains_key(preference()[k]) && (forall|j: int|
            0 <= j < k ==> !configured.contains_key(#[trigger] preference()[j])) ==> (
        providers::may_route(configured, name) <==> name == preference()[k]),
        (forall|j: int|
            0 <= j < preference().len() ==> !configured.contains_key(#[trigger] preference()[j]))
            ==> (providers::may_route(configured, name) <==> configured.contains_key(name)),
{
    let names = providers::priority();
    assert(names =~= preference());
    if 0 <= k < names.len() && configured.contains_key(names[k]) && (forall|j: int|
        0 <= j < k ==> !configured.contains_key(#[trigger] preference()[j])) {
        assert forall|j: int| 0 <= j < k implies !configured.contains_key(#[trigger] names[j]) by {
            assert(names[j] == preference()[j]);
        }
        lemma_first_configured(names, configured, k);
    }
    if forall|j: int|
        0 <= j < preference().len() ==> !configured.contains_key(#[trigger] preference()[j]) {
        assert forall|j: int| 0 <= j < names.len() implies !configured.contains_key(
            #[trigger] names[j],
        ) by {
            assert(names[j] == preference()[j]);
        }
        lemma_none_configured(names, configured);
    }
}

} // verus!
