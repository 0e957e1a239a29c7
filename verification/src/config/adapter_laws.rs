//! Which adapters a platform has, and which bindings to them are accepted.
use crate::config::adapters;
use crate::config::adapters::AdapterView;
use crate::config::binding::BindingView;
use crate::config::messaging::{
    DiscordInstanceView, EmailInstanceView, MessagingView, SignalInstanceView, SlackInstanceView,
    TelegramInstanceView, TwitchInstanceView,
};
use crate::text;
use crate::text_laws;
use vstd::prelude::*;

verus! {

/// The name of an instance that is in order by itself: not blank, without white space
/// around it, not the reserved one, and without a colon.
pub open spec fn is_good_name(name: Seq<char>) -> bool {
    &&& !text::is_blank(name)
    &&& text::trimmed(name) == name
    &&& !text::same_ignoring_ascii_case(name, "default"@)
    &&& !name.contains(':')
}

proof fn lemma_has_colon(name: Seq<char>)
    ensures
        text::has(name, ":"@) <==> name.contains(':'),
{
    reveal_strlit(":");
    assert(":"@ =~= seq![':']);
    text_laws::law_what_is_found_is_there(name, ":"@);
    if name.contains(':') {
        let i = name.index_of(':');
        assert(name.subrange(i, i + 1) =~= seq![':']);
    }
    if text::has(name, ":"@) {
        let i = text::position_of(name, ":"@)->0;
        assert(name.subrange(i, i + 1)[0] == ':');
        assert(name[i] == ':');
    }
}

/// The names of a platform's instances are accepted exactly where each is in order by
/// itself and no two are the same.
pub proof fn law_names_are_accepted_where_they_are_in_order(
    platform: Seq<char>,
    names: Seq<Seq<char>>,
)
    ensures
        adapters::names_check(platform, names) is Ok <==> (forall|i: int|
            0 <= i < names.len() ==> is_good_name(#[trigger] names[i])) && names.no_duplicates(),
    decreases names.len(),
{
    if names.len() > 0 {
        let rest = names.drop_last();
        let last = names.last();
        law_names_are_accepted_where_they_are_in_order(platform, rest);
        lemma_has_colon(last);
        assert forall|i: int| 0 <= i < rest.len() implies #[trigger] rest[i] == names[i] by {}
        let good = (forall|i: int| 0 <= i < names.len() ==> is_good_name(#[trigger] names[i]))
            && names.no_duplicates();
        if adapters::names_check(platform, names) is Ok {
            assert forall|i: int| 0 <= i < names.len() implies is_good_name(#[trigger] names[i]) by {
                if i < rest.len() {
                    assert(is_good_name(rest[i]));
                }
            }
            assert forall|i: int, j: int|
                0 <= i < names.len() && 0 <= j < names.len() && i != j implies names[i]
                != names[j] by {
                if i < rest.len() && j < rest.len() {
                    assert(rest[i] != rest[j]);
                } else if i < rest.len() {
                    assert(rest.contains(rest[i]));
                } else {
                    assert(rest.contains(rest[j]));
                }
            }
        }
        if good {
            assert forall|i: int| 0 <= i < rest.len() implies is_good_name(#[trigger] rest[i]) by {
                assert(is_good_name(names[i]));
            }
            assert forall|i: int, j: int|
                0 <= i < rest.len() && 0 <= j < rest.len() && i != j implies rest[i] != rest[j] by {
                assert(names[i] != names[j]);
            }
            if rest.contains(last) {
                let i = rest.index_of(last);
                assert(names[i] == names[names.len() - 1]);
            }
            assert(is_good_name(names[names.len() - 1]));
        }
    }
}

/// The platforms whose adapters can have names are these six.
pub proof fn law_six_platforms_take_named_adapters(platform: Seq<char>)
    ensures
        adapters::takes_named_adapters(platform) <==> seq![
            "discord"@,
            "slack"@,
            "telegram"@,
            "twitch"@,
            "email"@,
            "signal"@,
        ].contains(platform),
{
    let list = seq!["discord"@, "slack"@, "telegram"@, "twitch"@, "email"@, "signal"@];
    assert(list[0] == "discord"@);
    assert(list[1] == "slack"@);
    assert(list[2] == "telegram"@);
    assert(list[3] == "twitch"@);
    assert(list[4] == "email"@);
    assert(list[5] == "signal"@);
}

/// A platform has its default adapter where its credentials are there and not blank, and a
/// named one for each of its instances; a platform that is not configured has none.
pub proof fn law_platforms_have_the_adapters_that_are_configured(messaging: MessagingView)
    ensures
        adapters::platform_state(messaging, "discord"@) == (match messaging.discord {
            Some(c) => Some(
                AdapterView {
                    default_present: !text::is_blank(c.token),
                    named_instances: c.instances.map_values(|i: DiscordInstanceView| i.name),
                },
            ),
            None => None,
        }),
        adapters::platform_state(messaging, "slack"@) == (match messaging.slack {
            Some(c) => Some(
                AdapterView {
                    default_present: !text::is_blank(c.bot_token) && !text::is_blank(c.app_token),
                    named_instances: c.instances.map_values(|i: SlackInstanceView| i.name),
                },
            ),
            None => None,
        }),
        adapters::platform_state(messaging, "telegram"@) == (match messaging.telegram {
            Some(c) => Some(
                AdapterView {
                    default_present: !text::is_blank(c.token),
                    named_instances: c.instances.map_values(|i: TelegramInstanceView| i.name),
                },
            ),
            None => None,
        }),
        adapters::platform_state(messaging, "twitch"@) == (match messaging.twitch {
            Some(c) => Some(
                AdapterView {
                    default_present: !text::is_blank(c.username) && !text::is_blank(c.oauth_token),
                    named_instances: c.instances.map_values(|i: TwitchInstanceView| i.name),
                },
            ),
            None => None,
        }),
        adapters::platform_state(messaging, "email"@) == (match messaging.email {
            Some(c) => Some(
                AdapterView {
                    default_present: !text::is_blank(c.imap_host) && !text::is_blank(c.imap_username) && !text::is_blank(c.imap_password) && !text::is_blank(c.smtp_host),
                    named_instances: c.instances.map_values(|i: EmailInstanceView| i.name),
                },
            ),
            None => None,
        }),
        adapters::platform_state(messaging, "signal"@) == (match messaging.signal {
            Some(c) => Some(
                AdapterView {
                    default_present: !text::is_blank(c.http_url) && !text::is_blank(c.account),
                    named_instances: c.instances.map_values(|i: SignalInstanceView| i.name),
                },
            ),
            None => None,
        }),
{
    reveal(adapters::platform_state);
    reveal_strlit("discord");
    reveal_strlit("slack");
    reveal_strlit("telegram");
    reveal_strlit("twitch");
    reveal_strlit("email");
    reveal_strlit("signal");
    assert("discord"@.len() == 7 && "discord"@[0] == 'd' && "discord"@[1] == 'i');
    assert("slack"@.len() == 5 && "slack"@[0] == 's' && "slack"@[1] == 'l');
    assert("telegram"@.len() == 8 && "telegram"@[0] == 't' && "telegram"@[1] == 'e');
    assert("twitch"@.len() == 6 && "twitch"@[0] == 't' && "twitch"@[1] == 'w');
    assert("email"@.len() == 5 && "email"@[0] == 'e' && "email"@[1] == 'm');
    assert("signal"@.len() == 6 && "signal"@[0] == 's' && "signal"@[1] == 'i');
}

/// A binding is accepted exactly where it names no adapter on a platform without named
/// ones, and on a platform with them names one of its instances, or none where the
/// platform's default adapter is there.
pub proof fn law_bindings_are_accepted_where_their_adapters_are(
    messaging: MessagingView,
    binding: BindingView,
)
    ensures
        adapters::binding_check(messaging, binding) is Ok <==> if adapters::takes_named_adapters(
            binding.channel,
        ) {
            &&& adapters::platform_state(messaging, binding.channel) is Some
            &&& binding.adapter is Some ==> adapters::platform_state(
                messaging,
                binding.channel,
            )->0.named_instances.contains(binding.adapter->0)
            &&& binding.adapter is None ==> adapters::platform_state(
                messaging,
                binding.channel,
            )->0.default_present
        } else {
            binding.adapter is None
        },
{
}

proof fn lemma_bindings(messaging: MessagingView, bindings: Seq<BindingView>)
    ensures
        adapters::bindings_check(messaging, bindings) is Ok <==> forall|i: int|
            0 <= i < bindings.len() ==> adapters::binding_check(
                messaging,
                #[trigger] bindings[i],
            ) is Ok,
    decreases bindings.len(),
{
    if bindings.len() > 0 {
        let rest = bindings.drop_last();
        lemma_bindings(messaging, rest);
        assert forall|i: int| 0 <= i < rest.len() implies #[trigger] rest[i] == bindings[i] by {}
        let last = bindings[bindings.len() - 1];
        if adapters::bindings_check(messaging, bindings) is Ok {
            assert forall|i: int| 0 <= i < bindings.len() implies adapters::binding_check(
                messaging,
                #[trigger] bindings[i],
            ) is Ok by {
                if i < rest.len() {
                    assert(rest[i] == bindings[i]);
                }
            }
        }
    }
}

/// Adapters and bindings are accepted exactly where the instances of each platform have
/// names that are accepted and every binding is accepted.
pub proof fn law_adapters_are_accepted_where_all_are(
    messaging: MessagingView,
    bindings: Seq<BindingView>,
)
    ensures
        adapters::adapters_check(messaging, bindings) is Ok <==> {
            &&& forall|i: int|
                0 <= i < bindings.len() ==> adapters::binding_check(
                    messaging,
                    #[trigger] bindings[i],
                ) is Ok
            &&& adapters::platform_state(messaging, "discord"@) is Some ==> adapters::names_check(
                "discord"@,
                adapters::platform_state(messaging, "discord"@)->0.named_instances,
            ) is Ok
            &&& adapters::platform_state(messaging, "slack"@) is Some ==> adapters::names_check(
                "slack"@,
                adapters::platform_state(messaging, "slack"@)->0.named_instances,
            ) is Ok
            &&& adapters::platform_state(messaging, "telegram"@) is Some ==> adapters::names_check(
                "telegram"@,
                adapters::platform_state(messaging, "telegram"@)->0.named_instances,
            ) is Ok
            &&& adapters::platform_state(messaging, "twitch"@) is Some ==> adapters::names_check(
                "twitch"@,
                adapters::platform_state(messaging, "twitch"@)->0.named_instances,
            ) is Ok
            &&& adapters::platform_state(messaging, "email"@) is Some ==> adapters::names_check(
                "email"@,
                adapters::platform_state(messaging, "email"@)->0.named_instances,
            ) is Ok
            &&& adapters::platform_state(messaging, "signal"@) is Some ==> adapters::names_check(
                "signal"@,
                adapters::platform_state(messaging, "signal"@)->0.named_instances,
            ) is Ok
        },
{
    lemma_bindings(messaging, bindings);
    lemma_platform(messaging, "discord"@);
    lemma_platform(messaging, "slack"@);
    lemma_platform(messaging, "telegram"@);
    lemma_platform(messaging, "twitch"@);
    lemma_platform(messaging, "email"@);
    lemma_platform(messaging, "signal"@);
}

proof fn lemma_platform(messaging: MessagingView, platform: Seq<char>)
    ensures
        adapters::platform_check(messaging, platform) is Ok <==> (adapters::platform_state(
            messaging,
            platform,
        ) is Some ==> adapters::names_check(
            platform,
            adapters::platform_state(messaging, platform)->0.named_instances,
        ) is Ok),
{
    if let Some(state) = adapters::platform_state(messaging, platform) {
        if adapters::names_check(platform, state.named_instances) is Ok {
            adapters::law_valid_names_give_distinct_runtime_keys(
                platform,
                state.default_present,
                state.named_instances,
            );
        }
    }
}

/// The platforms with a state are those with a configuration, each with the state that
/// follows from it.
pub proof fn law_configured_platforms_have_states(messaging: MessagingView)
    ensures
        adapters::platform_states(messaging).contains_key("discord"@) <==> messaging.discord is Some,
        adapters::platform_states(messaging).contains_key("slack"@) <==> messaging.slack is Some,
        adapters::platform_states(messaging).contains_key("telegram"@)
            <==> messaging.telegram is Some,
        adapters::platform_states(messaging).contains_key("twitch"@) <==> messaging.twitch is Some,
        adapters::platform_states(messaging).contains_key("email"@) <==> messaging.email is Some,
        adapters::platform_states(messaging).contains_key("signal"@) <==> messaging.signal is Some,
        forall|platform: Seq<char>| #[trigger]
            adapters::platform_states(messaging).contains_key(platform) ==> Some(
                adapters::platform_states(messaging)[platform],
            ) == adapters::platform_state(messaging, platform),
{
    law_platforms_have_the_adapters_that_are_configured(messaging);
}

} // verus!
