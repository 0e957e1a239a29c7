//! Named messaging adapters: which there are, and whether bindings name ones that are.
use crate::config::binding;
use crate::config::binding::{Binding, BindingView};
use crate::config::error;
use crate::config::error::{ConfigError, ConfigErrorView};
use crate::config::messaging::{
    DiscordInstanceConfig, DiscordInstanceView, EmailInstanceConfig, EmailInstanceView,
    MessagingConfig, MessagingView, SignalInstanceConfig, SignalInstanceView, SlackInstanceConfig,
    SlackInstanceView, TelegramInstanceConfig, TelegramInstanceView, TwitchInstanceConfig,
    TwitchInstanceView,
};
use crate::string_map::StringMap;
use crate::text;
use crate::views;
use vstd::prelude::*;

verus! {

/// What is known of a platform's adapters.
#[derive(Debug, PartialEq, Eq)]
pub struct AdapterValidationState {
    pub default_present: bool,
    pub named_instances: Vec<String>,
}

/// The view of an [`AdapterValidationState`].
#[verifier::ext_equal]
pub struct AdapterView {
    pub default_present: bool,
    pub named_instances: Seq<Seq<char>>,
}

impl View for AdapterValidationState {
    type V = AdapterView;

    open spec fn view(&self) -> AdapterView {
        AdapterView {
            default_present: self.default_present,
            named_instances: text::views(self.named_instances@),
        }
    }
}

/// The first of two checks that fails.
pub open spec fn first_failure(
    first: Result<(), ConfigErrorView>,
    second: Result<(), ConfigErrorView>,
) -> Result<(), ConfigErrorView> {
    match first {
        Ok(_) => second,
        Err(refusal) => Err(refusal),
    }
}

/// A platform whose adapters can have names.
pub open spec fn takes_named_adapters(platform: Seq<char>) -> bool {
    ||| platform == "discord"@
    ||| platform == "slack"@
    ||| platform == "telegram"@
    ||| platform == "twitch"@
    ||| platform == "email"@
    ||| platform == "signal"@
}

/// Whether a platform's adapters can have names.
pub fn is_named_adapter_platform(platform: &str) -> (yes: bool)
    ensures
        yes == takes_named_adapters(platform@),
{
    text::same(platform, "discord") || text::same(platform, "slack") || text::same(
        platform,
        "telegram",
    ) || text::same(platform, "twitch") || text::same(platform, "email") || text::same(
        platform,
        "signal",
    )
}

// ---------------------------------------------------------------------------
// Instance names
// ---------------------------------------------------------------------------

/// What is wrong with an instance's name, behind those that stand before it.
pub open spec fn name_check(
    platform: Seq<char>,
    earlier: Seq<Seq<char>>,
    name: Seq<char>,
) -> Result<(), ConfigErrorView> {
    let start = "messaging."@ + platform + ".instances "@;
    if text::trimmed(name).len() == 0 {
        Err(ConfigErrorView::Invalid(start + "name can't be empty"@))
    } else if text::trimmed(name) != name {
        Err(
            ConfigErrorView::Invalid(
                start + "name '"@ + name + "' can't contain leading or trailing whitespace"@,
            ),
        )
    } else if text::same_ignoring_ascii_case(name, "default"@) {
        Err(ConfigErrorView::Invalid(start + "name '"@ + name + "' is reserved"@))
    } else if text::has(name, ":"@) {
        Err(ConfigErrorView::Invalid(start + "name '"@ + name + "' can't contain ':'"@))
    } else if earlier.contains(name) {
        Err(ConfigErrorView::Invalid(start + "has duplicate name '"@ + name + "'"@))
    } else {
        Ok(())
    }
}

/// What is wrong with the first of a platform's instance names that is not in order.
pub open spec fn names_check(platform: Seq<char>, names: Seq<Seq<char>>) -> Result<
    (),
    ConfigErrorView,
>
    decreases names.len(),
{
    if names.len() == 0 {
        Ok(())
    } else {
        first_failure(
            names_check(platform, names.drop_last()),
            name_check(platform, names.drop_last(), names.last()),
        )
    }
}

/// A name that is not in order refuses every longer list.
proof fn lemma_names_refusal_stays(platform: Seq<char>, names: Seq<Seq<char>>, n: int)
    requires
        0 <= n <= names.len(),
        names_check(platform, names.subrange(0, n)) is Err,
    ensures
        names_check(platform, names) == names_check(platform, names.subrange(0, n)),
    decreases names.len(),
{
    if n == names.len() {
        assert(names.subrange(0, n) =~= names);
    } else {
        assert(names.drop_last().subrange(0, n) =~= names.subrange(0, n));
        lemma_names_refusal_stays(platform, names.drop_last(), n);
    }
}

/// Says what is wrong with an instance's name.
fn check_name(platform: &str, earlier: &Vec<String>, name: &str) -> (result: Result<
    (),
    ConfigError,
>)
    ensures
        error::unit_result(result) == name_check(platform@, text::views(earlier@), name@),
{
    let trimmed = text::trim(name);
    let start = error::quoted("messaging.", platform, ".instances ");
    let start_name = text::concat(start.as_str(), "name '");
    if text::chars_of(trimmed.as_str()).len() == 0 {
        return Err(ConfigError::Invalid(text::concat(start.as_str(), "name can't be empty")));
    }
    if !text::same(trimmed.as_str(), name) {
        return Err(
            ConfigError::Invalid(
                error::quoted(
                    start_name.as_str(),
                    name,
                    "' can't contain leading or trailing whitespace",
                ),
            ),
        );
    }
    if text::eq_ignore_ascii_case(name, "default") {
        return Err(
            ConfigError::Invalid(error::quoted(start_name.as_str(), name, "' is reserved")),
        );
    }
    if text::contains(name, ":") {
        return Err(
            ConfigError::Invalid(error::quoted(start_name.as_str(), name, "' can't contain ':'")),
        );
    }
    if text::list_has(earlier, name) {
        let start_duplicate = text::concat(start.as_str(), "has duplicate name '");
        return Err(ConfigError::Invalid(error::quoted(start_duplicate.as_str(), name, "'")));
    }
    Ok(())
}

/// Checks the names of a platform's instances: none is empty, padded, reserved or has
/// a colon, and none occurs twice. Returns the names.
pub fn validate_instance_names(platform: &str, names: Vec<String>) -> (result: Result<
    Vec<String>,
    ConfigError,
>)
    ensures
        match result {
            Ok(seen) => names_check(platform@, text::views(names@)) is Ok && text::views(seen@)
                == text::views(names@),
            Err(refusal) => names_check(platform@, text::views(names@)) == Err::<
                (),
                ConfigErrorView,
            >(refusal@),
        },
{
    let ghost all = text::views(names@);
    let ghost items = names@;
    let mut seen: Vec<String> = Vec::new();
    proof {
        assert(all.subrange(0, 0) =~= Seq::empty());
        assert(text::views(seen@) =~= Seq::empty());
    }
    for name in it: names.into_iter()
        invariant
            it.seq() == items,
            all == text::views(items),
            text::views(seen@) == all.subrange(0, it.index() as int),
            names_check(platform@, all.subrange(0, it.index() as int)) is Ok,
    {
        let ghost i = it.index() as int;
        proof {
            let next = all.subrange(0, i + 1);
            assert(next.drop_last() =~= all.subrange(0, i));
            assert(next.last() == name@);
        }
        match check_name(platform, &seen, name.as_str()) {
            Ok(_) => {},
            Err(refusal) => {
                proof {
                    lemma_names_refusal_stays(platform@, all, i + 1);
                }
                return Err(refusal);
            },
        }
        proof {
            assert(text::views(seen@.push(name)) =~= text::views(seen@).push(name@));
            assert(all.subrange(0, i + 1) =~= all.subrange(0, i).push(name@));
        }
        seen.push(name);
    }
    proof {
        assert(all.subrange(0, all.len() as int) =~= all);
    }
    Ok(seen)
}

// ---------------------------------------------------------------------------
// Runtime keys
// ---------------------------------------------------------------------------

/// The keys under which a platform's adapters run: that of the default adapter where
/// there is one, then those of the named ones.
pub open spec fn runtime_keys(
    platform: Seq<char>,
    default_present: bool,
    names: Seq<Seq<char>>,
) -> Seq<Seq<char>> {
    (if default_present {
        seq![platform]
    } else {
        Seq::empty()
    }) + names.map_values(|name: Seq<char>| platform + ":"@ + name)
}

/// The first runtime key that occurs twice.
pub open spec fn keys_check(
    platform: Seq<char>,
    default_present: bool,
    names: Seq<Seq<char>>,
) -> Result<(), ConfigErrorView>
    decreases names.len(),
{
    if names.len() == 0 {
        Ok(())
    } else {
        let key = platform + ":"@ + names.last();
        first_failure(
            keys_check(platform, default_present, names.drop_last()),
            if runtime_keys(platform, default_present, names.drop_last()).contains(key) {
                Err(
                    ConfigErrorView::Invalid(
                        "messaging."@ + platform + " has duplicate runtime adapter key '"@ + key
                            + "'"@,
                    ),
                )
            } else {
                Ok(())
            },
        )
    }
}

/// A key that occurs twice refuses every longer list.
proof fn lemma_keys_refusal_stays(
    platform: Seq<char>,
    default_present: bool,
    names: Seq<Seq<char>>,
    n: int,
)
    requires
        0 <= n <= names.len(),
        keys_check(platform, default_present, names.subrange(0, n)) is Err,
    ensures
        keys_check(platform, default_present, names) == keys_check(
            platform,
            default_present,
            names.subrange(0, n),
        ),
    decreases names.len(),
{
    if n == names.len() {
        assert(names.subrange(0, n) =~= names);
    } else {
        assert(names.drop_last().subrange(0, n) =~= names.subrange(0, n));
        lemma_keys_refusal_stays(platform, default_present, names.drop_last(), n);
    }
}

/// Checks that no two of a platform's adapters run under the same key.
pub fn validate_runtime_keys(
    platform: &str,
    default_present: bool,
    named_instances: &Vec<String>,
) -> (result: Result<(), ConfigError>)
    ensures
        error::unit_result(result) == keys_check(
            platform@,
            default_present,
            text::views(named_instances@),
        ),
{
    let ghost all = text::views(named_instances@);
    let mut keys: Vec<String> = Vec::new();
    if default_present {
        keys.push(platform.to_owned());
    }
    proof {
        assert(all.subrange(0, 0) =~= Seq::empty());
        assert(text::views(keys@) =~= runtime_keys(platform@, default_present, Seq::empty()));
    }
    let mut i: usize = 0;
    while i < named_instances.len()
        invariant
            i <= named_instances@.len(),
            all == text::views(named_instances@),
            text::views(keys@) == runtime_keys(
                platform@,
                default_present,
                all.subrange(0, i as int),
            ),
            keys_check(platform@, default_present, all.subrange(0, i as int)) is Ok,
        decreases named_instances@.len() - i,
    {
        let name = named_instances[i].as_str();
        let start = text::concat(platform, ":");
        let key = text::concat(start.as_str(), name);
        proof {
            let next = all.subrange(0, i as int + 1);
            assert(next.drop_last() =~= all.subrange(0, i as int));
            assert(next.last() == name@);
        }
        if text::list_has(&keys, key.as_str()) {
            proof {
                lemma_keys_refusal_stays(platform@, default_present, all, i as int + 1);
            }
            let before = error::quoted(
                "messaging.",
                platform,
                " has duplicate runtime adapter key '",
            );
            return Err(ConfigError::Invalid(error::quoted(before.as_str(), key.as_str(), "'")));
        }
        proof {
            assert(text::views(keys@.push(key)) =~= text::views(keys@).push(key@));
            assert(runtime_keys(platform@, default_present, all.subrange(0, i as int + 1))
                =~= runtime_keys(platform@, default_present, all.subrange(0, i as int)).push(key@));
        }
        keys.push(key);
        i += 1;
    }
    proof {
        assert(all.subrange(0, all.len() as int) =~= all);
    }
    Ok(())
}

/// Names that are in order give runtime keys of which no two are the same.
pub proof fn law_valid_names_give_distinct_runtime_keys(
    platform: Seq<char>,
    default_present: bool,
    names: Seq<Seq<char>>,
)
    requires
        names_check(platform, names) is Ok,
    ensures
        keys_check(platform, default_present, names) is Ok,
        runtime_keys(platform, default_present, names).no_duplicates(),
    decreases names.len(),
{
    reveal_strlit(":");
    assert(":"@ =~= seq![':']);
    let keys = runtime_keys(platform, default_present, names);
    if names.len() > 0 {
        let before = names.drop_last();
        law_valid_names_give_distinct_runtime_keys(platform, default_present, before);
        let earlier = runtime_keys(platform, default_present, before);
        let key = platform + ":"@ + names.last();
        assert(keys =~= earlier.push(key));
        if earlier.contains(key) {
            let at = earlier.index_of(key);
            let offset: int = if default_present {
                1
            } else {
                0
            };
            if at < offset {
                assert(earlier[at] == platform);
                assert(key.len() > platform.len());
                assert(false);
            } else {
                let other = before[at - offset];
                assert(earlier[at] == platform + ":"@ + other);
                let skip = platform.len() as int + 1;
                assert((platform + ":"@ + other).subrange(skip, skip + other.len()) =~= other);
                assert(key.subrange(skip, skip + names.last().len()) =~= names.last());
                assert((platform + ":"@ + other).len() == skip + other.len());
                assert(key.len() == skip + names.last().len());
                assert(other == names.last());
                assert(before.contains(names.last()));
                assert(false);
            }
        }
    }
}

// ---------------------------------------------------------------------------
// Platforms
// ---------------------------------------------------------------------------

/// Not blank.
pub open spec fn is_set(value: Seq<char>) -> bool {
    !text::is_blank(value)
}

/// What is known of a platform's adapters, where it is configured.
#[verifier::opaque]
pub open spec fn platform_state(messaging: MessagingView, platform: Seq<char>) -> Option<
    AdapterView,
> {
    if platform == "discord"@ {
        match messaging.discord {
            Some(c) => Some(
                AdapterView {
                    default_present: is_set(c.token),
                    named_instances: c.instances.map_values(
                        |i: DiscordInstanceView| i.name,
                    ),
                },
            ),
            None => None,
        }
    } else if platform == "slack"@ {
        match messaging.slack {
            Some(c) => Some(
                AdapterView {
                    default_present: is_set(c.bot_token) && is_set(c.app_token),
                    named_instances: c.instances.map_values(
                        |i: SlackInstanceView| i.name,
                    ),
                },
            ),
            None => None,
        }
    } else if platform == "telegram"@ {
        match messaging.telegram {
            Some(c) => Some(
                AdapterView {
                    default_present: is_set(c.token),
                    named_instances: c.instances.map_values(
                        |i: TelegramInstanceView| i.name,
                    ),
                },
            ),
            None => None,
        }
    } else if platform == "twitch"@ {
        match messaging.twitch {
            Some(c) => Some(
                AdapterView {
                    default_present: is_set(c.username) && is_set(c.oauth_token),
                    named_instances: c.instances.map_values(
                        |i: TwitchInstanceView| i.name,
                    ),
                },
            ),
            None => None,
        }
    } else if platform == "email"@ {
        match messaging.email {
            Some(c) => Some(
                AdapterView {
                    default_present: is_set(c.imap_host) && is_set(c.imap_username) && is_set(
                        c.imap_password,
                    ) && is_set(c.smtp_host),
                    named_instances: c.instances.map_values(
                        |i: EmailInstanceView| i.name,
                    ),
                },
            ),
            None => None,
        }
    } else if platform == "signal"@ {
        match messaging.signal {
            Some(c) => Some(
                AdapterView {
                    default_present: is_set(c.http_url) && is_set(c.account),
                    named_instances: c.instances.map_values(
                        |i: SignalInstanceView| i.name,
                    ),
                },
            ),
            None => None,
        }
    } else {
        None
    }
}

/// What is wrong with a platform's adapters.
pub open spec fn platform_check(messaging: MessagingView, platform: Seq<char>) -> Result<
    (),
    ConfigErrorView,
> {
    match platform_state(messaging, platform) {
        Some(state) => first_failure(
            names_check(platform, state.named_instances),
            keys_check(platform, state.default_present, state.named_instances),
        ),
        None => Ok(()),
    }
}

/// What is wrong with the first platform whose adapters are not in order.
pub open spec fn platforms_check(messaging: MessagingView) -> Result<(), ConfigErrorView> {
    first_failure(
        platform_check(messaging, "discord"@),
        first_failure(
            platform_check(messaging, "slack"@),
            first_failure(
                platform_check(messaging, "telegram"@),
                first_failure(
                    platform_check(messaging, "twitch"@),
                    first_failure(
                        platform_check(messaging, "email"@),
                        platform_check(messaging, "signal"@),
                    ),
                ),
            ),
        ),
    )
}

/// The states of the platforms that are configured.
pub open spec fn platform_states(messaging: MessagingView) -> Map<Seq<char>, AdapterView> {
    Map::new(
        |platform: Seq<char>| platform_state(messaging, platform) is Some,
        |platform: Seq<char>| platform_state(messaging, platform)->0,
    )
}

/// The states of one more platform.
spec fn with_state(
    states: Map<Seq<char>, AdapterView>,
    platform: Seq<char>,
    state: Option<AdapterView>,
) -> Map<Seq<char>, AdapterView> {
    match state {
        Some(s) => states.insert(platform, s),
        None => states,
    }
}

/// The names of the platforms are different.
proof fn lemma_platform_names_differ()
    ensures
        "discord"@ != "slack"@,
        "discord"@ != "telegram"@,
        "discord"@ != "twitch"@,
        "discord"@ != "email"@,
        "discord"@ != "signal"@,
        "slack"@ != "telegram"@,
        "slack"@ != "twitch"@,
        "slack"@ != "email"@,
        "slack"@ != "signal"@,
        "telegram"@ != "twitch"@,
        "telegram"@ != "email"@,
        "telegram"@ != "signal"@,
        "twitch"@ != "email"@,
        "twitch"@ != "signal"@,
        "email"@ != "signal"@,
{
    reveal_strlit("discord");
    reveal_strlit("slack");
    reveal_strlit("telegram");
    reveal_strlit("twitch");
    reveal_strlit("email");
    reveal_strlit("signal");
    assert("discord"@.len() == 7 && "slack"@.len() == 5 && "telegram"@.len() == 8);
    assert("twitch"@.len() == 6 && "email"@.len() == 5 && "signal"@.len() == 6);
    assert("slack"@[0] == 's' && "email"@[0] == 'e');
    assert("twitch"@[0] == 't' && "signal"@[0] == 's');
}

/// Checks one platform's adapters and takes down what is known of them.
fn add_platform(
    states: &mut StringMap<AdapterValidationState>,
    platform: &str,
    default_present: bool,
    names: Vec<String>,
) -> (result: Result<(), ConfigError>)
    ensures
        error::unit_result(result) == first_failure(
            names_check(platform@, text::views(names@)),
            keys_check(platform@, default_present, text::views(names@)),
        ),
        result is Ok ==> views::entries(final(states)@) == views::entries(old(states)@).insert(
            platform@,
            AdapterView { default_present, named_instances: text::views(names@) },
        ),
{
    let named_instances = match validate_instance_names(platform, names) {
        Ok(seen) => seen,
        Err(refusal) => {
            return Err(refusal);
        },
    };
    validate_runtime_keys(platform, default_present, &named_instances)?;
    let state = AdapterValidationState { default_present, named_instances };
    let ghost before = states@;
    states.insert(platform.to_owned(), state);
    proof {
        assert(views::entries(states@) =~= views::entries(before).insert(platform@, state@));
    }
    Ok(())
}

/// The names of a list of instances.
fn discord_names(instances: &Vec<DiscordInstanceConfig>) -> (names: Vec<String>)
    ensures
        text::views(names@) == views::list(instances@).map_values(|i: DiscordInstanceView| i.name),
{
    let mut names: Vec<String> = Vec::new();
    let mut i: usize = 0;
    while i < instances.len()
        invariant
            i <= instances@.len(),
            names@.len() == i,
            forall|j: int| 0 <= j < i ==> (#[trigger] names@[j])@ == instances@[j].name@,
        decreases instances@.len() - i,
    {
        names.push(instances[i].name.clone());
        i += 1;
    }
    proof {
        assert(text::views(names@) =~= views::list(instances@).map_values(
            |i: DiscordInstanceView| i.name,
        ));
    }
    names
}

/// The names of a list of instances.
fn slack_names(instances: &Vec<SlackInstanceConfig>) -> (names: Vec<String>)
    ensures
        text::views(names@) == views::list(instances@).map_values(|i: SlackInstanceView| i.name),
{
    let mut names: Vec<String> = Vec::new();
    let mut i: usize = 0;
    while i < instances.len()
        invariant
            i <= instances@.len(),
            names@.len() == i,
            forall|j: int| 0 <= j < i ==> (#[trigger] names@[j])@ == instances@[j].name@,
        decreases instances@.len() - i,
    {
        names.push(instances[i].name.clone());
        i += 1;
    }
    proof {
        assert(text::views(names@) =~= views::list(instances@).map_values(
            |i: SlackInstanceView| i.name,
        ));
    }
    names
}

/// The names of a list of instances.
fn telegram_names(instances: &Vec<TelegramInstanceConfig>) -> (names: Vec<String>)
    ensures
        text::views(names@) == views::list(instances@).map_values(|i: TelegramInstanceView| i.name),
{
    let mut names: Vec<String> = Vec::new();
    let mut i: usize = 0;
    while i < instances.len()
        invariant
            i <= instances@.len(),
            names@.len() == i,
            forall|j: int| 0 <= j < i ==> (#[trigger] names@[j])@ == instances@[j].name@,
        decreases instances@.len() - i,
    {
        names.push(instances[i].name.clone());
        i += 1;
    }
    proof {
        assert(text::views(names@) =~= views::list(instances@).map_values(
            |i: TelegramInstanceView| i.name,
        ));
    }
    names
}

/// The names of a list of instances.
fn twitch_names(instances: &Vec<TwitchInstanceConfig>) -> (names: Vec<String>)
    ensures
        text::views(names@) == views::list(instances@).map_values(|i: TwitchInstanceView| i.name),
{
    let mut names: Vec<String> = Vec::new();
    let mut i: usize = 0;
    while i < instances.len()
        invariant
            i <= instances@.len(),
            names@.len() == i,
            forall|j: int| 0 <= j < i ==> (#[trigger] names@[j])@ == instances@[j].name@,
        decreases instances@.len() - i,
    {
        names.push(instances[i].name.clone());
        i += 1;
    }
    proof {
        assert(text::views(names@) =~= views::list(instances@).map_values(
            |i: TwitchInstanceView| i.name,
        ));
    }
    names
}

/// The names of a list of instances.
fn email_names(instances: &Vec<EmailInstanceConfig>) -> (names: Vec<String>)
    ensures
        text::views(names@) == views::list(instances@).map_values(|i: EmailInstanceView| i.name),
{
    let mut names: Vec<String> = Vec::new();
    let mut i: usize = 0;
    while i < instances.len()
        invariant
            i <= instances@.len(),
            names@.len() == i,
            forall|j: int| 0 <= j < i ==> (#[trigger] names@[j])@ == instances@[j].name@,
        decreases instances@.len() - i,
    {
        names.push(instances[i].name.clone());
        i += 1;
    }
    proof {
        assert(text::views(names@) =~= views::list(instances@).map_values(
            |i: EmailInstanceView| i.name,
        ));
    }
    names
}

/// The names of a list of instances.
fn signal_names(instances: &Vec<SignalInstanceConfig>) -> (names: Vec<String>)
    ensures
        text::views(names@) == views::list(instances@).map_values(|i: SignalInstanceView| i.name),
{
    let mut names: Vec<String> = Vec::new();
    let mut i: usize = 0;
    while i < instances.len()
        invariant
            i <= instances@.len(),
            names@.len() == i,
            forall|j: int| 0 <= j < i ==> (#[trigger] names@[j])@ == instances@[j].name@,
        decreases instances@.len() - i,
    {
        names.push(instances[i].name.clone());
        i += 1;
    }
    proof {
        assert(text::views(names@) =~= views::list(instances@).map_values(
            |i: SignalInstanceView| i.name,
        ));
    }
    names
}

/// Checks the Discord adapters and takes down what is known of them.
fn add_discord(
    states: &mut StringMap<AdapterValidationState>,
    messaging: &MessagingConfig,
) -> (result: Result<(), ConfigError>)
    ensures
        error::unit_result(result) == platform_check(messaging@, "discord"@),
        result is Ok ==> views::entries(final(states)@) == with_state(
            views::entries(old(states)@),
            "discord"@,
            platform_state(messaging@, "discord"@),
        ),
{
    proof {
        reveal(platform_state);
        lemma_platform_names_differ();
    }
    match &messaging.discord {
        Some(c) => {
            let default_present = !text::is_blank_text(c.token.as_str());
            add_platform(states, "discord", default_present, discord_names(&c.instances))
        },
        None => Ok(()),
    }
}

/// Checks the Slack adapters and takes down what is known of them.
fn add_slack(
    states: &mut StringMap<AdapterValidationState>,
    messaging: &MessagingConfig,
) -> (result: Result<(), ConfigError>)
    ensures
        error::unit_result(result) == platform_check(messaging@, "slack"@),
        result is Ok ==> views::entries(final(states)@) == with_state(
            views::entries(old(states)@),
            "slack"@,
            platform_state(messaging@, "slack"@),
        ),
{
    proof {
        reveal(platform_state);
        lemma_platform_names_differ();
    }
    match &messaging.slack {
        Some(c) => {
            let default_present = !text::is_blank_text(c.bot_token.as_str())
                && !text::is_blank_text(c.app_token.as_str());
            add_platform(states, "slack", default_present, slack_names(&c.instances))
        },
        None => Ok(()),
    }
}

/// Checks the Telegram adapters and takes down what is known of them.
fn add_telegram(
    states: &mut StringMap<AdapterValidationState>,
    messaging: &MessagingConfig,
) -> (result: Result<(), ConfigError>)
    ensures
        error::unit_result(result) == platform_check(messaging@, "telegram"@),
        result is Ok ==> views::entries(final(states)@) == with_state(
            views::entries(old(states)@),
            "telegram"@,
            platform_state(messaging@, "telegram"@),
        ),
{
    proof {
        reveal(platform_state);
        lemma_platform_names_differ();
    }
    match &messaging.telegram {
        Some(c) => {
            let default_present = !text::is_blank_text(c.token.as_str());
            add_platform(states, "telegram", default_present, telegram_names(&c.instances))
        },
        None => Ok(()),
    }
}

/// Checks the Twitch adapters and takes down what is known of them.
fn add_twitch(
    states: &mut StringMap<AdapterValidationState>,
    messaging: &MessagingConfig,
) -> (result: Result<(), ConfigError>)
    ensures
        error::unit_result(result) == platform_check(messaging@, "twitch"@),
        result is Ok ==> views::entries(final(states)@) == with_state(
            views::entries(old(states)@),
            "twitch"@,
            platform_state(messaging@, "twitch"@),
        ),
{
    proof {
        reveal(platform_state);
        lemma_platform_names_differ();
    }
    match &messaging.twitch {
        Some(c) => {
            let default_present = !text::is_blank_text(c.username.as_str()) && !text::is_blank_text(
                c.oauth_token.as_str(),
            );
            add_platform(states, "twitch", default_present, twitch_names(&c.instances))
        },
        None => Ok(()),
    }
}

/// Checks the email adapters and takes down what is known of them.
fn add_email(
    states: &mut StringMap<AdapterValidationState>,
    messaging: &MessagingConfig,
) -> (result: Result<(), ConfigError>)
    ensures
        error::unit_result(result) == platform_check(messaging@, "email"@),
        result is Ok ==> views::entries(final(states)@) == with_state(
            views::entries(old(states)@),
            "email"@,
            platform_state(messaging@, "email"@),
        ),
{
    proof {
        reveal(platform_state);
        lemma_platform_names_differ();
    }
    match &messaging.email {
        Some(c) => {
            let default_present = !text::is_blank_text(c.imap_host.as_str())
                && !text::is_blank_text(c.imap_username.as_str())
                && !text::is_blank_text(c.imap_password.as_str())
                && !text::is_blank_text(c.smtp_host.as_str());
            add_platform(states, "email", default_present, email_names(&c.instances))
        },
        None => Ok(()),
    }
}

/// Checks the Signal adapters and takes down what is known of them.
fn add_signal(
    states: &mut StringMap<AdapterValidationState>,
    messaging: &MessagingConfig,
) -> (result: Result<(), ConfigError>)
    ensures
        error::unit_result(result) == platform_check(messaging@, "signal"@),
        result is Ok ==> views::entries(final(states)@) == with_state(
            views::entries(old(states)@),
            "signal"@,
            platform_state(messaging@, "signal"@),
        ),
{
    proof {
        reveal(platform_state);
        lemma_platform_names_differ();
    }
    match &messaging.signal {
        Some(c) => {
            let default_present = !text::is_blank_text(c.http_url.as_str()) && !text::is_blank_text(
                c.account.as_str(),
            );
            add_platform(states, "signal", default_present, signal_names(&c.instances))
        },
        None => Ok(()),
    }
}

/// The states of the six platforms are all there are.
proof fn lemma_states_of_all_platforms(messaging: MessagingView)
    ensures
        with_state(
            with_state(
                with_state(
                    with_state(
                        with_state(
                            with_state(
                                Map::empty(),
                                "discord"@,
                                platform_state(messaging, "discord"@),
                            ),
                            "slack"@,
                            platform_state(messaging, "slack"@),
                        ),
                        "telegram"@,
                        platform_state(messaging, "telegram"@),
                    ),
                    "twitch"@,
                    platform_state(messaging, "twitch"@),
                ),
                "email"@,
                platform_state(messaging, "email"@),
            ),
            "signal"@,
            platform_state(messaging, "signal"@),
        ) == platform_states(messaging),
{
    reveal(platform_state);
    lemma_platform_names_differ();
    let a = with_state(Map::empty(), "discord"@, platform_state(messaging, "discord"@));
    let b = with_state(a, "slack"@, platform_state(messaging, "slack"@));
    let c = with_state(b, "telegram"@, platform_state(messaging, "telegram"@));
    let d = with_state(c, "twitch"@, platform_state(messaging, "twitch"@));
    let e = with_state(d, "email"@, platform_state(messaging, "email"@));
    let f = with_state(e, "signal"@, platform_state(messaging, "signal"@));
    assert(f =~= platform_states(messaging));
}

/// Checks the adapters of every platform, and returns what is known of those that are
/// configured.
pub fn build_adapter_validation_states(messaging: &MessagingConfig) -> (result: Result<
    StringMap<AdapterValidationState>,
    ConfigError,
>)
    ensures
        match result {
            Ok(states) => platforms_check(messaging@) is Ok && views::entries(states@)
                == platform_states(messaging@),
            Err(refusal) => platforms_check(messaging@) == Err::<(), ConfigErrorView>(refusal@),
        },
{
    let mut states: StringMap<AdapterValidationState> = StringMap::new();
    proof {
        assert(views::entries(states@) =~= Map::empty());
    }
    add_discord(&mut states, messaging)?;
    add_slack(&mut states, messaging)?;
    add_telegram(&mut states, messaging)?;
    add_twitch(&mut states, messaging)?;
    add_email(&mut states, messaging)?;
    add_signal(&mut states, messaging)?;
    proof {
        lemma_states_of_all_platforms(messaging@);
    }
    Ok(states)
}

// ---------------------------------------------------------------------------
// Bindings
// ---------------------------------------------------------------------------

/// What is wrong with the adapter that a binding names.
pub open spec fn binding_check(messaging: MessagingView, binding: BindingView) -> Result<
    (),
    ConfigErrorView,
> {
    let start = "binding for channel '"@ + binding.channel;
    if !takes_named_adapters(binding.channel) {
        match binding.adapter {
            Some(_) => Err(
                ConfigErrorView::Invalid(
                    start
                        + "' can't set adapter: this platform does not support named adapters"@,
                ),
            ),
            None => Ok(()),
        }
    } else {
        match platform_state(messaging, binding.channel) {
            None => Err(
                ConfigErrorView::Invalid(
                    start
                        + "' can't be resolved: no messaging config exists for that platform"@,
                ),
            ),
            Some(state) => match binding.adapter {
                Some(name) => if state.named_instances.contains(name) {
                    Ok(())
                } else {
                    Err(
                        ConfigErrorView::Invalid(
                            start + "' references missing adapter '"@ + name + "'"@,
                        ),
                    )
                },
                None => if state.default_present {
                    Ok(())
                } else {
                    Err(
                        ConfigErrorView::Invalid(
                            start
                                + "' requires the default adapter, but no default credentials are configured"@,
                        ),
                    )
                },
            },
        }
    }
}

/// What is wrong with the first binding whose adapter is not in order.
pub open spec fn bindings_check(messaging: MessagingView, bindings: Seq<BindingView>) -> Result<
    (),
    ConfigErrorView,
>
    decreases bindings.len(),
{
    if bindings.len() == 0 {
        Ok(())
    } else {
        first_failure(
            bindings_check(messaging, bindings.drop_last()),
            binding_check(messaging, bindings.last()),
        )
    }
}

/// What is wrong with the platforms' adapters, or else with the bindings to them.
pub open spec fn adapters_check(messaging: MessagingView, bindings: Seq<BindingView>) -> Result<
    (),
    ConfigErrorView,
> {
    first_failure(platforms_check(messaging), bindings_check(messaging, bindings))
}

/// A binding that is not in order refuses every longer list.
proof fn lemma_binding_refusal_stays(
    messaging: MessagingView,
    bindings: Seq<BindingView>,
    n: int,
)
    requires
        0 <= n <= bindings.len(),
        bindings_check(messaging, bindings.subrange(0, n)) is Err,
    ensures
        bindings_check(messaging, bindings) == bindings_check(messaging, bindings.subrange(0, n)),
    decreases bindings.len(),
{
    if n == bindings.len() {
        assert(bindings.subrange(0, n) =~= bindings);
    } else {
        assert(bindings.drop_last().subrange(0, n) =~= bindings.subrange(0, n));
        lemma_binding_refusal_stays(messaging, bindings.drop_last(), n);
    }
}

/// Says what is wrong with the adapter that a binding names.
fn check_binding(
    states: &StringMap<AdapterValidationState>,
    binding: &Binding,
    Ghost(messaging): Ghost<MessagingView>,
) -> (result: Result<(), ConfigError>)
    requires
        views::entries(states@) == platform_states(messaging),
    ensures
        error::unit_result(result) == binding_check(messaging, binding@),
{
    let channel = binding.channel.as_str();
    let start = text::concat("binding for channel '", channel);
    if !is_named_adapter_platform(channel) {
        if binding.adapter.is_some() {
            return Err(
                ConfigError::Invalid(
                    text::concat(
                        start.as_str(),
                        "' can't set adapter: this platform does not support named adapters",
                    ),
                ),
            );
        }
        return Ok(());
    }
    let found = states.get(channel);
    proof {
        assert(views::entries(states@).contains_key(channel@) == states@.contains_key(channel@));
        assert(platform_states(messaging).contains_key(channel@) == (platform_state(
            messaging,
            channel@,
        ) is Some));
    }
    let state = match found {
        Some(state) => state,
        None => {
            return Err(
                ConfigError::Invalid(
                    text::concat(
                        start.as_str(),
                        "' can't be resolved: no messaging config exists for that platform",
                    ),
                ),
            );
        },
    };
    proof {
        assert(views::entries(states@)[channel@] == state@);
    }
    match &binding.adapter {
        Some(name) => {
            if !text::list_has(&state.named_instances, name.as_str()) {
                let before = text::concat(start.as_str(), "' references missing adapter '");
                return Err(
                    ConfigError::Invalid(error::quoted(before.as_str(), name.as_str(), "'")),
                );
            }
        },
        None => {
            if !state.default_present {
                return Err(
                    ConfigError::Invalid(
                        text::concat(
                            start.as_str(),
                            "' requires the default adapter, but no default credentials are configured",
                        ),
                    ),
                );
            }
        },
    }
    Ok(())
}

/// Checks the platforms' adapters and the bindings to them.
pub fn validate_named_messaging_adapters(
    messaging: &MessagingConfig,
    bindings: &Vec<Binding>,
) -> (result: Result<(), ConfigError>)
    ensures
        error::unit_result(result) == adapters_check(messaging@, views::list(bindings@)),
{
    let states = match build_adapter_validation_states(messaging) {
        Ok(states) => states,
        Err(refusal) => {
            return Err(refusal);
        },
    };
    let ghost all = views::list(bindings@);
    proof {
        assert(all.subrange(0, 0) =~= Seq::empty());
    }
    let mut i: usize = 0;
    while i < bindings.len()
        invariant
            i <= bindings@.len(),
            all == views::list(bindings@),
            views::entries(states@) == platform_states(messaging@),
            platforms_check(messaging@) is Ok,
            bindings_check(messaging@, all.subrange(0, i as int)) is Ok,
        decreases bindings@.len() - i,
    {
        proof {
            let next = all.subrange(0, i as int + 1);
            assert(next.drop_last() =~= all.subrange(0, i as int));
            assert(next.last() == bindings@[i as int]@);
        }
        match check_binding(&states, &bindings[i], Ghost(messaging@)) {
            Ok(_) => {},
            Err(refusal) => {
                proof {
                    lemma_binding_refusal_stays(messaging@, all, i as int + 1);
                }
                return Err(refusal);
            },
        }
        i += 1;
    }
    proof {
        assert(all.subrange(0, all.len() as int) =~= all);
    }
    Ok(())
}

/// Where adapters and bindings are in order, every binding to a platform with named
/// adapters runs under the key of an adapter that the platform has.
pub proof fn law_valid_bindings_name_adapters_that_are(
    messaging: MessagingView,
    bindings: Seq<BindingView>,
    k: int,
)
    requires
        adapters_check(messaging, bindings) is Ok,
        0 <= k < bindings.len(),
        takes_named_adapters(bindings[k].channel),
        bindings[k].adapter matches Some(name) ==> name.len() > 0,
    ensures
        platform_state(messaging, bindings[k].channel) matches Some(state) && runtime_keys(
            bindings[k].channel,
            state.default_present,
            state.named_instances,
        ).contains(binding::adapter_key(bindings[k].channel, bindings[k].adapter)),
{
    lemma_each_binding_is_checked(messaging, bindings, k);
    let b = bindings[k];
    let state = platform_state(messaging, b.channel)->0;
    let keys = runtime_keys(b.channel, state.default_present, state.named_instances);
    match b.adapter {
        Some(name) => {
            let at = state.named_instances.index_of(name);
            let offset: int = if state.default_present {
                1
            } else {
                0
            };
            assert(keys[at + offset] == b.channel + ":"@ + name);
        },
        None => {
            assert(keys[0] == b.channel);
        },
    }
}

/// Where a list of bindings is in order, each of them is.
proof fn lemma_each_binding_is_checked(messaging: MessagingView, bindings: Seq<BindingView>, k: int)
    requires
        bindings_check(messaging, bindings) is Ok,
        0 <= k < bindings.len(),
    ensures
        binding_check(messaging, bindings[k]) is Ok,
    decreases bindings.len(),
{
    if k < bindings.len() - 1 {
        lemma_each_binding_is_checked(messaging, bindings.drop_last(), k);
    }
}

} // verus!
