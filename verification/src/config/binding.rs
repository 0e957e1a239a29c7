//! Bindings: which agent an inbound message goes to.
use crate::json;
use crate::json::{Json, JsonNumberView, JsonView};
use crate::string_map::StringMap;
use crate::text;
use crate::views;
use vstd::prelude::*;

verus! {

/// Routes a messaging platform conversation to a specific agent.
#[derive(Debug, PartialEq, Eq)]
pub struct Binding {
    pub agent_id: String,
    pub channel: String,
    /// Optional named adapter selector (platform-scoped).
    ///
    /// `None` targets the default adapter for this platform.
    pub adapter: Option<String>,
    pub guild_id: Option<String>,
    /// Slack workspace (team) ID.
    pub workspace_id: Option<String>,
    /// Telegram group ID.
    pub chat_id: Option<String>,
    /// Channel IDs this binding applies to. If empty, all channels in the guild/workspace
    /// are allowed.
    pub channel_ids: Vec<String>,
    /// Require explicit @mention (or reply-to-bot) for inbound messages.
    pub require_mention: bool,
    /// User IDs allowed to DM the bot through this binding.
    pub dm_allowed_users: Vec<String>,
}

/// The view of a [`Binding`].
#[verifier::ext_equal]
pub struct BindingView {
    pub agent_id: Seq<char>,
    pub channel: Seq<char>,
    pub adapter: Option<Seq<char>>,
    pub guild_id: Option<Seq<char>>,
    pub workspace_id: Option<Seq<char>>,
    pub chat_id: Option<Seq<char>>,
    pub channel_ids: Seq<Seq<char>>,
    pub require_mention: bool,
    pub dm_allowed_users: Seq<Seq<char>>,
}

impl View for Binding {
    type V = BindingView;

    open spec fn view(&self) -> BindingView {
        BindingView {
            agent_id: self.agent_id@,
            channel: self.channel@,
            adapter: text::view_of(self.adapter),
            guild_id: text::view_of(self.guild_id),
            workspace_id: text::view_of(self.workspace_id),
            chat_id: text::view_of(self.chat_id),
            channel_ids: text::views(self.channel_ids@),
            require_mention: self.require_mention,
            dm_allowed_users: text::views(self.dm_allowed_users@),
        }
    }
}

/// A message that came in from a platform.
#[derive(Debug, PartialEq, Eq)]
pub struct InboundMessage {
    /// The platform.
    pub source: String,
    /// The named adapter that it came in through; none for the default one.
    pub adapter: Option<String>,
    /// The agent that it names, where it does.
    pub agent_id: Option<String>,
    pub sender_id: String,
    /// What the adapter says of it.
    pub metadata: StringMap<Json>,
}

/// The view of an [`InboundMessage`].
#[verifier::ext_equal]
pub struct InboundView {
    pub source: Seq<char>,
    pub adapter: Option<Seq<char>>,
    pub agent_id: Option<Seq<char>>,
    pub sender_id: Seq<char>,
    pub metadata: Map<Seq<char>, JsonView>,
}

impl View for InboundMessage {
    type V = InboundView;

    open spec fn view(&self) -> InboundView {
        InboundView {
            source: self.source@,
            adapter: text::view_of(self.adapter),
            agent_id: text::view_of(self.agent_id),
            sender_id: self.sender_id@,
            metadata: views::entries(self.metadata@),
        }
    }
}

// ---------------------------------------------------------------------------
// Adapter keys
// ---------------------------------------------------------------------------

/// An adapter selector without surrounding whitespace; an empty one selects nothing.
pub open spec fn normalized_adapter(adapter: Option<Seq<char>>) -> Option<Seq<char>> {
    match adapter {
        Some(name) => if text::trimmed(name).len() == 0 {
            None
        } else {
            Some(text::trimmed(name))
        },
        None => None,
    }
}

/// An adapter selector is normal: there is none, or it has no white space around it and
/// is not empty.
pub open spec fn is_normal_adapter(adapter: Option<Seq<char>>) -> bool {
    adapter matches Some(name) ==> name.len() > 0 && text::trimmed(name) == name
}

/// A normalized adapter selector is normal.
pub proof fn lemma_normalized_is_normal(adapter: Option<Seq<char>>)
    ensures
        is_normal_adapter(normalized_adapter(adapter)),
{
    if let Some(name) = adapter {
        text::lemma_trimmed_twice(name);
    }
}

/// Normalize an adapter selector: trim whitespace, return `None` if empty.
pub fn normalize_adapter(adapter: Option<String>) -> (normalized: Option<String>)
    ensures
        text::view_of(normalized) == normalized_adapter(text::view_of(adapter)),
{
    match adapter {
        Some(name) => {
            let trimmed = text::trim(name.as_str());
            if text::chars_of(trimmed.as_str()).len() == 0 {
                None
            } else {
                Some(trimmed)
            }
        },
        None => None,
    }
}

/// The key under which an adapter runs: the platform, and behind a colon the name
/// where there is one.
pub open spec fn adapter_key(platform: Seq<char>, adapter: Option<Seq<char>>) -> Seq<char> {
    match adapter {
        Some(name) => if name.len() == 0 {
            platform
        } else {
            platform + ":"@ + name
        },
        None => platform,
    }
}

/// Build a runtime adapter key from platform and optional named selector.
pub fn binding_runtime_adapter_key(platform: &str, adapter: Option<&str>) -> (key: String)
    ensures
        key@ == adapter_key(platform@, json::str_view(adapter)),
{
    if let Some(name) = adapter {
        if text::chars_of(name).len() > 0 {
            let start = text::concat(platform, ":");
            return text::concat(start.as_str(), name);
        }
    }
    platform.to_owned()
}

/// Adapters of platforms without a colon in their names share a key only where both
/// the platform and the selector are the same.
pub proof fn law_adapter_keys_are_distinct(
    platform: Seq<char>,
    adapter: Option<Seq<char>>,
    other_platform: Seq<char>,
    other_adapter: Option<Seq<char>>,
)
    requires
        !platform.contains(':'),
        !other_platform.contains(':'),
        adapter matches Some(name) ==> name.len() > 0,
        other_adapter matches Some(name) ==> name.len() > 0,
        adapter_key(platform, adapter) == adapter_key(other_platform, other_adapter),
    ensures
        platform == other_platform,
        adapter == other_adapter,
{
    reveal_strlit(":");
    assert(":"@ =~= seq![':']);
    let key = adapter_key(platform, adapter);
    let n = platform.len() as int;
    let m = other_platform.len() as int;
    match adapter {
        Some(name) => {
            assert(key[n] == ':');
        },
        None => {},
    }
    match other_adapter {
        Some(name) => {
            assert(key[m] == ':');
        },
        None => {},
    }
    assert forall|i: int| 0 <= i < n implies key[i] == #[trigger] platform[i] by {}
    assert forall|i: int| 0 <= i < m implies key[i] == #[trigger] other_platform[i] by {}
    if n < m {
        assert(other_platform[n] == key[n]);
        assert(adapter is Some);
        assert(false);
    }
    if m < n {
        assert(platform[m] == key[m]);
        assert(other_adapter is Some);
        assert(false);
    }
    assert(platform =~= other_platform);
    if adapter is Some && other_adapter is Some {
        assert(adapter->0 =~= key.subrange(n + 1, key.len() as int));
        assert(other_adapter->0 =~= key.subrange(n + 1, key.len() as int));
    }
}

impl Binding {
    /// Runtime adapter key for this binding.
    pub fn runtime_adapter_key(&self) -> (key: String)
        ensures
            key@ == adapter_key(self@.channel, self@.adapter),
    {
        binding_runtime_adapter_key(self.channel.as_str(), text::borrowed(&self.adapter))
    }

    /// Whether this binding targets the default adapter for its platform.
    pub fn uses_default_adapter(&self) -> (yes: bool)
        ensures
            yes == (self@.adapter is None),
    {
        self.adapter.is_none()
    }
}

// ---------------------------------------------------------------------------
// Routing
// ---------------------------------------------------------------------------

impl InboundView {
    /// What the adapter says under a key.
    pub open spec fn says(self, key: Seq<char>) -> Option<JsonView> {
        if self.metadata.contains_key(key) {
            Some(self.metadata[key])
        } else {
            None
        }
    }

    /// The text under a key.
    pub open spec fn text_at(self, key: Seq<char>) -> Option<Seq<char>> {
        match self.says(key) {
            Some(value) => value.text(),
            None => None,
        }
    }

    /// The unsigned number under a key, in decimal digits.
    pub open spec fn id_at(self, key: Seq<char>) -> Option<Seq<char>> {
        match self.says(key) {
            Some(value) => match value.unsigned() {
                Some(id) => Some(text::decimal(id as nat)),
                None => None,
            },
            None => None,
        }
    }

    /// The text under a key, or the signed number under it in decimal digits.
    pub open spec fn text_or_id_at(self, key: Seq<char>) -> Option<Seq<char>> {
        match self.says(key) {
            Some(value) => match value.text() {
                Some(t) => Some(t),
                None => match value.signed() {
                    Some(id) => Some(text::signed_decimal(id as int)),
                    None => None,
                },
            },
            None => None,
        }
    }

    /// A Discord message without a guild is a direct message.
    pub open spec fn is_discord_dm(self) -> bool {
        !self.metadata.contains_key("discord_guild_id"@) && self.source == "discord"@
    }
}

impl InboundMessage {
    /// What the adapter says under a key.
    fn says(&self, key: &str) -> (value: Option<&Json>)
        ensures
            json::json_ref_view(value) == self@.says(key@),
    {
        self.metadata.get(key)
    }

    /// The text under a key.
    fn text_at(&self, key: &str) -> (value: Option<&str>)
        ensures
            json::str_view(value) == self@.text_at(key@),
    {
        match self.says(key) {
            Some(value) => value.as_str(),
            None => None,
        }
    }

    /// The unsigned number under a key, in decimal digits.
    fn id_at(&self, key: &str) -> (value: Option<String>)
        ensures
            text::view_of(value) == self@.id_at(key@),
    {
        match self.says(key) {
            Some(value) => match value.as_u64() {
                Some(id) => Some(text::decimal_of(id)),
                None => None,
            },
            None => None,
        }
    }

    /// The text under a key, or the signed number under it in decimal digits.
    fn text_or_id_at(&self, key: &str) -> (found: Option<String>)
        ensures
            text::view_of(found) == self@.text_or_id_at(key@),
    {
        match self.says(key) {
            Some(value) => match value.as_str() {
                Some(t) => Some(t.to_owned()),
                None => match value.as_i64() {
                    Some(id) => Some(text::signed_decimal_of(id)),
                    None => None,
                },
            },
            None => None,
        }
    }
}

impl BindingView {
    /// One of the binding's channels is the one named.
    pub open spec fn lists_channel(self, channel: Option<Seq<char>>) -> bool {
        match channel {
            Some(id) => self.channel_ids.contains(id),
            None => false,
        }
    }

    /// The message is in a channel of the binding: a Discord channel or its parent, a
    /// Slack channel or a Twitch channel. A binding without channels has them all.
    pub open spec fn has_channel_of(self, message: InboundView) -> bool {
        ||| self.channel_ids.len() == 0
        ||| self.lists_channel(message.id_at("discord_channel_id"@))
        ||| self.lists_channel(message.text_at("slack_channel_id"@))
        ||| self.lists_channel(message.text_at("twitch_channel"@))
        ||| self.lists_channel(message.id_at("discord_parent_channel_id"@))
    }

    /// The message matches all that the binding asks of it but a mention.
    pub open spec fn routes(self, message: InboundView) -> bool {
        &&& self.channel == message.source
        &&& self.adapter == message.adapter
        &&& if message.source == "webchat"@ && message.agent_id is Some {
            message.agent_id == Some(self.agent_id)
        } else if message.is_discord_dm() {
            self.dm_allowed_users.contains(message.sender_id)
        } else {
            &&& self.guild_id is Some ==> message.id_at("discord_guild_id"@) == self.guild_id
            &&& self.workspace_id is Some ==> message.text_at("slack_workspace_id"@)
                == self.workspace_id
            &&& self.has_channel_of(message)
            &&& self.chat_id is Some ==> message.text_or_id_at("telegram_chat_id"@) == self.chat_id
        }
    }

    /// The message is directed at the bot, where the binding asks for that: it is a
    /// direct message, or its adapter says that it mentions the bot or replies to it.
    /// A message of which its adapter does not say so does not pass, whatever its
    /// platform.
    pub open spec fn mention_passes(self, message: InboundView) -> bool {
        ||| !self.require_mention
        ||| is_directed(message)
        ||| match message.says(mention_key(message.source)) {
            Some(value) => value.truth() == Some(true),
            None => false,
        }
    }
}

/// A direct message, which is always meant for the bot.
pub open spec fn is_directed(message: InboundView) -> bool {
    if message.source == "discord"@ {
        message.id_at("discord_guild_id"@) is None
    } else if message.source == "telegram"@ {
        message.text_at("telegram_chat_type"@) == Some("private"@)
    } else {
        false
    }
}

/// Where the adapters of a platform say that a message mentions the bot or replies to
/// it.
pub open spec fn mention_key(platform: Seq<char>) -> Seq<char> {
    platform + "_mentions_or_replies_to_bot"@
}

/// Match a binding's adapter selector against an inbound message adapter.
pub fn binding_adapter_matches(binding: &Binding, message: &InboundMessage) -> (yes: bool)
    ensures
        yes == (binding@.adapter == message@.adapter),
{
    text::same_option(text::borrowed(&binding.adapter), text::borrowed(&message.adapter))
}

impl Binding {
    /// Whether one of the binding's channels is the one named.
    fn lists_channel(&self, channel: Option<&str>) -> (yes: bool)
        ensures
            yes == self@.lists_channel(json::str_view(channel)),
    {
        match channel {
            Some(id) => text::list_has(&self.channel_ids, id),
            None => false,
        }
    }

    /// Whether the message is in a channel of the binding.
    fn has_channel_of(&self, message: &InboundMessage) -> (yes: bool)
        ensures
            yes == self@.has_channel_of(message@),
    {
        let message_channel = message.id_at("discord_channel_id");
        let parent_channel = message.id_at("discord_parent_channel_id");
        self.channel_ids.len() == 0 || self.lists_channel(text::borrowed(&message_channel))
            || self.lists_channel(message.text_at("slack_channel_id")) || self.lists_channel(
            message.text_at("twitch_channel"),
        ) || self.lists_channel(text::borrowed(&parent_channel))
    }

    /// Check if this binding matches on routing criteria (platform, guild, channel
    /// IDs, adapter, etc.): everything except `require_mention`.
    pub fn matches_route(&self, message: &InboundMessage) -> (yes: bool)
        ensures
            yes == self@.routes(message@),
    {
        if !text::same(self.channel.as_str(), message.source.as_str()) {
            return false;
        }
        if !binding_adapter_matches(self, message) {
            return false;
        }
        if text::same(message.source.as_str(), "webchat") {
            if let Some(message_agent_id) = &message.agent_id {
                return text::same(message_agent_id.as_str(), self.agent_id.as_str());
            }
        }
        if !message.metadata.contains_key("discord_guild_id") && text::same(
            message.source.as_str(),
            "discord",
        ) {
            return text::list_has(&self.dm_allowed_users, message.sender_id.as_str());
        }
        if let Some(guild_id) = &self.guild_id {
            let message_guild = message.id_at("discord_guild_id");
            if !text::same_option(text::borrowed(&message_guild), Some(guild_id.as_str())) {
                return false;
            }
        }
        if let Some(workspace_id) = &self.workspace_id {
            if !text::same_option(
                message.text_at("slack_workspace_id"),
                Some(workspace_id.as_str()),
            ) {
                return false;
            }
        }
        if !self.has_channel_of(message) {
            return false;
        }
        if let Some(chat_id) = &self.chat_id {
            let message_chat = message.text_or_id_at("telegram_chat_id");
            if !text::same_option(text::borrowed(&message_chat), Some(chat_id.as_str())) {
                return false;
            }
        }
        true
    }

    /// Check whether a message that already matched on routing criteria also passes
    /// the `require_mention` filter.
    ///
    /// Works for all platforms by checking the platform's own
    /// `*_mentions_or_replies_to_bot` metadata key that every adapter sets. Direct
    /// messages are always allowed through.
    pub fn passes_require_mention(&self, message: &InboundMessage) -> (yes: bool)
        ensures
            yes == self@.mention_passes(message@),
    {
        if !self.require_mention {
            return true;
        }
        let source = message.source.as_str();
        let directed = if text::same(source, "discord") {
            message.id_at("discord_guild_id").is_none()
        } else if text::same(source, "telegram") {
            text::same_option(message.text_at("telegram_chat_type"), Some("private"))
        } else {
            false
        };
        if directed {
            return true;
        }
        let key = text::concat(source, "_mentions_or_replies_to_bot");
        match message.says(key.as_str()) {
            Some(value) => match value.as_bool() {
                Some(mentioned) => mentioned,
                None => false,
            },
            None => false,
        }
    }
}

/// The agent that a message goes to: that of the first binding that routes it, unless
/// that binding asks for a mention that is not there, and the default agent where no
/// binding routes it.
pub open spec fn agent_for(
    bindings: Seq<BindingView>,
    message: InboundView,
    default_agent_id: Seq<char>,
) -> Option<Seq<char>>
    decreases bindings.len(),
{
    if bindings.len() == 0 {
        Some(default_agent_id)
    } else if bindings[0].routes(message) {
        if bindings[0].mention_passes(message) {
            Some(bindings[0].agent_id)
        } else {
            None
        }
    } else {
        agent_for(bindings.drop_first(), message, default_agent_id)
    }
}

/// Resolve which agent should handle an inbound message.
///
/// Checks bindings in order. First routing match wins. Falls back to the default
/// agent if no binding matches on routing criteria.
///
/// Returns `None` when a binding matched on routing but the message was suppressed by
/// `require_mention`: the caller should drop the message.
pub fn resolve_agent_for_message(
    bindings: &Vec<Binding>,
    message: &InboundMessage,
    default_agent_id: &str,
) -> (agent: Option<String>)
    ensures
        text::view_of(agent) == agent_for(
            views::list(bindings@),
            message@,
            default_agent_id@,
        ),
{
    let ghost all = views::list(bindings@);
    proof {
        assert(all.skip(0) =~= all);
    }
    let mut i: usize = 0;
    while i < bindings.len()
        invariant
            i <= bindings@.len(),
            all == views::list(bindings@),
            agent_for(all, message@, default_agent_id@) == agent_for(
                all.skip(i as int),
                message@,
                default_agent_id@,
            ),
        decreases bindings@.len() - i,
    {
        let binding = &bindings[i];
        proof {
            assert(all.skip(i as int)[0] == binding@);
            assert(all.skip(i as int).drop_first() =~= all.skip(i as int + 1));
        }
        if binding.matches_route(message) {
            if binding.passes_require_mention(message) {
                return Some(binding.agent_id.clone());
            }
            return None;
        }
        i += 1;
    }
    Some(default_agent_id.to_owned())
}

/// The first binding that routes a message decides: its agent gets the message, or,
/// where a mention is missing, nobody does. What stands behind it does not matter.
pub proof fn law_first_matching_binding_decides(
    bindings: Seq<BindingView>,
    message: InboundView,
    default_agent_id: Seq<char>,
    k: int,
)
    requires
        0 <= k < bindings.len(),
        bindings[k].routes(message),
        forall|j: int| 0 <= j < k ==> !(#[trigger] bindings[j]).routes(message),
    ensures
        agent_for(bindings, message, default_agent_id) == (if bindings[k].mention_passes(message) {
            Some(bindings[k].agent_id)
        } else {
            None
        }),
    decreases bindings.len(),
{
    if k > 0 {
        let rest = bindings.drop_first();
        assert(!bindings[0].routes(message));
        assert forall|j: int| 0 <= j < k - 1 implies !(#[trigger] rest[j]).routes(message) by {
            assert(rest[j] == bindings[j + 1]);
        }
        law_first_matching_binding_decides(rest, message, default_agent_id, k - 1);
    }
}

/// A message that no binding routes goes to the default agent.
pub proof fn law_unrouted_message_goes_to_the_default_agent(
    bindings: Seq<BindingView>,
    message: InboundView,
    default_agent_id: Seq<char>,
)
    requires
        forall|j: int| 0 <= j < bindings.len() ==> !(#[trigger] bindings[j]).routes(message),
    ensures
        agent_for(bindings, message, default_agent_id) == Some(default_agent_id),
    decreases bindings.len(),
{
    if bindings.len() > 0 {
        let rest = bindings.drop_first();
        assert(!bindings[0].routes(message));
        assert forall|j: int| 0 <= j < rest.len() implies !(#[trigger] rest[j]).routes(message) by {
            assert(rest[j] == bindings[j + 1]);
        }
        law_unrouted_message_goes_to_the_default_agent(rest, message, default_agent_id);
    }
}

/// A direct message is never dropped for want of a mention.
pub proof fn law_direct_messages_need_no_mention(binding: BindingView, message: InboundView)
    requires
        is_directed(message),
    ensures
        binding.mention_passes(message),
{
}

/// On every platform, a message that is said to mention the bot or to reply to it
/// passes, and one of which nothing is said does not pass where a mention is required,
/// unless it is a direct one.
pub proof fn law_mentions_count_on_every_platform(binding: BindingView, message: InboundView)
    ensures
        message.says(message.source + "_mentions_or_replies_to_bot"@) == Some(
            JsonView::Bool(true),
        ) ==> binding.mention_passes(message),
        binding.require_mention && !is_directed(message) && message.says(
            message.source + "_mentions_or_replies_to_bot"@,
        ) is None ==> !binding.mention_passes(message),
{
}

/// A binding that asks for its platform, its adapter and some channels, and for nothing
/// else, routes a message of that platform and adapter exactly where one of its channel
/// ids is what the message's metadata gives: the number under `discord_channel_id` or
/// `discord_parent_channel_id` in decimal digits, or the text under `slack_channel_id` or
/// `twitch_channel`. Direct messages on Discord and web chats that name their agent are
/// left out: channels have no say in them.
pub proof fn law_channels_route_by_the_ids_of_every_platform(
    binding: BindingView,
    message: InboundView,
)
    requires
        binding.channel == message.source,
        binding.adapter == message.adapter,
        binding.guild_id is None,
        binding.workspace_id is None,
        binding.chat_id is None,
        binding.channel_ids.len() > 0,
        message.source == "webchat"@ ==> message.agent_id is None,
        message.source == "discord"@ ==> message.metadata.contains_key("discord_guild_id"@),
    ensures
        binding.routes(message) <==> exists|i: int|
            0 <= i < binding.channel_ids.len() && {
                ||| message.metadata.contains_pair(
                    "slack_channel_id"@,
                    JsonView::Str(#[trigger] binding.channel_ids[i]),
                )
                ||| message.metadata.contains_pair(
                    "twitch_channel"@,
                    JsonView::Str(binding.channel_ids[i]),
                )
                ||| message.metadata.contains_key("discord_channel_id"@) && (
                message.metadata["discord_channel_id"@] matches JsonView::Number(
                    JsonNumberView::Unsigned(n),
                ) && text::decimal(n as nat) == binding.channel_ids[i])
                ||| message.metadata.contains_key("discord_parent_channel_id"@) && (
                message.metadata["discord_parent_channel_id"@] matches JsonView::Number(
                    JsonNumberView::Unsigned(n),
                ) && text::decimal(n as nat) == binding.channel_ids[i])
            },
{
    let ids = binding.channel_ids;
    let channel = message.id_at("discord_channel_id"@);
    let parent = message.id_at("discord_parent_channel_id"@);
    let slack = message.text_at("slack_channel_id"@);
    let twitch = message.text_at("twitch_channel"@);
    if binding.routes(message) {
        let named = if binding.lists_channel(channel) {
            channel->0
        } else if binding.lists_channel(slack) {
            slack->0
        } else if binding.lists_channel(twitch) {
            twitch->0
        } else {
            parent->0
        };
        assert(ids.contains(named));
        let i = ids.index_of(named);
        assert(ids[i] == named);
    }
}

/// A Slack message in a channel that the binding lists is routed, whatever else its
/// metadata says.
pub proof fn law_listed_slack_channel_is_routed(
    binding: BindingView,
    message: InboundView,
    id: Seq<char>,
)
    requires
        binding.channel == "slack"@,
        message.source == "slack"@,
        binding.adapter == message.adapter,
        binding.guild_id is None,
        binding.workspace_id is None,
        binding.chat_id is None,
        message.metadata.contains_pair("slack_channel_id"@, JsonView::Str(id)),
        binding.channel_ids.contains(id),
    ensures
        binding.routes(message),
{
    reveal_strlit("slack");
    reveal_strlit("webchat");
    reveal_strlit("discord");
    assert("slack"@.len() == 5);
    assert("webchat"@.len() == 7);
    assert("discord"@.len() == 7);
}

/// No binding routes a message of another platform or another adapter.
pub proof fn law_platform_and_adapter_must_match(binding: BindingView, message: InboundView)
    requires
        binding.channel != message.source || binding.adapter != message.adapter,
    ensures
        !binding.routes(message),
{
}

/// A binding that names only its platform and its adapter routes every message of theirs
/// but direct messages on Discord and web chats that name their agent.
pub proof fn law_bare_binding_routes_its_platform(binding: BindingView, message: InboundView)
    requires
        binding.channel == message.source,
        binding.adapter == message.adapter,
        binding.guild_id is None,
        binding.workspace_id is None,
        binding.chat_id is None,
        binding.channel_ids.len() == 0,
        message.source == "webchat"@ ==> message.agent_id is None,
        message.source == "discord"@ ==> message.metadata.contains_key("discord_guild_id"@),
    ensures
        binding.routes(message),
{
}

/// A binding with a guild routes no message but those whose metadata has the guild's id
/// as a number under `discord_guild_id`, and with nothing else asked for it routes all of
/// those. Web chats that name their agent and direct messages on Discord are left out.
pub proof fn law_guild_routes_by_its_id(
    binding: BindingView,
    message: InboundView,
    guild: Seq<char>,
)
    requires
        binding.channel == message.source,
        binding.adapter == message.adapter,
        binding.guild_id == Some(guild),
        message.source == "webchat"@ ==> message.agent_id is None,
        message.source == "discord"@ ==> message.metadata.contains_key("discord_guild_id"@),
    ensures
        binding.routes(message) ==> message.metadata.contains_key("discord_guild_id"@)
            && (message.metadata["discord_guild_id"@] matches JsonView::Number(
            JsonNumberView::Unsigned(n),
        ) && text::decimal(n as nat) == guild),
        binding.workspace_id is None && binding.chat_id is None && binding.channel_ids.len() == 0
            && message.metadata.contains_key("discord_guild_id"@) && (
        message.metadata["discord_guild_id"@] matches JsonView::Number(JsonNumberView::Unsigned(n))
            && text::decimal(n as nat) == guild) ==> binding.routes(message),
{
}

/// A binding with a workspace routes no message but those whose metadata has that text
/// under `slack_workspace_id`, and with nothing else asked for it routes all of those. Web
/// chats that name their agent and direct messages on Discord are left out.
pub proof fn law_workspace_routes_by_its_id(
    binding: BindingView,
    message: InboundView,
    workspace: Seq<char>,
)
    requires
        binding.channel == message.source,
        binding.adapter == message.adapter,
        binding.workspace_id == Some(workspace),
        message.source == "webchat"@ ==> message.agent_id is None,
        message.source == "discord"@ ==> message.metadata.contains_key("discord_guild_id"@),
    ensures
        binding.routes(message) ==> message.metadata.contains_pair(
            "slack_workspace_id"@,
            JsonView::Str(workspace),
        ),
        binding.guild_id is None && binding.chat_id is None && binding.channel_ids.len() == 0
            && message.metadata.contains_pair("slack_workspace_id"@, JsonView::Str(workspace))
            ==> binding.routes(message),
{
}

/// A binding with a chat routes no message but those whose metadata has its id under
/// `telegram_chat_id`, as text or as a number in decimal digits, and with nothing else
/// asked for it routes all of those. Web chats that name their agent and direct messages
/// on Discord are left out.
pub proof fn law_chat_routes_by_its_id(
    binding: BindingView,
    message: InboundView,
    chat: Seq<char>,
)
    requires
        binding.channel == message.source,
        binding.adapter == message.adapter,
        binding.chat_id == Some(chat),
        message.source == "webchat"@ ==> message.agent_id is None,
        message.source == "discord"@ ==> message.metadata.contains_key("discord_guild_id"@),
    ensures
        binding.routes(message) ==> message.metadata.contains_key("telegram_chat_id"@) && (
        match message.metadata["telegram_chat_id"@] {
            JsonView::Str(t) => t == chat,
            JsonView::Number(JsonNumberView::Unsigned(n)) => n <= i64::MAX && chat
                == text::decimal(n as nat),
            JsonView::Number(JsonNumberView::Negative(n)) => chat == text::signed_decimal(n as int),
            _ => false,
        }),
        binding.guild_id is None && binding.workspace_id is None && binding.channel_ids.len() == 0
            && message.metadata.contains_key("telegram_chat_id"@) && (
        match message.metadata["telegram_chat_id"@] {
            JsonView::Str(t) => t == chat,
            JsonView::Number(JsonNumberView::Unsigned(n)) => n <= i64::MAX && chat
                == text::decimal(n as nat),
            JsonView::Number(JsonNumberView::Negative(n)) => chat == text::signed_decimal(n as int),
            _ => false,
        }) ==> binding.routes(message),
{
}

/// A web chat that names its agent is routed by the bindings of that agent and by no
/// others, whatever else they ask for.
pub proof fn law_web_chats_go_to_the_agent_they_name(
    binding: BindingView,
    message: InboundView,
    agent: Seq<char>,
)
    requires
        message.source == "webchat"@,
        message.agent_id == Some(agent),
        binding.channel == "webchat"@,
        binding.adapter == message.adapter,
    ensures
        binding.routes(message) <==> binding.agent_id == agent,
{
}

/// A Discord message without a guild is routed exactly where the binding allows its
/// sender to write directly, whatever else the binding asks for.
pub proof fn law_discord_direct_messages_go_by_the_sender(
    binding: BindingView,
    message: InboundView,
)
    requires
        message.source == "discord"@,
        binding.channel == "discord"@,
        binding.adapter == message.adapter,
        !message.metadata.contains_key("discord_guild_id"@),
    ensures
        binding.routes(message) <==> binding.dm_allowed_users.contains(message.sender_id),
{
    reveal_strlit("webchat");
    reveal_strlit("discord");
    assert("webchat"@[0] == 'w');
    assert("discord"@[0] == 'd');
}

/// A binding that asks for no mention passes every message. One that asks for it passes a
/// Discord message without a guild's number, a private Telegram chat, and a message that
/// its adapter says to mention the bot; it passes nothing else.
pub proof fn law_required_mention_is_asked_of_all_but_direct_messages(
    binding: BindingView,
    message: InboundView,
)
    ensures
        !binding.require_mention ==> binding.mention_passes(message),
        binding.require_mention ==> (binding.mention_passes(message) <==> {
            ||| message.source == "discord"@ && !(message.metadata.contains_key(
                "discord_guild_id"@,
            ) && message.metadata["discord_guild_id"@] matches JsonView::Number(
                JsonNumberView::Unsigned(_),
            ))
            ||| message.source == "telegram"@ && message.metadata.contains_pair(
                "telegram_chat_type"@,
                JsonView::Str("private"@),
            )
            ||| message.metadata.contains_pair(
                message.source + "_mentions_or_replies_to_bot"@,
                JsonView::Bool(true),
            )
        }),
{
    reveal_strlit("telegram");
    reveal_strlit("discord");
    assert("telegram"@.len() == 8);
    assert("discord"@.len() == 7);
}

/// The key under which an adapter runs is its platform, and behind a colon its name where
/// it has one.
pub proof fn law_adapter_keys_spell_platform_and_name(platform: Seq<char>, name: Seq<char>)
    ensures
        adapter_key(platform, None) == platform,
        name.len() > 0 ==> adapter_key(platform, Some(name)) == platform + seq![':'] + name,
{
    reveal_strlit(":");
    assert(":"@ =~= seq![':']);
}

} // verus!
