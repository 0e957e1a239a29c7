//! MCP servers: how they are reached, and which an agent has.
use crate::config::error;
use crate::config::error::{ConfigError, ConfigErrorView};
use crate::config::toml_schema::TomlMcpServerConfig;
use crate::string_map;
use crate::string_map::StringMap;
use crate::text;
use crate::views;
use vstd::prelude::*;

verus! {

/// MCP server configuration.
#[derive(Debug, PartialEq, Eq)]
pub struct McpServerConfig {
    pub name: String,
    pub transport: McpTransport,
    pub enabled: bool,
}

/// MCP transport configuration.
#[derive(Debug, PartialEq, Eq)]
pub enum McpTransport {
    Stdio { command: String, args: Vec<String>, env: StringMap<String> },
    Http { url: String, headers: StringMap<String> },
}

/// The view of an [`McpTransport`].
#[verifier::ext_equal]
pub enum TransportView {
    Stdio { command: Seq<char>, args: Seq<Seq<char>>, env: Map<Seq<char>, Seq<char>> },
    Http { url: Seq<char>, headers: Map<Seq<char>, Seq<char>> },
}

/// The view of an [`McpServerConfig`].
#[verifier::ext_equal]
pub struct McpView {
    pub name: Seq<char>,
    pub transport: TransportView,
    pub enabled: bool,
}

impl View for McpTransport {
    type V = TransportView;

    open spec fn view(&self) -> TransportView {
        match self {
            McpTransport::Stdio { command, args, env } => TransportView::Stdio {
                command: command@,
                args: text::views(args@),
                env: views::entries(env@),
            },
            McpTransport::Http { url, headers } => TransportView::Http {
                url: url@,
                headers: views::entries(headers@),
            },
        }
    }
}

impl View for McpServerConfig {
    type V = McpView;

    open spec fn view(&self) -> McpView {
        McpView { name: self.name@, transport: self.transport@, enabled: self.enabled }
    }
}

impl McpTransport {
    /// The name of the kind of transport.
    pub fn kind(&self) -> (name: &'static str)
        ensures
            name@ == (match self@ {
                TransportView::Stdio { .. } => "stdio"@,
                TransportView::Http { .. } => "http"@,
            }),
    {
        match self {
            McpTransport::Stdio { .. } => "stdio",
            McpTransport::Http { .. } => "http",
        }
    }
}

impl McpServerConfig {
    /// The same server again.
    pub fn duplicate(&self) -> (copy: McpServerConfig)
        ensures
            copy@ == self@,
    {
        let transport = match &self.transport {
            McpTransport::Stdio { command, args, env } => McpTransport::Stdio {
                command: command.clone(),
                args: string_map::duplicate_texts(args),
                env: env.duplicate(),
            },
            McpTransport::Http { url, headers } => McpTransport::Http {
                url: url.clone(),
                headers: headers.duplicate(),
            },
        };
        McpServerConfig { name: self.name.clone(), transport, enabled: self.enabled }
    }
}

/// The view of a parsed server.
pub open spec fn mcp_result(result: Result<McpServerConfig, ConfigError>) -> Result<
    McpView,
    ConfigErrorView,
> {
    match result {
        Ok(server) => Ok(server@),
        Err(refusal) => Err(refusal@),
    }
}

/// The server that an entry of the file describes, or why it is refused.
pub open spec fn mcp_server(raw: TomlMcpServerConfig) -> Result<McpView, ConfigErrorView> {
    if text::is_blank(raw.name@) {
        Err(ConfigErrorView::Invalid("mcp server name cannot be empty"@))
    } else if raw.transport@ == "stdio"@ {
        match raw.command {
            Some(command) => Ok(
                McpView {
                    name: raw.name@,
                    transport: TransportView::Stdio {
                        command: command@,
                        args: text::views(raw.args@),
                        env: views::entries(raw.env@),
                    },
                    enabled: raw.enabled,
                },
            ),
            None => Err(
                ConfigErrorView::Invalid(
                    "mcp server '"@ + raw.name@
                        + "' with stdio transport requires 'command'"@,
                ),
            ),
        }
    } else if raw.transport@ == "http"@ {
        match raw.url {
            Some(url) => Ok(
                McpView {
                    name: raw.name@,
                    transport: TransportView::Http {
                        url: url@,
                        headers: views::entries(raw.headers@),
                    },
                    enabled: raw.enabled,
                },
            ),
            None => Err(
                ConfigErrorView::Invalid(
                    "mcp server '"@ + raw.name@ + "' with http transport requires 'url'"@,
                ),
            ),
        }
    } else {
        Err(
            ConfigErrorView::Invalid(
                "mcp server '"@ + raw.name@ + "' has invalid transport '"@ + raw.transport@
                    + "', expected 'stdio' or 'http'"@,
            ),
        )
    }
}

/// Reads one server entry of the file.
pub fn parse_mcp_server_config(raw: TomlMcpServerConfig) -> (result: Result<
    McpServerConfig,
    ConfigError,
>)
    ensures
        mcp_result(result) == mcp_server(raw),
{
    if text::is_blank_text(raw.name.as_str()) {
        return Err(ConfigError::Invalid("mcp server name cannot be empty".to_owned()));
    }
    let transport = if text::same(raw.transport.as_str(), "stdio") {
        match raw.command {
            Some(command) => McpTransport::Stdio { command, args: raw.args, env: raw.env },
            None => {
                return Err(
                    ConfigError::Invalid(
                        error::quoted(
                            "mcp server '",
                            raw.name.as_str(),
                            "' with stdio transport requires 'command'",
                        ),
                    ),
                );
            },
        }
    } else if text::same(raw.transport.as_str(), "http") {
        match raw.url {
            Some(url) => McpTransport::Http { url, headers: raw.headers },
            None => {
                return Err(
                    ConfigError::Invalid(
                        error::quoted(
                            "mcp server '",
                            raw.name.as_str(),
                            "' with http transport requires 'url'",
                        ),
                    ),
                );
            },
        }
    } else {
        let start = error::quoted(
            "mcp server '",
            raw.name.as_str(),
            "' has invalid transport '",
        );
        return Err(
            ConfigError::Invalid(
                error::quoted(
                    start.as_str(),
                    raw.transport.as_str(),
                    "', expected 'stdio' or 'http'",
                ),
            ),
        );
    };
    Ok(McpServerConfig { name: raw.name, transport, enabled: raw.enabled })
}

/// The servers that the entries of the file describe; the first refused entry
/// refuses them all.
pub open spec fn mcp_servers(raw: Seq<TomlMcpServerConfig>) -> Result<
    Seq<McpView>,
    ConfigErrorView,
>
    decreases raw.len(),
{
    if raw.len() == 0 {
        Ok(Seq::empty())
    } else {
        match mcp_servers(raw.drop_last()) {
            Err(refusal) => Err(refusal),
            Ok(servers) => match mcp_server(raw.last()) {
                Err(refusal) => Err(refusal),
                Ok(server) => Ok(servers.push(server)),
            },
        }
    }
}

/// A refused entry refuses every longer list.
proof fn lemma_mcp_refusal_stays(raw: Seq<TomlMcpServerConfig>, n: int)
    requires
        0 <= n <= raw.len(),
        mcp_servers(raw.subrange(0, n)) is Err,
    ensures
        mcp_servers(raw) == mcp_servers(raw.subrange(0, n)),
    decreases raw.len(),
{
    if n == raw.len() {
        assert(raw.subrange(0, n) =~= raw);
    } else {
        assert(raw.drop_last().subrange(0, n) =~= raw.subrange(0, n));
        lemma_mcp_refusal_stays(raw.drop_last(), n);
    }
}

/// The view of parsed servers.
pub open spec fn mcp_list_result(result: Result<Vec<McpServerConfig>, ConfigError>) -> Result<
    Seq<McpView>,
    ConfigErrorView,
> {
    match result {
        Ok(servers) => Ok(views::list(servers@)),
        Err(refusal) => Err(refusal@),
    }
}

/// Reads the server entries of the file.
pub fn parse_mcp_servers(raw: Vec<TomlMcpServerConfig>) -> (result: Result<
    Vec<McpServerConfig>,
    ConfigError,
>)
    ensures
        mcp_list_result(result) == mcp_servers(raw@),
{
    let ghost all = raw@;
    let mut servers: Vec<McpServerConfig> = Vec::new();
    proof {
        assert(all.subrange(0, 0) =~= Seq::empty());
        assert(views::list(servers@) =~= Seq::empty());
    }
    for entry in it: raw.into_iter()
        invariant
            it.seq() == all,
            mcp_servers(all.subrange(0, it.index() as int)) == Ok::<_, ConfigErrorView>(
                views::list(servers@),
            ),
    {
        let ghost i = it.index() as int;
        proof {
            let next = all.subrange(0, i + 1);
            assert(next.drop_last() =~= all.subrange(0, i));
            assert(next.last() == entry);
        }
        match parse_mcp_server_config(entry) {
            Ok(server) => {
                proof {
                    assert(views::list(servers@.push(server)) =~= views::list(servers@).push(
                        server@,
                    ));
                }
                servers.push(server);
            },
            Err(refusal) => {
                proof {
                    lemma_mcp_refusal_stays(all, i + 1);
                }
                return Err(refusal);
            },
        }
    }
    proof {
        assert(all.subrange(0, all.len() as int) =~= all);
    }
    Ok(servers)
}

// ---------------------------------------------------------------------------
// Merging
// ---------------------------------------------------------------------------

/// Where the first server of that name stands.
pub open spec fn server_position(servers: Seq<McpView>, name: Seq<char>) -> Option<int>
    decreases servers.len(),
{
    if servers.len() == 0 {
        None
    } else {
        match server_position(servers.drop_last(), name) {
            Some(i) => Some(i),
            None => if servers.last().name == name {
                Some(servers.len() - 1)
            } else {
                None
            },
        }
    }
}

/// The servers with one more: in the place of the first of its name, else at the end.
pub open spec fn with_server(servers: Seq<McpView>, server: McpView) -> Seq<McpView> {
    match server_position(servers, server.name) {
        Some(i) => servers.update(i, server),
        None => servers.push(server),
    }
}

/// The default servers, with each of the agent's own in turn.
pub open spec fn merged_servers(defaults: Seq<McpView>, own: Seq<McpView>) -> Seq<McpView>
    decreases own.len(),
{
    if own.len() == 0 {
        defaults
    } else {
        with_server(merged_servers(defaults, own.drop_last()), own.last())
    }
}

/// What a position means.
proof fn lemma_server_position(servers: Seq<McpView>, name: Seq<char>)
    ensures
        match server_position(servers, name) {
            Some(i) => {
                &&& 0 <= i < servers.len()
                &&& servers[i].name == name
                &&& forall|j: int| 0 <= j < i ==> (#[trigger] servers[j]).name != name
            },
            None => forall|j: int|
                0 <= j < servers.len() ==> (#[trigger] servers[j]).name != name,
        },
    decreases servers.len(),
{
    if servers.len() > 0 {
        let before = servers.drop_last();
        lemma_server_position(before, name);
        assert forall|j: int| 0 <= j < before.len() implies #[trigger] servers[j] == before[j] by {}
    }
}

/// A position that has the name, with none before it that has, is the first.
proof fn lemma_server_position_is(servers: Seq<McpView>, name: Seq<char>, i: int)
    requires
        0 <= i < servers.len(),
        servers[i].name == name,
        forall|j: int| 0 <= j < i ==> (#[trigger] servers[j]).name != name,
    ensures
        server_position(servers, name) == Some(i),
{
    lemma_server_position(servers, name);
}

/// Where the first server of that name stands.
fn find_server(servers: &Vec<McpServerConfig>, name: &str) -> (position: Option<usize>)
    ensures
        match position {
            Some(i) => server_position(views::list(servers@), name@) == Some(i as int) && i
                < servers@.len(),
            None => server_position(views::list(servers@), name@) is None,
        },
{
    let ghost list = views::list(servers@);
    let mut i: usize = 0;
    while i < servers.len()
        invariant
            i <= servers@.len(),
            list == views::list(servers@),
            forall|j: int| 0 <= j < i ==> (#[trigger] list[j]).name != name@,
        decreases servers@.len() - i,
    {
        assert(list[i as int] == servers@[i as int]@);
        if text::same(servers[i].name.as_str(), name) {
            proof {
                lemma_server_position_is(list, name@, i as int);
            }
            return Some(i);
        }
        i += 1;
    }
    proof {
        lemma_server_position(list, name@);
    }
    None
}

/// The servers an agent has: the defaults, and its own over them.
pub open spec fn resolved_servers(defaults: Seq<McpView>, own: Option<Seq<McpView>>) -> Seq<
    McpView,
> {
    match own {
        Some(servers) => merged_servers(defaults, servers),
        None => defaults,
    }
}

/// The same servers again.
pub fn duplicate_servers(servers: &Vec<McpServerConfig>) -> (copies: Vec<McpServerConfig>)
    ensures
        views::list(copies@) == views::list(servers@),
{
    let mut copies: Vec<McpServerConfig> = Vec::new();
    let mut i: usize = 0;
    while i < servers.len()
        invariant
            i <= servers@.len(),
            copies@.len() == i,
            forall|j: int| 0 <= j < i ==> (#[trigger] copies@[j])@ == servers@[j]@,
        decreases servers@.len() - i,
    {
        copies.push(servers[i].duplicate());
        i += 1;
    }
    proof {
        assert(views::list(copies@) =~= views::list(servers@));
    }
    copies
}

/// Merges the default servers and the agent's own.
pub fn resolve_mcp_configs(
    default_configs: &Vec<McpServerConfig>,
    agent_configs: &Option<Vec<McpServerConfig>>,
) -> (merged: Vec<McpServerConfig>)
    ensures
        views::list(merged@) == resolved_servers(
            views::list(default_configs@),
            views::optional_list(*agent_configs),
        ),
{
    let mut merged = duplicate_servers(default_configs);
    let own = match agent_configs {
        Some(own) => own,
        None => {
            return merged;
        },
    };
    let ghost defaults = views::list(default_configs@);
    let ghost all = views::list(own@);
    proof {
        assert(all.subrange(0, 0) =~= Seq::empty());
    }
    let mut i: usize = 0;
    while i < own.len()
        invariant
            i <= own@.len(),
            all == views::list(own@),
            views::list(merged@) == merged_servers(defaults, all.subrange(0, i as int)),
        decreases own@.len() - i,
    {
        let server = own[i].duplicate();
        let ghost before = merged@;
        proof {
            let next = all.subrange(0, i as int + 1);
            assert(next.drop_last() =~= all.subrange(0, i as int));
            assert(next.last() == server@);
        }
        match find_server(&merged, server.name.as_str()) {
            Some(at) => {
                merged.set(at, server);
                proof {
                    assert(views::list(merged@) =~= views::list(before).update(
                        at as int,
                        server@,
                    ));
                }
            },
            None => {
                merged.push(server);
                proof {
                    assert(views::list(merged@) =~= views::list(before).push(server@));
                }
            },
        }
        i += 1;
    }
    proof {
        assert(all.subrange(0, all.len() as int) =~= all);
    }
    merged
}

/// No two of the servers have the same name.
pub open spec fn names_are_distinct(servers: Seq<McpView>) -> bool {
    forall|i: int, j: int|
        0 <= i < j < servers.len() ==> (#[trigger] servers[i]).name != (
        #[trigger] servers[j]).name
}

/// Taking in one server keeps the names distinct, keeps each other server where it
/// is, and leaves the server in the list.
pub proof fn law_taking_in_a_server(servers: Seq<McpView>, server: McpView)
    requires
        names_are_distinct(servers),
    ensures
        names_are_distinct(with_server(servers, server)),
        with_server(servers, server).contains(server),
        forall|j: int|
            0 <= j < servers.len() && (#[trigger] servers[j]).name != server.name ==> with_server(
                servers,
                server,
            )[j] == servers[j],
{
    lemma_server_position(servers, server.name);
    let merged = with_server(servers, server);
    match server_position(servers, server.name) {
        Some(i) => {
            assert(merged[i] == server);
        },
        None => {
            assert(merged[servers.len() as int] == server);
        },
    }
}

/// Merging keeps the names distinct where the defaults' are, and an agent's last
/// server of a name is the one that it has under that name.
pub proof fn law_own_servers_win(defaults: Seq<McpView>, own: Seq<McpView>, k: int)
    requires
        names_are_distinct(defaults),
        0 <= k < own.len(),
        forall|j: int| k < j < own.len() ==> (#[trigger] own[j]).name != own[k].name,
    ensures
        names_are_distinct(merged_servers(defaults, own)),
        merged_servers(defaults, own).contains(own[k]),
    decreases own.len(),
{
    let before = own.drop_last();
    lemma_merging_keeps_distinct(defaults, before);
    let merged = merged_servers(defaults, before);
    law_taking_in_a_server(merged, own.last());
    if k < own.len() - 1 {
        assert forall|j: int| k < j < before.len() implies (#[trigger] before[j]).name
            != before[k].name by {
            assert(own[j].name != own[k].name);
        }
        law_own_servers_win(defaults, before, k);
        let at = choose|at: int| 0 <= at < merged.len() && merged[at] == own[k];
        assert(own[own.len() - 1].name != own[k].name);
        assert(merged_servers(defaults, own)[at] == own[k]);
        lemma_server_position(merged, own.last().name);
    }
}

/// Merging keeps the names distinct where the defaults' are.
proof fn lemma_merging_keeps_distinct(defaults: Seq<McpView>, own: Seq<McpView>)
    requires
        names_are_distinct(defaults),
    ensures
        names_are_distinct(merged_servers(defaults, own)),
    decreases own.len(),
{
    if own.len() > 0 {
        lemma_merging_keeps_distinct(defaults, own.drop_last());
        law_taking_in_a_server(merged_servers(defaults, own.drop_last()), own.last());
    }
}

} // verus!
