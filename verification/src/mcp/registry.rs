//! The model of the registry: what it holds, and what each operation makes
//! of it.

use crate::json::{json_text, member, text_member, JsonValue};
use crate::mcp::connection::{
    forwarded_env, names_program, no_program_text, stdio_args, stdio_program, McpTransport,
};
use crate::mcp::error::McpError;
use crate::mcp::protocol::JsonRpcRequest;
use crate::mcp::session::{request_is, HandshakePhase, SessionView};
use crate::mcp::types::{McpServerConfigView, McpServerInfoView, McpToolView};
use crate::text::{index_of, lemma_index_of, lemma_index_of_is};
use vstd::prelude::*;

verus! {

/// The content of a registry: the configured providers in their order, the
/// set of enabled names, and the sessions of the connected providers in the
/// order in which they were connected.
pub struct ManagerView {
    pub providers: Seq<(Seq<char>, McpServerConfigView)>,
    pub enabled: Set<Seq<char>>,
    pub sessions: Seq<SessionView>,
}

impl ManagerView {
    /// The names of the configured providers, in their order.
    pub open spec fn names(self) -> Seq<Seq<char>> {
        Seq::new(self.providers.len(), |i: int| self.providers[i].0)
    }

    /// Whether a provider of this name is configured.
    pub open spec fn has(self, name: Seq<char>) -> bool {
        self.names().contains(name)
    }

    /// The position of a configured provider.
    pub open spec fn index_of(self, name: Seq<char>) -> int {
        self.names().index_of(name)
    }

    /// The names of the connected providers, in the order of their sessions.
    pub open spec fn live_names(self) -> Seq<Seq<char>> {
        Seq::new(self.sessions.len(), |i: int| self.sessions[i].name)
    }

    /// Whether a provider of this name is connected.
    pub open spec fn is_live(self, name: Seq<char>) -> bool {
        self.live_names().contains(name)
    }

    /// The position of the session of a connected provider.
    pub open spec fn live_index(self, name: Seq<char>) -> int {
        self.live_names().index_of(name)
    }

    /// What holds of every registry: no name is configured twice, only
    /// configured names are enabled, only configured names are connected,
    /// each at most once, and every session has finished its handshake.
    pub open spec fn wf(self) -> bool {
        &&& self.names().no_duplicates()
        &&& forall|n: Seq<char>| #[trigger] self.enabled.contains(n) ==> self.has(n)
        &&& self.live_names().no_duplicates()
        &&& forall|i: int|
            0 <= i < self.sessions.len() ==> self.has(#[trigger] self.sessions[i].name)
        &&& forall|i: int|
            0 <= i < self.sessions.len() ==> (#[trigger] self.sessions[i]).phase
                == HandshakePhase::Ready
    }

    /// The sessions without that of a name.
    pub open spec fn sessions_without(self, name: Seq<char>) -> Seq<SessionView> {
        if self.is_live(name) {
            self.sessions.remove(self.live_index(name))
        } else {
            self.sessions
        }
    }

    /// The registry with a provider enabled.
    pub open spec fn enable(self, name: Seq<char>) -> ManagerView {
        ManagerView { enabled: self.enabled.insert(name), ..self }
    }

    /// The registry with a provider disabled and disconnected.
    pub open spec fn disable(self, name: Seq<char>) -> ManagerView {
        ManagerView {
            enabled: self.enabled.remove(name),
            sessions: self.sessions_without(name),
            ..self
        }
    }

    /// The registry with a session added; it takes the place of an earlier
    /// session of the same provider.
    pub open spec fn register(self, session: SessionView) -> ManagerView {
        ManagerView { sessions: self.sessions_without(session.name).push(session), ..self }
    }

    /// The configuration of the provider at a position.
    pub open spec fn config_at(self, i: int) -> McpServerConfigView {
        self.providers[i].1
    }

    /// The names of the enabled providers among the first `n` configured
    /// ones, in their order.
    pub open spec fn enabled_upto(self, n: int) -> Seq<Seq<char>>
        decreases n,
    {
        if n <= 0 {
            Seq::empty()
        } else if self.enabled.contains(self.providers[n - 1].0) {
            self.enabled_upto(n - 1).push(self.providers[n - 1].0)
        } else {
            self.enabled_upto(n - 1)
        }
    }

    /// The names of the providers that `connect_all` connects: the
    /// configured ones that are enabled, in the order of the configuration.
    pub open spec fn to_connect(self) -> Seq<Seq<char>> {
        self.enabled_upto(self.providers.len() as int)
    }

    /// Whether `r` is the transport planned for the configured provider of a
    /// name, or the reason why there is none.
    pub open spec fn is_plan_of(self, name: Seq<char>, r: Result<McpTransport, McpError>) -> bool {
        self.has(name) && planned(self.config_at(self.index_of(name)), r)
    }

    /// The tools of the enabled providers among the first `n` sessions.
    pub open spec fn tools_upto(self, n: int) -> Seq<(Seq<char>, McpToolView)>
        decreases n,
    {
        if n <= 0 {
            Seq::empty()
        } else if self.enabled.contains(self.sessions[n - 1].name) {
            self.tools_upto(n - 1) + tools_of(self.sessions[n - 1])
        } else {
            self.tools_upto(n - 1)
        }
    }

    /// The tools of the providers that are both connected and enabled, each
    /// with its provider's name, in the order of the sessions.
    pub open spec fn all_tools(self) -> Seq<(Seq<char>, McpToolView)> {
        self.tools_upto(self.sessions.len() as int)
    }

    /// What is reported of the configured provider at a position.
    pub open spec fn status_at(self, i: int) -> McpServerInfoView {
        let name = self.providers[i].0;
        let tools = if self.is_live(name) {
            tool_names(self.sessions[self.live_index(name)])
        } else {
            Seq::empty()
        };
        McpServerInfoView {
            name,
            enabled: self.enabled.contains(name),
            connected: self.is_live(name),
            transport_type: transport_kind(self.providers[i].1),
            tools_count: tools.len() as usize,
            tools,
        }
    }

    /// What is reported of the configured providers, in their order.
    pub open spec fn statuses(self) -> Seq<McpServerInfoView> {
        Seq::new(self.providers.len(), |i: int| self.status_at(i))
    }

    /// The id of the last request of a connected provider.
    pub open spec fn last_id(self, server: Seq<char>) -> u64 {
        self.sessions[self.live_index(server)].request_id
    }

    /// The registry after the session of a connected provider has issued a
    /// request. No other session changes.
    pub open spec fn issue(self, server: Seq<char>) -> ManagerView {
        let i = self.live_index(server);
        ManagerView { sessions: self.sessions.update(i, self.sessions[i].issue()), ..self }
    }

    /// Whether nothing keeps a tool call to a provider from being issued:
    /// where the provider is enabled and connected, its ids are not used up.
    pub open spec fn can_issue(self, server: Seq<char>) -> bool {
        self.enabled.contains(server) && self.is_live(server) ==> self.last_id(server) < u64::MAX
    }
}

/// The transport kind of a provider: the configured one, `stdio` by default.
pub open spec fn transport_kind(config: McpServerConfigView) -> Seq<char> {
    match config.transport_type {
        Some(kind) => kind,
        None => "stdio"@,
    }
}

/// Whether a transport kind is one of the HTTP family.
pub open spec fn is_http_kind(kind: Seq<char>) -> bool {
    kind == "streamable-http"@ || kind == "http"@
}

/// Whether `r` is the transport planned for a provider, or the reason why
/// there is none. A provider of the HTTP family needs a `url`, any other a
/// `command`; the missing field is named. A command that names no program
/// cannot be started.
pub open spec fn planned(config: McpServerConfigView, r: Result<McpTransport, McpError>) -> bool {
    if is_http_kind(transport_kind(config)) {
        match config.url {
            Some(url) => (r matches Ok(McpTransport::Http { url: target }) && target@ == url),
            None => (r matches Err(McpError::Config { field }) && field@ == "url"@),
        }
    } else {
        match config.command {
            Some(command) => if names_program(command) {
                r matches Ok(McpTransport::Stdio { program, args, env }) && program@
                    == stdio_program(command) && args.deep_view() == stdio_args(
                    command,
                    config.args,
                ) && env.deep_view() == forwarded_env(config.env)
            } else {
                r matches Err(McpError::TransportSpawn { detail }) && detail@
                    == no_program_text()
            },
            None => (r matches Err(McpError::Config { field }) && field@ == "command"@),
        }
    }
}

/// The tools of a session, each with the provider's name.
pub open spec fn tools_of(s: SessionView) -> Seq<(Seq<char>, McpToolView)> {
    Seq::new(s.tools.len(), |k: int| (s.name, s.tools[k]))
}

/// The names of the tools of a session.
pub open spec fn tool_names(s: SessionView) -> Seq<Seq<char>> {
    Seq::new(s.tools.len(), |k: int| s.tools[k].name)
}

/// The parameters of a `tools/call` request.
pub open spec fn call_params(tool: Seq<char>, arguments: JsonValue) -> JsonValue {
    JsonValue::Object(map!["name"@ => JsonValue::Str(tool), "arguments"@ => arguments])
}

/// Whether `r` and `after` are what a tool call makes of the registry
/// `before`: a provider that is not enabled is refused as disabled, one that
/// is not connected as not found, and nothing changes; otherwise the
/// provider's session issues the `tools/call` request.
pub open spec fn call_issued(
    before: ManagerView,
    after: ManagerView,
    server: Seq<char>,
    tool: Seq<char>,
    arguments: JsonValue,
    r: Result<JsonRpcRequest, McpError>,
) -> bool {
    if !before.enabled.contains(server) {
        after == before && (r matches Err(McpError::ServerDisabled { server: s }) && s@ == server)
    } else if !before.is_live(server) {
        after == before && (r matches Err(McpError::ServerNotFound { server: s }) && s@ == server)
    } else {
        after == before.issue(server) && (r matches Ok(request) && request_is(
            request,
            before.last_id(server) + 1,
            "tools/call"@,
            Some(call_params(tool, arguments)),
        ))
    }
}

/// The texts of the items that have a string member `text`, in their order.
pub open spec fn item_texts(items: Seq<JsonValue>) -> Seq<Seq<char>>
    decreases items.len(),
{
    if items.len() == 0 {
        Seq::empty()
    } else {
        match text_member(items.last(), "text"@) {
            Some(t) => item_texts(items.drop_last()).push(t),
            None => item_texts(items.drop_last()),
        }
    }
}

/// The parts with a line feed between each two.
pub open spec fn join_lines(parts: Seq<Seq<char>>) -> Seq<char>
    decreases parts.len(),
{
    if parts.len() == 0 {
        Seq::empty()
    } else if parts.len() == 1 {
        parts[0]
    } else {
        join_lines(parts.drop_last()) + seq!['\n'] + parts.last()
    }
}

/// The text of a tool's result: the texts of the items of its `content`
/// array, one per line; the JSON of the whole result where it has no
/// `content` that is an array.
pub open spec fn extracted_text(result: JsonValue) -> Seq<char> {
    match member(result, "content"@) {
        Some(JsonValue::Array(items)) => join_lines(item_texts(items)),
        _ => json_text(result),
    }
}

/// The part of a composite tool name before its first underscore: the
/// provider.
pub open spec fn full_name_server(full_name: Seq<char>) -> Seq<char> {
    full_name.take(index_of(full_name, '_'))
}

/// The part of a composite tool name after its first underscore: the tool.
pub open spec fn full_name_tool(full_name: Seq<char>) -> Seq<char> {
    full_name.skip(index_of(full_name, '_') + 1)
}

/// The set of names of the providers that the configuration does not mark as
/// disabled.
pub open spec fn initially_enabled(providers: Seq<(Seq<char>, McpServerConfigView)>) -> Set<
    Seq<char>,
> {
    Set::new(
        |n: Seq<char>|
            exists|i: int|
                0 <= i < providers.len() && (#[trigger] providers[i]).0 == n
                    && !providers[i].1.disabled,
    )
}

/// After a provider was disabled, no listed tool names it, and the
/// configuration is as it was.
pub proof fn law_disabled_provider_lists_no_tools(m: ManagerView, name: Seq<char>)
    ensures
        m.disable(name).providers == m.providers,
        forall|k: int|
            0 <= k < m.disable(name).all_tools().len() ==> (#[trigger] m.disable(
                name,
            ).all_tools()[k]).0 != name,
{
    let d = m.disable(name);
    lemma_tools_come_from_enabled(d, d.sessions.len() as int);
}

/// Every tool listed among the first `n` sessions is of an enabled provider.
pub proof fn lemma_tools_come_from_enabled(m: ManagerView, n: int)
    requires
        n <= m.sessions.len(),
    ensures
        forall|k: int|
            0 <= k < m.tools_upto(n).len() ==> m.enabled.contains((#[trigger] m.tools_upto(n)[k]).0),
    decreases n,
{
    if n > 0 {
        lemma_tools_come_from_enabled(m, n - 1);
        let earlier = m.tools_upto(n - 1);
        assert forall|k: int| 0 <= k < m.tools_upto(n).len() implies m.enabled.contains(
            (#[trigger] m.tools_upto(n)[k]).0,
        ) by {
            if k < earlier.len() {
                assert(m.tools_upto(n)[k] == earlier[k]);
            } else {
                assert(m.tools_upto(n)[k] == tools_of(m.sessions[n - 1])[k - earlier.len()]);
            }
        }
    }
}

/// A tool call to one provider leaves the session of every other provider,
/// and so its id counter, as it was.
pub proof fn law_sessions_keep_their_own_ids(m: ManagerView, server: Seq<char>, j: int)
    requires
        m.is_live(server),
        0 <= j < m.sessions.len(),
        j != m.live_index(server),
    ensures
        m.issue(server).sessions[j] == m.sessions[j],
{
}

/// A composite tool name is split at its first underscore only: the provider
/// part holds no underscore, and provider, underscore and tool make up the
/// name again.
pub proof fn law_full_name_splits_at_first_underscore(full_name: Seq<char>)
    requires
        full_name.contains('_'),
    ensures
        !full_name_server(full_name).contains('_'),
        full_name_server(full_name) + seq!['_'] + full_name_tool(full_name) == full_name,
{
    lemma_index_of(full_name, '_');
    let at = index_of(full_name, '_');
    let i = choose|i: int| 0 <= i < full_name.len() && full_name[i] == '_';
    assert(at <= i);
    let server = full_name_server(full_name);
    assert forall|k: int| 0 <= k < server.len() implies server[k] != '_' by {
        assert(server[k] == full_name[k]);
    }
    assert(server + seq!['_'] + full_name_tool(full_name) =~= full_name);
}

/// The composite name of a tool of a provider whose name holds no
/// underscore resolves to that provider and that tool.
pub proof fn law_composite_name_resolves(server: Seq<char>, tool: Seq<char>)
    requires
        !server.contains('_'),
    ensures
        full_name_server(server + seq!['_'] + tool) == server,
        full_name_tool(server + seq!['_'] + tool) == tool,
{
    let full_name = server + seq!['_'] + tool;
    assert forall|k: int| 0 <= k < server.len() implies full_name[k] != '_' by {
        assert(full_name[k] == server[k]);
        assert(server.contains(server[k]));
    }
    assert(full_name[server.len() as int] == '_');
    lemma_index_of_is(full_name, '_', server.len() as int);
    assert(full_name.take(server.len() as int) =~= server);
    assert(full_name.skip(server.len() as int + 1) =~= tool);
}

/// Every name listed for connecting among the first `n` configured
/// providers is enabled and is one of their names.
pub proof fn lemma_listed_are_enabled(m: ManagerView, n: int)
    requires
        0 <= n <= m.providers.len(),
    ensures
        forall|k: int|
            0 <= k < m.enabled_upto(n).len() ==> m.enabled.contains(
                #[trigger] m.enabled_upto(n)[k],
            ) && m.has(m.enabled_upto(n)[k]),
    decreases n,
{
    if n > 0 {
        lemma_listed_are_enabled(m, n - 1);
        let earlier = m.enabled_upto(n - 1);
        let now = m.enabled_upto(n);
        assert(m.names()[n - 1] == m.providers[n - 1].0);
        assert forall|k: int| 0 <= k < now.len() implies m.enabled.contains(#[trigger] now[k])
            && m.has(now[k]) by {
            if k < earlier.len() {
                assert(now[k] == earlier[k]);
            } else {
                assert(now[k] == m.names()[n - 1]);
            }
        }
    }
}

/// Every enabled one of the first `n` configured providers is listed for
/// connecting.
pub proof fn lemma_enabled_are_listed(m: ManagerView, n: int, i: int)
    requires
        0 <= i < n <= m.providers.len(),
        m.enabled.contains(m.names()[i]),
    ensures
        m.enabled_upto(n).contains(m.names()[i]),
    decreases n,
{
    let now = m.enabled_upto(n);
    if i == n - 1 {
        assert(now[now.len() - 1] == m.names()[i]);
    } else {
        lemma_enabled_are_listed(m, n - 1, i);
        let earlier = m.enabled_upto(n - 1);
        let k = choose|k: int| 0 <= k < earlier.len() && earlier[k] == m.names()[i];
        assert(now[k] == m.names()[i]);
    }
}

/// `connect_all` plans a connection for every configured provider that is
/// enabled, and for no other name, whatever the other providers are.
pub proof fn law_connect_all_goes_by_the_enabled_set(m: ManagerView, name: Seq<char>)
    ensures
        m.to_connect().contains(name) <==> (m.has(name) && m.enabled.contains(name)),
{
    let n = m.providers.len() as int;
    let listed = m.to_connect();
    lemma_listed_are_enabled(m, n);
    if listed.contains(name) {
        let k = choose|k: int| 0 <= k < listed.len() && listed[k] == name;
        assert(m.enabled.contains(listed[k]) && m.has(listed[k]));
    }
    if m.has(name) && m.enabled.contains(name) {
        let i = choose|i: int| 0 <= i < m.names().len() && m.names()[i] == name;
        lemma_enabled_are_listed(m, n, i);
    }
}

} // verus!
