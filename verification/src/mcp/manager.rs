//! The registry of providers: what is configured, what is enabled, what is
//! connected, and the operations on them.

use crate::json;
use crate::json::{value_content, JsonValue};
use crate::mcp::connection::McpTransport;
use crate::mcp::error::McpError;
use crate::mcp::protocol::{JsonRpcRequest, JsonRpcResponse};
use crate::mcp::registry::{
    call_issued, extracted_text, full_name_server, full_name_tool, initially_enabled, item_texts,
    join_lines, planned, tool_names, tools_of, ManagerView,
};
use crate::mcp::session::{received, HandshakePhase, McpServerInstance, SessionView};
use crate::mcp::types::{McpConfig, McpServerConfig, McpServerInfo, McpTool};
use crate::text;
use serde_json::Value;
use vstd::prelude::*;
use vstd::string::StringExecFns;

verus! {

/// The registry of providers.
#[derive(Debug)]
pub struct McpManager {
    config: McpConfig,
    enabled_servers: Vec<String>,
    servers: Vec<McpServerInstance>,
}

impl DeepView for McpManager {
    type V = ManagerView;

    closed spec fn deep_view(&self) -> ManagerView {
        ManagerView {
            providers: self.config.mcp_servers.deep_view(),
            enabled: self.enabled_servers.deep_view().to_set(),
            sessions: self.servers.deep_view(),
        }
    }
}

/// The position of a name in a list of names, or `None`.
fn find_name(names: &Vec<String>, name: &str) -> (r: Option<usize>)
    ensures
        match r {
            Some(i) => i < names@.len() && names.deep_view()[i as int] == name@,
            None => !names.deep_view().contains(name@),
        },
{
    let mut i: usize = 0;
    while i < names.len()
        invariant
            i <= names@.len(),
            forall|k: int| 0 <= k < i ==> names.deep_view()[k] != name@,
        decreases names@.len() - i,
    {
        if *names[i].as_str() == *name {
            return Some(i);
        }
        i = i + 1;
    }
    None
}

impl McpManager {
    /// A registry for a configuration: the providers that are not marked as
    /// disabled are enabled, and none is connected.
    pub fn new(config: McpConfig) -> (m: Self)
        requires
            config.wf(),
        ensures
            m.deep_view().wf(),
            m.deep_view() == (ManagerView {
                providers: config.mcp_servers.deep_view(),
                enabled: initially_enabled(config.mcp_servers.deep_view()),
                sessions: Seq::empty(),
            }),
    {
        let mut enabled: Vec<String> = Vec::new();
        let mut i: usize = 0;
        let ghost providers = config.mcp_servers.deep_view();
        while i < config.mcp_servers.len()
            invariant
                i <= config.mcp_servers@.len(),
                providers == config.mcp_servers.deep_view(),
                forall|n: Seq<char>|
                    enabled.deep_view().contains(n) <==> exists|k: int|
                        0 <= k < i && (#[trigger] providers[k]).0 == n && !providers[k].1.disabled,
            decreases config.mcp_servers@.len() - i,
        {
            if !config.mcp_servers[i].1.disabled {
                let ghost before = enabled.deep_view();
                let name = config.mcp_servers[i].0.clone();
                enabled.push(name);
                assert(enabled.deep_view() =~= before.push(providers[i as int].0));
                assert forall|n: Seq<char>|
                    enabled.deep_view().contains(n) <==> exists|k: int|
                        0 <= k < i + 1 && (#[trigger] providers[k]).0 == n
                            && !providers[k].1.disabled by {
                    if enabled.deep_view().contains(n) {
                        let j = choose|j: int|
                            0 <= j < enabled.deep_view().len() && enabled.deep_view()[j] == n;
                        if j < before.len() {
                            assert(before[j] == n);
                            assert(before.contains(n));
                        } else {
                            assert(providers[i as int].0 == n);
                        }
                    }
                    if exists|k: int|
                        0 <= k < i + 1 && (#[trigger] providers[k]).0 == n
                            && !providers[k].1.disabled {
                        let k = choose|k: int|
                            0 <= k < i + 1 && (#[trigger] providers[k]).0 == n
                                && !providers[k].1.disabled;
                        if k < i {
                            assert(before.contains(n));
                            let j = choose|j: int| 0 <= j < before.len() && before[j] == n;
                            assert(enabled.deep_view()[j] == n);
                        } else {
                            assert(enabled.deep_view()[before.len() as int] == n);
                        }
                    }
                }
            }
            i = i + 1;
        }
        let m = McpManager { config, enabled_servers: enabled, servers: Vec::new() };
        proof {
            assert(m.servers.deep_view() =~= Seq::<SessionView>::empty());
            assert(m.enabled_servers.deep_view().to_set() =~= initially_enabled(providers));
            let v = m.deep_view();
            assert(v.names() =~= config.names());
            assert forall|n: Seq<char>| v.enabled.contains(n) implies v.has(n) by {
                let k = choose|k: int|
                    0 <= k < providers.len() && (#[trigger] providers[k]).0 == n
                        && !providers[k].1.disabled;
                assert(v.names()[k] == n);
            }
        }
        m
    }

    /// The position of the session of a provider, or `None`.
    fn find_session(&self, name: &str) -> (r: Option<usize>)
        ensures
            match r {
                Some(i) => i < self.deep_view().sessions.len()
                    && self.deep_view().live_names()[i as int] == name@
                    && self.deep_view().is_live(name@),
                None => !self.deep_view().is_live(name@),
            },
    {
        let mut i: usize = 0;
        while i < self.servers.len()
            invariant
                i <= self.servers@.len(),
                forall|k: int| 0 <= k < i ==> self.deep_view().live_names()[k] != name@,
            decreases self.servers@.len() - i,
        {
            assert(self.deep_view().live_names()[i as int]
                == self.servers@[i as int].deep_view().name);
            if *self.servers[i].name().as_str() == *name {
                assert(self.deep_view().live_names().contains(name@));
                return Some(i);
            }
            i = i + 1;
        }
        None
    }

    /// Whether a provider is enabled.
    pub fn is_enabled(&self, name: &str) -> (b: bool)
        ensures
            b == self.deep_view().enabled.contains(name@),
    {
        find_name(&self.enabled_servers, name).is_some()
    }

    /// Whether a provider is connected.
    pub fn is_connected(&self, name: &str) -> (b: bool)
        ensures
            b == self.deep_view().is_live(name@),
    {
        self.find_session(name).is_some()
    }

    /// The configuration that the registry was made for.
    pub fn config(&self) -> (c: &McpConfig)
        ensures
            c.mcp_servers.deep_view() == self.deep_view().providers,
    {
        &self.config
    }

    /// Plans the transport of a provider from its configuration. A missing
    /// field, and a command that names no program, are failures.
    pub fn connect_server(config: &McpServerConfig) -> (r: Result<McpTransport, McpError>)
        ensures
            planned(config.deep_view(), r),
    {
        let http = match &config.transport_type {
            Some(kind) => *kind.as_str() == *"streamable-http" || *kind.as_str() == *"http",
            None => {
                proof {
                    reveal_strlit("stdio");
                    reveal_strlit("streamable-http");
                    reveal_strlit("http");
                    assert("stdio"@.len() == 5 && "streamable-http"@.len() == 15 && "http"@.len()
                        == 4);
                }
                false
            },
        };
        if http {
            match &config.url {
                Some(url) => Ok(McpTransport::http(url.clone())),
                None => Err(McpError::Config { field: "url".to_owned() }),
            }
        } else {
            match &config.command {
                Some(command) => McpTransport::spawn_stdio(
                    command.as_str(),
                    &config.args,
                    &config.env,
                ),
                None => Err(McpError::Config { field: "command".to_owned() }),
            }
        }
    }

    /// Plans the connection of every configured provider that is enabled,
    /// in the order of the configuration. A provider whose transport cannot
    /// be planned stands in the list with the reason, and does not keep the
    /// others from being connected.
    pub fn connect_all(&self) -> (plans: Vec<(String, Result<McpTransport, McpError>)>)
        requires
            self.deep_view().wf(),
        ensures
            plans@.len() == self.deep_view().to_connect().len(),
            forall|k: int|
                0 <= k < plans@.len() ==> (#[trigger] plans@[k]).0@
                    == self.deep_view().to_connect()[k],
            forall|k: int|
                0 <= k < plans@.len() ==> self.deep_view().is_plan_of(
                    (#[trigger] plans@[k]).0@,
                    plans@[k].1,
                ),
    {
        let mut plans: Vec<(String, Result<McpTransport, McpError>)> = Vec::new();
        let ghost view = self.deep_view();
        let mut i: usize = 0;
        while i < self.config.mcp_servers.len()
            invariant
                i <= self.config.mcp_servers@.len(),
                view == self.deep_view(),
                view.wf(),
                view.providers.len() == self.config.mcp_servers@.len(),
                plans@.len() == view.enabled_upto(i as int).len(),
                forall|k: int|
                    0 <= k < plans@.len() ==> (#[trigger] plans@[k]).0@ == view.enabled_upto(
                        i as int,
                    )[k],
                forall|k: int|
                    0 <= k < plans@.len() ==> view.is_plan_of(
                        (#[trigger] plans@[k]).0@,
                        plans@[k].1,
                    ),
            decreases self.config.mcp_servers@.len() - i,
        {
            let entry = &self.config.mcp_servers[i];
            assert(view.providers[i as int].0 == entry.0@);
            assert(view.config_at(i as int) == entry.1.deep_view());
            if find_name(&self.enabled_servers, entry.0.as_str()).is_some() {
                let plan = McpManager::connect_server(&entry.1);
                let ghost before = plans@;
                proof {
                    assert(view.names()[i as int] == entry.0@);
                    assert(view.has(entry.0@));
                    assert(view.index_of(entry.0@) == i);
                }
                plans.push((entry.0.clone(), plan));
                assert forall|k: int| 0 <= k < plans@.len() implies view.is_plan_of(
                    (#[trigger] plans@[k]).0@,
                    plans@[k].1,
                ) by {
                    if k < before.len() {
                        assert(plans@[k] == before[k]);
                    }
                }
            }
            i = i + 1;
        }
        plans
    }

    /// Enables a provider. A name that is not configured is refused, and
    /// nothing changes. Otherwise the provider is enabled, and where it is
    /// not connected the transport to connect it with is planned: the caller
    /// opens it, runs the handshake and registers the session. Where no
    /// transport can be planned, that failure is returned; the provider
    /// stays enabled.
    pub fn enable_server(&mut self, name: &str) -> (r: Result<Option<McpTransport>, McpError>)
        requires
            old(self).deep_view().wf(),
        ensures
            final(self).deep_view().wf(),
            !old(self).deep_view().has(name@) ==> final(self).deep_view() == old(self).deep_view()
                && (r matches Err(McpError::ServerNotFound { server }) && server@ == name@),
            old(self).deep_view().has(name@) ==> final(self).deep_view() == old(
                self,
            ).deep_view().enable(name@),
            old(self).deep_view().has(name@) && old(self).deep_view().is_live(name@) ==> r == Ok::<
                Option<McpTransport>,
                McpError,
            >(None),
            old(self).deep_view().has(name@) && !old(self).deep_view().is_live(name@) ==> match r {
                Ok(Some(t)) => planned(
                    old(self).deep_view().config_at(old(self).deep_view().index_of(name@)),
                    Ok::<McpTransport, McpError>(t),
                ),
                Ok(None) => false,
                Err(e) => planned(
                    old(self).deep_view().config_at(old(self).deep_view().index_of(name@)),
                    Err::<McpTransport, McpError>(e),
                ),
            },
    {
        let ghost before = self.deep_view();
        let at = match self.config.position(name) {
            Some(at) => at,
            None => {
                assert(before.names() =~= self.config.names());
                return Err(McpError::ServerNotFound { server: name.to_owned() });
            },
        };
        proof {
            assert(before.names() =~= self.config.names());
            assert(before.names()[at as int] == name@);
            assert(before.has(name@));
            assert(before.index_of(name@) == at);
        }
        if find_name(&self.enabled_servers, name).is_none() {
            let ghost names = self.enabled_servers.deep_view();
            self.enabled_servers.push(name.to_owned());
            proof {
                let after = self.enabled_servers.deep_view();
                assert(after =~= names.push(name@));
                assert forall|n: Seq<char>| after.to_set().contains(n) <==> names.to_set().insert(
                    name@,
                ).contains(n) by {
                    if after.contains(n) {
                        let j = choose|j: int| 0 <= j < after.len() && after[j] == n;
                        if j < names.len() {
                            assert(names[j] == n);
                        }
                    }
                    if names.contains(n) {
                        let j = choose|j: int| 0 <= j < names.len() && names[j] == n;
                        assert(after[j] == n);
                    }
                    if n == name@ {
                        assert(after[names.len() as int] == n);
                    }
                }
                assert(after.to_set() =~= names.to_set().insert(name@));
            }
        } else {
            assert(before.enabled.insert(name@) =~= before.enabled);
        }
        assert(self.deep_view() == before.enable(name@));
        proof {
            let after = self.deep_view();
            assert(after.names() =~= before.names());
            assert forall|n: Seq<char>| #[trigger] after.enabled.contains(n) implies after.has(
                n,
            ) by {
                if n != name@ {
                    assert(before.enabled.contains(n));
                    assert(before.has(n));
                }
            }
        }
        if self.find_session(name).is_some() {
            Ok(None)
        } else {
            assert(before.config_at(at as int) == self.config.mcp_servers[at as int].1.deep_view());
            match McpManager::connect_server(&self.config.mcp_servers[at].1) {
                Ok(t) => Ok(Some(t)),
                Err(e) => Err(e),
            }
        }
    }

    /// Disables a provider and releases its session, if it has one. The
    /// result says whether there was a session: its transport is then to be
    /// closed. A name that is neither enabled nor connected changes nothing.
    pub fn disable_server(&mut self, name: &str) -> (released: bool)
        requires
            old(self).deep_view().wf(),
        ensures
            final(self).deep_view().wf(),
            final(self).deep_view() == old(self).deep_view().disable(name@),
            released == old(self).deep_view().is_live(name@),
    {
        let ghost before = self.deep_view();
        let ghost names = self.enabled_servers.deep_view();
        let mut kept: Vec<String> = Vec::new();
        let mut i: usize = 0;
        while i < self.enabled_servers.len()
            invariant
                i <= self.enabled_servers@.len(),
                names == self.enabled_servers.deep_view(),
                self.deep_view() == before,
                forall|n: Seq<char>|
                    kept.deep_view().contains(n) <==> (n != name@ && exists|k: int|
                        0 <= k < i && #[trigger] names[k] == n),
            decreases self.enabled_servers@.len() - i,
        {
            if !(*self.enabled_servers[i].as_str() == *name) {
                let ghost earlier = kept.deep_view();
                kept.push(self.enabled_servers[i].clone());
                proof {
                    let later = kept.deep_view();
                    assert(later =~= earlier.push(names[i as int]));
                    assert forall|n: Seq<char>|
                        later.contains(n) <==> (n != name@ && exists|k: int|
                            0 <= k < i + 1 && #[trigger] names[k] == n) by {
                        if later.contains(n) {
                            let j = choose|j: int| 0 <= j < later.len() && later[j] == n;
                            if j < earlier.len() {
                                assert(earlier[j] == n);
                                assert(earlier.contains(n));
                            } else {
                                assert(names[i as int] == n);
                            }
                        }
                        if n != name@ && exists|k: int| 0 <= k < i + 1 && #[trigger] names[k] == n {
                            let k = choose|k: int| 0 <= k < i + 1 && #[trigger] names[k] == n;
                            if k < i {
                                assert(earlier.contains(n));
                                let j = choose|j: int| 0 <= j < earlier.len() && earlier[j] == n;
                                assert(later[j] == n);
                            } else {
                                assert(later[earlier.len() as int] == n);
                            }
                        }
                    }
                }
            }
            i = i + 1;
        }
        proof {
            assert forall|n: Seq<char>| kept.deep_view().to_set().contains(n)
                <==> names.to_set().remove(name@).contains(n) by {
                if names.contains(n) {
                    let k = choose|k: int| 0 <= k < names.len() && names[k] == n;
                    assert(names[k] == n);
                }
            }
            assert(kept.deep_view().to_set() =~= names.to_set().remove(name@));
        }
        self.enabled_servers = kept;
        let released = match self.find_session(name) {
            Some(at) => {
                let ghost sessions = self.servers.deep_view();
                self.servers.remove(at);
                proof {
                    assert(self.servers.deep_view() =~= sessions.remove(at as int));
                    let j = before.live_index(name@);
                    assert(before.live_names()[j] == name@);
                    assert(before.live_names()[at as int] == name@);
                    assert(j == at);
                }
                true
            },
            None => false,
        };
        proof {
            let after = self.deep_view();
            assert(after == before.disable(name@));
            assert(after.names() =~= before.names());
            assert forall|n: Seq<char>| #[trigger] after.enabled.contains(n) implies after.has(
                n,
            ) by {
                assert(before.enabled.contains(n));
                assert(before.has(n));
            }
            if released {
                let at = before.live_index(name@);
                assert forall|i: int| 0 <= i < after.sessions.len() implies after.has(
                    #[trigger] after.sessions[i].name,
                ) && after.sessions[i].phase == HandshakePhase::Ready by {
                    if i < at {
                        assert(after.sessions[i] == before.sessions[i]);
                    } else {
                        assert(after.sessions[i] == before.sessions[i + 1]);
                    }
                }
                assert forall|a: int, b: int|
                    0 <= a < after.live_names().len() && 0 <= b < after.live_names().len() && a
                        != b implies after.live_names()[a] != after.live_names()[b] by {
                    let a0 = if a < at {
                        a
                    } else {
                        a + 1
                    };
                    let b0 = if b < at {
                        b
                    } else {
                        b + 1
                    };
                    assert(after.live_names()[a] == before.live_names()[a0]);
                    assert(after.live_names()[b] == before.live_names()[b0]);
                }
            }
        }
        released
    }

    /// Adds the session of a provider that has finished its handshake. It
    /// takes the place of an earlier session of the same provider; the
    /// result says whether there was one.
    pub fn register(&mut self, session: McpServerInstance) -> (replaced: bool)
        requires
            old(self).deep_view().wf(),
            old(self).deep_view().has(session.deep_view().name),
            session.deep_view().phase == HandshakePhase::Ready,
        ensures
            final(self).deep_view().wf(),
            final(self).deep_view() == old(self).deep_view().register(session.deep_view()),
            replaced == old(self).deep_view().is_live(session.deep_view().name),
    {
        let ghost before = self.deep_view();
        let ghost name = session.deep_view().name;
        let replaced = match self.find_session(session.name().as_str()) {
            Some(at) => {
                let ghost sessions = self.servers.deep_view();
                self.servers.remove(at);
                proof {
                    assert(self.servers.deep_view() =~= sessions.remove(at as int));
                    let j = before.live_index(name);
                    assert(before.live_names()[j] == name);
                    assert(before.live_names()[at as int] == name);
                    assert(j == at);
                }
                true
            },
            None => false,
        };
        let ghost middle = self.servers.deep_view();
        assert(middle == before.sessions_without(name));
        self.servers.push(session);
        proof {
            let after = self.deep_view();
            assert(self.servers.deep_view() =~= middle.push(session.deep_view()));
            assert(after == before.register(session.deep_view()));
            assert(after.names() =~= before.names());
            assert forall|n: Seq<char>| #[trigger] after.enabled.contains(n) implies after.has(
                n,
            ) by {
                assert(before.enabled.contains(n));
                assert(before.has(n));
            }
            let at = before.live_index(name);
            assert forall|i: int| 0 <= i < middle.len() implies #[trigger] middle[i].name != name
                && before.has(middle[i].name) && middle[i].phase == HandshakePhase::Ready
                && exists|i0: int|
                0 <= i0 < before.sessions.len() && before.sessions[i0] == middle[i] && (i0 == i
                    || i0 == i + 1) by {
                if replaced {
                    let i0 = if i < at {
                        i
                    } else {
                        i + 1
                    };
                    assert(middle[i] == before.sessions[i0]);
                    assert(before.live_names()[i0] == middle[i].name);
                    assert(before.live_names()[at] == name);
                } else {
                    assert(middle[i] == before.sessions[i]);
                    assert(before.live_names()[i] == middle[i].name);
                }
            }
            assert forall|i: int| 0 <= i < after.sessions.len() implies after.has(
                #[trigger] after.sessions[i].name,
            ) && after.sessions[i].phase == HandshakePhase::Ready by {
                if i < middle.len() {
                    assert(after.sessions[i] == middle[i]);
                }
            }
            assert forall|a: int, b: int|
                0 <= a < after.live_names().len() && 0 <= b < after.live_names().len() && a
                    != b implies after.live_names()[a] != after.live_names()[b] by {
                if a < middle.len() && b < middle.len() {
                    assert(after.sessions[a] == middle[a]);
                    assert(after.sessions[b] == middle[b]);
                    let a0 = choose|i0: int|
                        0 <= i0 < before.sessions.len() && before.sessions[i0] == middle[a] && (i0
                            == a || i0 == a + 1);
                    let b0 = choose|i0: int|
                        0 <= i0 < before.sessions.len() && before.sessions[i0] == middle[b] && (i0
                            == b || i0 == b + 1);
                    assert(before.live_names()[a0] == middle[a].name);
                    assert(before.live_names()[b0] == middle[b].name);
                    if replaced {
                        assert(a0 == (if a < at { a } else { a + 1 })) by {
                            assert(middle[a] == before.sessions[if a < at { a } else { a + 1 }]);
                            assert(before.live_names()[if a < at { a } else { a + 1 }]
                                == middle[a].name);
                        }
                        assert(b0 == (if b < at { b } else { b + 1 })) by {
                            assert(middle[b] == before.sessions[if b < at { b } else { b + 1 }]);
                            assert(before.live_names()[if b < at { b } else { b + 1 }]
                                == middle[b].name);
                        }
                    } else {
                        assert(before.live_names()[a] == middle[a].name);
                        assert(before.live_names()[b] == middle[b].name);
                        assert(a0 == a);
                        assert(b0 == b);
                    }
                } else if a < middle.len() {
                    assert(after.sessions[a] == middle[a]);
                } else if b < middle.len() {
                    assert(after.sessions[b] == middle[b]);
                }
            }
        }
        replaced
    }

    /// The names of the connected providers, in the order of their sessions.
    pub fn connected_servers(&self) -> (names: Vec<String>)
        ensures
            names.deep_view() == self.deep_view().live_names(),
    {
        let mut names: Vec<String> = Vec::new();
        let mut i: usize = 0;
        while i < self.servers.len()
            invariant
                i <= self.servers@.len(),
                names@.len() == i,
                forall|k: int| 0 <= k < i ==> names.deep_view()[k] == self.deep_view().live_names()[k],
            decreases self.servers@.len() - i,
        {
            let ghost before = names.deep_view();
            let name = self.servers[i].name().clone();
            names.push(name);
            assert(names.deep_view() =~= before.push(name@));
            i = i + 1;
        }
        assert(names.deep_view() =~= self.deep_view().live_names());
        names
    }

    /// The names of the tools of the session at a position.
    fn tool_names_at(&self, at: usize) -> (names: Vec<String>)
        requires
            at < self.deep_view().sessions.len(),
        ensures
            names.deep_view() == tool_names(self.deep_view().sessions[at as int]),
    {
        let tools = self.servers[at].tools();
        let ghost session = self.deep_view().sessions[at as int];
        let mut names: Vec<String> = Vec::new();
        let mut k: usize = 0;
        while k < tools.len()
            invariant
                k <= tools@.len(),
                tools.deep_view() == session.tools,
                names@.len() == k,
                forall|j: int| 0 <= j < k ==> names.deep_view()[j] == session.tools[j].name,
            decreases tools@.len() - k,
        {
            let ghost before = names.deep_view();
            let name = tools[k].name.clone();
            assert(name@ == tools.deep_view()[k as int].name);
            names.push(name);
            assert(names.deep_view() =~= before.push(name@));
            k = k + 1;
        }
        assert(names.deep_view() =~= tool_names(session));
        names
    }

    /// What is known of each configured provider, in the order of the
    /// configuration: whether it is enabled, whether it is connected, its
    /// transport kind, and the names of the tools it advertised.
    pub fn get_servers_status(&self) -> (infos: Vec<McpServerInfo>)
        requires
            self.deep_view().wf(),
        ensures
            infos.deep_view() == self.deep_view().statuses(),
    {
        let ghost view = self.deep_view();
        let mut infos: Vec<McpServerInfo> = Vec::new();
        let mut i: usize = 0;
        while i < self.config.mcp_servers.len()
            invariant
                i <= self.config.mcp_servers@.len(),
                view == self.deep_view(),
                view.wf(),
                view.providers.len() == self.config.mcp_servers@.len(),
                infos@.len() == i,
                forall|k: int| 0 <= k < i ==> infos.deep_view()[k] == view.status_at(k),
            decreases self.config.mcp_servers@.len() - i,
        {
            let entry = &self.config.mcp_servers[i];
            assert(view.providers[i as int] == entry.deep_view());
            let (connected, tools) = match self.find_session(entry.0.as_str()) {
                Some(at) => {
                    proof {
                        let j = view.live_index(entry.0@);
                        assert(view.live_names()[j] == entry.0@);
                        assert(j == at);
                    }
                    (true, self.tool_names_at(at))
                },
                None => {
                    let none: Vec<String> = Vec::new();
                    assert(none.deep_view() =~= Seq::<Seq<char>>::empty());
                    (false, none)
                },
            };
            let kind = match &entry.1.transport_type {
                Some(kind) => kind.clone(),
                None => "stdio".to_owned(),
            };
            let info = McpServerInfo {
                name: entry.0.clone(),
                enabled: find_name(&self.enabled_servers, entry.0.as_str()).is_some(),
                connected,
                transport_type: kind,
                tools_count: tools.len(),
                tools,
            };
            assert(info.deep_view() == view.status_at(i as int));
            let ghost before = infos.deep_view();
            infos.push(info);
            assert(infos.deep_view() =~= before.push(info.deep_view()));
            i = i + 1;
        }
        assert(infos.deep_view() =~= view.statuses());
        infos
    }

    /// The tools of the providers that are both connected and enabled, each
    /// with the name of its provider. A provider that is connected but not
    /// enabled contributes nothing.
    pub fn get_all_tools(&self) -> (tools: Vec<(String, McpTool)>)
        ensures
            tools.deep_view() == self.deep_view().all_tools(),
    {
        let ghost view = self.deep_view();
        let mut out: Vec<(String, McpTool)> = Vec::new();
        let mut n: usize = 0;
        assert(out.deep_view() =~= view.tools_upto(0));
        while n < self.servers.len()
            invariant
                n <= self.servers@.len(),
                view == self.deep_view(),
                out.deep_view() == view.tools_upto(n as int),
            decreases self.servers@.len() - n,
        {
            let session = &self.servers[n];
            let ghost s = view.sessions[n as int];
            assert(s == session.deep_view());
            if find_name(&self.enabled_servers, session.name().as_str()).is_some() {
                let cache = session.tools();
                let ghost base = out.deep_view();
                let mut k: usize = 0;
                assert(base + tools_of(s).take(0) =~= base);
                while k < cache.len()
                    invariant
                        k <= cache@.len(),
                        cache.deep_view() == s.tools,
                        session.deep_view() == s,
                        out.deep_view() == base + tools_of(s).take(k as int),
                    decreases cache@.len() - k,
                {
                    let ghost before = out.deep_view();
                    let entry = (session.name().clone(), cache[k].clone());
                    assert(entry.deep_view() == tools_of(s)[k as int]) by {
                        assert(cache.deep_view()[k as int] == cache@[k as int].deep_view());
                    }
                    out.push(entry);
                    assert(out.deep_view() =~= before.push(entry.deep_view()));
                    assert(out.deep_view() =~= base + tools_of(s).take(k + 1));
                    k = k + 1;
                }
                assert(tools_of(s).take(k as int) =~= tools_of(s));
            }
            n = n + 1;
        }
        out
    }

    /// Issues a tool call. A provider that is not enabled is refused as
    /// disabled and one that is not connected as not found. Otherwise the
    /// result is the `tools/call` request, numbered by the provider's
    /// session, to send over the provider's transport.
    pub fn call_tool(&mut self, server_name: &str, tool_name: &str, arguments: Value) -> (r: Result<
        JsonRpcRequest,
        McpError,
    >)
        requires
            old(self).deep_view().wf(),
            old(self).deep_view().can_issue(server_name@),
        ensures
            final(self).deep_view().wf(),
            call_issued(
                old(self).deep_view(),
                final(self).deep_view(),
                server_name@,
                tool_name@,
                value_content(arguments),
                r,
            ),
    {
        let ghost before = self.deep_view();
        if find_name(&self.enabled_servers, server_name).is_none() {
            return Err(McpError::ServerDisabled { server: server_name.to_owned() });
        }
        let at = match self.find_session(server_name) {
            Some(at) => at,
            None => {
                return Err(McpError::ServerNotFound { server: server_name.to_owned() });
            },
        };
        proof {
            let j = before.live_index(server_name@);
            assert(before.live_names()[j] == server_name@);
            assert(j == at);
            reveal_strlit("name");
            reveal_strlit("arguments");
            assert("name"@.len() == 4 && "arguments"@.len() == 9);
        }
        let params = json::object_of_two(
            "name",
            json::string(tool_name.to_owned()),
            "arguments",
            arguments,
        );
        let mut session = self.servers.remove(at);
        let request = session.send_request("tools/call", Some(params));
        self.servers.insert(at, session);
        proof {
            let after = self.deep_view();
            assert(after.sessions =~= before.sessions.update(
                at as int,
                before.sessions[at as int].issue(),
            ));
            assert(after == before.issue(server_name@));
            assert(after.names() =~= before.names());
            assert(after.live_names() =~= before.live_names());
            assert forall|n: Seq<char>| #[trigger] after.enabled.contains(n) implies after.has(
                n,
            ) by {
                assert(before.has(n));
            }
            assert forall|i: int| 0 <= i < after.sessions.len() implies after.has(
                #[trigger] after.sessions[i].name,
            ) && after.sessions[i].phase == HandshakePhase::Ready by {
                assert(before.has(before.sessions[i].name));
                assert(after.sessions[i].name == before.sessions[i].name);
                assert(after.sessions[i].phase == before.sessions[i].phase);
            }
        }
        Ok(request)
    }

    /// Issues a tool call under a composite name: the provider before the
    /// first underscore, the tool after it. A name without an underscore is
    /// refused. The result names the provider to send the request to.
    pub fn call_tool_by_full_name(&mut self, full_name: &str, arguments: Value) -> (r: Result<
        (String, JsonRpcRequest),
        McpError,
    >)
        requires
            old(self).deep_view().wf(),
            full_name@.contains('_') ==> old(self).deep_view().can_issue(
                full_name_server(full_name@),
            ),
        ensures
            final(self).deep_view().wf(),
            !full_name@.contains('_') ==> final(self).deep_view() == old(self).deep_view() && (
            r matches Err(McpError::InvalidName { name }) && name@ == full_name@),
            full_name@.contains('_') ==> match r {
                Ok((server, request)) => server@ == full_name_server(full_name@) && call_issued(
                    old(self).deep_view(),
                    final(self).deep_view(),
                    full_name_server(full_name@),
                    full_name_tool(full_name@),
                    value_content(arguments),
                    Ok::<JsonRpcRequest, McpError>(request),
                ),
                Err(e) => call_issued(
                    old(self).deep_view(),
                    final(self).deep_view(),
                    full_name_server(full_name@),
                    full_name_tool(full_name@),
                    value_content(arguments),
                    Err::<JsonRpcRequest, McpError>(e),
                ),
            },
    {
        let chars = text::to_chars(full_name);
        let at = text::find_char(&chars, 0, chars.len(), '_');
        proof {
            assert(chars@.subrange(0, chars@.len() as int) =~= chars@);
            text::lemma_index_of(chars@, '_');
        }
        if at >= chars.len() {
            return Err(McpError::InvalidName { name: full_name.to_owned() });
        }
        let server = text::substring(&chars, 0, at);
        let tool = text::substring(&chars, at + 1, chars.len());
        proof {
            assert(chars@.subrange(0, at as int) =~= full_name_server(full_name@));
            assert(chars@.subrange(at + 1, chars@.len() as int) =~= full_name_tool(full_name@));
        }
        match self.call_tool(server.as_str(), tool.as_str(), arguments) {
            Ok(request) => Ok((server, request)),
            Err(e) => Err(e),
        }
    }

    /// Issues a tool call whose result is wanted as text: the request is
    /// that of `call_tool`, and its answer goes to `complete_call_text`.
    pub fn call_tool_text(&mut self, server_name: &str, tool_name: &str, arguments: Value) -> (r:
        Result<JsonRpcRequest, McpError>)
        requires
            old(self).deep_view().wf(),
            old(self).deep_view().can_issue(server_name@),
        ensures
            final(self).deep_view().wf(),
            call_issued(
                old(self).deep_view(),
                final(self).deep_view(),
                server_name@,
                tool_name@,
                value_content(arguments),
                r,
            ),
    {
        self.call_tool(server_name, tool_name, arguments)
    }

    /// The outcome of a tool call, from what the provider's transport
    /// answered: the raw result, or the failure under the provider's name.
    /// A provider that is no longer connected is reported as not found.
    pub fn complete_call(&self, server_name: &str, reply: Result<JsonRpcResponse, McpError>) -> (r:
        Result<Value, McpError>)
        ensures
            self.deep_view().is_live(server_name@) ==> received(server_name@, reply, r),
            !self.deep_view().is_live(server_name@) ==> (r matches Err(
                McpError::ServerNotFound { server },
            ) && server@ == server_name@),
    {
        match self.find_session(server_name) {
            Some(at) => {
                assert(self.deep_view().live_names()[at as int]
                    == self.servers@[at as int].deep_view().name);
                self.servers[at].receive(reply)
            },
            None => Err(McpError::ServerNotFound { server: server_name.to_owned() }),
        }
    }

    /// The outcome of a tool call as text.
    pub fn complete_call_text(
        &self,
        server_name: &str,
        reply: Result<JsonRpcResponse, McpError>,
    ) -> (r: Result<String, McpError>)
        ensures
            self.deep_view().is_live(server_name@) ==> match r {
                Ok(text) => exists|v: Value| #[trigger]
                    received(server_name@, reply, Ok::<Value, McpError>(v)) && text@
                        == extracted_text(value_content(v)),
                Err(e) => received(server_name@, reply, Err::<Value, McpError>(e)),
            },
            !self.deep_view().is_live(server_name@) ==> (r matches Err(
                McpError::ServerNotFound { server },
            ) && server@ == server_name@),
    {
        match self.complete_call(server_name, reply) {
            Ok(v) => Ok(McpManager::extract_text(&v)),
            Err(e) => Err(e),
        }
    }

    /// Reduces the result of a tool call to text: the texts of the items of
    /// its `content` array, one per line, or the JSON of the whole result
    /// where it has no `content` that is an array.
    pub fn extract_text(result: &Value) -> (text: String)
        ensures
            text@ == extracted_text(value_content(*result)),
    {
        let content = match json::get(result, "content") {
            Some(content) => content,
            None => {
                return json::to_text(result);
            },
        };
        let items = match json::as_array(content) {
            Some(items) => items,
            None => {
                return json::to_text(result);
            },
        };
        let ghost c = json::contents(items@);
        let mut out = String::new();
        let mut found: bool = false;
        let mut i: usize = 0;
        assert(c.take(0) =~= Seq::<JsonValue>::empty());
        while i < items.len()
            invariant
                i <= items@.len(),
                c == json::contents(items@),
                found == (item_texts(c.take(i as int)).len() > 0),
                out@ == join_lines(item_texts(c.take(i as int))),
            decreases items@.len() - i,
        {
            let ghost upto = c.take(i + 1);
            let ghost earlier = item_texts(c.take(i as int));
            proof {
                assert(upto.drop_last() =~= c.take(i as int));
                assert(upto.last() == value_content(items@[i as int]));
            }
            match json::get_text(&items[i], "text") {
                Some(t) => {
                    proof {
                        assert(item_texts(upto) == earlier.push(t@));
                        assert(earlier.push(t@).drop_last() =~= earlier);
                    }
                    if found {
                        text::push_char(&mut out, '\n');
                        assert(join_lines(earlier).push('\n') =~= join_lines(earlier) + seq!['\n']);
                    } else {
                        assert(earlier =~= Seq::<Seq<char>>::empty());
                        assert(Seq::<char>::empty() + t@ =~= t@);
                    }
                    out.append(t.as_str());
                    found = true;
                },
                None => {},
            }
            i = i + 1;
        }
        assert(c.take(i as int) =~= c);
        out
    }

    /// Whether a tool call to a provider can be issued: see `can_issue` of
    /// the registry's content.
    pub fn can_issue(&self, server_name: &str) -> (b: bool)
        requires
            self.deep_view().wf(),
        ensures
            b == self.deep_view().can_issue(server_name@),
    {
        if find_name(&self.enabled_servers, server_name).is_none() {
            return true;
        }
        match self.find_session(server_name) {
            Some(at) => {
                proof {
                    let view = self.deep_view();
                    let j = view.live_index(server_name@);
                    assert(view.live_names()[j] == server_name@);
                    assert(j == at);
                    assert(view.sessions[at as int] == self.servers@[at as int].deep_view());
                }
                self.servers[at].request_id() < u64::MAX
            },
            None => true,
        }
    }

    /// Whether a tool call under a composite name can be issued.
    pub fn can_issue_by_full_name(&self, full_name: &str) -> (b: bool)
        requires
            self.deep_view().wf(),
        ensures
            b == (full_name@.contains('_') ==> self.deep_view().can_issue(
                full_name_server(full_name@),
            )),
    {
        let chars = text::to_chars(full_name);
        let at = text::find_char(&chars, 0, chars.len(), '_');
        proof {
            assert(chars@.subrange(0, chars@.len() as int) =~= chars@);
            text::lemma_index_of(chars@, '_');
        }
        if at >= chars.len() {
            return true;
        }
        let server = text::substring(&chars, 0, at);
        assert(chars@.subrange(0, at as int) =~= full_name_server(full_name@));
        self.can_issue(server.as_str())
    }
}

} // verus!
