//! The data of the MCP client: provider configuration and what a provider
//! advertises.

use crate::json;
use crate::json::{member, optional_text_member, text_member, value_content, JsonValue};
use serde_json::Value;
use vstd::prelude::*;

verus! {

/// How one provider is reached, as the configuration file gives it.
#[derive(Debug, Clone)]
pub struct McpServerConfig {
    pub command: Option<String>,
    pub args: Vec<String>,
    pub env: Vec<(String, String)>,
    pub disabled: bool,
    pub transport_type: Option<String>,
    pub url: Option<String>,
}

/// The content of a `McpServerConfig`.
pub struct McpServerConfigView {
    pub command: Option<Seq<char>>,
    pub args: Seq<Seq<char>>,
    pub env: Seq<(Seq<char>, Seq<char>)>,
    pub disabled: bool,
    pub transport_type: Option<Seq<char>>,
    pub url: Option<Seq<char>>,
}

impl DeepView for McpServerConfig {
    type V = McpServerConfigView;

    open spec fn deep_view(&self) -> McpServerConfigView {
        McpServerConfigView {
            command: self.command.deep_view(),
            args: self.args.deep_view(),
            env: self.env.deep_view(),
            disabled: self.disabled,
            transport_type: self.transport_type.deep_view(),
            url: self.url.deep_view(),
        }
    }
}

/// The configured providers, each under its name. No name occurs twice.
#[derive(Debug, Clone)]
pub struct McpConfig {
    pub mcp_servers: Vec<(String, McpServerConfig)>,
}

impl McpConfig {
    /// The names of the configured providers, in the order of the list.
    pub open spec fn names(&self) -> Seq<Seq<char>> {
        Seq::new(self.mcp_servers@.len(), |i: int| self.mcp_servers@[i].0@)
    }

    /// No provider name occurs twice.
    pub open spec fn wf(&self) -> bool {
        self.names().no_duplicates()
    }

    /// Whether a provider of this name is configured.
    pub open spec fn has(&self, name: Seq<char>) -> bool {
        self.names().contains(name)
    }

    /// The position of the provider of this name, or `None`.
    pub fn position(&self, name: &str) -> (r: Option<usize>)
        ensures
            match r {
                Some(i) => i < self.mcp_servers@.len() && self.names()[i as int] == name@,
                None => !self.has(name@),
            },
    {
        let mut i: usize = 0;
        while i < self.mcp_servers.len()
            invariant
                i <= self.mcp_servers@.len(),
                forall|k: int| 0 <= k < i ==> self.names()[k] != name@,
            decreases self.mcp_servers@.len() - i,
        {
            if *self.mcp_servers[i].0.as_str() == *name {
                return Some(i);
            }
            i = i + 1;
        }
        None
    }

    /// Whether no provider name occurs twice.
    pub fn is_well_formed(&self) -> (b: bool)
        ensures
            b == self.wf(),
    {
        let mut i: usize = 0;
        while i < self.mcp_servers.len()
            invariant
                i <= self.mcp_servers@.len(),
                forall|a: int, b: int| 0 <= a < b < i ==> self.names()[a] != self.names()[b],
            decreases self.mcp_servers@.len() - i,
        {
            let mut j: usize = 0;
            while j < i
                invariant
                    j <= i < self.mcp_servers@.len(),
                    forall|a: int| 0 <= a < j ==> self.names()[a] != self.names()[i as int],
                decreases i - j,
            {
                if *self.mcp_servers[j].0.as_str() == *self.mcp_servers[i].0.as_str() {
                    assert(self.names()[j as int] == self.names()[i as int]);
                    return false;
                }
                j = j + 1;
            }
            i = i + 1;
        }
        true
    }
}

/// A tool that a provider advertises.
#[derive(Debug)]
pub struct McpTool {
    pub name: String,
    pub description: Option<String>,
    pub input_schema: serde_json::Value,
}

/// The content of a `McpTool`.
pub struct McpToolView {
    pub name: Seq<char>,
    pub description: Option<Seq<char>>,
    pub input_schema: JsonValue,
}

impl DeepView for McpTool {
    type V = McpToolView;

    open spec fn deep_view(&self) -> McpToolView {
        McpToolView {
            name: self.name@,
            description: self.description.deep_view(),
            input_schema: value_content(self.input_schema),
        }
    }
}

impl Clone for McpTool {
    fn clone(&self) -> (r: Self)
        ensures
            r == *self,
    {
        McpTool {
            name: self.name.clone(),
            description: match &self.description {
                Some(d) => Some(d.clone()),
                None => None,
            },
            input_schema: self.input_schema.clone(),
        }
    }
}

/// A resource that a provider advertises.
#[derive(Debug)]
pub struct McpResource {
    pub uri: String,
    pub name: String,
    pub description: Option<String>,
    pub mime_type: Option<String>,
}

/// The content of a `McpResource`.
pub struct McpResourceView {
    pub uri: Seq<char>,
    pub name: Seq<char>,
    pub description: Option<Seq<char>>,
    pub mime_type: Option<Seq<char>>,
}

impl DeepView for McpResource {
    type V = McpResourceView;

    open spec fn deep_view(&self) -> McpResourceView {
        McpResourceView {
            uri: self.uri@,
            name: self.name@,
            description: self.description.deep_view(),
            mime_type: self.mime_type.deep_view(),
        }
    }
}

impl Clone for McpResource {
    fn clone(&self) -> (r: Self)
        ensures
            r == *self,
    {
        McpResource {
            uri: self.uri.clone(),
            name: self.name.clone(),
            description: match &self.description {
                Some(d) => Some(d.clone()),
                None => None,
            },
            mime_type: match &self.mime_type {
                Some(m) => Some(m.clone()),
                None => None,
            },
        }
    }
}

/// The state of one configured provider, as `get_servers_status` reports it.
#[derive(Debug, Clone)]
pub struct McpServerInfo {
    pub name: String,
    pub enabled: bool,
    pub connected: bool,
    pub transport_type: String,
    pub tools_count: usize,
    pub tools: Vec<String>,
}

/// The content of a `McpServerInfo`.
pub struct McpServerInfoView {
    pub name: Seq<char>,
    pub enabled: bool,
    pub connected: bool,
    pub transport_type: Seq<char>,
    pub tools_count: usize,
    pub tools: Seq<Seq<char>>,
}

impl DeepView for McpServerInfo {
    type V = McpServerInfoView;

    open spec fn deep_view(&self) -> McpServerInfoView {
        McpServerInfoView {
            name: self.name@,
            enabled: self.enabled,
            connected: self.connected,
            transport_type: self.transport_type@,
            tools_count: self.tools_count,
            tools: self.tools.deep_view(),
        }
    }
}

/// The tool that a JSON value stands for: an object with a string `name`,
/// an optional string `description` and an `inputSchema` of any kind.
pub open spec fn decode_tool(v: JsonValue) -> Option<McpToolView> {
    match (
        text_member(v, "name"@),
        optional_text_member(v, "description"@),
        member(v, "inputSchema"@),
    ) {
        (Some(name), Some(description), Some(input_schema)) => Some(
            McpToolView { name, description, input_schema },
        ),
        _ => None,
    }
}

/// The tools that a JSON value lists: those of an array whose every item is
/// a tool, and none for every other value.
pub open spec fn decode_tools(v: JsonValue) -> Seq<McpToolView> {
    match v {
        JsonValue::Array(items) => if forall|i: int|
            0 <= i < items.len() ==> (#[trigger] decode_tool(items[i])) is Some {
            Seq::new(items.len(), |i: int| decode_tool(items[i])->0)
        } else {
            Seq::empty()
        },
        _ => Seq::empty(),
    }
}

/// The resource that a JSON value stands for: an object with strings `uri`
/// and `name` and optional strings `description` and `mimeType`.
pub open spec fn decode_resource(v: JsonValue) -> Option<McpResourceView> {
    match (
        text_member(v, "uri"@),
        text_member(v, "name"@),
        optional_text_member(v, "description"@),
        optional_text_member(v, "mimeType"@),
    ) {
        (Some(uri), Some(name), Some(description), Some(mime_type)) => Some(
            McpResourceView { uri, name, description, mime_type },
        ),
        _ => None,
    }
}

/// The resources that a JSON value lists: those of an array whose every item
/// is a resource, and none for every other value.
pub open spec fn decode_resources(v: JsonValue) -> Seq<McpResourceView> {
    match v {
        JsonValue::Array(items) => if forall|i: int|
            0 <= i < items.len() ==> (#[trigger] decode_resource(items[i])) is Some {
            Seq::new(items.len(), |i: int| decode_resource(items[i])->0)
        } else {
            Seq::empty()
        },
        _ => Seq::empty(),
    }
}

impl McpTool {
    /// Reads a tool from a JSON value.
    pub fn from_value(v: &Value) -> (r: Option<Self>)
        ensures
            r.deep_view() == decode_tool(value_content(*v)),
    {
        match (
            json::get_text(v, "name"),
            json::get_optional_text(v, "description"),
            json::get(v, "inputSchema"),
        ) {
            (Some(name), Some(description), Some(schema)) => Some(
                McpTool { name, description, input_schema: schema.clone() },
            ),
            _ => None,
        }
    }

    /// Reads a list of tools from a JSON value. A value that is no list of
    /// tools gives the empty list.
    pub fn list_from_value(v: &Value) -> (r: Vec<Self>)
        ensures
            r.deep_view() == decode_tools(value_content(*v)),
    {
        let mut out: Vec<McpTool> = Vec::new();
        match json::as_array(v) {
            Some(items) => {
                let ghost c = json::contents(items@);
                let mut i: usize = 0;
                while i < items.len()
                    invariant
                        i <= items.len(),
                        c == json::contents(items@),
                        value_content(*v) == JsonValue::Array(c),
                        out@.len() == i,
                        forall|k: int|
                            0 <= k < i ==> (#[trigger] decode_tool(c[k])) == Some(
                                out@[k].deep_view(),
                            ),
                    decreases items.len() - i,
                {
                    match McpTool::from_value(&items[i]) {
                        Some(tool) => {
                            out.push(tool);
                        },
                        None => {
                            assert(decode_tool(c[i as int]) is None);
                            let none: Vec<McpTool> = Vec::new();
                            assert(none.deep_view() =~= Seq::<McpToolView>::empty());
                            return none;
                        },
                    }
                    i = i + 1;
                }
                assert(out.deep_view() =~= decode_tools(value_content(*v)));
                out
            },
            None => {
                assert(out.deep_view() =~= Seq::<McpToolView>::empty());
                out
            },
        }
    }
}

impl McpResource {
    /// Reads a resource from a JSON value.
    pub fn from_value(v: &Value) -> (r: Option<Self>)
        ensures
            r.deep_view() == decode_resource(value_content(*v)),
    {
        match (
            json::get_text(v, "uri"),
            json::get_text(v, "name"),
            json::get_optional_text(v, "description"),
            json::get_optional_text(v, "mimeType"),
        ) {
            (Some(uri), Some(name), Some(description), Some(mime_type)) => Some(
                McpResource { uri, name, description, mime_type },
            ),
            _ => None,
        }
    }

    /// Reads a list of resources from a JSON value. A value that is no list
    /// of resources gives the empty list.
    pub fn list_from_value(v: &Value) -> (r: Vec<Self>)
        ensures
            r.deep_view() == decode_resources(value_content(*v)),
    {
        let mut out: Vec<McpResource> = Vec::new();
        match json::as_array(v) {
            Some(items) => {
                let ghost c = json::contents(items@);
                let mut i: usize = 0;
                while i < items.len()
                    invariant
                        i <= items.len(),
                        c == json::contents(items@),
                        value_content(*v) == JsonValue::Array(c),
                        out@.len() == i,
                        forall|k: int|
                            0 <= k < i ==> (#[trigger] decode_resource(c[k])) == Some(
                                out@[k].deep_view(),
                            ),
                    decreases items.len() - i,
                {
                    match McpResource::from_value(&items[i]) {
                        Some(resource) => {
                            out.push(resource);
                        },
                        None => {
                            assert(decode_resource(c[i as int]) is None);
                            let none: Vec<McpResource> = Vec::new();
                            assert(none.deep_view() =~= Seq::<McpResourceView>::empty());
                            return none;
                        },
                    }
                    i = i + 1;
                }
                assert(out.deep_view() =~= decode_resources(value_content(*v)));
                out
            },
            None => {
                assert(out.deep_view() =~= Seq::<McpResourceView>::empty());
                out
            },
        }
    }
}

} // verus!
