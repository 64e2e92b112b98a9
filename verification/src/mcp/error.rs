//! The failures of the MCP client.

use crate::number::{decimal, push_decimal, push_signed_decimal, signed_decimal};
use vstd::prelude::*;
use vstd::string::StringExecFns;

verus! {

/// A failure of the MCP client.
#[derive(Debug)]
pub enum McpError {
    /// A field that the transport kind requires is missing from the
    /// provider's configuration.
    Config { field: String },
    /// The provider's process could not be started.
    TransportSpawn { detail: String },
    /// The provider's output ended before a valid response came.
    TransportClosed,
    /// Writing to or reading from the provider failed.
    TransportIo { detail: String },
    /// The endpoint answered with a status outside 200..=299.
    Http { status: u16, body: String },
    /// A text is not valid JSON, or not a response envelope.
    Parse { preview: String },
    /// The provider reported a failure.
    Rpc { code: i64, message: String },
    /// A response envelope holds neither an error nor a result.
    MissingResult,
    /// A request to a provider failed: the failure, under the provider's
    /// name.
    Provider { server: String, cause: Box<McpError> },
    /// The text of the configuration file is not valid JSON, or not a
    /// configuration.
    InvalidConfig { detail: String },
    /// The provider is not configured, or not connected.
    ServerNotFound { server: String },
    /// The provider is not enabled.
    ServerDisabled { server: String },
    /// A composite tool name holds no underscore.
    InvalidName { name: String },
}

impl McpError {
    /// The text of the failure.
    pub open spec fn text(&self) -> Seq<char>
        decreases self,
    {
        match self {
            McpError::Config { field } => if field@ == "url"@ {
                "HTTP transport requires 'url' field"@
            } else {
                "Stdio transport requires '"@ + field@ + "' field"@
            },
            McpError::TransportSpawn { detail } => "Failed to spawn MCP server process: "@
                + detail@,
            McpError::TransportClosed => "Server closed stdout unexpectedly"@,
            McpError::TransportIo { detail } => "Transport failed: "@ + detail@,
            McpError::Http { status, body } => "HTTP error "@ + decimal(*status as nat) + ": "@
                + body@,
            McpError::Parse { preview } => "Failed to parse JSON-RPC response: "@ + preview@,
            McpError::InvalidConfig { detail } => "Invalid MCP configuration: "@ + detail@,
            McpError::Rpc { code, message } => "JSON-RPC error: "@ + message@ + " (code: "@
                + signed_decimal(*code as int) + ")"@,
            McpError::MissingResult => "No result in response"@,
            McpError::Provider { server, cause } => "MCP server '"@ + server@ + "': "@
                + cause.text(),
            McpError::ServerNotFound { server } => "Server "@ + server@ + " not found"@,
            McpError::ServerDisabled { server } => "Server "@ + server@ + " is disabled"@,
            McpError::InvalidName { name } => "Invalid tool name format: "@ + name@,
        }
    }

    /// The text of the failure.
    pub fn message(&self) -> (s: String)
        ensures
            s@ == self.text(),
        decreases self,
    {
        match self {
            McpError::Config { field } => {
                if *field.as_str() == *"url" {
                    "HTTP transport requires 'url' field".to_owned()
                } else {
                    let mut s = "Stdio transport requires '".to_owned();
                    s.append(field.as_str());
                    s.append("' field");
                    s
                }
            },
            McpError::TransportSpawn { detail } => "Failed to spawn MCP server process: ".to_owned().concat(
                detail.as_str(),
            ),
            McpError::TransportClosed => "Server closed stdout unexpectedly".to_owned(),
            McpError::TransportIo { detail } => "Transport failed: ".to_owned().concat(
                detail.as_str(),
            ),
            McpError::Http { status, body } => {
                let mut s = "HTTP error ".to_owned();
                push_decimal(&mut s, *status as u64);
                s.append(": ");
                s.append(body.as_str());
                s
            },
            McpError::Parse { preview } => "Failed to parse JSON-RPC response: ".to_owned().concat(
                preview.as_str(),
            ),
            McpError::InvalidConfig { detail } => "Invalid MCP configuration: ".to_owned().concat(
                detail.as_str(),
            ),
            McpError::Rpc { code, message } => {
                let mut s = "JSON-RPC error: ".to_owned();
                s.append(message.as_str());
                s.append(" (code: ");
                push_signed_decimal(&mut s, *code);
                s.append(")");
                s
            },
            McpError::MissingResult => "No result in response".to_owned(),
            McpError::Provider { server, cause } => {
                let mut s = "MCP server '".to_owned();
                s.append(server.as_str());
                s.append("': ");
                s.append(cause.message().as_str());
                s
            },
            McpError::ServerNotFound { server } => {
                let mut s = "Server ".to_owned();
                s.append(server.as_str());
                s.append(" not found");
                s
            },
            McpError::ServerDisabled { server } => {
                let mut s = "Server ".to_owned();
                s.append(server.as_str());
                s.append(" is disabled");
                s
            },
            McpError::InvalidName { name } => "Invalid tool name format: ".to_owned().concat(
                name.as_str(),
            ),
        }
    }
}

} // verus!
