//! A client for the Model-Context-Protocol: discovering and invoking tools
//! that independent providers expose, over a subprocess pipe or over HTTP.
//!
//! The module decides; it performs no I/O. Requests come out of it as values
//! to put on the wire, and what came back goes in as values.

pub mod connection;
pub mod error;
pub mod loading;
pub mod manager;
pub mod protocol;
pub mod registry;
pub mod session;
pub mod types;

pub use error::McpError;
pub use manager::McpManager;
pub use types::{McpConfig, McpResource, McpServerConfig, McpServerInfo, McpTool};
