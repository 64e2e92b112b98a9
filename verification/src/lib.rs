//! A chat service in front of a language model gateway, whose agent can use
//! the tools of Model-Context-Protocol providers.
//!
//! The library decides and computes; it performs no input or output. What
//! goes on a wire comes out of it as a value, and what came back goes in as
//! a value. Its functions carry contracts that are proved of their bodies.
//! The few items whose contracts are taken on trust stand for functions of
//! `std`, `serde_json` and `regex`, and say so in their documentation.

pub mod agent;
pub mod config;
pub mod error;
pub mod handlers;
pub mod json;
pub mod mcp;
pub mod models;
pub mod number;
pub mod openrouter;
pub mod text;
pub mod tools;
