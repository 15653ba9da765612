//! Public schema types for MCP messages.

pub mod content;
pub mod jsonrpc;
pub mod methods;
pub mod prompts;
pub mod requests;
pub mod roots;
pub mod sampling;
pub mod tasks;
pub mod tools;
