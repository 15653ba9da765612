//! Model Context Protocol core: the verified message, error, routing and
//! authorization logic of an MCP client and server.

pub mod callback_checks;
pub mod json;
pub mod macro_model;
pub mod mcp_api;
pub mod schema;
pub mod text;
pub mod tool_attrs;

pub mod context;
pub mod error;
pub mod jsonrpc;
pub mod request_handler;
pub mod script;
pub mod server;

pub mod auth;

pub mod streamable_http;
