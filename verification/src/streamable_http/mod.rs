//! Streamable HTTP transport logic: request admission and routing on the
//! server, SSE event numbering, and response handling on the client.

pub mod client;
pub mod routing;
pub mod session;
pub mod validation;
