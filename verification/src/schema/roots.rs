//! Filesystem roots a client exposes to servers.

use vstd::prelude::*;

use crate::json::JsonObject;

verus! {

/// The client's response to a roots/list request.
#[derive(Debug, Clone)]
pub struct ListRootsResult {
    /// The roots the client exposes.
    pub roots: Vec<Root>,
    /// Reserved metadata.
    pub _meta: Option<JsonObject>,
}

/// A root directory or file the server may operate on.
#[derive(Debug, Clone)]
pub struct Root {
    /// The URI of the root, a `file://` URI.
    pub uri: String,
    /// An optional display name.
    pub name: Option<String>,
    /// Reserved metadata.
    pub _meta: Option<JsonObject>,
}

} // verus!
