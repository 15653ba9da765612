//! Content blocks, roles and resource descriptions.

use vstd::prelude::*;

use crate::json::JsonObject;

verus! {

/// The sender or recipient of messages and data in a conversation.
#[derive(Debug, Clone, Copy, PartialEq, Eq)]
pub enum Role {
    /// The user side of the conversation.
    User,
    /// The model side of the conversation.
    Assistant,
}

/// Either a single value or a list of values.
#[derive(Debug, Clone)]
pub enum OneOrMany<T> {
    /// A single value.
    One(T),
    /// Several values.
    Many(Vec<T>),
}

/// The values held, in order.
pub open spec fn one_or_many_seq<T>(v: OneOrMany<T>) -> Seq<T> {
    match v {
        OneOrMany::One(x) => seq![x],
        OneOrMany::Many(xs) => xs@,
    }
}

impl<T> OneOrMany<T> {
    /// The held values as a list: a single value becomes a one-element list.
    pub fn into_vec(self) -> (r: Vec<T>)
        ensures
            r@ == one_or_many_seq(self),
    {
        match self {
            OneOrMany::One(value) => {
                let mut v = Vec::new();
                v.push(value);
                v
            },
            OneOrMany::Many(values) => values,
        }
    }
}

/// An icon a client may display for a prompt, tool or resource.
#[derive(Debug, Clone)]
pub struct Icon {
    /// URI of the icon image (an `https:` or `data:` URI).
    pub src: String,
    /// MIME type of the image, when the server states it.
    pub mime_type: Option<String>,
    /// Sizes the image is available in, such as `48x48`.
    pub sizes: Option<Vec<String>>,
}

/// A resource the server is able to read.
#[derive(Debug, Clone)]
pub struct Resource {
    /// The URI of the resource.
    pub uri: String,
    /// Programmatic name of the resource.
    pub name: String,
    /// Human-readable title.
    pub title: Option<String>,
    /// What the resource represents.
    pub description: Option<String>,
    /// MIME type of the resource, if known.
    pub mime_type: Option<String>,
    /// Size of the raw content in bytes, if known.
    pub size: Option<u64>,
    /// Icons for the resource.
    pub icons: Option<Vec<Icon>>,
    /// Reserved metadata.
    pub _meta: Option<JsonObject>,
}

/// A resource that the server is capable of reading, included in a prompt or
/// tool call result.
#[derive(Debug, Clone)]
pub struct ResourceLink {
    /// The linked resource.
    pub resource: Resource,
}

/// A request from the assistant to call a tool.
#[derive(Debug, Clone)]
pub struct ToolUseContent {
    /// A unique identifier for this tool use.
    pub id: String,
    /// The name of the tool to call.
    pub name: String,
    /// The arguments to pass to the tool.
    pub input: JsonObject,
    /// Reserved metadata.
    pub _meta: Option<JsonObject>,
}

} // verus!
