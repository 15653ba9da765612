//! Prompt types and their builders.

use vstd::prelude::*;

use crate::json::{with_field, JsonObject, JsonValue};

use super::content::Icon;
use super::jsonrpc::Cursor;
use crate::text::owned;

verus! {

/// The server's response to a prompts/list request from the client.
#[derive(Debug, Clone)]
pub struct ListPromptsResult {
    /// The list of prompts available on the server.
    pub prompts: Vec<Prompt>,
    /// Cursor for the next page of results.
    pub next_cursor: Option<Cursor>,
}

impl ListPromptsResult {
    /// Create a new empty result.
    pub fn new() -> (r: Self)
        ensures
            r.prompts@.len() == 0,
            r.next_cursor is None,
    {
        ListPromptsResult { prompts: Vec::new(), next_cursor: None }
    }

    /// Add a single prompt to the result.
    pub fn with_prompt(self, prompt: Prompt) -> (r: Self)
        ensures
            r.prompts@ == self.prompts@.push(prompt),
            r.next_cursor == self.next_cursor,
    {
        let mut s = self;
        s.prompts.push(prompt);
        s
    }

    /// Add multiple prompts to the result, after those already there.
    pub fn with_prompts(self, prompts: Vec<Prompt>) -> (r: Self)
        ensures
            r.prompts@ == self.prompts@ + prompts@,
            r.next_cursor == self.next_cursor,
    {
        let mut s = self;
        let mut more = prompts;
        s.prompts.append(&mut more);
        s
    }

    /// Set the cursor for the next page of results.
    pub fn with_cursor(self, cursor: &str) -> (r: Self)
        ensures
            r.prompts == self.prompts,
            r.next_cursor matches Some(c) && c@ == cursor@,
    {
        let mut s = self;
        s.next_cursor = Some(Cursor::new(cursor));
        s
    }
}

impl Default for ListPromptsResult {
    fn default() -> (r: Self)
        ensures
            r.prompts@.len() == 0,
            r.next_cursor is None,
    {
        ListPromptsResult::new()
    }
}

/// A prompt or prompt template that the server offers.
#[derive(Debug, Clone)]
pub struct Prompt {
    /// Programmatic name of the prompt.
    pub name: String,
    /// Human-readable title.
    pub title: Option<String>,
    /// A description of what the prompt does.
    pub description: Option<String>,
    /// A list of arguments that the prompt accepts.
    pub arguments: Option<Vec<PromptArgument>>,
    /// Optional icon metadata.
    pub icons: Option<Vec<Icon>>,
    /// Reserved metadata.
    pub _meta: Option<JsonObject>,
}

/// The values of an optional list, the empty sequence when absent.
pub open spec fn opt_seq<T>(v: Option<Vec<T>>) -> Seq<T> {
    match v {
        Some(xs) => xs@,
        None => Seq::empty(),
    }
}

impl Prompt {
    /// Create a new prompt with a name and nothing else.
    pub fn new(name: &str) -> (r: Self)
        ensures
            r.name@ == name@,
            r.title is None,
            r.description is None,
            r.arguments is None,
            r.icons is None,
            r._meta is None,
    {
        Prompt {
            name: owned(name),
            title: None,
            description: None,
            arguments: None,
            icons: None,
            _meta: None,
        }
    }

    /// Set the description of the prompt.
    pub fn with_description(self, description: &str) -> (r: Self)
        ensures
            r.description matches Some(d) && d@ == description@,
            r.name == self.name,
            r.title == self.title,
            r.arguments == self.arguments,
            r.icons == self.icons,
            r._meta == self._meta,
    {
        let mut s = self;
        s.description = Some(owned(description));
        s
    }

    /// Add an argument to the prompt, after any already there.
    pub fn with_argument(self, argument: PromptArgument) -> (r: Self)
        ensures
            r.arguments matches Some(a) && a@ == opt_seq(self.arguments).push(argument),
            r.name == self.name,
            r.title == self.title,
            r.description == self.description,
            r.icons == self.icons,
            r._meta == self._meta,
    {
        let mut s = self;
        let mut args = match s.arguments {
            Some(a) => a,
            None => Vec::new(),
        };
        args.push(argument);
        s.arguments = Some(args);
        s
    }

    /// Add several arguments to the prompt, in order, after any already
    /// there.
    pub fn with_arguments(self, arguments: Vec<PromptArgument>) -> (r: Self)
        ensures
            r.arguments matches Some(a) && a@ == opt_seq(self.arguments) + arguments@,
            r.name == self.name,
            r.title == self.title,
            r.description == self.description,
            r.icons == self.icons,
            r._meta == self._meta,
    {
        let mut s = self;
        let mut args = match s.arguments {
            Some(a) => a,
            None => Vec::new(),
        };
        let mut more = arguments;
        args.append(&mut more);
        s.arguments = Some(args);
        s
    }

    /// Set the name of the prompt.
    pub fn with_name(self, name: &str) -> (r: Self)
        ensures
            r.name@ == name@,
            r.title == self.title,
            r.description == self.description,
            r.arguments == self.arguments,
            r.icons == self.icons,
            r._meta == self._meta,
    {
        let mut s = self;
        s.name = owned(name);
        s
    }

    /// Set the display title of the prompt.
    pub fn with_title(self, title: &str) -> (r: Self)
        ensures
            r.title matches Some(t) && t@ == title@,
            r.name == self.name,
            r.description == self.description,
            r.arguments == self.arguments,
            r.icons == self.icons,
            r._meta == self._meta,
    {
        let mut s = self;
        s.title = Some(owned(title));
        s
    }

    /// Set the metadata map of the prompt.
    pub fn with_meta(self, meta: JsonObject) -> (r: Self)
        ensures
            r._meta == Some(meta),
            r.name == self.name,
            r.title == self.title,
            r.description == self.description,
            r.arguments == self.arguments,
            r.icons == self.icons,
    {
        let mut s = self;
        s._meta = Some(meta);
        s
    }

    /// Add one metadata entry, creating the metadata map when there is none:
    /// the entry replaces one under the same key, or comes after the others.
    pub fn with_meta_entry(self, key: &str, value: JsonValue) -> (r: Self)
        ensures
            r._meta matches Some(m) && m@ == with_field(
                match self._meta {
                    Some(old) => old@,
                    None => Seq::empty(),
                },
                key@,
                value,
            ),
            r.name == self.name,
            r.title == self.title,
            r.description == self.description,
            r.arguments == self.arguments,
            r.icons == self.icons,
    {
        let mut s = self;
        let mut meta = match s._meta {
            Some(m) => m,
            None => JsonObject::new(),
        };
        meta.insert(owned(key), value);
        s._meta = Some(meta);
        s
    }

    /// Set the icons for the prompt.
    pub fn with_icons(self, icons: Vec<Icon>) -> (r: Self)
        ensures
            r.icons == Some(icons),
            r.name == self.name,
            r.title == self.title,
            r.description == self.description,
            r.arguments == self.arguments,
            r._meta == self._meta,
    {
        let mut s = self;
        s.icons = Some(icons);
        s
    }
}

/// Describes an argument that a prompt can accept.
#[derive(Debug, Clone)]
pub struct PromptArgument {
    /// Programmatic name of the argument.
    pub name: String,
    /// Human-readable title.
    pub title: Option<String>,
    /// A description of the argument.
    pub description: Option<String>,
    /// Whether the argument is required.
    pub required: Option<bool>,
}

impl PromptArgument {
    /// Create a new prompt argument with a name and nothing else.
    pub fn new(name: &str) -> (r: Self)
        ensures
            r.name@ == name@,
            r.title is None,
            r.description is None,
            r.required is None,
    {
        PromptArgument { name: owned(name), title: None, description: None, required: None }
    }

    /// Set the description of the argument.
    pub fn with_description(self, description: &str) -> (r: Self)
        ensures
            r.description matches Some(d) && d@ == description@,
            r.name == self.name,
            r.title == self.title,
            r.required == self.required,
    {
        let mut s = self;
        s.description = Some(owned(description));
        s
    }

    /// Set the name of the argument.
    pub fn with_name(self, name: &str) -> (r: Self)
        ensures
            r.name@ == name@,
            r.title == self.title,
            r.description == self.description,
            r.required == self.required,
    {
        let mut s = self;
        s.name = owned(name);
        s
    }

    /// Set the display title of the argument.
    pub fn with_title(self, title: &str) -> (r: Self)
        ensures
            r.title matches Some(t) && t@ == title@,
            r.name == self.name,
            r.description == self.description,
            r.required == self.required,
    {
        let mut s = self;
        s.title = Some(owned(title));
        s
    }

    /// Set whether the argument is required.
    pub fn with_required(self, required: bool) -> (r: Self)
        ensures
            r.required == Some(required),
            r.name == self.name,
            r.title == self.title,
            r.description == self.description,
    {
        let mut s = self;
        s.required = Some(required);
        s
    }
}

} // verus!
