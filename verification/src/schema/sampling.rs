//! Sampling request options.

use vstd::prelude::*;

verus! {

/// Which MCP servers' context a sampling request asks the client to include.
#[derive(Debug, Clone, Copy, PartialEq, Eq)]
pub enum IncludeContext {
    /// No server context (`none` on the wire).
    NoContext,
    /// Context from the requesting server.
    ThisServer,
    /// Context from every connected server.
    AllServers,
}

/// How the model may use the tools offered with a sampling request.
#[derive(Debug, Clone, Copy, PartialEq, Eq)]
pub struct ToolChoice {
    /// The tool use mode, when stated.
    pub mode: Option<ToolChoiceMode>,
}

/// Tool use modes of a sampling request.
#[derive(Debug, Clone, Copy, PartialEq, Eq)]
pub enum ToolChoiceMode {
    /// The model decides.
    Auto,
    /// The model must call a tool.
    Required,
    /// The model must not call tools (`none` on the wire).
    NoTools,
}

/// Why sampling stopped.
#[derive(Debug, Clone, PartialEq, Eq)]
pub enum StopReason {
    /// The model ended its turn.
    EndTurn,
    /// A stop sequence was produced.
    StopSequence,
    /// The token limit was reached.
    MaxTokens,
    /// The model asked to call a tool.
    ToolUse,
    /// Any other reason, as reported.
    Other(String),
}

/// Hint describing a preferred model by name.
#[derive(Debug, Clone, PartialEq, Eq)]
pub struct ModelHint {
    /// Optional model name hint.
    pub name: Option<String>,
}

} // verus!
