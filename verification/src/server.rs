//! The server's protocol decisions: which notifications its capabilities
//! let it send, how a request that cannot be parsed is refused, and how the
//! `initialize` request is answered.

use vstd::prelude::*;


use crate::error::{error_text, response_code, Error};
use crate::json::JsonValue;
use crate::jsonrpc::{result_fields, result_to_jsonrpc_response};
use crate::schema::jsonrpc::{
    is_error_response, ErrorObject, JSONRPCErrorResponse, JSONRPCMessage, JSONRPCResponse,
    RequestId, INTERNAL_ERROR, INVALID_PARAMS, JSONRPC_VERSION,
};
use crate::schema::methods::ServerNotificationKind;
use crate::text::{contains_text, owned, push_all, text_contains};

verus! {

/// Server support for sending log messages to the client.
#[derive(Debug, Clone, Copy, PartialEq, Eq, Default)]
pub struct LoggingCapability {}

/// Server support for prompts.
#[derive(Debug, Clone, Copy, PartialEq, Eq, Default)]
pub struct PromptsCapability {
    /// Whether the server notifies changes of the prompt list.
    pub list_changed: Option<bool>,
}

/// Server support for resources.
#[derive(Debug, Clone, Copy, PartialEq, Eq, Default)]
pub struct ResourcesCapability {
    /// Whether clients may subscribe to resource updates.
    pub subscribe: Option<bool>,
    /// Whether the server notifies changes of the resource list.
    pub list_changed: Option<bool>,
}

/// Server support for tools.
#[derive(Debug, Clone, Copy, PartialEq, Eq, Default)]
pub struct ToolsCapability {
    /// Whether the server notifies changes of the tool list.
    pub list_changed: Option<bool>,
}

/// Server support for tasks.
#[derive(Debug, Clone, Copy, PartialEq, Eq, Default)]
pub struct TasksCapability {
    /// Whether the server lists tasks.
    pub list: Option<bool>,
    /// Whether the server cancels tasks.
    pub cancel: Option<bool>,
}

/// The capabilities a server advertises in its `initialize` result, as far
/// as its notifications and an inspection of its surface depend on them.
#[derive(Debug, Clone, Copy, PartialEq, Eq, Default)]
pub struct ServerCapabilities {
    /// Log message support.
    pub logging: Option<LoggingCapability>,
    /// Prompt support.
    pub prompts: Option<PromptsCapability>,
    /// Resource support.
    pub resources: Option<ResourcesCapability>,
    /// Tool support.
    pub tools: Option<ToolsCapability>,
    /// Task support.
    pub tasks: Option<TasksCapability>,
}

/// A flag that is set only when present and true.
pub open spec fn flag(f: Option<bool>) -> bool {
    f == Some(true)
}

/// Whether the capabilities allow a notification of the given kind: log
/// messages need logging, resource updates need subscriptions, list changes
/// need the matching `list_changed` flag, task status needs tasks; progress,
/// cancellation and elicitation completion are always allowed.
pub open spec fn notification_allowed(caps: ServerCapabilities, kind: ServerNotificationKind) -> bool {
    match kind {
        ServerNotificationKind::LoggingMessage => caps.logging is Some,
        ServerNotificationKind::ResourceUpdated => caps.resources matches Some(r) && flag(
            r.subscribe,
        ),
        ServerNotificationKind::ResourceListChanged => caps.resources matches Some(r) && flag(
            r.list_changed,
        ),
        ServerNotificationKind::ToolListChanged => caps.tools matches Some(t) && flag(
            t.list_changed,
        ),
        ServerNotificationKind::PromptListChanged => caps.prompts matches Some(p) && flag(
            p.list_changed,
        ),
        ServerNotificationKind::ElicitationComplete => true,
        ServerNotificationKind::TaskStatus => caps.tasks is Some,
        ServerNotificationKind::Progress => true,
        ServerNotificationKind::Cancelled => true,
    }
}

fn is_set(f: Option<bool>) -> (r: bool)
    ensures
        r == flag(f),
{
    match f {
        Some(b) => b,
        None => false,
    }
}

/// Check whether a notification is supported by the configured
/// capabilities; one that is not is skipped rather than sent.
pub fn can_forward_notification(caps: &ServerCapabilities, kind: ServerNotificationKind) -> (r:
    bool)
    ensures
        r == notification_allowed(*caps, kind),
{
    match kind {
        ServerNotificationKind::LoggingMessage => caps.logging.is_some(),
        ServerNotificationKind::ResourceUpdated => match caps.resources {
            Some(r) => is_set(r.subscribe),
            None => false,
        },
        ServerNotificationKind::ResourceListChanged => match caps.resources {
            Some(r) => is_set(r.list_changed),
            None => false,
        },
        ServerNotificationKind::ToolListChanged => match caps.tools {
            Some(t) => is_set(t.list_changed),
            None => false,
        },
        ServerNotificationKind::PromptListChanged => match caps.prompts {
            Some(p) => is_set(p.list_changed),
            None => false,
        },
        ServerNotificationKind::ElicitationComplete => true,
        ServerNotificationKind::TaskStatus => caps.tasks.is_some(),
        ServerNotificationKind::Progress => true,
        ServerNotificationKind::Cancelled => true,
    }
}

/// Each notification is gated by its own capability, whatever the others
/// say: log messages need logging; resource updates need resource
/// subscriptions; list changes of resources, tools and prompts need the
/// `list_changed` flag of the resources, tools and prompts capability
/// respectively; task status needs the tasks capability; progress,
/// cancellation and elicitation completion need nothing.
pub proof fn lemma_notification_gate(caps: ServerCapabilities, kind: ServerNotificationKind)
    ensures
        kind == ServerNotificationKind::LoggingMessage ==> (notification_allowed(caps, kind)
            <==> caps.logging is Some),
        kind == ServerNotificationKind::ResourceUpdated ==> (notification_allowed(caps, kind)
            <==> (caps.resources is Some && caps.resources->0.subscribe == Some(true))),
        kind == ServerNotificationKind::ResourceListChanged ==> (notification_allowed(caps, kind)
            <==> (caps.resources is Some && caps.resources->0.list_changed == Some(true))),
        kind == ServerNotificationKind::ToolListChanged ==> (notification_allowed(caps, kind)
            <==> (caps.tools is Some && caps.tools->0.list_changed == Some(true))),
        kind == ServerNotificationKind::PromptListChanged ==> (notification_allowed(caps, kind)
            <==> (caps.prompts is Some && caps.prompts->0.list_changed == Some(true))),
        kind == ServerNotificationKind::TaskStatus ==> (notification_allowed(caps, kind)
            <==> caps.tasks is Some),
        kind == ServerNotificationKind::Progress || kind == ServerNotificationKind::Cancelled || kind
            == ServerNotificationKind::ElicitationComplete ==> notification_allowed(caps, kind),
{
}

/// Turning a capability on never stops a notification: adding the prompts
/// capability with its list-changed flag lets the prompt list-changed
/// notification through, and leaves every other decision as it was.
pub proof fn lemma_prompts_capability_only_adds(caps: ServerCapabilities, p: PromptsCapability, kind: ServerNotificationKind)
    requires
        p.list_changed == Some(true),
    ensures
        notification_allowed(ServerCapabilities { prompts: Some(p), ..caps }, ServerNotificationKind::PromptListChanged),
        kind != ServerNotificationKind::PromptListChanged ==> notification_allowed(
            ServerCapabilities { prompts: Some(p), ..caps },
            kind,
        ) == notification_allowed(caps, kind),
{
}

/// A server that advertises nothing sends only the notifications that need
/// no capability: progress, cancellation and elicitation completion.
pub proof fn lemma_no_capabilities_gate(kind: ServerNotificationKind)
    ensures
        notification_allowed(
            ServerCapabilities { logging: None, prompts: None, resources: None, tools: None, tasks: None },
            kind,
        ) <==> (kind == ServerNotificationKind::Progress || kind
            == ServerNotificationKind::Cancelled || kind
            == ServerNotificationKind::ElicitationComplete),
{
}

/// The error for a request whose params could not be parsed into the
/// request of its method: an unknown method (the parser reports an unknown
/// variant), or invalid params quoting the parser's message.
pub open spec fn is_parse_failure(e: Error, method: Seq<char>, parser_error: Seq<char>) -> bool {
    if contains_text(parser_error, "unknown variant"@) {
        e matches Error::MethodNotFound(m) && m@ == method
    } else {
        e matches Error::InvalidParams(m) && m@ == "Invalid parameters for "@ + method + ": "@
            + parser_error
    }
}

/// The error for a request of `method` whose parsing failed with the given
/// parser message.
pub fn parse_failure_error(method: String, parser_error: &str) -> (e: Error)
    ensures
        is_parse_failure(e, method@, parser_error@),
{
    if text_contains(parser_error, "unknown variant") {
        Error::MethodNotFound(method)
    } else {
        let mut m = owned("Invalid parameters for ");
        push_all(&mut m, method.as_str());
        push_all(&mut m, ": ");
        push_all(&mut m, parser_error);
        Error::InvalidParams(m)
    }
}

/// The answer to an `initialize` request that carries no params.
pub fn missing_initialize_params(id: RequestId) -> (r: JSONRPCMessage)
    ensures
        r matches JSONRPCMessage::Response(JSONRPCResponse::Error(resp)) && is_error_response(
            resp,
            Some(id@),
            INVALID_PARAMS,
            "Missing initialize parameters"@,
        ),
{
    JSONRPCMessage::Response(
        JSONRPCResponse::Error(
            JSONRPCErrorResponse {
                jsonrpc: owned(JSONRPC_VERSION),
                id: Some(id),
                error: ErrorObject {
                    code: INVALID_PARAMS,
                    message: owned("Missing initialize parameters"),
                    data: None,
                },
            },
        ),
    )
}

/// How the handler's `initialize` ended: its result serialized, its result
/// failing to serialize (with the serializer's message), or an error.
pub enum InitializeResultOutcome {
    /// The result, serialized.
    Serialized(JsonValue),
    /// The result could not be serialized.
    SerializeFailed(String),
    /// The handler failed.
    Failed(Error),
}

/// The answer to an `initialize` request and whether the server's
/// capabilities are now in force: only a result that was sent is.
pub fn initialize_reply(id: RequestId, outcome: InitializeResultOutcome) -> (r: (
    JSONRPCMessage,
    bool,
))
    ensures
        match outcome {
            InitializeResultOutcome::Serialized(v) => r.1 && (r.0 matches JSONRPCMessage::Response(
                JSONRPCResponse::Result(resp),
            ) && resp.id@ == id@ && resp.jsonrpc@ == JSONRPC_VERSION@ && resp.result.other@
                == result_fields(v)),
            InitializeResultOutcome::SerializeFailed(m) => !r.1 && (r.0 matches JSONRPCMessage::Response(
                JSONRPCResponse::Error(resp),
            ) && is_error_response(
                resp,
                Some(id@),
                INTERNAL_ERROR,
                "Failed to serialize initialize result: "@ + m@,
            )),
            InitializeResultOutcome::Failed(e) => !r.1 && (r.0 matches JSONRPCMessage::Response(
                JSONRPCResponse::Error(resp),
            ) && is_error_response(resp, Some(id@), response_code(e), error_text(e))),
        },
{
    match outcome {
        InitializeResultOutcome::Serialized(v) => (result_to_jsonrpc_response(id, Ok(v)), true),
        InitializeResultOutcome::SerializeFailed(m) => {
            let mut message = owned("Failed to serialize initialize result: ");
            push_all(&mut message, m.as_str());
            let resp = JSONRPCErrorResponse {
                jsonrpc: owned(JSONRPC_VERSION),
                id: Some(id),
                error: ErrorObject { code: INTERNAL_ERROR, message, data: None },
            };
            (JSONRPCMessage::Response(JSONRPCResponse::Error(resp)), false)
        },
        InitializeResultOutcome::Failed(e) => (result_to_jsonrpc_response(id, Err(e)), false),
    }
}

/// An MCP server: it makes one handler per connection with its factory.
pub struct Server<F> {
    /// Factory for creating per-connection handlers.
    connection_factory: F,
}

impl<F> Server<F> {
    /// Create a new server with a handler factory, called once for each
    /// incoming connection so that each connection has its own handler.
    pub fn new(factory: F) -> (r: Self)
        ensures
            r.factory() == factory,
    {
        Server { connection_factory: factory }
    }

    /// Create a server from a handler factory that already returns boxed
    /// handlers.
    pub fn from_factory(factory: F) -> (r: Self)
        ensures
            r.factory() == factory,
    {
        Server { connection_factory: factory }
    }

    /// The handler factory.
    pub closed spec fn factory(&self) -> F {
        self.connection_factory
    }

    /// The handler factory.
    pub fn connection_factory(&self) -> (r: &F)
        ensures
            *r == self.factory(),
    {
        &self.connection_factory
    }
}

} // verus!
