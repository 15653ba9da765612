//! The kinds of MCP requests and notifications and their JSON-RPC method
//! names, in both directions.

use vstd::prelude::*;

use crate::text::str_eq;

verus! {

/// The kinds of requests a client sends to a server.
#[derive(Debug, Clone, Copy, PartialEq, Eq)]
pub enum ClientRequestKind {
    /// A liveness check: `ping`.
    Ping,
    /// Session setup: `initialize`.
    Initialize,
    /// Argument completion: `completion/complete`.
    Complete,
    /// Set the logging level: `logging/setLevel`.
    SetLevel,
    /// Fetch a prompt: `prompts/get`.
    GetPrompt,
    /// List prompts: `prompts/list`.
    ListPrompts,
    /// List resources: `resources/list`.
    ListResources,
    /// List resource templates: `resources/templates/list`.
    ListResourceTemplates,
    /// Read a resource: `resources/read`.
    ReadResource,
    /// Subscribe to a resource: `resources/subscribe`.
    Subscribe,
    /// Unsubscribe from a resource: `resources/unsubscribe`.
    Unsubscribe,
    /// Call a tool: `tools/call`.
    CallTool,
    /// List tools: `tools/list`.
    ListTools,
    /// Query a task: `tasks/get`.
    GetTask,
    /// Fetch a task result: `tasks/result`.
    GetTaskPayload,
    /// List tasks: `tasks/list`.
    ListTasks,
    /// Cancel a task: `tasks/cancel`.
    CancelTask,
}

/// The JSON-RPC method name of a kind of request.
pub open spec fn client_request_kind_method(k: ClientRequestKind) -> Seq<char> {
    match k {
        ClientRequestKind::Ping => "ping"@,
        ClientRequestKind::Initialize => "initialize"@,
        ClientRequestKind::Complete => "completion/complete"@,
        ClientRequestKind::SetLevel => "logging/setLevel"@,
        ClientRequestKind::GetPrompt => "prompts/get"@,
        ClientRequestKind::ListPrompts => "prompts/list"@,
        ClientRequestKind::ListResources => "resources/list"@,
        ClientRequestKind::ListResourceTemplates => "resources/templates/list"@,
        ClientRequestKind::ReadResource => "resources/read"@,
        ClientRequestKind::Subscribe => "resources/subscribe"@,
        ClientRequestKind::Unsubscribe => "resources/unsubscribe"@,
        ClientRequestKind::CallTool => "tools/call"@,
        ClientRequestKind::ListTools => "tools/list"@,
        ClientRequestKind::GetTask => "tasks/get"@,
        ClientRequestKind::GetTaskPayload => "tasks/result"@,
        ClientRequestKind::ListTasks => "tasks/list"@,
        ClientRequestKind::CancelTask => "tasks/cancel"@,
    }
}

/// The kind with the given JSON-RPC method name, if any.
pub open spec fn client_request_kind_of(method: Seq<char>) -> Option<ClientRequestKind> {
    if method == "ping"@ {
        Some(ClientRequestKind::Ping)
    } else if method == "initialize"@ {
        Some(ClientRequestKind::Initialize)
    } else if method == "completion/complete"@ {
        Some(ClientRequestKind::Complete)
    } else if method == "logging/setLevel"@ {
        Some(ClientRequestKind::SetLevel)
    } else if method == "prompts/get"@ {
        Some(ClientRequestKind::GetPrompt)
    } else if method == "prompts/list"@ {
        Some(ClientRequestKind::ListPrompts)
    } else if method == "resources/list"@ {
        Some(ClientRequestKind::ListResources)
    } else if method == "resources/templates/list"@ {
        Some(ClientRequestKind::ListResourceTemplates)
    } else if method == "resources/read"@ {
        Some(ClientRequestKind::ReadResource)
    } else if method == "resources/subscribe"@ {
        Some(ClientRequestKind::Subscribe)
    } else if method == "resources/unsubscribe"@ {
        Some(ClientRequestKind::Unsubscribe)
    } else if method == "tools/call"@ {
        Some(ClientRequestKind::CallTool)
    } else if method == "tools/list"@ {
        Some(ClientRequestKind::ListTools)
    } else if method == "tasks/get"@ {
        Some(ClientRequestKind::GetTask)
    } else if method == "tasks/result"@ {
        Some(ClientRequestKind::GetTaskPayload)
    } else if method == "tasks/list"@ {
        Some(ClientRequestKind::ListTasks)
    } else if method == "tasks/cancel"@ {
        Some(ClientRequestKind::CancelTask)
    } else {
        None
    }
}

impl ClientRequestKind {
    /// The JSON-RPC method name of this kind.
    pub fn method(&self) -> (r: &'static str)
        ensures
            r@ == client_request_kind_method(*self),
    {
        match self {
            ClientRequestKind::Ping => "ping",
            ClientRequestKind::Initialize => "initialize",
            ClientRequestKind::Complete => "completion/complete",
            ClientRequestKind::SetLevel => "logging/setLevel",
            ClientRequestKind::GetPrompt => "prompts/get",
            ClientRequestKind::ListPrompts => "prompts/list",
            ClientRequestKind::ListResources => "resources/list",
            ClientRequestKind::ListResourceTemplates => "resources/templates/list",
            ClientRequestKind::ReadResource => "resources/read",
            ClientRequestKind::Subscribe => "resources/subscribe",
            ClientRequestKind::Unsubscribe => "resources/unsubscribe",
            ClientRequestKind::CallTool => "tools/call",
            ClientRequestKind::ListTools => "tools/list",
            ClientRequestKind::GetTask => "tasks/get",
            ClientRequestKind::GetTaskPayload => "tasks/result",
            ClientRequestKind::ListTasks => "tasks/list",
            ClientRequestKind::CancelTask => "tasks/cancel",
        }
    }

    /// The kind with the given JSON-RPC method name, if any.
    pub fn from_method(method: &str) -> (r: Option<ClientRequestKind>)
        ensures
            r == client_request_kind_of(method@),
    {
        if str_eq(method, "ping") {
            Some(ClientRequestKind::Ping)
        } else if str_eq(method, "initialize") {
            Some(ClientRequestKind::Initialize)
        } else if str_eq(method, "completion/complete") {
            Some(ClientRequestKind::Complete)
        } else if str_eq(method, "logging/setLevel") {
            Some(ClientRequestKind::SetLevel)
        } else if str_eq(method, "prompts/get") {
            Some(ClientRequestKind::GetPrompt)
        } else if str_eq(method, "prompts/list") {
            Some(ClientRequestKind::ListPrompts)
        } else if str_eq(method, "resources/list") {
            Some(ClientRequestKind::ListResources)
        } else if str_eq(method, "resources/templates/list") {
            Some(ClientRequestKind::ListResourceTemplates)
        } else if str_eq(method, "resources/read") {
            Some(ClientRequestKind::ReadResource)
        } else if str_eq(method, "resources/subscribe") {
            Some(ClientRequestKind::Subscribe)
        } else if str_eq(method, "resources/unsubscribe") {
            Some(ClientRequestKind::Unsubscribe)
        } else if str_eq(method, "tools/call") {
            Some(ClientRequestKind::CallTool)
        } else if str_eq(method, "tools/list") {
            Some(ClientRequestKind::ListTools)
        } else if str_eq(method, "tasks/get") {
            Some(ClientRequestKind::GetTask)
        } else if str_eq(method, "tasks/result") {
            Some(ClientRequestKind::GetTaskPayload)
        } else if str_eq(method, "tasks/list") {
            Some(ClientRequestKind::ListTasks)
        } else if str_eq(method, "tasks/cancel") {
            Some(ClientRequestKind::CancelTask)
        } else {
            None
        }
    }
}

/// Method names and requests kinds correspond one to one: the method
/// name of a kind reads back as that kind.
pub proof fn lemma_client_request_kind_round_trip(k: ClientRequestKind)
    ensures
        client_request_kind_of(client_request_kind_method(k)) == Some(k),
{
    match k {
        ClientRequestKind::Ping => {
            reveal_strlit("ping");
        },
        ClientRequestKind::Initialize => {
            reveal_strlit("initialize");
            reveal_strlit("ping");
            assert("initialize"@.len() != "ping"@.len());
        },
        ClientRequestKind::Complete => {
            reveal_strlit("completion/complete");
            reveal_strlit("ping");
            assert("completion/complete"@.len() != "ping"@.len());
            reveal_strlit("initialize");
            assert("completion/complete"@.len() != "initialize"@.len());
        },
        ClientRequestKind::SetLevel => {
            reveal_strlit("logging/setLevel");
            reveal_strlit("ping");
            assert("logging/setLevel"@.len() != "ping"@.len());
            reveal_strlit("initialize");
            assert("logging/setLevel"@.len() != "initialize"@.len());
            reveal_strlit("completion/complete");
            assert("logging/setLevel"@.len() != "completion/complete"@.len());
        },
        ClientRequestKind::GetPrompt => {
            reveal_strlit("prompts/get");
            reveal_strlit("ping");
            assert("prompts/get"@.len() != "ping"@.len());
            reveal_strlit("initialize");
            assert("prompts/get"@.len() != "initialize"@.len());
            reveal_strlit("completion/complete");
            assert("prompts/get"@.len() != "completion/complete"@.len());
            reveal_strlit("logging/setLevel");
            assert("prompts/get"@.len() != "logging/setLevel"@.len());
        },
        ClientRequestKind::ListPrompts => {
            reveal_strlit("prompts/list");
            reveal_strlit("ping");
            assert("prompts/list"@.len() != "ping"@.len());
            reveal_strlit("initialize");
            assert("prompts/list"@.len() != "initialize"@.len());
            reveal_strlit("completion/complete");
            assert("prompts/list"@.len() != "completion/complete"@.len());
            reveal_strlit("logging/setLevel");
            assert("prompts/list"@.len() != "logging/setLevel"@.len());
            reveal_strlit("prompts/get");
            assert("prompts/list"@.len() != "prompts/get"@.len());
        },
        ClientRequestKind::ListResources => {
            reveal_strlit("resources/list");
            reveal_strlit("ping");
            assert("resources/list"@.len() != "ping"@.len());
            reveal_strlit("initialize");
            assert("resources/list"@.len() != "initialize"@.len());
            reveal_strlit("completion/complete");
            assert("resources/list"@.len() != "completion/complete"@.len());
            reveal_strlit("logging/setLevel");
            assert("resources/list"@.len() != "logging/setLevel"@.len());
            reveal_strlit("prompts/get");
            assert("resources/list"@.len() != "prompts/get"@.len());
            reveal_strlit("prompts/list");
            assert("resources/list"@.len() != "prompts/list"@.len());
        },
        ClientRequestKind::ListResourceTemplates => {
            reveal_strlit("resources/templates/list");
            reveal_strlit("ping");
            assert("resources/templates/list"@.len() != "ping"@.len());
            reveal_strlit("initialize");
            assert("resources/templates/list"@.len() != "initialize"@.len());
            reveal_strlit("completion/complete");
            assert("resources/templates/list"@.len() != "completion/complete"@.len());
            reveal_strlit("logging/setLevel");
            assert("resources/templates/list"@.len() != "logging/setLevel"@.len());
            reveal_strlit("prompts/get");
            assert("resources/templates/list"@.len() != "prompts/get"@.len());
            reveal_strlit("prompts/list");
            assert("resources/templates/list"@.len() != "prompts/list"@.len());
            reveal_strlit("resources/list");
            assert("resources/templates/list"@.len() != "resources/list"@.len());
        },
        ClientRequestKind::ReadResource => {
            reveal_strlit("resources/read");
            reveal_strlit("ping");
            assert("resources/read"@.len() != "ping"@.len());
            reveal_strlit("initialize");
            assert("resources/read"@.len() != "initialize"@.len());
            reveal_strlit("completion/complete");
            assert("resources/read"@.len() != "completion/complete"@.len());
            reveal_strlit("logging/setLevel");
            assert("resources/read"@.len() != "logging/setLevel"@.len());
            reveal_strlit("prompts/get");
            assert("resources/read"@.len() != "prompts/get"@.len());
            reveal_strlit("prompts/list");
            assert("resources/read"@.len() != "prompts/list"@.len());
            reveal_strlit("resources/list");
            assert("resources/read"@[10] != "resources/list"@[10]);
            reveal_strlit("resources/templates/list");
            assert("resources/read"@.len() != "resources/templates/list"@.len());
        },
        ClientRequestKind::Subscribe => {
            reveal_strlit("resources/subscribe");
            reveal_strlit("ping");
            assert("resources/subscribe"@.len() != "ping"@.len());
            reveal_strlit("initialize");
            assert("resources/subscribe"@.len() != "initialize"@.len());
            reveal_strlit("completion/complete");
            assert("resources/subscribe"@[0] != "completion/complete"@[0]);
            reveal_strlit("logging/setLevel");
            assert("resources/subscribe"@.len() != "logging/setLevel"@.len());
            reveal_strlit("prompts/get");
            assert("resources/subscribe"@.len() != "prompts/get"@.len());
            reveal_strlit("prompts/list");
            assert("resources/subscribe"@.len() != "prompts/list"@.len());
            reveal_strlit("resources/list");
            assert("resources/subscribe"@.len() != "resources/list"@.len());
            reveal_strlit("resources/templates/list");
            assert("resources/subscribe"@.len() != "resources/templates/list"@.len());
            reveal_strlit("resources/read");
            assert("resources/subscribe"@.len() != "resources/read"@.len());
        },
        ClientRequestKind::Unsubscribe => {
            reveal_strlit("resources/unsubscribe");
            reveal_strlit("ping");
            assert("resources/unsubscribe"@.len() != "ping"@.len());
            reveal_strlit("initialize");
            assert("resources/unsubscribe"@.len() != "initialize"@.len());
            reveal_strlit("completion/complete");
            assert("resources/unsubscribe"@.len() != "completion/complete"@.len());
            reveal_strlit("logging/setLevel");
            assert("resources/unsubscribe"@.len() != "logging/setLevel"@.len());
            reveal_strlit("prompts/get");
            assert("resources/unsubscribe"@.len() != "prompts/get"@.len());
            reveal_strlit("prompts/list");
            assert("resources/unsubscribe"@.len() != "prompts/list"@.len());
            reveal_strlit("resources/list");
            assert("resources/unsubscribe"@.len() != "resources/list"@.len());
            reveal_strlit("resources/templates/list");
            assert("resources/unsubscribe"@.len() != "resources/templates/list"@.len());
            reveal_strlit("resources/read");
            assert("resources/unsubscribe"@.len() != "resources/read"@.len());
            reveal_strlit("resources/subscribe");
            assert("resources/unsubscribe"@.len() != "resources/subscribe"@.len());
        },
        ClientRequestKind::CallTool => {
            reveal_strlit("tools/call");
            reveal_strlit("ping");
            assert("tools/call"@.len() != "ping"@.len());
            reveal_strlit("initialize");
            assert("tools/call"@[0] != "initialize"@[0]);
            reveal_strlit("completion/complete");
            assert("tools/call"@.len() != "completion/complete"@.len());
            reveal_strlit("logging/setLevel");
            assert("tools/call"@.len() != "logging/setLevel"@.len());
            reveal_strlit("prompts/get");
            assert("tools/call"@.len() != "prompts/get"@.len());
            reveal_strlit("prompts/list");
            assert("tools/call"@.len() != "prompts/list"@.len());
            reveal_strlit("resources/list");
            assert("tools/call"@.len() != "resources/list"@.len());
            reveal_strlit("resources/templates/list");
            assert("tools/call"@.len() != "resources/templates/list"@.len());
            reveal_strlit("resources/read");
            assert("tools/call"@.len() != "resources/read"@.len());
            reveal_strlit("resources/subscribe");
            assert("tools/call"@.len() != "resources/subscribe"@.len());
            reveal_strlit("resources/unsubscribe");
            assert("tools/call"@.len() != "resources/unsubscribe"@.len());
        },
        ClientRequestKind::ListTools => {
            reveal_strlit("tools/list");
            reveal_strlit("ping");
            assert("tools/list"@.len() != "ping"@.len());
            reveal_strlit("initialize");
            assert("tools/list"@[0] != "initialize"@[0]);
            reveal_strlit("completion/complete");
            assert("tools/list"@.len() != "completion/complete"@.len());
            reveal_strlit("logging/setLevel");
            assert("tools/list"@.len() != "logging/setLevel"@.len());
            reveal_strlit("prompts/get");
            assert("tools/list"@.len() != "prompts/get"@.len());
            reveal_strlit("prompts/list");
            assert("tools/list"@.len() != "prompts/list"@.len());
            reveal_strlit("resources/list");
            assert("tools/list"@.len() != "resources/list"@.len());
            reveal_strlit("resources/templates/list");
            assert("tools/list"@.len() != "resources/templates/list"@.len());
            reveal_strlit("resources/read");
            assert("tools/list"@.len() != "resources/read"@.len());
            reveal_strlit("resources/subscribe");
            assert("tools/list"@.len() != "resources/subscribe"@.len());
            reveal_strlit("resources/unsubscribe");
            assert("tools/list"@.len() != "resources/unsubscribe"@.len());
            reveal_strlit("tools/call");
            assert("tools/list"@[6] != "tools/call"@[6]);
        },
        ClientRequestKind::GetTask => {
            reveal_strlit("tasks/get");
            reveal_strlit("ping");
            assert("tasks/get"@.len() != "ping"@.len());
            reveal_strlit("initialize");
            assert("tasks/get"@.len() != "initialize"@.len());
            reveal_strlit("completion/complete");
            assert("tasks/get"@.len() != "completion/complete"@.len());
            reveal_strlit("logging/setLevel");
            assert("tasks/get"@.len() != "logging/setLevel"@.len());
            reveal_strlit("prompts/get");
            assert("tasks/get"@.len() != "prompts/get"@.len());
            reveal_strlit("prompts/list");
            assert("tasks/get"@.len() != "prompts/list"@.len());
            reveal_strlit("resources/list");
            assert("tasks/get"@.len() != "resources/list"@.len());
            reveal_strlit("resources/templates/list");
            assert("tasks/get"@.len() != "resources/templates/list"@.len());
            reveal_strlit("resources/read");
            assert("tasks/get"@.len() != "resources/read"@.len());
            reveal_strlit("resources/subscribe");
            assert("tasks/get"@.len() != "resources/subscribe"@.len());
            reveal_strlit("resources/unsubscribe");
            assert("tasks/get"@.len() != "resources/unsubscribe"@.len());
            reveal_strlit("tools/call");
            assert("tasks/get"@.len() != "tools/call"@.len());
            reveal_strlit("tools/list");
            assert("tasks/get"@.len() != "tools/list"@.len());
        },
        ClientRequestKind::GetTaskPayload => {
            reveal_strlit("tasks/result");
            reveal_strlit("ping");
            assert("tasks/result"@.len() != "ping"@.len());
            reveal_strlit("initialize");
            assert("tasks/result"@.len() != "initialize"@.len());
            reveal_strlit("completion/complete");
            assert("tasks/result"@.len() != "completion/complete"@.len());
            reveal_strlit("logging/setLevel");
            assert("tasks/result"@.len() != "logging/setLevel"@.len());
            reveal_strlit("prompts/get");
            assert("tasks/result"@.len() != "prompts/get"@.len());
            reveal_strlit("prompts/list");
            assert("tasks/result"@[0] != "prompts/list"@[0]);
            reveal_strlit("resources/list");
            assert("tasks/result"@.len() != "resources/list"@.len());
            reveal_strlit("resources/templates/list");
            assert("tasks/result"@.len() != "resources/templates/list"@.len());
            reveal_strlit("resources/read");
            assert("tasks/result"@.len() != "resources/read"@.len());
            reveal_strlit("resources/subscribe");
            assert("tasks/result"@.len() != "resources/subscribe"@.len());
            reveal_strlit("resources/unsubscribe");
            assert("tasks/result"@.len() != "resources/unsubscribe"@.len());
            reveal_strlit("tools/call");
            assert("tasks/result"@.len() != "tools/call"@.len());
            reveal_strlit("tools/list");
            assert("tasks/result"@.len() != "tools/list"@.len());
            reveal_strlit("tasks/get");
            assert("tasks/result"@.len() != "tasks/get"@.len());
        },
        ClientRequestKind::ListTasks => {
            reveal_strlit("tasks/list");
            reveal_strlit("ping");
            assert("tasks/list"@.len() != "ping"@.len());
            reveal_strlit("initialize");
            assert("tasks/list"@[0] != "initialize"@[0]);
            reveal_strlit("completion/complete");
            assert("tasks/list"@.len() != "completion/complete"@.len());
            reveal_strlit("logging/setLevel");
            assert("tasks/list"@.len() != "logging/setLevel"@.len());
            reveal_strlit("prompts/get");
            assert("tasks/list"@.len() != "prompts/get"@.len());
            reveal_strlit("prompts/list");
            assert("tasks/list"@.len() != "prompts/list"@.len());
            reveal_strlit("resources/list");
            assert("tasks/list"@.len() != "resources/list"@.len());
            reveal_strlit("resources/templates/list");
            assert("tasks/list"@.len() != "resources/templates/list"@.len());
            reveal_strlit("resources/read");
            assert("tasks/list"@.len() != "resources/read"@.len());
            reveal_strlit("resources/subscribe");
            assert("tasks/list"@.len() != "resources/subscribe"@.len());
            reveal_strlit("resources/unsubscribe");
            assert("tasks/list"@.len() != "resources/unsubscribe"@.len());
            reveal_strlit("tools/call");
            assert("tasks/list"@[1] != "tools/call"@[1]);
            reveal_strlit("tools/list");
            assert("tasks/list"@[1] != "tools/list"@[1]);
            reveal_strlit("tasks/get");
            assert("tasks/list"@.len() != "tasks/get"@.len());
            reveal_strlit("tasks/result");
            assert("tasks/list"@.len() != "tasks/result"@.len());
        },
        ClientRequestKind::CancelTask => {
            reveal_strlit("tasks/cancel");
            reveal_strlit("ping");
            assert("tasks/cancel"@.len() != "ping"@.len());
            reveal_strlit("initialize");
            assert("tasks/cancel"@.len() != "initialize"@.len());
            reveal_strlit("completion/complete");
            assert("tasks/cancel"@.len() != "completion/complete"@.len());
            reveal_strlit("logging/setLevel");
            assert("tasks/cancel"@.len() != "logging/setLevel"@.len());
            reveal_strlit("prompts/get");
            assert("tasks/cancel"@.len() != "prompts/get"@.len());
            reveal_strlit("prompts/list");
            assert("tasks/cancel"@[0] != "prompts/list"@[0]);
            reveal_strlit("resources/list");
            assert("tasks/cancel"@.len() != "resources/list"@.len());
            reveal_strlit("resources/templates/list");
            assert("tasks/cancel"@.len() != "resources/templates/list"@.len());
            reveal_strlit("resources/read");
            assert("tasks/cancel"@.len() != "resources/read"@.len());
            reveal_strlit("resources/subscribe");
            assert("tasks/cancel"@.len() != "resources/subscribe"@.len());
            reveal_strlit("resources/unsubscribe");
            assert("tasks/cancel"@.len() != "resources/unsubscribe"@.len());
            reveal_strlit("tools/call");
            assert("tasks/cancel"@.len() != "tools/call"@.len());
            reveal_strlit("tools/list");
            assert("tasks/cancel"@.len() != "tools/list"@.len());
            reveal_strlit("tasks/get");
            assert("tasks/cancel"@.len() != "tasks/get"@.len());
            reveal_strlit("tasks/result");
            assert("tasks/cancel"@[6] != "tasks/result"@[6]);
            reveal_strlit("tasks/list");
            assert("tasks/cancel"@.len() != "tasks/list"@.len());
        },
    }
}

/// The kinds of requests a server sends to a client.
#[derive(Debug, Clone, Copy, PartialEq, Eq)]
pub enum ServerRequestKind {
    /// A liveness check: `ping`.
    Ping,
    /// Sample an LLM through the client: `sampling/createMessage`.
    CreateMessage,
    /// List the client roots: `roots/list`.
    ListRoots,
    /// Ask the user for input: `elicitation/create`.
    Elicit,
    /// Query a task: `tasks/get`.
    GetTask,
    /// Fetch a task result: `tasks/result`.
    GetTaskPayload,
    /// List tasks: `tasks/list`.
    ListTasks,
    /// Cancel a task: `tasks/cancel`.
    CancelTask,
}

/// The JSON-RPC method name of a kind of request.
pub open spec fn server_request_kind_method(k: ServerRequestKind) -> Seq<char> {
    match k {
        ServerRequestKind::Ping => "ping"@,
        ServerRequestKind::CreateMessage => "sampling/createMessage"@,
        ServerRequestKind::ListRoots => "roots/list"@,
        ServerRequestKind::Elicit => "elicitation/create"@,
        ServerRequestKind::GetTask => "tasks/get"@,
        ServerRequestKind::GetTaskPayload => "tasks/result"@,
        ServerRequestKind::ListTasks => "tasks/list"@,
        ServerRequestKind::CancelTask => "tasks/cancel"@,
    }
}

/// The kind with the given JSON-RPC method name, if any.
pub open spec fn server_request_kind_of(method: Seq<char>) -> Option<ServerRequestKind> {
    if method == "ping"@ {
        Some(ServerRequestKind::Ping)
    } else if method == "sampling/createMessage"@ {
        Some(ServerRequestKind::CreateMessage)
    } else if method == "roots/list"@ {
        Some(ServerRequestKind::ListRoots)
    } else if method == "elicitation/create"@ {
        Some(ServerRequestKind::Elicit)
    } else if method == "tasks/get"@ {
        Some(ServerRequestKind::GetTask)
    } else if method == "tasks/result"@ {
        Some(ServerRequestKind::GetTaskPayload)
    } else if method == "tasks/list"@ {
        Some(ServerRequestKind::ListTasks)
    } else if method == "tasks/cancel"@ {
        Some(ServerRequestKind::CancelTask)
    } else {
        None
    }
}

impl ServerRequestKind {
    /// The JSON-RPC method name of this kind.
    pub fn method(&self) -> (r: &'static str)
        ensures
            r@ == server_request_kind_method(*self),
    {
        match self {
            ServerRequestKind::Ping => "ping",
            ServerRequestKind::CreateMessage => "sampling/createMessage",
            ServerRequestKind::ListRoots => "roots/list",
            ServerRequestKind::Elicit => "elicitation/create",
            ServerRequestKind::GetTask => "tasks/get",
            ServerRequestKind::GetTaskPayload => "tasks/result",
            ServerRequestKind::ListTasks => "tasks/list",
            ServerRequestKind::CancelTask => "tasks/cancel",
        }
    }

    /// The kind with the given JSON-RPC method name, if any.
    pub fn from_method(method: &str) -> (r: Option<ServerRequestKind>)
        ensures
            r == server_request_kind_of(method@),
    {
        if str_eq(method, "ping") {
            Some(ServerRequestKind::Ping)
        } else if str_eq(method, "sampling/createMessage") {
            Some(ServerRequestKind::CreateMessage)
        } else if str_eq(method, "roots/list") {
            Some(ServerRequestKind::ListRoots)
        } else if str_eq(method, "elicitation/create") {
            Some(ServerRequestKind::Elicit)
        } else if str_eq(method, "tasks/get") {
            Some(ServerRequestKind::GetTask)
        } else if str_eq(method, "tasks/result") {
            Some(ServerRequestKind::GetTaskPayload)
        } else if str_eq(method, "tasks/list") {
            Some(ServerRequestKind::ListTasks)
        } else if str_eq(method, "tasks/cancel") {
            Some(ServerRequestKind::CancelTask)
        } else {
            None
        }
    }
}

/// Method names and requests kinds correspond one to one: the method
/// name of a kind reads back as that kind.
pub proof fn lemma_server_request_kind_round_trip(k: ServerRequestKind)
    ensures
        server_request_kind_of(server_request_kind_method(k)) == Some(k),
{
    match k {
        ServerRequestKind::Ping => {
            reveal_strlit("ping");
        },
        ServerRequestKind::CreateMessage => {
            reveal_strlit("sampling/createMessage");
            reveal_strlit("ping");
            assert("sampling/createMessage"@.len() != "ping"@.len());
        },
        ServerRequestKind::ListRoots => {
            reveal_strlit("roots/list");
            reveal_strlit("ping");
            assert("roots/list"@.len() != "ping"@.len());
            reveal_strlit("sampling/createMessage");
            assert("roots/list"@.len() != "sampling/createMessage"@.len());
        },
        ServerRequestKind::Elicit => {
            reveal_strlit("elicitation/create");
            reveal_strlit("ping");
            assert("elicitation/create"@.len() != "ping"@.len());
            reveal_strlit("sampling/createMessage");
            assert("elicitation/create"@.len() != "sampling/createMessage"@.len());
            reveal_strlit("roots/list");
            assert("elicitation/create"@.len() != "roots/list"@.len());
        },
        ServerRequestKind::GetTask => {
            reveal_strlit("tasks/get");
            reveal_strlit("ping");
            assert("tasks/get"@.len() != "ping"@.len());
            reveal_strlit("sampling/createMessage");
            assert("tasks/get"@.len() != "sampling/createMessage"@.len());
            reveal_strlit("roots/list");
            assert("tasks/get"@.len() != "roots/list"@.len());
            reveal_strlit("elicitation/create");
            assert("tasks/get"@.len() != "elicitation/create"@.len());
        },
        ServerRequestKind::GetTaskPayload => {
            reveal_strlit("tasks/result");
            reveal_strlit("ping");
            assert("tasks/result"@.len() != "ping"@.len());
            reveal_strlit("sampling/createMessage");
            assert("tasks/result"@.len() != "sampling/createMessage"@.len());
            reveal_strlit("roots/list");
            assert("tasks/result"@.len() != "roots/list"@.len());
            reveal_strlit("elicitation/create");
            assert("tasks/result"@.len() != "elicitation/create"@.len());
            reveal_strlit("tasks/get");
            assert("tasks/result"@.len() != "tasks/get"@.len());
        },
        ServerRequestKind::ListTasks => {
            reveal_strlit("tasks/list");
            reveal_strlit("ping");
            assert("tasks/list"@.len() != "ping"@.len());
            reveal_strlit("sampling/createMessage");
            assert("tasks/list"@.len() != "sampling/createMessage"@.len());
            reveal_strlit("roots/list");
            assert("tasks/list"@[0] != "roots/list"@[0]);
            reveal_strlit("elicitation/create");
            assert("tasks/list"@.len() != "elicitation/create"@.len());
            reveal_strlit("tasks/get");
            assert("tasks/list"@.len() != "tasks/get"@.len());
            reveal_strlit("tasks/result");
            assert("tasks/list"@.len() != "tasks/result"@.len());
        },
        ServerRequestKind::CancelTask => {
            reveal_strlit("tasks/cancel");
            reveal_strlit("ping");
            assert("tasks/cancel"@.len() != "ping"@.len());
            reveal_strlit("sampling/createMessage");
            assert("tasks/cancel"@.len() != "sampling/createMessage"@.len());
            reveal_strlit("roots/list");
            assert("tasks/cancel"@.len() != "roots/list"@.len());
            reveal_strlit("elicitation/create");
            assert("tasks/cancel"@.len() != "elicitation/create"@.len());
            reveal_strlit("tasks/get");
            assert("tasks/cancel"@.len() != "tasks/get"@.len());
            reveal_strlit("tasks/result");
            assert("tasks/cancel"@[6] != "tasks/result"@[6]);
            reveal_strlit("tasks/list");
            assert("tasks/cancel"@.len() != "tasks/list"@.len());
        },
    }
}

/// The kinds of notifications a client sends to a server.
#[derive(Debug, Clone, Copy, PartialEq, Eq)]
pub enum ClientNotificationKind {
    /// Initialization finished: `notifications/initialized`.
    Initialized,
    /// The roots changed: `notifications/roots/list_changed`.
    RootsListChanged,
    /// A task changed status: `notifications/tasks/status`.
    TaskStatus,
    /// A request is cancelled: `notifications/cancelled`.
    Cancelled,
    /// Progress of a request: `notifications/progress`.
    Progress,
}

/// The JSON-RPC method name of a kind of notification.
pub open spec fn client_notification_kind_method(k: ClientNotificationKind) -> Seq<char> {
    match k {
        ClientNotificationKind::Initialized => "notifications/initialized"@,
        ClientNotificationKind::RootsListChanged => "notifications/roots/list_changed"@,
        ClientNotificationKind::TaskStatus => "notifications/tasks/status"@,
        ClientNotificationKind::Cancelled => "notifications/cancelled"@,
        ClientNotificationKind::Progress => "notifications/progress"@,
    }
}

/// The kind with the given JSON-RPC method name, if any.
pub open spec fn client_notification_kind_of(method: Seq<char>) -> Option<ClientNotificationKind> {
    if method == "notifications/initialized"@ {
        Some(ClientNotificationKind::Initialized)
    } else if method == "notifications/roots/list_changed"@ {
        Some(ClientNotificationKind::RootsListChanged)
    } else if method == "notifications/tasks/status"@ {
        Some(ClientNotificationKind::TaskStatus)
    } else if method == "notifications/cancelled"@ {
        Some(ClientNotificationKind::Cancelled)
    } else if method == "notifications/progress"@ {
        Some(ClientNotificationKind::Progress)
    } else {
        None
    }
}

impl ClientNotificationKind {
    /// The JSON-RPC method name of this kind.
    pub fn method(&self) -> (r: &'static str)
        ensures
            r@ == client_notification_kind_method(*self),
    {
        match self {
            ClientNotificationKind::Initialized => "notifications/initialized",
            ClientNotificationKind::RootsListChanged => "notifications/roots/list_changed",
            ClientNotificationKind::TaskStatus => "notifications/tasks/status",
            ClientNotificationKind::Cancelled => "notifications/cancelled",
            ClientNotificationKind::Progress => "notifications/progress",
        }
    }

    /// The kind with the given JSON-RPC method name, if any.
    pub fn from_method(method: &str) -> (r: Option<ClientNotificationKind>)
        ensures
            r == client_notification_kind_of(method@),
    {
        if str_eq(method, "notifications/initialized") {
            Some(ClientNotificationKind::Initialized)
        } else if str_eq(method, "notifications/roots/list_changed") {
            Some(ClientNotificationKind::RootsListChanged)
        } else if str_eq(method, "notifications/tasks/status") {
            Some(ClientNotificationKind::TaskStatus)
        } else if str_eq(method, "notifications/cancelled") {
            Some(ClientNotificationKind::Cancelled)
        } else if str_eq(method, "notifications/progress") {
            Some(ClientNotificationKind::Progress)
        } else {
            None
        }
    }
}

/// Method names and notifications kinds correspond one to one: the method
/// name of a kind reads back as that kind.
pub proof fn lemma_client_notification_kind_round_trip(k: ClientNotificationKind)
    ensures
        client_notification_kind_of(client_notification_kind_method(k)) == Some(k),
{
    match k {
        ClientNotificationKind::Initialized => {
            reveal_strlit("notifications/initialized");
        },
        ClientNotificationKind::RootsListChanged => {
            reveal_strlit("notifications/roots/list_changed");
            reveal_strlit("notifications/initialized");
            assert("notifications/roots/list_changed"@.len() != "notifications/initialized"@.len());
        },
        ClientNotificationKind::TaskStatus => {
            reveal_strlit("notifications/tasks/status");
            reveal_strlit("notifications/initialized");
            assert("notifications/tasks/status"@.len() != "notifications/initialized"@.len());
            reveal_strlit("notifications/roots/list_changed");
            assert("notifications/tasks/status"@.len() != "notifications/roots/list_changed"@.len());
        },
        ClientNotificationKind::Cancelled => {
            reveal_strlit("notifications/cancelled");
            reveal_strlit("notifications/initialized");
            assert("notifications/cancelled"@.len() != "notifications/initialized"@.len());
            reveal_strlit("notifications/roots/list_changed");
            assert("notifications/cancelled"@.len() != "notifications/roots/list_changed"@.len());
            reveal_strlit("notifications/tasks/status");
            assert("notifications/cancelled"@.len() != "notifications/tasks/status"@.len());
        },
        ClientNotificationKind::Progress => {
            reveal_strlit("notifications/progress");
            reveal_strlit("notifications/initialized");
            assert("notifications/progress"@.len() != "notifications/initialized"@.len());
            reveal_strlit("notifications/roots/list_changed");
            assert("notifications/progress"@.len() != "notifications/roots/list_changed"@.len());
            reveal_strlit("notifications/tasks/status");
            assert("notifications/progress"@.len() != "notifications/tasks/status"@.len());
            reveal_strlit("notifications/cancelled");
            assert("notifications/progress"@.len() != "notifications/cancelled"@.len());
        },
    }
}

/// The kinds of notifications a server sends to a client.
#[derive(Debug, Clone, Copy, PartialEq, Eq)]
pub enum ServerNotificationKind {
    /// The tool list changed: `notifications/tools/list_changed`.
    ToolListChanged,
    /// The resource list changed: `notifications/resources/list_changed`.
    ResourceListChanged,
    /// The prompt list changed: `notifications/prompts/list_changed`.
    PromptListChanged,
    /// A URL elicitation finished: `notifications/elicitation/complete`.
    ElicitationComplete,
    /// A task changed status: `notifications/tasks/status`.
    TaskStatus,
    /// A subscribed resource changed: `notifications/resources/updated`.
    ResourceUpdated,
    /// A log message: `notifications/message`.
    LoggingMessage,
    /// Progress of a request: `notifications/progress`.
    Progress,
    /// A request is cancelled: `notifications/cancelled`.
    Cancelled,
}

/// The JSON-RPC method name of a kind of notification.
pub open spec fn server_notification_kind_method(k: ServerNotificationKind) -> Seq<char> {
    match k {
        ServerNotificationKind::ToolListChanged => "notifications/tools/list_changed"@,
        ServerNotificationKind::ResourceListChanged => "notifications/resources/list_changed"@,
        ServerNotificationKind::PromptListChanged => "notifications/prompts/list_changed"@,
        ServerNotificationKind::ElicitationComplete => "notifications/elicitation/complete"@,
        ServerNotificationKind::TaskStatus => "notifications/tasks/status"@,
        ServerNotificationKind::ResourceUpdated => "notifications/resources/updated"@,
        ServerNotificationKind::LoggingMessage => "notifications/message"@,
        ServerNotificationKind::Progress => "notifications/progress"@,
        ServerNotificationKind::Cancelled => "notifications/cancelled"@,
    }
}

/// The kind with the given JSON-RPC method name, if any.
pub open spec fn server_notification_kind_of(method: Seq<char>) -> Option<ServerNotificationKind> {
    if method == "notifications/tools/list_changed"@ {
        Some(ServerNotificationKind::ToolListChanged)
    } else if method == "notifications/resources/list_changed"@ {
        Some(ServerNotificationKind::ResourceListChanged)
    } else if method == "notifications/prompts/list_changed"@ {
        Some(ServerNotificationKind::PromptListChanged)
    } else if method == "notifications/elicitation/complete"@ {
        Some(ServerNotificationKind::ElicitationComplete)
    } else if method == "notifications/tasks/status"@ {
        Some(ServerNotificationKind::TaskStatus)
    } else if method == "notifications/resources/updated"@ {
        Some(ServerNotificationKind::ResourceUpdated)
    } else if method == "notifications/message"@ {
        Some(ServerNotificationKind::LoggingMessage)
    } else if method == "notifications/progress"@ {
        Some(ServerNotificationKind::Progress)
    } else if method == "notifications/cancelled"@ {
        Some(ServerNotificationKind::Cancelled)
    } else {
        None
    }
}

impl ServerNotificationKind {
    /// The JSON-RPC method name of this kind.
    pub fn method(&self) -> (r: &'static str)
        ensures
            r@ == server_notification_kind_method(*self),
    {
        match self {
            ServerNotificationKind::ToolListChanged => "notifications/tools/list_changed",
            ServerNotificationKind::ResourceListChanged => "notifications/resources/list_changed",
            ServerNotificationKind::PromptListChanged => "notifications/prompts/list_changed",
            ServerNotificationKind::ElicitationComplete => "notifications/elicitation/complete",
            ServerNotificationKind::TaskStatus => "notifications/tasks/status",
            ServerNotificationKind::ResourceUpdated => "notifications/resources/updated",
            ServerNotificationKind::LoggingMessage => "notifications/message",
            ServerNotificationKind::Progress => "notifications/progress",
            ServerNotificationKind::Cancelled => "notifications/cancelled",
        }
    }

    /// The kind with the given JSON-RPC method name, if any.
    pub fn from_method(method: &str) -> (r: Option<ServerNotificationKind>)
        ensures
            r == server_notification_kind_of(method@),
    {
        if str_eq(method, "notifications/tools/list_changed") {
            Some(ServerNotificationKind::ToolListChanged)
        } else if str_eq(method, "notifications/resources/list_changed") {
            Some(ServerNotificationKind::ResourceListChanged)
        } else if str_eq(method, "notifications/prompts/list_changed") {
            Some(ServerNotificationKind::PromptListChanged)
        } else if str_eq(method, "notifications/elicitation/complete") {
            Some(ServerNotificationKind::ElicitationComplete)
        } else if str_eq(method, "notifications/tasks/status") {
            Some(ServerNotificationKind::TaskStatus)
        } else if str_eq(method, "notifications/resources/updated") {
            Some(ServerNotificationKind::ResourceUpdated)
        } else if str_eq(method, "notifications/message") {
            Some(ServerNotificationKind::LoggingMessage)
        } else if str_eq(method, "notifications/progress") {
            Some(ServerNotificationKind::Progress)
        } else if str_eq(method, "notifications/cancelled") {
            Some(ServerNotificationKind::Cancelled)
        } else {
            None
        }
    }
}

/// Method names and notifications kinds correspond one to one: the method
/// name of a kind reads back as that kind.
pub proof fn lemma_server_notification_kind_round_trip(k: ServerNotificationKind)
    ensures
        server_notification_kind_of(server_notification_kind_method(k)) == Some(k),
{
    match k {
        ServerNotificationKind::ToolListChanged => {
            reveal_strlit("notifications/tools/list_changed");
        },
        ServerNotificationKind::ResourceListChanged => {
            reveal_strlit("notifications/resources/list_changed");
            reveal_strlit("notifications/tools/list_changed");
            assert("notifications/resources/list_changed"@.len() != "notifications/tools/list_changed"@.len());
        },
        ServerNotificationKind::PromptListChanged => {
            reveal_strlit("notifications/prompts/list_changed");
            reveal_strlit("notifications/tools/list_changed");
            assert("notifications/prompts/list_changed"@.len() != "notifications/tools/list_changed"@.len());
            reveal_strlit("notifications/resources/list_changed");
            assert("notifications/prompts/list_changed"@.len() != "notifications/resources/list_changed"@.len());
        },
        ServerNotificationKind::ElicitationComplete => {
            reveal_strlit("notifications/elicitation/complete");
            reveal_strlit("notifications/tools/list_changed");
            assert("notifications/elicitation/complete"@.len() != "notifications/tools/list_changed"@.len());
            reveal_strlit("notifications/resources/list_changed");
            assert("notifications/elicitation/complete"@.len() != "notifications/resources/list_changed"@.len());
            reveal_strlit("notifications/prompts/list_changed");
            assert("notifications/elicitation/complete"@[14] != "notifications/prompts/list_changed"@[14]);
        },
        ServerNotificationKind::TaskStatus => {
            reveal_strlit("notifications/tasks/status");
            reveal_strlit("notifications/tools/list_changed");
            assert("notifications/tasks/status"@.len() != "notifications/tools/list_changed"@.len());
            reveal_strlit("notifications/resources/list_changed");
            assert("notifications/tasks/status"@.len() != "notifications/resources/list_changed"@.len());
            reveal_strlit("notifications/prompts/list_changed");
            assert("notifications/tasks/status"@.len() != "notifications/prompts/list_changed"@.len());
            reveal_strlit("notifications/elicitation/complete");
            assert("notifications/tasks/status"@.len() != "notifications/elicitation/complete"@.len());
        },
        ServerNotificationKind::ResourceUpdated => {
            reveal_strlit("notifications/resources/updated");
            reveal_strlit("notifications/tools/list_changed");
            assert("notifications/resources/updated"@.len() != "notifications/tools/list_changed"@.len());
            reveal_strlit("notifications/resources/list_changed");
            assert("notifications/resources/updated"@.len() != "notifications/resources/list_changed"@.len());
            reveal_strlit("notifications/prompts/list_changed");
            assert("notifications/resources/updated"@.len() != "notifications/prompts/list_changed"@.len());
            reveal_strlit("notifications/elicitation/complete");
            assert("notifications/resources/updated"@.len() != "notifications/elicitation/complete"@.len());
            reveal_strlit("notifications/tasks/status");
            assert("notifications/resources/updated"@.len() != "notifications/tasks/status"@.len());
        },
        ServerNotificationKind::LoggingMessage => {
            reveal_strlit("notifications/message");
            reveal_strlit("notifications/tools/list_changed");
            assert("notifications/message"@.len() != "notifications/tools/list_changed"@.len());
            reveal_strlit("notifications/resources/list_changed");
            assert("notifications/message"@.len() != "notifications/resources/list_changed"@.len());
            reveal_strlit("notifications/prompts/list_changed");
            assert("notifications/message"@.len() != "notifications/prompts/list_changed"@.len());
            reveal_strlit("notifications/elicitation/complete");
            assert("notifications/message"@.len() != "notifications/elicitation/complete"@.len());
            reveal_strlit("notifications/tasks/status");
            assert("notifications/message"@.len() != "notifications/tasks/status"@.len());
            reveal_strlit("notifications/resources/updated");
            assert("notifications/message"@.len() != "notifications/resources/updated"@.len());
        },
        ServerNotificationKind::Progress => {
            reveal_strlit("notifications/progress");
            reveal_strlit("notifications/tools/list_changed");
            assert("notifications/progress"@.len() != "notifications/tools/list_changed"@.len());
            reveal_strlit("notifications/resources/list_changed");
            assert("notifications/progress"@.len() != "notifications/resources/list_changed"@.len());
            reveal_strlit("notifications/prompts/list_changed");
            assert("notifications/progress"@.len() != "notifications/prompts/list_changed"@.len());
            reveal_strlit("notifications/elicitation/complete");
            assert("notifications/progress"@.len() != "notifications/elicitation/complete"@.len());
            reveal_strlit("notifications/tasks/status");
            assert("notifications/progress"@.len() != "notifications/tasks/status"@.len());
            reveal_strlit("notifications/resources/updated");
            assert("notifications/progress"@.len() != "notifications/resources/updated"@.len());
            reveal_strlit("notifications/message");
            assert("notifications/progress"@.len() != "notifications/message"@.len());
        },
        ServerNotificationKind::Cancelled => {
            reveal_strlit("notifications/cancelled");
            reveal_strlit("notifications/tools/list_changed");
            assert("notifications/cancelled"@.len() != "notifications/tools/list_changed"@.len());
            reveal_strlit("notifications/resources/list_changed");
            assert("notifications/cancelled"@.len() != "notifications/resources/list_changed"@.len());
            reveal_strlit("notifications/prompts/list_changed");
            assert("notifications/cancelled"@.len() != "notifications/prompts/list_changed"@.len());
            reveal_strlit("notifications/elicitation/complete");
            assert("notifications/cancelled"@.len() != "notifications/elicitation/complete"@.len());
            reveal_strlit("notifications/tasks/status");
            assert("notifications/cancelled"@.len() != "notifications/tasks/status"@.len());
            reveal_strlit("notifications/resources/updated");
            assert("notifications/cancelled"@.len() != "notifications/resources/updated"@.len());
            reveal_strlit("notifications/message");
            assert("notifications/cancelled"@.len() != "notifications/message"@.len());
            reveal_strlit("notifications/progress");
            assert("notifications/cancelled"@.len() != "notifications/progress"@.len());
        },
    }
}

} // verus!
