//! The error type of MCP operations and its JSON-RPC rendering.

use vstd::prelude::*;

use crate::jsonrpc::create_jsonrpc_error;
use crate::schema::jsonrpc::{
    is_error_response, ErrorObject, JSONRPCError, RequestId, RequestIdView,
    INTERNAL_ERROR, INVALID_PARAMS, INVALID_REQUEST, JSONRPC_VERSION, METHOD_NOT_FOUND,
    PARSE_ERROR,
};
use crate::text::{decimal, format_u64, owned, push_all};

verus! {

/// Error type for MCP operations.
#[derive(Debug, Clone)]
pub enum Error {
    /// I/O error with a message.
    Io {
        /// Error message details.
        message: String,
    },
    /// JSON serialization or parsing error.
    JsonParse {
        /// Error message details.
        message: String,
    },
    /// Transport-layer error.
    Transport(String),
    /// Transport disconnected unexpectedly.
    TransportDisconnected,
    /// Protocol-level error.
    Protocol(String),
    /// Invalid request error.
    InvalidRequest(String),
    /// Method not found error.
    MethodNotFound(String),
    /// Invalid parameters error.
    InvalidParams(String),
    /// Internal error.
    InternalError(String),
    /// Connection closed.
    ConnectionClosed,
    /// Handler error with type context.
    HandlerError {
        /// Handler type name.
        handler_type: String,
        /// Error message.
        message: String,
    },
    /// Resource not found error.
    ResourceNotFound {
        /// Missing resource URI.
        uri: String,
    },
    /// Tool execution failed error.
    ToolExecutionFailed {
        /// Tool name that failed.
        tool: String,
        /// Error message details.
        message: String,
    },
    /// Invalid message format error.
    InvalidMessageFormat {
        /// Error message details.
        message: String,
    },
    /// Tool not found error.
    ToolNotFound(String),
    /// Invalid configuration error.
    InvalidConfiguration(String),
    /// Authorization failed error.
    AuthorizationFailed(String),
    /// Transport error.
    TransportError(String),
    /// Request timed out.
    Timeout {
        /// The request ID that timed out.
        request_id: String,
        /// Timeout duration in milliseconds.
        timeout_ms: u64,
    },
    /// Request was cancelled.
    Cancelled {
        /// The request ID that was cancelled.
        request_id: String,
    },
}

/// Result alias using the crate error type.
pub type Result<T> = core::result::Result<T, Error>;

/// The human-readable text of an error.
pub open spec fn error_text(e: Error) -> Seq<char> {
    match e {
        Error::Io { message } => "IO error: "@ + message@,
        Error::JsonParse { message } => "JSON serialization error: "@ + message@,
        Error::Transport(m) => "Transport error: "@ + m@,
        Error::TransportDisconnected => "Transport disconnected unexpectedly"@,
        Error::Protocol(m) => "Protocol error: "@ + m@,
        Error::InvalidRequest(m) => "Invalid request: "@ + m@,
        Error::MethodNotFound(m) => "Method not found: "@ + m@,
        Error::InvalidParams(m) => "Invalid parameters: "@ + m@,
        Error::InternalError(m) => "Internal error: "@ + m@,
        Error::ConnectionClosed => "Connection closed"@,
        Error::HandlerError { handler_type, message } => "Handler error for "@ + handler_type@
            + ": "@ + message@,
        Error::ResourceNotFound { uri } => "Resource not found: "@ + uri@,
        Error::ToolExecutionFailed { tool, message } => "Tool execution failed for '"@ + tool@
            + "': "@ + message@,
        Error::InvalidMessageFormat { message } => "Invalid message format: "@ + message@,
        Error::ToolNotFound(m) => "Tool not found: "@ + m@,
        Error::InvalidConfiguration(m) => "Invalid configuration: "@ + m@,
        Error::AuthorizationFailed(m) => "Authorization failed: "@ + m@,
        Error::TransportError(m) => "Transport error: "@ + m@,
        Error::Timeout { request_id, timeout_ms } => "Request timed out after "@ + decimal(
            timeout_ms as nat,
        ) + "ms: "@ + request_id@,
        Error::Cancelled { request_id } => "Request cancelled: "@ + request_id@,
    }
}

/// The specific JSON-RPC error code of an error, for the errors that have one;
/// every other error is reported as an internal error.
pub open spec fn specific_code(e: Error) -> Option<i32> {
    match e {
        Error::ToolNotFound(_) => Some(METHOD_NOT_FOUND),
        Error::MethodNotFound(_) => Some(METHOD_NOT_FOUND),
        Error::InvalidParams(_) => Some(INVALID_PARAMS),
        Error::InvalidRequest(_) => Some(INVALID_REQUEST),
        Error::JsonParse { .. } => Some(PARSE_ERROR),
        Error::InvalidMessageFormat { .. } => Some(PARSE_ERROR),
        _ => None,
    }
}

/// The JSON-RPC error code under which an error is reported.
pub open spec fn response_code(e: Error) -> i32 {
    match specific_code(e) {
        Some(c) => c,
        None => INTERNAL_ERROR,
    }
}

fn text2(a: &str, b: &str) -> (s: String)
    ensures
        s@ == a@ + b@,
{
    let mut s = String::new();
    push_all(&mut s, a);
    push_all(&mut s, b);
    s
}

fn text4(a: &str, b: &str, c: &str, d: &str) -> (s: String)
    ensures
        s@ == a@ + b@ + c@ + d@,
{
    let mut s = String::new();
    push_all(&mut s, a);
    push_all(&mut s, b);
    push_all(&mut s, c);
    push_all(&mut s, d);
    s
}

impl Error {
    /// Create a HandlerError with type context.
    pub fn handler_error(handler_type: &str, message: &str) -> (e: Error)
        ensures
            e matches Error::HandlerError { handler_type: h, message: m } && h@ == handler_type@
                && m@ == message@,
    {
        Error::HandlerError { handler_type: owned(handler_type), message: owned(message) }
    }

    /// Create a ToolExecutionFailed error.
    pub fn tool_execution_failed(tool: &str, message: &str) -> (e: Error)
        ensures
            e matches Error::ToolExecutionFailed { tool: t, message: m } && t@ == tool@ && m@
                == message@,
    {
        Error::ToolExecutionFailed { tool: owned(tool), message: owned(message) }
    }

    /// The human-readable text of this error.
    pub fn to_string(&self) -> (s: String)
        ensures
            s@ == error_text(*self),
    {
        match self {
            Error::Io { message } => text2("IO error: ", message.as_str()),
            Error::JsonParse { message } => text2("JSON serialization error: ", message.as_str()),
            Error::Transport(m) => text2("Transport error: ", m.as_str()),
            Error::TransportDisconnected => owned("Transport disconnected unexpectedly"),
            Error::Protocol(m) => text2("Protocol error: ", m.as_str()),
            Error::InvalidRequest(m) => text2("Invalid request: ", m.as_str()),
            Error::MethodNotFound(m) => text2("Method not found: ", m.as_str()),
            Error::InvalidParams(m) => text2("Invalid parameters: ", m.as_str()),
            Error::InternalError(m) => text2("Internal error: ", m.as_str()),
            Error::ConnectionClosed => owned("Connection closed"),
            Error::HandlerError { handler_type, message } => text4(
                "Handler error for ",
                handler_type.as_str(),
                ": ",
                message.as_str(),
            ),
            Error::ResourceNotFound { uri } => text2("Resource not found: ", uri.as_str()),
            Error::ToolExecutionFailed { tool, message } => text4(
                "Tool execution failed for '",
                tool.as_str(),
                "': ",
                message.as_str(),
            ),
            Error::InvalidMessageFormat { message } => text2(
                "Invalid message format: ",
                message.as_str(),
            ),
            Error::ToolNotFound(m) => text2("Tool not found: ", m.as_str()),
            Error::InvalidConfiguration(m) => text2("Invalid configuration: ", m.as_str()),
            Error::AuthorizationFailed(m) => text2("Authorization failed: ", m.as_str()),
            Error::TransportError(m) => text2("Transport error: ", m.as_str()),
            Error::Timeout { request_id, timeout_ms } => {
                let ms = format_u64(*timeout_ms);
                text4("Request timed out after ", ms.as_str(), "ms: ", request_id.as_str())
            },
            Error::Cancelled { request_id } => text2("Request cancelled: ", request_id.as_str()),
        }
    }

    /// Convert the error to its specific JSON-RPC error response, for the
    /// errors that have a specific code.
    pub fn to_jsonrpc_response(&self, request_id: RequestId) -> (r: Option<JSONRPCError>)
        ensures
            r is Some <==> specific_code(*self) is Some,
            r matches Some(resp) ==> is_error_response(
                resp,
                Some(request_id@),
                response_code(*self),
                error_text(*self),
            ),
    {
        let code = match self {
            Error::ToolNotFound(_) => METHOD_NOT_FOUND,
            Error::MethodNotFound(_) => METHOD_NOT_FOUND,
            Error::InvalidParams(_) => INVALID_PARAMS,
            Error::InvalidRequest(_) => INVALID_REQUEST,
            Error::JsonParse { .. } => PARSE_ERROR,
            Error::InvalidMessageFormat { .. } => PARSE_ERROR,
            _ => return None,
        };
        let message = self.to_string();
        Some(create_jsonrpc_error(request_id, code as i64, message, None))
    }

    /// The JSON-RPC error response reporting this error for a request: the
    /// specific response when there is one, an internal error otherwise.
    pub fn to_error_response(&self, request_id: RequestId) -> (r: JSONRPCError)
        ensures
            is_error_response(r, Some(request_id@), response_code(*self), error_text(*self)),
    {
        match self.to_jsonrpc_response(request_id.clone()) {
            Some(r) => r,
            None => create_jsonrpc_error(request_id, INTERNAL_ERROR as i64, self.to_string(), None),
        }
    }
}

/// A failed request is always answered with the error's own text, and with a
/// specific code exactly for the errors that have one.
pub proof fn lemma_error_response_text(e: Error, id: RequestIdView, r: JSONRPCError)
    requires
        is_error_response(r, Some(id), response_code(e), error_text(e)),
    ensures
        r.error.message@ == error_text(e),
        r.error.code == INTERNAL_ERROR <==> specific_code(e) is None,
{
}

/// The JSON-RPC code each error is reported under: an unknown tool and an
/// unknown method are both "method not found" (-32601); invalid params
/// -32602; an invalid request -32600; malformed JSON or an invalid message
/// format a parse error (-32700); anything else an internal error (-32603).
pub proof fn lemma_error_codes(e: Error, r: JSONRPCError, id: RequestIdView)
    requires
        is_error_response(r, Some(id), response_code(e), error_text(e)),
    ensures
        e is ToolNotFound || e is MethodNotFound ==> r.error.code == -32601,
        e is InvalidParams ==> r.error.code == -32602,
        e is InvalidRequest ==> r.error.code == -32600,
        e is JsonParse || e is InvalidMessageFormat ==> r.error.code == -32700,
        !(e is ToolNotFound || e is MethodNotFound || e is InvalidParams || e is InvalidRequest
            || e is JsonParse || e is InvalidMessageFormat) ==> r.error.code == -32603,
{
}

/// An unknown tool is reported exactly as an unknown method is: the same
/// code, whatever names they carry.
pub proof fn lemma_unknown_tool_is_unknown_method(tool: String, method: String)
    ensures
        specific_code(Error::ToolNotFound(tool)) == specific_code(Error::MethodNotFound(method)),
        specific_code(Error::ToolNotFound(tool)) == Some(-32601i32),
{
}

} // verus!
