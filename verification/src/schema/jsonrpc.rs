//! JSON-RPC envelope types, identifiers and protocol constants.

use serde_json::Value;
use vstd::prelude::*;

use crate::json::JsonObject;

use crate::text::{
    decimal, decimal_int, format_i64, has_prefix, lemma_decimal_int_injective, owned, push_all,
    str_eq,
};

verus! {

/// The protocol version immediately preceding the latest supported version.
pub const PREVIOUS_PROTOCOL_VERSION: &'static str = "2025-06-18";

/// The most recent protocol version this implementation supports.
pub const LATEST_PROTOCOL_VERSION: &'static str = "2025-11-25";

/// JSON-RPC protocol version string.
pub const JSONRPC_VERSION: &'static str = "2.0";

/// JSON-RPC parse error code.
pub const PARSE_ERROR: i32 = -32700;

/// JSON-RPC invalid request error code.
pub const INVALID_REQUEST: i32 = -32600;

/// JSON-RPC method not found error code.
pub const METHOD_NOT_FOUND: i32 = -32601;

/// JSON-RPC invalid params error code.
pub const INVALID_PARAMS: i32 = -32602;

/// JSON-RPC internal error code.
pub const INTERNAL_ERROR: i32 = -32603;

/// MCP-specific JSON-RPC error code indicating a requested resource was not found.
pub const RESOURCE_NOT_FOUND: i32 = -32002;

/// Implementation-specific JSON-RPC error code indicating URL elicitation is required.
pub const URL_ELICITATION_REQUIRED: i32 = -32042;

/// Implementation-specific JSON-RPC error code indicating authorization failed.
pub const AUTHORIZATION_FAILED: i32 = -32041;

/// The protocol versions this implementation accepts from peers, newest first.
pub open spec fn supported_protocol_versions() -> Seq<Seq<char>> {
    seq!["2025-11-25"@, "2025-06-18"@, "2025-03-26"@]
}

/// Whether a peer's protocol version is one this implementation accepts.
pub fn is_supported_protocol_version(version: &str) -> (r: bool)
    ensures
        r == supported_protocol_versions().contains(version@),
{
    let a = str_eq(version, "2025-11-25");
    let b = str_eq(version, "2025-06-18");
    let c = str_eq(version, "2025-03-26");
    proof {
        let s = supported_protocol_versions();
        assert(s[0] == "2025-11-25"@ && s[1] == "2025-06-18"@ && s[2] == "2025-03-26"@);
        if s.contains(version@) {
            let k = choose|k: int| 0 <= k < s.len() && s[k] == version@;
            assert(k == 0 || k == 1 || k == 2);
        }
    }
    a || b || c
}

/// A progress token, used to associate progress notifications with the
/// original request.
#[derive(Debug, Clone)]
pub enum ProgressToken {
    /// String progress token.
    String(String),
    /// Numeric progress token.
    Number(i64),
}

/// An opaque token used to represent a cursor for pagination.
#[derive(Debug, Clone, PartialEq, Eq, Hash)]
pub struct Cursor(pub String);

impl View for Cursor {
    type V = Seq<char>;

    open spec fn view(&self) -> Seq<char> {
        self.0@
    }
}

impl Cursor {
    /// A cursor holding the given text.
    pub fn new(s: &str) -> (c: Cursor)
        ensures
            c@ == s@,
    {
        Cursor(owned(s))
    }
}

/// A uniquely identifying ID for a request in JSON-RPC.
#[derive(Debug, PartialEq, Eq, Hash)]
pub enum RequestId {
    /// String request ID.
    String(String),
    /// Numeric request ID.
    Number(i64),
}

/// The abstract value of a request id: its text, or its number.
pub enum RequestIdView {
    /// A textual id.
    Text(Seq<char>),
    /// A numeric id.
    Num(int),
}

impl View for RequestId {
    type V = RequestIdView;

    open spec fn view(&self) -> RequestIdView {
        match self {
            RequestId::String(s) => RequestIdView::Text(s@),
            RequestId::Number(n) => RequestIdView::Num(*n as int),
        }
    }
}

/// Prefix marking the key of a numeric request id.
pub open spec fn numeric_key_prefix() -> Seq<char> {
    seq!['_', '_', 'n', 'u', 'm', '_', '_']
}

/// The key under which a pending request is tracked: string ids stand for
/// themselves, numeric ids are marked with a `__num__` prefix.
pub open spec fn request_key(id: RequestIdView) -> Seq<char> {
    match id {
        RequestIdView::Text(s) => s,
        RequestIdView::Num(n) => numeric_key_prefix() + decimal_int(n),
    }
}

/// The display text of a request id: the string itself, or the number in
/// decimal.
pub open spec fn request_id_text(id: RequestIdView) -> Seq<char> {
    match id {
        RequestIdView::Text(s) => s,
        RequestIdView::Num(n) => decimal_int(n),
    }
}

/// Responses are correlated by key: two different request ids never share a
/// key, unless one of them is a text id that itself begins with the `__num__`
/// marker of numeric keys.
pub proof fn lemma_request_keys_distinct(a: RequestIdView, b: RequestIdView)
    requires
        a != b,
        a matches RequestIdView::Text(s) ==> !has_prefix(s, numeric_key_prefix()),
        b matches RequestIdView::Text(s) ==> !has_prefix(s, numeric_key_prefix()),
    ensures
        request_key(a) != request_key(b),
{
    match (a, b) {
        (RequestIdView::Num(x), RequestIdView::Num(y)) => {
            if request_key(a) == request_key(b) {
                let p = numeric_key_prefix();
                assert(decimal_int(x) =~= request_key(a).subrange(p.len() as int, request_key(a).len() as int));
                assert(decimal_int(y) =~= request_key(b).subrange(p.len() as int, request_key(b).len() as int));
                lemma_decimal_int_injective(x, y);
            }
        },
        (RequestIdView::Text(s), RequestIdView::Num(y)) => {
            assert(request_key(b).take(numeric_key_prefix().len() as int) =~= numeric_key_prefix());
        },
        (RequestIdView::Num(x), RequestIdView::Text(t)) => {
            assert(request_key(a).take(numeric_key_prefix().len() as int) =~= numeric_key_prefix());
        },
        _ => {},
    }
}

impl Clone for RequestId {
    fn clone(&self) -> (r: RequestId)
        ensures
            r@ == self@,
    {
        match self {
            RequestId::String(s) => RequestId::String(s.clone()),
            RequestId::Number(n) => RequestId::Number(*n),
        }
    }
}

impl RequestId {
    /// Normalize the id into the key used to correlate responses.
    pub fn to_key(&self) -> (k: String)
        ensures
            k@ == request_key(self@),
    {
        match self {
            RequestId::String(s) => s.clone(),
            RequestId::Number(n) => {
                let mut k = String::new();
                push_all(&mut k, "__num__");
                proof {
                    reveal_strlit("__num__");
                }
                let digits = format_i64(*n);
                push_all(&mut k, digits.as_str());
                k
            },
        }
    }

    /// The display text of the id.
    pub fn to_string(&self) -> (t: String)
        ensures
            t@ == request_id_text(self@),
    {
        match self {
            RequestId::String(s) => s.clone(),
            RequestId::Number(n) => format_i64(*n),
        }
    }
}

/// Common params for any notification.
#[derive(Debug, Clone, Default)]
pub struct NotificationParams {
    /// This parameter name is reserved by MCP to allow clients and servers to
    /// attach additional metadata to their notifications.
    pub _meta: Option<JsonObject>,
    /// Method-specific parameters.
    pub other: JsonObject,
}

/// The method and params of a JSON-RPC notification, without the envelope.
#[derive(Debug, Clone)]
pub struct Notification {
    /// The notification method.
    pub method: String,
    /// Parameters for the notification, if any.
    pub params: Option<NotificationParams>,
}

/// The error payload of a JSON-RPC error response.
#[derive(Debug, Clone)]
pub struct ErrorObject {
    /// The error type that occurred.
    pub code: i32,
    /// A short description of the error.
    pub message: String,
    /// Additional information about the error.
    pub data: Option<Value>,
}

/// A response to a request that indicates an error occurred.
#[derive(Debug, Clone)]
pub struct JSONRPCErrorResponse {
    /// JSON-RPC protocol version, always "2.0".
    pub jsonrpc: String,
    /// Identifier of the request this responds to, when known.
    pub id: Option<RequestId>,
    /// Details of the error.
    pub error: ErrorObject,
}

/// An error response to a request.
pub type JSONRPCError = JSONRPCErrorResponse;

/// An error response with the given id, code and message and no data.
pub open spec fn is_error_response(
    r: JSONRPCErrorResponse,
    id: Option<RequestIdView>,
    code: i32,
    message: Seq<char>,
) -> bool {
    &&& r.jsonrpc@ == JSONRPC_VERSION@
    &&& match (r.id, id) {
        (Some(a), Some(b)) => a@ == b,
        (None, None) => true,
        _ => false,
    }
    &&& r.error.code == code
    &&& r.error.message@ == message
    &&& r.error.data is None
}

/// Common params for any request.
#[derive(Debug, Clone, Default)]
pub struct RequestParams {
    /// Request metadata reserved by the protocol.
    pub _meta: Option<RequestMeta>,
    /// Method-specific parameters.
    pub other: JsonObject,
}

/// Metadata attached to a request via the reserved `_meta` parameter.
#[derive(Debug, Clone, Default)]
pub struct RequestMeta {
    /// If specified, the caller asks for out-of-band progress notifications
    /// for this request, tagged with this token.
    pub progress_token: Option<ProgressToken>,
    /// Additional metadata fields preserved from the wire.
    pub other: JsonObject,
}

/// The method and params of a JSON-RPC request, without the envelope.
#[derive(Debug, Clone)]
pub struct Request {
    /// The method being invoked.
    pub method: String,
    /// Parameters for the method, if any.
    pub params: Option<RequestParams>,
}

/// The payload of a successful JSON-RPC response.
#[derive(Debug, Clone)]
pub struct JSONRPCResult {
    /// Reserved metadata.
    pub _meta: Option<JsonObject>,
    /// The result's fields.
    pub other: JsonObject,
}

/// A response that indicates success but carries no data.
pub type EmptyResult = JSONRPCResult;

/// A request that expects a response.
#[derive(Debug, Clone)]
pub struct JSONRPCRequest {
    /// JSON-RPC protocol version, always "2.0".
    pub jsonrpc: String,
    /// Identifier correlating the request with its response.
    pub id: RequestId,
    /// The method and params of the request.
    pub request: Request,
}

/// A notification which does not expect a response.
#[derive(Debug, Clone)]
pub struct JSONRPCNotification {
    /// JSON-RPC protocol version, always "2.0".
    pub jsonrpc: String,
    /// The method and params of the notification.
    pub notification: Notification,
}

/// A successful (non-error) response to a request.
#[derive(Debug, Clone)]
pub struct JSONRPCResultResponse {
    /// JSON-RPC protocol version, always "2.0".
    pub jsonrpc: String,
    /// Identifier of the request this responds to.
    pub id: RequestId,
    /// The result payload.
    pub result: JSONRPCResult,
}

/// A response to a request, containing either the result or error.
#[derive(Debug, Clone)]
pub enum JSONRPCResponse {
    /// A successful response.
    Result(JSONRPCResultResponse),
    /// An error response.
    Error(JSONRPCErrorResponse),
}

/// Any valid JSON-RPC object that can be decoded off the wire, or encoded to
/// be sent.
#[derive(Debug, Clone)]
pub enum JSONRPCMessage {
    /// A request expecting a response.
    Request(JSONRPCRequest),
    /// A notification with no response.
    Notification(JSONRPCNotification),
    /// A response to a request.
    Response(JSONRPCResponse),
}

} // verus!
