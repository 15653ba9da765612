//! The decisions of the HTTP client transport: what a response to an
//! outbound message means, the session id it captures, and the synthetic
//! error a waiting request gets when the server answers with a failure
//! status.

use vstd::prelude::*;

use super::routing::MessageKind;
use super::validation::header_view;
use http::header::HeaderValue;

use crate::auth::server::{header_value_from_str, header_value_text, valid_header_text};
use crate::error::{error_text, Error};
use crate::schema::jsonrpc::{
    is_error_response, ErrorObject, JSONRPCErrorResponse, RequestId, RequestIdView,
    AUTHORIZATION_FAILED, INTERNAL_ERROR, JSONRPC_VERSION,
};
use crate::text::{chars_of, decimal, format_u64, has_prefix, owned, push_all, starts_with};

verus! {

/// The reason phrase of `http`'s status table for a status code, if the
/// table has one.
pub uninterp spec fn canonical_reason(code: u16) -> Option<Seq<char>>;

/// The reason phrase of a status code
/// (`http::StatusCode::from_u16(code)` then `canonical_reason`).
#[verifier::external_body]
fn status_reason(code: u16) -> (r: Option<&'static str>)
    requires
        100 <= code <= 999,
    ensures
        match (r, canonical_reason(code)) {
            (Some(s), Some(t)) => s@ == t,
            (None, None) => true,
            _ => false,
        },
{
    match ::http::StatusCode::from_u16(code) {
        Ok(status) => status.canonical_reason(),
        Err(_) => None,
    }
}

/// How a status code is displayed: the number, a space, and its reason
/// phrase or `<unknown status code>`.
pub open spec fn status_text(code: u16) -> Seq<char> {
    decimal(code as nat) + " "@ + match canonical_reason(code) {
        Some(reason) => reason,
        None => "<unknown status code>"@,
    }
}

/// Display a status code the way `http::StatusCode` does.
pub fn status_display(code: u16) -> (s: String)
    requires
        100 <= code <= 999,
    ensures
        s@ == status_text(code),
{
    let mut s = format_u64(code as u64);
    push_all(&mut s, " ");
    match status_reason(code) {
        Some(reason) => push_all(&mut s, reason),
        None => push_all(&mut s, "<unknown status code>"),
    }
    s
}

/// Whether a status code is a success (2xx).
pub open spec fn is_success(code: u16) -> bool {
    200 <= code < 300
}

/// Whether processing of a response may go on: only for a success status.
pub fn validate_status(code: u16) -> (ok: bool)
    ensures
        ok == is_success(code),
{
    200 <= code && code < 300
}

/// The error code and message a failure status turns into: `401` is an
/// authorization failure, anything else an internal error naming the
/// status.
pub open spec fn status_error_payload(code: u16) -> (i32, Seq<char>) {
    if code == 401 {
        (AUTHORIZATION_FAILED, "Authorization failed: HTTP 401 Unauthorized"@)
    } else {
        (INTERNAL_ERROR, "HTTP request failed with status: "@ + status_text(code))
    }
}

/// The error object for a failure status.
pub fn status_error_object(code: u16) -> (e: ErrorObject)
    requires
        100 <= code <= 999,
    ensures
        e.code == status_error_payload(code).0,
        e.message@ == status_error_payload(code).1,
        e.data is None,
{
    if code == 401 {
        ErrorObject {
            code: AUTHORIZATION_FAILED,
            message: owned("Authorization failed: HTTP 401 Unauthorized"),
            data: None,
        }
    } else {
        let mut message = owned("HTTP request failed with status: ");
        let status = status_display(code);
        push_all(&mut message, status.as_str());
        ErrorObject { code: INTERNAL_ERROR, message, data: None }
    }
}

/// The synthetic error response a request gets when its POST was answered
/// with a failure status; `request_id` is the id of the outbound message
/// when it was a request, and other messages get nothing.
pub fn forward_status_error(request_id: Option<RequestId>, code: u16) -> (r: Option<
    JSONRPCErrorResponse,
>)
    requires
        100 <= code <= 999,
    ensures
        match request_id {
            None => r is None,
            Some(id) => r matches Some(resp) && is_error_response(
                resp,
                Some(id@),
                status_error_payload(code).0,
                status_error_payload(code).1,
            ),
        },
{
    match request_id {
        None => None,
        Some(id) => {
            let error = status_error_object(code);
            Some(JSONRPCErrorResponse { jsonrpc: owned(JSONRPC_VERSION), id: Some(id), error })
        },
    }
}

/// Whether the message waits for a JSON-RPC response body: only requests do.
pub fn expects_response(kind: MessageKind) -> (r: bool)
    ensures
        r == (kind == MessageKind::Request),
{
    matches!(kind, MessageKind::Request)
}

/// Whether a response's Content-Type announces an SSE stream.
pub open spec fn is_sse_content_type(content_type: Option<Option<Seq<char>>>) -> bool {
    match content_type {
        Some(Some(t)) => has_prefix(t, "text/event-stream"@),
        _ => false,
    }
}

/// Whether a response is an SSE stream, from its Content-Type header (absent,
/// not visible ASCII, or its text).
pub fn response_is_sse(content_type: Option<Option<&str>>) -> (r: bool)
    ensures
        r == is_sse_content_type(header_view(content_type)),
{
    match content_type {
        Some(Some(t)) => {
            let v = chars_of(t);
            starts_with(&v, "text/event-stream")
        },
        _ => false,
    }
}

/// What the client does with the HTTP response to one outbound message.
#[derive(Debug, Clone, Copy, PartialEq, Eq)]
pub enum ResponseAction {
    /// Answer a waiting request with the synthetic status error.
    ForwardStatusError,
    /// Nothing to read: a notification or response was accepted, or the
    /// server answered `202`/`204`.
    Ignore,
    /// Read the body as an SSE stream of messages.
    ForwardSse,
    /// Read the body as one JSON-RPC message.
    ForwardJson,
}

/// The action for a response, given the kind of the outbound message, the
/// status and whether the body is an SSE stream.
pub open spec fn response_action_spec(kind: MessageKind, code: u16, sse: bool) -> ResponseAction {
    if !is_success(code) {
        ResponseAction::ForwardStatusError
    } else if kind != MessageKind::Request {
        ResponseAction::Ignore
    } else if code == 202 || code == 204 {
        ResponseAction::Ignore
    } else if sse {
        ResponseAction::ForwardSse
    } else {
        ResponseAction::ForwardJson
    }
}

/// Decide what to do with the HTTP response to an outbound message.
pub fn response_action(kind: MessageKind, code: u16, sse: bool) -> (a: ResponseAction)
    ensures
        a == response_action_spec(kind, code, sse),
{
    if !validate_status(code) {
        ResponseAction::ForwardStatusError
    } else if !expects_response(kind) {
        ResponseAction::Ignore
    } else if code == 202 || code == 204 {
        ResponseAction::Ignore
    } else if sse {
        ResponseAction::ForwardSse
    } else {
        ResponseAction::ForwardJson
    }
}

/// The session id a response establishes: only the response to an
/// `initialize` request does, through a readable `Mcp-Session-Id` header.
pub open spec fn captured_session_id(is_initialize: bool, header: Option<Option<Seq<char>>>) -> Option<
    Seq<char>,
> {
    if !is_initialize {
        None
    } else {
        match header {
            Some(Some(sid)) => Some(sid),
            _ => None,
        }
    }
}

/// How a response is read depends on what it answers, its status and its
/// body: a non-2xx status is a status error; a 2xx answer to a notification
/// or response, or a `202`/`204`, has nothing to read; any other 2xx answer
/// to a request is read as one JSON message, or as an event stream when the
/// body is SSE.
pub proof fn lemma_response_reading(kind: MessageKind, code: u16, sse: bool)
    ensures
        (response_action_spec(kind, code, sse) == ResponseAction::ForwardStatusError) <==> !(200 <= code
            && code < 300),
        (response_action_spec(kind, code, sse) == ResponseAction::Ignore) <==> (200 <= code && code < 300
            && (kind != MessageKind::Request || code == 202 || code == 204)),
        (response_action_spec(kind, code, sse) == ResponseAction::ForwardJson) <==> (kind
            == MessageKind::Request && 200 <= code && code < 300 && code != 202 && code != 204 && !sse),
        (response_action_spec(kind, code, sse) == ResponseAction::ForwardSse) <==> (kind
            == MessageKind::Request && 200 <= code && code < 300 && code != 202 && code != 204 && sse),
{
}

/// The body's content type decides only between the two ways of reading an
/// answer: a response that is read as JSON would be read as a stream if its
/// body were SSE, and every other decision ignores the content type.
pub proof fn lemma_content_type_only_picks_the_reader(kind: MessageKind, code: u16)
    ensures
        response_action_spec(kind, code, false) == ResponseAction::ForwardJson <==> response_action_spec(
            kind,
            code,
            true,
        ) == ResponseAction::ForwardSse,
        response_action_spec(kind, code, false) != ResponseAction::ForwardJson ==> response_action_spec(
            kind,
            code,
            false,
        ) == response_action_spec(kind, code, true),
        response_action_spec(kind, code, false) != ResponseAction::ForwardSse,
{
}

/// Capture the session id from the `Mcp-Session-Id` header of the response
/// to an `initialize` request; the stored id changes only when one is
/// captured, and the captured id is returned.
pub fn update_session_id(
    is_initialize: bool,
    header: Option<Option<&str>>,
    session_id: &mut Option<String>,
) -> (r: Option<String>)
    ensures
        match captured_session_id(is_initialize, header_view(header)) {
            None => r is None && *final(session_id) == *old(session_id),
            Some(sid) => (r matches Some(s) && s@ == sid) && (*final(session_id) matches Some(t)
                && t@ == sid),
        },
{
    if !is_initialize {
        return None;
    }
    match header {
        Some(Some(sid)) => {
            *session_id = Some(owned(sid));
            Some(owned(sid))
        },
        _ => None,
    }
}

/// The synthetic error response a request gets when it could not be sent;
/// `request_id` is the id of the outbound message when it was a request,
/// and other messages get nothing.
pub fn forward_request_error(request_id: Option<RequestId>, code: i32, message: String) -> (r: Option<
    JSONRPCErrorResponse,
>)
    ensures
        match request_id {
            None => r is None,
            Some(id) => r matches Some(resp) && is_error_response(resp, Some(id@), code, message@),
        },
{
    match request_id {
        None => None,
        Some(id) => Some(
            JSONRPCErrorResponse {
                jsonrpc: owned(JSONRPC_VERSION),
                id: Some(id),
                error: ErrorObject { code, message, data: None },
            },
        ),
    }
}

/// The code a failure to prepare a request's headers is reported with: an
/// authorization failure keeps its code, anything else is internal.
pub open spec fn header_failure_code(e: Error) -> i32 {
    if e is AuthorizationFailed {
        AUTHORIZATION_FAILED
    } else {
        INTERNAL_ERROR
    }
}

/// The synthetic error response a request gets when its headers could not
/// be prepared.
pub fn header_failure_response(request_id: Option<RequestId>, err: &Error) -> (r: Option<
    JSONRPCErrorResponse,
>)
    ensures
        match request_id {
            None => r is None,
            Some(id) => r matches Some(resp) && is_error_response(
                resp,
                Some(id@),
                header_failure_code(*err),
                error_text(*err),
            ),
        },
{
    let code = match err {
        Error::AuthorizationFailed(_) => AUTHORIZATION_FAILED,
        _ => INTERNAL_ERROR,
    };
    forward_request_error(request_id, code, err.to_string())
}

/// Whether a POST answered `401` is sent again after refreshing the token:
/// only when OAuth is configured and the request carried a token.
pub fn retry_after_refresh(code: u16, oauth_configured: bool, sent_token: bool) -> (r: bool)
    ensures
        r == (code == 401 && oauth_configured && sent_token),
{
    code == 401 && oauth_configured && sent_token
}

/// Marks a header value as sensitive, so that it is hidden from debug output
/// (`HeaderValue::set_sensitive(true)`); the text it holds is unchanged.
#[verifier::external_body]
fn mark_sensitive(value: &mut HeaderValue)
    ensures
        header_value_text(*final(value)) == header_value_text(*old(value)),
{
    value.set_sensitive(true);
}

/// The `Authorization` header for a bearer token, hidden from debug output;
/// a token that cannot stand in a header is refused.
pub fn bearer_header(token: &str) -> (r: Result<HeaderValue, Error>)
    ensures
        r is Ok <==> valid_header_text("Bearer "@ + token@),
        r matches Ok(h) ==> header_value_text(h) == "Bearer "@ + token@,
        r matches Err(e) ==> (e matches Error::Transport(m) && m@ == "Invalid authorization token"@),
{
    let mut text = owned("Bearer ");
    push_all(&mut text, token);
    match header_value_from_str(text.as_str()) {
        Ok(v) => {
            let mut v = v;
            mark_sensitive(&mut v);
            Ok(v)
        },
        Err(_) => Err(Error::Transport(owned("Invalid authorization token"))),
    }
}

/// How an attempt to open the SSE stream goes on, from the status of the
/// server's answer.
#[derive(Debug, Clone, Copy, PartialEq, Eq)]
pub enum SseStart {
    /// Read the stream.
    Streaming,
    /// The server has no SSE stream (`405`); do not try again.
    NotSupported,
}

/// Decide how an SSE connection attempt goes on from its status: `405`
/// means the server has no stream, any other failure is a transport error
/// naming the status.
pub fn sse_response_outcome(code: u16) -> (r: Result<SseStart, Error>)
    requires
        100 <= code <= 999,
    ensures
        code == 405 ==> r == Ok::<SseStart, Error>(SseStart::NotSupported),
        code != 405 && is_success(code) ==> r == Ok::<SseStart, Error>(SseStart::Streaming),
        code != 405 && !is_success(code) ==> (r matches Err(Error::Transport(m)) && m@
            == "SSE connection failed with status: "@ + status_text(code)),
{
    if code == 405 {
        Ok(SseStart::NotSupported)
    } else if validate_status(code) {
        Ok(SseStart::Streaming)
    } else {
        let mut m = owned("SSE connection failed with status: ");
        let status = status_display(code);
        push_all(&mut m, status.as_str());
        Err(Error::Transport(m))
    }
}

/// Whether the standing SSE stream is worth trying, and whether an attempt
/// runs.
#[derive(Debug, Clone, Copy, PartialEq, Eq)]
pub struct SseState {
    /// Until the server answers `405`, the stream is assumed to exist.
    pub supported: bool,
    /// An attempt is running.
    pub running: bool,
}

/// Whether an attempt may start: the stream is not known to be missing and
/// no attempt runs.
pub open spec fn can_start(s: SseState) -> bool {
    s.supported && !s.running
}

/// The state after asking to start an attempt.
pub open spec fn after_start(s: SseState) -> SseState {
    SseState { supported: s.supported, running: s.running || can_start(s) }
}

/// The state after an attempt ended, `not_supported` when the server
/// answered `405`.
pub open spec fn after_finish(s: SseState, not_supported: bool) -> SseState {
    SseState { supported: s.supported && !not_supported, running: false }
}

impl SseState {
    /// The state before any attempt.
    pub fn new() -> (s: Self)
        ensures
            s.supported && !s.running,
    {
        SseState { supported: true, running: false }
    }

    /// Start an attempt unless the stream is known not to exist or one
    /// already runs; returns whether one was started.
    pub fn try_start(&mut self) -> (started: bool)
        ensures
            started == can_start(*old(self)),
            *final(self) == after_start(*old(self)),
    {
        if !self.supported || self.running {
            return false;
        }
        self.running = true;
        true
    }

    /// Record the end of an attempt: a `405` stops all further attempts.
    pub fn finish(&mut self, not_supported: bool)
        ensures
            *final(self) == after_finish(*old(self), not_supported),
    {
        if not_supported {
            self.supported = false;
        }
        self.running = false;
    }
}

/// Once the server answered that it has no stream, no attempt starts
/// again: the state after such an answer cannot start, and neither asking
/// to start nor ending an attempt brings support back.
pub proof fn lemma_unsupported_stream_stays_off(s: SseState, not_supported: bool)
    ensures
        !can_start(after_finish(s, true)),
        !s.supported ==> !after_start(s).supported && !after_finish(s, not_supported).supported
            && !can_start(after_start(s)) && !can_start(after_finish(s, not_supported)),
{
}

/// Record the id of an SSE event: the last non-empty id is what a
/// reconnecting stream resumes from.
pub fn record_event_id(last_event_id: &mut Option<String>, event_id: String)
    ensures
        event_id@.len() == 0 ==> *final(last_event_id) == *old(last_event_id),
        event_id@.len() > 0 ==> *final(last_event_id) == Some(event_id),
{
    let v = chars_of(event_id.as_str());
    if v.len() > 0 {
        *last_event_id = Some(event_id);
    }
}

/// The `Mcp-Session-Id` header of a request to the session: the session id
/// as a header value, or the transport error `Invalid session ID` when the
/// id cannot stand in a header.
pub fn session_id_header(session_id: &str) -> (r: Result<HeaderValue, Error>)
    ensures
        r is Ok <==> valid_header_text(session_id@),
        r matches Ok(h) ==> header_value_text(h) == session_id@,
        r matches Err(e) ==> (e matches Error::Transport(m) && m@ == "Invalid session ID"@),
{
    match header_value_from_str(session_id) {
        Ok(h) => Ok(h),
        Err(_) => Err(Error::Transport(owned("Invalid session ID"))),
    }
}

/// The `Last-Event-ID` header that resumes a stream: the event id as a
/// header value, or the transport error `Invalid Last-Event-ID`.
pub fn last_event_id_header(event_id: &str) -> (r: Result<HeaderValue, Error>)
    ensures
        r is Ok <==> valid_header_text(event_id@),
        r matches Ok(h) ==> header_value_text(h) == event_id@,
        r matches Err(e) ==> (e matches Error::Transport(m) && m@ == "Invalid Last-Event-ID"@),
{
    match header_value_from_str(event_id) {
        Ok(h) => Ok(h),
        Err(_) => Err(Error::Transport(owned("Invalid Last-Event-ID"))),
    }
}

/// The session headers of a request for the standing SSE stream.
#[derive(Debug)]
pub struct SseSessionHeaders {
    /// `Mcp-Session-Id`.
    pub session_id: HeaderValue,
    /// `Last-Event-ID`, when a stream is resumed.
    pub last_event_id: Option<HeaderValue>,
}

/// Prepare the session headers of a request for the standing SSE stream:
/// none without a session (no stream is opened); otherwise the session id,
/// then the last event id when there is one, the first that cannot stand in
/// a header giving its transport error.
pub fn sse_session_headers(session_id: Option<&str>, last_event_id: Option<&str>) -> (r: Result<
    Option<SseSessionHeaders>,
    Error,
>)
    ensures
        match session_id {
            None => r matches Ok(None),
            Some(sid) => if !valid_header_text(sid@) {
                r matches Err(e) && (e matches Error::Transport(m) && m@ == "Invalid session ID"@)
            } else {
                match last_event_id {
                    Some(eid) => if !valid_header_text(eid@) {
                        r matches Err(e) && (e matches Error::Transport(m) && m@ == "Invalid Last-Event-ID"@)
                    } else {
                        r matches Ok(Some(hs)) && header_value_text(hs.session_id) == sid@
                            && (hs.last_event_id matches Some(l) && header_value_text(l) == eid@)
                    },
                    None => r matches Ok(Some(hs)) && header_value_text(hs.session_id) == sid@
                        && hs.last_event_id is None,
                }
            },
        },
{
    let sid = match session_id {
        None => return Ok(None),
        Some(s) => s,
    };
    let session = session_id_header(sid)?;
    let last = match last_event_id {
        Some(eid) => Some(last_event_id_header(eid)?),
        None => None,
    };
    Ok(Some(SseSessionHeaders { session_id: session, last_event_id: last }))
}

} // verus!
