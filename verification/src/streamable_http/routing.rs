//! The decisions of the HTTP server's POST and GET handlers: which requests
//! are refused with which status, and where an accepted message goes.

use vstd::prelude::*;

use super::validation::{
    content_type_verdict, header_view, origin_allowed, protocol_version_accepted,
    validate_json_content_type, validate_origin, validate_protocol_version, ContentTypeError,
};

verus! {

/// A refused HTTP request: the status code and the response body.
#[derive(Debug, Clone, Copy, PartialEq, Eq)]
pub struct Refusal {
    /// HTTP status code.
    pub status: u16,
    /// Response body text.
    pub message: &'static str,
}

/// The refusal for a request whose Origin does not match its Host.
pub open spec fn is_refusal(r: Refusal, status: u16, message: Seq<char>) -> bool {
    r.status == status && r.message@ == message
}

/// The refusal a POST gets from its headers alone, checked in order: Origin
/// (403), Content-Type (415), protocol version (400).
pub open spec fn post_header_refusal(
    origin: Option<Option<Seq<char>>>,
    host: Option<Option<Seq<char>>>,
    content_type: Option<Option<Seq<char>>>,
    version: Option<Option<Seq<char>>>,
) -> Option<(u16, Seq<char>)> {
    if !origin_allowed(origin, host) {
        Some((403, "Invalid Origin"@))
    } else {
        match content_type_verdict(content_type) {
            Err(ContentTypeError::NotJson) => Some((415, "Content-Type must be application/json"@)),
            Err(ContentTypeError::Invalid) => Some((415, "Invalid Content-Type"@)),
            Ok(()) => if !protocol_version_accepted(version) {
                Some((400, "Unsupported protocol version"@))
            } else {
                None
            },
        }
    }
}

/// Whether a refusal is the given status and message, or its absence.
pub open spec fn refusal_matches(r: core::result::Result<(), Refusal>, expected: Option<(u16, Seq<char>)>) -> bool {
    match (r, expected) {
        (Ok(()), None) => true,
        (Err(f), Some((s, m))) => is_refusal(f, s, m),
        _ => false,
    }
}

/// Check a POST's headers before its body is read.
pub fn admit_post(
    origin: Option<Option<&str>>,
    host: Option<Option<&str>>,
    content_type: Option<Option<&str>>,
    version: Option<Option<&str>>,
) -> (r: core::result::Result<(), Refusal>)
    ensures
        refusal_matches(
            r,
            post_header_refusal(
                header_view(origin),
                header_view(host),
                header_view(content_type),
                header_view(version),
            ),
        ),
{
    if !validate_origin(origin, host) {
        return Err(Refusal { status: 403, message: "Invalid Origin" });
    }
    match validate_json_content_type(content_type) {
        Err(e) => return Err(Refusal { status: 415, message: e.message() }),
        Ok(()) => {},
    }
    if !validate_protocol_version(version) {
        return Err(Refusal { status: 400, message: "Unsupported protocol version" });
    }
    Ok(())
}

/// The refusal a GET gets from its headers alone: Origin (403), then
/// protocol version (400).
pub open spec fn get_header_refusal(
    origin: Option<Option<Seq<char>>>,
    host: Option<Option<Seq<char>>>,
    version: Option<Option<Seq<char>>>,
) -> Option<(u16, Seq<char>)> {
    if !origin_allowed(origin, host) {
        Some((403, "Invalid Origin"@))
    } else if !protocol_version_accepted(version) {
        Some((400, "Unsupported protocol version"@))
    } else {
        None
    }
}

/// Check a GET's headers.
pub fn admit_get(
    origin: Option<Option<&str>>,
    host: Option<Option<&str>>,
    version: Option<Option<&str>>,
) -> (r: core::result::Result<(), Refusal>)
    ensures
        refusal_matches(
            r,
            get_header_refusal(header_view(origin), header_view(host), header_view(version)),
        ),
{
    if !validate_origin(origin, host) {
        return Err(Refusal { status: 403, message: "Invalid Origin" });
    }
    if !validate_protocol_version(version) {
        return Err(Refusal { status: 400, message: "Unsupported protocol version" });
    }
    Ok(())
}

/// The kind of a JSON-RPC message.
#[derive(Debug, Clone, Copy, PartialEq, Eq)]
pub enum MessageKind {
    /// A request expecting a response.
    Request,
    /// A notification with no response.
    Notification,
    /// A response to a request.
    Response,
}

/// What the POST handler does with a parsed message.
#[derive(Debug, Clone, Copy, PartialEq, Eq)]
pub enum PostRoute {
    /// Refuse the request.
    Refuse(Refusal),
    /// Start a new session for an `initialize` request (any client-supplied
    /// session id is ignored).
    Initialize,
    /// Forward the request to the session and answer with its response.
    AwaitResponse,
    /// Forward the notification or response to the session and answer
    /// `202 Accepted`.
    Accept,
}

/// The route of a parsed POST message, given its session header and whether
/// that session exists.
pub open spec fn post_route_spec(
    kind: MessageKind,
    is_initialize: bool,
    session_id_present: bool,
    session_known: bool,
) -> PostRoute {
    if kind == MessageKind::Request && is_initialize {
        PostRoute::Initialize
    } else if !session_id_present {
        PostRoute::Refuse(Refusal { status: 400, message: "Missing session ID" })
    } else if !session_known {
        PostRoute::Refuse(Refusal { status: 404, message: "Session not found" })
    } else if kind == MessageKind::Request {
        PostRoute::AwaitResponse
    } else {
        PostRoute::Accept
    }
}

/// Route a parsed POST message.
pub fn route_post(
    kind: MessageKind,
    is_initialize: bool,
    session_id_present: bool,
    session_known: bool,
) -> (r: PostRoute)
    ensures
        r == post_route_spec(kind, is_initialize, session_id_present, session_known),
{
    let is_request = matches!(kind, MessageKind::Request);
    if is_request && is_initialize {
        PostRoute::Initialize
    } else if !session_id_present {
        PostRoute::Refuse(Refusal { status: 400, message: "Missing session ID" })
    } else if !session_known {
        PostRoute::Refuse(Refusal { status: 404, message: "Session not found" })
    } else if is_request {
        PostRoute::AwaitResponse
    } else {
        PostRoute::Accept
    }
}

/// Route a GET for the standing SSE stream after its headers were admitted:
/// refused without a known session, otherwise the stream is opened.
pub fn route_get(session_id_present: bool, session_known: bool) -> (r: core::result::Result<
    (),
    Refusal,
>)
    ensures
        !session_id_present ==> (r matches Err(f) && is_refusal(f, 400, "Missing session ID"@)),
        session_id_present && !session_known ==> (r matches Err(f) && is_refusal(
            f,
            404,
            "Session not found"@,
        )),
        session_id_present && session_known ==> r is Ok,
{
    if !session_id_present {
        Err(Refusal { status: 400, message: "Missing session ID" })
    } else if !session_known {
        Err(Refusal { status: 404, message: "Session not found" })
    } else {
        Ok(())
    }
}

/// How an `initialize` POST is answered once the session's connection loop
/// replied (`Some(is_error)`) or went away (`None`).
#[derive(Debug, Clone, Copy, PartialEq, Eq)]
pub enum InitializeOutcome {
    /// Return the response with the new `Mcp-Session-Id` header; the session
    /// stays.
    Established,
    /// Return the error response without a session header; the session is
    /// removed.
    Failed,
    /// `500 No response from server`; the session is removed.
    NoResponse,
}

/// Decide how an `initialize` POST is answered.
pub fn initialize_outcome(reply: Option<bool>) -> (r: InitializeOutcome)
    ensures
        r == match reply {
            Some(false) => InitializeOutcome::Established,
            Some(true) => InitializeOutcome::Failed,
            None => InitializeOutcome::NoResponse,
        },
{
    match reply {
        Some(false) => InitializeOutcome::Established,
        Some(true) => InitializeOutcome::Failed,
        None => InitializeOutcome::NoResponse,
    }
}

/// An `initialize` request always opens a new session, whatever session
/// header it carries; any other message needs a known session.
pub proof fn lemma_initialize_ignores_session(
    session_id_present: bool,
    session_known: bool,
    kind: MessageKind,
    is_initialize: bool,
)
    ensures
        post_route_spec(MessageKind::Request, true, session_id_present, session_known)
            == PostRoute::Initialize,
        !(kind == MessageKind::Request && is_initialize) && !session_known ==> post_route_spec(
            kind,
            is_initialize,
            session_id_present,
            session_known,
        ) is Refuse,
{
}

/// How a POSTed request is answered once it was handed to its session's
/// connection loop.
#[derive(Debug, Clone, Copy, PartialEq, Eq)]
pub enum RequestReply {
    /// The session's loop is gone: the session is removed and the POST
    /// refused.
    Terminated(Refusal),
    /// The loop answered: the response is returned as JSON.
    Respond,
    /// The answer was suppressed (the request was cancelled, or the session
    /// shut down first): `202 Accepted`.
    Accepted,
}

/// Decide how a POSTed request is answered: whether the message reached the
/// session's loop, and then whether a response came back.
pub fn request_reply(delivered: bool, answered: bool) -> (r: RequestReply)
    ensures
        !delivered ==> (r matches RequestReply::Terminated(f) && is_refusal(f, 404, "Session terminated"@)),
        delivered && answered ==> r == RequestReply::Respond,
        delivered && !answered ==> r == RequestReply::Accepted,
{
    if !delivered {
        RequestReply::Terminated(Refusal { status: 404, message: "Session terminated" })
    } else if answered {
        RequestReply::Respond
    } else {
        RequestReply::Accepted
    }
}

/// The refusal of an `initialize` POST before it reaches a new session, if
/// any: the message must be a request (`400 Invalid initialize message`),
/// and the session's connection must start (`500 Failed to start session`).
pub fn initialize_start_refusal(is_request: bool, started: bool) -> (r: core::result::Result<(), Refusal>)
    ensures
        !is_request ==> (r matches Err(f) && is_refusal(f, 400, "Invalid initialize message"@)),
        is_request && !started ==> (r matches Err(f) && is_refusal(f, 500, "Failed to start session"@)),
        is_request && started ==> r is Ok,
{
    if !is_request {
        Err(Refusal { status: 400, message: "Invalid initialize message" })
    } else if !started {
        Err(Refusal { status: 500, message: "Failed to start session" })
    } else {
        Ok(())
    }
}

} // verus!
