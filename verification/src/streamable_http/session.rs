//! Per-session state of the HTTP server: SSE event numbering and the routing
//! of outbound messages.

use vstd::prelude::*;

use crate::json::{field_value, number_as_i64, JsonObject, JsonValue};
use crate::request_handler::PendingRequests;
use crate::schema::jsonrpc::{
    JSONRPCMessage, JSONRPCNotification, JSONRPCResponse, RequestId, RequestIdView,
};
use crate::text::str_eq;

use super::validation::{header_view, last_event_id_of, parse_last_event_id};

verus! {

/// Monotonically increasing SSE event id source.
#[derive(Clone, Debug)]
pub struct EventCounter {
    /// The last id handed out (or the floor set by a reconnecting client).
    value: u64,
}

impl View for EventCounter {
    type V = nat;

    closed spec fn view(&self) -> nat {
        self.value as nat
    }
}

impl Default for EventCounter {
    fn default() -> (c: EventCounter)
        ensures
            c@ == 0,
    {
        EventCounter { value: 0 }
    }
}

impl EventCounter {
    /// Return the next event id: one more than every id handed out before
    /// and than the bumped floor.
    pub fn next(&mut self) -> (id: u64)
        requires
            old(self)@ < u64::MAX,
        ensures
            id == old(self)@ + 1,
            final(self)@ == id,
    {
        self.value = self.value + 1;
        self.value
    }

    /// Ensure the counter is at least `last_event_id`; a lower value has no
    /// effect.
    pub fn bump_to(&mut self, last_event_id: u64)
        ensures
            final(self)@ == if last_event_id > old(self)@ {
                last_event_id as nat
            } else {
                old(self)@
            },
    {
        if last_event_id > self.value {
            self.value = last_event_id;
        }
    }

    /// The last id handed out or the bumped floor.
    pub fn current(&self) -> (v: u64)
        ensures
            v == self@,
    {
        self.value
    }
}

/// Apply a `Last-Event-ID` header (absent, unreadable, or its text) to a
/// session's event counter: a decimal id raises the counter to it.
pub fn apply_last_event_id(header: Option<Option<&str>>, counter: &mut EventCounter)
    ensures
        final(counter)@ == match last_event_id_of(header_view(header)) {
            Some(id) => if id > old(counter)@ {
                id as nat
            } else {
                old(counter)@
            },
            None => old(counter)@,
        },
{
    if let Some(id) = parse_last_event_id(header) {
        counter.bump_to(id);
    }
}

/// How long a session may stay idle before it is removed, in nanoseconds
/// (one hour).
pub const SESSION_TIMEOUT_NANOS: u128 = 3_600_000_000_000;

/// The ids of the sessions idle for longer than the session timeout, in
/// order; each entry is a session id and how long it has been idle, in
/// nanoseconds.
pub open spec fn expired_ids(sessions: Seq<(String, u128)>) -> Seq<Seq<char>>
    decreases sessions.len(),
{
    if sessions.len() == 0 {
        Seq::empty()
    } else {
        let rest = expired_ids(sessions.drop_last());
        if sessions.last().1 > SESSION_TIMEOUT_NANOS {
            rest.push(sessions.last().0@)
        } else {
            rest
        }
    }
}

/// The sessions the periodic cleanup removes.
pub fn expired_sessions(sessions: &Vec<(String, u128)>) -> (r: Vec<String>)
    ensures
        r@.map_values(|s: String| s@) == expired_ids(sessions@),
{
    let mut out: Vec<String> = Vec::new();
    let mut i: usize = 0;
    while i < sessions.len()
        invariant
            i <= sessions.len(),
            out@.map_values(|s: String| s@) == expired_ids(sessions@.take(i as int)),
        decreases sessions.len() - i,
    {
        assert(sessions@.take(i + 1).drop_last() == sessions@.take(i as int));
        if sessions[i].1 > SESSION_TIMEOUT_NANOS {
            let ghost before = out@;
            out.push(sessions[i].0.clone());
            assert(out@.map_values(|s: String| s@) =~= before.map_values(|s: String| s@).push(
                sessions@[i as int].0@,
            ));
        }
        i = i + 1;
    }
    assert(sessions@.take(sessions.len() as int) == sessions@);
    out
}

/// Event ids never repeat or go back: an id handed out after the counter
/// was bumped to `floor` exceeds both `floor` and every earlier id.
pub proof fn lemma_event_ids_increase(before: nat, floor: nat, earlier_id: nat)
    requires
        earlier_id <= before,
    ensures
        ({
            let bumped = if floor > before {
                floor
            } else {
                before
            };
            bumped + 1 > floor && bumped + 1 > earlier_id
        }),
{
}

/// The id of the request a message answers, when it is a response that
/// names one.
pub open spec fn answered_id(message: JSONRPCMessage) -> Option<RequestIdView> {
    match message {
        JSONRPCMessage::Response(JSONRPCResponse::Result(r)) => Some(r.id@),
        JSONRPCMessage::Response(JSONRPCResponse::Error(e)) => match e.id {
            Some(id) => Some(id@),
            None => None,
        },
        _ => None,
    }
}

/// Where an outbound message of a session's connection loop goes.
#[derive(Debug)]
pub enum Routed<P> {
    /// To the POST request waiting for this response, through its waiter.
    Pending(P, JSONRPCMessage),
    /// To the standing GET SSE stream.
    Stream(JSONRPCMessage),
    /// Nowhere: no request waits for it and no stream is open.
    Dropped(JSONRPCMessage),
}

/// Routes outbound messages from a session's connection loop to the HTTP
/// request waiting for them, or to the standing SSE stream; `P` hands a
/// response to a waiting POST, `S` feeds the stream.
pub struct SessionRoutes<P, S> {
    pending: PendingRequests<RequestId, P>,
    stream_tx: Option<S>,
}

impl<P, S> SessionRoutes<P, S> {
    /// The POST requests waiting for their response, by request id.
    pub closed spec fn pending(&self) -> Map<RequestIdView, P> {
        self.pending@
    }

    /// The sender of the standing SSE stream, when one is open.
    pub closed spec fn stream(&self) -> Option<S> {
        self.stream_tx
    }

    /// No request waits and no stream is open.
    pub fn new() -> (r: Self)
        ensures
            r.pending() == Map::<RequestIdView, P>::empty(),
            r.stream() is None,
    {
        SessionRoutes { pending: PendingRequests::new(), stream_tx: None }
    }

    /// Register a POST request waiting for the response to `id`.
    pub fn add_pending(&mut self, id: RequestId, waiter: P)
        ensures
            final(self).pending() == old(self).pending().insert(id@, waiter),
            final(self).stream() == old(self).stream(),
    {
        self.pending.insert(id, waiter);
    }

    /// Stop waiting for the response to `id` (the POST went away).
    pub fn remove_pending(&mut self, id: &RequestId) -> (r: Option<P>)
        ensures
            final(self).pending() == old(self).pending().remove(id@),
            final(self).stream() == old(self).stream(),
            match r {
                Some(p) => old(self).pending().contains_key(id@) && old(self).pending()[id@] == p,
                None => !old(self).pending().contains_key(id@),
            },
    {
        self.pending.remove(id)
    }

    /// Whether no POST request waits for a response.
    pub fn no_pending(&self) -> (r: bool)
        ensures
            r == (self.pending() == Map::<RequestIdView, P>::empty()),
    {
        self.pending.is_empty()
    }

    /// Install a new standing SSE stream, replacing any previous one.
    pub fn set_stream(&mut self, tx: S)
        ensures
            final(self).stream() == Some(tx),
            final(self).pending() == old(self).pending(),
    {
        self.stream_tx = Some(tx);
    }

    /// Forget the standing stream (its receiver went away).
    pub fn close_stream(&mut self)
        ensures
            final(self).stream() is None,
            final(self).pending() == old(self).pending(),
    {
        self.stream_tx = None;
    }

    /// The sender of the standing stream, when one is open.
    pub fn stream_sender(&self) -> (r: Option<&S>)
        ensures
            match (r, self.stream()) {
                (Some(a), Some(b)) => *a == b,
                (None, None) => true,
                _ => false,
            },
    {
        match &self.stream_tx {
            Some(tx) => Some(tx),
            None => None,
        }
    }

    /// Deliver one outbound message from the connection loop: a response
    /// whose request waits goes to it (which then stops waiting); any other
    /// message goes to the open stream, or is dropped when none is open.
    pub fn deliver(&mut self, message: JSONRPCMessage) -> (r: Routed<P>)
        ensures
            final(self).stream() == old(self).stream(),
            match answered_id(message) {
                Some(id) if old(self).pending().contains_key(id) => final(self).pending()
                    == old(self).pending().remove(id) && r == Routed::Pending(
                    old(self).pending()[id],
                    message,
                ),
                _ => final(self).pending() == old(self).pending() && if old(self).stream() is Some {
                    r == Routed::<P>::Stream(message)
                } else {
                    r == Routed::<P>::Dropped(message)
                },
            },
    {
        let id = match &message {
            JSONRPCMessage::Response(JSONRPCResponse::Result(result)) => Some(result.id.clone()),
            JSONRPCMessage::Response(JSONRPCResponse::Error(error)) => match &error.id {
                Some(i) => Some(i.clone()),
                None => None,
            },
            _ => None,
        };
        if let Some(id) = id {
            if let Some(waiter) = self.pending.remove(&id) {
                return Routed::Pending(waiter, message);
            }
        }
        if self.stream_tx.is_some() {
            Routed::Stream(message)
        } else {
            Routed::Dropped(message)
        }
    }
}

/// The request id a JSON value names: a string, or an integer that fits in
/// 64 bits.
pub open spec fn request_id_of(v: JsonValue) -> Option<RequestIdView> {
    match v {
        JsonValue::String(s) => Some(RequestIdView::Text(s@)),
        JsonValue::Number(n) => match number_as_i64(n) {
            Some(i) => Some(RequestIdView::Num(i as int)),
            None => None,
        },
        _ => None,
    }
}

/// The request id a JSON value names (see `request_id_of`).
fn request_id_from_json(v: &JsonValue) -> (r: Option<RequestId>)
    ensures
        match (r, request_id_of(*v)) {
            (Some(a), Some(b)) => a@ == b,
            (None, None) => true,
            _ => false,
        },
{
    match v {
        JsonValue::String(s) => Some(RequestId::String(s.clone())),
        JsonValue::Number(n) => match n.as_i64() {
            Some(i) => Some(RequestId::Number(i)),
            None => None,
        },
        _ => None,
    }
}

/// The request id a notification cancels: for `notifications/cancelled`,
/// what its `requestId` param names; none for any other notification.
pub open spec fn cancelled_id_of(n: JSONRPCNotification) -> Option<RequestIdView> {
    if n.notification.method@ != "notifications/cancelled"@ {
        None
    } else {
        match n.notification.params {
            None => None,
            Some(p) => match field_value(p.other@, "requestId"@) {
                Some(v) => request_id_of(v),
                None => None,
            },
        }
    }
}

/// Return the request id cancelled by a `notifications/cancelled` message:
/// its `requestId` param read as a request id.
pub fn cancelled_request_id(notification: &JSONRPCNotification) -> (r: Option<RequestId>)
    ensures
        match (r, cancelled_id_of(*notification)) {
            (Some(a), Some(b)) => a@ == b,
            (None, None) => true,
            _ => false,
        },
{
    if !str_eq(notification.notification.method.as_str(), "notifications/cancelled") {
        return None;
    }
    let params = match &notification.notification.params {
        Some(p) => p,
        None => return None,
    };
    match params.other.get("requestId") {
        Some(value) => request_id_from_json(value),
        None => None,
    }
}

/// The session id metadata names under `sessionId`, when it is a string.
pub open spec fn meta_session_id(meta: Option<Seq<(Seq<char>, JsonValue)>>) -> Option<Seq<char>> {
    match meta {
        Some(m) => match field_value(m, "sessionId"@) {
            Some(JsonValue::String(s)) => Some(s@),
            _ => None,
        },
        None => None,
    }
}

/// The session id a metadata map names under `sessionId`, when it is a
/// string.
fn session_id_from_meta(meta: Option<&JsonObject>) -> (r: Option<String>)
    ensures
        match (r, meta_session_id(match meta {
            Some(m) => Some(m@),
            None => None,
        })) {
            (Some(a), Some(b)) => a@ == b,
            (None, None) => true,
            _ => false,
        },
{
    match meta {
        Some(map) => match map.get("sessionId") {
            Some(JsonValue::String(s)) => Some(s.clone()),
            _ => None,
        },
        None => None,
    }
}

/// The session id a message carries in its metadata: a request's
/// `params._meta.sessionId`, or a notification's; responses carry none.
pub open spec fn message_session(message: JSONRPCMessage) -> Option<Seq<char>> {
    match message {
        JSONRPCMessage::Request(q) => match q.request.params {
            Some(p) => match p._meta {
                Some(meta) => meta_session_id(Some(meta.other@)),
                None => None,
            },
            None => None,
        },
        JSONRPCMessage::Notification(n) => match n.notification.params {
            Some(p) => meta_session_id(match p._meta {
                Some(m) => Some(m@),
                None => None,
            }),
            None => None,
        },
        JSONRPCMessage::Response(_) => None,
    }
}

/// The session id a message carries in its metadata (see `message_session`).
pub fn message_session_id(message: &JSONRPCMessage) -> (r: Option<String>)
    ensures
        match (r, message_session(*message)) {
            (Some(a), Some(b)) => a@ == b,
            (None, None) => true,
            _ => false,
        },
{
    match message {
        JSONRPCMessage::Request(q) => match &q.request.params {
            Some(p) => match &p._meta {
                Some(meta) => session_id_from_meta(Some(&meta.other)),
                None => None,
            },
            None => None,
        },
        JSONRPCMessage::Notification(n) => match &n.notification.params {
            Some(p) => session_id_from_meta(p._meta.as_ref()),
            None => None,
        },
        JSONRPCMessage::Response(_) => None,
    }
}

/// A request names its session in its metadata: when the `_meta` of its
/// params holds the string `s` under `sessionId`, the message goes to
/// session `s`, whatever sessions are active.
pub proof fn lemma_request_metadata_names_session(message: JSONRPCMessage, s: String)
    requires
        message is Request,
        message->Request_0.request.params is Some,
        message->Request_0.request.params->0._meta is Some,
        field_value(message->Request_0.request.params->0._meta->0.other@, "sessionId"@) == Some(
            JsonValue::String(s),
        ),
    ensures
        message_session(message) == Some(s@),
{
}

/// A notification names its session the same way, in the `_meta` of its
/// params.
pub proof fn lemma_notification_metadata_names_session(message: JSONRPCMessage, s: String)
    requires
        message is Notification,
        message->Notification_0.notification.params is Some,
        message->Notification_0.notification.params->0._meta is Some,
        field_value(message->Notification_0.notification.params->0._meta->0@, "sessionId"@) == Some(
            JsonValue::String(s),
        ),
    ensures
        message_session(message) == Some(s@),
{
}

/// A message names a session only by a string `sessionId` in its metadata:
/// a response names none, and a request or notification without that string
/// names none.
pub proof fn lemma_session_named_only_by_metadata(message: JSONRPCMessage)
    ensures
        message is Response ==> message_session(message) is None,
        (message is Request && message_session(message) is Some) ==> (message->Request_0.request.params
            is Some && message->Request_0.request.params->0._meta is Some && (field_value(
            message->Request_0.request.params->0._meta->0.other@,
            "sessionId"@,
        ) matches Some(JsonValue::String(t)) && t@ == message_session(message)->0)),
        (message is Notification && message_session(message) is Some) ==> (
        message->Notification_0.notification.params is Some
            && message->Notification_0.notification.params->0._meta is Some && (field_value(
            message->Notification_0.notification.params->0._meta->0@,
            "sessionId"@,
        ) matches Some(JsonValue::String(t)) && t@ == message_session(message)->0)),
{
}

/// The session an outbound message goes to when it names none: the only
/// active session, if exactly one is active.
pub open spec fn fallback_session(active: Seq<String>) -> Option<Seq<char>> {
    if active.len() == 1 {
        Some(active[0]@)
    } else {
        None
    }
}

/// The session an outbound message goes to: the one it names, else the only
/// active session when exactly one is active.
pub fn resolve_session_id(own: Option<String>, active: &Vec<String>) -> (r: Option<String>)
    ensures
        match own {
            Some(s) => r == Some(s),
            None => match (r, fallback_session(active@)) {
                (Some(x), Some(y)) => x@ == y,
                (None, None) => true,
                _ => false,
            },
        },
{
    match own {
        Some(s) => Some(s),
        None => {
            if active.len() == 1 {
                Some(active[0].clone())
            } else {
                None
            }
        },
    }
}

/// The session an outbound message goes to: the one its metadata names,
/// else the only active session, if exactly one is active.
pub fn resolve_session_id_for_message(message: &JSONRPCMessage, active: &Vec<String>) -> (r: Option<String>)
    ensures
        message_session(*message) matches Some(s) ==> (r matches Some(x) && x@ == s),
        message_session(*message) is None ==> match (r, fallback_session(active@)) {
            (Some(x), Some(y)) => x@ == y,
            (None, None) => true,
            _ => false,
        },
{
    let own = message_session_id(message);
    resolve_session_id(own, active)
}

} // verus!
