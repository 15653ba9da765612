//! Correlation of outgoing requests with incoming responses: request id
//! allocation, the table of requests waiting for a response, and what a
//! wait ends in (a response, an error, a timeout or a cancellation).

use vstd::prelude::*;



use crate::error::Error;
use crate::json::{JsonObject, JsonValue};
use crate::schema::jsonrpc::{
    request_key, ErrorObject, JSONRPCError, JSONRPCRequest, JSONRPCResult, JSONRPCResultResponse,
    NotificationParams, Request, RequestId, RequestIdView, RequestParams, INVALID_PARAMS,
    JSONRPC_VERSION, METHOD_NOT_FOUND,
};
use crate::text::{decimal, decimal_int, format_i64, format_u64, lemma_decimal_digits, owned, push_all};

verus! {

/// Default request timeout in milliseconds (30 seconds).
pub const DEFAULT_TIMEOUT_MS: u64 = 30_000;

/// Types that name the JSON-RPC method of the request they stand for.
pub trait RequestMethod {
    /// Return the JSON-RPC method name for this request type.
    fn method(&self) -> &'static str;
}

/// What a request waiting for an answer receives: a result or an error.
#[derive(Debug, Clone)]
pub enum ResponseOrError {
    /// Successful JSON-RPC response payload.
    Response(JSONRPCResultResponse),
    /// JSON-RPC error payload.
    Error(JSONRPCError),
}

/// Keys of a table of waiting requests, compared by their abstract value.
pub trait PendingKey: View + Sized {
    /// Whether two keys are the same.
    fn same_key(&self, other: &Self) -> (r: bool)
        ensures
            r == (self@ == other@),
    ;
}

impl PendingKey for String {
    fn same_key(&self, other: &Self) -> (r: bool) {
        *self == *other
    }
}

impl PendingKey for RequestId {
    fn same_key(&self, other: &Self) -> (r: bool) {
        match (self, other) {
            (RequestId::String(a), RequestId::String(b)) => *a == *b,
            (RequestId::Number(a), RequestId::Number(b)) => *a == *b,
            _ => false,
        }
    }
}

/// The map a list of (key, waiter) entries stands for: each entry sets its
/// key, later entries overriding earlier ones.
pub open spec fn waiter_map<K: View, W>(s: Seq<(K, W)>) -> Map<K::V, W>
    decreases s.len(),
{
    if s.len() == 0 {
        Map::empty()
    } else {
        waiter_map(s.drop_last()).insert(s.last().0@, s.last().1)
    }
}

/// The entries whose key is not `key`, in order.
pub open spec fn waiters_without<K: View, W>(s: Seq<(K, W)>, key: K::V) -> Seq<(K, W)>
    decreases s.len(),
{
    if s.len() == 0 {
        s
    } else if s.last().0@ == key {
        waiters_without(s.drop_last(), key)
    } else {
        waiters_without(s.drop_last(), key).push(s.last())
    }
}

proof fn lemma_waiters_without<K: View, W>(s: Seq<(K, W)>, key: K::V)
    ensures
        waiter_map(waiters_without(s, key)) == waiter_map(s).remove(key),
    decreases s.len(),
{
    if s.len() > 0 {
        lemma_waiters_without(s.drop_last(), key);
        let rest = waiters_without(s.drop_last(), key);
        if s.last().0@ != key {
            assert(rest.push(s.last()).drop_last() == rest);
        }
        assert(waiter_map(waiters_without(s, key)) =~= waiter_map(s).remove(key));
    }
}

/// Requests waiting for an answer, by key; `W` is whatever hands the answer
/// to the waiting caller.
pub struct PendingRequests<K, W> {
    entries: Vec<(K, W)>,
}

impl<K: View, W> View for PendingRequests<K, W> {
    type V = Map<K::V, W>;

    closed spec fn view(&self) -> Map<K::V, W> {
        waiter_map(self.entries@)
    }
}

impl<K: PendingKey, W> PendingRequests<K, W> {
    /// No request is waiting.
    pub fn new() -> (r: Self)
        ensures
            r@ == Map::<K::V, W>::empty(),
    {
        PendingRequests { entries: Vec::new() }
    }

    /// Take out the entries with the given key, in order, and the waiter of
    /// the last of them.
    fn split_out(entries: Vec<(K, W)>, key: &K) -> (r: (Vec<(K, W)>, Option<W>))
        ensures
            r.0@ == waiters_without(entries@, key@),
            match r.1 {
                Some(w) => waiter_map(entries@).contains_key(key@) && waiter_map(entries@)[key@]
                    == w,
                None => !waiter_map(entries@).contains_key(key@),
            },
    {
        let ghost all = entries@;
        let mut out: Vec<(K, W)> = Vec::new();
        let mut found: Option<W> = None;
        for e in it: entries
            invariant
                it.seq() == all,
                out@ == waiters_without(all.take(it.index() as int), key@),
                match found {
                    Some(w) => waiter_map(all.take(it.index() as int)).contains_key(key@)
                        && waiter_map(all.take(it.index() as int))[key@] == w,
                    None => !waiter_map(all.take(it.index() as int)).contains_key(key@),
                },
        {
            let ghost i = it.index() as int;
            assert(all.take(i + 1).drop_last() == all.take(i));
            assert(all.take(i + 1).last() == e);
            let (k, w) = e;
            if k.same_key(key) {
                found = Some(w);
            } else {
                out.push((k, w));
            }
        }
        assert(all.take(all.len() as int) == all);
        (out, found)
    }

    /// Register a waiter under a key, replacing any waiter already there.
    pub fn insert(&mut self, key: K, waiter: W)
        ensures
            final(self)@ == old(self)@.insert(key@, waiter),
    {
        let mut entries: Vec<(K, W)> = Vec::new();
        core::mem::swap(&mut entries, &mut self.entries);
        let (mut rest, _) = Self::split_out(entries, &key);
        proof {
            lemma_waiters_without(old(self).entries@, key@);
        }
        let ghost before = rest@;
        let ghost kv = key@;
        rest.push((key, waiter));
        assert(rest@.drop_last() == before);
        self.entries = rest;
        assert(self@ =~= old(self)@.insert(kv, waiter));
    }

    /// Remove the waiter registered under a key and return it, if any.
    pub fn remove(&mut self, key: &K) -> (r: Option<W>)
        ensures
            final(self)@ == old(self)@.remove(key@),
            match r {
                Some(w) => old(self)@.contains_key(key@) && old(self)@[key@] == w,
                None => !old(self)@.contains_key(key@),
            },
    {
        let mut entries: Vec<(K, W)> = Vec::new();
        core::mem::swap(&mut entries, &mut self.entries);
        let (rest, found) = Self::split_out(entries, key);
        proof {
            lemma_waiters_without(old(self).entries@, key@);
        }
        self.entries = rest;
        found
    }

    /// Whether a waiter is registered under a key.
    pub fn contains(&self, key: &K) -> (r: bool)
        ensures
            r == self@.contains_key(key@),
    {
        let mut i: usize = 0;
        let mut found = false;
        while i < self.entries.len()
            invariant
                i <= self.entries.len(),
                found == waiter_map(self.entries@.take(i as int)).contains_key(key@),
            decreases self.entries.len() - i,
        {
            assert(self.entries@.take(i + 1).drop_last() == self.entries@.take(i as int));
            if self.entries[i].0.same_key(key) {
                found = true;
            }
            i = i + 1;
        }
        assert(self.entries@.take(self.entries.len() as int) == self.entries@);
        found
    }

    /// Whether no request is waiting.
    pub fn is_empty(&self) -> (r: bool)
        ensures
            r == (self@ == Map::<K::V, W>::empty()),
    {
        if self.entries.len() == 0 {
            assert(self@ =~= Map::<K::V, W>::empty());
            true
        } else {
            assert(self@.contains_key(self.entries@.last().0@));
            false
        }
    }
}

/// The error a JSON-RPC error answer to a request for `method` turns into:
/// an unknown method, invalid params (prefixed with the method), or a
/// protocol error quoting the code.
pub open spec fn is_decoded_error(e: Error, method: Seq<char>, error: ErrorObject) -> bool {
    if error.code == METHOD_NOT_FOUND {
        e matches Error::MethodNotFound(m) && m@ == error.message@
    } else if error.code == INVALID_PARAMS {
        e matches Error::InvalidParams(m) && m@ == method + ": "@ + error.message@
    } else {
        e matches Error::Protocol(m) && m@ == "JSON-RPC error "@ + decimal_int(error.code as int)
            + ": "@ + error.message@
    }
}

/// The error for a JSON-RPC error answer to a request for `method`.
pub fn decode_error(method: &str, error: &ErrorObject) -> (e: Error)
    ensures
        is_decoded_error(e, method@, *error),
{
    if error.code == METHOD_NOT_FOUND {
        Error::MethodNotFound(error.message.clone())
    } else if error.code == INVALID_PARAMS {
        let mut m = owned(method);
        push_all(&mut m, ": ");
        push_all(&mut m, error.message.as_str());
        Error::InvalidParams(m)
    } else {
        let mut m = owned("JSON-RPC error ");
        let code = format_i64(error.code as i64);
        push_all(&mut m, code.as_str());
        push_all(&mut m, ": ");
        push_all(&mut m, error.message.as_str());
        Error::Protocol(m)
    }
}

/// Decode an answer to a request for `method`: a result is handed on (its
/// fields are turned into the caller's type elsewhere), an error becomes the
/// matching [`Error`].
pub fn decode_response(method: &str, response: ResponseOrError) -> (r: core::result::Result<
    JSONRPCResult,
    Error,
>)
    ensures
        match response {
            ResponseOrError::Response(resp) => r == Ok::<JSONRPCResult, Error>(resp.result),
            ResponseOrError::Error(err) => r matches Err(e) && is_decoded_error(
                e,
                method@,
                err.error,
            ),
        },
{
    match response {
        ResponseOrError::Response(resp) => Ok(resp.result),
        ResponseOrError::Error(err) => Err(decode_error(method, &err.error)),
    }
}

/// How waiting for the answer to a request ended.
#[derive(Debug, Clone)]
pub enum WaitOutcome {
    /// The answer arrived.
    Answered(ResponseOrError),
    /// The channel to the waiting caller closed before an answer arrived.
    ChannelClosed,
    /// The timeout expired first.
    TimedOut,
    /// The handler was shut down while the request was waiting.
    Cancelled,
}

/// The text of a request id allocated from a prefix and a counter value.
pub open spec fn allocated_id(prefix: Seq<char>, n: u64) -> Seq<char> {
    prefix + "-"@ + decimal(n as nat)
}

/// Allocation of request ids and the table of requests waiting for an
/// answer; `W` is whatever hands an answer to the waiting caller.
pub struct RequestHandler<W> {
    pending_requests: PendingRequests<String, W>,
    next_request_id: u64,
    id_prefix: String,
    timeout_ms: u64,
}

impl<W> RequestHandler<W> {
    /// The requests waiting for an answer, by key.
    pub closed spec fn pending(&self) -> Map<Seq<char>, W> {
        self.pending_requests@
    }

    /// The counter value the next request id is made from.
    pub closed spec fn counter(&self) -> u64 {
        self.next_request_id
    }

    /// The prefix of the request ids.
    pub closed spec fn prefix(&self) -> Seq<char> {
        self.id_prefix@
    }

    /// How long a request waits for its answer, in milliseconds.
    pub closed spec fn timeout(&self) -> u64 {
        self.timeout_ms
    }

    /// A handler with no pending request whose ids are `{prefix}-1`,
    /// `{prefix}-2`, ... and whose requests time out after the default
    /// timeout.
    pub fn new(id_prefix: String) -> (r: Self)
        ensures
            r.pending() == Map::<Seq<char>, W>::empty(),
            r.counter() == 1,
            r.prefix() == id_prefix@,
            r.timeout() == DEFAULT_TIMEOUT_MS,
    {
        RequestHandler {
            pending_requests: PendingRequests::new(),
            next_request_id: 1,
            id_prefix,
            timeout_ms: DEFAULT_TIMEOUT_MS,
        }
    }

    /// The request timeout in milliseconds.
    pub fn timeout_ms(&self) -> (t: u64)
        ensures
            t == self.timeout(),
    {
        self.timeout_ms
    }

    /// Generate the next request id, `{prefix}-{n}`; the counter wraps
    /// around after its largest value.
    pub fn next_request_id(&mut self) -> (id: String)
        ensures
            id@ == allocated_id(old(self).prefix(), old(self).counter()),
            final(self).counter() == if old(self).counter() == u64::MAX {
                0
            } else {
                (old(self).counter() + 1) as u64
            },
            final(self).pending() == old(self).pending(),
            final(self).prefix() == old(self).prefix(),
            final(self).timeout() == old(self).timeout(),
    {
        let n = self.next_request_id;
        self.next_request_id = n.wrapping_add(1);
        let mut id = self.id_prefix.clone();
        push_all(&mut id, "-");
        let digits = format_u64(n);
        push_all(&mut id, digits.as_str());
        id
    }

    /// Register a request as waiting for its answer under its id.
    pub fn register(&mut self, id: String, waiter: W)
        ensures
            final(self).pending() == old(self).pending().insert(id@, waiter),
            final(self).counter() == old(self).counter(),
            final(self).prefix() == old(self).prefix(),
            final(self).timeout() == old(self).timeout(),
    {
        self.pending_requests.insert(id, waiter);
    }

    /// Stop waiting for the answer to a request (its message could not be
    /// sent, it timed out, or it was cancelled).
    pub fn forget(&mut self, id: &str)
        ensures
            final(self).pending() == old(self).pending().remove(id@),
            final(self).counter() == old(self).counter(),
            final(self).prefix() == old(self).prefix(),
            final(self).timeout() == old(self).timeout(),
    {
        let key = owned(id);
        let _ = self.pending_requests.remove(&key);
    }

    /// Take the waiter of the request with the given key, if one waits.
    fn take_waiter(&mut self, key: &String) -> (r: Option<W>)
        ensures
            final(self).pending() == old(self).pending().remove(key@),
            final(self).counter() == old(self).counter(),
            final(self).prefix() == old(self).prefix(),
            final(self).timeout() == old(self).timeout(),
            match r {
                Some(w) => old(self).pending().contains_key(key@) && old(self).pending()[key@] == w,
                None => !old(self).pending().contains_key(key@),
            },
    {
        self.pending_requests.remove(key)
    }

    /// Handle a result from the remote side: the request it answers, found
    /// by its normalized id, stops waiting, and its waiter is returned with
    /// the answer to hand over; an answer nobody waits for is dropped.
    pub fn handle_response(&mut self, response: JSONRPCResultResponse) -> (r: Option<
        (W, ResponseOrError),
    >)
        ensures
            final(self).pending() == old(self).pending().remove(request_key(response.id@)),
            final(self).counter() == old(self).counter(),
            final(self).prefix() == old(self).prefix(),
            final(self).timeout() == old(self).timeout(),
            match r {
                Some((w, answer)) => old(self).pending().contains_key(request_key(response.id@))
                    && old(self).pending()[request_key(response.id@)] == w && answer
                    == ResponseOrError::Response(response),
                None => !old(self).pending().contains_key(request_key(response.id@)),
            },
    {
        let key = response.id.to_key();
        match self.take_waiter(&key) {
            Some(w) => Some((w, ResponseOrError::Response(response))),
            None => None,
        }
    }

    /// Handle an error from the remote side, as [`Self::handle_response`]
    /// does; an error without a request id answers no request.
    pub fn handle_error(&mut self, error: JSONRPCError) -> (r: Option<(W, ResponseOrError)>)
        ensures
            final(self).counter() == old(self).counter(),
            final(self).prefix() == old(self).prefix(),
            final(self).timeout() == old(self).timeout(),
            match error.id {
                None => r is None && final(self).pending() == old(self).pending(),
                Some(id) => final(self).pending() == old(self).pending().remove(request_key(id@))
                    && match r {
                    Some((w, answer)) => old(self).pending().contains_key(request_key(id@))
                        && old(self).pending()[request_key(id@)] == w && answer
                        == ResponseOrError::Error(error),
                    None => !old(self).pending().contains_key(request_key(id@)),
                },
            },
    {
        let key = match &error.id {
            Some(id) => id.to_key(),
            None => return None,
        };
        match self.take_waiter(&key) {
            Some(w) => Some((w, ResponseOrError::Error(error))),
            None => None,
        }
    }

    /// Finish waiting for the answer to the request `id` for `method`: an
    /// answer is decoded; otherwise the request stops waiting and fails with
    /// a protocol error (closed channel), a timeout or a cancellation.
    pub fn process_response_result(&mut self, id: String, method: &str, outcome: WaitOutcome) -> (r:
        core::result::Result<JSONRPCResult, Error>)
        ensures
            final(self).counter() == old(self).counter(),
            final(self).prefix() == old(self).prefix(),
            final(self).timeout() == old(self).timeout(),
            match outcome {
                WaitOutcome::Answered(answer) => final(self).pending() == old(self).pending()
                    && match answer {
                    ResponseOrError::Response(resp) => r == Ok::<JSONRPCResult, Error>(resp.result),
                    ResponseOrError::Error(err) => r matches Err(e) && is_decoded_error(
                        e,
                        method@,
                        err.error,
                    ),
                },
                WaitOutcome::ChannelClosed => final(self).pending() == old(self).pending().remove(
                    id@,
                ) && (r matches Err(Error::Protocol(m)) && m@
                    == "Response channel closed unexpectedly"@),
                WaitOutcome::TimedOut => final(self).pending() == old(self).pending().remove(id@)
                    && (r matches Err(Error::Timeout { request_id, timeout_ms }) && request_id@
                    == id@ && timeout_ms == old(self).timeout()),
                WaitOutcome::Cancelled => final(self).pending() == old(self).pending().remove(id@)
                    && (r matches Err(Error::Cancelled { request_id }) && request_id@ == id@),
            },
    {
        match outcome {
            WaitOutcome::Answered(answer) => decode_response(method, answer),
            WaitOutcome::ChannelClosed => {
                self.forget(id.as_str());
                Err(Error::Protocol(owned("Response channel closed unexpectedly")))
            },
            WaitOutcome::TimedOut => {
                self.forget(id.as_str());
                Err(Error::Timeout { request_id: id, timeout_ms: self.timeout_ms })
            },
            WaitOutcome::Cancelled => {
                self.forget(id.as_str());
                Err(Error::Cancelled { request_id: id })
            },
        }
    }
}

/// The fields of a JSON value that is an object; none for any other value.
pub open spec fn object_fields(v: JsonValue) -> Seq<(Seq<char>, JsonValue)> {
    match v {
        JsonValue::Object(o) => o@,
        _ => Seq::empty(),
    }
}

/// The fields of a JSON object, or no fields for any other JSON value.
fn object_fields_or_empty(v: JsonValue) -> (r: JsonObject)
    ensures
        r@ == object_fields(v),
{
    match v {
        JsonValue::Object(fields) => fields,
        _ => JsonObject::new(),
    }
}

/// Build the JSON-RPC request with the given id for a request of `method`
/// whose serialized form is `serialized`: its fields become the params.
pub fn build_request(id: &str, method: &str, serialized: JsonValue) -> (r: JSONRPCRequest)
    ensures
        r.jsonrpc@ == JSONRPC_VERSION@,
        r.id@ == RequestIdView::Text(id@),
        r.request.method@ == method@,
        r.request.params matches Some(p) && p._meta is None && p.other@ == object_fields(serialized),
{
    JSONRPCRequest {
        jsonrpc: owned(JSONRPC_VERSION),
        id: RequestId::String(owned(id)),
        request: Request {
            method: owned(method),
            params: Some(RequestParams { _meta: None, other: object_fields_or_empty(serialized) }),
        },
    }
}

/// The params of a notification sent with the given JSON params: the
/// fields of an object, no fields for any other value, and no params at
/// all without a value.
pub fn notification_params(params: Option<JsonValue>) -> (r: Option<NotificationParams>)
    ensures
        params is None <==> r is None,
        r matches Some(p) ==> p._meta is None && p.other@ == object_fields(params->0),
{
    match params {
        Some(v) => Some(NotificationParams { _meta: None, other: object_fields_or_empty(v) }),
        None => None,
    }
}

/// Request ids never repeat while the counter does not wrap around: ids
/// allocated from different counter values differ.
pub proof fn lemma_allocated_ids_distinct(prefix: Seq<char>, a: u64, b: u64)
    requires
        a != b,
    ensures
        allocated_id(prefix, a) != allocated_id(prefix, b),
{
    lemma_decimal_digits(a as nat);
    lemma_decimal_digits(b as nat);
    reveal_strlit("-");
    if allocated_id(prefix, a) == allocated_id(prefix, b) {
        let n: int = prefix.len() as int + 1;
        assert(allocated_id(prefix, a).subrange(n, allocated_id(prefix, a).len() as int)
            =~= decimal(a as nat));
        assert(allocated_id(prefix, b).subrange(n, allocated_id(prefix, b).len() as int)
            =~= decimal(b as nat));
    }
}

/// An answer reaches the request waiting under its key exactly once: right
/// after a request registers, an answer with its key hands over its waiter,
/// and a second answer with that key finds nothing; answers for other keys
/// leave it waiting.
pub proof fn lemma_answer_delivered_once<W>(
    pending: Map<Seq<char>, W>,
    key: Seq<char>,
    waiter: W,
    other: Seq<char>,
)
    requires
        other != key,
    ensures
        pending.insert(key, waiter).contains_key(key),
        pending.insert(key, waiter)[key] == waiter,
        !pending.insert(key, waiter).remove(key).contains_key(key),
        pending.insert(key, waiter).remove(other).contains_key(key),
        pending.insert(key, waiter).remove(other)[key] == waiter,
{
}

} // verus!
