//! Building JSON-RPC envelopes: error responses, result responses and
//! notifications.

use serde_json::Value;
use vstd::prelude::*;

use crate::error::{error_text, response_code, Error};
use crate::schema::jsonrpc::{
    is_error_response, ErrorObject, JSONRPCErrorResponse, JSONRPCMessage, JSONRPCNotification,
    JSONRPCResponse, JSONRPCResult, JSONRPCResultResponse, Notification, NotificationParams,
    RequestId, INTERNAL_ERROR, JSONRPC_VERSION,
};
use crate::json::{field_position, field_value, without_field, JsonObject, JsonValue};
use crate::text::owned;

verus! {

/// Create a JSON-RPC error response for a request; the code is narrowed to
/// the 32 bits of the error object.
pub fn create_jsonrpc_error(id: RequestId, code: i64, message: String, data: Option<Value>) -> (r:
    JSONRPCErrorResponse)
    ensures
        r.jsonrpc@ == JSONRPC_VERSION@,
        r.id matches Some(i) && i@ == id@,
        r.error.code == code as i32,
        r.error.message == message,
        r.error.data == data,
{
    JSONRPCErrorResponse {
        jsonrpc: owned(JSONRPC_VERSION),
        id: Some(id),
        error: ErrorObject { code: code as i32, message, data },
    }
}

/// The fields of a successful result: those of the value when it is an
/// object, otherwise the value alone under `result`.
pub open spec fn result_fields(v: JsonValue) -> Seq<(Seq<char>, JsonValue)> {
    match v {
        JsonValue::Object(o) => o@,
        _ => seq![("result"@, v)],
    }
}

/// Turn the outcome of a request handler into the JSON-RPC response to the
/// request with `id`: a successful result carries the fields of `value`
/// when it is a JSON object, or holds it under `result` otherwise; an error
/// becomes its error response.
pub fn result_to_jsonrpc_response(id: RequestId, result: core::result::Result<JsonValue, Error>) -> (r:
    JSONRPCMessage)
    ensures
        match result {
            Ok(v) => r matches JSONRPCMessage::Response(JSONRPCResponse::Result(resp))
                && resp.jsonrpc@ == JSONRPC_VERSION@ && resp.id@ == id@ && resp.result._meta is None
                && resp.result.other@ == result_fields(v),
            Err(e) => r matches JSONRPCMessage::Response(JSONRPCResponse::Error(resp))
                && is_error_response(resp, Some(id@), response_code(e), error_text(e)),
        },
{
    match result {
        Ok(value) => {
            let other = match value {
                JsonValue::Object(fields) => fields,
                v => {
                    let mut m = JsonObject::new();
                    let ghost vv = v;
                    m.insert(owned("result"), v);
                    proof {
                        reveal_strlit("result");
                        assert(field_position(Seq::<(Seq<char>, JsonValue)>::empty(), "result"@) is None);
                        assert(m@ =~= seq![("result"@, vv)]);
                    }
                    m
                },
            };
            JSONRPCMessage::Response(
                JSONRPCResponse::Result(
                    JSONRPCResultResponse {
                        jsonrpc: owned(JSONRPC_VERSION),
                        id,
                        result: JSONRPCResult { _meta: None, other },
                    },
                ),
            )
        },
        Err(e) => JSONRPCMessage::Response(JSONRPCResponse::Error(e.to_error_response(id))),
    }
}

/// Types of notifications, each with its JSON-RPC method name.
pub trait NotificationTrait {
    /// Return the JSON-RPC method name for this notification.
    fn method(&self) -> String;
}

/// The params a notification built from the serialized form `v` carries:
/// none unless `v` is an object; otherwise its fields without `method` and
/// `_meta`, with the fields of an object under `_meta` as metadata, and none
/// when neither fields nor metadata are left.
pub open spec fn notification_params_of(v: Option<JsonValue>) -> Option<(Option<Seq<(Seq<char>, JsonValue)>>, Seq<(Seq<char>, JsonValue)>)> {
    match v {
        Some(JsonValue::Object(o)) => {
            let rest = without_field(without_field(o@, "method"@), "_meta"@);
            let meta = match field_value(without_field(o@, "method"@), "_meta"@) {
                Some(JsonValue::Object(m)) => Some(m@),
                _ => None,
            };
            if rest.len() == 0 && meta is None {
                None
            } else {
                Some((meta, rest))
            }
        },
        _ => None,
    }
}

/// Build a JSON-RPC notification with the given method from the serialized
/// form of a typed notification: its fields other than `method` and `_meta`
/// become the params, and an object under `_meta` becomes their metadata;
/// there are no params when nothing is left.
pub fn create_jsonrpc_notification(method: String, serialized: Option<JsonValue>) -> (r:
    JSONRPCNotification)
    ensures
        r.jsonrpc@ == JSONRPC_VERSION@,
        r.notification.method == method,
        match (r.notification.params, notification_params_of(serialized)) {
            (None, None) => true,
            (Some(p), Some((meta, rest))) => p.other@ == rest && match (p._meta, meta) {
                (None, None) => true,
                (Some(a), Some(b)) => a@ == b,
                _ => false,
            },
            _ => false,
        },
{
    let params = match serialized {
        Some(JsonValue::Object(obj)) => {
            let mut obj = obj;
            let _ = obj.remove("method");
            let meta = match obj.remove("_meta") {
                Some(JsonValue::Object(fields)) => Some(fields),
                _ => None,
            };
            if obj.is_empty() && meta.is_none() {
                None
            } else {
                Some(NotificationParams { _meta: meta, other: obj })
            }
        },
        _ => None,
    };
    JSONRPCNotification { jsonrpc: owned(JSONRPC_VERSION), notification: Notification { method, params } }
}

} // verus!
