
use tmcp::auth::oauth_client::parse_callback_query;
use tmcp::json::{JsonNumber, JsonObject, JsonValue};
use tmcp::auth::server::WwwAuthenticate;
use tmcp::macro_model::{default_server_name, extract_doc_comment};
use tmcp::schema::jsonrpc::{
    JSONRPCMessage, JSONRPCNotification, JSONRPCResponse, JSONRPCResult, JSONRPCResultResponse,
    Notification, NotificationParams, RequestId, AUTHORIZATION_FAILED, JSONRPC_VERSION,
};
use tmcp::schema::requests::CompleteContext;
use tmcp::streamable_http::client::forward_status_error;
use tmcp::streamable_http::session::{
    apply_last_event_id, cancelled_request_id, EventCounter, Routed, SessionRoutes,
};
use tmcp::streamable_http::validation::validate_origin;

#[test]
fn callback_query_surfaces_oauth_errors() {
    let err = parse_callback_query(Some(
        "error=access_denied&error_description=User%20cancelled",
    ))
    .unwrap_err();
    assert!(err.to_string().contains("access_denied"));
    assert!(err.to_string().contains("User cancelled"));
}

#[test]
fn www_authenticate_formats_bearer_challenge() {
    let header =
        WwwAuthenticate::bearer_challenge("/.well-known/oauth-protected-resource").unwrap();
    assert_eq!(
        header.to_str().unwrap(),
        "Bearer resource_metadata=\"/.well-known/oauth-protected-resource\""
    );
}

#[test]
fn www_authenticate_formats_insufficient_scope_challenge() {
    let header = WwwAuthenticate::insufficient_scope_challenge(
        "/.well-known/oauth-protected-resource/mcp",
        "tools:call",
    )
    .unwrap();
    assert_eq!(
        header.to_str().unwrap(),
        "Bearer resource_metadata=\"/.well-known/oauth-protected-resource/mcp\", error=\"insufficient_scope\", scope=\"tools:call\""
    );
}

#[test]
fn http_test_validate_origin_allows_same_host() {
    assert!(validate_origin(
        Some(Some("http://localhost:8080")),
        Some(Some("localhost:8080"))
    ));
}

#[test]
fn http_test_validate_origin_rejects_mismatch() {
    assert!(!validate_origin(
        Some(Some("http://example.com")),
        Some(Some("localhost:8080"))
    ));
}

#[test]
fn validation_test_validate_origin_allows_same_host() {
    assert!(validate_origin(
        Some(Some("http://localhost:8080")),
        Some(Some("localhost:8080"))
    ));
}

#[test]
fn validation_test_validate_origin_rejects_mismatch() {
    assert!(!validate_origin(
        Some(Some("http://example.com")),
        Some(Some("localhost:8080"))
    ));
}

#[test]
fn test_apply_last_event_id_advances_counter() {
    let mut counter = EventCounter::default();
    apply_last_event_id(Some(Some("5")), &mut counter);
    assert_eq!(counter.next(), 6);
}

#[test]
fn unauthorized_status_forwards_authorization_error_response() {
    let response = forward_status_error(Some(RequestId::String("request-1".to_string())), 401)
        .expect("response");
    assert_eq!(response.error.code, AUTHORIZATION_FAILED);
    assert_eq!(response.id, Some(RequestId::String("request-1".to_string())));
    assert!(response
        .error
        .message
        .contains("Authorization failed: HTTP 401 Unauthorized"));
}

#[test]
fn routes_deliver_response_to_pending_request() {
    let mut routes: SessionRoutes<std::sync::mpsc::Sender<JSONRPCMessage>, ()> =
        SessionRoutes::new();
    let (tx, rx) = std::sync::mpsc::channel();
    let id = RequestId::Number(7);
    routes.add_pending(id.clone(), tx);

    let response = JSONRPCMessage::Response(JSONRPCResponse::Result(JSONRPCResultResponse {
        jsonrpc: JSONRPC_VERSION.to_string(),
        id,
        result: JSONRPCResult {
            _meta: None,
            other: Default::default(),
        },
    }));
    match routes.deliver(response) {
        Routed::Pending(waiter, message) => waiter.send(message).unwrap(),
        other => panic!("expected delivery to the pending request, got {other:?}"),
    }

    assert!(rx.try_recv().is_ok());
    assert!(routes.no_pending());
}

#[test]
fn routes_send_notifications_to_stream() {
    let mut routes: SessionRoutes<(), std::sync::mpsc::Sender<JSONRPCMessage>> =
        SessionRoutes::new();
    let (tx, rx) = std::sync::mpsc::channel();
    routes.set_stream(tx);

    let notification = JSONRPCMessage::Notification(JSONRPCNotification {
        jsonrpc: JSONRPC_VERSION.to_string(),
        notification: Notification {
            method: "notifications/tools/list_changed".to_string(),
            params: None,
        },
    });
    match routes.deliver(notification) {
        Routed::Stream(message) => routes.stream_sender().unwrap().send(message).unwrap(),
        other => panic!("expected delivery to the stream, got {other:?}"),
    }

    assert!(rx.try_recv().is_ok());
}

#[test]
fn cancelled_request_id_parses_numeric_and_string_ids() {
    let make = |value: JsonValue| {
        let mut other = JsonObject::new();
        other.insert("requestId".to_string(), value);
        JSONRPCNotification {
            jsonrpc: JSONRPC_VERSION.to_string(),
            notification: Notification {
                method: "notifications/cancelled".to_string(),
                params: Some(NotificationParams { _meta: None, other }),
            },
        }
    };
    assert_eq!(
        cancelled_request_id(&make(JsonValue::Number(JsonNumber::PosInt(3)))),
        Some(RequestId::Number(3))
    );
    assert_eq!(
        cancelled_request_id(&make(JsonValue::String("abc".to_string()))),
        Some(RequestId::String("abc".to_string()))
    );
}

#[test]
fn test_doc_extraction() {
    let attrs = vec![
        " First line".to_string(),
        " Second line".to_string(),
        "".to_string(),
        " Third line".to_string(),
    ];

    let result = extract_doc_comment(&attrs);
    assert_eq!(result, "First line\nSecond line\nThird line");
}

#[test]
fn test_snake_case_conversion() {
    let test_cases = vec![
        ("TestServer", "test_server"),
        ("MyMCPServer", "my_mcp_server"),
        ("HTTPServer", "http_server"),
        ("SimpleServer", "simple_server"),
        ("MyHTTPAPIServer", "my_httpapi_server"),
    ];

    for (struct_name, expected_snake_case) in test_cases {
        assert_eq!(default_server_name(struct_name), expected_snake_case);
    }
}

#[test]
fn test_complete_request_context() {
    let context = CompleteContext::new().add_argument("sessionId", "123");
    let arguments = context.arguments.expect("arguments");
    assert_eq!(arguments, vec![("sessionId".to_string(), "123".to_string())]);
}

#[test]
fn bearer_header_debug_redacts_token() {
    let header = tmcp::streamable_http::client::bearer_header("secret-token").unwrap();
    let debug = format!("{header:?}");

    assert!(!debug.contains("secret-token"));
}
