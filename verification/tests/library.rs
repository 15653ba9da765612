
use std::sync::Arc;
use tmcp::json::{JsonNumber, JsonObject, JsonValue};

use tmcp::auth::oauth_client::{
    callback_read_state, callback_redirect_url, callback_step, check_csrf_state, discovered_endpoint,
    http_response, parse_callback_query, parse_request_line, refresh_if_current_action,
    registration_endpoint_source, split_target, valid_token_action, fresh_after, token_action_for,
    token_is_fresh, CallbackStep, EndpointSource,
    OAuth2Token, ReadState, TokenAction,
};
use tmcp::auth::server::{
    auth_decision, bearer_token, escape_header_value, normalize_endpoint_path, parse_scope_set,
    resource_metadata_relative_uri, AuthDecision, AuthError, AuthInfo, WwwAuthenticate,
};
use tmcp::error::Error;
use tmcp::jsonrpc::{create_jsonrpc_error, create_jsonrpc_notification, result_to_jsonrpc_response};
use tmcp::macro_model::{
    classify_argument, find_forwarder, forwarders, group_name, parse_protocol_version_strategy,
    unknown_argument_error, ForwarderCap, MacroArgument, ProtocolVersionStrategy, ServerMacroArgs,
    initialize_plan, SourceText,
};
use tmcp::mcp_api::{
    gather_page, inspection_plan, surface_digest, to_lower_hex, InspectionPlan, McpApiOptions,
};
use tmcp::request_handler::{
    decode_error, notification_params, PendingRequests, RequestHandler, ResponseOrError, WaitOutcome,
};
use tmcp::schema::content::OneOrMany;
use tmcp::schema::jsonrpc::{
    is_supported_protocol_version, Cursor, ErrorObject, JSONRPCErrorResponse, JSONRPCMessage,
    JSONRPCResponse, JSONRPCResult, JSONRPCResultResponse, RequestId, INTERNAL_ERROR,
    INVALID_PARAMS, INVALID_REQUEST, JSONRPC_VERSION, LATEST_PROTOCOL_VERSION, METHOD_NOT_FOUND,
};
use tmcp::schema::methods::{ClientRequestKind, ServerNotificationKind};
use tmcp::schema::prompts::{ListPromptsResult, Prompt, PromptArgument};
use tmcp::schema::tasks::{ListTasksResult, Task, TaskStatus};
use tmcp::script::{
    classify_failure, format_error, run_outcome, EngineFailure, ScriptConfig, ScriptError, ScriptRun,
};
use tmcp::context::{cancel_target, notification_send_error};
use tmcp::server::{
    can_forward_notification, initialize_reply, missing_initialize_params, parse_failure_error,
    InitializeResultOutcome, ResourcesCapability, ServerCapabilities, ToolsCapability,
};
use tmcp::streamable_http::client::{
    response_action, response_is_sse, status_display, update_session_id, ResponseAction,
};
use tmcp::streamable_http::routing::{
    admit_get, admit_post, initialize_outcome, route_get, route_post, InitializeOutcome,
    MessageKind, PostRoute,
};
use tmcp::streamable_http::validation::{
    body_read_refusal, invalid_body_refusal, parse_last_event_id, validate_json_content_type,
    validate_protocol_version, ContentTypeError,
};
use tmcp::text::{format_i64, format_u64, parse_u64, split_words, trim_str};
use tmcp::tool_attrs::{parse_tool_attrs, AttrExpr, ToolAttribute, ToolMeta};

fn result_response(id: RequestId) -> JSONRPCResultResponse {
    JSONRPCResultResponse {
        jsonrpc: JSONRPC_VERSION.to_string(),
        id,
        result: JSONRPCResult { _meta: None, other: JsonObject::new() },
    }
}

#[test]
fn decimal_text_round_trips() {
    for n in [0u64, 7, 10, 12345, u64::MAX] {
        assert_eq!(parse_u64(&format_u64(n)), Some(n));
        assert_eq!(format_u64(n), n.to_string());
    }
    assert_eq!(format_i64(i64::MIN), i64::MIN.to_string());
    assert_eq!(format_i64(-42), "-42");
    assert_eq!(parse_u64("+5"), Some(5));
    assert_eq!(parse_u64(""), None);
    assert_eq!(parse_u64("18446744073709551616"), None);
    assert_eq!(parse_u64("1a"), None);
}

#[test]
fn whitespace_helpers_follow_std() {
    assert_eq!(trim_str("\t  hi there \n"), "hi there");
    assert_eq!(split_words("  read   write\ttools:call "), vec!["read", "write", "tools:call"]);
}

#[test]
fn request_ids_are_prefixed_and_increase() {
    let mut handler: RequestHandler<u8> = RequestHandler::new("req".to_string());
    assert_eq!(handler.next_request_id(), "req-1");
    assert_eq!(handler.next_request_id(), "req-2");
    assert_eq!(handler.timeout_ms(), 30_000);
}

#[test]
fn response_reaches_its_request_once() {
    let mut handler: RequestHandler<&'static str> = RequestHandler::new("req".to_string());
    let id = handler.next_request_id();
    handler.register(id.clone(), "waiter");
    let delivered = handler.handle_response(result_response(RequestId::String(id.clone())));
    match delivered {
        Some((waiter, ResponseOrError::Response(r))) => {
            assert_eq!(waiter, "waiter");
            assert_eq!(r.id, RequestId::String(id.clone()));
        }
        _ => panic!("the response should reach the waiting request"),
    }
    assert!(handler.handle_response(result_response(RequestId::String(id))).is_none());
}

#[test]
fn numeric_ids_use_the_numeric_key() {
    let mut handler: RequestHandler<u8> = RequestHandler::new("req".to_string());
    handler.register("__num__9".to_string(), 1);
    assert!(handler.handle_response(result_response(RequestId::Number(9))).is_some());
}

#[test]
fn error_answers_without_id_reach_nobody() {
    let mut handler: RequestHandler<u8> = RequestHandler::new("req".to_string());
    handler.register("req-1".to_string(), 1);
    let error = JSONRPCErrorResponse {
        jsonrpc: JSONRPC_VERSION.to_string(),
        id: None,
        error: ErrorObject { code: INTERNAL_ERROR, message: "x".to_string(), data: None },
    };
    assert!(handler.handle_error(error).is_none());
}

#[test]
fn waits_end_in_the_original_errors() {
    let mut handler: RequestHandler<u8> = RequestHandler::new("srv-req".to_string());
    handler.register("srv-req-1".to_string(), 1);
    let err = handler
        .process_response_result("srv-req-1".to_string(), "ping", WaitOutcome::TimedOut)
        .unwrap_err();
    assert_eq!(err.to_string(), "Request timed out after 30000ms: srv-req-1");
    let err = handler
        .process_response_result("srv-req-2".to_string(), "ping", WaitOutcome::Cancelled)
        .unwrap_err();
    assert_eq!(err.to_string(), "Request cancelled: srv-req-2");
    let err = handler
        .process_response_result("srv-req-3".to_string(), "ping", WaitOutcome::ChannelClosed)
        .unwrap_err();
    assert_eq!(err.to_string(), "Protocol error: Response channel closed unexpectedly");
}

#[test]
fn error_answers_map_to_errors() {
    let object = |code: i32| ErrorObject { code, message: "boom".to_string(), data: None };
    assert!(matches!(decode_error("tools/call", &object(METHOD_NOT_FOUND)), Error::MethodNotFound(m) if m == "boom"));
    assert!(matches!(decode_error("tools/call", &object(INVALID_PARAMS)), Error::InvalidParams(m) if m == "tools/call: boom"));
    assert!(matches!(decode_error("tools/call", &object(-1)), Error::Protocol(m) if m == "JSON-RPC error -1: boom"));
}

#[test]
fn pending_table_replaces_and_removes() {
    let mut table: PendingRequests<String, u32> = PendingRequests::new();
    table.insert("a".to_string(), 1);
    table.insert("a".to_string(), 2);
    assert!(table.contains(&"a".to_string()));
    assert_eq!(table.remove(&"a".to_string()), Some(2));
    assert_eq!(table.remove(&"a".to_string()), None);
    assert!(table.is_empty());
}

#[test]
fn notification_params_take_object_fields() {
    let mut obj = JsonObject::new();
    obj.insert("level".to_string(), JsonValue::String("info".to_string()));
    let p = notification_params(Some(JsonValue::Object(obj))).unwrap();
    assert_eq!(p.other.get("level"), Some(&JsonValue::String("info".to_string())));
    let p = notification_params(Some(JsonValue::Number(JsonNumber::PosInt(3)))).unwrap();
    assert!(p.other.is_empty());
    assert!(notification_params(None).is_none());
}

#[test]
fn error_texts_and_codes() {
    let e = Error::handler_error("tool", "bad");
    assert_eq!(e.to_string(), "Handler error for tool: bad");
    let e = Error::tool_execution_failed("echo", "bad");
    assert_eq!(e.to_string(), "Tool execution failed for 'echo': bad");
    let r = Error::InvalidRequest("x".to_string()).to_error_response(RequestId::Number(1));
    assert_eq!(r.error.code, INVALID_REQUEST);
    let r = Error::ConnectionClosed.to_error_response(RequestId::Number(1));
    assert_eq!(r.error.code, INTERNAL_ERROR);
    assert_eq!(r.error.message, "Connection closed");
    assert!(Error::ConnectionClosed.to_jsonrpc_response(RequestId::Number(1)).is_none());
}

#[test]
fn jsonrpc_envelopes() {
    let e = create_jsonrpc_error(RequestId::Number(1), -32000, "m".to_string(), None);
    assert_eq!(e.error.code, -32000);
    assert_eq!(e.jsonrpc, "2.0");
    match result_to_jsonrpc_response(RequestId::Number(2), Ok(JsonValue::Number(JsonNumber::PosInt(5)))) {
        JSONRPCMessage::Response(JSONRPCResponse::Result(r)) => {
            assert_eq!(r.result.other.get("result"), Some(&JsonValue::Number(JsonNumber::PosInt(5))));
        }
        _ => panic!("expected a result"),
    }
    match result_to_jsonrpc_response(RequestId::Number(2), Err(Error::MethodNotFound("x".to_string()))) {
        JSONRPCMessage::Response(JSONRPCResponse::Error(r)) => {
            assert_eq!(r.error.code, METHOD_NOT_FOUND);
            assert_eq!(r.error.message, "Method not found: x");
        }
        _ => panic!("expected an error"),
    }
    let mut obj = JsonObject::new();
    obj.insert("method".to_string(), JsonValue::String("notifications/progress".to_string()));
    obj.insert("progress".to_string(), JsonValue::Number(JsonNumber::PosInt(1)));
    let n = create_jsonrpc_notification("notifications/progress".to_string(), Some(JsonValue::Object(obj)));
    let params = n.notification.params.unwrap();
    assert!(params.other.get("method").is_none());
    assert_eq!(params.other.get("progress"), Some(&JsonValue::Number(JsonNumber::PosInt(1))));
    let mut obj = JsonObject::new();
    obj.insert("method".to_string(), JsonValue::String("notifications/initialized".to_string()));
    let n = create_jsonrpc_notification("notifications/initialized".to_string(), Some(JsonValue::Object(obj)));
    assert!(n.notification.params.is_none());
}

#[test]
fn method_names_round_trip() {
    assert_eq!(ClientRequestKind::CallTool.method(), "tools/call");
    assert_eq!(ClientRequestKind::from_method("tasks/result"), Some(ClientRequestKind::GetTaskPayload));
    assert_eq!(ClientRequestKind::from_method("tools/unknown"), None);
    assert_eq!(ServerNotificationKind::LoggingMessage.method(), "notifications/message");
}

#[test]
fn capabilities_gate_notifications() {
    let none = ServerCapabilities::default();
    assert!(!can_forward_notification(&none, ServerNotificationKind::ToolListChanged));
    assert!(can_forward_notification(&none, ServerNotificationKind::Progress));
    let caps = ServerCapabilities {
        tools: Some(ToolsCapability { list_changed: Some(true) }),
        resources: Some(ResourcesCapability { subscribe: Some(false), list_changed: None }),
        ..ServerCapabilities::default()
    };
    assert!(can_forward_notification(&caps, ServerNotificationKind::ToolListChanged));
    assert!(!can_forward_notification(&caps, ServerNotificationKind::ResourceUpdated));
    assert!(!can_forward_notification(&caps, ServerNotificationKind::LoggingMessage));
}

#[test]
fn parse_failures_and_initialize_answers() {
    let e = parse_failure_error("foo/bar".to_string(), "unknown variant `foo/bar`, expected one of");
    assert!(matches!(e, Error::MethodNotFound(m) if m == "foo/bar"));
    let e = parse_failure_error("tools/call".to_string(), "missing field `name`");
    assert!(matches!(e, Error::InvalidParams(m) if m == "Invalid parameters for tools/call: missing field `name`"));
    match missing_initialize_params(RequestId::Number(1)) {
        JSONRPCMessage::Response(JSONRPCResponse::Error(r)) => {
            assert_eq!(r.error.code, INVALID_PARAMS);
            assert_eq!(r.error.message, "Missing initialize parameters");
        }
        _ => panic!("expected an error"),
    }
    let (_, active) = initialize_reply(RequestId::Number(1), InitializeResultOutcome::SerializeFailed("x".to_string()));
    assert!(!active);
    let (_, active) = initialize_reply(RequestId::Number(1), InitializeResultOutcome::Serialized(JsonValue::Null));
    assert!(active);
    assert!(matches!(notification_send_error(true), Error::Transport(m) if m == "Notification queue full"));
    assert!(matches!(notification_send_error(false), Error::TransportDisconnected));
    assert_eq!(cancel_target(Some(RequestId::Number(5))).unwrap(), RequestId::Number(5));
    assert_eq!(
        cancel_target(None).unwrap_err().to_string(),
        "Internal error: No request ID available to cancel"
    );
}

#[test]
fn http_post_admission_and_routing() {
    assert!(admit_post(None, None, Some(Some("application/json")), None).is_ok());
    let r = admit_post(None, None, None, None).unwrap_err();
    assert_eq!((r.status, r.message), (415, "Content-Type must be application/json"));
    let r = admit_post(None, None, Some(Some("APPLICATION/JSON; charset=utf-8")), Some(Some("2024-01-01"))).unwrap_err();
    assert_eq!((r.status, r.message), (400, "Unsupported protocol version"));
    let r = admit_get(Some(Some("http://evil.example")), Some(Some("localhost:3000")), None).unwrap_err();
    assert_eq!((r.status, r.message), (403, "Invalid Origin"));
    assert_eq!(route_post(MessageKind::Request, true, false, false), PostRoute::Initialize);
    assert!(matches!(route_post(MessageKind::Notification, false, false, false), PostRoute::Refuse(r) if r.status == 400));
    assert!(matches!(route_post(MessageKind::Notification, false, true, false), PostRoute::Refuse(r) if r.status == 404));
    assert_eq!(route_post(MessageKind::Request, false, true, true), PostRoute::AwaitResponse);
    assert_eq!(route_post(MessageKind::Response, false, true, true), PostRoute::Accept);
    assert!(route_get(true, true).is_ok());
    assert_eq!(initialize_outcome(Some(true)), InitializeOutcome::Failed);
    assert_eq!(initialize_outcome(None), InitializeOutcome::NoResponse);
}

#[test]
fn http_validation_edges() {
    assert_eq!(validate_json_content_type(Some(None)), Err(ContentTypeError::Invalid));
    assert_eq!(validate_json_content_type(Some(Some("text/plain"))), Err(ContentTypeError::NotJson));
    assert!(validate_protocol_version(Some(Some(LATEST_PROTOCOL_VERSION))));
    assert!(!validate_protocol_version(Some(None)));
    assert!(validate_protocol_version(Some(Some("2025-06-18"))));
    assert!(validate_protocol_version(Some(Some("2025-03-26"))));
    assert!(validate_protocol_version(None));
    assert!(!validate_protocol_version(Some(Some("2024-11-05"))));
    assert_eq!(parse_last_event_id(Some(Some("42"))), Some(42));
    assert_eq!(parse_last_event_id(Some(Some("-1"))), None);
    assert_eq!(body_read_refusal("length limit exceeded").0, 413);
    assert_eq!(body_read_refusal("io").1, "Failed to read request body: io");
    assert_eq!(invalid_body_refusal("eof"), (400, "Invalid JSON body: eof".to_string()));
    assert!(is_supported_protocol_version("2025-03-26"));
    assert!(!is_supported_protocol_version("2024-11-05"));
}

#[test]
fn client_transport_decisions() {
    assert_eq!(status_display(404), "404 Not Found");
    assert_eq!(status_display(599), "599 <unknown status code>");
    assert_eq!(response_action(MessageKind::Request, 500, false), ResponseAction::ForwardStatusError);
    assert_eq!(response_action(MessageKind::Notification, 200, false), ResponseAction::Ignore);
    assert_eq!(response_action(MessageKind::Request, 202, false), ResponseAction::Ignore);
    assert_eq!(response_action(MessageKind::Request, 200, true), ResponseAction::ForwardSse);
    assert!(response_is_sse(Some(Some("text/event-stream; charset=utf-8"))));
    assert!(!response_is_sse(Some(None)));
    let mut sid = None;
    assert_eq!(update_session_id(false, Some(Some("s1")), &mut sid), None);
    assert_eq!(sid, None);
    assert_eq!(update_session_id(true, Some(Some("s1")), &mut sid), Some("s1".to_string()));
    assert_eq!(sid, Some("s1".to_string()));
    let e = tmcp::streamable_http::client::forward_status_error(Some(RequestId::Number(1)), 500).unwrap();
    assert_eq!(e.error.code, INTERNAL_ERROR);
    assert_eq!(e.error.message, "HTTP request failed with status: 500 Internal Server Error");
    assert!(tmcp::streamable_http::client::forward_status_error(None, 500).is_none());
}

#[test]
fn www_authenticate_and_bearer_helpers() {
    assert_eq!(escape_header_value("a\"b\\c"), "a\\\"b\\\\c");
    let text = WwwAuthenticate::bearer("/m").error("invalid_token").error_description("say \"hi\"").header_text();
    assert_eq!(text, "Bearer resource_metadata=\"/m\", error=\"invalid_token\", error_description=\"say \\\"hi\\\"\"");
    assert!(WwwAuthenticate::bearer("/m").error_description("line\nbreak").header_value().is_err());
    assert_eq!(normalize_endpoint_path("  mcp/ "), "/mcp");
    assert_eq!(normalize_endpoint_path(""), "/");
    assert_eq!(resource_metadata_relative_uri("/"), "/.well-known/oauth-protected-resource");
    assert_eq!(resource_metadata_relative_uri("/mcp"), "/.well-known/oauth-protected-resource/mcp");
    assert_eq!(bearer_token("BEARER abc"), Some("abc".to_string()));
    assert_eq!(bearer_token("Basic abc"), None);
    assert_eq!(bearer_token("Bearer "), None);
    let scopes = parse_scope_set("read write read");
    assert_eq!(scopes.len(), 2);
    let info = AuthInfo { subject: "user".to_string(), scopes, audiences: vec![], extra: serde_json::Value::Null };
    assert!(info.has_scope("write"));
    assert!(info.has_all_scopes(&["read", "write"]));
    assert!(!info.has_all_scopes(&["read", "admin"]));
    assert!(matches!(auth_decision("/m", true, None), AuthDecision::Proceed));
    assert!(matches!(auth_decision("/m", true, Some(AuthError::Unavailable("down".to_string()))), AuthDecision::Unavailable(m) if m == "down"));
    match auth_decision("/m", false, None) {
        AuthDecision::Unauthorized(w) => assert_eq!(w.header_text(), "Bearer resource_metadata=\"/m\""),
        _ => panic!("missing tokens are unauthorized"),
    }
}

#[test]
fn oauth_callback_handling() {
    assert_eq!(
        parse_callback_query(Some("code=abc&state=xyz")).unwrap(),
        ("abc".to_string(), "xyz".to_string())
    );
    assert_eq!(parse_callback_query(None).unwrap_err().to_string(), "Authorization failed: Missing callback query");
    assert_eq!(parse_callback_query(Some("state=1")).unwrap_err().to_string(), "Authorization failed: Missing authorization code");
    assert_eq!(parse_callback_query(Some("error=denied")).unwrap_err().to_string(), "Authorization failed: OAuth error: denied");
    let big = "a".repeat(2049);
    assert_eq!(parse_callback_query(Some(&big)).unwrap_err().to_string(), "Authorization failed: Callback query is too large");
    assert_eq!(split_target("/callback?code=1"), ("/callback".to_string(), Some("code=1".to_string())));
    assert_eq!(parse_request_line("GET /callback HTTP/1.1\r").unwrap(), "/callback");
    assert!(parse_request_line("POST /callback HTTP/1.1").is_err());
    assert!(matches!(callback_step("GET /other HTTP/1.1\r\n\r\n"), CallbackStep::NotFound));
    assert!(matches!(callback_step("GET /callback?code=c&state=s HTTP/1.1\r\n\r\n"), CallbackStep::Authorized(c, s) if c == "c" && s == "s"));
    assert!(matches!(callback_step("GET /callback HTTP/1.1\r\n\r\n"), CallbackStep::Rejected(_)));
    assert!(check_csrf_state("abc", "abc").is_ok());
    assert!(check_csrf_state("abc", "abd").is_err());
    assert_eq!(http_response("200 OK", "text/plain", "hé"), "HTTP/1.1 200 OK\r\nContent-Type: text/plain\r\nContent-Length: 3\r\nConnection: close\r\n\r\nhé");
    assert_eq!(callback_redirect_url(8080), "http://127.0.0.1:8080/callback");
    assert_eq!(callback_read_state(&b"GET / HTTP/1.1\r\n\r\n".to_vec()), ReadState::Complete);
    assert_eq!(callback_read_state(&b"GET / HTTP/1.1\r\n".to_vec()), ReadState::NeedMore);
    assert_eq!(callback_read_state(&vec![b'a'; 8193]), ReadState::TooLarge);
}

#[test]
fn oauth_token_decisions() {
    let token = OAuth2Token {
        access_token: "a1".to_string(),
        refresh_token: Some("r1".to_string()),
        expires_in: None,
        expires_at: Some(std::time::Instant::now()),
    };
    assert!(matches!(valid_token_action(&Some(token.clone()), std::time::Instant::now()), TokenAction::Refresh(r) if r == "r1"));
    let fresh = OAuth2Token { expires_at: None, ..token.clone() };
    assert!(matches!(valid_token_action(&Some(fresh), std::time::Instant::now()), TokenAction::Use(a) if a == "a1"));
    assert!(matches!(valid_token_action(&None, std::time::Instant::now()), TokenAction::Fail(Error::AuthorizationFailed(m)) if m == "No valid token available"));
    assert!(matches!(refresh_if_current_action(&Some(token.clone()), "old"), TokenAction::Use(a) if a == "a1"));
    assert!(matches!(refresh_if_current_action(&Some(token), "a1"), TokenAction::Refresh(r) if r == "r1"));
    assert!(matches!(registration_endpoint_source(Some("https://r".to_string()), "x"), Ok(EndpointSource::Given(e)) if e == "https://r"));
    assert!(matches!(registration_endpoint_source(None, "https://auth.example.com:8443/authorize"), Ok(EndpointSource::Discover(o)) if o == "https://auth.example.com:8443"));
    assert!(matches!(registration_endpoint_source(None, "ftp://auth.example.com"), Err(Error::InvalidConfiguration(m)) if m == "Auth URL must use http or https"));
    assert!(matches!(registration_endpoint_source(None, "not a url"), Err(Error::InvalidConfiguration(m)) if m.starts_with("Invalid auth URL: ")));
    assert!(discovered_endpoint(None).is_err());
}

#[test]
fn builders_keep_other_fields() {
    let prompt = Prompt::new("greet")
        .with_description("Say hi")
        .with_argument(PromptArgument::new("name").with_required(true))
        .with_argument(PromptArgument::new("tone").with_description("formal or not"));
    assert_eq!(prompt.name, "greet");
    assert_eq!(prompt.description.as_deref(), Some("Say hi"));
    let args = prompt.arguments.as_ref().unwrap();
    assert_eq!(args.len(), 2);
    assert_eq!(args[0].required, Some(true));
    let list = ListPromptsResult::new().with_prompt(prompt).with_cursor("next");
    assert_eq!(list.prompts.len(), 1);
    assert_eq!(list.next_cursor.unwrap().0, "next");
    let task = Task {
        task_id: "t1".to_string(),
        status: TaskStatus::Working,
        status_message: None,
        created_at: "2025-01-01T00:00:00Z".to_string(),
        last_updated_at: "2025-01-01T00:00:00Z".to_string(),
        ttl: None,
        poll_interval: Some(500),
    };
    let tasks = ListTasksResult::new().with_tasks(vec![task.clone(), task]).with_cursor("c");
    assert_eq!(tasks.tasks.len(), 2);
    assert_eq!(tasks.page.next_cursor.unwrap().0, "c");
    assert_eq!(OneOrMany::One(3).into_vec(), vec![3]);
    assert_eq!(OneOrMany::Many(vec![1, 2]).into_vec(), vec![1, 2]);
    let ctx = tmcp::schema::requests::CompleteContext::new().add_argument("a", "1").add_argument("b", "2").add_argument("a", "3");
    assert_eq!(ctx.arguments.unwrap(), vec![("b".to_string(), "2".to_string()), ("a".to_string(), "3".to_string())]);
}

#[test]
fn macro_arguments_and_capabilities() {
    assert_eq!(forwarders().len(), 8);
    assert_eq!(find_forwarder("list_tasks_fn"), Some(6));
    assert_eq!(classify_argument("cancel_task_fn"), MacroArgument::Forwarder(7));
    assert_eq!(classify_argument("toolset"), MacroArgument::Toolset);
    assert_eq!(classify_argument("bogus"), MacroArgument::Unknown);
    assert_eq!(unknown_argument_error("bogus"), "Unknown argument: bogus");
    let mut args = ServerMacroArgs::default();
    assert!(args.bind_forwarder(2, "read".to_string()).is_ok());
    assert!(args.has_resource_callbacks());
    assert!(!args.resources_list_changed());
    assert_eq!(args.bind_forwarder(2, "again".to_string()).unwrap_err(), "duplicate argument: read_resource_fn");
    assert!(args.bind_forwarder(1, "list".to_string()).is_ok());
    assert!(args.resources_list_changed());
    assert!(!args.tasks_list());
    assert!(args.bind_forwarder(7, "cancel".to_string()).is_ok());
    assert!(args.tasks_cancel());
    assert_eq!(args.forwarders[2].spec.cap, ForwarderCap::TasksCancel);
    assert_eq!(parse_protocol_version_strategy("LATEST"), Ok(ProtocolVersionStrategy::Latest));
    assert_eq!(parse_protocol_version_strategy("Requested"), Ok(ProtocolVersionStrategy::Client));
    assert!(parse_protocol_version_strategy("newest").is_err());
    assert_eq!(group_name(None, "FileTools").unwrap(), "file_tools");
    assert!(group_name(Some("a.b".to_string()), "X").is_err());
    assert!(group_name(Some(String::new()), "X").is_err());
}

#[test]
fn tool_attribute_language() {
    let attrs = vec![
        ToolAttribute::Unrelated,
        ToolAttribute::List(Ok(vec![
            ToolMeta::Flag(Some("read_only".to_string())),
            ToolMeta::Assign(Some("title".to_string()), AttrExpr::Str("Echo".to_string())),
            ToolMeta::Assign(Some("task_support".to_string()), AttrExpr::Path("Required".to_string(), "Required".to_string())),
            ToolMeta::Assign(Some("icons".to_string()), AttrExpr::Array(vec![Some("a.png".to_string())])),
            ToolMeta::List(true, Some(vec![Some("b.png".to_string())])),
        ])),
    ];
    let parsed = parse_tool_attrs(&attrs).unwrap().unwrap();
    assert_eq!(parsed.read_only, Some(true));
    assert_eq!(parsed.title.as_deref(), Some("Echo"));
    assert_eq!(parsed.icons, vec!["a.png".to_string(), "b.png".to_string()]);
    assert!(parse_tool_attrs(&vec![ToolAttribute::Unrelated]).unwrap().is_none());
    assert!(parse_tool_attrs(&vec![ToolAttribute::Bare]).unwrap().is_some());
    let bad = vec![ToolAttribute::List(Ok(vec![ToolMeta::Flag(Some("fast".to_string()))]))];
    assert_eq!(parse_tool_attrs(&bad).unwrap_err(), "Unknown #[tool] flag: fast");
    let bad = vec![ToolAttribute::List(Ok(vec![ToolMeta::Assign(Some("icons".to_string()), AttrExpr::Array(vec![None]))]))];
    assert_eq!(parse_tool_attrs(&bad).unwrap_err(), "expected a string literal");
    let bad = vec![ToolAttribute::NameValue];
    assert_eq!(parse_tool_attrs(&bad).unwrap_err(), "#[tool] does not support name-value syntax");
}

#[test]
fn script_outcomes() {
    let config = ScriptConfig::default();
    assert_eq!(config.timeout_ms(), 60_000);
    assert_eq!(config.max_call_levels, 64);
    let info = format_error(&ScriptError::Timeout { ms: 5 });
    assert_eq!((info.error_type.as_str(), info.message.as_str()), ("timeout", "Script timed out after 5ms"));
    let info = format_error(&ScriptError::Runtime { message: "bad".to_string(), line: Some(3) });
    assert_eq!(info.location.as_deref(), Some("line 3"));
    assert_eq!(info.backtrace, Some(vec!["at <main> (line 3)".to_string()]));
    let info = format_error(&ScriptError::Parse { message: "eof".to_string(), line: None });
    assert_eq!(info.message, "eof");
    assert_eq!(info.error_type, "parse");
    assert!(info.location.is_none());
    let out = run_outcome(ScriptRun::ArgsUnconvertible("no".to_string()), vec!["log".to_string()]);
    assert!(out.logs.is_empty());
    assert_eq!(out.error.unwrap().message, "Failed to serialize args: no");
    let out = run_outcome(ScriptRun::Finished(serde_json::Value::from(1)), vec!["log".to_string()]);
    assert_eq!(out.logs, vec!["log".to_string()]);
    let executor = tmcp::script::RhaiScriptExecutor::new(Arc::new(()), ScriptConfig::default());
    assert_eq!(executor.script_config().max_modules, 10);
}

#[test]
fn surface_digest_is_sha256_hex() {
    assert_eq!(to_lower_hex(&[0x00, 0xab, 0x7f]), "00ab7f");
    assert_eq!(
        surface_digest(b"abc"),
        "ba7816bf8f01cfea414140de5dae2223b00361a396177a9cb410ff61f20015ad"
    );
    let options = McpApiOptions::default();
    assert_eq!(options.client_info.name, "tmcp-inspector");
    assert_eq!(options.protocol_version, LATEST_PROTOCOL_VERSION);
}

#[test]
fn inspection_walks_only_advertised_lists() {
    let none = inspection_plan(&ServerCapabilities::default());
    assert_eq!(
        none,
        InspectionPlan { tools: false, resources: false, resource_templates: false, prompts: false }
    );
    let caps = ServerCapabilities {
        tools: Some(ToolsCapability { list_changed: None }),
        resources: Some(ResourcesCapability { subscribe: None, list_changed: None }),
        ..ServerCapabilities::default()
    };
    let plan = inspection_plan(&caps);
    assert_eq!(
        plan,
        InspectionPlan { tools: true, resources: true, resource_templates: true, prompts: false }
    );
}

#[test]
fn pages_are_gathered_in_order_until_no_cursor() {
    let mut gathered = vec![1, 2];
    let next = gather_page(&mut gathered, vec![3, 4], Some(Cursor::new("c2")));
    assert_eq!(next.map(|c| c.0), Some("c2".to_string()));
    let last = gather_page(&mut gathered, vec![5], None);
    assert!(last.is_none());
    assert_eq!(gathered, vec![1, 2, 3, 4, 5]);
}

#[test]
fn freshness_needs_more_than_the_leeway() {
    assert!(!fresh_after(None));
    assert!(!fresh_after(Some(30_000_000_000)));
    assert!(fresh_after(Some(30_000_000_001)));
    let now = std::time::Instant::now();
    let token = |expires_at| OAuth2Token {
        access_token: "a".to_string(),
        refresh_token: Some("r".to_string()),
        expires_in: None,
        expires_at,
    };
    assert!(token_is_fresh(&token(None), now));
    assert!(token_is_fresh(&token(Some(now + std::time::Duration::from_secs(60))), now));
    assert!(!token_is_fresh(&token(Some(now + std::time::Duration::from_secs(10))), now));
    assert!(!token_is_fresh(&token(Some(now)), now));
}

#[test]
fn token_action_follows_freshness() {
    let t = OAuth2Token {
        access_token: "a1".to_string(),
        refresh_token: Some("r1".to_string()),
        expires_in: None,
        expires_at: None,
    };
    assert!(matches!(token_action_for(&Some(t.clone()), true), TokenAction::Use(a) if a == "a1"));
    assert!(matches!(token_action_for(&Some(t.clone()), false), TokenAction::Refresh(r) if r == "r1"));
    let no_refresh = OAuth2Token { refresh_token: None, ..t };
    assert!(matches!(
        token_action_for(&Some(no_refresh), false),
        TokenAction::Fail(Error::AuthorizationFailed(m)) if m == "No valid token available"
    ));
    assert!(matches!(token_action_for(&None, true), TokenAction::Fail(_)));
}

#[test]
fn stopped_runs_are_timeouts() {
    assert!(matches!(classify_failure(EngineFailure::Terminated, 250), ScriptError::Timeout { ms: 250 }));
    assert!(matches!(
        classify_failure(EngineFailure::Thrown(ScriptError::Custom("boom".to_string())), 1),
        ScriptError::Custom(m) if m == "boom"
    ));
    match classify_failure(EngineFailure::Other { message: "bad".to_string(), line: Some(3) }, 1) {
        ScriptError::Runtime { message, line } => {
            assert_eq!(message, "bad");
            assert_eq!(line, Some(3));
        }
        other => panic!("unexpected {other:?}"),
    }
    assert_eq!(format_error(&classify_failure(EngineFailure::Terminated, 5)).error_type, "timeout");
}

#[test]
fn challenge_headers_hold_the_challenge_text() {
    let h = WwwAuthenticate::bearer("/m").error("invalid_token").scope("a b").header_value().unwrap();
    assert_eq!(h.to_str().unwrap(), r#"Bearer resource_metadata="/m", error="invalid_token", scope="a b""#);
}

#[test]
fn normalized_paths_keep_the_text_between_slashes() {
    for p in ["", "/", "///", "a", "a/", "/a/b//", "//a", "mcp"] {
        let r = normalize_endpoint_path(p);
        assert_eq!(normalize_endpoint_path(&r), r);
        assert!(r.starts_with('/'));
        assert!(r == "/" || !r.ends_with('/'));
        assert_eq!(r.trim_matches('/'), p.trim_matches('/'));
    }
}

#[test]
fn debug_text_does_not_depend_on_secrets() {
    let at = std::time::Instant::now();
    let first = OAuth2Token {
        access_token: "first-access".to_string(),
        refresh_token: Some("first-refresh".to_string()),
        expires_in: Some(std::time::Duration::from_secs(60)),
        expires_at: Some(at),
    };
    let second = OAuth2Token {
        access_token: "other".to_string(),
        refresh_token: Some("x".to_string()),
        expires_in: Some(std::time::Duration::from_secs(60)),
        expires_at: Some(at),
    };
    assert_eq!(first.debug_string(), second.debug_string());
    assert!(!first.debug_string().contains("first-access"));
}

#[test]
fn default_initialize_uses_arguments_then_defaults() {
    let args = ServerMacroArgs::default();
    let plan = initialize_plan("WeatherServer", "Reports the weather", &args, Some(false));
    assert_eq!(plan.name, SourceText::Literal("weather_server".to_string()));
    assert_eq!(plan.version, None);
    assert_eq!(plan.instructions, Some(SourceText::Literal("Reports the weather".to_string())));
    assert!(!plan.use_client_version);
    assert_eq!(plan.tools_list_changed, Some(false));
    assert_eq!(plan.resources_list_changed, None);
    assert_eq!(initialize_plan("S", "", &args, None).instructions, None);

    let mut args = ServerMacroArgs::default();
    args.name = Some("\"wx\"".to_string());
    args.version = Some("\"2.0\"".to_string());
    args.instructions = Some("INSTRUCTIONS".to_string());
    args.protocol_version = Some(ProtocolVersionStrategy::Client);
    assert!(args.bind_forwarder(1, "list".to_string()).is_ok());
    let plan = initialize_plan("WeatherServer", "Reports the weather", &args, None);
    assert_eq!(plan.name, SourceText::Expression("\"wx\"".to_string()));
    assert_eq!(plan.version.as_deref(), Some("\"2.0\""));
    assert_eq!(plan.instructions, Some(SourceText::Expression("INSTRUCTIONS".to_string())));
    assert!(plan.use_client_version);
    assert_eq!(plan.resources_list_changed, Some(true));
}
