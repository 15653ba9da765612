use tmcp::error::Error;
use tmcp::streamable_http::client::{last_event_id_header, session_id_header, sse_session_headers};
use tmcp::streamable_http::routing::{initialize_start_refusal, request_reply, RequestReply};
use tmcp::auth::server::WwwAuthenticate;
use tmcp::mcp_api::surface_digest;
use tmcp::macro_model::{group_config, GroupMeta};
use tmcp::json::{JsonNumber, JsonObject, JsonValue};

use tmcp::schema::jsonrpc::{
    JSONRPCMessage, JSONRPCNotification, Notification, NotificationParams, RequestId,
    AUTHORIZATION_FAILED, INTERNAL_ERROR, JSONRPC_VERSION,
};
use tmcp::streamable_http::session::{message_session_id, resolve_session_id_for_message};
use tmcp::schema::prompts::{Prompt, PromptArgument};
use tmcp::streamable_http::client::{
    bearer_header, header_failure_response, record_event_id, retry_after_refresh,
    sse_response_outcome, SseStart, SseState,
};
use tmcp::tool_attrs::{
    check_server_methods, method_role, parse_group_method, AttrExpr, MethodRole, ParamShape,
    ToolAttribute, ToolMeta,
};

#[test]
fn header_failures_keep_authorization_codes() {
    let r = header_failure_response(
        Some(RequestId::Number(4)),
        &Error::AuthorizationFailed("No valid token available".to_string()),
    )
    .unwrap();
    assert_eq!(r.error.code, AUTHORIZATION_FAILED);
    assert_eq!(r.error.message, "Authorization failed: No valid token available");
    let r = header_failure_response(
        Some(RequestId::Number(4)),
        &Error::Transport("Invalid session ID".to_string()),
    )
    .unwrap();
    assert_eq!(r.error.code, INTERNAL_ERROR);
    assert!(header_failure_response(None, &Error::ConnectionClosed).is_none());
}

#[test]
fn unauthorized_posts_retry_once_with_oauth() {
    assert!(retry_after_refresh(401, true, true));
    assert!(!retry_after_refresh(401, false, true));
    assert!(!retry_after_refresh(401, true, false));
    assert!(!retry_after_refresh(403, true, true));
}

#[test]
fn bearer_headers_refuse_line_breaks() {
    assert!(bearer_header("abc").is_ok());
    assert!(matches!(bearer_header("a\nb"), Err(Error::Transport(m)) if m == "Invalid authorization token"));
}

#[test]
fn sse_attempts_stop_after_not_supported() {
    assert_eq!(sse_response_outcome(405).unwrap(), SseStart::NotSupported);
    assert_eq!(sse_response_outcome(200).unwrap(), SseStart::Streaming);
    assert!(matches!(sse_response_outcome(502), Err(Error::Transport(m)) if m == "SSE connection failed with status: 502 Bad Gateway"));
    let mut state = SseState::new();
    assert!(state.try_start());
    assert!(!state.try_start());
    state.finish(true);
    assert!(!state.try_start());
    state.finish(false);
    assert!(!state.try_start());
}

#[test]
fn event_ids_are_recorded_when_present() {
    let mut last = None;
    record_event_id(&mut last, "7".to_string());
    record_event_id(&mut last, String::new());
    assert_eq!(last, Some("7".to_string()));
}

#[test]
fn group_methods_and_server_checks() {
    let attrs = vec![ToolAttribute::List(Ok(vec![ToolMeta::Assign(
        Some("name".to_string()),
        AttrExpr::Str("files".to_string()),
    )]))];
    let g = parse_group_method("file_group", &attrs, false, &vec![ParamShape::Receiver], true)
        .unwrap()
        .unwrap();
    assert_eq!(g.name, "file_group");
    assert_eq!(g.segment_override.as_deref(), Some("files"));
    assert_eq!(
        parse_group_method("g", &attrs, true, &vec![ParamShape::Receiver], true).unwrap_err(),
        "group methods must be synchronous"
    );
    assert_eq!(
        parse_group_method("g", &vec![ToolAttribute::Bare], false, &vec![ParamShape::Receiver], false)
            .unwrap_err(),
        "group methods must return a group type"
    );
    let bad = vec![ToolAttribute::List(Ok(vec![ToolMeta::Flag(Some("x".to_string()))]))];
    assert_eq!(
        parse_group_method("g", &bad, false, &vec![ParamShape::Receiver], true).unwrap_err(),
        "unsupported #[group] flag"
    );
    assert!(parse_group_method("g", &vec![], false, &vec![], false).unwrap().is_none());
    assert!(check_server_methods(false, 0, 0, true).is_ok());
    assert!(check_server_methods(true, 0, 2, false).is_ok());
    assert!(check_server_methods(false, 0, 0, false)
        .unwrap_err()
        .contains("No tool methods or resource callbacks found"));
    assert!(check_server_methods(false, 3, 1, false).is_err());
    assert!(matches!(method_role(None, None), Ok(MethodRole::Plain)));
    assert!(method_role(None, Some(g.clone())).is_ok());
}

#[test]
fn basename_builders() {
    let p = Prompt::new("a").with_name("b").with_title("Bee").with_meta_entry("k", JsonValue::Number(JsonNumber::PosInt(1)));
    assert_eq!(p.name, "b");
    assert_eq!(p.title.as_deref(), Some("Bee"));
    assert_eq!(p._meta.unwrap().get("k"), Some(&JsonValue::Number(JsonNumber::PosInt(1))));
    let a = PromptArgument::new("x").with_title("Ex").with_name("y");
    assert_eq!((a.name.as_str(), a.title.as_deref()), ("y", Some("Ex")));
}

fn notification_with_meta(meta: Option<JsonObject>) -> JSONRPCMessage {
    JSONRPCMessage::Notification(JSONRPCNotification {
        jsonrpc: JSONRPC_VERSION.to_string(),
        notification: Notification {
            method: "notifications/message".to_string(),
            params: Some(NotificationParams { _meta: meta, other: JsonObject::new() }),
        },
    })
}

#[test]
fn outbound_messages_go_to_the_session_they_name_or_the_only_one() {
    let mut meta = JsonObject::new();
    meta.insert("sessionId".to_string(), JsonValue::String("s-7".to_string()));
    let named = notification_with_meta(Some(meta));
    let unnamed = notification_with_meta(None);
    let mut bad_meta = JsonObject::new();
    bad_meta.insert("sessionId".to_string(), JsonValue::Number(JsonNumber::PosInt(7)));
    let not_text = notification_with_meta(Some(bad_meta));

    assert_eq!(message_session_id(&named), Some("s-7".to_string()));
    assert_eq!(message_session_id(&unnamed), None);
    assert_eq!(message_session_id(&not_text), None);

    let one = vec!["only".to_string()];
    let two = vec!["a".to_string(), "b".to_string()];
    assert_eq!(resolve_session_id_for_message(&named, &two), Some("s-7".to_string()));
    assert_eq!(resolve_session_id_for_message(&unnamed, &one), Some("only".to_string()));
    assert_eq!(resolve_session_id_for_message(&unnamed, &two), None);
    assert_eq!(resolve_session_id_for_message(&not_text, &Vec::new()), None);
}

#[test]
fn derived_group_configuration_fills_defaults() {
    let docs = vec![" Weather lookups".to_string()];
    let c = group_config(true, "WeatherTools", &docs, &GroupMeta::default()).unwrap();
    assert_eq!(c.name, "weather_tools");
    assert_eq!(c.description, "Weather lookups");
    assert!(c.show_deactivator);
    assert!(!c.requires_clone);

    let meta = GroupMeta {
        name: Some("wx".to_string()),
        description: Some("Forecasts".to_string()),
        show_deactivator: Some(false),
        on_activate: Some("warm_up".to_string()),
        on_deactivate: None,
    };
    let c = group_config(true, "WeatherTools", &docs, &meta).unwrap();
    assert_eq!((c.name.as_str(), c.description.as_str()), ("wx", "Forecasts"));
    assert!(!c.show_deactivator);
    assert_eq!(c.on_activate.as_deref(), Some("warm_up"));
    assert!(c.requires_clone);

    let dotted = GroupMeta { name: Some("a.b".to_string()), ..GroupMeta::default() };
    assert_eq!(
        group_config(true, "W", &docs, &dotted).unwrap_err(),
        "group name must be non-empty and must not contain '.'"
    );
    assert_eq!(
        group_config(false, "W", &docs, &GroupMeta::default()).unwrap_err(),
        "Group can only be derived for structs"
    );
}

#[test]
fn meta_entries_replace_under_the_same_key() {
    let p = Prompt::new("a")
        .with_meta_entry("k", JsonValue::Bool(true))
        .with_meta_entry("j", JsonValue::Null)
        .with_meta_entry("k", JsonValue::Bool(false));
    let meta = p._meta.unwrap();
    assert_eq!(meta.len(), 2);
    assert_eq!(meta.entries()[0].0, "k");
    assert_eq!(meta.get("k"), Some(&JsonValue::Bool(false)));
}

#[test]
fn forwarded_requests_are_answered_by_what_the_session_did() {
    match request_reply(false, false) {
        RequestReply::Terminated(f) => assert_eq!((f.status, f.message), (404, "Session terminated")),
        other => panic!("unexpected {other:?}"),
    }
    assert_eq!(request_reply(true, true), RequestReply::Respond);
    assert_eq!(request_reply(true, false), RequestReply::Accepted);
    let f = initialize_start_refusal(true, false).unwrap_err();
    assert_eq!((f.status, f.message), (500, "Failed to start session"));
    let f = initialize_start_refusal(false, true).unwrap_err();
    assert_eq!((f.status, f.message), (400, "Invalid initialize message"));
    assert!(initialize_start_refusal(true, true).is_ok());
}

#[test]
fn stream_headers_refuse_text_that_cannot_be_a_header() {
    assert!(matches!(session_id_header("bad\nid"), Err(Error::Transport(m)) if m == "Invalid session ID"));
    assert!(matches!(last_event_id_header("7\r"), Err(Error::Transport(m)) if m == "Invalid Last-Event-ID"));
    assert_eq!(session_id_header("s-1").unwrap().to_str().unwrap(), "s-1");
    assert!(sse_session_headers(None, Some("3")).unwrap().is_none());
    let hs = sse_session_headers(Some("s-1"), Some("3")).unwrap().unwrap();
    assert_eq!(hs.session_id.to_str().unwrap(), "s-1");
    assert_eq!(hs.last_event_id.unwrap().to_str().unwrap(), "3");
    assert!(matches!(
        sse_session_headers(Some("s-1"), Some("x\ny")),
        Err(Error::Transport(m)) if m == "Invalid Last-Event-ID"
    ));
    assert!(matches!(
        sse_session_headers(Some("s\n1"), Some("x\ny")),
        Err(Error::Transport(m)) if m == "Invalid session ID"
    ));
}

#[test]
fn challenge_parameters_are_appended_in_order() {
    let w = WwwAuthenticate::bearer("/m").error("invalid_token");
    let before = w.clone().header_value().unwrap().to_str().unwrap().to_string();
    let after = w.scope("say \"hi\"").header_value().unwrap();
    assert_eq!(after.to_str().unwrap(), format!("{}, scope=\"say \\\"hi\\\"\"", before));
}

#[test]
fn surface_digest_is_64_lowercase_hex_digits() {
    let d = surface_digest(b"{\"tools\":[]}");
    assert_eq!(d.len(), 64);
    assert!(d.chars().all(|c| c.is_ascii_digit() || ('a'..='f').contains(&c)));
    assert_ne!(d, surface_digest(b"{\"tools\":[1]}"));
}
