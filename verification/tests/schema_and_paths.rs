use tmcp::json::{JsonObject, JsonValue};
use tmcp::mcp_api::sort_by_key_text;
use tmcp::schema::prompts::Prompt;
use tmcp::text::str_lt;
use tmcp::auth::oauth_client::{
    refresh_resource_param, registration_metadata, ClientMetadata, DynamicRegistrationConfig,
    OAuth2Config,
};
use tmcp::auth::server::{insufficient_scope_response, protected_resource_paths, WwwAuthenticate};
use tmcp::schema::jsonrpc::{
    JSONRPCMessage, JSONRPCNotification, JSONRPCResponse, JSONRPCResult, JSONRPCResultResponse,
    Notification, RequestId, JSONRPC_VERSION,
};
use tmcp::schema::tools::{
    ListToolsResult, Tool, ToolAnnotations, ToolExecution, ToolSchema, ToolTaskSupport,
};
use tmcp::streamable_http::session::{expired_sessions, Routed, SessionRoutes};

#[test]
fn tool_builders_fill_annotations_and_execution() {
    let schema = ToolSchema::new(JsonValue::Null);
    let tool = Tool::new("echo", schema)
        .with_description("Echo input")
        .with_read_only_hint(true)
        .with_idempotent_hint(true)
        .with_annotation_title("Echo")
        .with_task_support(ToolTaskSupport::Optional);
    let annotations = tool.annotations.clone().unwrap();
    assert_eq!(annotations.read_only_hint, Some(true));
    assert_eq!(annotations.idempotent_hint, Some(true));
    assert_eq!(annotations.destructive_hint, None);
    assert_eq!(annotations.title.as_deref(), Some("Echo"));
    assert_eq!(
        tool.execution,
        Some(ToolExecution { task_support: Some(ToolTaskSupport::Optional) })
    );
    let replaced = tool
        .clone()
        .with_annotations(ToolAnnotations::default())
        .with_destructive_hint(false)
        .with_open_world_hint(true);
    let a = replaced.annotations.unwrap();
    assert_eq!((a.read_only_hint, a.destructive_hint, a.open_world_hint), (None, Some(false), Some(true)));
    let with_output = tool
        .clone()
        .with_output_schema(ToolSchema::new(JsonValue::Bool(true)))
        .with_execution(ToolExecution { task_support: None })
        .with_title("Echo tool");
    assert_eq!(with_output.output_schema.unwrap().as_value(), &JsonValue::Bool(true));
    assert_eq!(with_output.execution, Some(ToolExecution { task_support: None }));
    assert_eq!(with_output.title.as_deref(), Some("Echo tool"));
    let list = ListToolsResult::new().with_tool(tool.clone()).with_tools(vec![tool]).with_cursor("p2");
    assert_eq!(list.tools.len(), 2);
    assert_eq!(list.next_cursor.unwrap().0, "p2");
}

#[test]
fn protected_metadata_is_served_at_both_paths() {
    assert_eq!(protected_resource_paths("/"), vec!["/.well-known/oauth-protected-resource".to_string()]);
    assert_eq!(
        protected_resource_paths("mcp/"),
        vec![
            "/.well-known/oauth-protected-resource".to_string(),
            "/.well-known/oauth-protected-resource/mcp".to_string()
        ]
    );
    let w = insufficient_scope_response("/mcp", "tools:call");
    assert_eq!(
        w.header_text(),
        "Bearer resource_metadata=\"/.well-known/oauth-protected-resource/mcp\", error=\"insufficient_scope\", scope=\"tools:call\""
    );
    let header = WwwAuthenticate::invalid_token_challenge("/m", "Expired access token").unwrap();
    assert_eq!(
        header.to_str().unwrap(),
        "Bearer resource_metadata=\"/m\", error=\"invalid_token\", error_description=\"Expired access token\""
    );
}

#[test]
fn idle_sessions_expire_after_an_hour() {
    let sessions = vec![
        ("a".to_string(), 3_600_000_000_000u128),
        ("b".to_string(), 3_600_000_000_001u128),
        ("c".to_string(), 5u128),
        ("d".to_string(), u128::MAX),
    ];
    assert_eq!(expired_sessions(&sessions), vec!["b".to_string(), "d".to_string()]);
}

#[test]
fn oauth_configuration_helpers() {
    let config = OAuth2Config {
        client_id: "client".to_string(),
        client_secret: None,
        auth_url: "https://auth.example.com/authorize".to_string(),
        token_url: "https://auth.example.com/token".to_string(),
        redirect_url: "http://127.0.0.1:8080/callback".to_string(),
        resource: String::new(),
        scopes: vec![],
    };
    assert_eq!(refresh_resource_param(&config), None);
    let config = OAuth2Config { resource: "https://mcp.example.com".to_string(), ..config };
    assert_eq!(refresh_resource_param(&config), Some("https://mcp.example.com".to_string()));
    let registration = DynamicRegistrationConfig {
        auth_url: "https://auth.example.com/authorize".to_string(),
        token_url: "https://auth.example.com/token".to_string(),
        resource: "https://mcp.example.com".to_string(),
        registration_endpoint: None,
        metadata: ClientMetadata {
            client_name: Some("tmcp".to_string()),
            redirect_uris: vec!["http://127.0.0.1:8080/callback".to_string()],
            scope: None,
            resource: None,
        },
    };
    let metadata = registration_metadata(registration.clone());
    assert_eq!(metadata.resource.as_deref(), Some("https://mcp.example.com"));
    let mut explicit = registration;
    explicit.metadata.resource = Some("https://other.example.com".to_string());
    assert_eq!(registration_metadata(explicit).resource.as_deref(), Some("https://other.example.com"));
}

#[test]
fn routes_drop_messages_without_a_stream() {
    let mut routes: SessionRoutes<u8, u8> = SessionRoutes::new();
    routes.add_pending(RequestId::String("x".to_string()), 1);
    assert_eq!(routes.remove_pending(&RequestId::String("x".to_string())), Some(1));
    routes.set_stream(9);
    routes.close_stream();
    let response = JSONRPCMessage::Response(JSONRPCResponse::Result(JSONRPCResultResponse {
        jsonrpc: JSONRPC_VERSION.to_string(),
        id: RequestId::String("x".to_string()),
        result: JSONRPCResult { _meta: None, other: Default::default() },
    }));
    assert!(matches!(routes.deliver(response), Routed::Dropped(_)));
    let notification = JSONRPCMessage::Notification(JSONRPCNotification {
        jsonrpc: JSONRPC_VERSION.to_string(),
        notification: Notification { method: "notifications/progress".to_string(), params: None },
    });
    routes.set_stream(3);
    assert!(matches!(routes.deliver(notification), Routed::Stream(_)));
}

#[test]
fn request_keys_keep_text_and_numeric_ids_apart() {
    let numeric = RequestId::Number(42).to_key();
    let text = RequestId::String("42".to_string()).to_key();
    let negative = RequestId::Number(-42).to_key();
    assert_eq!(numeric, "__num__42");
    assert_eq!(text, "42");
    assert_eq!(negative, "__num__-42");
    assert_ne!(numeric, text);
    assert_ne!(numeric, negative);
    assert_ne!(RequestId::Number(4).to_key(), RequestId::Number(42).to_key());
}

fn text(s: &str) -> JsonValue {
    JsonValue::String(s.to_string())
}

#[test]
fn default_tool_schema_is_an_object_schema() {
    let schema = ToolSchema::default();
    assert_eq!(schema.schema_type(), Some("object"));
    assert!(schema.properties().is_none());
    assert!(schema.required().is_none());
    assert!(!schema.is_required("name"));
}

#[test]
fn schema_built_by_hand_reports_properties_and_requirements() {
    let schema = ToolSchema::default()
        .with_property("name", text("string schema"))
        .with_property("age", text("integer schema"))
        .with_property("email", text("string schema"))
        .with_required("name")
        .with_required_properties(vec!["age".to_string()]);
    assert_eq!(schema.schema_type(), Some("object"));
    let properties = schema.properties().expect("properties");
    assert!(properties.contains_key("name"));
    assert!(properties.contains_key("age"));
    assert!(properties.contains_key("email"));
    assert_eq!(properties.len(), 3);
    assert_eq!(properties.get("age"), Some(&text("integer schema")));
    let required = schema.required().expect("required");
    assert_eq!(required, vec!["name", "age"]);
    assert!(schema.is_required("name"));
    assert!(schema.is_required("age"));
    assert!(!schema.is_required("email"));
}

#[test]
fn setting_a_property_again_replaces_its_schema() {
    let schema = ToolSchema::default()
        .with_property("x", text("first"))
        .with_property("y", text("other"))
        .with_property("x", text("second"));
    let properties = schema.properties().unwrap();
    assert_eq!(properties.len(), 2);
    assert_eq!(properties.get("x"), Some(&text("second")));
    assert_eq!(properties.get("y"), Some(&text("other")));
    let names: Vec<&str> = properties.entries().iter().map(|(k, _)| k.as_str()).collect();
    assert_eq!(names, vec!["x", "y"]);
}

#[test]
fn schema_edits_leave_non_objects_and_foreign_fields_alone() {
    let scalar = ToolSchema::new(JsonValue::Bool(true)).with_property("x", text("s")).with_required("x");
    assert_eq!(scalar.as_value(), &JsonValue::Bool(true));
    assert_eq!(scalar.schema_type(), None);

    let mut fields = JsonObject::new();
    fields.insert("properties".to_string(), text("not an object"));
    fields.insert("required".to_string(), text("not a list"));
    let odd = ToolSchema::new(JsonValue::Object(fields)).with_property("x", text("s")).with_required("x");
    let obj = match odd.as_value() {
        JsonValue::Object(o) => o,
        _ => panic!("object expected"),
    };
    assert_eq!(obj.get("properties"), Some(&text("not an object")));
    assert_eq!(obj.get("required"), Some(&text("not a list")));
    assert!(odd.properties().is_none());
    assert!(odd.required().is_none());
    assert!(!odd.is_required("x"));
}

#[test]
fn required_list_skips_items_that_are_not_strings() {
    let mut fields = JsonObject::new();
    fields.insert(
        "required".to_string(),
        JsonValue::Array(vec![text("a"), JsonValue::Null, text("b"), JsonValue::Bool(false)]),
    );
    let schema = ToolSchema::new(JsonValue::Object(fields)).with_required("c");
    assert_eq!(schema.required(), Some(vec!["a", "b", "c"]));
    assert!(schema.is_required("b"));
    assert!(!schema.is_required("d"));
}

#[test]
fn with_properties_replaces_the_properties_object() {
    let mut props = JsonObject::new();
    props.insert("only".to_string(), text("schema"));
    let schema = ToolSchema::default().with_property("old", text("s")).with_properties(props);
    let properties = schema.properties().unwrap();
    assert!(properties.contains_key("only"));
    assert!(!properties.contains_key("old"));
    let mut schema = schema;
    *schema.as_value_mut() = JsonValue::Null;
    assert_eq!(schema.as_value(), &JsonValue::Null);
}

#[test]
fn json_object_insert_returns_the_replaced_value() {
    let mut o = JsonObject::new();
    assert_eq!(o.insert("k".to_string(), text("1")), None);
    assert_eq!(o.insert("j".to_string(), text("2")), None);
    assert_eq!(o.insert("k".to_string(), text("3")), Some(text("1")));
    assert_eq!(o.get("k"), Some(&text("3")));
    assert_eq!(o.get("j"), Some(&text("2")));
    assert_eq!(o.get("z"), None);
    assert_eq!(o.len(), 2);
    let copy = JsonValue::Object(o.clone());
    assert_eq!(copy, JsonValue::Object(o));
}

fn tool_named(name: &str, description: &str) -> Tool {
    Tool::new(name, ToolSchema::default()).with_description(description)
}

#[test]
fn surface_lists_sort_by_key_whatever_their_arrangement() {
    let first = vec![tool_named("zeta", "z"), tool_named("alpha", "a"), tool_named("mid", "m")];
    let second = vec![tool_named("mid", "m"), tool_named("zeta", "z"), tool_named("alpha", "a")];
    let a: Vec<String> = sort_by_key_text(first).into_iter().map(|t| t.name).collect();
    let b: Vec<String> = sort_by_key_text(second).into_iter().map(|t| t.name).collect();
    assert_eq!(a, vec!["alpha", "mid", "zeta"]);
    assert_eq!(a, b);
}

#[test]
fn surface_sort_is_stable_and_orders_by_code_point() {
    let tools = vec![
        tool_named("b", "first b"),
        tool_named("B", "upper"),
        tool_named("a", "only a"),
        tool_named("b", "second b"),
        tool_named("", "empty"),
        tool_named("ab", "longer"),
    ];
    let sorted: Vec<(String, String)> = sort_by_key_text(tools)
        .into_iter()
        .map(|t| (t.name, t.description.unwrap()))
        .collect();
    let expected = vec![
        ("", "empty"),
        ("B", "upper"),
        ("a", "only a"),
        ("ab", "longer"),
        ("b", "first b"),
        ("b", "second b"),
    ];
    let expected: Vec<(String, String)> =
        expected.into_iter().map(|(n, d)| (n.to_string(), d.to_string())).collect();
    assert_eq!(sorted, expected);
    let prompts = sort_by_key_text(vec![Prompt::new("p2"), Prompt::new("p1")]);
    assert_eq!(prompts[0].name, "p1");
}

#[test]
fn text_order_matches_str_order() {
    for (a, b) in [("a", "b"), ("a", "ab"), ("", "a"), ("é", "z"), ("Z", "a"), ("same", "same")] {
        assert_eq!(str_lt(a, b), a < b, "{a} < {b}");
        assert_eq!(str_lt(b, a), b < a, "{b} < {a}");
    }
}

#[test]
fn with_arguments_adds_after_existing_arguments() {
    let p = Prompt::new("p").with_argument(tmcp::schema::prompts::PromptArgument::new("x"));
    let p = p.with_arguments(vec![tmcp::schema::prompts::PromptArgument::new("y")]);
    let names: Vec<&str> = p.arguments.as_ref().unwrap().iter().map(|a| a.name.as_str()).collect();
    assert_eq!(names, vec!["x", "y"]);
}
