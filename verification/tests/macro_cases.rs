use tmcp::callback_checks::{
    check_server, find_impl_method, is_option_cursor_type, is_server_ctx_type, is_string_type,
    is_unit_type, result_inner_type, type_path_last_ident, validate_custom_initialize_fn,
    validate_read_resource_fn, validate_resources_fn, validate_server_forwarders,
    validate_shutdown_fn, ArgShape, CallbackMethod, GenericArg, TypeShape,
};
use tmcp::tool_attrs::{
    flat_args_struct_name, group_dispatch_target, parse_group_meta, parse_ident_from_expr,
    parse_impl_block, parse_tool_method,
    tool_call_plan, tool_descriptor,
    tool_visibility, ArgumentBinding, AttrExpr, ImplMethod, ParamShape, ToolVisibility,
    ParamsLayout, SelfTypeShape, ToolAttribute, ToolMeta, ToolMethod, ToolReturnKind, TypeName,
};

fn typed() -> ParamShape {
    ParamShape::Typed { is_ctx: false, is_unit: false, simple_ident: true }
}

fn ctx() -> ParamShape {
    ParamShape::Typed { is_ctx: true, is_unit: false, simple_ident: true }
}

fn tool_attr() -> Vec<ToolAttribute> {
    vec![ToolAttribute::Bare]
}

fn flat_attr() -> Vec<ToolAttribute> {
    vec![ToolAttribute::List(Ok(vec![ToolMeta::Flag(Some("flat".to_string()))]))]
}

#[test]
fn test_parse_tool_method_valid() {
    let docs = vec![" This is a test tool".to_string()];
    let result = parse_tool_method(
        "test_tool",
        &docs,
        &tool_attr(),
        true,
        &vec![ParamShape::Receiver, ctx(), typed()],
        Some("Result"),
        None,
    )
    .unwrap();
    assert!(result.is_some());

    let tool = result.unwrap();
    assert_eq!(tool.name, "test_tool");
    assert_eq!(tool.docs, "This is a test tool");
}

#[test]
fn test_parse_tool_method_not_async() {
    let result = parse_tool_method(
        "test_tool",
        &vec![],
        &tool_attr(),
        false,
        &vec![ParamShape::Receiver, ctx(), typed()],
        Some("Result"),
        None,
    );
    assert!(result.is_err());
    assert!(result.unwrap_err().contains("must be async"));
}

#[test]
fn test_parse_tool_method_wrong_params() {
    let result = parse_tool_method(
        "test_tool",
        &vec![],
        &tool_attr(),
        true,
        &vec![ParamShape::Receiver, ctx(), ctx()],
        Some("Result"),
        None,
    );
    assert!(result.is_err());
    assert!(result.unwrap_err().contains("only one &ServerCtx parameter is allowed"));
}

#[test]
fn test_parse_tool_method_flat_params() {
    let tool = parse_tool_method(
        "test_tool",
        &vec![],
        &tool_attr(),
        true,
        &vec![ParamShape::Receiver, ctx(), typed(), typed()],
        Some("Result"),
        None,
    )
    .unwrap()
    .unwrap();
    assert!(matches!(tool.params, ParamsLayout::Flat(_)));
}

#[test]
fn test_parse_tool_method_flat_single_arg() {
    let tool = parse_tool_method(
        "test_tool",
        &vec![],
        &flat_attr(),
        true,
        &vec![ParamShape::Receiver, typed()],
        Some("Result"),
        None,
    )
    .unwrap()
    .unwrap();
    assert!(matches!(tool.params, ParamsLayout::Flat(_)));
}

#[test]
fn test_parse_tool_method_flat_pattern_error() {
    let tuple_pattern = ParamShape::Typed { is_ctx: false, is_unit: false, simple_ident: false };
    let result = parse_tool_method(
        "test_tool",
        &vec![],
        &flat_attr(),
        true,
        &vec![ParamShape::Receiver, ctx(), tuple_pattern],
        Some("Result"),
        None,
    );
    assert!(result.is_err());
    assert!(result.unwrap_err().contains("flat tool parameters must be simple identifiers"));
}

#[test]
fn test_parse_tool_method_both_self_types() {
    // `&self` and `&mut self` are both receivers.
    let shapes = vec![ParamShape::Receiver, ctx(), typed()];
    assert!(parse_tool_method("test_tool", &vec![], &tool_attr(), true, &shapes, Some("Result"), None)
        .unwrap()
        .is_some());
    assert!(parse_tool_method("test_tool", &vec![], &tool_attr(), true, &shapes, Some("Result"), None)
        .unwrap()
        .is_some());
}

#[test]
fn test_parse_tool_method_no_params() {
    let tool = parse_tool_method(
        "test_tool",
        &vec![],
        &tool_attr(),
        true,
        &vec![ParamShape::Receiver, ctx()],
        Some("ToolResult"),
        None,
    )
    .unwrap()
    .unwrap();
    assert!(matches!(tool.params, ParamsLayout::NoParams));
    assert!(matches!(tool.return_kind, ToolReturnKind::ToolResult));
}

#[test]
fn test_parse_tool_method_unit_params() {
    let unit = ParamShape::Typed { is_ctx: false, is_unit: true, simple_ident: false };
    let tool = parse_tool_method(
        "test_tool",
        &vec![],
        &tool_attr(),
        true,
        &vec![ParamShape::Receiver, ctx(), unit],
        Some("ToolResult"),
        None,
    )
    .unwrap()
    .unwrap();
    assert!(matches!(tool.params, ParamsLayout::Unit));
    assert!(matches!(tool.return_kind, ToolReturnKind::ToolResult));
}

#[test]
fn tool_methods_without_the_attribute_are_skipped() {
    let result = parse_tool_method(
        "helper",
        &vec![],
        &vec![ToolAttribute::Unrelated],
        false,
        &vec![],
        None,
        None,
    )
    .unwrap();
    assert!(result.is_none());
}

#[test]
fn tool_methods_must_return_a_result() {
    let result = parse_tool_method(
        "t",
        &vec![],
        &tool_attr(),
        true,
        &vec![ParamShape::Receiver],
        Some("String"),
        None,
    );
    assert_eq!(
        result.unwrap_err(),
        "tool methods must return Result<schema::CallToolResult> or ToolResult"
    );
}

fn path(last: &str) -> TypeShape {
    TypeShape::Path { last: Some(last.to_string()), angle_args: None }
}

fn generic(last: &str, args: Vec<TypeShape>) -> TypeShape {
    TypeShape::Path {
        last: Some(last.to_string()),
        angle_args: Some(args.into_iter().map(GenericArg::Type).collect()),
    }
}

fn shared_self() -> ArgShape {
    ArgShape::Receiver { reference: true, mutable: false }
}

fn ctx_param() -> ArgShape {
    ArgShape::Typed(TypeShape::Reference(Box::new(path("ServerCtx"))))
}

fn method(name: &str, is_async: bool, params: Vec<ArgShape>, output: Option<TypeShape>) -> CallbackMethod {
    CallbackMethod { name: name.to_string(), is_async, params, output }
}

#[test]
fn test_no_tools_error() {
    // impl TestServer { async fn helper(&self) -> String { .. } }
    let methods = vec![method("helper", true, vec![shared_self()], Some(path("String")))];
    let result = check_server(&methods, false, 0, 0, None, None, None, None, None);
    assert!(result.is_err());
    assert!(result.unwrap_err().contains("No tool methods or resource callbacks found"));
}

#[test]
fn test_missing_resource_callback_error() {
    // impl TestServer { async fn helper(&self) -> Result<()> { .. } } with resources_fn = docs
    let methods = vec![method(
        "helper",
        true,
        vec![shared_self()],
        Some(generic("Result", vec![TypeShape::Tuple(0)])),
    )];
    let result = check_server(&methods, false, 0, 0, None, Some("docs"), None, None, None);
    assert!(result.is_err());
    assert!(result.unwrap_err().contains("resources_fn function 'docs' not found"));
}

#[test]
fn resource_callbacks_with_the_right_shape_pass() {
    let methods = vec![
        method(
            "docs",
            true,
            vec![shared_self(), ctx_param(), ArgShape::Typed(generic("Option", vec![path("Cursor")]))],
            Some(generic("Result", vec![path("ListResourcesResult")])),
        ),
        method(
            "doc",
            true,
            vec![shared_self(), ctx_param(), ArgShape::Typed(path("String"))],
            Some(generic("Result", vec![path("ReadResourceResult")])),
        ),
        method("stop", true, vec![shared_self()], Some(generic("Result", vec![TypeShape::Tuple(0)]))),
    ];
    assert_eq!(
        check_server(&methods, false, 0, 0, None, Some("docs"), Some("doc"), None, Some("stop")),
        Ok(())
    );
    assert_eq!(validate_server_forwarders(&methods, None, None, None, None), Ok(()));
}

#[test]
fn callback_signature_errors_name_the_role_and_rule() {
    let sync = vec![method("cb", false, vec![shared_self()], None)];
    assert_eq!(validate_shutdown_fn(&sync, "cb"), Err("shutdown_fn function must be async".to_string()));

    let too_many = vec![method("cb", true, vec![shared_self(), ctx_param()], None)];
    assert_eq!(
        validate_shutdown_fn(&too_many, "cb"),
        Err("shutdown_fn function must have exactly 1 parameters".to_string())
    );

    let by_value = vec![method("cb", true, vec![ArgShape::Receiver { reference: false, mutable: false }], None)];
    assert_eq!(validate_shutdown_fn(&by_value, "cb"), Err("first parameter must be &self".to_string()));

    let no_result = vec![method("cb", true, vec![shared_self()], Some(path("String")))];
    assert_eq!(
        validate_shutdown_fn(&no_result, "cb"),
        Err("shutdown_fn function must return Result<T>".to_string())
    );

    let not_unit = vec![method("cb", true, vec![shared_self()], Some(generic("Result", vec![path("String")])))];
    assert_eq!(
        validate_shutdown_fn(&not_unit, "cb"),
        Err("shutdown_fn function must return Result<()>".to_string())
    );

    let wrong_cursor = vec![method(
        "cb",
        true,
        vec![shared_self(), ctx_param(), ArgShape::Typed(generic("Vec", vec![path("Cursor")]))],
        Some(generic("Result", vec![path("ListResourcesResult")])),
    )];
    assert_eq!(
        validate_resources_fn(&wrong_cursor, "cb"),
        Err("resources_fn parameter must be Option<Cursor>".to_string())
    );

    let wrong_payload = vec![method(
        "cb",
        true,
        vec![shared_self(), ctx_param(), ArgShape::Typed(path("String"))],
        Some(generic("Result", vec![path("ListResourcesResult")])),
    )];
    assert_eq!(
        validate_read_resource_fn(&wrong_payload, "cb"),
        Err("read_resource_fn function must return Result<ReadResourceResult>".to_string())
    );

    let init = vec![method(
        "init",
        true,
        vec![
            shared_self(),
            ctx_param(),
            ArgShape::Typed(path("String")),
            ArgShape::Typed(path("ClientCapabilities")),
            ArgShape::Typed(path("String")),
        ],
        Some(generic("Result", vec![path("InitializeResult")])),
    )];
    assert_eq!(
        validate_custom_initialize_fn(&init, "init"),
        Err("initialize_fn parameter must be Implementation".to_string())
    );
    assert_eq!(
        check_server(&init, false, 1, 0, Some("init"), None, None, None, None),
        Err("initialize_fn parameter must be Implementation".to_string())
    );
}

#[test]
fn type_shape_checks_read_the_last_segment() {
    let ctx = TypeShape::Reference(Box::new(path("ServerCtx")));
    assert!(is_server_ctx_type(&ctx));
    assert_eq!(type_path_last_ident(&ctx), Some(&"ServerCtx".to_string()));
    assert!(is_string_type(&path("String")));
    assert!(!is_string_type(&TypeShape::Other));
    assert!(is_unit_type(&TypeShape::Tuple(0)));
    assert!(!is_unit_type(&TypeShape::Tuple(2)));
    let cursor = TypeShape::Path {
        last: Some("Option".to_string()),
        angle_args: Some(vec![GenericArg::Other, GenericArg::Type(path("Cursor"))]),
    };
    assert!(is_option_cursor_type(&cursor));
    assert!(!is_option_cursor_type(&TypeShape::Reference(Box::new(generic("Option", vec![path("Cursor")])))));
    let output = Some(TypeShape::Path {
        last: Some("Result".to_string()),
        angle_args: Some(vec![GenericArg::Other, GenericArg::Type(path("Payload"))]),
    });
    assert_eq!(result_inner_type(&output, "x").unwrap(), &path("Payload"));
    assert_eq!(
        find_impl_method(&Vec::new(), "gone", "shutdown_fn").unwrap_err(),
        "shutdown_fn function 'gone' not found in impl block"
    );
}

fn impl_method(
    name: &str,
    docs: Vec<&str>,
    tool_attributes: Vec<ToolAttribute>,
    params: Vec<ParamShape>,
    return_last_segment: &str,
) -> ImplMethod {
    let group_attributes = tool_attributes.iter().map(|_| ToolAttribute::Unrelated).collect();
    ImplMethod {
        name: name.to_string(),
        doc_lines: docs.into_iter().map(|d| d.to_string()).collect(),
        tool_attributes,
        group_attributes,
        is_async: true,
        params,
        return_last_segment: Some(return_last_segment.to_string()),
        return_type_argument: None,
        has_return_type: true,
    }
}

#[test]
fn test_parse_impl_block() {
    // /// Test server implementation
    // impl TestServer {
    //     #[tool] /// Echo tool
    //     async fn echo(&self, context: &ServerCtx, params: EchoParams) -> Result<schema::CallToolResult>
    //     #[tool]
    //     async fn ping(&self, context: &ServerCtx, params: PingParams) -> Result<schema::CallToolResult>
    //     async fn helper(&self) -> String
    // }
    let methods = vec![
        impl_method("echo", vec![" Echo tool"], tool_attr(), vec![ParamShape::Receiver, ctx(), typed()], "Result"),
        impl_method("ping", vec![], tool_attr(), vec![ParamShape::Receiver, ctx(), typed()], "Result"),
        impl_method("helper", vec![], vec![], vec![ParamShape::Receiver], "String"),
    ];
    let info = parse_impl_block(
        &SelfTypeShape::Path(Some("TestServer".to_string())),
        &vec![" Test server implementation".to_string()],
        &methods,
    )
    .unwrap();
    assert_eq!(info.struct_name, "TestServer");
    assert_eq!(info.description, "Test server implementation");
    assert_eq!(info.tools.len(), 2);
    assert!(info.groups.is_empty());
    assert_eq!(info.tools[0].name, "echo");
    assert_eq!(info.tools[0].docs, "Echo tool");
    assert_eq!(info.tools[1].name, "ping");
}

#[test]
fn impl_blocks_refuse_unnamed_types_and_bad_methods() {
    let none: Vec<ImplMethod> = Vec::new();
    assert_eq!(
        parse_impl_block(&SelfTypeShape::Other, &vec![], &none).unwrap_err(),
        "Expected a struct or type name"
    );
    assert_eq!(parse_impl_block(&SelfTypeShape::Path(None), &vec![], &none).unwrap_err(), "Invalid type name");
    let mut sync_tool =
        impl_method("echo", vec![], tool_attr(), vec![ParamShape::Receiver, ctx(), typed()], "Result");
    sync_tool.is_async = false;
    assert_eq!(
        parse_impl_block(&SelfTypeShape::Path(Some("S".to_string())), &vec![], &vec![sync_tool]).unwrap_err(),
        "tool methods must be async"
    );
}

#[test]
fn impl_blocks_sort_methods_into_tools_and_groups() {
    let group = ImplMethod {
        name: "files".to_string(),
        doc_lines: vec![],
        tool_attributes: vec![ToolAttribute::Unrelated],
        group_attributes: vec![ToolAttribute::Bare],
        is_async: false,
        params: vec![ParamShape::Receiver],
        return_last_segment: Some("FileTools".to_string()),
        return_type_argument: None,
        has_return_type: true,
    };
    let tool = impl_method("echo", vec![], tool_attr(), vec![ParamShape::Receiver, ctx(), typed()], "Result");
    let info = parse_impl_block(&SelfTypeShape::Path(Some("S".to_string())), &vec![], &vec![group, tool]).unwrap();
    assert_eq!(info.tools.len(), 1);
    assert_eq!(info.groups.len(), 1);
    assert_eq!(info.groups[0].name, "files");
    assert_eq!(info.groups[0].segment_override, None);

    let both = ImplMethod {
        name: "x".to_string(),
        doc_lines: vec![],
        tool_attributes: vec![ToolAttribute::Bare, ToolAttribute::Unrelated],
        group_attributes: vec![ToolAttribute::Unrelated, ToolAttribute::Bare],
        is_async: false,
        params: vec![ParamShape::Receiver],
        return_last_segment: Some("Result".to_string()),
        return_type_argument: None,
        has_return_type: true,
    };
    // A synchronous #[tool] is refused before its #[group] reading matters.
    assert_eq!(
        parse_impl_block(&SelfTypeShape::Path(Some("S".to_string())), &vec![], &vec![both]).unwrap_err(),
        "tool methods must be async"
    );
}

fn described_tool(docs: Vec<&str>, attributes: Vec<ToolAttribute>, ret: &str, arg: Option<TypeName>) -> ToolMethod {
    let docs: Vec<String> = docs.into_iter().map(|d| d.to_string()).collect();
    parse_tool_method(
        "t",
        &docs,
        &attributes,
        true,
        &vec![ParamShape::Receiver, ctx(), typed()],
        Some(ret),
        arg.as_ref(),
    )
    .unwrap()
    .unwrap()
}

fn path_type(text: &str, last: &str) -> TypeName {
    TypeName { text: text.to_string(), path_last: Some(last.to_string()) }
}

#[test]
fn doc_comment_becomes_the_tool_description() {
    let d = tool_descriptor(&described_tool(vec![" Echo input back"], tool_attr(), "Result", None));
    assert_eq!(d.description.as_deref(), Some("Echo input back"));
    assert_eq!(d.output_schema, None);
    let bare = tool_descriptor(&described_tool(vec![], tool_attr(), "Result", None));
    assert_eq!(bare.description, None);
}

#[test]
fn tool_result_output_type_gives_the_output_schema() {
    let out = described_tool(vec![], tool_attr(), "ToolResult", Some(path_type("PingResponse", "PingResponse")));
    assert_eq!(out.output_type, Some(path_type("PingResponse", "PingResponse")));
    assert_eq!(tool_descriptor(&out).output_schema.as_deref(), Some("PingResponse"));

    let call = described_tool(
        vec![],
        tool_attr(),
        "ToolResult",
        Some(path_type("schema::CallToolResult", "CallToolResult")),
    );
    assert_eq!(tool_descriptor(&call).output_schema, None);

    // A `Result<..>` tool keeps no output type.
    let res = described_tool(vec![], tool_attr(), "Result", Some(path_type("CallToolResult", "CallToolResult")));
    assert_eq!(res.output_type, None);

    let attr = vec![ToolAttribute::List(Ok(vec![
        ToolMeta::Assign(Some("output_schema".to_string()), AttrExpr::Path("Out".to_string(), "Out".to_string())),
        ToolMeta::Assign(Some("title".to_string()), AttrExpr::Str("Nice".to_string())),
        ToolMeta::Assign(Some("read_only".to_string()), AttrExpr::Bool(true)),
    ]))];
    let t = described_tool(vec![], attr, "ToolResult", Some(path_type("Other", "Other")));
    let d = tool_descriptor(&t);
    assert_eq!(d.output_schema.as_deref(), Some("Out"));
    assert_eq!(d.title.as_deref(), Some("Nice"));
    assert_eq!(d.read_only, Some(true));
    assert!(d.icons.is_empty());
}

#[test]
fn flat_argument_structs_drop_raw_prefixes() {
    assert_eq!(flat_args_struct_name("r#Server", "r#r#type"), "__TmcpToolArgs_Server_type");
    assert_eq!(flat_args_struct_name("Calc", "add"), "__TmcpToolArgs_Calc_add");
    assert_eq!(flat_args_struct_name("r", "r#"), "__TmcpToolArgs_r_");
}

#[test]
fn tool_calls_bind_arguments_by_layout() {
    let whole = described_tool(vec![], tool_attr(), "ToolResult", None);
    let plan = tool_call_plan(&whole, "Calc");
    assert_eq!(plan.method, "t");
    assert!(plan.pass_context);
    assert_eq!(plan.binding, ArgumentBinding::Whole);
    assert!(plan.convert_result);

    let flat = parse_tool_method(
        "add",
        &vec![],
        &flat_attr(),
        true,
        &vec![ParamShape::Receiver, typed(), typed()],
        Some("Result"),
        None,
    )
    .unwrap()
    .unwrap();
    let plan = tool_call_plan(&flat, "r#Calc");
    assert!(!plan.pass_context);
    assert!(!plan.convert_result);
    assert_eq!(plan.binding, ArgumentBinding::Fields("__TmcpToolArgs_Calc_add".to_string(), vec![1, 2]));

    let none = parse_tool_method("ping", &vec![], &tool_attr(), true, &vec![ParamShape::Receiver], Some("Result"), None)
        .unwrap()
        .unwrap();
    assert_eq!(tool_call_plan(&none, "S").binding, ArgumentBinding::Ignored);
}

#[test]
fn group_tools_are_visible_always_only_when_marked_or_activation() {
    let plain = parse_tool_method("ping", &vec![], &tool_attr(), true, &vec![ParamShape::Receiver], Some("Result"), None)
        .unwrap()
        .unwrap();
    assert_eq!(tool_visibility(&plain), ToolVisibility::Group);
    let activate = parse_tool_method("activate", &vec![], &tool_attr(), true, &vec![ParamShape::Receiver], Some("Result"), None)
        .unwrap()
        .unwrap();
    assert_eq!(tool_visibility(&activate), ToolVisibility::Always);
    let always = vec![ToolAttribute::List(Ok(vec![ToolMeta::Flag(Some("always".to_string()))]))];
    let marked = parse_tool_method("x", &vec![], &always, true, &vec![ParamShape::Receiver], Some("Result"), None)
        .unwrap()
        .unwrap();
    assert_eq!(tool_visibility(&marked), ToolVisibility::Always);
}

fn group_item(name: &str, value: AttrExpr) -> ToolMeta {
    ToolMeta::Assign(Some(name.to_string()), value)
}

#[test]
fn group_type_settings_are_read_from_its_attributes() {
    let attrs = vec![
        ToolAttribute::Unrelated,
        ToolAttribute::List(Ok(vec![
            group_item("name", AttrExpr::Str("wx".to_string())),
            group_item("show_deactivator", AttrExpr::Bool(false)),
            group_item("on_activate", AttrExpr::Str("warm_up".to_string())),
        ])),
        ToolAttribute::List(Ok(vec![
            group_item("description", AttrExpr::Str("Forecasts".to_string())),
            group_item("on_deactivate", AttrExpr::Path("cool_down".to_string(), "cool_down".to_string())),
            group_item("name", AttrExpr::Str("weather".to_string())),
        ])),
    ];
    let meta = parse_group_meta(&attrs).unwrap();
    assert_eq!(meta.name.as_deref(), Some("weather"));
    assert_eq!(meta.description.as_deref(), Some("Forecasts"));
    assert_eq!(meta.show_deactivator, Some(false));
    assert_eq!(meta.on_activate.as_deref(), Some("warm_up"));
    assert_eq!(meta.on_deactivate.as_deref(), Some("cool_down"));

    let empty = parse_group_meta(&vec![ToolAttribute::Bare]).unwrap();
    assert!(empty.name.is_none() && empty.on_activate.is_none());
}

#[test]
fn group_type_settings_refuse_bad_items() {
    let one = |m: ToolMeta| parse_group_meta(&vec![ToolAttribute::List(Ok(vec![m]))]).unwrap_err();
    assert_eq!(one(ToolMeta::Flag(Some("x".to_string()))), "unsupported #[group] flag");
    assert_eq!(one(ToolMeta::List(false, None)), "unsupported #[group] list argument");
    assert_eq!(one(ToolMeta::Assign(None, AttrExpr::Bool(true))), "invalid #[group] argument");
    assert_eq!(one(group_item("colour", AttrExpr::Bool(true))), "Unknown #[group] argument: colour");
    assert_eq!(one(group_item("name", AttrExpr::Bool(true))), "expected a string literal");
    assert_eq!(one(group_item("show_deactivator", AttrExpr::Other)), "expected a boolean literal");
    assert_eq!(
        parse_group_meta(&vec![ToolAttribute::NameValue]).unwrap_err(),
        "#[group] does not support name-value syntax"
    );
}

#[test]
fn hook_names_must_be_identifiers() {
    assert_eq!(parse_ident_from_expr(&AttrExpr::Str("warm_up".to_string())).unwrap(), "warm_up");
    assert_eq!(
        parse_ident_from_expr(&AttrExpr::Str("fn".to_string())).unwrap_err(),
        "expected a valid identifier string literal"
    );
    assert_eq!(
        parse_ident_from_expr(&AttrExpr::Str("two words".to_string())).unwrap_err(),
        "expected a valid identifier string literal"
    );
    assert_eq!(
        parse_ident_from_expr(&AttrExpr::Path("a::b".to_string(), "b".to_string())).unwrap_err(),
        "expected an identifier"
    );
    assert_eq!(
        parse_ident_from_expr(&AttrExpr::Bool(true)).unwrap_err(),
        "expected a string literal or identifier"
    );
}

#[test]
fn unanswered_calls_go_to_the_first_addressed_group() {
    let segments = vec!["files".to_string(), "files.extra".to_string(), "db".to_string()];
    assert_eq!(group_dispatch_target("files.read", &segments), Some((0, "read".to_string())));
    assert_eq!(group_dispatch_target("files.extra.read", &segments), Some((0, "extra.read".to_string())));
    assert_eq!(group_dispatch_target("db.query", &segments), Some((2, "query".to_string())));
    assert_eq!(group_dispatch_target("dbquery", &segments), None);
    assert_eq!(group_dispatch_target("db.", &segments), Some((2, String::new())));
    assert_eq!(group_dispatch_target("other", &vec![]), None);
}
