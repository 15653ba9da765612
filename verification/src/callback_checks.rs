//! Signature checks of the callbacks that `#[mcp_server]` forwards to: a
//! callback named in the macro arguments must exist in the impl block, be
//! `async`, take `&self` and the expected parameters, and return the
//! expected `Result` payload.

use vstd::prelude::*;

use crate::text::{decimal, format_u64, owned, push_all, str_eq};
use crate::tool_attrs::{check_server_methods, server_refusal};

verus! {

/// The shape of a type in a callback signature, as far as the checks read it.
#[derive(Debug, PartialEq, Eq)]
pub enum TypeShape {
    /// A reference `&T` or `&mut T`.
    Reference(Box<TypeShape>),
    /// A path type: the identifier of its last segment (`None` for a path
    /// without segments), and that segment's generic arguments when they are
    /// written in angle brackets.
    Path { last: Option<String>, angle_args: Option<Vec<GenericArg>> },
    /// A tuple type of this many elements (`()` has none).
    Tuple(usize),
    /// Any other type.
    Other,
}

/// A generic argument in angle brackets.
#[derive(Debug, PartialEq, Eq)]
pub enum GenericArg {
    /// A type argument.
    Type(TypeShape),
    /// A lifetime, constant or binding.
    Other,
}

/// One parameter of a callback.
#[derive(Debug, PartialEq, Eq)]
pub enum ArgShape {
    /// The receiver: `self`, `&self` or `&mut self`.
    Receiver { reference: bool, mutable: bool },
    /// A typed parameter.
    Typed(TypeShape),
}

/// A method of the impl block, as far as the callback checks read it.
#[derive(Debug)]
pub struct CallbackMethod {
    /// The method's name.
    pub name: String,
    /// Whether it is `async`.
    pub is_async: bool,
    /// Its parameters, the receiver included.
    pub params: Vec<ArgShape>,
    /// Its return type (`None` for the default return type).
    pub output: Option<TypeShape>,
}

/// The identifier of the last path segment of a type, looking through
/// references.
pub open spec fn last_ident(t: TypeShape) -> Option<Seq<char>>
    decreases t,
{
    match t {
        TypeShape::Reference(inner) => last_ident(*inner),
        TypeShape::Path { last, .. } => match last {
            Some(s) => Some(s@),
            None => None,
        },
        _ => None,
    }
}

/// Whether a generic argument is a type whose path ends in `name`.
pub open spec fn type_arg_ends_with(a: GenericArg, name: Seq<char>) -> bool {
    a matches GenericArg::Type(t) && last_ident(t) == Some(name)
}

/// Whether a type is `Option<..Cursor..>`: a path ending in `Option` whose
/// angle-bracketed arguments include a type ending in `Cursor`.
pub open spec fn is_option_cursor(t: TypeShape) -> bool {
    match t {
        TypeShape::Path { last: Some(l), angle_args: Some(args) } => l@ == "Option"@ && exists|i: int|
            0 <= i < args@.len() && #[trigger] type_arg_ends_with(args@[i], "Cursor"@),
        _ => false,
    }
}

/// The last segment identifier of a type, looking through references.
pub fn type_path_last_ident(ty: &TypeShape) -> (r: Option<&String>)
    ensures
        match r {
            Some(s) => last_ident(*ty) == Some(s@),
            None => last_ident(*ty) is None,
        },
    decreases ty,
{
    match ty {
        TypeShape::Reference(inner) => type_path_last_ident(&**inner),
        TypeShape::Path { last, .. } => match last {
            Some(s) => Some(s),
            None => None,
        },
        _ => None,
    }
}

/// Whether a type's last path segment is `expected`.
pub fn type_path_ends_with(ty: &TypeShape, expected: &str) -> (r: bool)
    ensures
        r == (last_ident(*ty) == Some(expected@)),
{
    match type_path_last_ident(ty) {
        Some(s) => str_eq(s.as_str(), expected),
        None => false,
    }
}

/// Whether a type is `String`.
pub fn is_string_type(ty: &TypeShape) -> (r: bool)
    ensures
        r == (last_ident(*ty) == Some("String"@)),
{
    type_path_ends_with(ty, "String")
}

/// Whether a type is `&ServerCtx` (or any path ending in `ServerCtx`).
pub fn is_server_ctx_type(ty: &TypeShape) -> (r: bool)
    ensures
        r == (last_ident(*ty) == Some("ServerCtx"@)),
{
    type_path_ends_with(ty, "ServerCtx")
}

/// Whether a type is the unit type `()`.
pub fn is_unit_type(ty: &TypeShape) -> (r: bool)
    ensures
        r == (ty matches TypeShape::Tuple(n) && n == 0),
{
    match ty {
        TypeShape::Tuple(n) => *n == 0,
        _ => false,
    }
}

/// Whether a type is `Option<Cursor>`.
#[verifier::loop_isolation(false)]
pub fn is_option_cursor_type(ty: &TypeShape) -> (r: bool)
    ensures
        r == is_option_cursor(*ty),
{
    match ty {
        TypeShape::Path { last: Some(l), angle_args: Some(args) } => {
            if !str_eq(l.as_str(), "Option") {
                return false;
            }
            let mut i: usize = 0;
            while i < args.len()
                invariant
                    i <= args.len(),
                    forall|j: int| 0 <= j < i ==> !type_arg_ends_with(#[trigger] args@[j], "Cursor"@),
                decreases args.len() - i,
            {
                match &args[i] {
                    GenericArg::Type(t) => {
                        if type_path_ends_with(t, "Cursor") {
                            assert(type_arg_ends_with(args@[i as int], "Cursor"@));
                            return true;
                        }
                    },
                    GenericArg::Other => {},
                }
                i = i + 1;
            }
            false
        },
        _ => false,
    }
}

/// What a parameter's type must be.
#[derive(Debug, Clone, Copy, PartialEq, Eq)]
pub enum TypeCheck {
    /// A path (through references) whose last segment is this identifier.
    EndsWith(&'static str),
    /// `Option<Cursor>`.
    OptionCursor,
}

/// The rule for one parameter after `&self`: what its type must be, and how
/// an error message names that type.
#[derive(Debug, Clone, Copy, PartialEq, Eq)]
pub struct ArgRule {
    /// The type as error messages name it.
    pub expected: &'static str,
    /// The check its type must pass.
    pub check: TypeCheck,
}

/// What a callback must return.
#[derive(Debug, Clone, Copy, PartialEq, Eq)]
pub enum ResultRule {
    /// `Result<T>` with `T` a path ending in this identifier.
    Payload(&'static str),
    /// `Result<()>`.
    Unit,
}

/// Whether a type passes a check.
pub open spec fn type_passes(t: TypeShape, c: TypeCheck) -> bool {
    match c {
        TypeCheck::EndsWith(n) => last_ident(t) == Some(n@),
        TypeCheck::OptionCursor => is_option_cursor(t),
    }
}

/// The error for a first parameter that is not `&self`.
pub open spec fn receiver_failure(a: ArgShape) -> Option<Seq<char>> {
    match a {
        ArgShape::Receiver { reference: true, mutable: false } => None,
        _ => Some("first parameter must be &self"@),
    }
}

/// The error for a callback that is not `async`, has another number of
/// parameters than `n`, or does not take `&self` first.
pub open spec fn signature_failure(m: CallbackMethod, role: Seq<char>, n: nat) -> Option<Seq<char>> {
    if !m.is_async {
        Some(role + " function must be async"@)
    } else if m.params@.len() != n {
        Some(role + " function must have exactly "@ + decimal(n) + " parameters"@)
    } else {
        receiver_failure(m.params@[0])
    }
}

/// The error for a parameter whose type fails its rule.
pub open spec fn arg_failure(a: ArgShape, role: Seq<char>, rule: ArgRule) -> Option<Seq<char>> {
    if a matches ArgShape::Typed(t) && type_passes(t, rule.check) {
        None
    } else {
        Some(role + " parameter must be "@ + rule.expected@)
    }
}

/// The first error among the parameters after `&self`, from rule `k` on.
pub open spec fn args_failure_from(params: Seq<ArgShape>, role: Seq<char>, rules: Seq<ArgRule>, k: int) -> Option<Seq<char>>
    decreases rules.len() - k,
{
    if k < 0 || k >= rules.len() {
        None
    } else {
        match arg_failure(params[k + 1], role, rules[k]) {
            Some(e) => Some(e),
            None => args_failure_from(params, role, rules, k + 1),
        }
    }
}

/// The first type among generic arguments.
pub open spec fn first_type_arg(args: Seq<GenericArg>) -> Option<TypeShape>
    decreases args.len(),
{
    if args.len() == 0 {
        None
    } else {
        match args[0] {
            GenericArg::Type(t) => Some(t),
            GenericArg::Other => first_type_arg(args.drop_first()),
        }
    }
}

/// The payload `T` of a return type `Result<T>`.
pub open spec fn result_payload(output: Option<TypeShape>) -> Option<TypeShape> {
    match output {
        Some(TypeShape::Path { last: Some(l), angle_args: Some(args) }) => if l@ == "Result"@ {
            first_type_arg(args@)
        } else {
            None
        },
        _ => None,
    }
}

/// The error for a return type that breaks the rule.
pub open spec fn result_failure(output: Option<TypeShape>, role: Seq<char>, rule: ResultRule) -> Option<Seq<char>> {
    match result_payload(output) {
        None => Some(role + " function must return Result<T>"@),
        Some(t) => match rule {
            ResultRule::Payload(p) => if last_ident(t) == Some(p@) {
                None
            } else {
                Some(role + " function must return Result<"@ + p@ + ">"@)
            },
            ResultRule::Unit => if t matches TypeShape::Tuple(n) && n == 0 {
                None
            } else {
                Some(role + " function must return Result<()>"@)
            },
        },
    }
}

/// Whether `i` is the first method named `name`.
pub open spec fn is_method_at(methods: Seq<CallbackMethod>, name: Seq<char>, i: int) -> bool {
    &&& 0 <= i < methods.len()
    &&& methods[i].name@ == name
    &&& forall|j: int| 0 <= j < i ==> methods[j].name@ != name
}

/// The position of the first method named `name`.
pub open spec fn method_position(methods: Seq<CallbackMethod>, name: Seq<char>) -> Option<int> {
    if exists|i: int| is_method_at(methods, name, i) {
        Some(choose|i: int| is_method_at(methods, name, i))
    } else {
        None
    }
}

/// The error for a callback that is missing from the impl block.
pub open spec fn not_found_message(role: Seq<char>, name: Seq<char>) -> Seq<char> {
    role + " function '"@ + name + "' not found in impl block"@
}

/// The first error in the callback named `name` for the role, or `None` when
/// it passes every check.
pub open spec fn callback_failure(
    methods: Seq<CallbackMethod>,
    name: Seq<char>,
    role: Seq<char>,
    rules: Seq<ArgRule>,
    result: ResultRule,
) -> Option<Seq<char>> {
    match method_position(methods, name) {
        None => Some(not_found_message(role, name)),
        Some(i) => {
            let m = methods[i];
            match signature_failure(m, role, rules.len() + 1) {
                Some(e) => Some(e),
                None => match args_failure_from(m.params@, role, rules, 0) {
                    Some(e) => Some(e),
                    None => result_failure(m.output, role, result),
                },
            }
        },
    }
}

/// Whether `r` is the outcome a check with the given error (or none) gives.
pub open spec fn outcome_is(r: Result<(), String>, failure: Option<Seq<char>>) -> bool {
    match failure {
        Some(e) => r matches Err(m) && m@ == e,
        None => r is Ok,
    }
}

fn role_message(role: &str, tail: &str) -> (m: String)
    ensures
        m@ == role@ + tail@,
{
    let mut m = owned(role);
    push_all(&mut m, tail);
    m
}

/// Find the method named `fn_name`, for the callback role `role`.
pub fn find_impl_method<'a>(methods: &'a Vec<CallbackMethod>, fn_name: &str, role: &str) -> (r: Result<
    &'a CallbackMethod,
    String,
>)
    ensures
        match (r, method_position(methods@, fn_name@)) {
            (Ok(m), Some(i)) => *m == methods@[i],
            (Err(e), None) => e@ == not_found_message(role@, fn_name@),
            _ => false,
        },
{
    let mut i: usize = 0;
    while i < methods.len()
        invariant
            i <= methods.len(),
            forall|j: int| 0 <= j < i ==> methods@[j].name@ != fn_name@,
        decreases methods.len() - i,
    {
        if str_eq(methods[i].name.as_str(), fn_name) {
            proof {
                assert(is_method_at(methods@, fn_name@, i as int));
                let c = choose|c: int| is_method_at(methods@, fn_name@, c);
                assert(c == i);
            }
            return Ok(&methods[i]);
        }
        i = i + 1;
    }
    proof {
        if exists|c: int| is_method_at(methods@, fn_name@, c) {
            let c = choose|c: int| is_method_at(methods@, fn_name@, c);
            assert(methods@[c].name@ == fn_name@);
        }
    }
    let mut e = role_message(role, " function '");
    push_all(&mut e, fn_name);
    push_all(&mut e, "' not found in impl block");
    Err(e)
}

/// Check that a parameter is `&self`.
pub fn validate_shared_self_receiver(arg: &ArgShape) -> (r: Result<(), &'static str>)
    ensures
        match (r, receiver_failure(*arg)) {
            (Ok(()), None) => true,
            (Err(m), Some(e)) => m@ == e,
            _ => false,
        },
{
    match arg {
        ArgShape::Receiver { reference: true, mutable: false } => Ok(()),
        _ => Err("first parameter must be &self"),
    }
}

/// Check that a callback is `async`, takes `expected_param_count`
/// parameters, and takes `&self` first.
pub fn validate_callback_signature(method: &CallbackMethod, role: &str, expected_param_count: usize) -> (r: Result<(), String>)
    requires
        expected_param_count >= 1,
    ensures
        outcome_is(r, signature_failure(*method, role@, expected_param_count as nat)),
{
    if !method.is_async {
        return Err(role_message(role, " function must be async"));
    }
    if method.params.len() != expected_param_count {
        let mut e = role_message(role, " function must have exactly ");
        let n = format_u64(expected_param_count as u64);
        push_all(&mut e, n.as_str());
        push_all(&mut e, " parameters");
        return Err(e);
    }
    match validate_shared_self_receiver(&method.params[0]) {
        Ok(()) => Ok(()),
        Err(m) => Err(owned(m)),
    }
}

/// Check a parameter's type against its rule.
pub fn validate_callback_arg_type(arg: &ArgShape, role: &str, rule: &ArgRule) -> (r: Result<(), String>)
    ensures
        outcome_is(r, arg_failure(*arg, role@, *rule)),
{
    let passes = match arg {
        ArgShape::Typed(t) => match rule.check {
            TypeCheck::EndsWith(n) => type_path_ends_with(t, n),
            TypeCheck::OptionCursor => is_option_cursor_type(t),
        },
        ArgShape::Receiver { .. } => false,
    };
    if passes {
        Ok(())
    } else {
        let e = role_message(role, concat_expected(rule.expected).as_str());
        assert(e@ =~= role@ + " parameter must be "@ + rule.expected@);
        Err(e)
    }
}

fn concat_expected(expected: &str) -> (m: String)
    ensures
        m@ == " parameter must be "@ + expected@,
{
    let mut m = owned(" parameter must be ");
    push_all(&mut m, expected);
    m
}

/// The payload type `T` of a callback returning `Result<T>`.
#[verifier::loop_isolation(false)]
pub fn result_inner_type<'a>(output: &'a Option<TypeShape>, role: &str) -> (r: Result<&'a TypeShape, String>)
    ensures
        match (r, result_payload(*output)) {
            (Ok(t), Some(u)) => *t == u,
            (Err(m), None) => m@ == role@ + " function must return Result<T>"@,
            _ => false,
        },
{
    let args = match output {
        Some(TypeShape::Path { last: Some(l), angle_args: Some(args) }) => {
            if !str_eq(l.as_str(), "Result") {
                return Err(role_message(role, " function must return Result<T>"));
            }
            args
        },
        _ => {
            return Err(role_message(role, " function must return Result<T>"));
        },
    };
    let mut i: usize = 0;
    assert(args@.skip(0) =~= args@);
    while i < args.len()
        invariant
            i <= args.len(),
            first_type_arg(args@) == first_type_arg(args@.skip(i as int)),
        decreases args.len() - i,
    {
        match &args[i] {
            GenericArg::Type(t) => {
                assert(args@.skip(i as int)[0] == args@[i as int]);
                return Ok(t);
            },
            GenericArg::Other => {
                assert(args@.skip(i as int)[0] == args@[i as int]);
                assert(args@.skip(i as int).drop_first() =~= args@.skip(i + 1));
            },
        }
        i = i + 1;
    }
    assert(args@.skip(i as int).len() == 0);
    Err(role_message(role, " function must return Result<T>"))
}

/// Check that a callback returns `Result<T>` with `T` ending in
/// `expected_payload`.
pub fn validate_result_payload(method: &CallbackMethod, role: &str, expected_payload: &'static str) -> (r: Result<(), String>)
    ensures
        outcome_is(r, result_failure(method.output, role@, ResultRule::Payload(expected_payload))),
{
    let inner = result_inner_type(&method.output, role)?;
    if type_path_ends_with(inner, expected_payload) {
        Ok(())
    } else {
        let mut e = role_message(role, " function must return Result<");
        push_all(&mut e, expected_payload);
        push_all(&mut e, ">");
        Err(e)
    }
}

/// Check that a callback returns `Result<()>`.
pub fn validate_unit_result(method: &CallbackMethod, role: &str) -> (r: Result<(), String>)
    ensures
        outcome_is(r, result_failure(method.output, role@, ResultRule::Unit)),
{
    let inner = result_inner_type(&method.output, role)?;
    if is_unit_type(inner) {
        Ok(())
    } else {
        Err(role_message(role, " function must return Result<()>"))
    }
}

/// Check the callback named `fn_name` for a role: it must be in the impl
/// block, be `async`, take `&self` and then one parameter per rule, and
/// return what `result` asks for. The first failing check gives the error.
#[verifier::loop_isolation(false)]
pub fn validate_callback(
    methods: &Vec<CallbackMethod>,
    fn_name: &str,
    role: &str,
    rules: &Vec<ArgRule>,
    result: ResultRule,
) -> (r: Result<(), String>)
    requires
        rules.len() < usize::MAX,
    ensures
        outcome_is(r, callback_failure(methods@, fn_name@, role@, rules@, result)),
{
    let method = match find_impl_method(methods, fn_name, role) {
        Ok(m) => m,
        Err(e) => {
            return Err(e);
        },
    };
    match validate_callback_signature(method, role, rules.len() + 1) {
        Ok(()) => {},
        Err(e) => {
            return Err(e);
        },
    }
    let mut k: usize = 0;
    while k < rules.len()
        invariant
            k <= rules.len(),
            args_failure_from(method.params@, role@, rules@, 0) == args_failure_from(
                method.params@,
                role@,
                rules@,
                k as int,
            ),
        decreases rules.len() - k,
    {
        match validate_callback_arg_type(&method.params[k + 1], role, &rules[k]) {
            Ok(()) => {},
            Err(e) => {
                return Err(e);
            },
        }
        k = k + 1;
    }
    match result {
        ResultRule::Payload(p) => validate_result_payload(method, role, p),
        ResultRule::Unit => validate_unit_result(method, role),
    }
}

/// The rule for a `&ServerCtx` parameter.
pub open spec fn ctx_rule() -> ArgRule {
    ArgRule { expected: "&ServerCtx", check: TypeCheck::EndsWith("ServerCtx") }
}

/// The rule for a `String` parameter.
pub open spec fn string_rule() -> ArgRule {
    ArgRule { expected: "String", check: TypeCheck::EndsWith("String") }
}

/// The rule for an `Option<Cursor>` parameter.
pub open spec fn cursor_rule() -> ArgRule {
    ArgRule { expected: "Option<Cursor>", check: TypeCheck::OptionCursor }
}

/// The rules for the parameters of a custom initialize function.
pub open spec fn initialize_rules() -> Seq<ArgRule> {
    seq![
        ctx_rule(),
        string_rule(),
        ArgRule { expected: "ClientCapabilities", check: TypeCheck::EndsWith("ClientCapabilities") },
        ArgRule { expected: "Implementation", check: TypeCheck::EndsWith("Implementation") },
    ]
}

/// Validate the signature of a custom initialize function.
pub fn validate_custom_initialize_fn(methods: &Vec<CallbackMethod>, fn_name: &str) -> (r: Result<(), String>)
    ensures
        outcome_is(
            r,
            callback_failure(
                methods@,
                fn_name@,
                "initialize_fn"@,
                initialize_rules(),
                ResultRule::Payload("InitializeResult"),
            ),
        ),
{
    let rules = vec![
        ArgRule { expected: "&ServerCtx", check: TypeCheck::EndsWith("ServerCtx") },
        ArgRule { expected: "String", check: TypeCheck::EndsWith("String") },
        ArgRule { expected: "ClientCapabilities", check: TypeCheck::EndsWith("ClientCapabilities") },
        ArgRule { expected: "Implementation", check: TypeCheck::EndsWith("Implementation") },
    ];
    assert(rules@ =~= initialize_rules());
    validate_callback(methods, fn_name, "initialize_fn", &rules, ResultRule::Payload("InitializeResult"))
}

/// Validate the signature of a list resources callback.
pub fn validate_resources_fn(methods: &Vec<CallbackMethod>, fn_name: &str) -> (r: Result<(), String>)
    ensures
        outcome_is(
            r,
            callback_failure(
                methods@,
                fn_name@,
                "resources_fn"@,
                seq![ctx_rule(), cursor_rule()],
                ResultRule::Payload("ListResourcesResult"),
            ),
        ),
{
    let rules = vec![
        ArgRule { expected: "&ServerCtx", check: TypeCheck::EndsWith("ServerCtx") },
        ArgRule { expected: "Option<Cursor>", check: TypeCheck::OptionCursor },
    ];
    assert(rules@ =~= seq![ctx_rule(), cursor_rule()]);
    validate_callback(methods, fn_name, "resources_fn", &rules, ResultRule::Payload("ListResourcesResult"))
}

/// Validate the signature of a read resource callback.
pub fn validate_read_resource_fn(methods: &Vec<CallbackMethod>, fn_name: &str) -> (r: Result<(), String>)
    ensures
        outcome_is(
            r,
            callback_failure(
                methods@,
                fn_name@,
                "read_resource_fn"@,
                seq![ctx_rule(), string_rule()],
                ResultRule::Payload("ReadResourceResult"),
            ),
        ),
{
    let rules = vec![
        ArgRule { expected: "&ServerCtx", check: TypeCheck::EndsWith("ServerCtx") },
        ArgRule { expected: "String", check: TypeCheck::EndsWith("String") },
    ];
    assert(rules@ =~= seq![ctx_rule(), string_rule()]);
    validate_callback(methods, fn_name, "read_resource_fn", &rules, ResultRule::Payload("ReadResourceResult"))
}

/// Validate the signature of a list resource templates callback.
pub fn validate_resource_templates_fn(methods: &Vec<CallbackMethod>, fn_name: &str) -> (r: Result<(), String>)
    ensures
        outcome_is(
            r,
            callback_failure(
                methods@,
                fn_name@,
                "resource_templates_fn"@,
                seq![ctx_rule(), cursor_rule()],
                ResultRule::Payload("ListResourceTemplatesResult"),
            ),
        ),
{
    let rules = vec![
        ArgRule { expected: "&ServerCtx", check: TypeCheck::EndsWith("ServerCtx") },
        ArgRule { expected: "Option<Cursor>", check: TypeCheck::OptionCursor },
    ];
    assert(rules@ =~= seq![ctx_rule(), cursor_rule()]);
    validate_callback(
        methods,
        fn_name,
        "resource_templates_fn",
        &rules,
        ResultRule::Payload("ListResourceTemplatesResult"),
    )
}

/// Validate the signature of a shutdown callback.
pub fn validate_shutdown_fn(methods: &Vec<CallbackMethod>, fn_name: &str) -> (r: Result<(), String>)
    ensures
        outcome_is(r, callback_failure(methods@, fn_name@, "shutdown_fn"@, Seq::empty(), ResultRule::Unit)),
{
    let rules: Vec<ArgRule> = Vec::new();
    assert(rules@ =~= Seq::<ArgRule>::empty());
    validate_callback(methods, fn_name, "shutdown_fn", &rules, ResultRule::Unit)
}

/// The first of two errors.
pub open spec fn first_failure(a: Option<Seq<char>>, b: Option<Seq<char>>) -> Option<Seq<char>> {
    match a {
        Some(e) => Some(e),
        None => b,
    }
}

/// The error of the callback named for a role, when one is named.
pub open spec fn named_callback_failure(
    methods: Seq<CallbackMethod>,
    name: Option<Seq<char>>,
    role: Seq<char>,
    rules: Seq<ArgRule>,
    result: ResultRule,
) -> Option<Seq<char>> {
    match name {
        Some(n) => callback_failure(methods, n, role, rules, result),
        None => None,
    }
}

/// The characters of an optional name.
pub open spec fn opt_view(s: Option<&str>) -> Option<Seq<char>> {
    match s {
        Some(t) => Some(t@),
        None => None,
    }
}

/// The first error among the forwarded resource and shutdown callbacks, in
/// the order resources, read resource, resource templates, shutdown.
pub open spec fn forwarders_failure(
    methods: Seq<CallbackMethod>,
    resources_fn: Option<Seq<char>>,
    read_resource_fn: Option<Seq<char>>,
    resource_templates_fn: Option<Seq<char>>,
    shutdown_fn: Option<Seq<char>>,
) -> Option<Seq<char>> {
    first_failure(
        named_callback_failure(
            methods,
            resources_fn,
            "resources_fn"@,
            seq![ctx_rule(), cursor_rule()],
            ResultRule::Payload("ListResourcesResult"),
        ),
        first_failure(
            named_callback_failure(
                methods,
                read_resource_fn,
                "read_resource_fn"@,
                seq![ctx_rule(), string_rule()],
                ResultRule::Payload("ReadResourceResult"),
            ),
            first_failure(
                named_callback_failure(
                    methods,
                    resource_templates_fn,
                    "resource_templates_fn"@,
                    seq![ctx_rule(), cursor_rule()],
                    ResultRule::Payload("ListResourceTemplatesResult"),
                ),
                named_callback_failure(methods, shutdown_fn, "shutdown_fn"@, Seq::empty(), ResultRule::Unit),
            ),
        ),
    )
}

/// Validate every forwarded resource and shutdown callback that the macro
/// arguments name.
pub fn validate_server_forwarders(
    methods: &Vec<CallbackMethod>,
    resources_fn: Option<&str>,
    read_resource_fn: Option<&str>,
    resource_templates_fn: Option<&str>,
    shutdown_fn: Option<&str>,
) -> (r: Result<(), String>)
    ensures
        outcome_is(
            r,
            forwarders_failure(
                methods@,
                opt_view(resources_fn),
                opt_view(read_resource_fn),
                opt_view(resource_templates_fn),
                opt_view(shutdown_fn),
            ),
        ),
{
    if let Some(name) = resources_fn {
        match validate_resources_fn(methods, name) {
            Ok(()) => {},
            Err(e) => {
                return Err(e);
            },
        }
    }
    if let Some(name) = read_resource_fn {
        match validate_read_resource_fn(methods, name) {
            Ok(()) => {},
            Err(e) => {
                return Err(e);
            },
        }
    }
    if let Some(name) = resource_templates_fn {
        match validate_resource_templates_fn(methods, name) {
            Ok(()) => {},
            Err(e) => {
                return Err(e);
            },
        }
    }
    if let Some(name) = shutdown_fn {
        match validate_shutdown_fn(methods, name) {
            Ok(()) => {},
            Err(e) => {
                return Err(e);
            },
        }
    }
    Ok(())
}

/// The first error `#[mcp_server]` reports before generating code: the
/// refusal of the impl block as a whole, then the custom initialize
/// function, then the forwarded callbacks.
pub open spec fn server_failure(
    methods: Seq<CallbackMethod>,
    has_toolset: bool,
    tools: nat,
    groups: nat,
    initialize_fn: Option<Seq<char>>,
    resources_fn: Option<Seq<char>>,
    read_resource_fn: Option<Seq<char>>,
    resource_templates_fn: Option<Seq<char>>,
    shutdown_fn: Option<Seq<char>>,
) -> Option<Seq<char>> {
    first_failure(
        server_refusal(
            has_toolset,
            tools,
            groups,
            resources_fn is Some || read_resource_fn is Some || resource_templates_fn is Some,
        ),
        first_failure(
            named_callback_failure(
                methods,
                initialize_fn,
                "initialize_fn"@,
                initialize_rules(),
                ResultRule::Payload("InitializeResult"),
            ),
            forwarders_failure(methods, resources_fn, read_resource_fn, resource_templates_fn, shutdown_fn),
        ),
    )
}

/// Run the checks `#[mcp_server]` makes of an annotated impl block, given its
/// methods, the number of tool and group methods found in it, and the
/// callbacks its arguments name.
pub fn check_server(
    methods: &Vec<CallbackMethod>,
    has_toolset: bool,
    tools: usize,
    groups: usize,
    initialize_fn: Option<&str>,
    resources_fn: Option<&str>,
    read_resource_fn: Option<&str>,
    resource_templates_fn: Option<&str>,
    shutdown_fn: Option<&str>,
) -> (r: Result<(), String>)
    ensures
        outcome_is(
            r,
            server_failure(
                methods@,
                has_toolset,
                tools as nat,
                groups as nat,
                opt_view(initialize_fn),
                opt_view(resources_fn),
                opt_view(read_resource_fn),
                opt_view(resource_templates_fn),
                opt_view(shutdown_fn),
            ),
        ),
{
    let resource_callbacks = resources_fn.is_some() || read_resource_fn.is_some()
        || resource_templates_fn.is_some();
    match check_server_methods(has_toolset, tools, groups, resource_callbacks) {
        Ok(()) => {},
        Err(m) => {
            return Err(owned(m));
        },
    }
    if let Some(name) = initialize_fn {
        match validate_custom_initialize_fn(methods, name) {
            Ok(()) => {},
            Err(e) => {
                return Err(e);
            },
        }
    }
    validate_server_forwarders(methods, resources_fn, read_resource_fn, resource_templates_fn, shutdown_fn)
}

} // verus!
