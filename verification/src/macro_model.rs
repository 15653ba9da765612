//! The decisions of the `#[mcp_server]` and `#[group]` attribute macros:
//! the table of forwarder arguments, the capabilities they imply, the
//! reading of the macro arguments, the protocol version strategy, doc
//! comment text and default names.

use vstd::prelude::*;

use heck::ToSnakeCase;

use crate::text::{join, join_strings, owned, push_all, str_eq, trim, trim_str, views};

verus! {

/// Task metadata parameter shape for a tool method.
#[derive(Debug, Clone, Copy, PartialEq, Eq)]
pub enum TaskParamKind {
    /// The method does not receive task metadata.
    Absent,
    /// The method receives `TaskMetadata` and requires task metadata.
    Required,
    /// The method receives `Option<TaskMetadata>`.
    Optional,
}

/// Whether task support is forbidden, optional, or required.
#[derive(Debug, Clone, Copy, PartialEq, Eq)]
pub enum ToolTaskSupport {
    /// Task metadata must not be provided.
    Forbidden,
    /// Task metadata may be provided.
    Optional,
    /// Task metadata must be provided.
    Required,
}

/// Parameter shape accepted by a forwarder callback after `&self`.
#[derive(Debug, Clone, Copy, PartialEq, Eq)]
pub enum ForwarderParam {
    /// A `&ServerCtx` context reference, passed through as `context`.
    Ctx,
    /// A `String` payload such as a resource URI or task id.
    Str(&'static str),
    /// An `Option<Cursor>` pagination cursor.
    Cursor,
}

/// Capability advertisement implied by configuring a forwarder.
#[derive(Debug, Clone, Copy, PartialEq, Eq)]
pub enum ForwarderCap {
    /// The forwarder implies no capability change.
    NoCapability,
    /// The forwarder implies the resources capability.
    Resources {
        /// Whether the forwarder also implies resource list-change notifications.
        list_changed: bool,
    },
    /// The forwarder implies the `tasks/list` capability.
    TasksList,
    /// The forwarder implies the `tasks/cancel` capability.
    TasksCancel,
}

/// Specification of one `*_fn` forwarder argument of `#[mcp_server]`.
#[derive(Debug, Clone)]
pub struct ForwarderSpec {
    /// Keyword argument name accepted by `#[mcp_server(...)]`.
    pub arg: &'static str,
    /// `ServerHandler` trait method the forwarder implements.
    pub trait_method: &'static str,
    /// Parameter shapes after the `&self` receiver.
    pub params: Vec<ForwarderParam>,
    /// `Result<T>` payload type in `tmcp::schema`, or `None` for `Result<()>`.
    pub payload: Option<&'static str>,
    /// Capability advertisement implied by configuring the forwarder.
    pub cap: ForwarderCap,
}

/// The number of forwarder arguments.
pub const FORWARDER_COUNT: usize = 8;

/// The keyword argument of each forwarder, in table order.
pub open spec fn forwarder_arg(i: int) -> Seq<char> {
    if i == 0 {
        "shutdown_fn"@
    } else if i == 1 {
        "resources_fn"@
    } else if i == 2 {
        "read_resource_fn"@
    } else if i == 3 {
        "resource_templates_fn"@
    } else if i == 4 {
        "get_task_fn"@
    } else if i == 5 {
        "get_task_payload_fn"@
    } else if i == 6 {
        "list_tasks_fn"@
    } else {
        "cancel_task_fn"@
    }
}

/// The capability each forwarder implies, in table order: the resource
/// listings imply resources with list changes, reading implies resources
/// alone, task listing and cancellation imply their task capability.
pub open spec fn forwarder_cap(i: int) -> ForwarderCap {
    if i == 1 || i == 3 {
        ForwarderCap::Resources { list_changed: true }
    } else if i == 2 {
        ForwarderCap::Resources { list_changed: false }
    } else if i == 6 {
        ForwarderCap::TasksList
    } else if i == 7 {
        ForwarderCap::TasksCancel
    } else {
        ForwarderCap::NoCapability
    }
}

/// The `ServerHandler` method each forwarder implements, in table order.
pub open spec fn forwarder_method(i: int) -> Seq<char> {
    if i == 0 {
        "on_shutdown"@
    } else if i == 1 {
        "list_resources"@
    } else if i == 2 {
        "read_resource"@
    } else if i == 3 {
        "list_resource_templates"@
    } else if i == 4 {
        "get_task"@
    } else if i == 5 {
        "get_task_payload"@
    } else if i == 6 {
        "list_tasks"@
    } else {
        "cancel_task"@
    }
}

/// The parameters after `&self` of each forwarder's method: none for
/// shutdown; the context and a cursor for the listings; the context and the
/// resource URI or task id for the others.
pub open spec fn forwarder_params(i: int) -> Seq<ForwarderParam> {
    if i == 0 {
        Seq::empty()
    } else if i == 1 || i == 3 || i == 6 {
        seq![ForwarderParam::Ctx, ForwarderParam::Cursor]
    } else if i == 2 {
        seq![ForwarderParam::Ctx, ForwarderParam::Str("uri")]
    } else {
        seq![ForwarderParam::Ctx, ForwarderParam::Str("task_id")]
    }
}

/// The `Result` payload type of each forwarder's method.
pub open spec fn forwarder_payload(i: int) -> Option<Seq<char>> {
    if i == 0 {
        None
    } else if i == 1 {
        Some("ListResourcesResult"@)
    } else if i == 2 {
        Some("ReadResourceResult"@)
    } else if i == 3 {
        Some("ListResourceTemplatesResult"@)
    } else if i == 4 {
        Some("GetTaskResult"@)
    } else if i == 5 {
        Some("GetTaskPayloadResult"@)
    } else if i == 6 {
        Some("ListTasksResult"@)
    } else {
        Some("CancelTaskResult"@)
    }
}

/// Whether a spec is the table entry `i`: its argument name, method,
/// parameters, payload type and implied capability.
pub open spec fn is_forwarder(s: ForwarderSpec, i: int) -> bool {
    &&& s.arg@ == forwarder_arg(i)
    &&& s.trait_method@ == forwarder_method(i)
    &&& s.params@ == forwarder_params(i)
    &&& match s.payload {
        Some(p) => forwarder_payload(i) == Some(p@),
        None => forwarder_payload(i) is None,
    }
    &&& s.cap == forwarder_cap(i)
}

/// Each forwarder implements its own method: no two forwarders share an
/// argument name, a method or a payload type.
#[verifier::spinoff_prover]
pub proof fn lemma_forwarders_distinct(i: int, j: int)
    requires
        0 <= i < j < FORWARDER_COUNT,
    ensures
        forwarder_arg(i) != forwarder_arg(j),
        forwarder_method(i) != forwarder_method(j),
        forwarder_payload(i) != forwarder_payload(j),
{
    reveal_strlit("on_shutdown");
    reveal_strlit("list_resources");
    reveal_strlit("read_resource");
    reveal_strlit("list_resource_templates");
    reveal_strlit("get_task");
    reveal_strlit("get_task_payload");
    reveal_strlit("list_tasks");
    reveal_strlit("cancel_task");
    reveal_strlit("shutdown_fn");
    reveal_strlit("resources_fn");
    reveal_strlit("read_resource_fn");
    reveal_strlit("resource_templates_fn");
    reveal_strlit("get_task_fn");
    reveal_strlit("get_task_payload_fn");
    reveal_strlit("list_tasks_fn");
    reveal_strlit("cancel_task_fn");
    reveal_strlit("ListResourcesResult");
    reveal_strlit("ReadResourceResult");
    reveal_strlit("ListResourceTemplatesResult");
    reveal_strlit("GetTaskResult");
    reveal_strlit("GetTaskPayloadResult");
    reveal_strlit("ListTasksResult");
    reveal_strlit("CancelTaskResult");
    reveal_strlit("_fn");
    let (mi, mj) = (forwarder_method(i), forwarder_method(j));
    let (ai, aj) = (forwarder_arg(i), forwarder_arg(j));
    assert(mi.len() != mj.len() || mi[0] != mj[0] || mi[1] != mj[1]);
    assert(ai.len() != aj.len() || ai[0] != aj[0] || ai[1] != aj[1]);
    assert(i == 0 || forwarder_payload(i)->0.len() != forwarder_payload(j)->0.len());
}

/// Each forwarder's argument is named after the method it implements: the
/// argument ends in `_fn`, and the method name ends with the rest of the
/// argument (`read_resource_fn` implements `read_resource`, `resources_fn`
/// implements `list_resources`, `shutdown_fn` implements `on_shutdown`).
pub proof fn lemma_forwarder_named_by_method(i: int)
    requires
        0 <= i < FORWARDER_COUNT,
    ensures
        ({
            let a = forwarder_arg(i);
            let m = forwarder_method(i);
            &&& a.len() > 3
            &&& a.skip(a.len() - 3) == "_fn"@
            &&& m.len() >= a.len() - 3
            &&& m.skip(m.len() - (a.len() - 3)) == a.take(a.len() - 3)
        }),
{
    reveal_strlit("on_shutdown");
    reveal_strlit("list_resources");
    reveal_strlit("read_resource");
    reveal_strlit("list_resource_templates");
    reveal_strlit("get_task");
    reveal_strlit("get_task_payload");
    reveal_strlit("list_tasks");
    reveal_strlit("cancel_task");
    reveal_strlit("shutdown_fn");
    reveal_strlit("resources_fn");
    reveal_strlit("read_resource_fn");
    reveal_strlit("resource_templates_fn");
    reveal_strlit("get_task_fn");
    reveal_strlit("get_task_payload_fn");
    reveal_strlit("list_tasks_fn");
    reveal_strlit("cancel_task_fn");
    reveal_strlit("ListResourcesResult");
    reveal_strlit("ReadResourceResult");
    reveal_strlit("ListResourceTemplatesResult");
    reveal_strlit("GetTaskResult");
    reveal_strlit("GetTaskPayloadResult");
    reveal_strlit("ListTasksResult");
    reveal_strlit("CancelTaskResult");
    reveal_strlit("_fn");
    let a = forwarder_arg(i);
    let m = forwarder_method(i);
    assert(a.skip(a.len() - 3) =~= "_fn"@);
    assert(m.skip(m.len() - (a.len() - 3)) =~= a.take(a.len() - 3));
}

/// A forwarder whose method lists something takes a cursor, and one that
/// acts on a resource or task takes its URI or id; every forwarder but
/// shutdown takes the context first and returns a payload.
pub proof fn lemma_forwarder_params_follow_method(i: int)
    requires
        0 < i < FORWARDER_COUNT,
    ensures
        forwarder_params(i).len() == 2,
        forwarder_params(i)[0] == ForwarderParam::Ctx,
        forwarder_payload(i) is Some,
        (forwarder_params(i)[1] == ForwarderParam::Cursor) <==> forwarder_method(i).take(5) == "list_"@,
{
    reveal_strlit("on_shutdown");
    reveal_strlit("list_resources");
    reveal_strlit("read_resource");
    reveal_strlit("list_resource_templates");
    reveal_strlit("get_task");
    reveal_strlit("get_task_payload");
    reveal_strlit("list_tasks");
    reveal_strlit("cancel_task");
    reveal_strlit("shutdown_fn");
    reveal_strlit("resources_fn");
    reveal_strlit("read_resource_fn");
    reveal_strlit("resource_templates_fn");
    reveal_strlit("get_task_fn");
    reveal_strlit("get_task_payload_fn");
    reveal_strlit("list_tasks_fn");
    reveal_strlit("cancel_task_fn");
    reveal_strlit("ListResourcesResult");
    reveal_strlit("ReadResourceResult");
    reveal_strlit("ListResourceTemplatesResult");
    reveal_strlit("GetTaskResult");
    reveal_strlit("GetTaskPayloadResult");
    reveal_strlit("ListTasksResult");
    reveal_strlit("CancelTaskResult");
    reveal_strlit("_fn");
    reveal_strlit("list_");
    let m = forwarder_method(i);
    if i == 1 || i == 3 || i == 6 {
        assert(m.take(5) =~= "list_"@);
    } else {
        assert(m.take(5)[0] != "list_"@[0] || m.take(5)[1] != "list_"@[1]);
    }
}

/// One forwarder table entry.
fn spec_entry(
    arg: &'static str,
    trait_method: &'static str,
    params: Vec<ForwarderParam>,
    payload: Option<&'static str>,
    cap: ForwarderCap,
) -> (s: ForwarderSpec)
    ensures
        s.arg == arg,
        s.trait_method == trait_method,
        s.params == params,
        s.payload == payload,
        s.cap == cap,
{
    ForwarderSpec { arg, trait_method, params, payload, cap }
}

/// The entry `i` of the forwarder table.
pub fn forwarder(i: usize) -> (s: ForwarderSpec)
    requires
        i < FORWARDER_COUNT,
    ensures
        is_forwarder(s, i as int),
{
    if i == 0 {
        spec_entry("shutdown_fn", "on_shutdown", Vec::new(), None, ForwarderCap::NoCapability)
    } else if i == 1 {
        spec_entry(
            "resources_fn",
            "list_resources",
            vec![ForwarderParam::Ctx, ForwarderParam::Cursor],
            Some("ListResourcesResult"),
            ForwarderCap::Resources { list_changed: true },
        )
    } else if i == 2 {
        spec_entry(
            "read_resource_fn",
            "read_resource",
            vec![ForwarderParam::Ctx, ForwarderParam::Str("uri")],
            Some("ReadResourceResult"),
            ForwarderCap::Resources { list_changed: false },
        )
    } else if i == 3 {
        spec_entry(
            "resource_templates_fn",
            "list_resource_templates",
            vec![ForwarderParam::Ctx, ForwarderParam::Cursor],
            Some("ListResourceTemplatesResult"),
            ForwarderCap::Resources { list_changed: true },
        )
    } else if i == 4 {
        spec_entry(
            "get_task_fn",
            "get_task",
            vec![ForwarderParam::Ctx, ForwarderParam::Str("task_id")],
            Some("GetTaskResult"),
            ForwarderCap::NoCapability,
        )
    } else if i == 5 {
        spec_entry(
            "get_task_payload_fn",
            "get_task_payload",
            vec![ForwarderParam::Ctx, ForwarderParam::Str("task_id")],
            Some("GetTaskPayloadResult"),
            ForwarderCap::NoCapability,
        )
    } else if i == 6 {
        spec_entry(
            "list_tasks_fn",
            "list_tasks",
            vec![ForwarderParam::Ctx, ForwarderParam::Cursor],
            Some("ListTasksResult"),
            ForwarderCap::TasksList,
        )
    } else {
        spec_entry(
            "cancel_task_fn",
            "cancel_task",
            vec![ForwarderParam::Ctx, ForwarderParam::Str("task_id")],
            Some("CancelTaskResult"),
            ForwarderCap::TasksCancel,
        )
    }
}

/// All `*_fn` forwarder arguments accepted by `#[mcp_server]`, in table
/// order.
pub fn forwarders() -> (r: Vec<ForwarderSpec>)
    ensures
        r.len() == FORWARDER_COUNT,
        forall|i: int| 0 <= i < FORWARDER_COUNT ==> is_forwarder(#[trigger] r@[i], i),
{
    let mut r: Vec<ForwarderSpec> = Vec::new();
    let mut i: usize = 0;
    while i < FORWARDER_COUNT
        invariant
            i <= FORWARDER_COUNT,
            r.len() == i,
            forall|j: int| 0 <= j < i ==> is_forwarder(#[trigger] r@[j], j),
        decreases FORWARDER_COUNT - i,
    {
        r.push(forwarder(i));
        i = i + 1;
    }
    r
}

/// The table position of the forwarder with the given keyword argument.
pub open spec fn forwarder_index(arg: Seq<char>) -> Option<int> {
    if exists|i: int| 0 <= i < FORWARDER_COUNT && forwarder_arg(i) == arg {
        Some(choose|i: int| 0 <= i < FORWARDER_COUNT && forwarder_arg(i) == arg)
    } else {
        None
    }
}

/// Find the forwarder with the given keyword argument.
pub fn find_forwarder(arg: &str) -> (r: Option<usize>)
    ensures
        match r {
            Some(i) => i < FORWARDER_COUNT && forwarder_arg(i as int) == arg@,
            None => forall|i: int| 0 <= i < FORWARDER_COUNT ==> forwarder_arg(i) != arg@,
        },
{
    let mut i: usize = 0;
    while i < FORWARDER_COUNT
        invariant
            i <= FORWARDER_COUNT,
            forall|j: int| 0 <= j < i ==> forwarder_arg(j) != arg@,
        decreases FORWARDER_COUNT - i,
    {
        let spec = forwarder(i);
        if str_eq(spec.arg, arg) {
            return Some(i);
        }
        i = i + 1;
    }
    None
}

/// A forwarder argument bound to a callback method name.
#[derive(Debug, Clone)]
pub struct ForwarderBinding {
    /// The spec entry for the forwarder argument.
    pub spec: ForwarderSpec,
    /// The callback method named in the macro arguments.
    pub fn_name: String,
}

/// Strategy for selecting the protocol version to use.
#[derive(Debug, Clone, Copy, PartialEq, Eq)]
pub enum ProtocolVersionStrategy {
    /// Always use the latest supported protocol version.
    Latest,
    /// Use the client's requested protocol version.
    Client,
}

/// Parsed arguments of `#[mcp_server]`; expressions are held as their
/// source text.
#[derive(Debug, Clone, Default)]
pub struct ServerMacroArgs {
    /// Optional custom initialize function name.
    pub initialize_fn: Option<String>,
    /// Configured `*_fn` forwarder callbacks in declaration order.
    pub forwarders: Vec<ForwarderBinding>,
    /// Optional server name override.
    pub name: Option<String>,
    /// Optional server version override.
    pub version: Option<String>,
    /// Optional instructions override.
    pub instructions: Option<String>,
    /// Protocol version negotiation strategy.
    pub protocol_version: Option<ProtocolVersionStrategy>,
    /// Optional ToolSet field name for progressive discovery.
    pub toolset: Option<String>,
}

/// What a keyword argument of `#[mcp_server]` sets.
#[derive(Debug, Clone, Copy, PartialEq, Eq)]
pub enum MacroArgument {
    /// A forwarder, by table position.
    Forwarder(usize),
    /// `initialize_fn`.
    InitializeFn,
    /// `name`.
    Name,
    /// `version`.
    Version,
    /// `instructions`.
    Instructions,
    /// `protocol_version`.
    ProtocolVersion,
    /// `toolset`.
    Toolset,
    /// Anything else, which is refused.
    Unknown,
}

/// What a keyword argument sets: the forwarders first, then the fixed
/// keywords, anything else being unknown.
pub open spec fn macro_argument_of(ident: Seq<char>) -> MacroArgument {
    match forwarder_index(ident) {
        Some(i) => MacroArgument::Forwarder(i as usize),
        None => if ident == "initialize_fn"@ {
            MacroArgument::InitializeFn
        } else if ident == "name"@ {
            MacroArgument::Name
        } else if ident == "version"@ {
            MacroArgument::Version
        } else if ident == "instructions"@ {
            MacroArgument::Instructions
        } else if ident == "protocol_version"@ {
            MacroArgument::ProtocolVersion
        } else if ident == "toolset"@ {
            MacroArgument::Toolset
        } else {
            MacroArgument::Unknown
        },
    }
}

proof fn lemma_forwarder_args_distinct(i: int, j: int)
    requires
        0 <= i < FORWARDER_COUNT,
        0 <= j < FORWARDER_COUNT,
        forwarder_arg(i) == forwarder_arg(j),
    ensures
        i == j,
{
    reveal_strlit("shutdown_fn");
    reveal_strlit("resources_fn");
    reveal_strlit("read_resource_fn");
    reveal_strlit("resource_templates_fn");
    reveal_strlit("get_task_fn");
    reveal_strlit("get_task_payload_fn");
    reveal_strlit("list_tasks_fn");
    reveal_strlit("cancel_task_fn");
    assert(forwarder_arg(0) == "shutdown_fn"@);
    assert(forwarder_arg(1) == "resources_fn"@);
    assert(forwarder_arg(2) == "read_resource_fn"@);
    assert(forwarder_arg(3) == "resource_templates_fn"@);
    assert(forwarder_arg(4) == "get_task_fn"@);
    assert(forwarder_arg(5) == "get_task_payload_fn"@);
    assert(forwarder_arg(6) == "list_tasks_fn"@);
    assert(forwarder_arg(7) == "cancel_task_fn"@);
    if i != j {
        if i == 0 {
            assert(j == 1 ==> "shutdown_fn"@.len() != "resources_fn"@.len());
            assert(j == 2 ==> "shutdown_fn"@.len() != "read_resource_fn"@.len());
            assert(j == 3 ==> "shutdown_fn"@.len() != "resource_templates_fn"@.len());
            assert(j == 4 ==> "shutdown_fn"@[0] != "get_task_fn"@[0]);
            assert(j == 5 ==> "shutdown_fn"@.len() != "get_task_payload_fn"@.len());
            assert(j == 6 ==> "shutdown_fn"@.len() != "list_tasks_fn"@.len());
            assert(j == 7 ==> "shutdown_fn"@.len() != "cancel_task_fn"@.len());
        } else if i == 1 {
            assert(j == 0 ==> "resources_fn"@.len() != "shutdown_fn"@.len());
            assert(j == 2 ==> "resources_fn"@.len() != "read_resource_fn"@.len());
            assert(j == 3 ==> "resources_fn"@.len() != "resource_templates_fn"@.len());
            assert(j == 4 ==> "resources_fn"@.len() != "get_task_fn"@.len());
            assert(j == 5 ==> "resources_fn"@.len() != "get_task_payload_fn"@.len());
            assert(j == 6 ==> "resources_fn"@.len() != "list_tasks_fn"@.len());
            assert(j == 7 ==> "resources_fn"@.len() != "cancel_task_fn"@.len());
        } else if i == 2 {
            assert(j == 0 ==> "read_resource_fn"@.len() != "shutdown_fn"@.len());
            assert(j == 1 ==> "read_resource_fn"@.len() != "resources_fn"@.len());
            assert(j == 3 ==> "read_resource_fn"@.len() != "resource_templates_fn"@.len());
            assert(j == 4 ==> "read_resource_fn"@.len() != "get_task_fn"@.len());
            assert(j == 5 ==> "read_resource_fn"@.len() != "get_task_payload_fn"@.len());
            assert(j == 6 ==> "read_resource_fn"@.len() != "list_tasks_fn"@.len());
            assert(j == 7 ==> "read_resource_fn"@.len() != "cancel_task_fn"@.len());
        } else if i == 3 {
            assert(j == 0 ==> "resource_templates_fn"@.len() != "shutdown_fn"@.len());
            assert(j == 1 ==> "resource_templates_fn"@.len() != "resources_fn"@.len());
            assert(j == 2 ==> "resource_templates_fn"@.len() != "read_resource_fn"@.len());
            assert(j == 4 ==> "resource_templates_fn"@.len() != "get_task_fn"@.len());
            assert(j == 5 ==> "resource_templates_fn"@.len() != "get_task_payload_fn"@.len());
            assert(j == 6 ==> "resource_templates_fn"@.len() != "list_tasks_fn"@.len());
            assert(j == 7 ==> "resource_templates_fn"@.len() != "cancel_task_fn"@.len());
        } else if i == 4 {
            assert(j == 0 ==> "get_task_fn"@[0] != "shutdown_fn"@[0]);
            assert(j == 1 ==> "get_task_fn"@.len() != "resources_fn"@.len());
            assert(j == 2 ==> "get_task_fn"@.len() != "read_resource_fn"@.len());
            assert(j == 3 ==> "get_task_fn"@.len() != "resource_templates_fn"@.len());
            assert(j == 5 ==> "get_task_fn"@.len() != "get_task_payload_fn"@.len());
            assert(j == 6 ==> "get_task_fn"@.len() != "list_tasks_fn"@.len());
            assert(j == 7 ==> "get_task_fn"@.len() != "cancel_task_fn"@.len());
        } else if i == 5 {
            assert(j == 0 ==> "get_task_payload_fn"@.len() != "shutdown_fn"@.len());
            assert(j == 1 ==> "get_task_payload_fn"@.len() != "resources_fn"@.len());
            assert(j == 2 ==> "get_task_payload_fn"@.len() != "read_resource_fn"@.len());
            assert(j == 3 ==> "get_task_payload_fn"@.len() != "resource_templates_fn"@.len());
            assert(j == 4 ==> "get_task_payload_fn"@.len() != "get_task_fn"@.len());
            assert(j == 6 ==> "get_task_payload_fn"@.len() != "list_tasks_fn"@.len());
            assert(j == 7 ==> "get_task_payload_fn"@.len() != "cancel_task_fn"@.len());
        } else if i == 6 {
            assert(j == 0 ==> "list_tasks_fn"@.len() != "shutdown_fn"@.len());
            assert(j == 1 ==> "list_tasks_fn"@.len() != "resources_fn"@.len());
            assert(j == 2 ==> "list_tasks_fn"@.len() != "read_resource_fn"@.len());
            assert(j == 3 ==> "list_tasks_fn"@.len() != "resource_templates_fn"@.len());
            assert(j == 4 ==> "list_tasks_fn"@.len() != "get_task_fn"@.len());
            assert(j == 5 ==> "list_tasks_fn"@.len() != "get_task_payload_fn"@.len());
            assert(j == 7 ==> "list_tasks_fn"@.len() != "cancel_task_fn"@.len());
        } else if i == 7 {
            assert(j == 0 ==> "cancel_task_fn"@.len() != "shutdown_fn"@.len());
            assert(j == 1 ==> "cancel_task_fn"@.len() != "resources_fn"@.len());
            assert(j == 2 ==> "cancel_task_fn"@.len() != "read_resource_fn"@.len());
            assert(j == 3 ==> "cancel_task_fn"@.len() != "resource_templates_fn"@.len());
            assert(j == 4 ==> "cancel_task_fn"@.len() != "get_task_fn"@.len());
            assert(j == 5 ==> "cancel_task_fn"@.len() != "get_task_payload_fn"@.len());
            assert(j == 6 ==> "cancel_task_fn"@.len() != "list_tasks_fn"@.len());
        }
    }
}

/// Classify a keyword argument of `#[mcp_server]`.
pub fn classify_argument(ident: &str) -> (r: MacroArgument)
    ensures
        r == macro_argument_of(ident@),
{
    match find_forwarder(ident) {
        Some(i) => {
            proof {
                assert(forwarder_index(ident@) is Some);
                let k = choose|k: int| 0 <= k < FORWARDER_COUNT && forwarder_arg(k) == ident@;
                lemma_forwarder_args_distinct(i as int, k);
            }
            MacroArgument::Forwarder(i)
        },
        None => {
            if str_eq(ident, "initialize_fn") {
                MacroArgument::InitializeFn
            } else if str_eq(ident, "name") {
                MacroArgument::Name
            } else if str_eq(ident, "version") {
                MacroArgument::Version
            } else if str_eq(ident, "instructions") {
                MacroArgument::Instructions
            } else if str_eq(ident, "protocol_version") {
                MacroArgument::ProtocolVersion
            } else if str_eq(ident, "toolset") {
                MacroArgument::Toolset
            } else {
                MacroArgument::Unknown
            }
        },
    }
}

/// The message for a keyword argument that `#[mcp_server]` does not know.
pub fn unknown_argument_error(ident: &str) -> (m: String)
    ensures
        m@ == "Unknown argument: "@ + ident@,
{
    let mut m = owned("Unknown argument: ");
    push_all(&mut m, ident);
    m
}

/// Whether some binding configures the forwarder with the given argument.
pub open spec fn binds_arg(bindings: Seq<ForwarderBinding>, arg: Seq<char>) -> bool {
    exists|k: int| 0 <= k < bindings.len() && #[trigger] bindings[k].spec.arg@ == arg
}

/// Whether some binding implies a capability satisfying `p`.
pub open spec fn some_cap(bindings: Seq<ForwarderBinding>, p: spec_fn(ForwarderCap) -> bool) -> bool {
    exists|k: int| 0 <= k < bindings.len() && p(#[trigger] bindings[k].spec.cap)
}

impl ServerMacroArgs {
    /// Bind the forwarder at table position `index` to a callback; a
    /// forwarder given twice is refused.
    pub fn bind_forwarder(&mut self, index: usize, fn_name: String) -> (r: Result<(), String>)
        requires
            index < FORWARDER_COUNT,
        ensures
            binds_arg(old(self).forwarders@, forwarder_arg(index as int)) ==> (r matches Err(m)
                && m@ == "duplicate argument: "@ + forwarder_arg(index as int))
                && final(self).forwarders@ == old(self).forwarders@,
            !binds_arg(old(self).forwarders@, forwarder_arg(index as int)) ==> r is Ok
                && final(self).forwarders@.len() == old(self).forwarders@.len() + 1
                && final(self).forwarders@.drop_last() == old(self).forwarders@
                && is_forwarder(final(self).forwarders@.last().spec, index as int)
                && final(self).forwarders@.last().fn_name == fn_name,
            final(self).initialize_fn == old(self).initialize_fn,
            final(self).protocol_version == old(self).protocol_version,
    {
        let spec = forwarder(index);
        let mut k: usize = 0;
        while k < self.forwarders.len()
            invariant
                k <= self.forwarders.len(),
                is_forwarder(spec, index as int),
                forall|j: int| 0 <= j < k ==> self.forwarders@[j].spec.arg@ != spec.arg@,
            decreases self.forwarders.len() - k,
        {
            if str_eq(self.forwarders[k].spec.arg, spec.arg) {
                let mut m = owned("duplicate argument: ");
                push_all(&mut m, spec.arg);
                return Err(m);
            }
            k = k + 1;
        }
        self.forwarders.push(ForwarderBinding { spec, fn_name });
        Ok(())
    }

    /// Return true if any resource protocol method should be generated.
    pub fn has_resource_callbacks(&self) -> (r: bool)
        ensures
            r == some_cap(self.forwarders@, |c: ForwarderCap| c is Resources),
    {
        let mut k: usize = 0;
        while k < self.forwarders.len()
            invariant
                k <= self.forwarders.len(),
                forall|j: int| 0 <= j < k ==> !(self.forwarders@[j].spec.cap is Resources),
            decreases self.forwarders.len() - k,
        {
            if let ForwarderCap::Resources { .. } = self.forwarders[k].spec.cap {
                return true;
            }
            k = k + 1;
        }
        false
    }

    /// Return true if resource listing capability should report list
    /// changes.
    pub fn resources_list_changed(&self) -> (r: bool)
        ensures
            r == some_cap(
                self.forwarders@,
                |c: ForwarderCap| c == (ForwarderCap::Resources { list_changed: true }),
            ),
    {
        let mut k: usize = 0;
        while k < self.forwarders.len()
            invariant
                k <= self.forwarders.len(),
                forall|j: int|
                    0 <= j < k ==> self.forwarders@[j].spec.cap != (ForwarderCap::Resources {
                        list_changed: true,
                    }),
            decreases self.forwarders.len() - k,
        {
            if let ForwarderCap::Resources { list_changed: true } = self.forwarders[k].spec.cap {
                return true;
            }
            k = k + 1;
        }
        false
    }

    /// Return true if the `tasks/list` capability should be advertised.
    pub fn tasks_list(&self) -> (r: bool)
        ensures
            r == some_cap(self.forwarders@, |c: ForwarderCap| c == ForwarderCap::TasksList),
    {
        let mut k: usize = 0;
        while k < self.forwarders.len()
            invariant
                k <= self.forwarders.len(),
                forall|j: int| 0 <= j < k ==> self.forwarders@[j].spec.cap != ForwarderCap::TasksList,
            decreases self.forwarders.len() - k,
        {
            if let ForwarderCap::TasksList = self.forwarders[k].spec.cap {
                return true;
            }
            k = k + 1;
        }
        false
    }

    /// Return true if the `tasks/cancel` capability should be advertised.
    pub fn tasks_cancel(&self) -> (r: bool)
        ensures
            r == some_cap(self.forwarders@, |c: ForwarderCap| c == ForwarderCap::TasksCancel),
    {
        let mut k: usize = 0;
        while k < self.forwarders.len()
            invariant
                k <= self.forwarders.len(),
                forall|j: int|
                    0 <= j < k ==> self.forwarders@[j].spec.cap != ForwarderCap::TasksCancel,
            decreases self.forwarders.len() - k,
        {
            if let ForwarderCap::TasksCancel = self.forwarders[k].spec.cap {
                return true;
            }
            k = k + 1;
        }
        false
    }
}

/// The Unicode lowercase mapping of a string (`str::to_lowercase`).
pub uninterp spec fn unicode_lowercase(s: Seq<char>) -> Seq<char>;

/// Lowercase a string (`str::to_lowercase`); its result is named, not
/// stated.
#[verifier::external_body]
pub(crate) fn to_lowercase(s: &str) -> (r: String)
    ensures
        r@ == unicode_lowercase(s@),
{
    s.to_lowercase()
}

/// The strategy a `protocol_version` value names, ignoring case: `latest`,
/// or `client` and its synonym `requested`.
pub open spec fn strategy_named(value: Seq<char>) -> Option<ProtocolVersionStrategy> {
    let v = unicode_lowercase(value);
    if v == "latest"@ {
        Some(ProtocolVersionStrategy::Latest)
    } else if v == "client"@ || v == "requested"@ {
        Some(ProtocolVersionStrategy::Client)
    } else {
        None
    }
}

/// The strategy that follows a lowercased `protocol_version` value.
pub open spec fn strategy_of_lowercase(v: Seq<char>) -> Option<ProtocolVersionStrategy> {
    if v == "latest"@ {
        Some(ProtocolVersionStrategy::Latest)
    } else if v == "client"@ || v == "requested"@ {
        Some(ProtocolVersionStrategy::Client)
    } else {
        None
    }
}

/// Read the strategy from an already lowercased value.
pub fn strategy_from_lowercase(v: &str) -> (r: Result<ProtocolVersionStrategy, &'static str>)
    ensures
        match (r, strategy_of_lowercase(v@)) {
            (Ok(s), Some(t)) => s == t,
            (Err(m), None) => m@ == "protocol_version must be \"latest\" or \"client\""@,
            _ => false,
        },
{
    if str_eq(v, "latest") {
        Ok(ProtocolVersionStrategy::Latest)
    } else if str_eq(v, "client") || str_eq(v, "requested") {
        Ok(ProtocolVersionStrategy::Client)
    } else {
        Err("protocol_version must be \"latest\" or \"client\"")
    }
}

/// Parse the protocol version strategy from the text of the
/// `protocol_version` argument (a string literal's value or a path's last
/// segment).
pub fn parse_protocol_version_strategy(value: &str) -> (r: Result<ProtocolVersionStrategy, &'static str>)
    ensures
        match (r, strategy_named(value@)) {
            (Ok(s), Some(t)) => s == t,
            (Err(m), None) => m@ == "protocol_version must be \"latest\" or \"client\""@,
            _ => false,
        },
{
    let lower = to_lowercase(value);
    strategy_from_lowercase(lower.as_str())
}

/// The doc comment lines, trimmed, without the empty ones.
pub open spec fn doc_lines(docs: Seq<Seq<char>>) -> Seq<Seq<char>>
    decreases docs.len(),
{
    if docs.len() == 0 {
        Seq::empty()
    } else {
        let rest = doc_lines(docs.drop_last());
        let line = trim(docs.last());
        if line.len() == 0 {
            rest
        } else {
            rest.push(line)
        }
    }
}

/// Collect and normalize doc comment strings: each line trimmed, empty
/// lines dropped, the rest joined with newlines.
pub fn extract_doc_comment(docs: &Vec<String>) -> (r: String)
    ensures
        r@ == join(doc_lines(views(docs@)), "\n"@),
{
    let mut lines: Vec<String> = Vec::new();
    let mut i: usize = 0;
    while i < docs.len()
        invariant
            i <= docs.len(),
            views(lines@) == doc_lines(views(docs@.take(i as int))),
        decreases docs.len() - i,
    {
        let line = trim_str(docs[i].as_str());
        proof {
            assert(views(docs@.take(i + 1)).drop_last() =~= views(docs@.take(i as int)));
            assert(views(docs@.take(i + 1)).last() == docs@[i as int]@);
        }
        let line_chars = crate::text::chars_of(line.as_str());
        if line_chars.len() > 0 {
            proof {
                assert(views(lines@.push(line)) =~= views(lines@).push(line@));
            }
            lines.push(line);
        }
        i = i + 1;
    }
    assert(docs@.take(docs.len() as int) == docs@);
    join_strings(&lines, "\n")
}

/// The snake_case form of an identifier, as `heck` computes it.
pub uninterp spec fn snake_case(s: Seq<char>) -> Seq<char>;

/// Convert an identifier to snake_case (`heck::ToSnakeCase`); the result is
/// named, not stated.
#[verifier::external_body]
fn to_snake_case(s: &str) -> (r: String)
    ensures
        r@ == snake_case(s@),
{
    s.to_snake_case()
}

/// The default server name: the snake_case form of the server type's name.
pub fn default_server_name(struct_name: &str) -> (r: String)
    ensures
        r@ == snake_case(struct_name@),
{
    to_snake_case(struct_name)
}

/// Whether a group name is usable: non-empty and without `.`.
pub open spec fn valid_group_name(name: Seq<char>) -> bool {
    name.len() > 0 && !name.contains('.')
}

/// The name a group asks for: the explicit one, or the snake_case form of
/// the group type's name.
pub open spec fn group_name_candidate(explicit: Option<String>, ident: Seq<char>) -> Seq<char> {
    match explicit {
        Some(n) => n@,
        None => snake_case(ident),
    }
}

/// The name of a group: the explicit name, or the snake_case form of the
/// group type's name; an empty name or one with `.` is refused.
pub fn group_name(explicit: Option<String>, ident: &str) -> (r: Result<String, &'static str>)
    ensures
        ({
            let name = group_name_candidate(explicit, ident@);
            match r {
                Ok(n) => n@ == name && valid_group_name(name),
                Err(m) => !valid_group_name(name) && m@
                    == "group name must be non-empty and must not contain '.'"@,
            }
        }),
{
    let ghost expected = group_name_candidate(explicit, ident@);
    let name = match explicit {
        Some(n) => n,
        None => to_snake_case(ident),
    };
    assert(name@ == expected);
    let v = crate::text::chars_of(name.as_str());
    let mut i: usize = 0;
    while i < v.len()
        invariant
            i <= v.len(),
            v@ == name@,
            name@ == expected,
            expected == group_name_candidate(explicit, ident@),
            forall|j: int| 0 <= j < i ==> v@[j] != '.',
        decreases v.len() - i,
    {
        if v[i] == '.' {
            assert(name@[i as int] == '.');
            assert(name@.contains('.'));
            return Err("group name must be non-empty and must not contain '.'");
        }
        i = i + 1;
    }
    if v.len() == 0 {
        return Err("group name must be non-empty and must not contain '.'");
    }
    Ok(name)
}

/// The settings of `#[group(...)]` on a group type.
#[derive(Debug, Clone, Default)]
pub struct GroupMeta {
    /// The group's name.
    pub name: Option<String>,
    /// The group's description.
    pub description: Option<String>,
    /// Whether the group lists its deactivation tool.
    pub show_deactivator: Option<bool>,
    /// The method run when the group is activated.
    pub on_activate: Option<String>,
    /// The method run when the group is deactivated.
    pub on_deactivate: Option<String>,
}

/// The configuration the derived `Group` impl returns.
#[derive(Debug, Clone)]
pub struct GroupConfigPlan {
    /// The group's name.
    pub name: String,
    /// The group's description.
    pub description: String,
    /// Whether the deactivation tool is listed.
    pub show_deactivator: bool,
    /// The method run on activation.
    pub on_activate: Option<String>,
    /// The method run on deactivation.
    pub on_deactivate: Option<String>,
    /// Whether the impl requires the type to be `Clone + Send + Sync`: it
    /// does when a hook is set, since each hook holds a copy of the group.
    pub requires_clone: bool,
}

/// The view of an optional text.
pub open spec fn opt_text(o: Option<String>) -> Option<Seq<char>> {
    match o {
        Some(s) => Some(s@),
        None => None,
    }
}

fn copy_opt(o: &Option<String>) -> (r: Option<String>)
    ensures
        opt_text(r) == opt_text(*o),
{
    match o {
        Some(s) => Some(s.clone()),
        None => None,
    }
}

/// The configuration derived for a group type: `Group` derives only for a
/// struct; the name is the explicit one or the snake_case type name and
/// must be usable; the description is the explicit one or the doc comment;
/// the deactivation tool is listed unless switched off; the hooks are kept,
/// and either one makes the impl require `Clone`.
pub fn group_config(is_struct: bool, ident: &str, docs: &Vec<String>, meta: &GroupMeta) -> (r: Result<
    GroupConfigPlan,
    &'static str,
>)
    ensures
        !is_struct ==> (r matches Err(m) && m@ == "Group can only be derived for structs"@),
        is_struct && !valid_group_name(group_name_candidate(meta.name, ident@)) ==> (r matches Err(m) && m@
            == "group name must be non-empty and must not contain '.'"@),
        is_struct && valid_group_name(group_name_candidate(meta.name, ident@)) ==> (r matches Ok(c) && {
            &&& c.name@ == group_name_candidate(meta.name, ident@)
            &&& c.description@ == match meta.description {
                Some(d) => d@,
                None => join(doc_lines(views(docs@)), "\n"@),
            }
            &&& c.show_deactivator == match meta.show_deactivator {
                Some(b) => b,
                None => true,
            }
            &&& opt_text(c.on_activate) == opt_text(meta.on_activate)
            &&& opt_text(c.on_deactivate) == opt_text(meta.on_deactivate)
            &&& c.requires_clone == (meta.on_activate is Some || meta.on_deactivate is Some)
        }),
{
    if !is_struct {
        return Err("Group can only be derived for structs");
    }
    let name = match group_name(copy_opt(&meta.name), ident) {
        Ok(n) => n,
        Err(m) => return Err(m),
    };
    let description = match &meta.description {
        Some(d) => d.clone(),
        None => extract_doc_comment(docs),
    };
    let show_deactivator = match meta.show_deactivator {
        Some(b) => b,
        None => true,
    };
    Ok(GroupConfigPlan {
        name,
        description,
        show_deactivator,
        on_activate: copy_opt(&meta.on_activate),
        on_deactivate: copy_opt(&meta.on_deactivate),
        requires_clone: meta.on_activate.is_some() || meta.on_deactivate.is_some(),
    })
}

/// Text the generated code uses: an expression written in the macro's
/// arguments, or a literal the macro computed.
#[derive(Debug, Clone, PartialEq, Eq)]
pub enum SourceText {
    /// An expression from the macro's arguments, by its source text.
    Expression(String),
    /// A string literal.
    Literal(String),
}

/// What the generated `initialize` sets on the result it returns.
#[derive(Debug, Clone)]
pub struct InitializePlan {
    /// The server name.
    pub name: SourceText,
    /// The version expression; `None` for the crate's own version.
    pub version: Option<String>,
    /// The instructions, when any are set.
    pub instructions: Option<SourceText>,
    /// Whether the client's requested protocol version, when not empty, is
    /// answered with.
    pub use_client_version: bool,
    /// The tools capability's `list_changed`, when the capability is set.
    pub tools_list_changed: Option<bool>,
    /// The resources capability's `list_changed`, when the capability is set.
    pub resources_list_changed: Option<bool>,
}

fn copy_text(s: &String) -> (r: String)
    ensures
        r@ == s@,
{
    s.clone()
}

/// Plan the default `initialize` of a server type named `struct_name`, whose
/// doc comment is `description`: the name is the `name` argument or the
/// snake_case type name; the version the `version` argument or the crate's;
/// the instructions the `instructions` argument, else the description when
/// it is not empty; the client's protocol version is used under the
/// `client` strategy; the resources capability is set when a resource
/// callback is configured.
pub fn initialize_plan(
    struct_name: &str,
    description: &str,
    args: &ServerMacroArgs,
    tools_list_changed: Option<bool>,
) -> (r: InitializePlan)
    ensures
        match args.name {
            Some(e) => r.name matches SourceText::Expression(x) && x@ == e@,
            None => r.name matches SourceText::Literal(x) && x@ == snake_case(struct_name@),
        },
        opt_text(r.version) == opt_text(args.version),
        match args.instructions {
            Some(e) => r.instructions matches Some(SourceText::Expression(x)) && x@ == e@,
            None => if description@.len() == 0 {
                r.instructions is None
            } else {
                r.instructions matches Some(SourceText::Literal(x)) && x@ == description@
            },
        },
        r.use_client_version == (args.protocol_version == Some(ProtocolVersionStrategy::Client)),
        r.tools_list_changed == tools_list_changed,
        r.resources_list_changed == if some_cap(args.forwarders@, |c: ForwarderCap| c is Resources) {
            Some(
                some_cap(
                    args.forwarders@,
                    |c: ForwarderCap| c == (ForwarderCap::Resources { list_changed: true }),
                ),
            )
        } else {
            None
        },
{
    let name = match &args.name {
        Some(e) => SourceText::Expression(copy_text(e)),
        None => SourceText::Literal(default_server_name(struct_name)),
    };
    let instructions = match &args.instructions {
        Some(e) => Some(SourceText::Expression(copy_text(e))),
        None => if crate::text::chars_of(description).len() == 0 {
            None
        } else {
            Some(SourceText::Literal(owned(description)))
        },
    };
    let use_client_version = match args.protocol_version {
        Some(ProtocolVersionStrategy::Client) => true,
        _ => false,
    };
    let resources_list_changed = if args.has_resource_callbacks() {
        Some(args.resources_list_changed())
    } else {
        None
    };
    InitializePlan {
        name,
        version: copy_opt(&args.version),
        instructions,
        use_client_version,
        tools_list_changed,
        resources_list_changed,
    }
}

} // verus!
