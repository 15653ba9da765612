//! Tool descriptions.

use vstd::prelude::*;

use super::content::Icon;
use super::jsonrpc::Cursor;
use crate::json::{
    child_field_set, child_fields, child_items, child_texts_appended, field_position, field_value,
    is_field_at, json_field, lemma_with_field_then_read, texts_appended, texts_of, with_field,
    JsonObject, JsonValue,
};
use crate::text::{owned, str_eq, views};

verus! {

/// Additional properties describing a tool to clients.
///
/// All of them are hints: they are not guaranteed to describe the tool's
/// behavior faithfully, and clients should not make tool use decisions based
/// on them when the server is not trusted.
#[derive(Debug, Clone, Default, PartialEq, Eq)]
pub struct ToolAnnotations {
    /// Optional display title for the tool.
    pub title: Option<String>,
    /// Hint that the tool is read-only.
    pub read_only_hint: Option<bool>,
    /// Hint that the tool is destructive.
    pub destructive_hint: Option<bool>,
    /// Hint that the tool is idempotent.
    pub idempotent_hint: Option<bool>,
    /// Hint that the tool is open-world.
    pub open_world_hint: Option<bool>,
}

/// Execution-related properties for a tool.
#[derive(Debug, Clone, Copy, PartialEq, Eq)]
pub struct ToolExecution {
    /// Whether the tool may, must or must not run as a task.
    pub task_support: Option<ToolTaskSupport>,
}

/// Task support options for tool execution.
#[derive(Debug, Clone, Copy, PartialEq, Eq)]
pub enum ToolTaskSupport {
    /// The tool never runs as a task.
    Forbidden,
    /// The caller may ask for a task.
    Optional,
    /// The tool only runs as a task.
    Required,
}

/// The annotations of a tool, or none set when it has none.
pub open spec fn annotations_or_default(a: Option<ToolAnnotations>) -> ToolAnnotations {
    match a {
        Some(x) => x,
        None => ToolAnnotations {
            title: None,
            read_only_hint: None,
            destructive_hint: None,
            idempotent_hint: None,
            open_world_hint: None,
        },
    }
}

fn take_annotations(a: Option<ToolAnnotations>) -> (r: ToolAnnotations)
    ensures
        r == annotations_or_default(a),
{
    match a {
        Some(x) => x,
        None => ToolAnnotations {
            title: None,
            read_only_hint: None,
            destructive_hint: None,
            idempotent_hint: None,
            open_world_hint: None,
        },
    }
}

/// A JSON Schema object defining the input or output schema of a tool. The
/// whole document is kept, with every field it has; the library reads and
/// edits its `type`, `properties` and `required` fields.
#[derive(Debug, Clone)]
pub struct ToolSchema(pub JsonValue);

/// The schema field naming the JSON type.
pub open spec fn type_field() -> Seq<char> {
    "type"@
}

/// The schema field holding the schemas of the properties.
pub open spec fn properties_field() -> Seq<char> {
    "properties"@
}

/// The schema field listing the names of the required properties.
pub open spec fn required_field() -> Seq<char> {
    "required"@
}

/// The text of a JSON value that is a string.
pub open spec fn json_text(v: Option<JsonValue>) -> Option<Seq<char>> {
    match v {
        Some(JsonValue::String(s)) => Some(s@),
        _ => None,
    }
}

/// The characters of each string slice.
pub open spec fn str_views(v: Seq<&str>) -> Seq<Seq<char>> {
    v.map_values(|t: &str| t@)
}

/// Whether the schema lists `name` among its required properties.
pub open spec fn lists_required(schema: JsonValue, name: Seq<char>) -> bool {
    json_field(schema, required_field()) matches Some(JsonValue::Array(a)) && texts_of(a@).contains(name)
}

/// `after` is the schema `before` with `texts` appended to its `required`
/// list; a schema that is not an object is unchanged.
pub open spec fn required_appended(before: JsonValue, after: JsonValue, texts: Seq<Seq<char>>) -> bool {
    match before {
        JsonValue::Object(o) => after matches JsonValue::Object(o2) && child_texts_appended(
            o@,
            o2@,
            required_field(),
            texts,
        ),
        _ => after == before,
    }
}

impl Default for ToolSchema {
    /// The schema of an object: `{"type": "object"}`.
    fn default() -> (r: Self)
        ensures
            r.0 matches JsonValue::Object(o) && o@.len() == 1 && o@[0].0 == type_field() && (
            o@[0].1 matches JsonValue::String(t) && t@ == "object"@),
    {
        let mut o = JsonObject::new();
        let t = owned("object");
        let ghost tv = t@;
        o.insert(owned("type"), JsonValue::String(t));
        proof {
            if field_position(Seq::<(Seq<char>, JsonValue)>::empty(), type_field()) is Some {
                let p = field_position(Seq::<(Seq<char>, JsonValue)>::empty(), type_field())->0;
                assert(is_field_at(Seq::<(Seq<char>, JsonValue)>::empty(), type_field(), p));
            }
        }
        ToolSchema(JsonValue::Object(o))
    }
}

impl ToolSchema {
    /// Create a new schema from a JSON value.
    pub fn new(schema: JsonValue) -> (r: Self)
        ensures
            r.0 == schema,
    {
        ToolSchema(schema)
    }

    /// Get the underlying JSON value.
    pub fn as_value(&self) -> (r: &JsonValue)
        ensures
            *r == self.0,
    {
        &self.0
    }

    /// The underlying JSON value, for editing in place.
    pub fn as_value_mut(&mut self) -> (r: &mut JsonValue)
        ensures
            *r == old(self).0,
            *final(self) == ToolSchema(*final(r)),
    {
        &mut self.0
    }

    /// The JSON type the schema names (`"object"`, `"string"`, ...).
    pub fn schema_type(&self) -> (r: Option<&str>)
        ensures
            match r {
                Some(t) => json_text(json_field(self.0, type_field())) == Some(t@),
                None => json_text(json_field(self.0, type_field())) is None,
            },
    {
        match &self.0 {
            JsonValue::Object(o) => match o.get("type") {
                Some(JsonValue::String(t)) => Some(t.as_str()),
                _ => None,
            },
            _ => None,
        }
    }

    /// The schemas of the properties, where the schema has them.
    pub fn properties(&self) -> (r: Option<&JsonObject>)
        ensures
            match r {
                Some(p) => json_field(self.0, properties_field()) == Some(JsonValue::Object(*p)),
                None => !(json_field(self.0, properties_field()) matches Some(JsonValue::Object(_))),
            },
    {
        match &self.0 {
            JsonValue::Object(o) => match o.get("properties") {
                Some(JsonValue::Object(p)) => Some(p),
                _ => None,
            },
            _ => None,
        }
    }

    /// The names listed as required, where the schema has such a list; items
    /// of the list that are not strings are skipped.
    pub fn required(&self) -> (r: Option<Vec<&str>>)
        ensures
            match r {
                Some(names) => json_field(self.0, required_field()) matches Some(JsonValue::Array(a))
                    && str_views(names@) == texts_of(a@),
                None => !(json_field(self.0, required_field()) matches Some(JsonValue::Array(_))),
            },
    {
        let items = match &self.0 {
            JsonValue::Object(o) => match o.get("required") {
                Some(JsonValue::Array(a)) => a,
                _ => {
                    return None;
                },
            },
            _ => {
                return None;
            },
        };
        let mut names: Vec<&str> = Vec::new();
        let mut i: usize = 0;
        while i < items.len()
            invariant
                i <= items.len(),
                str_views(names@) == texts_of(items@.take(i as int)),
            decreases items.len() - i,
        {
            let ghost before = names@;
            proof {
                assert(items@.take(i + 1).drop_last() =~= items@.take(i as int));
            }
            match &items[i] {
                JsonValue::String(t) => {
                    names.push(t.as_str());
                    assert(str_views(names@) =~= str_views(before).push(t@));
                },
                _ => {},
            }
            i = i + 1;
        }
        assert(items@.take(items.len() as int) =~= items@);
        Some(names)
    }

    /// Whether the schema lists `name` as required.
    #[verifier::loop_isolation(false)]
    pub fn is_required(&self, name: &str) -> (r: bool)
        ensures
            r == lists_required(self.0, name@),
    {
        match self.required() {
            Some(names) => {
                let mut i: usize = 0;
                while i < names.len()
                    invariant
                        i <= names.len(),
                        forall|j: int| 0 <= j < i ==> names@[j]@ != name@,
                    decreases names.len() - i,
                {
                    if str_eq(names[i], name) {
                        proof {
                            if let Some(JsonValue::Array(a)) = json_field(self.0, required_field()) {
                                assert(texts_of(a@)[i as int] == name@);
                            }
                        }
                        return true;
                    }
                    i = i + 1;
                }
                assert(!str_views(names@).contains(name@));
                false
            },
            None => false,
        }
    }

    /// Adds (or replaces) the schema of one property, creating the
    /// `properties` object when it is missing.
    pub fn with_property(self, name: &str, schema: JsonValue) -> (r: Self)
        ensures
            match self.0 {
                JsonValue::Object(o) => r.0 matches JsonValue::Object(o2) && child_field_set(
                    o@,
                    o2@,
                    properties_field(),
                    name@,
                    schema,
                ),
                _ => r.0 == self.0,
            },
    {
        match self.0 {
            JsonValue::Object(mut o) => {
                o.set_in_child("properties", owned(name), schema);
                ToolSchema(JsonValue::Object(o))
            },
            other => ToolSchema(other),
        }
    }

    /// Replaces the `properties` object.
    pub fn with_properties(self, properties: JsonObject) -> (r: Self)
        ensures
            match self.0 {
                JsonValue::Object(o) => r.0 matches JsonValue::Object(o2) && o2@ == with_field(
                    o@,
                    properties_field(),
                    JsonValue::Object(properties),
                ),
                _ => r.0 == self.0,
            },
    {
        match self.0 {
            JsonValue::Object(mut o) => {
                o.insert(owned("properties"), JsonValue::Object(properties));
                ToolSchema(JsonValue::Object(o))
            },
            other => ToolSchema(other),
        }
    }

    /// Lists one more property as required, creating the `required` list
    /// when it is missing.
    pub fn with_required(self, name: &str) -> (r: Self)
        ensures
            required_appended(self.0, r.0, seq![name@]),
    {
        let names = vec![owned(name)];
        assert(views(names@) =~= seq![name@]);
        self.with_required_properties(names)
    }

    /// Lists several more properties as required, in order.
    pub fn with_required_properties(self, names: Vec<String>) -> (r: Self)
        ensures
            required_appended(self.0, r.0, views(names@)),
    {
        match self.0 {
            JsonValue::Object(mut o) => {
                o.append_texts_in_child("required", &names);
                ToolSchema(JsonValue::Object(o))
            },
            other => ToolSchema(other),
        }
    }
}

/// A name added to an object schema's `required` list (absent or a list) is
/// reported as required afterwards, and so is every name that was before.
pub proof fn lemma_added_requirement_is_listed(
    before: JsonValue,
    after: JsonValue,
    name: Seq<char>,
    other: Seq<char>,
)
    requires
        before matches JsonValue::Object(o) && child_items(o@, required_field()) is Some,
        required_appended(before, after, seq![name]),
    ensures
        lists_required(after, name),
        lists_required(before, other) ==> lists_required(after, other),
{
    if let JsonValue::Object(o) = before {
        if let JsonValue::Object(o2) = after {
            let base = child_items(o@, required_field())->0;
            let a = choose|a: Vec<JsonValue>|
                #[trigger] with_field(o@, required_field(), JsonValue::Array(a)) == o2@
                    && texts_appended(base, a@, seq![name]);
            lemma_with_field_then_read(o@, required_field(), JsonValue::Array(a), required_field());
            assert(a@.drop_last() =~= base);
            assert(a@[base.len() + 0int] matches JsonValue::String(t) && t@ == seq![name][0]);
            let last = a@[base.len() as int];
            assert(last == a@.last());
            if let JsonValue::String(t) = last {
                assert(t@ == name);
                assert(texts_of(a@) == texts_of(base).push(name));
                assert(texts_of(a@)[texts_of(base).len() as int] == name);
                if lists_required(before, other) {
                    if let Some(JsonValue::Array(b)) = json_field(before, required_field()) {
                        assert(b@ == base);
                        let k = choose|k: int| 0 <= k < texts_of(base).len() && texts_of(base)[k] == other;
                        assert(texts_of(a@)[k] == other);
                    }
                }
            }
        }
    }
}

/// A property schema set on an object schema (whose `properties` field is
/// absent or an object) is what the properties hold under that name
/// afterwards; every other property keeps its schema.
pub proof fn lemma_added_property_is_read_back(
    before: JsonValue,
    after: JsonValue,
    name: Seq<char>,
    schema: JsonValue,
    other: Seq<char>,
)
    requires
        before matches JsonValue::Object(o) && child_fields(o@, properties_field()) is Some,
        after matches JsonValue::Object(o2),
        child_field_set(before->Object_0@, after->Object_0@, properties_field(), name, schema),
    ensures
        json_field(after, properties_field()) matches Some(JsonValue::Object(p)) && field_value(p@, name)
            == Some(schema) && (other != name ==> field_value(p@, other) == field_value(
            child_fields(before->Object_0@, properties_field())->0,
            other,
        )),
{
    let o = before->Object_0;
    let o2 = after->Object_0;
    let base = child_fields(o@, properties_field())->0;
    let c = choose|c: JsonObject|
        #[trigger] with_field(o@, properties_field(), JsonValue::Object(c)) == o2@
            && c@ == with_field(base, name, schema);
    lemma_with_field_then_read(o@, properties_field(), JsonValue::Object(c), properties_field());
    lemma_with_field_then_read(base, name, schema, other);
}

/// Definition for a tool the client can call.
#[derive(Debug, Clone)]
pub struct Tool {
    /// Programmatic name of the tool.
    pub name: String,
    /// Human-readable title.
    pub title: Option<String>,
    /// JSON Schema describing tool input.
    pub input_schema: ToolSchema,
    /// Optional tool description.
    pub description: Option<String>,
    /// Execution-related properties for the tool.
    pub execution: Option<ToolExecution>,
    /// JSON Schema describing tool output.
    pub output_schema: Option<ToolSchema>,
    /// Optional annotations describing tool behavior.
    pub annotations: Option<ToolAnnotations>,
    /// Optional icons for the tool.
    pub icons: Option<Vec<Icon>>,
    /// Reserved metadata.
    pub _meta: Option<JsonObject>,
}

/// Whether two tools agree on every field but annotations.
pub open spec fn same_but_annotations(a: Tool, b: Tool) -> bool {
    &&& a.name == b.name
    &&& a.title == b.title
    &&& a.input_schema == b.input_schema
    &&& a.description == b.description
    &&& a.execution == b.execution
    &&& a.output_schema == b.output_schema
    &&& a.icons == b.icons
    &&& a._meta == b._meta
}

impl Tool {
    /// Create a new tool with the provided name and input schema.
    pub fn new(name: &str, input_schema: ToolSchema) -> (r: Self)
        ensures
            r.name@ == name@,
            r.input_schema == input_schema,
            r.title is None && r.description is None && r.execution is None,
            r.output_schema is None && r.annotations is None && r.icons is None,
            r._meta is None,
    {
        Tool {
            name: owned(name),
            title: None,
            input_schema,
            description: None,
            execution: None,
            output_schema: None,
            annotations: None,
            icons: None,
            _meta: None,
        }
    }

    /// Set the tool description.
    pub fn with_description(self, description: &str) -> (r: Self)
        ensures
            r.description matches Some(d) && d@ == description@,
            r == (Tool { description: r.description, ..self }),
    {
        let mut s = self;
        s.description = Some(owned(description));
        s
    }

    /// Set the output schema for the tool.
    pub fn with_output_schema(self, schema: ToolSchema) -> (r: Self)
        ensures
            r == (Tool { output_schema: Some(schema), ..self }),
    {
        let mut s = self;
        s.output_schema = Some(schema);
        s
    }

    /// Set execution metadata for the tool.
    pub fn with_execution(self, execution: ToolExecution) -> (r: Self)
        ensures
            r == (Tool { execution: Some(execution), ..self }),
    {
        let mut s = self;
        s.execution = Some(execution);
        s
    }

    /// Set task support for the tool, keeping the rest of its execution
    /// metadata.
    pub fn with_task_support(self, support: ToolTaskSupport) -> (r: Self)
        ensures
            r == (Tool { execution: Some(ToolExecution { task_support: Some(support) }), ..self }),
    {
        let mut s = self;
        s.execution = Some(ToolExecution { task_support: Some(support) });
        s
    }

    /// Set the annotation title hint.
    pub fn with_annotation_title(self, title: &str) -> (r: Self)
        ensures
            same_but_annotations(r, self),
            r.annotations matches Some(a) && (a.title matches Some(t) && t@ == title@) && a == (
            ToolAnnotations { title: a.title, ..annotations_or_default(self.annotations) }),
    {
        let mut s = self;
        let mut a = take_annotations(s.annotations);
        a.title = Some(owned(title));
        s.annotations = Some(a);
        s
    }

    /// Set the read-only hint.
    pub fn with_read_only_hint(self, read_only: bool) -> (r: Self)
        ensures
            same_but_annotations(r, self),
            r.annotations == Some(
                ToolAnnotations {
                    read_only_hint: Some(read_only),
                    ..annotations_or_default(self.annotations)
                },
            ),
    {
        let mut s = self;
        let mut a = take_annotations(s.annotations);
        a.read_only_hint = Some(read_only);
        s.annotations = Some(a);
        s
    }

    /// Set the destructive hint.
    pub fn with_destructive_hint(self, destructive: bool) -> (r: Self)
        ensures
            same_but_annotations(r, self),
            r.annotations == Some(
                ToolAnnotations {
                    destructive_hint: Some(destructive),
                    ..annotations_or_default(self.annotations)
                },
            ),
    {
        let mut s = self;
        let mut a = take_annotations(s.annotations);
        a.destructive_hint = Some(destructive);
        s.annotations = Some(a);
        s
    }

    /// Set the idempotent hint.
    pub fn with_idempotent_hint(self, idempotent: bool) -> (r: Self)
        ensures
            same_but_annotations(r, self),
            r.annotations == Some(
                ToolAnnotations {
                    idempotent_hint: Some(idempotent),
                    ..annotations_or_default(self.annotations)
                },
            ),
    {
        let mut s = self;
        let mut a = take_annotations(s.annotations);
        a.idempotent_hint = Some(idempotent);
        s.annotations = Some(a);
        s
    }

    /// Set the open-world hint.
    pub fn with_open_world_hint(self, open_world: bool) -> (r: Self)
        ensures
            same_but_annotations(r, self),
            r.annotations == Some(
                ToolAnnotations {
                    open_world_hint: Some(open_world),
                    ..annotations_or_default(self.annotations)
                },
            ),
    {
        let mut s = self;
        let mut a = take_annotations(s.annotations);
        a.open_world_hint = Some(open_world);
        s.annotations = Some(a);
        s
    }

    /// Replace the annotations entirely.
    pub fn with_annotations(self, annotations: ToolAnnotations) -> (r: Self)
        ensures
            r == (Tool { annotations: Some(annotations), ..self }),
    {
        let mut s = self;
        s.annotations = Some(annotations);
        s
    }

    /// Set the icons for the tool.
    pub fn with_icons(self, icons: Vec<Icon>) -> (r: Self)
        ensures
            r == (Tool { icons: Some(icons), ..self }),
    {
        let mut s = self;
        s.icons = Some(icons);
        s
    }

    /// Set the display title of the tool.
    pub fn with_title(self, title: &str) -> (r: Self)
        ensures
            r.title matches Some(t) && t@ == title@,
            r == (Tool { title: r.title, ..self }),
    {
        let mut s = self;
        s.title = Some(owned(title));
        s
    }
}

/// The server's response to a tools/list request from the client.
#[derive(Debug, Clone)]
pub struct ListToolsResult {
    /// Tool entries returned by the server.
    pub tools: Vec<Tool>,
    /// Cursor for the next page of results.
    pub next_cursor: Option<Cursor>,
}

impl ListToolsResult {
    /// Create an empty tools list result.
    pub fn new() -> (r: Self)
        ensures
            r.tools@.len() == 0,
            r.next_cursor is None,
    {
        ListToolsResult { tools: Vec::new(), next_cursor: None }
    }

    /// Add a single tool to the result.
    pub fn with_tool(self, tool: Tool) -> (r: Self)
        ensures
            r.tools@ == self.tools@.push(tool),
            r.next_cursor == self.next_cursor,
    {
        let mut s = self;
        s.tools.push(tool);
        s
    }

    /// Add multiple tools to the result, after those already there.
    pub fn with_tools(self, tools: Vec<Tool>) -> (r: Self)
        ensures
            r.tools@ == self.tools@ + tools@,
            r.next_cursor == self.next_cursor,
    {
        let mut s = self;
        let mut more = tools;
        s.tools.append(&mut more);
        s
    }

    /// Set the pagination cursor for the next page.
    pub fn with_cursor(self, cursor: &str) -> (r: Self)
        ensures
            r.tools == self.tools,
            r.next_cursor matches Some(c) && c@ == cursor@,
    {
        let mut s = self;
        s.next_cursor = Some(Cursor::new(cursor));
        s
    }
}

impl Default for ListToolsResult {
    fn default() -> (r: Self)
        ensures
            r.tools@.len() == 0,
            r.next_cursor is None,
    {
        ListToolsResult::new()
    }
}

} // verus!
