//! Request, result and notification payloads: pagination, resource
//! updates, completion context and elicitation schemas.

use vstd::prelude::*;

use crate::json::JsonObject;

use super::jsonrpc::Cursor;
use crate::text::owned;

verus! {

/// Base interface for paginated results.
#[derive(Debug, Clone)]
pub struct PaginatedResult {
    /// An opaque token representing the pagination position after the last
    /// returned result.
    pub next_cursor: Option<Cursor>,
    /// Reserved metadata.
    pub _meta: Option<JsonObject>,
}

/// A notification from the server to the client about a resource update.
#[derive(Debug, Clone)]
pub struct ResourceUpdatedNotification {
    /// Always `notifications/resources/updated`.
    pub method: String,
    /// Which resource was updated.
    pub params: ResourceUpdatedParams,
}

/// Parameters of a resource update notification.
#[derive(Debug, Clone)]
pub struct ResourceUpdatedParams {
    /// The URI of the resource that has been updated.
    pub uri: String,
    /// Reserved metadata.
    pub _meta: Option<JsonObject>,
}

/// Previously-resolved variables of a completion request, as a map from
/// variable name to value.
#[derive(Debug, Clone)]
pub struct CompleteContext {
    /// The variables as (name, value) entries; a later entry for a name
    /// overrides an earlier one, and the methods below never leave two
    /// entries with one name.
    pub arguments: Option<Vec<(String, String)>>,
}

/// The map that a list of (name, value) entries stands for: each entry sets
/// its name, later entries overriding earlier ones.
pub open spec fn entry_map(s: Seq<(String, String)>) -> Map<Seq<char>, Seq<char>>
    decreases s.len(),
{
    if s.len() == 0 {
        Map::empty()
    } else {
        entry_map(s.drop_last()).insert(s.last().0@, s.last().1@)
    }
}

/// The entries whose name is not `key`, in order.
pub open spec fn without_key(s: Seq<(String, String)>, key: Seq<char>) -> Seq<(String, String)>
    decreases s.len(),
{
    if s.len() == 0 {
        s
    } else if s.last().0@ == key {
        without_key(s.drop_last(), key)
    } else {
        without_key(s.drop_last(), key).push(s.last())
    }
}

/// The variables a context holds; `None` when it holds none at all.
pub open spec fn context_map(arguments: Option<Vec<(String, String)>>) -> Option<
    Map<Seq<char>, Seq<char>>,
> {
    match arguments {
        Some(a) => Some(entry_map(a@)),
        None => None,
    }
}

proof fn lemma_without_key(s: Seq<(String, String)>, key: Seq<char>)
    ensures
        entry_map(without_key(s, key)) == entry_map(s).remove(key),
    decreases s.len(),
{
    if s.len() > 0 {
        lemma_without_key(s.drop_last(), key);
        let rest = without_key(s.drop_last(), key);
        if s.last().0@ != key {
            assert(rest.push(s.last()).drop_last() == rest);
        }
        assert(entry_map(without_key(s, key)) =~= entry_map(s).remove(key));
    }
}

/// The entries with `key` set to `value`: the other entries in order, then
/// the new one.
fn entries_with(entries: Vec<(String, String)>, key: &str, value: &str) -> (r: Vec<(String, String)>)
    ensures
        entry_map(r@) == entry_map(entries@).insert(key@, value@),
{
    let name = owned(key);
    let mut out: Vec<(String, String)> = Vec::new();
    let mut i: usize = 0;
    while i < entries.len()
        invariant
            i <= entries.len(),
            name@ == key@,
            out@ == without_key(entries@.take(i as int), key@),
        decreases entries.len() - i,
    {
        assert(entries@.take(i + 1).drop_last() == entries@.take(i as int));
        if entries[i].0 != name {
            let entry = (entries[i].0.clone(), entries[i].1.clone());
            out.push(entry);
        }
        i = i + 1;
    }
    assert(entries@.take(entries.len() as int) == entries@);
    proof {
        lemma_without_key(entries@, key@);
    }
    out.push((name, owned(value)));
    assert(out@.drop_last() == without_key(entries@, key@));
    assert(entry_map(out@) =~= entry_map(entries@).insert(key@, value@));
    out
}

impl CompleteContext {
    /// Create a new context with no arguments.
    pub fn new() -> (r: Self)
        ensures
            r.arguments is None,
    {
        CompleteContext { arguments: None }
    }

    /// Create a context with the provided arguments.
    pub fn with_arguments(arguments: Vec<(String, String)>) -> (r: Self)
        ensures
            r.arguments == Some(arguments),
    {
        CompleteContext { arguments: Some(arguments) }
    }

    /// Add a single argument to the context, replacing an earlier value of
    /// the same name.
    pub fn add_argument(self, key: &str, value: &str) -> (r: Self)
        ensures
            context_map(r.arguments) == Some(
                match context_map(self.arguments) {
                    Some(m) => m,
                    None => Map::empty(),
                }.insert(key@, value@),
            ),
    {
        let entries = match self.arguments {
            Some(a) => a,
            None => Vec::new(),
        };
        CompleteContext { arguments: Some(entries_with(entries, key, value)) }
    }

    /// Set the arguments, replacing any existing ones.
    pub fn set_arguments(self, arguments: Vec<(String, String)>) -> (r: Self)
        ensures
            r.arguments == Some(arguments),
    {
        CompleteContext { arguments: Some(arguments) }
    }
}

impl Default for CompleteContext {
    fn default() -> (r: Self)
        ensures
            r.arguments is None,
    {
        CompleteContext::new()
    }
}

/// How an elicitation request asks for input.
#[derive(Debug, Clone, Copy, PartialEq, Eq)]
pub enum ElicitMode {
    /// Through a form described by a schema.
    Form,
    /// Through a URL the user visits.
    Url,
}

/// The user action in response to an elicitation.
#[derive(Debug, Clone, Copy, PartialEq, Eq)]
pub enum ElicitAction {
    /// The user submitted the requested data.
    Accept,
    /// The user declined to provide it.
    Decline,
    /// The user dismissed the request.
    Cancel,
}

/// The `type` of a string schema.
#[derive(Debug, Clone, Copy, PartialEq, Eq)]
pub enum StringSchemaType {
    /// `string`.
    String,
}

/// The `type` of a number schema.
#[derive(Debug, Clone, Copy, PartialEq, Eq)]
pub enum NumberSchemaType {
    /// `number`.
    Number,
    /// `integer`.
    Integer,
}

/// The `type` of a boolean schema.
#[derive(Debug, Clone, Copy, PartialEq, Eq)]
pub enum BooleanSchemaType {
    /// `boolean`.
    Boolean,
}

/// The `type` of an array schema.
#[derive(Debug, Clone, Copy, PartialEq, Eq)]
pub enum ArraySchemaType {
    /// `array`.
    Array,
}

/// A string field of an elicitation form.
#[derive(Debug, Clone)]
pub struct StringSchema {
    /// Always [`StringSchemaType::String`].
    pub schema_type: StringSchemaType,
    /// Display title.
    pub title: Option<String>,
    /// Field description.
    pub description: Option<String>,
    /// Minimum length.
    pub min_length: Option<u32>,
    /// Maximum length.
    pub max_length: Option<u32>,
    /// Expected format.
    pub format: Option<StringFormat>,
    /// Default value.
    pub default: Option<String>,
}

/// Formats a string field may require.
#[derive(Debug, Clone, Copy, PartialEq, Eq)]
pub enum StringFormat {
    /// `email`.
    Email,
    /// `uri`.
    Uri,
    /// `date`.
    Date,
    /// `date-time`.
    DateTime,
}

/// A boolean field of an elicitation form.
#[derive(Debug, Clone)]
pub struct BooleanSchema {
    /// Always [`BooleanSchemaType::Boolean`].
    pub schema_type: BooleanSchemaType,
    /// Display title.
    pub title: Option<String>,
    /// Field description.
    pub description: Option<String>,
    /// Default value.
    pub default: Option<bool>,
}

/// One titled choice of an enumeration.
#[derive(Debug, Clone)]
pub struct EnumOption {
    /// The value submitted when chosen.
    pub value: String,
    /// The label shown.
    pub title: String,
}

/// A single choice among plain values.
#[derive(Debug, Clone)]
pub struct UntitledSingleSelectEnumSchema {
    /// Always [`StringSchemaType::String`].
    pub schema_type: StringSchemaType,
    /// Display title.
    pub title: Option<String>,
    /// Field description.
    pub description: Option<String>,
    /// The allowed values.
    pub values: Vec<String>,
    /// Default value.
    pub default: Option<String>,
}

/// A single choice among titled values.
#[derive(Debug, Clone)]
pub struct TitledSingleSelectEnumSchema {
    /// Always [`StringSchemaType::String`].
    pub schema_type: StringSchemaType,
    /// Display title.
    pub title: Option<String>,
    /// Field description.
    pub description: Option<String>,
    /// The allowed choices.
    pub options: Vec<EnumOption>,
    /// Default value.
    pub default: Option<String>,
}

/// A single-choice enumeration field.
#[derive(Debug, Clone)]
pub enum SingleSelectEnumSchema {
    /// Choices without titles.
    Untitled(UntitledSingleSelectEnumSchema),
    /// Choices with titles.
    Titled(TitledSingleSelectEnumSchema),
}

/// The items of a multi-choice field without titles.
#[derive(Debug, Clone)]
pub struct UntitledMultiSelectItems {
    /// Always [`StringSchemaType::String`].
    pub schema_type: StringSchemaType,
    /// The allowed values.
    pub values: Vec<String>,
}

/// The items of a multi-choice field with titles.
#[derive(Debug, Clone)]
pub struct TitledMultiSelectItems {
    /// The allowed choices.
    pub options: Vec<EnumOption>,
}

/// A multi-choice field among plain values.
#[derive(Debug, Clone)]
pub struct UntitledMultiSelectEnumSchema {
    /// Always [`ArraySchemaType::Array`].
    pub schema_type: ArraySchemaType,
    /// Display title.
    pub title: Option<String>,
    /// Field description.
    pub description: Option<String>,
    /// Minimum number of choices.
    pub min_items: Option<u32>,
    /// Maximum number of choices.
    pub max_items: Option<u32>,
    /// The allowed values.
    pub items: UntitledMultiSelectItems,
    /// Default choices.
    pub default: Option<Vec<String>>,
}

/// A multi-choice field among titled values.
#[derive(Debug, Clone)]
pub struct TitledMultiSelectEnumSchema {
    /// Always [`ArraySchemaType::Array`].
    pub schema_type: ArraySchemaType,
    /// Display title.
    pub title: Option<String>,
    /// Field description.
    pub description: Option<String>,
    /// Minimum number of choices.
    pub min_items: Option<u32>,
    /// Maximum number of choices.
    pub max_items: Option<u32>,
    /// The allowed choices.
    pub items: TitledMultiSelectItems,
    /// Default choices.
    pub default: Option<Vec<String>>,
}

/// A multi-choice enumeration field.
#[derive(Debug, Clone)]
pub enum MultiSelectEnumSchema {
    /// Choices without titles.
    Untitled(UntitledMultiSelectEnumSchema),
    /// Choices with titles.
    Titled(TitledMultiSelectEnumSchema),
}

/// The older enumeration form with parallel value and name lists.
#[derive(Debug, Clone)]
pub struct LegacyTitledEnumSchema {
    /// Always [`StringSchemaType::String`].
    pub schema_type: StringSchemaType,
    /// Display title.
    pub title: Option<String>,
    /// Field description.
    pub description: Option<String>,
    /// The allowed values.
    pub values: Vec<String>,
    /// Display names of the values, position by position.
    pub enum_names: Option<Vec<String>>,
    /// Default value.
    pub default: Option<String>,
}

/// An enumeration field of an elicitation form.
#[derive(Debug, Clone)]
pub enum EnumSchema {
    /// One choice.
    Single(SingleSelectEnumSchema),
    /// Several choices.
    Multi(MultiSelectEnumSchema),
    /// The older titled form.
    Legacy(LegacyTitledEnumSchema),
}

} // verus!
