//! The `#[tool(...)]` attribute language: which flags and arguments a tool
//! method may carry, what each sets, and how a malformed one is refused.

use vstd::prelude::*;

use crate::macro_model::{to_lowercase, unicode_lowercase, GroupMeta, ToolTaskSupport};
use crate::text::{join, owned, push_all, str_eq, views};

verus! {

/// An attribute argument value, as far as the attribute language reads it.
#[derive(Debug, Clone)]
pub enum AttrExpr {
    /// A string literal, by its value.
    Str(String),
    /// A boolean literal.
    Bool(bool),
    /// A path expression: its text, and its last segment (empty when it has
    /// none).
    Path(String, String),
    /// An expression in an invisible group: when the grouped expression is a
    /// path, its text and its last segment (empty when it has none).
    Group(Option<(String, String)>),
    /// An array expression: for each element, its value when it is a
    /// string literal.
    Array(Vec<Option<String>>),
    /// Any other expression.
    Other,
}

/// One item inside `#[tool(...)]`.
#[derive(Debug, Clone)]
pub enum ToolMeta {
    /// A bare flag; its identifier, when the path is a single identifier.
    Flag(Option<String>),
    /// `name = value`; the name, when it is a single identifier.
    Assign(Option<String>, AttrExpr),
    /// `name(...)`: whether the name is `icons`, and, when its entries parse
    /// as expressions, for each entry its value when it is a string literal.
    List(bool, Option<Vec<Option<String>>>),
}

/// One attribute of a tool method.
#[derive(Debug)]
pub enum ToolAttribute {
    /// An attribute other than `#[tool]`.
    Unrelated,
    /// `#[tool]` without arguments.
    Bare,
    /// `#[tool(...)]`: its items, or the message of the parser that could
    /// not read them.
    List(Result<Vec<ToolMeta>, String>),
    /// `#[tool = ...]`, which is refused.
    NameValue,
}

/// A type as the tool macros read it: its source text, and the identifier
/// of its last path segment when it is a path type (empty for a path
/// without segments).
#[derive(Debug, Clone, PartialEq, Eq)]
pub struct TypeName {
    /// The type's source text.
    pub text: String,
    /// The last segment of a path type; `None` for any other type.
    pub path_last: Option<String>,
}

impl View for TypeName {
    type V = (Seq<char>, Option<Seq<char>>);

    open spec fn view(&self) -> (Seq<char>, Option<Seq<char>>) {
        (self.text@, opt_view(self.path_last))
    }
}

fn copy_type_name(n: &TypeName) -> (r: TypeName)
    ensures
        r@ == n@,
{
    TypeName {
        text: n.text.clone(),
        path_last: match &n.path_last {
            Some(l) => Some(l.clone()),
            None => None,
        },
    }
}

/// The view of an optional type.
pub open spec fn type_name_view(t: Option<TypeName>) -> Option<(Seq<char>, Option<Seq<char>>)> {
    match t {
        Some(n) => Some(n@),
        None => None,
    }
}

/// Metadata parsed from `#[tool(...)]` attributes.
#[derive(Debug, Clone, Default)]
pub struct ToolAttrs {
    /// Optional display title for the tool.
    pub title: Option<String>,
    /// Whether the tool should be treated as read-only.
    pub read_only: Option<bool>,
    /// Whether the tool is destructive.
    pub destructive: Option<bool>,
    /// Whether the tool is idempotent.
    pub idempotent: Option<bool>,
    /// Whether the tool can access open-world resources.
    pub open_world: Option<bool>,
    /// Task support requirements for the tool.
    pub task_support: Option<ToolTaskSupport>,
    /// Optional output schema override: the type path.
    pub output_schema: Option<TypeName>,
    /// Icon URLs for the tool.
    pub icons: Vec<String>,
    /// Whether to apply default argument handling.
    pub defaults: bool,
    /// Whether to force flat handling for single-argument tools.
    pub flat: bool,
    /// Whether the tool should always be visible when using a tool set.
    pub always: bool,
}

/// The abstract content of [`ToolAttrs`].
#[verifier::ext_equal]
pub struct ToolAttrsView {
    /// Display title.
    pub title: Option<Seq<char>>,
    /// Read-only hint.
    pub read_only: Option<bool>,
    /// Destructive hint.
    pub destructive: Option<bool>,
    /// Idempotent hint.
    pub idempotent: Option<bool>,
    /// Open-world hint.
    pub open_world: Option<bool>,
    /// Task support.
    pub task_support: Option<ToolTaskSupport>,
    /// Output schema type path: its text and last segment.
    pub output_schema: Option<(Seq<char>, Option<Seq<char>>)>,
    /// Icon URLs.
    pub icons: Seq<Seq<char>>,
    /// Default argument handling.
    pub defaults: bool,
    /// Flat handling.
    pub flat: bool,
    /// Always visible.
    pub always: bool,
}

/// The text of an optional string.
pub open spec fn opt_view(s: Option<String>) -> Option<Seq<char>> {
    match s {
        Some(t) => Some(t@),
        None => None,
    }
}

impl View for ToolAttrs {
    type V = ToolAttrsView;

    open spec fn view(&self) -> ToolAttrsView {
        ToolAttrsView {
            title: opt_view(self.title),
            read_only: self.read_only,
            destructive: self.destructive,
            idempotent: self.idempotent,
            open_world: self.open_world,
            task_support: self.task_support,
            output_schema: type_name_view(self.output_schema),
            icons: self.icons@.map_values(|s: String| s@),
            defaults: self.defaults,
            flat: self.flat,
            always: self.always,
        }
    }
}

/// Nothing set.
pub open spec fn empty_tool_attrs() -> ToolAttrsView {
    ToolAttrsView {
        title: None,
        read_only: None,
        destructive: None,
        idempotent: None,
        open_world: None,
        task_support: None,
        output_schema: None,
        icons: Seq::empty(),
        defaults: false,
        flat: false,
        always: false,
    }
}

/// The value of a string literal argument.
pub open spec fn string_lit(e: AttrExpr) -> Result<Seq<char>, Seq<char>> {
    match e {
        AttrExpr::Str(s) => Ok(s@),
        _ => Err("expected a string literal"@),
    }
}

/// The value of a boolean literal argument.
pub open spec fn bool_lit(e: AttrExpr) -> Result<bool, Seq<char>> {
    match e {
        AttrExpr::Bool(b) => Ok(b),
        _ => Err("expected a boolean literal"@),
    }
}

/// The task support a `task_support` argument names, ignoring case.
pub open spec fn task_support_of(e: AttrExpr) -> Result<ToolTaskSupport, Seq<char>> {
    let value = match e {
        AttrExpr::Str(s) => Some(s@),
        AttrExpr::Path(_, last) => Some(last@),
        _ => None,
    };
    match value {
        None => Err("expected a string literal or identifier for task_support"@),
        Some(v) => {
            let l = unicode_lowercase(v);
            if l == "forbidden"@ {
                Ok(ToolTaskSupport::Forbidden)
            } else if l == "optional"@ {
                Ok(ToolTaskSupport::Optional)
            } else if l == "required"@ {
                Ok(ToolTaskSupport::Required)
            } else {
                Err("task_support must be \"forbidden\", \"optional\", or \"required\""@)
            }
        },
    }
}

/// The type path an `output_schema` argument names: its text and last
/// segment.
pub open spec fn output_schema_of(e: AttrExpr) -> Result<(Seq<char>, Option<Seq<char>>), Seq<char>> {
    match e {
        AttrExpr::Path(path, last) => Ok((path@, Some(last@))),
        AttrExpr::Group(Some((path, last))) => Ok((path@, Some(last@))),
        _ => Err("output_schema must be a type path"@),
    }
}

/// The icons of a list of string literals appended to `icons`, or the error
/// of the first entry that is not one.
pub open spec fn append_icons(icons: Seq<Seq<char>>, entries: Seq<Option<String>>) -> Result<
    Seq<Seq<char>>,
    Seq<char>,
>
    decreases entries.len(),
{
    if entries.len() == 0 {
        Ok(icons)
    } else {
        match append_icons(icons, entries.drop_last()) {
            Err(m) => Err(m),
            Ok(so_far) => match entries.last() {
                Some(s) => Ok(so_far.push(s@)),
                None => Err("expected a string literal"@),
            },
        }
    }
}

/// What one item of `#[tool(...)]` does to the metadata gathered so far.
pub open spec fn meta_effect(v: ToolAttrsView, m: ToolMeta) -> Result<ToolAttrsView, Seq<char>> {
    match m {
        ToolMeta::Flag(None) => Err("invalid #[tool] flag"@),
        ToolMeta::Flag(Some(id)) => {
            let n = id@;
            if n == "read_only"@ {
                Ok(ToolAttrsView { read_only: Some(true), ..v })
            } else if n == "destructive"@ {
                Ok(ToolAttrsView { destructive: Some(true), ..v })
            } else if n == "idempotent"@ {
                Ok(ToolAttrsView { idempotent: Some(true), ..v })
            } else if n == "open_world"@ {
                Ok(ToolAttrsView { open_world: Some(true), ..v })
            } else if n == "always"@ {
                Ok(ToolAttrsView { always: true, ..v })
            } else if n == "defaults"@ {
                Ok(ToolAttrsView { defaults: true, ..v })
            } else if n == "flat"@ {
                Ok(ToolAttrsView { flat: true, ..v })
            } else {
                Err("Unknown #[tool] flag: "@ + n)
            }
        },
        ToolMeta::Assign(None, _) => Err("invalid #[tool] argument"@),
        ToolMeta::Assign(Some(id), e) => {
            let n = id@;
            if n == "title"@ {
                match string_lit(e) {
                    Ok(s) => Ok(ToolAttrsView { title: Some(s), ..v }),
                    Err(x) => Err(x),
                }
            } else if n == "read_only"@ {
                match bool_lit(e) {
                    Ok(b) => Ok(ToolAttrsView { read_only: Some(b), ..v }),
                    Err(x) => Err(x),
                }
            } else if n == "destructive"@ {
                match bool_lit(e) {
                    Ok(b) => Ok(ToolAttrsView { destructive: Some(b), ..v }),
                    Err(x) => Err(x),
                }
            } else if n == "idempotent"@ {
                match bool_lit(e) {
                    Ok(b) => Ok(ToolAttrsView { idempotent: Some(b), ..v }),
                    Err(x) => Err(x),
                }
            } else if n == "open_world"@ {
                match bool_lit(e) {
                    Ok(b) => Ok(ToolAttrsView { open_world: Some(b), ..v }),
                    Err(x) => Err(x),
                }
            } else if n == "task_support"@ {
                match task_support_of(e) {
                    Ok(t) => Ok(ToolAttrsView { task_support: Some(t), ..v }),
                    Err(x) => Err(x),
                }
            } else if n == "output_schema"@ {
                match output_schema_of(e) {
                    Ok(t) => Ok(ToolAttrsView { output_schema: Some(t), ..v }),
                    Err(x) => Err(x),
                }
            } else if n == "icon"@ {
                match string_lit(e) {
                    Ok(s) => Ok(ToolAttrsView { icons: v.icons.push(s), ..v }),
                    Err(x) => Err(x),
                }
            } else if n == "icons"@ {
                match e {
                    AttrExpr::Array(items) => match append_icons(v.icons, items@) {
                        Ok(icons) => Ok(ToolAttrsView { icons, ..v }),
                        Err(x) => Err(x),
                    },
                    _ => Err("icons must be an array of string literals"@),
                }
            } else if n == "defaults"@ {
                match bool_lit(e) {
                    Ok(b) => Ok(ToolAttrsView { defaults: b, ..v }),
                    Err(x) => Err(x),
                }
            } else if n == "flat"@ {
                match bool_lit(e) {
                    Ok(b) => Ok(ToolAttrsView { flat: b, ..v }),
                    Err(x) => Err(x),
                }
            } else if n == "always"@ {
                match bool_lit(e) {
                    Ok(b) => Ok(ToolAttrsView { always: b, ..v }),
                    Err(x) => Err(x),
                }
            } else {
                Err("Unknown #[tool] argument: "@ + n)
            }
        },
        ToolMeta::List(is_icons, entries) => if !is_icons {
            Err("unsupported #[tool] list argument"@)
        } else {
            match entries {
                None => Err("icons(...) must contain string literals"@),
                Some(items) => match append_icons(v.icons, items@) {
                    Ok(icons) => Ok(ToolAttrsView { icons, ..v }),
                    Err(x) => Err(x),
                },
            }
        },
    }
}

/// What a sequence of items does to the metadata gathered so far, stopping
/// at the first error.
pub open spec fn metas_effect(v: ToolAttrsView, ms: Seq<ToolMeta>) -> Result<ToolAttrsView, Seq<char>>
    decreases ms.len(),
{
    if ms.len() == 0 {
        Ok(v)
    } else {
        match metas_effect(v, ms.drop_last()) {
            Err(x) => Err(x),
            Ok(w) => meta_effect(w, ms.last()),
        }
    }
}

/// What a sequence of attributes does to the metadata gathered so far, and
/// whether a `#[tool]` attribute was seen.
pub open spec fn attributes_effect(v: ToolAttrsView, found: bool, attrs: Seq<ToolAttribute>) -> Result<
    (ToolAttrsView, bool),
    Seq<char>,
>
    decreases attrs.len(),
{
    if attrs.len() == 0 {
        Ok((v, found))
    } else {
        match attributes_effect(v, found, attrs.drop_last()) {
            Err(x) => Err(x),
            Ok((w, f)) => match attrs.last() {
                ToolAttribute::Unrelated => Ok((w, f)),
                ToolAttribute::Bare => Ok((w, true)),
                ToolAttribute::NameValue => Err("#[tool] does not support name-value syntax"@),
                ToolAttribute::List(Err(x)) => Err(x@),
                ToolAttribute::List(Ok(ms)) => match metas_effect(w, ms@) {
                    Ok(u) => Ok((u, true)),
                    Err(x) => Err(x),
                },
            },
        }
    }
}

/// The tool metadata of a method's attributes: `None` when it has no
/// `#[tool]` attribute.
pub open spec fn tool_attrs_of(attrs: Seq<ToolAttribute>) -> Result<Option<ToolAttrsView>, Seq<char>> {
    match attributes_effect(empty_tool_attrs(), false, attrs) {
        Err(x) => Err(x),
        Ok((v, found)) => if found {
            Ok(Some(v))
        } else {
            Ok(None)
        },
    }
}

fn parse_string_lit(e: &AttrExpr) -> (r: Result<String, String>)
    ensures
        match (r, string_lit(*e)) {
            (Ok(a), Ok(b)) => a@ == b,
            (Err(a), Err(b)) => a@ == b,
            _ => false,
        },
{
    match e {
        AttrExpr::Str(s) => Ok(s.clone()),
        _ => Err(owned("expected a string literal")),
    }
}

fn parse_bool_lit(e: &AttrExpr) -> (r: Result<bool, String>)
    ensures
        match (r, bool_lit(*e)) {
            (Ok(a), Ok(b)) => a == b,
            (Err(a), Err(b)) => a@ == b,
            _ => false,
        },
{
    match e {
        AttrExpr::Bool(b) => Ok(*b),
        _ => Err(owned("expected a boolean literal")),
    }
}

/// Parse the task support named by a `task_support` argument, ignoring
/// case.
pub fn parse_tool_task_support(e: &AttrExpr) -> (r: Result<ToolTaskSupport, String>)
    ensures
        match (r, task_support_of(*e)) {
            (Ok(a), Ok(b)) => a == b,
            (Err(a), Err(b)) => a@ == b,
            _ => false,
        },
{
    let value = match e {
        AttrExpr::Str(s) => s.as_str(),
        AttrExpr::Path(_, last) => last.as_str(),
        _ => return Err(owned("expected a string literal or identifier for task_support")),
    };
    let l = to_lowercase(value);
    if str_eq(l.as_str(), "forbidden") {
        Ok(ToolTaskSupport::Forbidden)
    } else if str_eq(l.as_str(), "optional") {
        Ok(ToolTaskSupport::Optional)
    } else if str_eq(l.as_str(), "required") {
        Ok(ToolTaskSupport::Required)
    } else {
        Err(owned("task_support must be \"forbidden\", \"optional\", or \"required\""))
    }
}

fn parse_output_schema(e: &AttrExpr) -> (r: Result<TypeName, String>)
    ensures
        match (r, output_schema_of(*e)) {
            (Ok(a), Ok(b)) => a@ == b,
            (Err(a), Err(b)) => a@ == b,
            _ => false,
        },
{
    match e {
        AttrExpr::Path(path, last) => Ok(TypeName { text: path.clone(), path_last: Some(last.clone()) }),
        AttrExpr::Group(Some((path, last))) => Ok(
            TypeName { text: path.clone(), path_last: Some(last.clone()) },
        ),
        _ => Err(owned("output_schema must be a type path")),
    }
}

/// Append the string literals of `entries` to `icons`, failing at the first
/// entry that is not one.
fn push_icons(icons: &mut Vec<String>, entries: &Vec<Option<String>>) -> (r: Result<(), String>)
    ensures
        match append_icons(old(icons)@.map_values(|s: String| s@), entries@) {
            Ok(all) => r is Ok && final(icons)@.map_values(|s: String| s@) == all,
            Err(m) => r matches Err(x) && x@ == m,
        },
{
    let ghost start = icons@.map_values(|s: String| s@);
    let mut i: usize = 0;
    while i < entries.len()
        invariant
            i <= entries.len(),
            start == old(icons)@.map_values(|s: String| s@),
            append_icons(start, entries@.take(i as int)) == Ok::<Seq<Seq<char>>, Seq<char>>(
                icons@.map_values(|s: String| s@),
            ),
        decreases entries.len() - i,
    {
        assert(entries@.take(i + 1).drop_last() == entries@.take(i as int));
        match &entries[i] {
            Some(s) => {
                let ghost before = icons@;
                icons.push(s.clone());
                assert(icons@.map_values(|s: String| s@) =~= before.map_values(|s: String| s@).push(
                    s@,
                ));
            },
            None => {
                proof {
                    lemma_append_icons_stops(start, entries@, i as int);
                }
                return Err(owned("expected a string literal"));
            },
        }
        i = i + 1;
    }
    assert(entries@.take(entries.len() as int) == entries@);
    Ok(())
}

proof fn lemma_append_icons_stops(icons: Seq<Seq<char>>, entries: Seq<Option<String>>, i: int)
    requires
        0 <= i < entries.len(),
        append_icons(icons, entries.take(i)) is Ok,
        entries[i] is None,
    ensures
        append_icons(icons, entries) == Err::<Seq<Seq<char>>, Seq<char>>("expected a string literal"@),
    decreases entries.len() - i,
{
    assert(entries.take(i + 1).drop_last() == entries.take(i));
    if i + 1 == entries.len() {
        assert(entries.take(i + 1) == entries);
    } else {
        lemma_append_icons_error_persists(icons, entries, i + 1);
    }
}

proof fn lemma_append_icons_error_persists(icons: Seq<Seq<char>>, entries: Seq<Option<String>>, k: int)
    requires
        0 < k <= entries.len(),
        append_icons(icons, entries.take(k)) is Err,
    ensures
        append_icons(icons, entries) == append_icons(icons, entries.take(k)),
    decreases entries.len() - k,
{
    if k == entries.len() {
        assert(entries.take(k) == entries);
    } else {
        assert(entries.take(k + 1).drop_last() == entries.take(k));
        lemma_append_icons_error_persists(icons, entries, k + 1);
    }
}

/// Apply one item of `#[tool(...)]` to the metadata gathered so far.
pub fn apply_tool_meta(attrs: &mut ToolAttrs, meta: &ToolMeta) -> (r: Result<(), String>)
    ensures
        match meta_effect(old(attrs)@, *meta) {
            Ok(v) => r is Ok && final(attrs)@ == v,
            Err(m) => r matches Err(x) && x@ == m,
        },
{
    match meta {
        ToolMeta::Flag(None) => Err(owned("invalid #[tool] flag")),
        ToolMeta::Flag(Some(id)) => {
            let n = id.as_str();
            if str_eq(n, "read_only") {
                attrs.read_only = Some(true);
            } else if str_eq(n, "destructive") {
                attrs.destructive = Some(true);
            } else if str_eq(n, "idempotent") {
                attrs.idempotent = Some(true);
            } else if str_eq(n, "open_world") {
                attrs.open_world = Some(true);
            } else if str_eq(n, "always") {
                attrs.always = true;
            } else if str_eq(n, "defaults") {
                attrs.defaults = true;
            } else if str_eq(n, "flat") {
                attrs.flat = true;
            } else {
                let mut m = owned("Unknown #[tool] flag: ");
                push_all(&mut m, n);
                return Err(m);
            }
            assert(attrs@ =~= meta_effect(old(attrs)@, *meta)->Ok_0);
            Ok(())
        },
        ToolMeta::Assign(None, _) => Err(owned("invalid #[tool] argument")),
        ToolMeta::Assign(Some(id), e) => {
            let n = id.as_str();
            if str_eq(n, "title") {
                attrs.title = Some(parse_string_lit(e)?);
            } else if str_eq(n, "read_only") {
                attrs.read_only = Some(parse_bool_lit(e)?);
            } else if str_eq(n, "destructive") {
                attrs.destructive = Some(parse_bool_lit(e)?);
            } else if str_eq(n, "idempotent") {
                attrs.idempotent = Some(parse_bool_lit(e)?);
            } else if str_eq(n, "open_world") {
                attrs.open_world = Some(parse_bool_lit(e)?);
            } else if str_eq(n, "task_support") {
                attrs.task_support = Some(parse_tool_task_support(e)?);
            } else if str_eq(n, "output_schema") {
                attrs.output_schema = Some(parse_output_schema(e)?);
            } else if str_eq(n, "icon") {
                let icon = parse_string_lit(e)?;
                let ghost before = attrs.icons@;
                attrs.icons.push(icon);
                assert(attrs.icons@.map_values(|s: String| s@) =~= before.map_values(
                    |s: String| s@,
                ).push(icon@));
            } else if str_eq(n, "icons") {
                match e {
                    AttrExpr::Array(items) => {
                        push_icons(&mut attrs.icons, items)?;
                    },
                    _ => {
                        return Err(owned("icons must be an array of string literals"));
                    },
                }
            } else if str_eq(n, "defaults") {
                attrs.defaults = parse_bool_lit(e)?;
            } else if str_eq(n, "flat") {
                attrs.flat = parse_bool_lit(e)?;
            } else if str_eq(n, "always") {
                attrs.always = parse_bool_lit(e)?;
            } else {
                let mut m = owned("Unknown #[tool] argument: ");
                push_all(&mut m, n);
                return Err(m);
            }
            assert(attrs@ =~= meta_effect(old(attrs)@, *meta)->Ok_0);
            Ok(())
        },
        ToolMeta::List(is_icons, entries) => {
            if !*is_icons {
                return Err(owned("unsupported #[tool] list argument"));
            }
            match entries {
                None => Err(owned("icons(...) must contain string literals")),
                Some(items) => {
                    push_icons(&mut attrs.icons, items)?;
                    assert(attrs@ =~= meta_effect(old(attrs)@, *meta)->Ok_0);
                    Ok(())
                },
            }
        },
    }
}

/// Apply the items of one `#[tool(...)]` attribute in order, stopping at
/// the first that is refused.
fn apply_tool_metas(attrs: &mut ToolAttrs, metas: &Vec<ToolMeta>) -> (r: Result<(), String>)
    ensures
        match metas_effect(old(attrs)@, metas@) {
            Ok(v) => r is Ok && final(attrs)@ == v,
            Err(m) => r matches Err(x) && x@ == m,
        },
{
    let ghost start = attrs@;
    let mut i: usize = 0;
    while i < metas.len()
        invariant
            i <= metas.len(),
            start == old(attrs)@,
            metas_effect(start, metas@.take(i as int)) == Ok::<ToolAttrsView, Seq<char>>(attrs@),
        decreases metas.len() - i,
    {
        assert(metas@.take(i + 1).drop_last() == metas@.take(i as int));
        match apply_tool_meta(attrs, &metas[i]) {
            Ok(()) => {},
            Err(m) => {
                proof {
                    lemma_metas_error_persists(start, metas@, i + 1);
                }
                return Err(m);
            },
        }
        i = i + 1;
    }
    assert(metas@.take(metas.len() as int) == metas@);
    Ok(())
}

proof fn lemma_metas_error_persists(v: ToolAttrsView, ms: Seq<ToolMeta>, k: int)
    requires
        0 < k <= ms.len(),
        metas_effect(v, ms.take(k)) is Err,
    ensures
        metas_effect(v, ms) == metas_effect(v, ms.take(k)),
    decreases ms.len() - k,
{
    if k == ms.len() {
        assert(ms.take(k) == ms);
    } else {
        assert(ms.take(k + 1).drop_last() == ms.take(k));
        lemma_metas_error_persists(v, ms, k + 1);
    }
}

proof fn lemma_attributes_error_persists(v: ToolAttrsView, found: bool, attrs: Seq<ToolAttribute>, k: int)
    requires
        0 < k <= attrs.len(),
        attributes_effect(v, found, attrs.take(k)) is Err,
    ensures
        attributes_effect(v, found, attrs) == attributes_effect(v, found, attrs.take(k)),
    decreases attrs.len() - k,
{
    if k == attrs.len() {
        assert(attrs.take(k) == attrs);
    } else {
        assert(attrs.take(k + 1).drop_last() == attrs.take(k));
        lemma_attributes_error_persists(v, found, attrs, k + 1);
    }
}

/// Parse tool metadata from the attributes of a method: `None` when none of
/// them is `#[tool]`, the first refusal when one is malformed.
pub fn parse_tool_attrs(attrs: &Vec<ToolAttribute>) -> (r: Result<Option<ToolAttrs>, String>)
    ensures
        match tool_attrs_of(attrs@) {
            Ok(None) => r matches Ok(None),
            Ok(Some(v)) => r matches Ok(Some(t)) && t@ == v,
            Err(m) => r matches Err(x) && x@ == m,
        },
{
    let mut tool_attrs = ToolAttrs {
        title: None,
        read_only: None,
        destructive: None,
        idempotent: None,
        open_world: None,
        task_support: None,
        output_schema: None,
        icons: Vec::new(),
        defaults: false,
        flat: false,
        always: false,
    };
    assert(tool_attrs@ =~= empty_tool_attrs());
    let mut found = false;
    let mut i: usize = 0;
    while i < attrs.len()
        invariant
            i <= attrs.len(),
            attributes_effect(empty_tool_attrs(), false, attrs@.take(i as int)) == Ok::<
                (ToolAttrsView, bool),
                Seq<char>,
            >((tool_attrs@, found)),
        decreases attrs.len() - i,
    {
        assert(attrs@.take(i + 1).drop_last() == attrs@.take(i as int));
        match &attrs[i] {
            ToolAttribute::Unrelated => {},
            ToolAttribute::Bare => {
                found = true;
            },
            ToolAttribute::NameValue => {
                proof {
                    lemma_attributes_error_persists(empty_tool_attrs(), false, attrs@, i + 1);
                }
                return Err(owned("#[tool] does not support name-value syntax"));
            },
            ToolAttribute::List(Err(m)) => {
                proof {
                    lemma_attributes_error_persists(empty_tool_attrs(), false, attrs@, i + 1);
                }
                return Err(m.clone());
            },
            ToolAttribute::List(Ok(metas)) => {
                match apply_tool_metas(&mut tool_attrs, metas) {
                    Ok(()) => {
                        found = true;
                    },
                    Err(m) => {
                        proof {
                            lemma_attributes_error_persists(empty_tool_attrs(), false, attrs@, i + 1);
                        }
                        return Err(m);
                    },
                }
            },
        }
        i = i + 1;
    }
    assert(attrs@.take(attrs.len() as int) == attrs@);
    if found {
        Ok(Some(tool_attrs))
    } else {
        Ok(None)
    }
}

/// The shape of one parameter of a tool method, as far as the signature
/// rules read it.
#[derive(Debug, Clone, Copy, PartialEq, Eq, Structural)]
pub enum ParamShape {
    /// `self`, `&self` or `&mut self`.
    Receiver,
    /// A typed parameter: whether its type is `&ServerCtx`, whether it is
    /// `()`, and whether its pattern is a plain identifier.
    Typed {
        /// The type is `ServerCtx` (behind references).
        is_ctx: bool,
        /// The type is the unit type.
        is_unit: bool,
        /// The pattern is a simple identifier.
        simple_ident: bool,
    },
}

/// How a tool method takes its arguments.
#[derive(Debug, Clone, PartialEq, Eq)]
pub enum ParamsLayout {
    /// No argument parameter.
    NoParams,
    /// A single `()` parameter.
    Unit,
    /// A single typed parameter, at this position, deserialized whole.
    Typed(usize),
    /// Parameters at these positions, each a field of a generated argument
    /// struct.
    Flat(Vec<usize>),
}

/// The abstract form of [`ParamsLayout`].
pub enum LayoutView {
    /// No argument parameter.
    NoParams,
    /// A single `()` parameter.
    Unit,
    /// A single typed parameter at this position.
    Typed(int),
    /// Flat parameters at these positions.
    Flat(Seq<int>),
}

/// The abstract form of a layout.
pub open spec fn layout_view(l: ParamsLayout) -> LayoutView {
    match l {
        ParamsLayout::NoParams => LayoutView::NoParams,
        ParamsLayout::Unit => LayoutView::Unit,
        ParamsLayout::Typed(i) => LayoutView::Typed(i as int),
        ParamsLayout::Flat(v) => LayoutView::Flat(v@.map_values(|i: usize| i as int)),
    }
}

/// The refusal of the first of several argument parameters (from `start`
/// on) that cannot be a flat argument, if any.
pub open spec fn flat_refusal(params: Seq<ParamShape>, start: int) -> Option<Seq<char>>
    decreases params.len() - start,
{
    if start >= params.len() {
        None
    } else {
        match params[start] {
            ParamShape::Receiver => Some("flat tool parameters must be typed"@),
            ParamShape::Typed { is_ctx, is_unit, simple_ident } => if is_ctx {
                Some("only one &ServerCtx parameter is allowed"@)
            } else if is_unit {
                Some("unit parameters are not supported in flat tool signatures"@)
            } else if !simple_ident {
                Some("flat tool parameters must be simple identifiers"@)
            } else {
                flat_refusal(params, start + 1)
            },
        }
    }
}

/// The positions from `start` to the end.
pub open spec fn positions_from(start: int, end: int) -> Seq<int> {
    Seq::new((end - start) as nat, |k: int| start + k)
}

/// How the parameters of a tool method are read: the receiver first, then
/// an optional `&ServerCtx`, then the argument parameters; whether the
/// method takes a context, and the layout of its arguments.
pub open spec fn params_layout_of(params: Seq<ParamShape>, flat: bool) -> Result<(bool, LayoutView), Seq<char>> {
    if params.len() == 0 {
        Err("tool methods must include &self or &mut self"@)
    } else if params[0] != ParamShape::Receiver {
        Err("first parameter must be &self or &mut self"@)
    } else if params.len() > 1 && params[1] == ParamShape::Receiver {
        Err("second parameter must be &ServerCtx or a typed parameter"@)
    } else {
        let has_ctx = params.len() > 1 && (params[1] matches ParamShape::Typed { is_ctx, .. } && is_ctx);
        let start: int = if has_ctx { 2 } else { 1 };
        let remaining = params.len() - start;
        if remaining == 0 {
            if flat {
                Err("#[tool(flat)] requires at least one non-context parameter"@)
            } else {
                Ok((has_ctx, LayoutView::NoParams))
            }
        } else if remaining == 1 {
            match params[start] {
                ParamShape::Receiver => Err("parameter must be a typed parameter"@),
                ParamShape::Typed { is_ctx, is_unit, simple_ident } => if is_ctx {
                    Err("only one &ServerCtx parameter is allowed"@)
                } else if is_unit {
                    if flat {
                        Err("#[tool(flat)] cannot be used with unit parameters"@)
                    } else {
                        Ok((has_ctx, LayoutView::Unit))
                    }
                } else if flat {
                    if simple_ident {
                        Ok((has_ctx, LayoutView::Flat(seq![start])))
                    } else {
                        Err("flat tool parameters must be simple identifiers"@)
                    }
                } else {
                    Ok((has_ctx, LayoutView::Typed(start)))
                },
            }
        } else {
            match flat_refusal(params, start) {
                Some(m) => Err(m),
                None => Ok((has_ctx, LayoutView::Flat(positions_from(start, params.len() as int)))),
            }
        }
    }
}

/// Read the parameters of a tool method; `flat` is its `#[tool(flat)]`
/// setting.
pub fn classify_tool_params(params: &Vec<ParamShape>, flat: bool) -> (r: Result<(bool, ParamsLayout), &'static str>)
    ensures
        match (r, params_layout_of(params@, flat)) {
            (Ok((c, l)), Ok((c2, l2))) => c == c2 && layout_view(l) == l2,
            (Err(m), Err(m2)) => m@ == m2,
            _ => false,
        },
{
    let n = params.len();
    if n == 0 {
        return Err("tool methods must include &self or &mut self");
    }
    if params[0] != ParamShape::Receiver {
        return Err("first parameter must be &self or &mut self");
    }
    if n > 1 && params[1] == ParamShape::Receiver {
        return Err("second parameter must be &ServerCtx or a typed parameter");
    }
    let has_ctx = n > 1 && match params[1] {
        ParamShape::Typed { is_ctx, .. } => is_ctx,
        ParamShape::Receiver => false,
    };
    let start: usize = if has_ctx { 2 } else { 1 };
    let remaining = n - start;
    if remaining == 0 {
        if flat {
            return Err("#[tool(flat)] requires at least one non-context parameter");
        }
        return Ok((has_ctx, ParamsLayout::NoParams));
    }
    if remaining == 1 {
        return match params[start] {
            ParamShape::Receiver => Err("parameter must be a typed parameter"),
            ParamShape::Typed { is_ctx, is_unit, simple_ident } => {
                if is_ctx {
                    Err("only one &ServerCtx parameter is allowed")
                } else if is_unit {
                    if flat {
                        Err("#[tool(flat)] cannot be used with unit parameters")
                    } else {
                        Ok((has_ctx, ParamsLayout::Unit))
                    }
                } else if flat {
                    if simple_ident {
                        let mut v: Vec<usize> = Vec::new();
                        v.push(start);
                        assert(v@.map_values(|i: usize| i as int) =~= seq![start as int]);
                        Ok((has_ctx, ParamsLayout::Flat(v)))
                    } else {
                        Err("flat tool parameters must be simple identifiers")
                    }
                } else {
                    Ok((has_ctx, ParamsLayout::Typed(start)))
                }
            },
        };
    }
    let ghost expected = match flat_refusal(params@, start as int) {
        Some(m) => Err(m),
        None => Ok((has_ctx, LayoutView::Flat(positions_from(start as int, n as int)))),
    };
    assert(params_layout_of(params@, flat) == expected);
    let mut positions: Vec<usize> = Vec::new();
    let mut k: usize = start;
    while k < n
        invariant
            start <= k <= n,
            n == params.len(),
            params_layout_of(params@, flat) == expected,
            expected == match flat_refusal(params@, start as int) {
                Some(m) => Err(m),
                None => Ok((has_ctx, LayoutView::Flat(positions_from(start as int, n as int)))),
            },
            flat_refusal(params@, start as int) == flat_refusal(params@, k as int),
            positions@.len() == k - start,
            positions@.map_values(|i: usize| i as int) == positions_from(start as int, k as int),
        decreases n - k,
    {
        match params[k] {
            ParamShape::Receiver => {
                return Err("flat tool parameters must be typed");
            },
            ParamShape::Typed { is_ctx, is_unit, simple_ident } => {
                if is_ctx {
                    return Err("only one &ServerCtx parameter is allowed");
                }
                if is_unit {
                    return Err("unit parameters are not supported in flat tool signatures");
                }
                if !simple_ident {
                    return Err("flat tool parameters must be simple identifiers");
                }
            },
        }
        let ghost before = positions@;
        positions.push(k);
        proof {
            let now = positions@.map_values(|i: usize| i as int);
            let want = positions_from(start as int, k + 1);
            assert(now.len() == want.len());
            assert forall|j: int| 0 <= j < now.len() implies now[j] == want[j] by {
                if j < before.len() {
                    assert(positions@[j] == before[j]);
                    assert(before.map_values(|i: usize| i as int)[j] == positions_from(
                        start as int,
                        k as int,
                    )[j]);
                }
            }
            assert(now =~= want);
        }
        k = k + 1;
    }
    Ok((has_ctx, ParamsLayout::Flat(positions)))
}

/// What a tool method returns.
#[derive(Debug, Clone, Copy, PartialEq, Eq)]
pub enum ToolReturnKind {
    /// `Result<schema::CallToolResult>`.
    Result,
    /// `ToolResult` or `ToolResult<T>`.
    ToolResult,
}

/// The return kind named by the last segment of a tool method's return type
/// path (`None` when it has no return type or the type is not a path).
pub open spec fn return_kind_of(last_segment: Option<Seq<char>>) -> Result<ToolReturnKind, Seq<char>> {
    match last_segment {
        Some(s) => if s == "Result"@ {
            Ok(ToolReturnKind::Result)
        } else if s == "ToolResult"@ {
            Ok(ToolReturnKind::ToolResult)
        } else {
            Err("tool methods must return Result<schema::CallToolResult> or ToolResult"@)
        },
        None => Err("tool methods must return Result<schema::CallToolResult> or ToolResult"@),
    }
}

/// Read the return kind of a tool method.
pub fn parse_tool_return(last_segment: Option<&str>) -> (r: Result<ToolReturnKind, &'static str>)
    ensures
        match (r, return_kind_of(match last_segment {
            Some(s) => Some(s@),
            None => None,
        })) {
            (Ok(a), Ok(b)) => a == b,
            (Err(m), Err(m2)) => m@ == m2,
            _ => false,
        },
{
    match last_segment {
        Some(s) => {
            if str_eq(s, "Result") {
                Ok(ToolReturnKind::Result)
            } else if str_eq(s, "ToolResult") {
                Ok(ToolReturnKind::ToolResult)
            } else {
                Err("tool methods must return Result<schema::CallToolResult> or ToolResult")
            }
        },
        None => Err("tool methods must return Result<schema::CallToolResult> or ToolResult"),
    }
}

/// Description of a method tagged as a tool.
#[derive(Debug, Clone)]
pub struct ToolMethod {
    /// Name of the tool method.
    pub name: String,
    /// Collected doc comments for the tool.
    pub docs: String,
    /// Whether the tool expects a `ServerCtx` parameter.
    pub has_ctx: bool,
    /// How the tool takes its arguments.
    pub params: ParamsLayout,
    /// Tool return type kind for call routing.
    pub return_kind: ToolReturnKind,
    /// The `T` of a `ToolResult<T>` return type.
    pub output_type: Option<TypeName>,
    /// Parsed tool attribute metadata.
    pub attrs: ToolAttrs,
}

/// The `T` a tool's return type carries: the first type argument of a
/// `ToolResult<..>`; none for `Result<..>`.
pub open spec fn output_type_of(kind: ToolReturnKind, type_argument: Option<(Seq<char>, Option<Seq<char>>)>) -> Option<(Seq<char>, Option<Seq<char>>)> {
    match kind {
        ToolReturnKind::ToolResult => type_argument,
        ToolReturnKind::Result => None,
    }
}

/// Read a method as a tool: `None` when it carries no `#[tool]` attribute;
/// otherwise its attributes, then that it is async, then its parameters,
/// then its return type are checked, and the first refusal is reported.
pub fn parse_tool_method(
    name: &str,
    doc_lines: &Vec<String>,
    attributes: &Vec<ToolAttribute>,
    is_async: bool,
    params: &Vec<ParamShape>,
    return_last_segment: Option<&str>,
    return_type_argument: Option<&TypeName>,
) -> (r: Result<Option<ToolMethod>, String>)
    ensures
        match tool_attrs_of(attributes@) {
            Err(m) => r matches Err(x) && x@ == m,
            Ok(None) => r matches Ok(None),
            Ok(Some(a)) => if !is_async {
                r matches Err(x) && x@ == "tool methods must be async"@
            } else {
                match params_layout_of(params@, a.flat) {
                    Err(m) => r matches Err(x) && x@ == m,
                    Ok((has_ctx, layout)) => match return_kind_of(
                        match return_last_segment {
                            Some(s) => Some(s@),
                            None => None,
                        },
                    ) {
                        Err(m) => r matches Err(x) && x@ == m,
                        Ok(kind) => r matches Ok(Some(t)) && t.name@ == name@ && t.docs@ == join(
                            crate::macro_model::doc_lines(views(doc_lines@)),
                            "\n"@,
                        ) && t.has_ctx == has_ctx && layout_view(t.params) == layout
                            && t.return_kind == kind && t.attrs@ == a && type_name_view(t.output_type)
                            == output_type_of(
                            kind,
                            match return_type_argument {
                                Some(n) => Some(n@),
                                None => None,
                            },
                        ),
                    },
                }
            },
        },
{
    let attrs = match parse_tool_attrs(attributes)? {
        Some(a) => a,
        None => return Ok(None),
    };
    let docs = crate::macro_model::extract_doc_comment(doc_lines);
    if !is_async {
        return Err(owned("tool methods must be async"));
    }
    let (has_ctx, layout) = match classify_tool_params(params, attrs.flat) {
        Ok(p) => p,
        Err(m) => return Err(owned(m)),
    };
    let return_kind = match parse_tool_return(return_last_segment) {
        Ok(k) => k,
        Err(m) => return Err(owned(m)),
    };
    let output_type = match (return_kind, return_type_argument) {
        (ToolReturnKind::ToolResult, Some(n)) => Some(copy_type_name(n)),
        _ => None,
    };
    Ok(Some(ToolMethod { name: owned(name), docs, has_ctx, params: layout, return_kind, output_type, attrs }))
}

/// What one item of `#[group(...)]` does to the segment name gathered so
/// far: only `name = "..."` is accepted.
pub open spec fn group_meta_effect(segment: Option<Seq<char>>, m: ToolMeta) -> Result<Option<Seq<char>>, Seq<char>> {
    match m {
        ToolMeta::Flag(_) => Err("unsupported #[group] flag"@),
        ToolMeta::List(_, _) => Err("unsupported #[group] list argument"@),
        ToolMeta::Assign(None, _) => Err("invalid #[group] argument"@),
        ToolMeta::Assign(Some(id), e) => if id@ == "name"@ {
            match string_lit(e) {
                Ok(s) => Ok(Some(s)),
                Err(x) => Err(x),
            }
        } else {
            Err("Unknown #[group] argument: "@ + id@)
        },
    }
}

/// What a sequence of `#[group(...)]` items does, stopping at the first
/// error.
pub open spec fn group_metas_effect(segment: Option<Seq<char>>, ms: Seq<ToolMeta>) -> Result<Option<Seq<char>>, Seq<char>>
    decreases ms.len(),
{
    if ms.len() == 0 {
        Ok(segment)
    } else {
        match group_metas_effect(segment, ms.drop_last()) {
            Err(x) => Err(x),
            Ok(t) => group_meta_effect(t, ms.last()),
        }
    }
}

/// What a method's attributes say of it as a group: whether a `#[group]`
/// attribute was seen and the segment name it sets.
pub open spec fn group_attributes_effect(segment: Option<Seq<char>>, found: bool, attrs: Seq<ToolAttribute>) -> Result<
    (Option<Seq<char>>, bool),
    Seq<char>,
>
    decreases attrs.len(),
{
    if attrs.len() == 0 {
        Ok((segment, found))
    } else {
        match group_attributes_effect(segment, found, attrs.drop_last()) {
            Err(x) => Err(x),
            Ok((t, f)) => match attrs.last() {
                ToolAttribute::Unrelated => Ok((t, f)),
                ToolAttribute::Bare => Ok((t, true)),
                ToolAttribute::NameValue => Err("#[group] does not support name-value syntax"@),
                ToolAttribute::List(Err(x)) => Err(x@),
                ToolAttribute::List(Ok(ms)) => match group_metas_effect(t, ms@) {
                    Ok(u) => Ok((u, true)),
                    Err(x) => Err(x),
                },
            },
        }
    }
}

/// The refusal of a group factory's signature, if any: it must be
/// synchronous, take only a receiver, and return something.
pub open spec fn group_signature_refusal(is_async: bool, params: Seq<ParamShape>, has_return_type: bool) -> Option<Seq<char>> {
    if is_async {
        Some("group methods must be synchronous"@)
    } else if params.len() == 0 {
        Some("group methods must include &self or &mut self"@)
    } else if params[0] != ParamShape::Receiver {
        Some("first parameter must be &self or &mut self"@)
    } else if params.len() > 1 {
        Some("group methods must not take additional parameters"@)
    } else if !has_return_type {
        Some("group methods must return a group type"@)
    } else {
        None
    }
}

/// A method that builds a group of tools.
#[derive(Debug, Clone)]
pub struct GroupMethod {
    /// The method's name.
    pub name: String,
    /// The segment name set by `#[group(name = "...")]`.
    pub segment_override: Option<String>,
}

fn apply_group_metas(segment: &mut Option<String>, metas: &Vec<ToolMeta>) -> (r: Result<(), String>)
    ensures
        match group_metas_effect(opt_view(*old(segment)), metas@) {
            Ok(t) => r is Ok && opt_view(*final(segment)) == t,
            Err(m) => r matches Err(x) && x@ == m,
        },
{
    let ghost start = opt_view(*segment);
    let mut i: usize = 0;
    while i < metas.len()
        invariant
            i <= metas.len(),
            start == opt_view(*old(segment)),
            group_metas_effect(start, metas@.take(i as int)) == Ok::<Option<Seq<char>>, Seq<char>>(
                opt_view(*segment),
            ),
        decreases metas.len() - i,
    {
        assert(metas@.take(i + 1).drop_last() == metas@.take(i as int));
        let step: Result<(), String> = match &metas[i] {
            ToolMeta::Flag(_) => Err(owned("unsupported #[group] flag")),
            ToolMeta::List(_, _) => Err(owned("unsupported #[group] list argument")),
            ToolMeta::Assign(None, _) => Err(owned("invalid #[group] argument")),
            ToolMeta::Assign(Some(id), e) => {
                if str_eq(id.as_str(), "name") {
                    match parse_string_lit(e) {
                        Ok(v) => {
                            *segment = Some(v);
                            Ok(())
                        },
                        Err(x) => Err(x),
                    }
                } else {
                    let mut m = owned("Unknown #[group] argument: ");
                    push_all(&mut m, id.as_str());
                    Err(m)
                }
            },
        };
        if let Err(m) = step {
            proof {
                lemma_group_metas_error_persists(start, metas@, i + 1);
            }
            return Err(m);
        }
        i = i + 1;
    }
    assert(metas@.take(metas.len() as int) == metas@);
    Ok(())
}

proof fn lemma_group_metas_error_persists(t: Option<Seq<char>>, ms: Seq<ToolMeta>, k: int)
    requires
        0 < k <= ms.len(),
        group_metas_effect(t, ms.take(k)) is Err,
    ensures
        group_metas_effect(t, ms) == group_metas_effect(t, ms.take(k)),
    decreases ms.len() - k,
{
    if k == ms.len() {
        assert(ms.take(k) == ms);
    } else {
        assert(ms.take(k + 1).drop_last() == ms.take(k));
        lemma_group_metas_error_persists(t, ms, k + 1);
    }
}

proof fn lemma_group_attributes_error_persists(t: Option<Seq<char>>, found: bool, attrs: Seq<ToolAttribute>, k: int)
    requires
        0 < k <= attrs.len(),
        group_attributes_effect(t, found, attrs.take(k)) is Err,
    ensures
        group_attributes_effect(t, found, attrs) == group_attributes_effect(t, found, attrs.take(k)),
    decreases attrs.len() - k,
{
    if k == attrs.len() {
        assert(attrs.take(k) == attrs);
    } else {
        assert(attrs.take(k + 1).drop_last() == attrs.take(k));
        lemma_group_attributes_error_persists(t, found, attrs, k + 1);
    }
}

/// Read a method as a group factory: `None` when it carries no `#[group]`
/// attribute; otherwise its attributes, then its signature, are checked.
pub fn parse_group_method(
    name: &str,
    attributes: &Vec<ToolAttribute>,
    is_async: bool,
    params: &Vec<ParamShape>,
    has_return_type: bool,
) -> (r: Result<Option<GroupMethod>, String>)
    ensures
        match group_attributes_effect(None, false, attributes@) {
            Err(m) => r matches Err(x) && x@ == m,
            Ok((_, false)) => r matches Ok(None),
            Ok((segment, true)) => match group_signature_refusal(is_async, params@, has_return_type) {
                Some(m) => r matches Err(x) && x@ == m,
                None => r matches Ok(Some(g)) && g.name@ == name@ && opt_view(g.segment_override)
                    == segment,
            },
        },
{
    let mut segment: Option<String> = None;
    let mut found = false;
    let mut i: usize = 0;
    while i < attributes.len()
        invariant
            i <= attributes.len(),
            group_attributes_effect(None, false, attributes@.take(i as int)) == Ok::<
                (Option<Seq<char>>, bool),
                Seq<char>,
            >((opt_view(segment), found)),
        decreases attributes.len() - i,
    {
        assert(attributes@.take(i + 1).drop_last() == attributes@.take(i as int));
        match &attributes[i] {
            ToolAttribute::Unrelated => {},
            ToolAttribute::Bare => {
                found = true;
            },
            ToolAttribute::NameValue => {
                proof {
                    lemma_group_attributes_error_persists(None, false, attributes@, i + 1);
                }
                return Err(owned("#[group] does not support name-value syntax"));
            },
            ToolAttribute::List(Err(m)) => {
                proof {
                    lemma_group_attributes_error_persists(None, false, attributes@, i + 1);
                }
                return Err(m.clone());
            },
            ToolAttribute::List(Ok(metas)) => {
                match apply_group_metas(&mut segment, metas) {
                    Ok(()) => {
                        found = true;
                    },
                    Err(m) => {
                        proof {
                            lemma_group_attributes_error_persists(None, false, attributes@, i + 1);
                        }
                        return Err(m);
                    },
                }
            },
        }
        i = i + 1;
    }
    assert(attributes@.take(attributes.len() as int) == attributes@);
    if !found {
        return Ok(None);
    }
    if is_async {
        return Err(owned("group methods must be synchronous"));
    }
    if params.len() == 0 {
        return Err(owned("group methods must include &self or &mut self"));
    }
    if params[0] != ParamShape::Receiver {
        return Err(owned("first parameter must be &self or &mut self"));
    }
    if params.len() > 1 {
        return Err(owned("group methods must not take additional parameters"));
    }
    if !has_return_type {
        return Err(owned("group methods must return a group type"));
    }
    Ok(Some(GroupMethod { name: owned(name), segment_override: segment }))
}

/// The refusal of an annotated impl block as a whole, if any: groups need a
/// tool set, and a server without a tool set needs a tool or a resource
/// callback.
pub open spec fn server_refusal(has_toolset: bool, tools: nat, groups: nat, resource_callbacks: bool) -> Option<Seq<char>> {
    if !has_toolset && groups > 0 {
        Some("#[group] methods require #[mcp_server(toolset = \"field\")]"@)
    } else if !has_toolset && tools == 0 && !resource_callbacks {
        Some("No tool methods or resource callbacks found. Use #[tool] or a resource callback argument"@)
    } else {
        None
    }
}

/// Check an annotated impl block as a whole.
pub fn check_server_methods(has_toolset: bool, tools: usize, groups: usize, resource_callbacks: bool) -> (r: Result<(), &'static str>)
    ensures
        match server_refusal(has_toolset, tools as nat, groups as nat, resource_callbacks) {
            Some(m) => r matches Err(x) && x@ == m,
            None => r is Ok,
        },
{
    if !has_toolset && groups > 0 {
        Err("#[group] methods require #[mcp_server(toolset = \"field\")]")
    } else if !has_toolset && tools == 0 && !resource_callbacks {
        Err("No tool methods or resource callbacks found. Use #[tool] or a resource callback argument")
    } else {
        Ok(())
    }
}

/// The role of one method of an annotated impl block.
#[derive(Debug, Clone)]
pub enum MethodRole {
    /// A tool.
    Tool(ToolMethod),
    /// A group factory.
    Group(GroupMethod),
    /// Neither: left as it is.
    Plain,
}

/// The role of a method from its readings as a tool and as a group; one
/// that is both is refused.
pub fn method_role(tool: Option<ToolMethod>, group: Option<GroupMethod>) -> (r: Result<MethodRole, &'static str>)
    ensures
        match (tool, group) {
            (Some(_), Some(_)) => r matches Err(m) && m@ == "methods cannot be both #[tool] and #[group]"@,
            (Some(t), None) => r matches Ok(MethodRole::Tool(u)) && u == t,
            (None, Some(g)) => r matches Ok(MethodRole::Group(h)) && h == g,
            (None, None) => r matches Ok(MethodRole::Plain),
        },
{
    match (tool, group) {
        (Some(_), Some(_)) => Err("methods cannot be both #[tool] and #[group]"),
        (Some(t), None) => Ok(MethodRole::Tool(t)),
        (None, Some(g)) => Ok(MethodRole::Group(g)),
        (None, None) => Ok(MethodRole::Plain),
    }
}

/// What reading a method as a tool gives: a refusal, `None` for a method
/// without `#[tool]`, or the tool's context flag, argument layout, return
/// kind and attributes.
pub open spec fn tool_reading(
    attributes: Seq<ToolAttribute>,
    is_async: bool,
    params: Seq<ParamShape>,
    return_last_segment: Option<Seq<char>>,
) -> Result<Option<(bool, LayoutView, ToolReturnKind, ToolAttrsView)>, Seq<char>> {
    match tool_attrs_of(attributes) {
        Err(m) => Err(m),
        Ok(None) => Ok(None),
        Ok(Some(a)) => if !is_async {
            Err("tool methods must be async"@)
        } else {
            match params_layout_of(params, a.flat) {
                Err(m) => Err(m),
                Ok((has_ctx, layout)) => match return_kind_of(return_last_segment) {
                    Err(m) => Err(m),
                    Ok(kind) => Ok(Some((has_ctx, layout, kind, a))),
                },
            }
        },
    }
}

/// What reading a method as a group factory gives: a refusal, `None` for a
/// method without `#[group]`, or the segment name it sets.
pub open spec fn group_reading(
    attributes: Seq<ToolAttribute>,
    is_async: bool,
    params: Seq<ParamShape>,
    has_return_type: bool,
) -> Result<Option<Option<Seq<char>>>, Seq<char>> {
    match group_attributes_effect(None, false, attributes) {
        Err(m) => Err(m),
        Ok((_, false)) => Ok(None),
        Ok((segment, true)) => match group_signature_refusal(is_async, params, has_return_type) {
            Some(m) => Err(m),
            None => Ok(Some(segment)),
        },
    }
}

/// A method of an annotated impl block, as far as the server macro reads it.
#[derive(Debug)]
pub struct ImplMethod {
    /// The method's name.
    pub name: String,
    /// Its doc comment lines.
    pub doc_lines: Vec<String>,
    /// Its attributes read against `#[tool]` (those of any other name are
    /// `Unrelated`).
    pub tool_attributes: Vec<ToolAttribute>,
    /// Its attributes read against `#[group]` (those of any other name are
    /// `Unrelated`).
    pub group_attributes: Vec<ToolAttribute>,
    /// Whether it is `async`.
    pub is_async: bool,
    /// Its parameters.
    pub params: Vec<ParamShape>,
    /// The last path segment of its return type, when that is a path.
    pub return_last_segment: Option<String>,
    /// The first type argument of that last segment, when it has one.
    pub return_type_argument: Option<TypeName>,
    /// Whether it declares a return type.
    pub has_return_type: bool,
}

/// The reading of a method as a tool.
pub open spec fn method_tool_reading(m: ImplMethod) -> Result<Option<(bool, LayoutView, ToolReturnKind, ToolAttrsView)>, Seq<char>> {
    tool_reading(m.tool_attributes@, m.is_async, m.params@, opt_view(m.return_last_segment))
}

/// The reading of a method as a group factory.
pub open spec fn method_group_reading(m: ImplMethod) -> Result<Option<Option<Seq<char>>>, Seq<char>> {
    group_reading(m.group_attributes@, m.is_async, m.params@, m.has_return_type)
}

/// The refusal of one method: its tool reading's, then its group reading's,
/// then being both a tool and a group.
pub open spec fn method_refusal(m: ImplMethod) -> Option<Seq<char>> {
    match method_tool_reading(m) {
        Err(e) => Some(e),
        Ok(t) => match method_group_reading(m) {
            Err(e) => Some(e),
            Ok(g) => if t is Some && g is Some {
                Some("methods cannot be both #[tool] and #[group]"@)
            } else {
                None
            },
        },
    }
}

/// The first refusal among the methods, in order.
pub open spec fn methods_refusal(ms: Seq<ImplMethod>) -> Option<Seq<char>>
    decreases ms.len(),
{
    if ms.len() == 0 {
        None
    } else {
        match methods_refusal(ms.drop_last()) {
            Some(e) => Some(e),
            None => method_refusal(ms.last()),
        }
    }
}

/// The positions of the methods that are tools, in order.
pub open spec fn tool_positions(ms: Seq<ImplMethod>) -> Seq<int>
    decreases ms.len(),
{
    if ms.len() == 0 {
        Seq::empty()
    } else {
        let rest = tool_positions(ms.drop_last());
        if method_tool_reading(ms.last()) matches Ok(Some(_)) {
            rest.push(ms.len() - 1)
        } else {
            rest
        }
    }
}

/// The positions of the methods that are group factories (and not tools),
/// in order.
pub open spec fn group_positions(ms: Seq<ImplMethod>) -> Seq<int>
    decreases ms.len(),
{
    if ms.len() == 0 {
        Seq::empty()
    } else {
        let rest = group_positions(ms.drop_last());
        if method_tool_reading(ms.last()) matches Ok(None) && method_group_reading(ms.last()) matches Ok(
            Some(_),
        ) {
            rest.push(ms.len() - 1)
        } else {
            rest
        }
    }
}

/// Whether `t` is the tool that method `m` reads as.
pub open spec fn is_tool_of(t: ToolMethod, m: ImplMethod) -> bool {
    method_tool_reading(m) matches Ok(Some((has_ctx, layout, kind, a))) && t.name@ == m.name@ && t.docs@
        == join(crate::macro_model::doc_lines(views(m.doc_lines@)), "\n"@) && t.has_ctx == has_ctx
        && layout_view(t.params) == layout && t.return_kind == kind && t.attrs@ == a
        && type_name_view(t.output_type) == output_type_of(kind, type_name_view(m.return_type_argument))
}

/// Whether `g` is the group factory that method `m` reads as.
pub open spec fn is_group_of(g: GroupMethod, m: ImplMethod) -> bool {
    method_group_reading(m) matches Ok(Some(segment)) && g.name@ == m.name@ && opt_view(
        g.segment_override,
    ) == segment
}

/// The type an impl block is for, as far as the server macro reads it.
#[derive(Debug, Clone)]
pub enum SelfTypeShape {
    /// A path type, with the identifier of its last segment (`None` when
    /// it has no segment).
    Path(Option<String>),
    /// Any other type.
    Other,
}

/// What the server macro learns from an annotated impl block.
#[derive(Debug, Clone)]
pub struct ServerInfo {
    /// The name of the server type.
    pub struct_name: String,
    /// The impl block's doc comment.
    pub description: String,
    /// Its tool methods, in order.
    pub tools: Vec<ToolMethod>,
    /// Its group factory methods, in order.
    pub groups: Vec<GroupMethod>,
}

/// The refusal of an impl block, if any: its type must be a named path, and
/// then each method is read in order.
pub open spec fn impl_block_refusal(self_type: SelfTypeShape, ms: Seq<ImplMethod>) -> Option<Seq<char>> {
    match self_type {
        SelfTypeShape::Other => Some("Expected a struct or type name"@),
        SelfTypeShape::Path(None) => Some("Invalid type name"@),
        SelfTypeShape::Path(Some(_)) => methods_refusal(ms),
    }
}

proof fn lemma_refusal_persists(ms: Seq<ImplMethod>, k: int)
    requires
        0 <= k <= ms.len(),
        methods_refusal(ms.take(k)) is Some,
    ensures
        methods_refusal(ms) == methods_refusal(ms.take(k)),
    decreases ms.len() - k,
{
    if k == ms.len() {
        assert(ms.take(k) =~= ms);
    } else {
        assert(ms.take(k + 1).drop_last() =~= ms.take(k));
        lemma_refusal_persists(ms, k + 1);
    }
}

/// Read an annotated impl block: the server type's name, the block's doc
/// comment, and its tool and group methods, in order; the first refusal is
/// reported.
pub fn parse_impl_block(self_type: &SelfTypeShape, doc_lines: &Vec<String>, methods: &Vec<ImplMethod>) -> (r: Result<ServerInfo, String>)
    ensures
        match impl_block_refusal(*self_type, methods@) {
            Some(e) => r matches Err(x) && x@ == e,
            None => r matches Ok(info) && (self_type matches SelfTypeShape::Path(Some(n))
                && info.struct_name@ == n@) && info.description@ == join(
                crate::macro_model::doc_lines(views(doc_lines@)),
                "\n"@,
            ) && info.tools@.len() == tool_positions(methods@).len() && (forall|k: int|
                0 <= k < info.tools@.len() ==> is_tool_of(
                    #[trigger] info.tools@[k],
                    methods@[tool_positions(methods@)[k]],
                )) && info.groups@.len() == group_positions(methods@).len() && (forall|k: int|
                0 <= k < info.groups@.len() ==> is_group_of(
                    #[trigger] info.groups@[k],
                    methods@[group_positions(methods@)[k]],
                )),
        },
{
    let struct_name = match self_type {
        SelfTypeShape::Path(Some(n)) => n.clone(),
        SelfTypeShape::Path(None) => {
            return Err(owned("Invalid type name"));
        },
        SelfTypeShape::Other => {
            return Err(owned("Expected a struct or type name"));
        },
    };
    let description = crate::macro_model::extract_doc_comment(doc_lines);
    let mut tools: Vec<ToolMethod> = Vec::new();
    let mut groups: Vec<GroupMethod> = Vec::new();
    let mut i: usize = 0;
    while i < methods.len()
        invariant
            i <= methods.len(),
            self_type matches SelfTypeShape::Path(Some(_)),
            methods_refusal(methods@.take(i as int)) is None,
            tools@.len() == tool_positions(methods@.take(i as int)).len(),
            forall|k: int|
                0 <= k < tools@.len() ==> is_tool_of(
                    #[trigger] tools@[k],
                    methods@[tool_positions(methods@.take(i as int))[k]],
                ),
            forall|k: int|
                0 <= k < tools@.len() ==> 0 <= #[trigger] tool_positions(methods@.take(i as int))[k] < i,
            groups@.len() == group_positions(methods@.take(i as int)).len(),
            forall|k: int|
                0 <= k < groups@.len() ==> is_group_of(
                    #[trigger] groups@[k],
                    methods@[group_positions(methods@.take(i as int))[k]],
                ),
            forall|k: int|
                0 <= k < groups@.len() ==> 0 <= #[trigger] group_positions(methods@.take(i as int))[k] < i,
        decreases methods.len() - i,
    {
        let m = &methods[i];
        let ghost before = methods@.take(i as int);
        let ghost upto = methods@.take(i + 1);
        proof {
            assert(upto.drop_last() =~= before);
            assert(upto.last() == methods@[i as int]);
        }
        let tool = match parse_tool_method(
            m.name.as_str(),
            &m.doc_lines,
            &m.tool_attributes,
            m.is_async,
            &m.params,
            match &m.return_last_segment {
                Some(s) => Some(s.as_str()),
                None => None,
            },
            m.return_type_argument.as_ref(),
        ) {
            Ok(t) => t,
            Err(e) => {
                proof {
                    lemma_refusal_persists(methods@, i + 1);
                }
                return Err(e);
            },
        };
        let group = match parse_group_method(
            m.name.as_str(),
            &m.group_attributes,
            m.is_async,
            &m.params,
            m.has_return_type,
        ) {
            Ok(g) => g,
            Err(e) => {
                proof {
                    lemma_refusal_persists(methods@, i + 1);
                }
                return Err(e);
            },
        };
        let ghost tool_before = tool;
        let ghost group_before = group;
        match method_role(tool, group) {
            Ok(MethodRole::Tool(t)) => {
                let ghost tools_before = tools@;
                tools.push(t);
                proof {
                    assert forall|k: int| 0 <= k < tools@.len() implies is_tool_of(
                        #[trigger] tools@[k],
                        methods@[tool_positions(upto)[k]],
                    ) by {
                        if k < tools_before.len() {
                            assert(tools@[k] == tools_before[k]);
                        }
                    }
                }
            },
            Ok(MethodRole::Group(g)) => {
                let ghost groups_before = groups@;
                groups.push(g);
                proof {
                    assert forall|k: int| 0 <= k < groups@.len() implies is_group_of(
                        #[trigger] groups@[k],
                        methods@[group_positions(upto)[k]],
                    ) by {
                        if k < groups_before.len() {
                            assert(groups@[k] == groups_before[k]);
                        }
                    }
                }
            },
            Ok(MethodRole::Plain) => {},
            Err(e) => {
                proof {
                    lemma_refusal_persists(methods@, i + 1);
                }
                return Err(owned(e));
            },
        }
        i = i + 1;
    }
    proof {
        assert(methods@.take(methods.len() as int) =~= methods@);
    }
    Ok(ServerInfo { struct_name, description, tools, groups })
}

/// What the code generated for a tool method sets on the tool it builds,
/// besides its name and input schema.
#[derive(Debug, Clone)]
pub struct ToolDescriptor {
    /// The tool's description: the method's doc comment, when there is one.
    pub description: Option<String>,
    /// The annotation title.
    pub title: Option<String>,
    /// The read-only hint.
    pub read_only: Option<bool>,
    /// The destructive hint.
    pub destructive: Option<bool>,
    /// The idempotent hint.
    pub idempotent: Option<bool>,
    /// The open-world hint.
    pub open_world: Option<bool>,
    /// The task support.
    pub task_support: Option<ToolTaskSupport>,
    /// The text of the type whose JSON schema becomes the output schema.
    pub output_schema: Option<String>,
    /// Icon URLs; none are set when this is empty.
    pub icons: Vec<String>,
}

/// The type whose schema is a tool's output schema: the `output_schema`
/// attribute's type, else the `T` of a `ToolResult<T>` return type, unless
/// that type is `CallToolResult` (a path ending in it).
pub open spec fn output_schema_choice(
    attribute: Option<(Seq<char>, Option<Seq<char>>)>,
    output_type: Option<(Seq<char>, Option<Seq<char>>)>,
) -> Option<Seq<char>> {
    let chosen = match attribute {
        Some(t) => Some(t),
        None => output_type,
    };
    match chosen {
        Some((text, last)) => if last == Some("CallToolResult"@) {
            None
        } else {
            Some(text)
        },
        None => None,
    }
}

/// Describe the tool that the code generated for a tool method builds: the
/// doc comment as description when it is not empty, the title, hints, task
/// support and icons of its attributes, and its output schema type.
pub fn tool_descriptor(tool: &ToolMethod) -> (d: ToolDescriptor)
    ensures
        tool.docs@.len() == 0 ==> d.description is None,
        tool.docs@.len() > 0 ==> (d.description matches Some(x) && x@ == tool.docs@),
        opt_view(d.title) == tool.attrs@.title,
        d.read_only == tool.attrs.read_only,
        d.destructive == tool.attrs.destructive,
        d.idempotent == tool.attrs.idempotent,
        d.open_world == tool.attrs.open_world,
        d.task_support == tool.attrs.task_support,
        opt_view(d.output_schema) == output_schema_choice(
            tool.attrs@.output_schema,
            type_name_view(tool.output_type),
        ),
        views(d.icons@) == tool.attrs@.icons,
{
    let docs_len = crate::text::chars_of(tool.docs.as_str()).len();
    let description = if docs_len == 0 {
        None
    } else {
        Some(tool.docs.clone())
    };
    let title = match &tool.attrs.title {
        Some(t) => Some(t.clone()),
        None => None,
    };
    let chosen = match &tool.attrs.output_schema {
        Some(t) => Some(t),
        None => match &tool.output_type {
            Some(t) => Some(t),
            None => None,
        },
    };
    let output_schema = match chosen {
        Some(t) => {
            let is_call_tool_result = match &t.path_last {
                Some(l) => str_eq(l.as_str(), "CallToolResult"),
                None => false,
            };
            if is_call_tool_result {
                None
            } else {
                Some(t.text.clone())
            }
        },
        None => None,
    };
    let mut icons: Vec<String> = Vec::new();
    let mut i: usize = 0;
    while i < tool.attrs.icons.len()
        invariant
            i <= tool.attrs.icons.len(),
            views(icons@) == views(tool.attrs.icons@.take(i as int)),
        decreases tool.attrs.icons.len() - i,
    {
        let ghost before = icons@;
        icons.push(tool.attrs.icons[i].clone());
        proof {
            assert(views(icons@) =~= views(before).push(tool.attrs.icons@[i as int]@));
            assert(views(tool.attrs.icons@.take(i + 1)) =~= views(tool.attrs.icons@.take(i as int)).push(
                tool.attrs.icons@[i as int]@,
            ));
        }
        i = i + 1;
    }
    assert(tool.attrs.icons@.take(tool.attrs.icons.len() as int) =~= tool.attrs.icons@);
    ToolDescriptor {
        description,
        title,
        read_only: tool.attrs.read_only,
        destructive: tool.attrs.destructive,
        idempotent: tool.attrs.idempotent,
        open_world: tool.attrs.open_world,
        task_support: tool.attrs.task_support,
        output_schema,
        icons,
    }
}

// ---------------------------------------------------------------------------
// What the code generated for a tool call does
// ---------------------------------------------------------------------------

/// A name with every leading `r#` removed (`str::trim_start_matches("r#")`).
pub open spec fn strip_raw_prefix(s: Seq<char>) -> Seq<char>
    decreases s.len(),
{
    if s.len() >= 2 && s[0] == 'r' && s[1] == '#' {
        strip_raw_prefix(s.skip(2))
    } else {
        s
    }
}

/// The characters of a name with every leading `r#` removed.
fn strip_raw(s: &str) -> (r: Vec<char>)
    ensures
        r@ == strip_raw_prefix(s@),
{
    let v = crate::text::chars_of(s);
    let mut i: usize = 0;
    assert(v@.skip(0) =~= v@);
    while i < v.len() && v.len() - i > 1 && v[i] == 'r' && v[i + 1] == '#'
        invariant
            i <= v.len(),
            v@ == s@,
            strip_raw_prefix(v@.skip(i as int)) == strip_raw_prefix(s@),
        decreases v.len() - i,
    {
        assert(v@.skip(i as int).skip(2) =~= v@.skip(i + 2));
        i = i + 2;
    }
    let mut r: Vec<char> = Vec::new();
    let mut j: usize = i;
    while j < v.len()
        invariant
            i <= j <= v.len(),
            r@ == v@.subrange(i as int, j as int),
        decreases v.len() - j,
    {
        r.push(v[j]);
        assert(v@.subrange(i as int, j + 1) =~= v@.subrange(i as int, j as int).push(v@[j as int]));
        j = j + 1;
    }
    assert(r@ =~= v@.skip(i as int));
    r
}

/// The name of the struct generated for a tool's flat arguments.
pub open spec fn flat_args_struct_text(owner: Seq<char>, tool: Seq<char>) -> Seq<char> {
    "__TmcpToolArgs_"@ + strip_raw_prefix(owner) + "_"@ + strip_raw_prefix(tool)
}

/// The name of the struct generated for the flat arguments of tool `tool`
/// of the server or group `owner`, raw-identifier prefixes dropped.
pub fn flat_args_struct_name(owner: &str, tool: &str) -> (r: String)
    ensures
        r@ == flat_args_struct_text(owner@, tool@),
{
    let mut r = owned("__TmcpToolArgs_");
    let a = crate::text::string_of(&strip_raw(owner));
    push_all(&mut r, a.as_str());
    push_all(&mut r, "_");
    let b = crate::text::string_of(&strip_raw(tool));
    push_all(&mut r, b.as_str());
    r
}

/// How the code generated for a tool call binds the call's arguments.
#[derive(Debug, Clone, PartialEq, Eq)]
pub enum ArgumentBinding {
    /// The arguments are ignored; the method takes no argument parameter.
    Ignored,
    /// The arguments are ignored and `()` is passed.
    UnitValue,
    /// The arguments are deserialized whole into the parameter's type.
    Whole,
    /// The arguments are deserialized into the generated struct of this
    /// name, whose fields are passed as the parameters at these positions.
    Fields(String, Vec<usize>),
}

/// Whether `b` is how a tool with this parameter layout binds its
/// arguments.
pub open spec fn binding_is(b: ArgumentBinding, layout: ParamsLayout, owner: Seq<char>, name: Seq<char>) -> bool {
    match layout {
        ParamsLayout::NoParams => b is Ignored,
        ParamsLayout::Unit => b is UnitValue,
        ParamsLayout::Typed(_) => b is Whole,
        ParamsLayout::Flat(ps) => b matches ArgumentBinding::Fields(st, qs) && st@ == flat_args_struct_text(
            owner,
            name,
        ) && qs@ == ps@,
    }
}

/// What the code generated for calling a tool method does.
#[derive(Debug, Clone)]
pub struct ToolCallPlan {
    /// The method called.
    pub method: String,
    /// Whether the server context is passed first.
    pub pass_context: bool,
    /// How the arguments are bound.
    pub binding: ArgumentBinding,
    /// Whether defaults are applied when the arguments are deserialized.
    pub apply_defaults: bool,
    /// Whether the method's `ToolResult` is turned into a call result (its
    /// value or its error), rather than returned as it is.
    pub convert_result: bool,
}

/// Plan the call of tool method `tool` of the server or group `owner`: the
/// context is passed when the method takes one, the arguments are bound by
/// the parameter layout, defaults follow the attributes, and a `ToolResult`
/// is converted into the call result.
pub fn tool_call_plan(tool: &ToolMethod, owner: &str) -> (r: ToolCallPlan)
    ensures
        r.method@ == tool.name@,
        r.pass_context == tool.has_ctx,
        binding_is(r.binding, tool.params, owner@, tool.name@),
        r.apply_defaults == tool.attrs.defaults,
        r.convert_result == (tool.return_kind == ToolReturnKind::ToolResult),
{
    let binding = match &tool.params {
        ParamsLayout::NoParams => ArgumentBinding::Ignored,
        ParamsLayout::Unit => ArgumentBinding::UnitValue,
        ParamsLayout::Typed(_) => ArgumentBinding::Whole,
        ParamsLayout::Flat(ps) => {
            let mut qs: Vec<usize> = Vec::new();
            let mut i: usize = 0;
            while i < ps.len()
                invariant
                    i <= ps.len(),
                    qs@ == ps@.take(i as int),
                decreases ps.len() - i,
            {
                qs.push(ps[i]);
                assert(ps@.take(i + 1) =~= ps@.take(i as int).push(ps@[i as int]));
                i = i + 1;
            }
            assert(ps@.take(ps.len() as int) =~= ps@);
            ArgumentBinding::Fields(flat_args_struct_name(owner, tool.name.as_str()), qs)
        },
    };
    let convert_result = match tool.return_kind {
        ToolReturnKind::Result => false,
        ToolReturnKind::ToolResult => true,
    };
    ToolCallPlan {
        method: tool.name.clone(),
        pass_context: tool.has_ctx,
        binding,
        apply_defaults: tool.attrs.defaults,
        convert_result,
    }
}

/// When a tool registered by a group is listed.
#[derive(Debug, Clone, Copy, PartialEq, Eq)]
pub enum ToolVisibility {
    /// Always, whether or not its group is active.
    Always,
    /// Only while its group is active.
    Group,
}

/// When a group's tool is listed: always for a tool marked `always` and for
/// the `activate` and `deactivate` tools, otherwise only while the group is
/// active.
pub fn tool_visibility(tool: &ToolMethod) -> (v: ToolVisibility)
    ensures
        (v == ToolVisibility::Always) == (tool.attrs.always || tool.name@ == "activate"@ || tool.name@
            == "deactivate"@),
{
    if tool.attrs.always || str_eq(tool.name.as_str(), "activate") || str_eq(tool.name.as_str(), "deactivate") {
        ToolVisibility::Always
    } else {
        ToolVisibility::Group
    }
}

// ---------------------------------------------------------------------------
// `#[group(...)]` on a group type
// ---------------------------------------------------------------------------

/// The identifier a text parses as, when it is one Rust identifier that is
/// not a keyword.
pub uninterp spec fn parsed_ident(s: Seq<char>) -> Option<Seq<char>>;

/// Parses text as one identifier (`syn::parse_str::<syn::Ident>`): the named
/// identifier's text, or `None` when the text is not one.
#[verifier::external_body]
fn parse_ident_str(s: &str) -> (r: Option<String>)
    ensures
        opt_view(r) == parsed_ident(s@),
{
    syn::parse_str::<syn::Ident>(s).ok().map(|i| i.to_string())
}

/// The identifier an argument names: a string literal that parses as one, or
/// a path of one identifier.
pub open spec fn ident_of_expr(e: AttrExpr) -> Result<Seq<char>, Seq<char>> {
    match e {
        AttrExpr::Str(s) => match parsed_ident(s@) {
            Some(i) => Ok(i),
            None => Err("expected a valid identifier string literal"@),
        },
        AttrExpr::Path(text, last) => if last@.len() > 0 && text@ == last@ {
            Ok(last@)
        } else {
            Err("expected an identifier"@)
        },
        _ => Err("expected a string literal or identifier"@),
    }
}

/// Read the identifier an argument names.
pub fn parse_ident_from_expr(e: &AttrExpr) -> (r: Result<String, String>)
    ensures
        match (r, ident_of_expr(*e)) {
            (Ok(a), Ok(b)) => a@ == b,
            (Err(a), Err(b)) => a@ == b,
            _ => false,
        },
{
    match e {
        AttrExpr::Str(s) => match parse_ident_str(s.as_str()) {
            Some(i) => Ok(i),
            None => Err(owned("expected a valid identifier string literal")),
        },
        AttrExpr::Path(text, last) => {
            if crate::text::chars_of(last.as_str()).len() > 0 && str_eq(text.as_str(), last.as_str()) {
                Ok(last.clone())
            } else {
                Err(owned("expected an identifier"))
            }
        },
        _ => Err(owned("expected a string literal or identifier")),
    }
}

/// The settings of `#[group(...)]` on a group type, as text.
pub struct GroupMetaView {
    /// The group's name.
    pub name: Option<Seq<char>>,
    /// The group's description.
    pub description: Option<Seq<char>>,
    /// Whether the deactivation tool is listed.
    pub show_deactivator: Option<bool>,
    /// The activation hook.
    pub on_activate: Option<Seq<char>>,
    /// The deactivation hook.
    pub on_deactivate: Option<Seq<char>>,
}

/// The settings as text.
pub open spec fn group_meta_view(m: GroupMeta) -> GroupMetaView {
    GroupMetaView {
        name: opt_view(m.name),
        description: opt_view(m.description),
        show_deactivator: m.show_deactivator,
        on_activate: opt_view(m.on_activate),
        on_deactivate: opt_view(m.on_deactivate),
    }
}

/// What one item of `#[group(...)]` on a type does to the settings so far.
pub open spec fn type_group_item_effect(g: GroupMetaView, m: ToolMeta) -> Result<GroupMetaView, Seq<char>> {
    match m {
        ToolMeta::Flag(_) => Err("unsupported #[group] flag"@),
        ToolMeta::List(_, _) => Err("unsupported #[group] list argument"@),
        ToolMeta::Assign(None, _) => Err("invalid #[group] argument"@),
        ToolMeta::Assign(Some(id), e) => if id@ == "name"@ {
            match string_lit(e) {
                Ok(v) => Ok(GroupMetaView { name: Some(v), ..g }),
                Err(x) => Err(x),
            }
        } else if id@ == "description"@ {
            match string_lit(e) {
                Ok(v) => Ok(GroupMetaView { description: Some(v), ..g }),
                Err(x) => Err(x),
            }
        } else if id@ == "show_deactivator"@ {
            match bool_lit(e) {
                Ok(b) => Ok(GroupMetaView { show_deactivator: Some(b), ..g }),
                Err(x) => Err(x),
            }
        } else if id@ == "on_activate"@ {
            match ident_of_expr(e) {
                Ok(i) => Ok(GroupMetaView { on_activate: Some(i), ..g }),
                Err(x) => Err(x),
            }
        } else if id@ == "on_deactivate"@ {
            match ident_of_expr(e) {
                Ok(i) => Ok(GroupMetaView { on_deactivate: Some(i), ..g }),
                Err(x) => Err(x),
            }
        } else {
            Err("Unknown #[group] argument: "@ + id@)
        },
    }
}

/// What a sequence of items does, stopping at the first error.
pub open spec fn type_group_items_effect(g: GroupMetaView, ms: Seq<ToolMeta>) -> Result<GroupMetaView, Seq<char>>
    decreases ms.len(),
{
    if ms.len() == 0 {
        Ok(g)
    } else {
        match type_group_items_effect(g, ms.drop_last()) {
            Err(x) => Err(x),
            Ok(h) => type_group_item_effect(h, ms.last()),
        }
    }
}

/// What a type's attributes (those other than `#[group]` and
/// `#[tmcp_group_meta]` being `Unrelated`) set, stopping at the first error.
pub open spec fn type_group_attrs_effect(g: GroupMetaView, attrs: Seq<ToolAttribute>) -> Result<GroupMetaView, Seq<char>>
    decreases attrs.len(),
{
    if attrs.len() == 0 {
        Ok(g)
    } else {
        match type_group_attrs_effect(g, attrs.drop_last()) {
            Err(x) => Err(x),
            Ok(h) => match attrs.last() {
                ToolAttribute::Unrelated => Ok(h),
                ToolAttribute::Bare => Ok(h),
                ToolAttribute::NameValue => Err("#[group] does not support name-value syntax"@),
                ToolAttribute::List(Err(x)) => Err(x@),
                ToolAttribute::List(Ok(ms)) => type_group_items_effect(h, ms@),
            },
        }
    }
}

/// No setting made.
pub open spec fn no_group_meta() -> GroupMetaView {
    GroupMetaView { name: None, description: None, show_deactivator: None, on_activate: None, on_deactivate: None }
}

proof fn lemma_type_group_items_error_persists(g: GroupMetaView, ms: Seq<ToolMeta>, k: int)
    requires
        0 < k <= ms.len(),
        type_group_items_effect(g, ms.take(k)) is Err,
    ensures
        type_group_items_effect(g, ms) == type_group_items_effect(g, ms.take(k)),
    decreases ms.len() - k,
{
    if k == ms.len() {
        assert(ms.take(k) == ms);
    } else {
        assert(ms.take(k + 1).drop_last() == ms.take(k));
        lemma_type_group_items_error_persists(g, ms, k + 1);
    }
}

proof fn lemma_type_group_attrs_error_persists(g: GroupMetaView, attrs: Seq<ToolAttribute>, k: int)
    requires
        0 < k <= attrs.len(),
        type_group_attrs_effect(g, attrs.take(k)) is Err,
    ensures
        type_group_attrs_effect(g, attrs) == type_group_attrs_effect(g, attrs.take(k)),
    decreases attrs.len() - k,
{
    if k == attrs.len() {
        assert(attrs.take(k) == attrs);
    } else {
        assert(attrs.take(k + 1).drop_last() == attrs.take(k));
        lemma_type_group_attrs_error_persists(g, attrs, k + 1);
    }
}

fn apply_type_group_item(meta: &mut GroupMeta, m: &ToolMeta) -> (r: Result<(), String>)
    ensures
        match type_group_item_effect(group_meta_view(*old(meta)), *m) {
            Ok(g) => r is Ok && group_meta_view(*final(meta)) == g,
            Err(x) => r matches Err(y) && y@ == x,
        },
{
    match m {
        ToolMeta::Flag(_) => Err(owned("unsupported #[group] flag")),
        ToolMeta::List(_, _) => Err(owned("unsupported #[group] list argument")),
        ToolMeta::Assign(None, _) => Err(owned("invalid #[group] argument")),
        ToolMeta::Assign(Some(id), e) => {
            if str_eq(id.as_str(), "name") {
                let v = parse_string_lit(e)?;
                meta.name = Some(v);
                Ok(())
            } else if str_eq(id.as_str(), "description") {
                let v = parse_string_lit(e)?;
                meta.description = Some(v);
                Ok(())
            } else if str_eq(id.as_str(), "show_deactivator") {
                let b = parse_bool_lit(e)?;
                meta.show_deactivator = Some(b);
                Ok(())
            } else if str_eq(id.as_str(), "on_activate") {
                let i = parse_ident_from_expr(e)?;
                meta.on_activate = Some(i);
                Ok(())
            } else if str_eq(id.as_str(), "on_deactivate") {
                let i = parse_ident_from_expr(e)?;
                meta.on_deactivate = Some(i);
                Ok(())
            } else {
                let mut x = owned("Unknown #[group] argument: ");
                push_all(&mut x, id.as_str());
                Err(x)
            }
        },
    }
}

fn apply_type_group_items(meta: &mut GroupMeta, ms: &Vec<ToolMeta>) -> (r: Result<(), String>)
    ensures
        match type_group_items_effect(group_meta_view(*old(meta)), ms@) {
            Ok(g) => r is Ok && group_meta_view(*final(meta)) == g,
            Err(x) => r matches Err(y) && y@ == x,
        },
{
    let ghost start = group_meta_view(*meta);
    let mut j: usize = 0;
    while j < ms.len()
        invariant
            j <= ms.len(),
            start == group_meta_view(*old(meta)),
            type_group_items_effect(start, ms@.take(j as int)) == Ok::<GroupMetaView, Seq<char>>(
                group_meta_view(*meta),
            ),
        decreases ms.len() - j,
    {
        assert(ms@.take(j + 1).drop_last() == ms@.take(j as int));
        if let Err(x) = apply_type_group_item(meta, &ms[j]) {
            proof {
                lemma_type_group_items_error_persists(start, ms@, j + 1);
            }
            return Err(x);
        }
        j = j + 1;
    }
    assert(ms@.take(ms.len() as int) == ms@);
    Ok(())
}

/// Read the settings of `#[group(...)]` on a group type from its attributes
/// (any attribute other than `#[group]` or `#[tmcp_group_meta]` being
/// `Unrelated`): each item sets one setting, a later one replacing an
/// earlier; the first refused item or attribute is the error.
pub fn parse_group_meta(attributes: &Vec<ToolAttribute>) -> (r: Result<GroupMeta, String>)
    ensures
        match type_group_attrs_effect(no_group_meta(), attributes@) {
            Ok(g) => r matches Ok(m) && group_meta_view(m) == g,
            Err(x) => r matches Err(y) && y@ == x,
        },
{
    let mut meta = GroupMeta {
        name: None,
        description: None,
        show_deactivator: None,
        on_activate: None,
        on_deactivate: None,
    };
    let mut i: usize = 0;
    while i < attributes.len()
        invariant
            i <= attributes.len(),
            type_group_attrs_effect(no_group_meta(), attributes@.take(i as int)) == Ok::<
                GroupMetaView,
                Seq<char>,
            >(group_meta_view(meta)),
        decreases attributes.len() - i,
    {
        assert(attributes@.take(i + 1).drop_last() == attributes@.take(i as int));
        let step: Result<(), String> = match &attributes[i] {
            ToolAttribute::Unrelated => Ok(()),
            ToolAttribute::Bare => Ok(()),
            ToolAttribute::NameValue => Err(owned("#[group] does not support name-value syntax")),
            ToolAttribute::List(Err(x)) => Err(x.clone()),
            ToolAttribute::List(Ok(ms)) => apply_type_group_items(&mut meta, ms),
        };
        if let Err(x) = step {
            proof {
                lemma_type_group_attrs_error_persists(no_group_meta(), attributes@, i + 1);
            }
            return Err(x);
        }
        i = i + 1;
    }
    assert(attributes@.take(attributes.len() as int) == attributes@);
    Ok(meta)
}

/// Whether a tool name is addressed to the group with this segment name:
/// it starts with the segment followed by `.`.
pub open spec fn addressed_to(name: Seq<char>, segment: Seq<char>) -> bool {
    crate::text::has_prefix(name, segment + seq!['.'])
}

/// Route a tool call that no tool of the server answers to its groups,
/// tried in order: the first group whose segment name, followed by `.`,
/// starts the tool name gets the call, under the rest of the name; `None`
/// when no group is addressed.
pub fn group_dispatch_target(name: &str, segments: &Vec<String>) -> (r: Option<(usize, String)>)
    ensures
        match r {
            Some((i, rest)) => {
                &&& i < segments.len()
                &&& addressed_to(name@, segments@[i as int]@)
                &&& name@ == segments@[i as int]@ + seq!['.'] + rest@
                &&& forall|j: int| 0 <= j < i ==> !addressed_to(name@, #[trigger] segments@[j]@)
            },
            None => forall|j: int| 0 <= j < segments.len() ==> !addressed_to(name@, #[trigger] segments@[j]@),
        },
{
    let v = crate::text::chars_of(name);
    let mut k: usize = 0;
    while k < segments.len()
        invariant
            k <= segments.len(),
            v@ == name@,
            forall|j: int| 0 <= j < k ==> !addressed_to(name@, #[trigger] segments@[j]@),
        decreases segments.len() - k,
    {
        let mut prefix = segments[k].clone();
        crate::text::push_char(&mut prefix, '.');
        assert(prefix@ == segments@[k as int]@ + seq!['.']);
        if crate::text::starts_with(&v, prefix.as_str()) {
            let plen = crate::text::chars_of(prefix.as_str()).len();
            let mut rest: Vec<char> = Vec::new();
            let mut j: usize = plen;
            while j < v.len()
                invariant
                    plen <= j <= v.len(),
                    rest@ == v@.subrange(plen as int, j as int),
                decreases v.len() - j,
            {
                rest.push(v[j]);
                assert(v@.subrange(plen as int, j + 1) =~= v@.subrange(plen as int, j as int).push(v@[j as int]));
                j = j + 1;
            }
            assert(v@ =~= v@.take(plen as int) + v@.subrange(plen as int, v.len() as int));
            return Some((k, crate::text::string_of(&rest)));
        }
        k = k + 1;
    }
    None
}

} // verus!
