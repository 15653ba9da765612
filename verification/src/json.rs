//! JSON values: those carried through the protocol types unread, and the
//! documents (tool schemas) that the library reads and edits.

use vstd::prelude::*;

use crate::text::{owned, str_eq, views};

verus! {

/// Arbitrary JSON, as parsed and produced by `serde_json`. The library
/// carries such values through unchanged and never reads them.
#[verifier::external_type_specification]
#[verifier::external_body]
pub struct ExValue(serde_json::Value);

/// Copies a JSON value (`<serde_json::Value as Clone>::clone`). The library
/// never inspects JSON values, so nothing is stated of the copy.
pub assume_specification[ <serde_json::Value as core::clone::Clone>::clone ](v: &serde_json::Value) -> serde_json::Value;

/// A JSON number, kept as `serde_json` holds it; the library never reads one.
#[verifier::external_type_specification]
#[verifier::external_body]
pub struct ExNumber(serde_json::Number);

/// Copies a JSON number (`<serde_json::Number as Clone>::clone`, derived over
/// a field of `Copy` type): the copy equals the original.
pub assume_specification[ <serde_json::Number as core::clone::Clone>::clone ](n: &serde_json::Number) -> (r: serde_json::Number)
    ensures
        r == *n,
;

/// A JSON number, in the three kinds `serde_json` keeps apart.
#[derive(Debug, PartialEq)]
pub enum JsonNumber {
    /// A non-negative integer.
    PosInt(u64),
    /// A negative integer.
    NegInt(i64),
    /// Any other number, kept as `serde_json` holds it.
    Float(serde_json::Number),
}

/// The number as an `i64`, when it is an integer that fits
/// (`serde_json::Number::as_i64`).
pub open spec fn number_as_i64(n: JsonNumber) -> Option<i64> {
    match n {
        JsonNumber::PosInt(u) => if u <= i64::MAX {
            Some(u as i64)
        } else {
            None
        },
        JsonNumber::NegInt(i) => Some(i),
        JsonNumber::Float(_) => None,
    }
}

impl JsonNumber {
    /// The number as an `i64`, when it is an integer that fits.
    pub fn as_i64(&self) -> (r: Option<i64>)
        ensures
            r == number_as_i64(*self),
    {
        match self {
            JsonNumber::PosInt(u) => if *u <= 0x7fff_ffff_ffff_ffff {
                Some(*u as i64)
            } else {
                None
            },
            JsonNumber::NegInt(i) => Some(*i),
            JsonNumber::Float(_) => None,
        }
    }
}

impl Clone for JsonNumber {
    fn clone(&self) -> (r: JsonNumber)
        ensures
            r == *self,
    {
        match self {
            JsonNumber::PosInt(u) => JsonNumber::PosInt(*u),
            JsonNumber::NegInt(i) => JsonNumber::NegInt(*i),
            JsonNumber::Float(n) => JsonNumber::Float(n.clone()),
        }
    }
}

/// A JSON document whose structure the library reads and edits.
#[derive(Debug, PartialEq)]
pub enum JsonValue {
    /// `null`.
    Null,
    /// `true` or `false`.
    Bool(bool),
    /// A number.
    Number(JsonNumber),
    /// A string.
    String(String),
    /// An array.
    Array(Vec<JsonValue>),
    /// An object.
    Object(JsonObject),
}

/// A JSON object: named fields, in the order in which each name was first
/// inserted. Inserting under a name that is present replaces its value in
/// place, so the names stay distinct.
#[derive(Debug, PartialEq)]
pub struct JsonObject {
    entries: Vec<(String, JsonValue)>,
}

/// The fields of an object as the specifications see them: each name by its
/// characters, with its value.
pub open spec fn field_views(entries: Seq<(String, JsonValue)>) -> Seq<(Seq<char>, JsonValue)> {
    entries.map_values(|e: (String, JsonValue)| (e.0@, e.1))
}

impl View for JsonObject {
    type V = Seq<(Seq<char>, JsonValue)>;

    closed spec fn view(&self) -> Seq<(Seq<char>, JsonValue)> {
        field_views(self.entries@)
    }
}

/// Whether position `i` holds the first field named `k`.
pub open spec fn is_field_at(fields: Seq<(Seq<char>, JsonValue)>, k: Seq<char>, i: int) -> bool {
    &&& 0 <= i < fields.len()
    &&& fields[i].0 == k
    &&& forall|j: int| 0 <= j < i ==> fields[j].0 != k
}

/// The position of the field named `k`, if there is one.
pub open spec fn field_position(fields: Seq<(Seq<char>, JsonValue)>, k: Seq<char>) -> Option<int> {
    if exists|i: int| is_field_at(fields, k, i) {
        Some(choose|i: int| is_field_at(fields, k, i))
    } else {
        None
    }
}

/// The value of the field named `k`, if there is one.
pub open spec fn field_value(fields: Seq<(Seq<char>, JsonValue)>, k: Seq<char>) -> Option<JsonValue> {
    match field_position(fields, k) {
        Some(i) => Some(fields[i].1),
        None => None,
    }
}

/// The fields after setting `k` to `v`: the value is replaced where the name
/// is present, otherwise the field is appended.
pub open spec fn with_field(
    fields: Seq<(Seq<char>, JsonValue)>,
    k: Seq<char>,
    v: JsonValue,
) -> Seq<(Seq<char>, JsonValue)> {
    match field_position(fields, k) {
        Some(i) => fields.update(i, (k, v)),
        None => fields.push((k, v)),
    }
}

/// The fields after removing the one named `k`, if any.
pub open spec fn without_field(fields: Seq<(Seq<char>, JsonValue)>, k: Seq<char>) -> Seq<(Seq<char>, JsonValue)> {
    match field_position(fields, k) {
        Some(i) => fields.remove(i),
        None => fields,
    }
}

/// Whether no two fields share a name.
pub open spec fn distinct_names(fields: Seq<(Seq<char>, JsonValue)>) -> bool {
    forall|i: int, j: int| 0 <= i < j < fields.len() ==> fields[i].0 != fields[j].0
}

/// The value of a field of a JSON value that is an object.
pub open spec fn json_field(v: JsonValue, k: Seq<char>) -> Option<JsonValue> {
    match v {
        JsonValue::Object(o) => field_value(o@, k),
        _ => None,
    }
}

/// The texts among a sequence of JSON values, in order.
pub open spec fn texts_of(items: Seq<JsonValue>) -> Seq<Seq<char>>
    decreases items.len(),
{
    if items.len() == 0 {
        Seq::empty()
    } else {
        let rest = texts_of(items.drop_last());
        match items.last() {
            JsonValue::String(s) => rest.push(s@),
            _ => rest,
        }
    }
}

/// The fields of the object that field `k` holds; no fields where `k` is
/// absent; `None` where `k` holds anything but an object.
pub open spec fn child_fields(
    fields: Seq<(Seq<char>, JsonValue)>,
    k: Seq<char>,
) -> Option<Seq<(Seq<char>, JsonValue)>> {
    match field_value(fields, k) {
        None => Some(Seq::empty()),
        Some(JsonValue::Object(o)) => Some(o@),
        Some(_) => None,
    }
}

/// The items of the array that field `k` holds; none where `k` is absent;
/// `None` where `k` holds anything but an array.
pub open spec fn child_items(fields: Seq<(Seq<char>, JsonValue)>, k: Seq<char>) -> Option<Seq<JsonValue>> {
    match field_value(fields, k) {
        None => Some(Seq::empty()),
        Some(JsonValue::Array(a)) => Some(a@),
        Some(_) => None,
    }
}

/// `after` is `before` with `key` set to `value` inside the object under
/// field `k`, that object being created where `k` is absent; where `k` holds
/// anything but an object, nothing changes.
pub open spec fn child_field_set(
    before: Seq<(Seq<char>, JsonValue)>,
    after: Seq<(Seq<char>, JsonValue)>,
    k: Seq<char>,
    key: Seq<char>,
    value: JsonValue,
) -> bool {
    match child_fields(before, k) {
        Some(base) => exists|c: JsonObject|
            #[trigger] with_field(before, k, JsonValue::Object(c)) == after && c@ == with_field(base, key, value),
        None => after == before,
    }
}

/// `items` is `base` followed by one JSON string for each of `texts`.
pub open spec fn texts_appended(base: Seq<JsonValue>, items: Seq<JsonValue>, texts: Seq<Seq<char>>) -> bool {
    &&& items.len() == base.len() + texts.len()
    &&& items.take(base.len() as int) == base
    &&& forall|i: int|
        0 <= i < texts.len() ==> (#[trigger] items[base.len() + i] matches JsonValue::String(s) && s@ == texts[i])
}

/// `after` is `before` with `texts` appended, as JSON strings, to the array
/// under field `k`, that array being created where `k` is absent; where `k`
/// holds anything but an array, nothing changes.
pub open spec fn child_texts_appended(
    before: Seq<(Seq<char>, JsonValue)>,
    after: Seq<(Seq<char>, JsonValue)>,
    k: Seq<char>,
    texts: Seq<Seq<char>>,
) -> bool {
    match child_items(before, k) {
        Some(base) => exists|a: Vec<JsonValue>|
            #[trigger] with_field(before, k, JsonValue::Array(a)) == after && texts_appended(base, a@, texts),
        None => after == before,
    }
}

proof fn lemma_field_at_unique(fields: Seq<(Seq<char>, JsonValue)>, k: Seq<char>, i: int)
    requires
        is_field_at(fields, k, i),
    ensures
        field_position(fields, k) == Some(i),
{
    let c = choose|c: int| is_field_at(fields, k, c);
    assert(is_field_at(fields, k, c));
    if c < i {
        assert(fields[c].0 != k);
    } else if i < c {
        assert(fields[i].0 != k);
    }
}

proof fn lemma_field_found(fields: Seq<(Seq<char>, JsonValue)>, k: Seq<char>, j: int)
    requires
        0 <= j < fields.len(),
        fields[j].0 == k,
    ensures
        field_position(fields, k) is Some,
    decreases j,
{
    if exists|m: int| 0 <= m < j && fields[m].0 == k {
        let m = choose|m: int| 0 <= m < j && fields[m].0 == k;
        lemma_field_found(fields, k, m);
    } else {
        assert(is_field_at(fields, k, j));
    }
}

proof fn lemma_field_absent(fields: Seq<(Seq<char>, JsonValue)>, k: Seq<char>)
    requires
        field_position(fields, k) is None,
    ensures
        forall|j: int| 0 <= j < fields.len() ==> fields[j].0 != k,
{
    assert forall|j: int| 0 <= j < fields.len() implies fields[j].0 != k by {
        if fields[j].0 == k {
            lemma_field_found(fields, k, j);
        }
    }
}

/// What one sets in an object is what one reads back under that name; every
/// other field reads as before, and distinct names stay distinct.
pub proof fn lemma_with_field_then_read(
    fields: Seq<(Seq<char>, JsonValue)>,
    k: Seq<char>,
    v: JsonValue,
    other: Seq<char>,
)
    ensures
        field_value(with_field(fields, k, v), k) == Some(v),
        other != k ==> field_value(with_field(fields, k, v), other) == field_value(fields, other),
        distinct_names(fields) ==> distinct_names(with_field(fields, k, v)),
{
    let after = with_field(fields, k, v);
    match field_position(fields, k) {
        Some(i) => {
            assert(is_field_at(fields, k, i));
            assert(is_field_at(after, k, i));
            lemma_field_at_unique(after, k, i);
            if other != k {
                match field_position(fields, other) {
                    Some(p) => {
                        assert(is_field_at(fields, other, p));
                        assert(is_field_at(after, other, p));
                        lemma_field_at_unique(after, other, p);
                    },
                    None => {
                        lemma_field_absent(fields, other);
                        assert forall|j: int| 0 <= j < after.len() implies after[j].0 != other by {
                            if j != i {
                                assert(after[j] == fields[j]);
                            }
                        }
                        if field_position(after, other) is Some {
                            let q = field_position(after, other)->0;
                            assert(is_field_at(after, other, q));
                        }
                    },
                }
            }
        },
        None => {
            lemma_field_absent(fields, k);
            assert(is_field_at(after, k, fields.len() as int));
            lemma_field_at_unique(after, k, fields.len() as int);
            if other != k {
                match field_position(fields, other) {
                    Some(p) => {
                        assert(is_field_at(fields, other, p));
                        assert(is_field_at(after, other, p));
                        lemma_field_at_unique(after, other, p);
                    },
                    None => {
                        lemma_field_absent(fields, other);
                        if field_position(after, other) is Some {
                            let q = field_position(after, other)->0;
                            assert(is_field_at(after, other, q));
                        }
                    },
                }
            }
        },
    }
}

/// Whether `a` is a copy of the document `b`: the same structure, with
/// strings and field names of the same characters and the same numbers.
pub closed spec fn json_copy(a: JsonValue, b: JsonValue) -> bool
    decreases b,
{
    match b {
        JsonValue::Null => a is Null,
        JsonValue::Bool(x) => a == JsonValue::Bool(x),
        JsonValue::Number(n) => a == JsonValue::Number(n),
        JsonValue::String(s) => a matches JsonValue::String(t) && t@ == s@,
        JsonValue::Array(items) => a matches JsonValue::Array(c) && items_copy(c@, items@),
        JsonValue::Object(o) => a matches JsonValue::Object(p) && fields_copy(p.entries@, o.entries@),
    }
}

/// Whether each item of `a` is a copy of the item of `b` at its position.
pub closed spec fn items_copy(a: Seq<JsonValue>, b: Seq<JsonValue>) -> bool
    decreases b,
{
    &&& a.len() == b.len()
    &&& b.len() > 0 ==> items_copy(a.drop_last(), b.drop_last()) && json_copy(a.last(), b.last())
}

/// Whether each field of `a` has the name of the field of `b` at its
/// position and a copy of its value.
pub closed spec fn fields_copy(a: Seq<(String, JsonValue)>, b: Seq<(String, JsonValue)>) -> bool
    decreases b,
{
    &&& a.len() == b.len()
    &&& b.len() > 0 ==> fields_copy(a.drop_last(), b.drop_last()) && a.last().0@ == b.last().0@
        && json_copy(a.last().1, b.last().1)
}

/// Whether the object `a` is a copy of the object `b`: the same field names
/// in the same order, each with a copy of its value.
pub closed spec fn object_copy(a: JsonObject, b: JsonObject) -> bool {
    fields_copy(a.entries@, b.entries@)
}

impl JsonValue {
    /// A copy of the document, built field by field.
    #[verifier::loop_isolation(false)]
    fn deep_copy(&self) -> (r: JsonValue)
        ensures
            json_copy(r, *self),
        decreases self,
    {
        match self {
            JsonValue::Null => JsonValue::Null,
            JsonValue::Bool(b) => JsonValue::Bool(*b),
            JsonValue::Number(n) => JsonValue::Number(n.clone()),
            JsonValue::String(s) => JsonValue::String(s.clone()),
            JsonValue::Array(items) => {
                let mut out: Vec<JsonValue> = Vec::new();
                let mut i: usize = 0;
                assert(items@.take(0) =~= Seq::<JsonValue>::empty());
                while i < items.len()
                    invariant
                        i <= items.len(),
                        items_copy(out@, items@.take(i as int)),
                    decreases items.len() - i,
                {
                    proof {
                        assert(decreases_to!(*self => *items));
                        assert(decreases_to!(*items => items@));
                        assert(decreases_to!(items@ => items@[i as int]));
                    }
                    let c = items[i].deep_copy();
                    let ghost before = out@;
                    out.push(c);
                    proof {
                        let t = items@.take(i + 1);
                        assert(t.drop_last() =~= items@.take(i as int));
                        assert(out@.drop_last() =~= before);
                        assert(t.last() == items@[i as int]);
                    }
                    i = i + 1;
                }
                assert(items@.take(items.len() as int) =~= items@);
                JsonValue::Array(out)
            },
            JsonValue::Object(o) => {
                proof {
                    assert(decreases_to!(*self => *o));
                }
                JsonValue::Object(o.deep_copy())
            },
        }
    }
}

impl JsonObject {
    /// An object without fields.
    pub fn new() -> (r: JsonObject)
        ensures
            r@ == Seq::<(Seq<char>, JsonValue)>::empty(),
    {
        let r = JsonObject { entries: Vec::new() };
        assert(r@ =~= Seq::<(Seq<char>, JsonValue)>::empty());
        r
    }

    /// The number of fields.
    pub fn len(&self) -> (r: usize)
        ensures
            r == self@.len(),
    {
        self.entries.len()
    }

    /// The fields, in order.
    pub fn entries(&self) -> (r: &Vec<(String, JsonValue)>)
        ensures
            field_views(r@) == self@,
    {
        &self.entries
    }

    fn position(&self, key: &str) -> (r: Option<usize>)
        ensures
            match r {
                Some(i) => field_position(self@, key@) == Some(i as int),
                None => field_position(self@, key@) is None,
            },
    {
        let mut i: usize = 0;
        while i < self.entries.len()
            invariant
                i <= self.entries.len(),
                forall|j: int| 0 <= j < i ==> self@[j].0 != key@,
            decreases self.entries.len() - i,
        {
            if str_eq(self.entries[i].0.as_str(), key) {
                proof {
                    assert(is_field_at(self@, key@, i as int));
                    lemma_field_at_unique(self@, key@, i as int);
                }
                return Some(i);
            }
            i = i + 1;
        }
        proof {
            if field_position(self@, key@) is Some {
                let p = field_position(self@, key@)->0;
                assert(is_field_at(self@, key@, p));
            }
        }
        None
    }

    /// The value of the field named `key`.
    pub fn get(&self, key: &str) -> (r: Option<&JsonValue>)
        ensures
            match r {
                Some(v) => field_value(self@, key@) == Some(*v),
                None => field_value(self@, key@) is None,
            },
    {
        match self.position(key) {
            Some(i) => Some(&self.entries[i].1),
            None => None,
        }
    }

    /// Whether a field is named `key`.
    pub fn contains_key(&self, key: &str) -> (r: bool)
        ensures
            r == field_value(self@, key@) is Some,
    {
        self.position(key).is_some()
    }

    /// Whether the object has no fields.
    pub fn is_empty(&self) -> (r: bool)
        ensures
            r == (self@.len() == 0),
    {
        self.entries.len() == 0
    }

    /// Removes the field named `key`, giving back its value.
    pub fn remove(&mut self, key: &str) -> (r: Option<JsonValue>)
        ensures
            final(self)@ == without_field(old(self)@, key@),
            r == field_value(old(self)@, key@),
    {
        match self.position(key) {
            Some(i) => {
                let ghost before = self.entries@;
                let (_, v) = self.entries.remove(i);
                proof {
                    assert(self@ =~= field_views(before).remove(i as int));
                }
                Some(v)
            },
            None => None,
        }
    }

    /// Sets the field named `key` to `value`, giving back the value it
    /// replaced.
    pub fn insert(&mut self, key: String, value: JsonValue) -> (r: Option<JsonValue>)
        ensures
            final(self)@ == with_field(old(self)@, key@, value),
            r == field_value(old(self)@, key@),
    {
        match self.position(key.as_str()) {
            Some(i) => {
                let ghost before = self.entries@;
                let (name, previous) = self.entries.remove(i);
                self.entries.insert(i, (name, value));
                proof {
                    assert(self.entries@ =~= before.update(i as int, (name, value)));
                    assert(self@ =~= field_views(before).update(i as int, (key@, value)));
                }
                Some(previous)
            },
            None => {
                let ghost before = self.entries@;
                let ghost kv = key@;
                self.entries.push((key, value));
                proof {
                    assert(self@ =~= field_views(before).push((kv, value)));
                }
                None
            },
        }
    }

    /// Sets `key` to `value` in the object that the field `field` holds,
    /// creating that object when the field is absent; a field that holds
    /// anything but an object is left alone.
    pub fn set_in_child(&mut self, field: &str, key: String, value: JsonValue)
        ensures
            child_field_set(old(self)@, final(self)@, field@, key@, value),
    {
        match self.position(field) {
            None => {
                let mut child = JsonObject::new();
                child.insert(key, value);
                let ghost c = child;
                self.insert(owned(field), JsonValue::Object(child));
                assert(with_field(old(self)@, field@, JsonValue::Object(c)) == self@);
            },
            Some(i) => {
                let ghost before = self.entries@;
                let (name, held) = self.entries.remove(i);
                let ghost held_before = held;
                let updated = match held {
                    JsonValue::Object(mut child) => {
                        child.insert(key, value);
                        JsonValue::Object(child)
                    },
                    other => other,
                };
                let ghost u = updated;
                self.entries.insert(i, (name, updated));
                proof {
                    assert(self.entries@ =~= before.update(i as int, (name, u)));
                    assert(self@ =~= field_views(before).update(i as int, (field@, u)));
                    if held_before is Object {
                        let c = u->Object_0;
                        assert(with_field(old(self)@, field@, JsonValue::Object(c)) == self@);
                    } else {
                        assert(before.update(i as int, (name, u)) =~= before);
                    }
                }
            },
        }
    }

    /// Appends each of `texts`, as a JSON string, to the array that the field
    /// `field` holds, creating that array when the field is absent; a field
    /// that holds anything but an array is left alone.
    pub fn append_texts_in_child(&mut self, field: &str, texts: &Vec<String>)
        ensures
            child_texts_appended(old(self)@, final(self)@, field@, views(texts@)),
    {
        match self.position(field) {
            None => {
                let mut items: Vec<JsonValue> = Vec::new();
                push_texts(&mut items, texts);
                let ghost a = items;
                self.insert(owned(field), JsonValue::Array(items));
                assert(with_field(old(self)@, field@, JsonValue::Array(a)) == self@);
            },
            Some(i) => {
                let ghost before = self.entries@;
                let (name, held) = self.entries.remove(i);
                let ghost held_before = held;
                let updated = match held {
                    JsonValue::Array(mut items) => {
                        push_texts(&mut items, texts);
                        JsonValue::Array(items)
                    },
                    other => other,
                };
                let ghost u = updated;
                self.entries.insert(i, (name, updated));
                proof {
                    assert(self.entries@ =~= before.update(i as int, (name, u)));
                    assert(self@ =~= field_views(before).update(i as int, (field@, u)));
                    if held_before is Array {
                        let a = u->Array_0;
                        assert(with_field(old(self)@, field@, JsonValue::Array(a)) == self@);
                    } else {
                        assert(before.update(i as int, (name, u)) =~= before);
                    }
                }
            },
        }
    }
}

fn push_texts(items: &mut Vec<JsonValue>, texts: &Vec<String>)
    ensures
        texts_appended(old(items)@, final(items)@, views(texts@)),
{
    let ghost base = items@;
    let mut i: usize = 0;
    while i < texts.len()
        invariant
            i <= texts.len(),
            items@.len() == base.len() + i,
            items@.take(base.len() as int) == base,
            forall|j: int|
                0 <= j < i ==> (#[trigger] items@[base.len() + j] matches JsonValue::String(s) && s@ == texts@[j]@),
        decreases texts.len() - i,
    {
        let ghost prev = items@;
        items.push(JsonValue::String(texts[i].clone()));
        proof {
            assert(items@.take(base.len() as int) =~= prev.take(base.len() as int));
            assert forall|j: int| 0 <= j < i + 1 implies (#[trigger] items@[base.len() + j] matches JsonValue::String(s) && s@ == texts@[j]@) by {
                if j < i {
                    assert(items@[base.len() + j] == prev[base.len() + j]);
                }
            }
        }
        i = i + 1;
    }
}

impl JsonObject {
    #[verifier::loop_isolation(false)]
    fn deep_copy(&self) -> (r: JsonObject)
        ensures
            object_copy(r, *self),
        decreases self,
    {
        let mut out: Vec<(String, JsonValue)> = Vec::new();
        let mut i: usize = 0;
        assert(self.entries@.take(0) =~= Seq::<(String, JsonValue)>::empty());
        while i < self.entries.len()
            invariant
                i <= self.entries.len(),
                fields_copy(out@, self.entries@.take(i as int)),
            decreases self.entries.len() - i,
        {
            proof {
                assert(decreases_to!(*self => self.entries));
                assert(decreases_to!(self.entries => self.entries@));
                assert(decreases_to!(self.entries@ => self.entries@[i as int]));
                assert(decreases_to!(self.entries@[i as int] => self.entries@[i as int].1));
            }
            let name = self.entries[i].0.clone();
            let c = self.entries[i].1.deep_copy();
            let ghost before = out@;
            out.push((name, c));
            proof {
                let t = self.entries@.take(i + 1);
                assert(t.drop_last() =~= self.entries@.take(i as int));
                assert(out@.drop_last() =~= before);
                assert(t.last() == self.entries@[i as int]);
            }
            i = i + 1;
        }
        assert(self.entries@.take(self.entries.len() as int) =~= self.entries@);
        JsonObject { entries: out }
    }
}

impl Default for JsonObject {
    /// An object without fields.
    fn default() -> (r: JsonObject)
        ensures
            r@ == Seq::<(Seq<char>, JsonValue)>::empty(),
    {
        JsonObject::new()
    }
}

impl Clone for JsonObject {
    fn clone(&self) -> (r: JsonObject)
        ensures
            object_copy(r, *self),
    {
        self.deep_copy()
    }
}

impl Clone for JsonValue {
    fn clone(&self) -> (r: JsonValue)
        ensures
            json_copy(r, *self),
    {
        self.deep_copy()
    }
}

} // verus!
