//! The JSON documents that the API answers with, as plain values.
use serde_json::Error as JsonError;
use serde_json::Value;
use vstd::prelude::*;

verus! {

/// The value stored under `key` in a list of keyed entries: the first entry
/// whose key is `key`, if any.
pub open spec fn lookup<V>(entries: Seq<(Seq<char>, V)>, key: Seq<char>) -> Option<V> {
    lookup_from(entries, key, 0)
}

/// [`lookup`] restricted to the entries from index `i` on.
pub open spec fn lookup_from<V>(entries: Seq<(Seq<char>, V)>, key: Seq<char>, i: int) -> Option<V>
    decreases entries.len() - i,
{
    if i < 0 || i >= entries.len() {
        None
    } else if entries[i].0 == key {
        Some(entries[i].1)
    } else {
        lookup_from(entries, key, i + 1)
    }
}

/// Whether no two entries share a key.
pub open spec fn keys_distinct<V>(entries: Seq<(Seq<char>, V)>) -> bool {
    forall|i: int, j: int|
        0 <= i < j < entries.len() ==> #[trigger] entries[i].0 != #[trigger] entries[j].0
}

/// Whether every object inside `v`, `v` included, names each member once.
pub open spec fn names_distinct(v: JsonView) -> bool
    decreases v,
{
    match v {
        JsonView::Array(items) => items_names_distinct(items),
        JsonView::Object(members) => keys_distinct(members) && members_names_distinct(members),
        _ => true,
    }
}

/// [`names_distinct`] of each value of a list.
pub open spec fn items_names_distinct(items: Seq<JsonView>) -> bool
    decreases items,
{
    if items.len() == 0 {
        true
    } else {
        items_names_distinct(items.drop_last()) && names_distinct(items.last())
    }
}

/// [`names_distinct`] of each member value of an object.
pub open spec fn members_names_distinct(members: Seq<(Seq<char>, JsonView)>) -> bool
    decreases members,
{
    if members.len() == 0 {
        true
    } else {
        members_names_distinct(members.drop_last()) && names_distinct(members.last().1)
    }
}

/// Each member value of an object whose names are distinct throughout has
/// distinct names throughout too.
pub proof fn lemma_member_names_distinct(members: Seq<(Seq<char>, JsonView)>, j: int)
    requires
        members_names_distinct(members),
        0 <= j < members.len(),
    ensures
        names_distinct(members[j].1),
    decreases members.len(),
{
    if j < members.len() - 1 {
        lemma_member_names_distinct(members.drop_last(), j);
        assert(members.drop_last()[j] == members[j]);
    }
}

/// The member that [`lookup`] finds is one of the members.
pub proof fn lemma_lookup_found<V>(entries: Seq<(Seq<char>, V)>, key: Seq<char>, i: int)
    requires
        0 <= i <= entries.len(),
        lookup_from(entries, key, i) is Some,
    ensures
        exists|j: int|
            i <= j < entries.len() && #[trigger] entries[j].1 == lookup_from(entries, key, i)->Some_0,
    decreases entries.len() - i,
{
    if entries[i].0 != key {
        lemma_lookup_found(entries, key, i + 1);
    } else {
        assert(entries[i].1 == lookup_from(entries, key, i)->Some_0);
    }
}

/// [`lookup_from`] finds nothing exactly when no entry from `i` on has the
/// key.
pub proof fn lemma_lookup_from_none<V>(entries: Seq<(Seq<char>, V)>, key: Seq<char>, i: int)
    requires
        0 <= i <= entries.len(),
    ensures
        lookup_from(entries, key, i) is None <==> forall|j: int|
            i <= j < entries.len() ==> #[trigger] entries[j].0 != key,
    decreases entries.len() - i,
{
    if i < entries.len() {
        lemma_lookup_from_none(entries, key, i + 1);
    }
}

/// Adding an entry whose key is not found keeps the keys distinct.
pub proof fn lemma_push_distinct<V>(entries: Seq<(Seq<char>, V)>, entry: (Seq<char>, V))
    requires
        keys_distinct(entries),
        lookup(entries, entry.0) is None,
    ensures
        keys_distinct(entries.push(entry)),
{
    lemma_lookup_from_none(entries, entry.0, 0);
    let s = entries.push(entry);
    assert forall|i: int, j: int| 0 <= i < j < s.len() implies #[trigger] s[i].0 != #[trigger] s[j].0 by {
        if j < entries.len() {
            assert(s[i] == entries[i] && s[j] == entries[j]);
        } else {
            assert(s[i] == entries[i]);
        }
    }
}

/// The entry at `j` is found by [`lookup_from`] from any `i` up to `j` when
/// no entry from `i` on before `j` has its key.
pub proof fn lemma_lookup_at<V>(entries: Seq<(Seq<char>, V)>, key: Seq<char>, i: int, j: int)
    requires
        0 <= i <= j < entries.len(),
        entries[j].0 == key,
        forall|k: int| i <= k < j ==> entries[k].0 != key,
    ensures
        lookup_from(entries, key, i) == Some(entries[j].1),
    decreases j - i,
{
    if i < j {
        lemma_lookup_at(entries, key, i + 1, j);
    }
}

/// A JSON number, kept the way the parser read it: a non-negative integer,
/// a negative integer, or any other number as its shortest decimal text.
#[derive(Debug, PartialEq)]
pub enum JsonNumber {
    PosInt(u64),
    NegInt(i64),
    Float(String),
}

/// The mathematical value of a [`JsonNumber`].
pub enum NumberView {
    PosInt(u64),
    NegInt(i64),
    Float(Seq<char>),
}

impl View for JsonNumber {
    type V = NumberView;

    open spec fn view(&self) -> NumberView {
        match self {
            JsonNumber::PosInt(n) => NumberView::PosInt(*n),
            JsonNumber::NegInt(n) => NumberView::NegInt(*n),
            JsonNumber::Float(t) => NumberView::Float(t@),
        }
    }
}

/// A JSON value. An object keeps its members in order.
#[derive(Debug, PartialEq)]
pub enum Json {
    Null,
    Bool(bool),
    Number(JsonNumber),
    Str(String),
    Array(Vec<Json>),
    Object(Vec<(String, Json)>),
}

/// The mathematical value of a [`Json`].
pub enum JsonView {
    Null,
    Bool(bool),
    Number(NumberView),
    Str(Seq<char>),
    Array(Seq<JsonView>),
    Object(Seq<(Seq<char>, JsonView)>),
}

impl View for Json {
    type V = JsonView;

    open spec fn view(&self) -> JsonView
        decreases self,
    {
        match self {
            Json::Null => JsonView::Null,
            Json::Bool(b) => JsonView::Bool(*b),
            Json::Number(n) => JsonView::Number(n@),
            Json::Str(s) => JsonView::Str(s@),
            Json::Array(items) => JsonView::Array(items_view(items@)),
            Json::Object(members) => JsonView::Object(members_view(members@)),
        }
    }
}

/// The views of a list of values, in order.
pub open spec fn items_view(items: Seq<Json>) -> Seq<JsonView>
    decreases items,
{
    if items.len() == 0 {
        Seq::empty()
    } else {
        items_view(items.drop_last()).push(items.last().view())
    }
}

/// The views of a list of object members, in order.
pub open spec fn members_view(members: Seq<(String, Json)>) -> Seq<(Seq<char>, JsonView)>
    decreases members,
{
    if members.len() == 0 {
        Seq::empty()
    } else {
        members_view(members.drop_last()).push((members.last().0@, members.last().1.view()))
    }
}

/// The integer that a number stands for, if it is an integer.
pub open spec fn integer_of(n: NumberView) -> Option<int> {
    match n {
        NumberView::PosInt(v) => Some(v as int),
        NumberView::NegInt(v) => Some(v as int),
        NumberView::Float(_) => None,
    }
}

/// The value of the member `key` of an object; `None` when `doc` is not an
/// object or has no such member.
pub open spec fn member(doc: JsonView, key: Seq<char>) -> Option<JsonView> {
    match doc {
        JsonView::Object(members) => lookup(members, key),
        _ => None,
    }
}

/// How an object's view lists its members.
pub proof fn lemma_object_view(members: Vec<(String, Json)>)
    ensures
        Json::Object(members)@ is Object,
        Json::Object(members)@->Object_0.len() == members.len(),
        forall|j: int|
            0 <= j < members.len() ==> #[trigger] Json::Object(members)@->Object_0[j] == (
                members[j].0@,
                members[j].1@,
            ),
{
    lemma_members_view(members@);
}

/// [`members_view`] views each member in place.
pub proof fn lemma_members_view(members: Seq<(String, Json)>)
    ensures
        members_view(members).len() == members.len(),
        forall|j: int|
            0 <= j < members.len() ==> #[trigger] members_view(members)[j] == (
                members[j].0@,
                members[j].1@,
            ),
    decreases members.len(),
{
    if members.len() > 0 {
        lemma_members_view(members.drop_last());
        assert(members_view(members) == members_view(members.drop_last()).push(
            (members.last().0@, members.last().1@),
        ));
    }
}

impl Clone for JsonNumber {
    fn clone(&self) -> (r: JsonNumber)
        ensures
            r@ == self@,
    {
        match self {
            JsonNumber::PosInt(n) => JsonNumber::PosInt(*n),
            JsonNumber::NegInt(n) => JsonNumber::NegInt(*n),
            JsonNumber::Float(t) => JsonNumber::Float(t.clone()),
        }
    }
}

impl Json {
    /// The member `key` of this value, when it is an object that has one.
    pub fn get(&self, key: &str) -> (r: Option<&Json>)
        ensures
            match member(self@, key@) {
                Some(v) => r is Some && r->0@ == v,
                None => r is None,
            },
    {
        match self {
            Json::Object(members) => {
                let wanted = key.to_owned();
                let ghost entries = self@->Object_0;
                proof {
                    lemma_object_view(*members);
                }
                let mut i: usize = 0;
                while i < members.len()
                    invariant
                        i <= members.len(),
                        wanted@ == key@,
                        self@ == JsonView::Object(entries),
                        *self == Json::Object(*members),
                        entries.len() == members.len(),
                        forall|j: int|
                            0 <= j < members.len() ==> #[trigger] entries[j] == (
                                members[j].0@,
                                members[j].1@,
                            ),
                        lookup(entries, key@) == lookup_from(entries, key@, i as int),
                    decreases members.len() - i,
                {
                    if members[i].0 == wanted {
                        return Some(&members[i].1);
                    }
                    i = i + 1;
                }
                None
            },
            _ => None,
        }
    }
}

#[verifier::external_type_specification]
#[verifier::external_body]
pub struct ExValue(serde_json::Value);

#[verifier::external_type_specification]
#[verifier::external_body]
pub struct ExJsonError(JsonError);

/// The document that serde_json reads from `text`, or `None` when `text` is
/// not one well-formed JSON document.
pub uninterp spec fn parsed_json(text: Seq<char>) -> Option<JsonView>;

/// Relies on `serde_json::from_str::<serde_json::Value>`: it reads the whole
/// text as one JSON document, or fails with the reason. Its objects are maps,
/// so each names a member once.
#[verifier::external_body]
pub(crate) fn parse_json(text: &str) -> (r: Result<Json, JsonError>)
    ensures
        match r {
            Ok(doc) => parsed_json(text@) == Some(doc@) && names_distinct(doc@),
            Err(_) => parsed_json(text@) is None,
        },
{
    serde_json::from_str::<Value>(text).map(json_from_value)
}

/// Relies on the variants of `serde_json::Value` and of its numbers
/// (`as_u64`, `as_i64`, and the shortest decimal text of a float): each value
/// becomes the matching variant of [`Json`], object members in the map's order.
#[verifier::external_body]
fn json_from_value(value: Value) -> Json {
    match value {
        Value::Null => Json::Null,
        Value::Bool(b) => Json::Bool(b),
        Value::Number(n) => Json::Number(match (n.as_u64(), n.as_i64()) {
            (Some(u), _) => JsonNumber::PosInt(u),
            (None, Some(i)) => JsonNumber::NegInt(i),
            (None, None) => JsonNumber::Float(n.to_string()),
        }),
        Value::String(s) => Json::Str(s),
        Value::Array(items) => Json::Array(items.into_iter().map(json_from_value).collect()),
        Value::Object(members) => Json::Object(
            members.into_iter().map(|(k, v)| (k, json_from_value(v))).collect(),
        ),
    }
}

} // verus!
