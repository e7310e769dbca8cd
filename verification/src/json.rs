//! JSON values as the gateway reads and writes them.
use crate::codec::{clone_number, number_as_u64, number_from_i64, number_from_u64, number_integer};
use crate::text::same_text;
use vstd::prelude::*;

verus! {

/// The content of a JSON number: the integer it stores, or, where it stores none, the
/// number itself, which the gateway only carries through.
pub enum NumberView {
    Int(int),
    Float(serde_json::Number),
}

/// The content of a JSON value. The entries of an object have no order.
#[verifier::ext_equal]
pub enum JsonView {
    Null,
    Bool(bool),
    Number(NumberView),
    String(Seq<char>),
    Array(Seq<JsonView>),
    Object(Map<Seq<char>, JsonView>),
}

/// A JSON value.
///
/// An object is a list of entries. Where a key occurs twice, the later entry counts.
#[derive(Debug)]
pub enum Json {
    Null,
    Bool(bool),
    Number(serde_json::Number),
    String(String),
    Array(Vec<Json>),
    Object(Vec<(String, Json)>),
}

pub open spec fn number_view(n: serde_json::Number) -> NumberView {
    match number_integer(n) {
        Some(k) => NumberView::Int(k),
        None => NumberView::Float(n),
    }
}

/// What a list of entries says of each key: the later entry counts.
pub open spec fn map_of(entries: Seq<(Seq<char>, JsonView)>) -> Map<Seq<char>, JsonView>
    decreases entries.len(),
{
    if entries.len() == 0 {
        Map::empty()
    } else {
        map_of(entries.drop_last()).insert(entries.last().0, entries.last().1)
    }
}

pub open spec fn json_view(v: Json) -> JsonView
    decreases v,
{
    match v {
        Json::Null => JsonView::Null,
        Json::Bool(b) => JsonView::Bool(b),
        Json::Number(n) => JsonView::Number(number_view(n)),
        Json::String(s) => JsonView::String(s@),
        Json::Array(items) => JsonView::Array(items_view(items@)),
        Json::Object(entries) => JsonView::Object(map_of(entries_view(entries@))),
    }
}

pub open spec fn items_view(items: Seq<Json>) -> Seq<JsonView>
    decreases items,
{
    Seq::new(
        items.len(),
        |i: int| if 0 <= i < items.len() { json_view(items[i]) } else { JsonView::Null },
    )
}

pub open spec fn entries_view(entries: Seq<(String, Json)>) -> Seq<(Seq<char>, JsonView)>
    decreases entries,
{
    Seq::new(
        entries.len(),
        |i: int|
            if 0 <= i < entries.len() {
                (entries[i].0@, json_view(entries[i].1))
            } else {
                (Seq::empty(), JsonView::Null)
            },
    )
}

/// Whether no key occurs twice in a list of entries.
pub open spec fn keys_distinct(entries: Seq<(Seq<char>, JsonView)>) -> bool {
    forall|i: int, j: int|
        0 <= i < j < entries.len() ==> (#[trigger] entries[i]).0 != (#[trigger] entries[j]).0
}

/// An object holds each of its entries that no later one replaces.
pub proof fn lemma_object_field(entries: Seq<(Seq<char>, JsonView)>, i: int)
    requires
        0 <= i < entries.len(),
        forall|j: int| i < j < entries.len() ==> (#[trigger] entries[j]).0 != entries[i].0,
    ensures
        JsonView::object(entries).get(entries[i].0) == Some(entries[i].1),
    decreases entries.len(),
{
    if i < entries.len() - 1 {
        let front = entries.drop_last();
        assert(front[i] == entries[i]);
        assert(entries[entries.len() - 1].0 != entries[i].0);
        assert forall|j: int| i < j < front.len() implies (#[trigger] front[j]).0 != front[i].0 by {
            assert(front[j] == entries[j]);
        }
        lemma_object_field(front, i);
    }
}

/// An object has no other fields than its entries.
pub proof fn lemma_object_has_no_other_field(entries: Seq<(Seq<char>, JsonView)>, key: Seq<char>)
    requires
        forall|i: int| 0 <= i < entries.len() ==> (#[trigger] entries[i]).0 != key,
    ensures
        JsonView::object(entries).get(key) is None,
    decreases entries.len(),
{
    if entries.len() > 0 {
        let front = entries.drop_last();
        assert forall|i: int| 0 <= i < front.len() implies (#[trigger] front[i]).0 != key by {
            assert(front[i] == entries[i]);
        }
        lemma_object_has_no_other_field(front, key);
        assert(entries[entries.len() - 1].0 != key);
    }
}

/// An array is larger than each of its items.
pub proof fn lemma_item_is_smaller(v: Json, i: int)
    requires
        v is Array,
        0 <= i < v->Array_0@.len(),
    ensures
        decreases_to!(v => v->Array_0@[i]),
{
    let items = v->Array_0;
    assert(decreases_to!(v => items));
    assert(decreases_to!(items => items@));
    assert(decreases_to!(items@ => items@[i]));
}

/// An object is larger than the value of each of its entries.
pub proof fn lemma_entry_is_smaller(v: Json, i: int)
    requires
        v is Object,
        0 <= i < v->Object_0@.len(),
    ensures
        decreases_to!(v => v->Object_0@[i].1),
{
    let entries = v->Object_0;
    assert(decreases_to!(v => entries));
    assert(decreases_to!(entries => entries@));
    assert(decreases_to!(entries@ => entries@[i]));
    assert(decreases_to!(entries@[i] => entries@[i].1));
}

/// The content of an array is larger than that of each of its items.
pub proof fn lemma_item_content_is_smaller(v: JsonView, i: int)
    requires
        v is Array,
        0 <= i < v->Array_0.len(),
    ensures
        decreases_to!(v => v->Array_0[i]),
{
    assert(decreases_to!(v => v->Array_0));
    assert(decreases_to!(v->Array_0 => v->Array_0[i]));
}

/// The content of an object is larger than that of the value of each of its entries.
pub proof fn lemma_entry_content_is_smaller(v: JsonView, key: Seq<char>)
    requires
        v.get(key) is Some,
    ensures
        decreases_to!(v => v.get(key)->0),
{
    assert(decreases_to!(v => v->Object_0[key]));
}

impl View for Json {
    type V = JsonView;

    open spec fn view(&self) -> JsonView {
        json_view(*self)
    }
}

/// The contents of a list of named values.
pub open spec fn fields_view(fields: Seq<(&str, Json)>) -> Seq<(Seq<char>, JsonView)> {
    fields.map_values(|field: (&str, Json)| (field.0@, field.1@))
}

impl JsonView {
    /// The object with these entries.
    pub open spec fn object(entries: Seq<(Seq<char>, JsonView)>) -> JsonView {
        JsonView::Object(map_of(entries))
    }

    pub open spec fn integer(n: int) -> JsonView {
        JsonView::Number(NumberView::Int(n))
    }

    /// The value under `key`, if this is an object that has one.
    pub open spec fn get(self, key: Seq<char>) -> Option<JsonView> {
        match self {
            JsonView::Object(entries) => if entries.contains_key(key) {
                Some(entries[key])
            } else {
                None
            },
            _ => None,
        }
    }

    /// The value under `inner` in the object under `outer`.
    pub open spec fn at(self, outer: Seq<char>, inner: Seq<char>) -> Option<JsonView> {
        match self.get(outer) {
            Some(v) => v.get(inner),
            None => None,
        }
    }

    pub open spec fn as_str(self) -> Option<Seq<char>> {
        match self {
            JsonView::String(text) => Some(text),
            _ => None,
        }
    }

    pub open spec fn as_u64(self) -> Option<u64> {
        match self {
            JsonView::Number(NumberView::Int(n)) => if 0 <= n <= u64::MAX {
                Some(n as u64)
            } else {
                None
            },
            _ => None,
        }
    }

    pub open spec fn as_bool(self) -> Option<bool> {
        match self {
            JsonView::Bool(b) => Some(b),
            _ => None,
        }
    }

    /// The text under `key`, if there is one.
    pub open spec fn text_at(self, key: Seq<char>) -> Option<Seq<char>> {
        match self.get(key) {
            Some(v) => v.as_str(),
            None => None,
        }
    }

    /// The text under `inner` in the object under `outer`, if there is one.
    pub open spec fn text_in(self, outer: Seq<char>, inner: Seq<char>) -> Option<Seq<char>> {
        match self.at(outer, inner) {
            Some(v) => v.as_str(),
            None => None,
        }
    }

    /// This object with `value` under `key`; null counts as the empty object.
    pub open spec fn with(self, key: Seq<char>, value: JsonView) -> JsonView {
        match self {
            JsonView::Object(entries) => JsonView::Object(entries.insert(key, value)),
            _ => JsonView::Object(Map::empty().insert(key, value)),
        }
    }
}

/// What an optional value holds.
pub open spec fn option_view(v: Option<&Json>) -> Option<JsonView> {
    match v {
        Some(v) => Some(v@),
        None => None,
    }
}

/// What an optional text holds.
pub open spec fn text_view(s: Option<&str>) -> Option<Seq<char>> {
    match s {
        Some(s) => Some(s@),
        None => None,
    }
}

/// What an optional value holds.
pub open spec fn owned_view(v: Option<Json>) -> Option<JsonView> {
    match v {
        Some(v) => Some(v@),
        None => None,
    }
}

impl Clone for Json {
    fn clone(&self) -> (r: Json)
        ensures
            r@ == self@,
        decreases self,
    {
        match self {
            Json::Null => Json::Null,
            Json::Bool(b) => Json::Bool(*b),
            Json::Number(n) => Json::Number(clone_number(n)),
            Json::String(s) => Json::String(s.clone()),
            Json::Array(items) => {
                let mut copy: Vec<Json> = Vec::new();
                let mut i: usize = 0;
                while i < items.len()
                    invariant
                        i <= items@.len(),
                        self == Json::Array(*items),
                        copy@.len() == i,
                        forall|j: int| 0 <= j < i ==> copy@[j]@ == items@[j]@,
                    decreases items@.len() - i,
                {
                    proof {
                        lemma_item_is_smaller(*self, i as int);
                    }
                    copy.push(items[i].clone());
                    i = i + 1;
                }
                assert(items_view(copy@) =~= items_view(items@));
                Json::Array(copy)
            },
            Json::Object(entries) => {
                let mut copy: Vec<(String, Json)> = Vec::new();
                let mut i: usize = 0;
                while i < entries.len()
                    invariant
                        i <= entries@.len(),
                        self == Json::Object(*entries),
                        copy@.len() == i,
                        forall|j: int|
                            0 <= j < i ==> (#[trigger] copy@[j]).0@ == entries@[j].0@
                                && copy@[j].1@ == entries@[j].1@,
                    decreases entries@.len() - i,
                {
                    proof {
                        lemma_entry_is_smaller(*self, i as int);
                    }
                    copy.push((entries[i].0.clone(), entries[i].1.clone()));
                    i = i + 1;
                }
                assert(entries_view(copy@) =~= entries_view(entries@));
                Json::Object(copy)
            },
        }
    }
}

impl Json {
    pub fn text(s: &str) -> (r: Json)
        ensures
            r@ == JsonView::String(s@),
    {
        Json::String(s.to_owned())
    }

    pub fn unsigned(n: u64) -> (r: Json)
        ensures
            r@ == JsonView::integer(n as int),
    {
        Json::Number(number_from_u64(n))
    }

    pub fn signed(n: i64) -> (r: Json)
        ensures
            r@ == JsonView::integer(n as int),
    {
        Json::Number(number_from_i64(n))
    }

    /// The object with these fields.
    pub fn object(fields: Vec<(&str, Json)>) -> (r: Json)
        ensures
            r@ == JsonView::object(fields_view(fields@)),
    {
        let ghost all = fields@;
        let mut entries: Vec<(String, Json)> = Vec::new();
        for field in it: fields
            invariant
                it.seq() == all,
                entries@.len() == it.index(),
                forall|j: int|
                    0 <= j < it.index() ==> (#[trigger] entries@[j]).0@ == all[j].0@ && entries@[j].1@
                        == all[j].1@,
        {
            entries.push((field.0.to_owned(), field.1));
        }
        assert(entries_view(entries@) =~= fields_view(all));
        Json::Object(entries)
    }

    /// The value under `key`, if this is an object that has one.
    pub fn get(&self, key: &str) -> (r: Option<&Json>)
        ensures
            option_view(r) == self@.get(key@),
    {
        match self {
            Json::Object(entries) => {
                let ghost all = entries_view(entries@);
                let mut i: usize = entries.len();
                assert(all.take(i as int) =~= all);
                while i > 0
                    invariant
                        i <= entries@.len(),
                        all == entries_view(entries@),
                        map_of(all).contains_key(key@) == map_of(all.take(i as int)).contains_key(
                            key@,
                        ),
                        map_of(all).contains_key(key@) ==> map_of(all)[key@] == map_of(
                            all.take(i as int),
                        )[key@],
                        self@ == JsonView::object(all),
                    decreases i,
                {
                    i = i - 1;
                    assert(all.take(i + 1).drop_last() =~= all.take(i as int));
                    if same_text(entries[i].0.as_str(), key) {
                        return Some(&entries[i].1);
                    }
                }
                None
            },
            _ => None,
        }
    }

    /// The value under `inner` in the object under `outer`.
    pub fn at(&self, outer: &str, inner: &str) -> (r: Option<&Json>)
        ensures
            option_view(r) == self@.at(outer@, inner@),
    {
        match self.get(outer) {
            Some(v) => v.get(inner),
            None => None,
        }
    }

    pub fn as_str(&self) -> (r: Option<&str>)
        ensures
            text_view(r) == self@.as_str(),
    {
        match self {
            Json::String(s) => Some(s.as_str()),
            _ => None,
        }
    }

    pub fn as_u64(&self) -> (r: Option<u64>)
        ensures
            r == self@.as_u64(),
    {
        match self {
            Json::Number(n) => number_as_u64(n),
            _ => None,
        }
    }

    pub fn as_bool(&self) -> (r: Option<bool>)
        ensures
            r == self@.as_bool(),
    {
        match self {
            Json::Bool(b) => Some(*b),
            _ => None,
        }
    }

    pub fn is_null(&self) -> (r: bool)
        ensures
            r == (self@ is Null),
    {
        match self {
            Json::Null => true,
            _ => false,
        }
    }

    /// The text under `key`, if there is one.
    pub fn text_at(&self, key: &str) -> (r: Option<&str>)
        ensures
            text_view(r) == self@.text_at(key@),
    {
        match self.get(key) {
            Some(v) => v.as_str(),
            None => None,
        }
    }

    /// The text under `inner` in the object under `outer`, if there is one.
    pub fn text_in(&self, outer: &str, inner: &str) -> (r: Option<&str>)
        ensures
            text_view(r) == self@.text_in(outer@, inner@),
    {
        match self.at(outer, inner) {
            Some(v) => v.as_str(),
            None => None,
        }
    }

    /// This object with `value` under `key`; null counts as the empty object.
    pub fn with(self, key: &str, value: Json) -> (r: Json)
        requires
            self@ is Object || self@ is Null,
        ensures
            r@ == self@.with(key@, value@),
    {
        let mut entries: Vec<(String, Json)> = match self {
            Json::Object(entries) => entries,
            _ => Vec::new(),
        };
        let ghost before = entries_view(entries@);
        assert(self@ is Object ==> self@ == JsonView::object(before));
        assert(self@ is Null ==> map_of(before) =~= Map::empty());
        entries.push((key.to_owned(), value));
        assert(entries_view(entries@).drop_last() =~= before);
        Json::Object(entries)
    }
}

/// The array of one value.
pub open spec fn single(v: JsonView) -> JsonView {
    JsonView::Array(seq![v])
}

/// The array of one value.
pub fn one(v: Json) -> (r: Json)
    ensures
        r@ == single(v@),
{
    let items: Vec<Json> = vec![v];
    assert(items_view(items@) =~= seq![v@]);
    Json::Array(items)
}

/// The empty array.
pub fn nothing() -> (r: Json)
    ensures
        r@ == JsonView::Array(Seq::empty()),
{
    let items: Vec<Json> = Vec::new();
    assert(items_view(items@) =~= Seq::empty());
    Json::Array(items)
}

/// The object with one field.
pub open spec fn field_view(name: Seq<char>, value: JsonView) -> JsonView {
    JsonView::object(seq![(name, value)])
}

/// The object with one field.
pub fn field(name: &str, value: Json) -> (r: Json)
    ensures
        r@ == field_view(name@, value@),
{
    let fields: Vec<(&str, Json)> = vec![(name, value)];
    assert(fields_view(fields@) =~= seq![(name@, value@)]);
    Json::object(fields)
}

} // verus!
