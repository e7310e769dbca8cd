//! Passage between the gateway's JSON values and `serde_json`.
use crate::json::{
    Json, JsonView, entries_view, items_view, keys_distinct, lemma_entry_content_is_smaller,
    lemma_entry_is_smaller, lemma_item_content_is_smaller, lemma_item_is_smaller,
    lemma_object_field, map_of, number_view, owned_view,
};
use vstd::prelude::*;
use vstd::utf8::encode_utf8;

verus! {

#[verifier::external_type_specification]
#[verifier::external_body]
pub struct ExJsonNumber(serde_json::Number);

#[verifier::external_type_specification]
#[verifier::external_body]
pub struct ExJsonValue(serde_json::Value);

#[verifier::external_type_specification]
#[verifier::external_body]
pub struct ExJsonError(serde_json::Error);

#[verifier::external_type_specification]
#[verifier::external_body]
#[verifier::reject_recursive_types(K)]
#[verifier::reject_recursive_types(V)]
pub struct ExJsonMap<K, V>(serde_json::Map<K, V>);

/// What a `serde_json::Map` holds.
pub uninterp spec fn map_content(map: serde_json::Map<String, serde_json::Value>) -> Map<
    Seq<char>,
    JsonView,
>;

/// The integer that a `serde_json::Number` stores, if it stores one.
pub uninterp spec fn number_integer(n: serde_json::Number) -> Option<int>;

/// What a `serde_json::Value` holds.
pub uninterp spec fn json_content(v: serde_json::Value) -> JsonView;

/// The text that `serde_json` writes for a value: compact, with the keys of an object in
/// ascending order.
pub uninterp spec fn json_text(v: JsonView) -> Seq<char>;

/// The value that `serde_json` reads from a text, if the text is JSON.
pub uninterp spec fn json_parsed(text: Seq<char>) -> Option<JsonView>;

/// `serde_json::Number::from`, on a `u64`: the number stores this integer.
#[verifier::external_body]
pub(crate) fn number_from_u64(n: u64) -> (r: serde_json::Number)
    ensures
        number_integer(r) == Some(n as int),
{
    serde_json::Number::from(n)
}

/// `serde_json::Number::from`, on an `i64`: the number stores this integer.
#[verifier::external_body]
pub(crate) fn number_from_i64(n: i64) -> (r: serde_json::Number)
    ensures
        number_integer(r) == Some(n as int),
{
    serde_json::Number::from(n)
}

/// `serde_json::Number::as_u64`: the integer that the number stores, where it fits.
#[verifier::external_body]
pub(crate) fn number_as_u64(n: &serde_json::Number) -> (r: Option<u64>)
    ensures
        r == (match number_integer(*n) {
            Some(k) => if 0 <= k <= u64::MAX {
                Some(k as u64)
            } else {
                None
            },
            None => None,
        }),
{
    n.as_u64()
}

/// `serde_json::Number::clone`: the same number again.
#[verifier::external_body]
pub(crate) fn clone_number(n: &serde_json::Number) -> (r: serde_json::Number)
    ensures
        r == *n,
{
    n.clone()
}

/// The outermost layer of a `serde_json::Value`.
pub enum Layer {
    Null,
    Bool(bool),
    Number(serde_json::Number),
    String(String),
    Array(Vec<serde_json::Value>),
    Object(Vec<(String, serde_json::Value)>),
}

/// What a list of `serde_json` values holds.
pub open spec fn contents(items: Seq<serde_json::Value>) -> Seq<JsonView> {
    items.map_values(|v: serde_json::Value| json_content(v))
}

/// What a list of named `serde_json` values holds.
pub open spec fn entry_contents(entries: Seq<(String, serde_json::Value)>) -> Seq<
    (Seq<char>, JsonView),
> {
    entries.map_values(|e: (String, serde_json::Value)| (e.0@, json_content(e.1)))
}

pub open spec fn layer_view(layer: Layer) -> JsonView {
    match layer {
        Layer::Null => JsonView::Null,
        Layer::Bool(b) => JsonView::Bool(b),
        Layer::Number(n) => JsonView::Number(number_view(n)),
        Layer::String(s) => JsonView::String(s@),
        Layer::Array(items) => JsonView::Array(contents(items@)),
        Layer::Object(entries) => JsonView::Object(map_of(entry_contents(entries@))),
    }
}

/// The variants of `serde_json::Value`, told apart: the layer holds what the value holds,
/// an object's entries each once.
#[verifier::external_body]
fn open_value(v: serde_json::Value) -> (r: Layer)
    ensures
        layer_view(r) == json_content(v),
        r matches Layer::Object(entries) ==> keys_distinct(entry_contents(entries@)),
{
    match v {
        serde_json::Value::Null => Layer::Null,
        serde_json::Value::Bool(b) => Layer::Bool(b),
        serde_json::Value::Number(n) => Layer::Number(n),
        serde_json::Value::String(s) => Layer::String(s),
        serde_json::Value::Array(items) => Layer::Array(items),
        serde_json::Value::Object(entries) => Layer::Object(entries.into_iter().collect()),
    }
}

/// `serde_json::Value::from`, on the unit: null.
#[verifier::external_body]
fn null_value() -> (r: serde_json::Value)
    ensures
        json_content(r) == JsonView::Null,
{
    serde_json::Value::from(())
}

/// `serde_json::Value::from`, on a `bool`.
#[verifier::external_body]
fn bool_value(b: bool) -> (r: serde_json::Value)
    ensures
        json_content(r) == JsonView::Bool(b),
{
    serde_json::Value::from(b)
}

/// `serde_json::Value::from`, on a `serde_json::Number`.
#[verifier::external_body]
fn number_value(n: serde_json::Number) -> (r: serde_json::Value)
    ensures
        json_content(r) == JsonView::Number(number_view(n)),
{
    serde_json::Value::from(n)
}

/// `serde_json::Value::from`, on a `&str`.
#[verifier::external_body]
fn string_value(s: &str) -> (r: serde_json::Value)
    ensures
        json_content(r) == JsonView::String(s@),
{
    serde_json::Value::from(s)
}

/// `serde_json::Value::from`, on a `Vec` of values: the array of these values.
#[verifier::external_body]
fn array_value(items: Vec<serde_json::Value>) -> (r: serde_json::Value)
    ensures
        json_content(r) == JsonView::Array(contents(items@)),
{
    serde_json::Value::from(items)
}

/// `serde_json::Map::new`: the map without entries.
#[verifier::external_body]
fn empty_map() -> (r: serde_json::Map<String, serde_json::Value>)
    ensures
        (map_content(r) == Map::<Seq<char>, JsonView>::empty()),
{
    serde_json::Map::new()
}

/// `serde_json::Map::insert`: the map with this value under this key, in the place of the one
/// that may have been there.
#[verifier::external_body]
fn insert_entry(
    map: &mut serde_json::Map<String, serde_json::Value>,
    key: String,
    value: serde_json::Value,
)
    ensures
        map_content(*final(map)) == map_content(*old(map)).insert(key@, json_content(value)),
{
    let _ = map.insert(key, value);
}

/// `serde_json::Value::from`, on a `serde_json::Map`: the object of its entries.
#[verifier::external_body]
fn object_value(map: serde_json::Map<String, serde_json::Value>) -> (r: serde_json::Value)
    ensures
        json_content(r) == JsonView::Object(map_content(map)),
{
    serde_json::Value::from(map)
}

/// `serde_json::Value::to_string`: the compact text of the value. No control character
/// occurs in it, since strings have theirs escaped and nothing else contains any.
#[verifier::external_body]
fn display(v: &serde_json::Value) -> (r: String)
    ensures
        r@ == json_text(json_content(*v)),
        json_content(*v) == JsonView::Null ==> r@ == "null"@,
        json_content(*v) == JsonView::Bool(true) ==> r@ == "true"@,
        json_content(*v) == JsonView::Bool(false) ==> r@ == "false"@,
        forall|i: int| 0 <= i < r@.len() ==> r@[i] >= ' ',
{
    v.to_string()
}

/// `serde_json::to_vec`: the UTF-8 encoding of the value's compact text, without control
/// characters. It cannot fail here: every key of an object is a string, and a `Vec` takes
/// whatever is written to it.
#[verifier::external_body]
fn to_vec(v: &serde_json::Value) -> (r: Result<Vec<u8>, serde_json::Error>)
    ensures
        match r {
            Ok(bytes) => bytes@ == encode_utf8(json_text(json_content(*v))) && forall|i: int|
                0 <= i < bytes@.len() ==> bytes@[i] >= 0x20u8,
            Err(_) => false,
        },
{
    serde_json::to_vec(v)
}

/// `serde_json::from_str`: the value that the text spells, or an error where it spells none.
#[verifier::external_body]
fn from_str(text: &str) -> (r: Result<serde_json::Value, serde_json::Error>)
    ensures
        match r {
            Ok(v) => json_parsed(text@) == Some(json_content(v)),
            Err(_) => json_parsed(text@) is None,
        },
{
    serde_json::from_str(text)
}

/// The gateway's form of a `serde_json` value.
pub fn from_json(v: serde_json::Value) -> (r: Json)
    ensures
        r@ == json_content(v),
    decreases json_content(v),
{
    let ghost whole = json_content(v);
    match open_value(v) {
        Layer::Null => Json::Null,
        Layer::Bool(b) => Json::Bool(b),
        Layer::Number(n) => Json::Number(n),
        Layer::String(s) => Json::String(s),
        Layer::Array(items) => {
            let ghost all = items@;
            let mut copy: Vec<Json> = Vec::new();
            for item in it: items
                invariant
                    it.seq() == all,
                    whole == json_content(v),
                    whole == JsonView::Array(contents(all)),
                    copy@.len() == it.index(),
                    forall|j: int| 0 <= j < it.index() ==> (#[trigger] copy@[j])@ == json_content(all[j]),
            {
                proof {
                    assert(contents(all)[it.index() as int] == json_content(item));
                    lemma_item_content_is_smaller(whole, it.index() as int);
                }
                copy.push(from_json(item));
            }
            assert(items_view(copy@) =~= contents(all));
            Json::Array(copy)
        },
        Layer::Object(entries) => {
            let ghost all = entries@;
            let mut copy: Vec<(String, Json)> = Vec::new();
            for entry in it: entries
                invariant
                    it.seq() == all,
                    whole == json_content(v),
                    whole == JsonView::Object(map_of(entry_contents(all))),
                    keys_distinct(entry_contents(all)),
                    copy@.len() == it.index(),
                    forall|j: int|
                        0 <= j < it.index() ==> (#[trigger] copy@[j]).0@ == all[j].0@ && copy@[j].1@
                            == json_content(all[j].1),
            {
                proof {
                    lemma_object_field(entry_contents(all), it.index() as int);
                    assert(whole.get(entry.0@) == Some(json_content(entry.1)));
                    lemma_entry_content_is_smaller(whole, entry.0@);
                }
                copy.push((entry.0, from_json(entry.1)));
            }
            assert(entries_view(copy@) =~= entry_contents(all));
            Json::Object(copy)
        },
    }
}

/// The `serde_json` form of a value.
pub fn to_json(v: &Json) -> (r: serde_json::Value)
    ensures
        json_content(r) == v@,
    decreases v,
{
    match v {
        Json::Null => null_value(),
        Json::Bool(b) => bool_value(*b),
        Json::Number(n) => number_value(clone_number(n)),
        Json::String(s) => string_value(s.as_str()),
        Json::Array(items) => {
            let mut copy: Vec<serde_json::Value> = Vec::new();
            let mut i: usize = 0;
            while i < items.len()
                invariant
                    i <= items@.len(),
                    v == Json::Array(*items),
                    copy@.len() == i,
                    forall|j: int| 0 <= j < i ==> json_content(#[trigger] copy@[j]) == items@[j]@,
                decreases items@.len() - i,
            {
                proof {
                    lemma_item_is_smaller(*v, i as int);
                }
                copy.push(to_json(&items[i]));
                i = i + 1;
            }
            assert(contents(copy@) =~= items_view(items@));
            array_value(copy)
        },
        Json::Object(entries) => {
            let ghost all = entries_view(entries@);
            let mut map = empty_map();
            let mut i: usize = 0;
            while i < entries.len()
                invariant
                    i <= entries@.len(),
                    v == Json::Object(*entries),
                    all == entries_view(entries@),
                    map_content(map) == map_of(all.take(i as int)),
                decreases entries@.len() - i,
            {
                proof {
                    lemma_entry_is_smaller(*v, i as int);
                    assert(all.take(i + 1).drop_last() =~= all.take(i as int));
                }
                insert_entry(&mut map, entries[i].0.clone(), to_json(&entries[i].1));
                i = i + 1;
            }
            assert(all.take(i as int) =~= all);
            object_value(map)
        },
    }
}

/// The compact JSON text of a value.
pub fn to_text(v: &Json) -> (r: String)
    ensures
        r@ == json_text(v@),
        v@ == JsonView::Null ==> r@ == "null"@,
        v@ == JsonView::Bool(true) ==> r@ == "true"@,
        v@ == JsonView::Bool(false) ==> r@ == "false"@,
        forall|i: int| 0 <= i < r@.len() ==> r@[i] >= ' ',
{
    display(&to_json(v))
}

/// The value that a JSON text spells, or nothing where the text is malformed.
pub fn parse(text: &str) -> (r: Option<Json>)
    ensures
        owned_view(r) == json_parsed(text@),
{
    match from_str(text) {
        Ok(v) => Some(from_json(v)),
        Err(_) => None,
    }
}

/// The line that carries a message: its JSON text and a line feed, which occurs nowhere
/// else in it.
pub fn encode_line(message: &Json) -> (r: Vec<u8>)
    ensures
        r@ == encode_utf8(json_text(message@)).push(10u8),
        forall|i: int| 0 <= i < r@.len() - 1 ==> r@[i] != 10u8,
{
    match to_vec(&to_json(message)) {
        Ok(bytes) => {
            let mut line: Vec<u8> = bytes;
            line.push(10u8);
            line
        },
        Err(_) => Vec::new(),
    }
}

} // verus!
