//! JSON values as `serde_json` holds them, read and built through a
//! mathematical model.
//!
//! A `serde_json::Value` is opaque to the verifier. Every function here that
//! touches one states what it does in terms of [`json_model`], the tree of
//! plain values that the `Value` stands for.

use vstd::prelude::*;

verus! {

/// The numbers a JSON value can hold.
pub enum JsonNumber {
    /// A non-negative integer below 2^64.
    PosInt(u64),
    /// A negative integer.
    NegInt(i64),
    /// Any other finite number, by its IEEE 754 bit pattern.
    Float(u64),
}

/// The mathematical content of a JSON value.
pub enum Json {
    Null,
    Bool(bool),
    Number(JsonNumber),
    Str(Seq<char>),
    Array(Seq<Json>),
    Object(Map<Seq<char>, Json>),
}

impl Json {
    /// The member `key` of an object; `None` for a missing key and for
    /// anything that is not an object.
    pub open spec fn member(self, key: Seq<char>) -> Option<Json> {
        match self {
            Json::Object(m) => if m.contains_key(key) {
                Some(m[key])
            } else {
                None
            },
            _ => None,
        }
    }

    /// The text of a string; `None` for anything else.
    pub open spec fn as_str(self) -> Option<Seq<char>> {
        match self {
            Json::Str(s) => Some(s),
            _ => None,
        }
    }

    /// The value of a non-negative integer below 2^64; `None` for anything
    /// else.
    pub open spec fn as_u64(self) -> Option<u64> {
        match self {
            Json::Number(JsonNumber::PosInt(n)) => Some(n),
            _ => None,
        }
    }

    /// The value of a boolean; `None` for anything else.
    pub open spec fn as_bool(self) -> Option<bool> {
        match self {
            Json::Bool(b) => Some(b),
            _ => None,
        }
    }

    /// The text held by member `key`, if there is such a member and it is a
    /// string.
    pub open spec fn str_member(self, key: Seq<char>) -> Option<Seq<char>> {
        match self.member(key) {
            Some(m) => m.as_str(),
            None => None,
        }
    }

    /// The integer held by member `key`, if there is such a member and it is
    /// a non-negative integer below 2^64.
    pub open spec fn u64_member(self, key: Seq<char>) -> Option<u64> {
        match self.member(key) {
            Some(m) => m.as_u64(),
            None => None,
        }
    }

    /// The boolean held by member `key`, if there is such a member and it is
    /// a boolean.
    pub open spec fn bool_member(self, key: Seq<char>) -> Option<bool> {
        match self.member(key) {
            Some(m) => m.as_bool(),
            None => None,
        }
    }

    /// The text held by member `key` of member `outer`.
    pub open spec fn nested_str(self, outer: Seq<char>, key: Seq<char>) -> Option<Seq<char>> {
        match self.member(outer) {
            Some(m) => m.str_member(key),
            None => None,
        }
    }

    /// The integer held by member `key` of member `outer`.
    pub open spec fn nested_u64(self, outer: Seq<char>, key: Seq<char>) -> Option<u64> {
        match self.member(outer) {
            Some(m) => m.u64_member(key),
            None => None,
        }
    }

    /// Member `key` of member `outer`.
    pub open spec fn nested_member(self, outer: Seq<char>, key: Seq<char>) -> Option<Json> {
        match self.member(outer) {
            Some(m) => m.member(key),
            None => None,
        }
    }

    /// A string, or null where there is none.
    pub open spec fn text_or_null(text: Option<Seq<char>>) -> Json {
        match text {
            Some(s) => Json::Str(s),
            None => Json::Null,
        }
    }

    /// A value, or null where there is none.
    pub open spec fn or_null(value: Option<Json>) -> Json {
        match value {
            Some(j) => j,
            None => Json::Null,
        }
    }
}

/// `serde_json::Value`, a JSON value of any kind.
#[verifier::external_type_specification]
#[verifier::external_body]
pub struct ExValue(serde_json::Value);

/// `serde_json::Map`, the members of a JSON object.
#[verifier::external_type_specification]
#[verifier::external_body]
#[verifier::reject_recursive_types(K)]
#[verifier::reject_recursive_types(V)]
pub struct ExObject<K, V>(serde_json::Map<K, V>);

/// What a `serde_json::Value` holds.
pub uninterp spec fn json_model(v: serde_json::Value) -> Json;

/// What a `serde_json::Map` from strings to values holds.
pub uninterp spec fn object_model(m: serde_json::Map<String, serde_json::Value>) -> Map<
    Seq<char>,
    Json,
>;

/// What `serde_json::from_str` makes of a text: the value it reads, or
/// `None` where it reports an error.
pub uninterp spec fn json_parse(text: Seq<char>) -> Option<Json>;

/// The compact JSON text that `serde_json` writes for a value. The members
/// of an object are written in the order of their keys.
pub uninterp spec fn json_text(j: Json) -> Seq<char>;

/// The models of a sequence of values, one for one.
pub open spec fn json_models(values: Seq<serde_json::Value>) -> Seq<Json> {
    Seq::new(values.len(), |i: int| json_model(values[i]))
}

/// The model of a value that may be absent.
pub open spec fn json_model_opt(value: Option<serde_json::Value>) -> Option<Json> {
    match value {
        Some(v) => Some(json_model(v)),
        None => None,
    }
}

/// `serde_json::from_str` at type `Value`: the parsed value, or `None`
/// where the text is not one JSON value.
#[verifier::external_body]
pub(crate) fn parse(text: &str) -> (r: Option<serde_json::Value>)
    ensures
        json_model_opt(r) == json_parse(text@),
{
    serde_json::from_str::<serde_json::Value>(text).ok()
}

/// `Value`'s `to_string`: the compact JSON text of the value. The text goes
/// by the content alone as long as the crate is built as it is here, with
/// objects that keep their members sorted by key and numbers of 64 bits.
#[verifier::external_body]
pub(crate) fn to_text(v: &serde_json::Value) -> (r: String)
    ensures
        r@ == json_text(json_model(*v)),
{
    v.to_string()
}

/// `Value::get` with a string key: the member of that name when the value
/// is an object that has it, nothing otherwise.
#[verifier::external_body]
pub(crate) fn get<'a>(v: &'a serde_json::Value, key: &str) -> (r: Option<&'a serde_json::Value>)
    ensures
        match r {
            Some(m) => json_model(*v).member(key@) == Some(json_model(*m)),
            None => json_model(*v).member(key@) is None,
        },
{
    v.get(key)
}

/// `Value::as_str`: the text of a string value, nothing for any other.
#[verifier::external_body]
pub(crate) fn as_str<'a>(v: &'a serde_json::Value) -> (r: Option<&'a str>)
    ensures
        match r {
            Some(s) => json_model(*v).as_str() == Some(s@),
            None => json_model(*v).as_str() is None,
        },
{
    v.as_str()
}

/// `Value::as_u64`: the number, where the value is a non-negative integer
/// below 2^64; nothing otherwise.
#[verifier::external_body]
pub(crate) fn as_u64(v: &serde_json::Value) -> (r: Option<u64>)
    ensures
        r == json_model(*v).as_u64(),
{
    v.as_u64()
}

/// `Value::as_bool`: the boolean of a boolean value, nothing for any other.
#[verifier::external_body]
pub(crate) fn as_bool(v: &serde_json::Value) -> (r: Option<bool>)
    ensures
        r == json_model(*v).as_bool(),
{
    v.as_bool()
}

/// `Value`'s `clone`: a value with the same content.
pub assume_specification[ <serde_json::Value as Clone>::clone ](v: &serde_json::Value) -> (r:
    serde_json::Value)
    ensures
        json_model(r) == json_model(*v),
;

/// `Value::Null`.
#[verifier::external_body]
pub(crate) fn null() -> (r: serde_json::Value)
    ensures
        json_model(r) == Json::Null,
{
    serde_json::Value::Null
}

/// `Value::from` a `bool`: that boolean.
#[verifier::external_body]
pub(crate) fn boolean(b: bool) -> (r: serde_json::Value)
    ensures
        json_model(r) == Json::Bool(b),
{
    serde_json::Value::from(b)
}

/// `Value::from` a string slice: a string value with that text.
#[verifier::external_body]
pub(crate) fn text(s: &str) -> (r: serde_json::Value)
    ensures
        json_model(r) == Json::Str(s@),
{
    serde_json::Value::from(s)
}

/// `Value::from` a `u64`: that non-negative integer.
#[verifier::external_body]
pub(crate) fn number(n: u64) -> (r: serde_json::Value)
    ensures
        json_model(r) == Json::Number(JsonNumber::PosInt(n)),
{
    serde_json::Value::from(n)
}

/// `Value::from` a vector of values: the array of them, in order.
#[verifier::external_body]
pub(crate) fn array(items: Vec<serde_json::Value>) -> (r: serde_json::Value)
    ensures
        json_model(r) == Json::Array(json_models(items@)),
{
    serde_json::Value::from(items)
}

/// `Map::new`: an object without members.
#[verifier::external_body]
pub(crate) fn new_object() -> (r: serde_json::Map<String, serde_json::Value>)
    ensures
        object_model(r) == (Map::<Seq<char>, Json>::empty()),
{
    serde_json::Map::new()
}

/// `Map::insert`: binds `key` to `value`, in place of any earlier binding
/// of that key.
#[verifier::external_body]
pub(crate) fn put(
    m: &mut serde_json::Map<String, serde_json::Value>,
    key: &str,
    value: serde_json::Value,
)
    ensures
        object_model(*final(m)) == object_model(*old(m)).insert(key@, json_model(value)),
{
    m.insert(key.to_owned(), value);
}

/// `Value::from` a map: the object with the members of the map.
#[verifier::external_body]
pub(crate) fn object(m: serde_json::Map<String, serde_json::Value>) -> (r: serde_json::Value)
    ensures
        json_model(r) == Json::Object(object_model(m)),
{
    serde_json::Value::from(m)
}

/// The text held by member `key` of `v`.
pub fn str_member<'a>(v: &'a serde_json::Value, key: &str) -> (r: Option<&'a str>)
    ensures
        match r {
            Some(s) => json_model(*v).str_member(key@) == Some(s@),
            None => json_model(*v).str_member(key@) is None,
        },
{
    match get(v, key) {
        Some(m) => as_str(m),
        None => None,
    }
}

/// The text held by member `key` of `v`, as an owned string.
pub fn string_member(v: &serde_json::Value, key: &str) -> (r: Option<String>)
    ensures
        r.deep_view() == json_model(*v).str_member(key@),
{
    match str_member(v, key) {
        Some(s) => Some(s.to_owned()),
        None => None,
    }
}

/// The non-negative integer held by member `key` of `v`.
pub fn u64_member(v: &serde_json::Value, key: &str) -> (r: Option<u64>)
    ensures
        r == json_model(*v).u64_member(key@),
{
    match get(v, key) {
        Some(m) => as_u64(m),
        None => None,
    }
}

/// The boolean held by member `key` of `v`.
pub fn bool_member(v: &serde_json::Value, key: &str) -> (r: Option<bool>)
    ensures
        r == json_model(*v).bool_member(key@),
{
    match get(v, key) {
        Some(m) => as_bool(m),
        None => None,
    }
}

/// The text held by member `key` of member `outer` of `v`.
pub fn nested_str<'a>(v: &'a serde_json::Value, outer: &str, key: &str) -> (r: Option<&'a str>)
    ensures
        match r {
            Some(s) => json_model(*v).nested_str(outer@, key@) == Some(s@),
            None => json_model(*v).nested_str(outer@, key@) is None,
        },
{
    match get(v, outer) {
        Some(m) => str_member(m, key),
        None => None,
    }
}

/// The integer held by member `key` of member `outer` of `v`.
pub fn nested_u64(v: &serde_json::Value, outer: &str, key: &str) -> (r: Option<u64>)
    ensures
        r == json_model(*v).nested_u64(outer@, key@),
{
    match get(v, outer) {
        Some(m) => u64_member(m, key),
        None => None,
    }
}

/// A copy of member `key` of member `outer` of `v`.
pub fn nested_copy(v: &serde_json::Value, outer: &str, key: &str) -> (r: Option<
    serde_json::Value,
>)
    ensures
        json_model_opt(r) == json_model(*v).nested_member(outer@, key@),
{
    match get(v, outer) {
        Some(m) => member_copy(m, key),
        None => None,
    }
}

/// A copy of member `key` of `v`.
pub fn member_copy(v: &serde_json::Value, key: &str) -> (r: Option<serde_json::Value>)
    ensures
        json_model_opt(r) == json_model(*v).member(key@),
{
    match get(v, key) {
        Some(m) => Some(m.clone()),
        None => None,
    }
}

/// A string value for a text that is there, null for one that is not.
pub fn text_or_null(s: &Option<String>) -> (r: serde_json::Value)
    ensures
        json_model(r) == Json::text_or_null(s.deep_view()),
{
    match s {
        Some(t) => text(t.as_str()),
        None => null(),
    }
}

/// The value itself where there is one, null where there is none.
pub fn or_null(v: Option<serde_json::Value>) -> (r: serde_json::Value)
    ensures
        json_model(r) == Json::or_null(json_model_opt(v)),
{
    match v {
        Some(j) => j,
        None => null(),
    }
}

} // verus!
