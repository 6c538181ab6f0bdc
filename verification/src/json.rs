//! The few reads of JSON values that the library makes, each through
//! `serde_json`: parsing, looking up a member, telling the kind of a value
//! apart and rendering it as compact JSON text.
use vstd::prelude::*;

use crate::text::int_decimal;

verus! {

/// `serde_json::Value`, carried through the library as an opaque value.
#[verifier::external_type_specification]
#[verifier::external_body]
pub struct ExJsonValue(serde_json::Value);

/// What kind of JSON value something is, with the text of a string value.
#[derive(Debug, Clone)]
pub enum JsonKind {
    Null,
    Bool(bool),
    Number,
    Str(String),
    Array,
    Object,
}

/// The mathematical view of a [`JsonKind`].
pub enum JsonShape {
    Null,
    Bool(bool),
    Number,
    Str(Seq<char>),
    Array,
    Object,
}

impl View for JsonKind {
    type V = JsonShape;

    open spec fn view(&self) -> JsonShape {
        match self {
            JsonKind::Null => JsonShape::Null,
            JsonKind::Bool(b) => JsonShape::Bool(*b),
            JsonKind::Number => JsonShape::Number,
            JsonKind::Str(s) => JsonShape::Str(s@),
            JsonKind::Array => JsonShape::Array,
            JsonKind::Object => JsonShape::Object,
        }
    }
}

/// What `serde_json::from_slice::<Value>` makes of `bytes`: the value, if the
/// bytes hold one JSON document, else the text of the error (its `Display`).
pub uninterp spec fn parsed_json(bytes: Seq<u8>) -> Result<serde_json::Value, Seq<char>>;

/// The member `key` of an object (`Value::get` with a string key).
pub uninterp spec fn json_member_of(v: serde_json::Value, key: Seq<char>) -> Option<
    serde_json::Value,
>;

/// The kind of a value (which variant of `serde_json::Value` it is).
pub uninterp spec fn json_kind_of(v: serde_json::Value) -> JsonShape;

/// The compact JSON text of a value (`Value`'s `Display`).
pub uninterp spec fn json_text_of(v: serde_json::Value) -> Seq<char>;

/// The view of a parse result: the value, or the text of the error.
pub open spec fn parse_result_view(r: Result<serde_json::Value, String>) -> Result<
    serde_json::Value,
    Seq<char>,
> {
    match r {
        Ok(v) => Ok(v),
        Err(e) => Err(e@),
    }
}

/// `serde_json::from_slice::<serde_json::Value>`: parses one JSON document.
/// The contract names what comes back: the parsed value, or the text of the
/// error.
#[verifier::external_body]
pub(crate) fn parse_json(bytes: &[u8]) -> (res: Result<serde_json::Value, String>)
    ensures
        parse_result_view(res) == parsed_json(bytes@),
{
    serde_json::from_slice::<serde_json::Value>(bytes).map_err(|e| e.to_string())
}

/// `serde_json::Value::get` with a string key, cloned: the member `key` of an
/// object, and `None` for every value that is not an object.
#[verifier::external_body]
pub(crate) fn json_member(v: &serde_json::Value, key: &str) -> (res: Option<serde_json::Value>)
    ensures
        res == json_member_of(*v, key@),
        !(json_kind_of(*v) is Object) ==> res is None,
{
    v.get(key).cloned()
}

/// Tells the variants of `serde_json::Value` apart, copying out the text of a
/// string and the value of a boolean.
#[verifier::external_body]
pub(crate) fn json_kind(v: &serde_json::Value) -> (res: JsonKind)
    ensures
        res@ == json_kind_of(*v),
{
    match v {
        serde_json::Value::Null => JsonKind::Null,
        serde_json::Value::Bool(b) => JsonKind::Bool(*b),
        serde_json::Value::Number(_) => JsonKind::Number,
        serde_json::Value::String(s) => JsonKind::Str(s.clone()),
        serde_json::Value::Array(_) => JsonKind::Array,
        serde_json::Value::Object(_) => JsonKind::Object,
    }
}

/// `Value`'s `Display`: the compact JSON text of the value.
#[verifier::external_body]
pub(crate) fn json_text(v: &serde_json::Value) -> (res: String)
    ensures
        res@ == json_text_of(*v),
{
    v.to_string()
}

/// `Clone` of `serde_json::Value`: an equal value.
#[verifier::external_body]
pub(crate) fn json_clone(v: &serde_json::Value) -> (res: serde_json::Value)
    ensures
        res == *v,
{
    v.clone()
}

/// `Value::Object(Map::new())`: an object without members.
#[verifier::external_body]
pub(crate) fn json_empty_object() -> (res: serde_json::Value)
    ensures
        json_kind_of(res) is Object,
        forall|k: Seq<char>| #[trigger] json_member_of(res, k) is None,
{
    serde_json::Value::Object(serde_json::Map::new())
}

/// `Map::insert` on the map of an object: afterwards the member `key` is
/// `val`, and every other member is as it was.
#[verifier::external_body]
pub(crate) fn json_insert(obj: &mut serde_json::Value, key: &str, val: serde_json::Value)
    requires
        json_kind_of(*old(obj)) is Object,
    ensures
        json_kind_of(*final(obj)) is Object,
        json_member_of(*final(obj), key@) == Some(val),
        forall|k: Seq<char>|
            k != key@ ==> #[trigger] json_member_of(*final(obj), k) == json_member_of(*old(obj), k),
{
    match obj {
        serde_json::Value::Object(m) => {
            m.insert(key.to_string(), val);
        },
        _ => {},
    }
}

/// `Value::String`: the JSON string with the text `s`.
#[verifier::external_body]
pub(crate) fn json_string(s: String) -> (res: serde_json::Value)
    ensures
        json_kind_of(res) == JsonShape::Str(s@),
{
    serde_json::Value::String(s)
}

/// `Value::from(i64)`: a JSON number, written as the decimal of `i`.
#[verifier::external_body]
pub(crate) fn json_int(i: i64) -> (res: serde_json::Value)
    ensures
        json_kind_of(res) is Number,
        json_text_of(res) == int_decimal(i as int),
{
    serde_json::Value::from(i)
}

/// `Value::Bool`: the JSON boolean `b`.
#[verifier::external_body]
pub(crate) fn json_bool(b: bool) -> (res: serde_json::Value)
    ensures
        json_kind_of(res) == JsonShape::Bool(b),
{
    serde_json::Value::Bool(b)
}

/// The text of the string member `key` of `v`, if `v` is an object with
/// such a member holding a string (`v.get(key).and_then(Value::as_str)`).
pub open spec fn json_str_member(v: serde_json::Value, key: Seq<char>) -> Option<Seq<char>> {
    match json_member_of(v, key) {
        Some(m) => match json_kind_of(m) {
            JsonShape::Str(s) => Some(s),
            _ => None,
        },
        None => None,
    }
}

/// `v.get(key).and_then(Value::as_str)`, owned.
pub fn str_member(v: &serde_json::Value, key: &str) -> (res: Option<String>)
    ensures
        res.deep_view() == json_str_member(*v, key@),
{
    match json_member(v, key) {
        Some(m) => match json_kind(&m) {
            JsonKind::Str(s) => Some(s),
            _ => None,
        },
        None => None,
    }
}

} // verus!
