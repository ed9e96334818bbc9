//! JSON values. The values themselves are those of `serde_json`; the
//! contracts of this crate speak of them through a mathematical model,
//! [`Json`]. What is stated here of `serde_json` is assumed, not proved.

use serde_json::Value;
use vstd::prelude::*;

verus! {

/// A JSON document as a mathematical value.
pub enum Json {
    Null,
    Bool(bool),
    /// A number written without fraction and exponent.
    Integer(int),
    /// Any other number, by the bit pattern of the double that holds it.
    Real(int),
    Str(Seq<char>),
    Array(Seq<Json>),
    /// An object: at most one value for a key, and no order among the keys.
    Object(Map<Seq<char>, Json>),
}

impl Json {
    /// The member `key` of an object. `Null` where the object has no such
    /// member, and where `self` is no object.
    pub open spec fn member(self, key: Seq<char>) -> Json {
        match self {
            Json::Object(members) if members.contains_key(key) => members[key],
            _ => Json::Null,
        }
    }

    /// The characters of a string; no characters where `self` is no string.
    pub open spec fn text(self) -> Seq<char> {
        match self {
            Json::Str(s) => s,
            _ => Seq::empty(),
        }
    }

    /// The items of an array; `None` where `self` is no array.
    pub open spec fn items(self) -> Option<Seq<Json>> {
        match self {
            Json::Array(items) => Some(items),
            _ => None,
        }
    }
}

/// `serde_json::Value`, opaque to the verifier.
#[verifier::external_type_specification]
#[verifier::external_body]
pub struct ExValue(serde_json::Value);

/// `serde_json::Map`, the members of a JSON object, opaque to the verifier.
#[verifier::external_type_specification]
#[verifier::external_body]
#[verifier::reject_recursive_types(K)]
#[verifier::reject_recursive_types(V)]
pub struct ExObject<K, V>(serde_json::Map<K, V>);

/// `serde_json::Error`, opaque to the verifier.
#[verifier::external_type_specification]
#[verifier::external_body]
pub struct ExParseError(serde_json::Error);

/// The document that a `serde_json::Value` holds.
pub uninterp spec fn json_model(value: serde_json::Value) -> Json;

/// The members that a `serde_json::Map` holds, by key.
pub uninterp spec fn json_members(object: serde_json::Map<String, serde_json::Value>) -> Map<
    Seq<char>,
    Json,
>;

/// The document that `serde_json::from_str` reads from a text; `None` where
/// it reports an error.
pub uninterp spec fn json_parse(text: Seq<char>) -> Option<Json>;

/// The text that `serde_json` writes for a document, in its compact form.
pub uninterp spec fn json_text(json: Json) -> Seq<char>;

/// The documents that the values of a sequence hold, in order.
pub open spec fn json_models(values: Seq<Value>) -> Seq<Json> {
    values.map_values(|value: Value| json_model(value))
}

/// The document of an optional value.
pub open spec fn json_option(value: Option<Value>) -> Option<Json> {
    match value {
        Some(value) => Some(json_model(value)),
        None => None,
    }
}

/// `serde_json::from_str` at the type `Value`. Assumed: whether it succeeds
/// and what the value holds depend on the text alone, as `json_parse` names
/// it.
#[verifier::external_body]
pub(crate) fn parse_json(text: &str) -> (res: Result<Value, serde_json::Error>)
    ensures
        match res {
            Ok(value) => json_parse(text@) == Some(json_model(value)),
            Err(_) => json_parse(text@) is None,
        },
{
    serde_json::from_str::<Value>(text)
}

/// `to_string` of a `Value`, which goes through its `Display`. Assumed: the
/// text depends on the document alone, as `json_text` names it. This holds
/// while `serde_json` is built without `preserve_order`, so that the members
/// of an object are written by ascending key.
#[verifier::external_body]
pub(crate) fn json_to_string(value: &Value) -> (res: String)
    ensures
        res@ == json_text(json_model(*value)),
{
    value.to_string()
}

/// Indexing a `Value` by a string, `value[key]`. Assumed: it yields the
/// member of that name where `value` is an object that has one, and a null
/// otherwise.
#[verifier::external_body]
pub(crate) fn json_member<'a>(value: &'a Value, key: &str) -> (res: &'a Value)
    ensures
        json_model(*res) == json_model(*value).member(key@),
{
    &value[key]
}

/// `Value::as_str`. Assumed: `Some` with the characters of a string, `None`
/// for every other value.
pub assume_specification[ serde_json::Value::as_str ](value: &Value) -> (res: Option<&str>)
    ensures
        match res {
            Some(s) => json_model(*value) == Json::Str(s@),
            None => !(json_model(*value) is Str),
        },
;

/// `Value::as_array`. Assumed: `Some` with the items of an array, `None` for
/// every other value.
pub assume_specification[ serde_json::Value::as_array ](value: &Value) -> (res: Option<&Vec<Value>>)
    ensures
        match res {
            Some(items) => json_model(*value) == Json::Array(json_models(items@)),
            None => !(json_model(*value) is Array),
        },
;

/// `clone` of a `Value`. Assumed: the copy holds the same document.
pub assume_specification[ <serde_json::Value as Clone>::clone ](value: &Value) -> (res: Value)
    ensures
        json_model(res) == json_model(*value),
;

/// The variant `Value::Null`.
#[verifier::external_body]
pub(crate) fn json_null() -> (res: Value)
    ensures
        json_model(res) == Json::Null,
{
    Value::Null
}

/// The variant `Value::String`.
#[verifier::external_body]
pub(crate) fn json_string(text: String) -> (res: Value)
    ensures
        json_model(res) == Json::Str(text@),
{
    Value::String(text)
}

/// `Value::from` at `u32`. Assumed: the value is the number `n`, held as an
/// integer.
#[verifier::external_body]
pub(crate) fn json_number(n: u32) -> (res: Value)
    ensures
        json_model(res) == Json::Integer(n as int),
{
    Value::from(n)
}

/// The variant `Value::Array`.
#[verifier::external_body]
pub(crate) fn json_array(items: Vec<Value>) -> (res: Value)
    ensures
        json_model(res) == Json::Array(json_models(items@)),
{
    Value::Array(items)
}

/// The variant `Value::Object`.
#[verifier::external_body]
pub(crate) fn json_object(members: serde_json::Map<String, Value>) -> (res: Value)
    ensures
        json_model(res) == Json::Object(json_members(members)),
{
    Value::Object(members)
}

/// `Map::new`. Assumed: the new map has no members.
pub assume_specification[ serde_json::Map::<String, Value>::new ]() -> (res: serde_json::Map<String, Value>)
    ensures
        (json_members(res) == Map::<Seq<char>, Json>::empty()),
;

/// `Map::insert`. Assumed: afterwards the key has the new value and every
/// other key what it had; the value that the key had before is returned.
pub assume_specification[ serde_json::Map::<String, Value>::insert ](
    object: &mut serde_json::Map<String, Value>,
    k: String,
    v: Value,
) -> (res: Option<Value>)
    ensures
        json_members(*final(object)) == json_members(*old(object)).insert(k@, json_model(v)),
        match res {
            Some(previous) => json_members(*old(object)).contains_key(k@) && json_model(previous)
                == json_members(*old(object))[k@],
            None => !json_members(*old(object)).contains_key(k@),
        },
;

/// The member `key` of `value` as a string: empty where there is no such
/// member or it is no string.
pub fn text_member(value: &Value, key: &str) -> (res: String)
    ensures
        res@ == json_model(*value).member(key@).text(),
{
    match json_member(value, key).as_str() {
        Some(text) => text.to_owned(),
        None => String::new(),
    }
}

/// The number `n` as a value, and a null for `None`.
pub fn optional_number(n: Option<u32>) -> (res: Value)
    ensures
        json_model(res) == (match n {
            Some(n) => Json::Integer(n as int),
            None => Json::Null,
        }),
{
    match n {
        Some(n) => json_number(n),
        None => json_null(),
    }
}

} // verus!
