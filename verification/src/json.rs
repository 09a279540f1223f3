//! JSON values, as `serde_json` builds, writes and reads them.
use serde_json::Value;
use vstd::prelude::*;

verus! {

/// What a `serde_json::Value` stands for.
pub enum Json {
    Null,
    Bool(bool),
    /// A number that `serde_json` keeps as an integer.
    Int(int),
    /// Any other number, by the text that `serde_json` writes for it.
    Decimal(Seq<char>),
    Text(Seq<char>),
    Array(Seq<Json>),
    Object(Map<Seq<char>, Json>),
}

/// The object without members.
pub open spec fn no_fields() -> Map<Seq<char>, Json> {
    Map::empty()
}

/// A value without decimals, in which arrays and objects are nested at most
/// `depth` deep.
pub open spec fn is_plain(json: Json, depth: nat) -> bool
    decreases depth,
{
    match json {
        Json::Decimal(_) => false,
        Json::Array(items) => depth > 0 && forall|i: int|
            0 <= i < items.len() ==> is_plain(#[trigger] items[i], (depth - 1) as nat),
        Json::Object(fields) => depth > 0 && forall|key: Seq<char>|
            fields.contains_key(key) ==> is_plain(#[trigger] fields[key], (depth - 1) as nat),
        _ => true,
    }
}

/// `serde_json::Value`.
#[verifier::external_type_specification]
#[verifier::external_body]
pub struct ExValue(serde_json::Value);

/// `serde_json::Map`, the members of an object by their keys.
#[verifier::external_type_specification]
#[verifier::external_body]
#[verifier::reject_recursive_types(K)]
#[verifier::reject_recursive_types(V)]
pub struct ExObject<K, V>(serde_json::Map<K, V>);

/// The JSON value that a `serde_json::Value` holds.
pub uninterp spec fn value_json(value: serde_json::Value) -> Json;

/// The members that a `serde_json::Map` holds.
pub uninterp spec fn object_fields(
    object: serde_json::Map<String, serde_json::Value>,
) -> Map<Seq<char>, Json>;

/// The compact text that `serde_json` writes for a value. Members stand in the
/// order of their keys, so that the text depends on the value alone.
pub uninterp spec fn json_text(value: Json) -> Seq<char>;

/// What `serde_json::from_str` makes of a text: the value that it holds, or the
/// message of the error.
pub uninterp spec fn json_parsed(text: Seq<char>) -> Result<Json, Seq<char>>;

/// The text holds this value.
pub open spec fn reads_as(text: Seq<char>, json: Json) -> bool {
    json_parsed(text) matches Ok(read) && read == json
}

/// What a value that was read, or the message in its place, stands for.
pub open spec fn outcome_json(outcome: Result<serde_json::Value, String>) -> Result<
    Json,
    Seq<char>,
> {
    match outcome {
        Ok(value) => Ok(value_json(value)),
        Err(message) => Err(message@),
    }
}

/// `serde_json::Map::new` makes an object without members.
pub assume_specification[ serde_json::Map::<String, serde_json::Value>::new ]() -> (object:
    serde_json::Map<String, serde_json::Value>)
    ensures
        object_fields(object) == no_fields(),
;

/// Calls `serde_json::Map::insert`: the member `key` becomes `value`, the
/// other members stay.
#[verifier::external_body]
pub(crate) fn insert(object: &mut serde_json::Map<String, Value>, key: &str, value: Value)
    ensures
        object_fields(*final(object)) == object_fields(*old(object)).insert(
            key@,
            value_json(value),
        ),
{
    object.insert(key.to_string(), value);
}

/// The variant `serde_json::Value::Object` holds the members of an object.
#[verifier::external_body]
pub(crate) fn object_value(object: serde_json::Map<String, Value>) -> (value: Value)
    ensures
        value_json(value) == Json::Object(object_fields(object)),
{
    Value::Object(object)
}

/// The variant `serde_json::Value::Null` is JSON's null.
#[verifier::external_body]
pub(crate) fn null_value() -> (value: Value)
    ensures
        value_json(value) == Json::Null,
{
    Value::Null
}

/// Calls `serde_json::Value::from` on a text, which becomes a JSON string.
#[verifier::external_body]
pub(crate) fn text_value(text: &str) -> (value: Value)
    ensures
        value_json(value) == Json::Text(text@),
{
    Value::from(text)
}

/// Calls `serde_json::Value::from` on an integer, which becomes a JSON number.
#[verifier::external_body]
pub(crate) fn number_value(number: u32) -> (value: Value)
    ensures
        value_json(value) == Json::Int(number as int),
{
    Value::from(number)
}

/// The depth of nesting up to which `serde_json` reads values.
pub const READABLE_DEPTH: u8 = 127;

/// Calls `to_string` on a `serde_json::Value`, which gives its compact text.
/// The text of the object without members is a pair of braces. From the text of
/// a value without decimals that is not nested too deep, `serde_json::from_str`
/// reads the same value; nothing of this kind is claimed of other values.
#[verifier::external_body]
pub(crate) fn write_json(value: &Value) -> (text: String)
    ensures
        text@ == json_text(value_json(*value)),
        value_json(*value) == Json::Object(no_fields()) ==> text@ == "{}"@,
        is_plain(value_json(*value), READABLE_DEPTH as nat) ==> reads_as(text@, value_json(*value)),
{
    value.to_string()
}

/// Calls `serde_json::from_str`: the value that the text holds, or what the
/// error displays.
#[verifier::external_body]
pub(crate) fn read_json(text: &str) -> (outcome: Result<Value, String>)
    ensures
        outcome_json(outcome) == json_parsed(text@),
{
    match serde_json::from_str(text) {
        Ok(value) => Ok(value),
        Err(e) => Err(e.to_string()),
    }
}

} // verus!
