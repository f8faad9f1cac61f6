//! JSON values, held in `serde_json::Value`, and what the library knows of
//! them.
use vstd::prelude::*;

use serde_json::Value;

verus! {

/// The map that a JSON object holds.
pub type JsonObject = serde_json::Map<String, Value>;

/// The fields of a JSON object, by key.
pub type JsonFields = Map<Seq<char>, Json>;

/// What a JSON value holds. A number stands as its decimal text.
pub enum Json {
    Null,
    Bool(bool),
    Number(Seq<char>),
    Str(Seq<char>),
    Array(Seq<Json>),
    Object(JsonFields),
}

/// serde_json's `Value`, held opaque; `json_model` says what it holds.
#[verifier::external_type_specification]
#[verifier::external_body]
pub struct ExValue(serde_json::Value);

/// serde_json's `Map`, held opaque; `json_entries` says what it holds.
#[verifier::external_type_specification]
#[verifier::external_body]
#[verifier::reject_recursive_types(K)]
#[verifier::reject_recursive_types(V)]
pub struct ExJsonMap<K, V>(serde_json::Map<K, V>);

/// serde_json's error, only passed through.
#[verifier::external_type_specification]
#[verifier::external_body]
pub struct ExJsonError(serde_json::Error);

/// What a `serde_json::Value` holds.
pub uninterp spec fn json_model(v: Value) -> Json;

/// The entries of a `serde_json::Map`, by key.
pub uninterp spec fn json_entries(m: JsonObject) -> JsonFields;

/// The compact JSON text that serde_json writes for a value.
pub uninterp spec fn json_text(j: Json) -> Seq<char>;

/// The value that serde_json reads from a text, if the text is JSON.
pub uninterp spec fn parsed_json(s: Seq<char>) -> Option<Json>;

/// The models of a sequence of values.
pub open spec fn json_models(vs: Seq<Value>) -> Seq<Json> {
    vs.map_values(|v: Value| json_model(v))
}

/// Relies on the variant `Value::Null`.
#[verifier::external_body]
pub(crate) fn json_null() -> (r: Value)
    ensures
        json_model(r) == Json::Null,
{
    Value::Null
}

/// Relies on the variant `Value::Bool`.
#[verifier::external_body]
pub(crate) fn json_bool(b: bool) -> (r: Value)
    ensures
        json_model(r) == Json::Bool(b),
{
    Value::Bool(b)
}

/// Relies on the variant `Value::String`.
#[verifier::external_body]
pub(crate) fn json_str(s: String) -> (r: Value)
    ensures
        json_model(r) == Json::Str(s@),
{
    Value::String(s)
}

/// Relies on the variant `Value::Array`: the elements, in order.
#[verifier::external_body]
pub(crate) fn json_array(items: Vec<Value>) -> (r: Value)
    ensures
        json_model(r) == Json::Array(json_models(items@)),
{
    Value::Array(items)
}

/// Relies on the variant `Value::Object`.
#[verifier::external_body]
pub(crate) fn json_object(m: JsonObject) -> (r: Value)
    ensures
        json_model(r) == Json::Object(json_entries(m)),
{
    Value::Object(m)
}

/// Relies on `serde_json::Map::new`: an empty map.
#[verifier::external_body]
pub(crate) fn json_map_new() -> (r: JsonObject)
    ensures
        json_entries(r) == JsonFields::empty(),
{
    serde_json::Map::new()
}

/// Relies on `serde_json::Map::insert`: the key now maps to the value.
#[verifier::external_body]
pub(crate) fn json_map_insert(m: &mut JsonObject, k: String, v: Value)
    ensures
        json_entries(*final(m)) == json_entries(*old(m)).insert(k@, json_model(v)),
{
    m.insert(k, v);
}

/// Relies on `Value::get` with a key: the field of an object, if it has one.
#[verifier::external_body]
pub(crate) fn json_field<'a>(v: &'a Value, key: &str) -> (r: Option<&'a Value>)
    ensures
        r is Some <==> (json_model(*v) is Object && json_model(*v)->Object_0.contains_key(key@)),
        r is Some ==> json_model(*r->Some_0) == json_model(*v)->Object_0[key@],
{
    v.get(key)
}

/// Relies on `Value::as_str`: the text of a string.
#[verifier::external_body]
pub(crate) fn json_as_str(v: &Value) -> (r: Option<&str>)
    ensures
        r is Some <==> json_model(*v) is Str,
        r is Some ==> r->Some_0@ == json_model(*v)->Str_0,
{
    v.as_str()
}

/// Relies on `Value::as_bool`: the value of a boolean.
#[verifier::external_body]
pub(crate) fn json_as_bool(v: &Value) -> (r: Option<bool>)
    ensures
        r is Some <==> json_model(*v) is Bool,
        r is Some ==> r->Some_0 == json_model(*v)->Bool_0,
{
    v.as_bool()
}

/// Relies on `Value::as_array`: the elements of an array.
#[verifier::external_body]
pub(crate) fn json_as_array(v: &Value) -> (r: Option<&Vec<Value>>)
    ensures
        r is Some <==> json_model(*v) is Array,
        r is Some ==> json_models(r->Some_0@) == json_model(*v)->Array_0,
{
    v.as_array()
}

/// Relies on `Value::is_object`.
#[verifier::external_body]
pub(crate) fn json_is_object(v: &Value) -> (r: bool)
    ensures
        r == (json_model(*v) is Object),
{
    v.is_object()
}

/// Relies on `Value::is_null`.
#[verifier::external_body]
pub(crate) fn json_is_null(v: &Value) -> (r: bool)
    ensures
        r == (json_model(*v) is Null),
{
    v.is_null()
}

/// Relies on `serde_json::from_str`: reads a JSON text.
#[verifier::external_body]
pub(crate) fn json_parse(s: &str) -> (r: Result<Value, serde_json::Error>)
    ensures
        r is Ok <==> parsed_json(s@) is Some,
        r is Ok ==> parsed_json(s@) == Some(json_model(r->Ok_0)),
{
    serde_json::from_str(s)
}

/// Relies on `Value`'s `Display`, which writes compact JSON text.
#[verifier::external_body]
pub(crate) fn json_to_text(v: &Value) -> (r: String)
    ensures
        r@ == json_text(json_model(*v)),
{
    v.to_string()
}

} // verus!
