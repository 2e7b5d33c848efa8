//! JSON values of `serde_json`, with a mathematical model of what each holds.

use vstd::prelude::*;
use vstd::utf8::*;

verus! {

/// What a JSON value is. `Float` carries the bits of the number.
pub enum Json {
    Null,
    Bool(bool),
    Int(int),
    Float(u64),
    Text(Seq<char>),
    List(Seq<Json>),
    Object(Map<Seq<char>, Json>),
}

#[verifier::external_type_specification]
#[verifier::external_body]
pub struct ExValue(serde_json::Value);

#[verifier::external_type_specification]
#[verifier::external_body]
#[verifier::reject_recursive_types(K)]
#[verifier::reject_recursive_types(V)]
pub struct ExJsonMap<K, V>(serde_json::Map<K, V>);

#[verifier::external_type_specification]
#[verifier::external_body]
pub struct ExJsonError(serde_json::Error);

/// What a `serde_json::Value` holds.
pub uninterp spec fn json_of(value: serde_json::Value) -> Json;

/// What a `serde_json::Map` holds: the model of each member under its key.
pub uninterp spec fn members_of(object: serde_json::Map<String, serde_json::Value>) -> Map<
    Seq<char>,
    Json,
>;

/// What `serde_json::from_str` reads in a text; `None` where it reports an error.
pub uninterp spec fn json_read(text: Seq<char>) -> Option<Json>;

/// The text that `serde_json::to_string` writes for a value.
pub uninterp spec fn json_written(value: Json) -> Seq<char>;

/// `serde_json::from_str` into a `Value`. Claimed: whether the text is read, and
/// what the value then holds, depends on the text alone.
#[verifier::external_body]
pub(crate) fn read_json(text: &str) -> (r: Result<serde_json::Value, serde_json::Error>)
    ensures
        r is Ok == json_read(text@) is Some,
        r is Ok ==> json_of(r->Ok_0) == json_read(text@)->0,
{
    serde_json::from_str(text)
}

/// The member of an object under a key: `None` for any other kind of value, and
/// for an object without the key.
pub open spec fn member(value: Json, key: Seq<char>) -> Option<Json> {
    match value {
        Json::Object(members) => if members.contains_key(key) {
            Some(members[key])
        } else {
            None
        },
        _ => None,
    }
}

/// `Value::get` with a text key: the member of an object under that key.
#[verifier::external_body]
pub(crate) fn get_member<'a>(value: &'a serde_json::Value, key: &str) -> (r: Option<
    &'a serde_json::Value,
>)
    ensures
        r is Some == member(json_of(*value), key@) is Some,
        r is Some ==> json_of(*r->0) == member(json_of(*value), key@)->0,
{
    value.get(key)
}

/// The text of a text value; `None` for any other kind.
pub open spec fn text_in(value: Json) -> Option<Seq<char>> {
    match value {
        Json::Text(s) => Some(s),
        _ => None,
    }
}

/// `Value::as_str`: the text of a text value, `None` for any other kind.
#[verifier::external_body]
pub(crate) fn as_text(value: &serde_json::Value) -> (r: Option<&str>)
    ensures
        r is Some == text_in(json_of(*value)) is Some,
        r is Some ==> (r->0)@ == text_in(json_of(*value))->0,
{
    value.as_str()
}

/// The variant `Value::String`: a text value.
#[verifier::external_body]
pub(crate) fn text_value(s: &str) -> (r: serde_json::Value)
    ensures
        json_of(r) == Json::Text(s@),
{
    serde_json::Value::String(s.to_owned())
}

/// `Value::from` of a 32-bit number: an integer value.
#[verifier::external_body]
pub(crate) fn int_value(n: i32) -> (r: serde_json::Value)
    ensures
        json_of(r) == Json::Int(n as int),
{
    serde_json::Value::from(n)
}

/// The variant `Value::Bool`: a truth value.
#[verifier::external_body]
pub(crate) fn bool_value(b: bool) -> (r: serde_json::Value)
    ensures
        json_of(r) == Json::Bool(b),
{
    serde_json::Value::Bool(b)
}

/// The variant `Value::Array`: the values as a list, in order.
#[verifier::external_body]
pub(crate) fn list_value(items: Vec<serde_json::Value>) -> (r: serde_json::Value)
    ensures
        json_of(r) == Json::List(items@.map_values(|v: serde_json::Value| json_of(v))),
{
    serde_json::Value::Array(items)
}

/// `serde_json::Map::new`: an object without members.
#[verifier::external_body]
pub(crate) fn no_members() -> (r: serde_json::Map<String, serde_json::Value>)
    ensures
        members_of(r) =~= Map::empty(),
{
    serde_json::Map::new()
}

/// `serde_json::Map::insert`: the member under `key` is now `value`, and every
/// other member is as before.
#[verifier::external_body]
pub(crate) fn insert_member(
    object: &mut serde_json::Map<String, serde_json::Value>,
    key: &str,
    value: serde_json::Value,
)
    ensures
        members_of(*final(object)) == members_of(*old(object)).insert(key@, json_of(value)),
{
    object.insert(key.to_owned(), value);
}

/// The variant `Value::Object`: an object with these members.
#[verifier::external_body]
pub(crate) fn object_value(object: serde_json::Map<String, serde_json::Value>) -> (r:
    serde_json::Value)
    ensures
        json_of(r) == Json::Object(members_of(object)),
{
    serde_json::Value::Object(object)
}

/// `serde_json::to_string` of a `Value`, which always succeeds: its keys are
/// texts and it writes to memory. Claimed: the text depends on what the value
/// holds alone (members are kept and written in the order of their keys).
#[verifier::external_body]
pub(crate) fn write_json(value: &serde_json::Value) -> (r: String)
    ensures
        r@ == json_written(json_of(*value)),
{
    serde_json::to_string(value).expect("a JSON value can be written")
}

/// `serde_json::to_vec` of a `Value`: the bytes, in UTF-8, of the text that
/// `serde_json::to_string` writes (which is made from these bytes).
#[verifier::external_body]
pub(crate) fn write_json_bytes(value: &serde_json::Value) -> (r: Vec<u8>)
    ensures
        r@ == encode_utf8(json_written(json_of(*value))),
{
    serde_json::to_vec(value).expect("a JSON value can be written")
}

} // verus!
