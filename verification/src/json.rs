//! The JSON values that travel through the dispatcher.
//!
//! A `serde_json::Value` is opaque to the verifier. Its contents are named by
//! [`json_data`], and every function of `serde_json` that the dispatcher calls
//! is declared here with what it does to those contents. None of these
//! declarations is proved: each states what the function's source shows.

use vstd::prelude::*;

verus! {

/// `serde_json::Value`, carried through without a look inside.
#[verifier::external_type_specification]
#[verifier::external_body]
pub struct ExJsonValue(serde_json::Value);

/// `serde_json::Map`, the members of a JSON object while it is built.
#[verifier::external_type_specification]
#[verifier::external_body]
#[verifier::reject_recursive_types(K)]
#[verifier::reject_recursive_types(V)]
pub struct ExJsonMap<K, V>(serde_json::Map<K, V>);

/// `serde_json::Error`, which the JSON writer may return.
#[verifier::external_type_specification]
#[verifier::external_body]
pub struct ExJsonError(serde_json::Error);

/// What a JSON number holds.
pub enum JsonNumber {
    /// An integer from 0 to 2^64 - 1.
    Unsigned(u64),
    /// An integer below 0.
    Negative(i64),
    /// Any other finite number, by the bits of its 64-bit representation.
    Real(u64),
}

/// The mathematical content of a JSON value.
pub enum JsonData {
    Null,
    Bool(bool),
    Number(JsonNumber),
    String(Seq<char>),
    Array(Seq<JsonData>),
    Object(Map<Seq<char>, JsonData>),
}

impl JsonData {
    /// The member `key` of an object; nothing for a member that is absent
    /// and for a value that is no object.
    pub open spec fn member(self, key: Seq<char>) -> Option<JsonData> {
        match self {
            JsonData::Object(members) => if members.contains_key(key) {
                Some(members[key])
            } else {
                None
            },
            _ => None,
        }
    }

    /// The text of a JSON string; nothing for any other value.
    pub open spec fn text(self) -> Option<Seq<char>> {
        match self {
            JsonData::String(s) => Some(s),
            _ => None,
        }
    }

    /// The value of a JSON number that is an integer from 0 to 2^64 - 1;
    /// nothing for any other value.
    pub open spec fn unsigned(self) -> Option<u64> {
        match self {
            JsonData::Number(JsonNumber::Unsigned(n)) => Some(n),
            _ => None,
        }
    }
}

/// The content of a `serde_json::Value`.
pub uninterp spec fn json_data(v: serde_json::Value) -> JsonData;

/// The members of a `serde_json::Map`, by key.
pub uninterp spec fn json_members(m: serde_json::Map<String, serde_json::Value>) -> Map<
    Seq<char>,
    JsonData,
>;

/// What `serde_json::to_vec` returns for a value of that content: the
/// compact JSON text as UTF-8 bytes, or nothing where the writer gives up.
/// The writer walks the value and reads nothing else, and it writes the
/// members of an object in the order of their keys, so what it returns
/// depends on the content alone.
pub uninterp spec fn json_text(data: JsonData) -> Option<Seq<u8>>;

/// `serde_json::Value::get` with a string key: the member of that name when
/// the value is an object that has one, otherwise nothing.
#[verifier::external_body]
pub(crate) fn json_get<'a>(v: &'a serde_json::Value, key: &str) -> (r: Option<
    &'a serde_json::Value,
>)
    ensures
        match r {
            Some(m) => json_data(*v).member(key@) == Some(json_data(*m)),
            None => json_data(*v).member(key@) is None,
        },
{
    v.get(key)
}

/// `serde_json::Value::as_str`: the text of a JSON string, nothing for any
/// other value.
#[verifier::external_body]
pub(crate) fn json_as_str<'a>(v: &'a serde_json::Value) -> (r: Option<&'a str>)
    ensures
        match r {
            Some(s) => json_data(*v).text() == Some(s@),
            None => json_data(*v).text() is None,
        },
{
    v.as_str()
}

/// `serde_json::Value::as_u64`: the value of a number that is an integer from
/// 0 to 2^64 - 1, nothing for any other value.
#[verifier::external_body]
pub(crate) fn json_as_u64(v: &serde_json::Value) -> (r: Option<u64>)
    ensures
        r == json_data(*v).unsigned(),
{
    v.as_u64()
}

/// `serde_json::Value::is_null`: whether the value is the JSON null.
#[verifier::external_body]
pub(crate) fn json_is_null(v: &serde_json::Value) -> (r: bool)
    ensures
        r == (json_data(*v) is Null),
{
    v.is_null()
}

/// `Clone::clone` of a `serde_json::Value`: a value with the same content.
#[verifier::external_body]
pub(crate) fn json_clone(v: &serde_json::Value) -> (r: serde_json::Value)
    ensures
        json_data(r) == json_data(*v),
{
    v.clone()
}

/// `serde_json::Value::default`: the JSON null.
#[verifier::external_body]
pub(crate) fn json_null() -> (r: serde_json::Value)
    ensures
        json_data(r) == JsonData::Null,
{
    serde_json::Value::default()
}

/// `serde_json::Value::from` on a `u64`: the JSON number of that value.
#[verifier::external_body]
pub(crate) fn json_from_u64(n: u64) -> (r: serde_json::Value)
    ensures
        json_data(r) == JsonData::Number(JsonNumber::Unsigned(n)),
{
    serde_json::Value::from(n)
}

/// `serde_json::Value::from` on a string slice: the JSON string of that
/// text.
#[verifier::external_body]
pub(crate) fn json_from_str(s: &str) -> (r: serde_json::Value)
    ensures
        json_data(r) == JsonData::String(s@),
{
    serde_json::Value::from(s)
}

/// `serde_json::Map::new`: a map without members.
#[verifier::external_body]
pub(crate) fn json_map_new() -> (r: serde_json::Map<String, serde_json::Value>)
    ensures
        (json_members(r) == Map::<Seq<char>, JsonData>::empty()),
{
    serde_json::Map::new()
}

/// `serde_json::Map::insert`: the member `key` becomes `value`, whether or
/// not the map had one of that name; all other members stay.
#[verifier::external_body]
pub(crate) fn json_map_insert(
    m: &mut serde_json::Map<String, serde_json::Value>,
    key: &str,
    value: serde_json::Value,
)
    ensures
        json_members(*final(m)) == json_members(*old(m)).insert(key@, json_data(value)),
{
    m.insert(key.to_owned(), value);
}

/// `serde_json::Value::from` on a `serde_json::Map`: the JSON object with
/// the members of the map.
#[verifier::external_body]
pub(crate) fn json_from_map(m: serde_json::Map<String, serde_json::Value>) -> (r:
    serde_json::Value)
    ensures
        json_data(r) == JsonData::Object(json_members(m)),
{
    serde_json::Value::from(m)
}

/// `serde_json::to_vec` on a `serde_json::Value`: the compact JSON text of
/// the value, or the writer's error. Which of the two it is, and what the
/// text is, goes by the content of the value; on which contents the writer
/// gives up is not claimed.
#[verifier::external_body]
pub(crate) fn json_to_vec(v: &serde_json::Value) -> (r: Result<Vec<u8>, serde_json::Error>)
    ensures
        match r {
            Ok(bytes) => json_text(json_data(*v)) == Some(bytes@),
            Err(_) => json_text(json_data(*v)) is None,
        },
{
    serde_json::to_vec(v)
}

} // verus!
