use vstd::prelude::*;
use crate::text::text_of;

verus! {

/// A JSON value of `serde_json`, carried through the library unread.
#[verifier::external_type_specification]
#[verifier::external_body]
pub struct ExJsonValue(serde_json::Value);

/// An error of `serde_json`.
#[verifier::external_type_specification]
#[verifier::external_body]
pub struct ExJsonError(serde_json::Error);

/// What `serde_json` reads from the bytes `bytes` as the string member named
/// `name` of a JSON object: `None` when the bytes are not one JSON text;
/// `Some(None)` when they are, but hold no such string member.
pub uninterp spec fn json_text_member(bytes: Seq<u8>, name: Seq<char>) -> Option<Option<Seq<char>>>;

/// Parses `bytes` with `serde_json::from_slice` into a `serde_json::Value`
/// and reads its member `name` with `Value::get` and `Value::as_str`.
/// Claimed: the outcome depends on the arguments alone, and is named
/// `json_text_member`.
#[verifier::external_body]
pub(crate) fn read_text_member(bytes: &[u8], name: &str) -> (r: Result<Option<String>, serde_json::Error>)
    ensures
        match r {
            Ok(text) => json_text_member(bytes@, name@) == Some(text_of(text)),
            Err(_) => json_text_member(bytes@, name@) is None,
        },
{
    let value = serde_json::from_slice::<serde_json::Value>(bytes)?;
    Ok(value.get(name).and_then(serde_json::Value::as_str).map(String::from))
}

/// What `serde_json` reads from the bytes `bytes` as the unsigned integer
/// member named `name` of a JSON object: `None` when the bytes are not one
/// JSON text; `Some(None)` when they are, but hold no such member that is a
/// non-negative integer of 64 bits.
pub uninterp spec fn json_u64_member(bytes: Seq<u8>, name: Seq<char>) -> Option<Option<u64>>;

/// Parses `bytes` with `serde_json::from_slice` into a `serde_json::Value`
/// and reads its member `name` with `Value::get` and `Value::as_u64`.
/// Claimed: the outcome depends on the arguments alone, and is named
/// `json_u64_member`.
#[verifier::external_body]
pub(crate) fn read_u64_member(bytes: &[u8], name: &str) -> (r: Option<Option<u64>>)
    ensures
        r == json_u64_member(bytes@, name@),
{
    let value = serde_json::from_slice::<serde_json::Value>(bytes).ok()?;
    Some(value.get(name).and_then(serde_json::Value::as_u64))
}

/// The members of an object as plain values: names with numbers or null,
/// and names with strings or null.
pub open spec fn number_members(v: Seq<(String, Option<u64>)>) -> Seq<(Seq<char>, Option<u64>)> {
    v.map_values(|m: (String, Option<u64>)| (m.0@, m.1))
}

/// The members of an object that hold strings or null, as plain values.
pub open spec fn text_members(v: Seq<(String, Option<String>)>) -> Seq<(Seq<char>, Option<Seq<char>>)> {
    v.map_values(|m: (String, Option<String>)| (m.0@, text_of(m.1)))
}

/// The bytes `serde_json::to_vec` writes for the JSON object with the
/// members `numbers` (a number, or null for `None`) and then `texts` (a
/// string, or null); `None` when it reports an error.
pub uninterp spec fn json_object(
    numbers: Seq<(Seq<char>, Option<u64>)>,
    texts: Seq<(Seq<char>, Option<Seq<char>>)>,
) -> Option<Seq<u8>>;

/// Inserts the members into a `serde_json::Map`, each value made with
/// `serde_json::Value::from`, and writes the object with
/// `serde_json::to_vec`. Claimed: the outcome depends on the members alone,
/// and is named `json_object`.
#[verifier::external_body]
pub(crate) fn write_object(numbers: Vec<(String, Option<u64>)>, texts: Vec<(String, Option<String>)>) -> (r:
    Option<Vec<u8>>)
    ensures
        json_object(number_members(numbers@), text_members(texts@)) == (match r {
            Some(b) => Some(b@),
            None => None,
        }),
{
    let mut object = serde_json::Map::new();
    object.extend(numbers.into_iter().map(|(k, v)| (k, serde_json::Value::from(v))));
    object.extend(texts.into_iter().map(|(k, v)| (k, serde_json::Value::from(v))));
    serde_json::to_vec(&serde_json::Value::Object(object)).ok()
}

/// The bytes `serde_json::to_vec_pretty` writes for the JSON object with
/// the members `numbers` and then `texts`, as `json_object` describes them;
/// `None` when it reports an error.
pub uninterp spec fn json_pretty_object(
    numbers: Seq<(Seq<char>, Option<u64>)>,
    texts: Seq<(Seq<char>, Option<Seq<char>>)>,
) -> Option<Seq<u8>>;

/// Inserts the members into a `serde_json::Map`, each value made with
/// `serde_json::Value::from`, and writes the object with
/// `serde_json::to_vec_pretty`. Claimed: the outcome depends on the members
/// alone, and is named `json_pretty_object`.
#[verifier::external_body]
pub(crate) fn write_pretty_object(
    numbers: Vec<(String, Option<u64>)>,
    texts: Vec<(String, Option<String>)>,
) -> (r: Option<Vec<u8>>)
    ensures
        json_pretty_object(number_members(numbers@), text_members(texts@)) == (match r {
            Some(b) => Some(b@),
            None => None,
        }),
{
    let mut object = serde_json::Map::new();
    object.extend(numbers.into_iter().map(|(k, v)| (k, serde_json::Value::from(v))));
    object.extend(texts.into_iter().map(|(k, v)| (k, serde_json::Value::from(v))));
    serde_json::to_vec_pretty(&serde_json::Value::Object(object)).ok()
}

} // verus!
