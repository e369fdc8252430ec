//! JSON objects, built and written by `serde_json`.
//!
//! What this module says of `serde_json` is taken from its sources and not proved.

use vstd::prelude::*;

verus! {

/// `serde_json::Value`, an arbitrary JSON value. It is only carried, never looked
/// into.
#[verifier::external_type_specification]
#[verifier::external_body]
pub struct ExValue(serde_json::Value);

/// `serde_json::Map`, the members of a JSON object.
#[verifier::external_type_specification]
#[verifier::external_body]
#[verifier::reject_recursive_types(K)]
#[verifier::reject_recursive_types(V)]
pub struct ExMap<K, V>(serde_json::Map<K, V>);

/// What an object holds: for each of its keys, the compact JSON text of the value.
pub uninterp spec fn members(
    object: serde_json::Map<String, serde_json::Value>,
) -> Map<Seq<char>, Seq<char>>;

/// No members at all.
pub open spec fn no_members() -> Map<Seq<char>, Seq<char>> {
    Map::empty()
}

/// The compact JSON text of a string.
pub uninterp spec fn string_json(text: Seq<char>) -> Seq<char>;

/// The compact JSON texts of strings, with commas between them.
pub open spec fn joined_json(texts: Seq<Seq<char>>) -> Seq<char>
    decreases texts.len(),
{
    if texts.len() == 0 {
        Seq::empty()
    } else if texts.len() == 1 {
        string_json(texts[0])
    } else {
        joined_json(texts.drop_last()) + ","@ + string_json(texts.last())
    }
}

/// The compact JSON text of an array of strings.
pub open spec fn array_json(texts: Seq<Seq<char>>) -> Seq<char> {
    "["@ + joined_json(texts) + "]"@
}

/// The compact JSON text of an object with the given members.
pub uninterp spec fn object_json(members: Map<Seq<char>, Seq<char>>) -> Seq<char>;

/// Calls `serde_json::Map::new`: the object has no members.
#[verifier::external_body]
pub(crate) fn new_object() -> (object: serde_json::Map<String, serde_json::Value>)
    ensures
        members(object) == no_members(),
{
    serde_json::Map::new()
}

/// Calls `serde_json::Map::insert` with a string as the value: the key is bound to
/// it, in place of what it was bound to before, and every other key is as it was.
#[verifier::external_body]
pub(crate) fn put_string(
    object: &mut serde_json::Map<String, serde_json::Value>,
    key: &str,
    text: &str,
)
    ensures
        members(*final(object)) == members(*old(object)).insert(key@, string_json(text@)),
{
    object.insert(key.to_owned(), serde_json::Value::from(text));
}

/// Calls `serde_json::Map::insert` with an array of strings as the value: the key
/// is bound to it, and every other key is as it was. The array is written as its
/// strings in square brackets, with commas between them.
#[verifier::external_body]
pub(crate) fn put_array(
    object: &mut serde_json::Map<String, serde_json::Value>,
    key: &str,
    texts: Vec<String>,
)
    ensures
        members(*final(object)) == members(*old(object)).insert(
            key@,
            array_json(texts.deep_view()),
        ),
{
    object.insert(key.to_owned(), serde_json::Value::from(texts));
}

/// Calls `serde_json::Map::insert` with an object as the value: the key is bound to
/// it, and every other key is as it was.
#[verifier::external_body]
pub(crate) fn put_object(
    object: &mut serde_json::Map<String, serde_json::Value>,
    key: &str,
    inner: serde_json::Map<String, serde_json::Value>,
)
    ensures
        members(*final(object)) == members(*old(object)).insert(
            key@,
            object_json(members(inner)),
        ),
{
    object.insert(key.to_owned(), serde_json::Value::Object(inner));
}

/// Writes an object with the `Display` of `serde_json::Value`. The text depends on
/// the members alone, whose keys it lists in their order; it is the same text that
/// the object has as a member of another.
#[verifier::external_body]
pub(crate) fn write_object(object: serde_json::Map<String, serde_json::Value>) -> (text: String)
    ensures
        text@ == object_json(members(object)),
{
    serde_json::Value::Object(object).to_string()
}

} // verus!
