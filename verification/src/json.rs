//! A JSON document model and the dependency checks made on `package.json`.

use vstd::prelude::*;
use crate::release::DPRINT_BINARY_NAME;
use crate::resolve::text_option;
use zed_extension_api::serde_json::{self, Value};

verus! {

#[verifier::external_type_specification]
#[verifier::external_body]
pub struct ExJsonText(Value);

/// A JSON value, as read from a worktree file.
///
/// Numbers keep their textual form; object members keep their order.
#[derive(Debug)]
pub enum JsonValue {
    Null,
    Bool(bool),
    Number(String),
    Text(String),
    Array(Vec<JsonValue>),
    Object(Vec<(String, JsonValue)>),
}

/// The value of the first member named `key` among `members`.
pub open spec fn member_value(members: Seq<(String, JsonValue)>, key: Seq<char>) -> Option<JsonValue>
    decreases members.len(),
{
    if members.len() == 0 {
        None
    } else if members[0].0@ == key {
        Some(members[0].1)
    } else {
        member_value(members.drop_first(), key)
    }
}

/// The member `key` of `json` when `json` is an object; nothing otherwise.
pub open spec fn get_spec(json: JsonValue, key: Seq<char>) -> Option<JsonValue> {
    match json {
        JsonValue::Object(members) => member_value(members@, key),
        _ => None,
    }
}

/// `json` has an object member `object_key` whose member `item_key` exists and is not null.
pub open spec fn has_non_null_key(json: JsonValue, object_key: Seq<char>, item_key: Seq<char>) -> bool {
    match get_spec(json, object_key) {
        Some(JsonValue::Object(members)) => match member_value(members@, item_key) {
            Some(value) => !(value is Null),
            None => false,
        },
        _ => false,
    }
}

/// A `package.json` document declares dprint as a regular or a development dependency.
pub open spec fn declares_dprint(package_json: JsonValue) -> bool {
    has_non_null_key(package_json, "dependencies"@, DPRINT_BINARY_NAME@)
        || has_non_null_key(package_json, "devDependencies"@, DPRINT_BINARY_NAME@)
}

proof fn lemma_member_value_skip(members: Seq<(String, JsonValue)>, key: Seq<char>, i: int)
    requires
        0 <= i < members.len(),
        members[i].0@ != key,
    ensures
        member_value(members.skip(i), key) == member_value(members.skip(i + 1), key),
{
    assert(members.skip(i).drop_first() =~= members.skip(i + 1));
}

/// The first member named `key` among `members`.
pub fn find_member<'a>(members: &'a Vec<(String, JsonValue)>, key: &str) -> (res: Option<&'a JsonValue>)
    ensures
        match res {
            Some(value) => member_value(members@, key@) == Some(*value),
            None => member_value(members@, key@) is None,
        },
{
    let wanted = String::from_str(key);
    let n = members.len();
    let mut i: usize = 0;
    assert(members@.skip(0) =~= members@);
    while i < n
        invariant
            n == members@.len(),
            i <= n,
            wanted@ == key@,
            member_value(members@, key@) == member_value(members@.skip(i as int), key@),
        decreases n - i,
    {
        if members[i].0 == wanted {
            return Some(&members[i].1);
        }
        proof {
            lemma_member_value_skip(members@, key@, i as int);
        }
        i = i + 1;
    }
    None
}

/// The member `key` of `json` when `json` is an object.
pub fn json_get<'a>(json: &'a JsonValue, key: &str) -> (res: Option<&'a JsonValue>)
    ensures
        match res {
            Some(value) => get_spec(*json, key@) == Some(*value),
            None => get_spec(*json, key@) is None,
        },
{
    match json {
        JsonValue::Object(members) => find_member(members, key),
        _ => None,
    }
}

/// Whether `json.object_key` is an object with a member `item_key` whose value is not null.
pub fn json_object_has_non_null_key(json: &JsonValue, object_key: &str, item_key: &str) -> (res: bool)
    ensures
        res == has_non_null_key(*json, object_key@, item_key@),
{
    match json_get(json, object_key) {
        Some(JsonValue::Object(members)) => match find_member(members, item_key) {
            Some(value) => !matches!(value, JsonValue::Null),
            None => false,
        },
        _ => false,
    }
}

/// Whether a `package.json` document lists dprint under `dependencies` or `devDependencies`.
pub fn package_json_declares_dependency(package_json: &JsonValue) -> (res: bool)
    ensures
        res == declares_dprint(*package_json),
{
    json_object_has_non_null_key(package_json, "dependencies", DPRINT_BINARY_NAME)
        || json_object_has_non_null_key(package_json, "devDependencies", DPRINT_BINARY_NAME)
}


/// The document that `serde_json::from_str::<Value>` parses from `text`, as a [`JsonValue`];
/// nothing when `text` is not JSON.
pub uninterp spec fn parsed_json(text: Seq<char>) -> Option<JsonValue>;

/// The parsed document of an optional file text: nothing when there is no text.
pub open spec fn parsed_document(text: Option<Seq<char>>) -> Option<JsonValue> {
    match text {
        Some(t) => parsed_json(t),
        None => None,
    }
}

/// Converts a `serde_json::Value` into a [`JsonValue`], variant by variant: numbers keep the
/// text `serde_json` renders for them, objects keep their members in the map's order.
///
/// Trusted: a one-for-one conversion of an outside value; nothing is claimed of its result,
/// which reaches the library only through [`parse_json`].
#[verifier::external_body]
fn json_of_value(value: Value) -> JsonValue {
    match value {
        Value::Null => JsonValue::Null,
        Value::Bool(b) => JsonValue::Bool(b),
        Value::Number(n) => JsonValue::Number(n.to_string()),
        Value::String(s) => JsonValue::Text(s),
        Value::Array(items) => JsonValue::Array(items.into_iter().map(json_of_value).collect()),
        Value::Object(members) => JsonValue::Object(members.into_iter().map(|(k, v)| (k, json_of_value(v))).collect()),
    }
}

/// Parses `text` with `serde_json::from_str::<serde_json::Value>`; nothing when it is not JSON.
///
/// Trusted: the result is the document `serde_json` parses from `text`, a function of `text`
/// alone, named [`parsed_json`]; nothing more is claimed.
#[verifier::external_body]
pub fn parse_json(text: &str) -> (res: Option<JsonValue>)
    ensures
        res == parsed_json(text@),
{
    serde_json::from_str::<Value>(text).ok().map(json_of_value)
}

/// Parses an optional file text: nothing when there is no text or it is not JSON.
pub fn parse_document(text: &Option<String>) -> (res: Option<JsonValue>)
    ensures
        res == parsed_document(text_option(*text)),
{
    match text {
        Some(t) => parse_json(t.as_str()),
        None => None,
    }
}

} // verus!
