//! JSON documents held as plain values.
use vstd::prelude::*;

verus! {

/// A JSON value. A number is kept as its value where it is an unsigned 64-bit
/// integer, and as `None` otherwise.
pub enum JsonValue {
    Null,
    Bool(bool),
    Number(Option<u64>),
    Str(String),
    Array(Vec<JsonValue>),
    Object(Vec<(String, JsonValue)>),
}

/// What the JSON text `text` parses to; `None` where it is not valid JSON.
pub uninterp spec fn json_document(text: Seq<char>) -> Option<JsonValue>;

/// The value under `key` in an object's members (the first member with that
/// key).
pub open spec fn member_value(members: Seq<(String, JsonValue)>, key: Seq<char>) -> Option<JsonValue>
    decreases members.len(),
{
    if members.len() == 0 {
        None
    } else if members[0].0@ == key {
        Some(members[0].1)
    } else {
        member_value(members.drop_first(), key)
    }
}

/// Relies on `serde_json::from_str` into `serde_json::Value`: parses JSON
/// text, failing with the parser's diagnostic. The tree is copied into plain
/// values.
#[verifier::external_body]
pub(crate) fn parse_json(text: &str) -> (r: Result<JsonValue, String>)
    ensures
        r is Ok <==> json_document(text@) is Some,
        r matches Ok(v) ==> json_document(text@) == Some(v),
{
    match serde_json::from_str::<serde_json::Value>(text) {
        Ok(v) => Ok(import_json(v)),
        Err(e) => Err(e.to_string()),
    }
}

/// `serde_json::Value`, the parser's tree, carried only into `import_json`.
#[verifier::external_type_specification]
#[verifier::external_body]
pub struct ExJsonValue(serde_json::Value);

/// Copies a `serde_json::Value` into a `JsonValue`, variant by variant; used
/// by `parse_json` alone.
#[verifier::external_body]
fn import_json(v: serde_json::Value) -> JsonValue {
    match v {
        serde_json::Value::Null => JsonValue::Null,
        serde_json::Value::Bool(b) => JsonValue::Bool(b),
        serde_json::Value::Number(n) => JsonValue::Number(n.as_u64()),
        serde_json::Value::String(s) => JsonValue::Str(s),
        serde_json::Value::Array(a) => JsonValue::Array(a.into_iter().map(import_json).collect()),
        serde_json::Value::Object(m) => JsonValue::Object(m.into_iter().map(|(k, x)| (k, import_json(x))).collect()),
    }
}

/// Looks up `key` in an object's members.
pub fn member<'a>(members: &'a Vec<(String, JsonValue)>, key: &String) -> (r: Option<&'a JsonValue>)
    ensures
        r matches Some(v) ==> member_value(members@, key@) == Some(*v),
        r is None ==> member_value(members@, key@) is None,
{
    let n = members.len();
    let mut i: usize = 0;
    assert(members@.subrange(0, n as int) =~= members@);
    while i < n
        invariant
            i <= n == members@.len(),
            member_value(members@, key@) == member_value(members@.subrange(i as int, n as int), key@),
        decreases n - i,
    {
        let ghost rest = members@.subrange(i as int, n as int);
        if members[i].0 == *key {
            assert(rest[0] == members@[i as int]);
            return Some(&members[i].1);
        }
        assert(rest.drop_first() =~= members@.subrange(i + 1, n as int));
        i += 1;
    }
    None
}

} // verus!
