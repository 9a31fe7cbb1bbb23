use vstd::prelude::*;

use crate::bytes::bytes_eq;

verus! {

/// A JSON document as the library reads it: strings, keys and number literals
/// are kept as their UTF-8 bytes, and an object keeps its entries in order.
#[derive(Debug)]
pub enum JsonValue {
    Null,
    Bool(bool),
    Number(Vec<u8>),
    Str(Vec<u8>),
    Array(Vec<JsonValue>),
    Object(Vec<(Vec<u8>, JsonValue)>),
}

/// The value stored under `key` among `entries`: the first entry with that key.
pub open spec fn entry_of(entries: Seq<(Vec<u8>, JsonValue)>, key: Seq<u8>) -> Option<JsonValue>
    decreases entries.len(),
{
    if entries.len() == 0 {
        None
    } else if entries[0].0@ == key {
        Some(entries[0].1)
    } else {
        entry_of(entries.drop_first(), key)
    }
}

/// The member `key` of `v`; nothing when `v` is not an object or lacks the key.
pub open spec fn member_of(v: JsonValue, key: Seq<u8>) -> Option<JsonValue> {
    match v {
        JsonValue::Object(entries) => entry_of(entries@, key),
        _ => None,
    }
}

/// The document that a body holds, when it is one well-formed JSON text.
pub uninterp spec fn parsed_json(body: Seq<u8>) -> Option<JsonValue>;

#[verifier::external_type_specification]
#[verifier::external_body]
pub struct ExJsonValue(serde_json::Value);

/// Relies on serde_json::from_slice into serde_json::Value: it accepts exactly
/// one JSON text and yields its tree, which depends on the bytes alone.
#[verifier::external_body]
fn parse_json(body: &[u8]) -> (r: Option<JsonValue>)
    ensures
        r == parsed_json(body@),
{
    serde_json::from_slice::<serde_json::Value>(body).ok().map(|v| from_serde(&v))
}

/// Carries a tree that serde_json parsed over into `JsonValue`, variant for
/// variant; a number keeps the text that serde_json writes for it.
#[verifier::external_body]
fn from_serde(v: &serde_json::Value) -> JsonValue {
    match v {
        serde_json::Value::Null => JsonValue::Null,
        serde_json::Value::Bool(b) => JsonValue::Bool(*b),
        serde_json::Value::Number(n) => JsonValue::Number(n.to_string().into_bytes()),
        serde_json::Value::String(s) => JsonValue::Str(s.clone().into_bytes()),
        serde_json::Value::Array(a) => JsonValue::Array(a.iter().map(from_serde).collect()),
        serde_json::Value::Object(m) => JsonValue::Object(
            m.iter().map(|(k, x)| (k.clone().into_bytes(), from_serde(x))).collect(),
        ),
    }
}

/// Parses a body as JSON.
pub fn parse(body: &[u8]) -> (r: Option<JsonValue>)
    ensures
        r == parsed_json(body@),
{
    parse_json(body)
}

/// Looks up the member `key` of `v`.
pub fn member<'a>(v: &'a JsonValue, key: &[u8]) -> (r: Option<&'a JsonValue>)
    ensures
        match r {
            Some(x) => member_of(*v, key@) == Some(*x),
            None => member_of(*v, key@) is None,
        },
{
    match v {
        JsonValue::Object(entries) => {
            let mut i: usize = 0;
            assert(entries@.subrange(0, entries@.len() as int) =~= entries@);
            while i < entries.len()
                invariant
                    i <= entries@.len(),
                    member_of(*v, key@) == entry_of(entries@, key@),
                    entry_of(entries@, key@) == entry_of(
                        entries@.subrange(i as int, entries@.len() as int),
                        key@,
                    ),
                decreases entries@.len() - i,
            {
                let e = &entries[i];
                assert(entries@.subrange(i as int, entries@.len() as int)[0] == entries@[i as int]);
                if bytes_eq(e.0.as_slice(), key) {
                    let ghost sub = entries@.subrange(i as int, entries@.len() as int);
                    assert(sub.len() > 0 && sub[0].0@ == key@);
                    assert(entry_of(sub, key@) == Some(sub[0].1));
                    return Some(&e.1);
                }
                assert(entries@.subrange(i as int, entries@.len() as int).drop_first()
                    =~= entries@.subrange(i + 1, entries@.len() as int));
                i = i + 1;
            }
            None
        },
        _ => None,
    }
}

} // verus!
