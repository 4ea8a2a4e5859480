//! The gateway's own JSON tree, with verified accessors, and the trusted
//! bridge to serde_json's parser.
//!
//! Upstream bodies are parsed by serde_json; the resulting tree is carried
//! over into [`JsonValue`], whose structure the transformer walks under
//! full verification. Numbers keep their value only where it is a `u64`
//! (the one numeric shape the gateway reads); any other number is kept as
//! [`JsonValue::NonUInt`], which every numeric read rejects.

use crate::text::{chars_eq, lemma_skip_step, str_to_chars};
use vstd::prelude::*;

verus! {

/// A JSON document as the gateway models it.
#[derive(Debug)]
pub enum JsonValue {
    Null,
    Bool(bool),
    /// A number representable as a `u64`.
    UInt(u64),
    /// A number not representable as a `u64` (negative or fractional).
    NonUInt,
    Str(String),
    Array(Vec<JsonValue>),
    /// Fields in document order; lookups take the first match.
    Object(Vec<(String, JsonValue)>),
}

/// The first field of `fields` named `key`, if any.
pub open spec fn spec_obj_get(fields: Seq<(String, JsonValue)>, key: Seq<char>) -> Option<
    JsonValue,
>
    decreases fields.len(),
{
    if fields.len() == 0 {
        None
    } else if fields[0].0@ == key {
        Some(fields[0].1)
    } else {
        spec_obj_get(fields.drop_first(), key)
    }
}

/// Member lookup: the field named `key` of an object, `None` on any other
/// kind of value or when the field is absent.
pub open spec fn spec_get(v: JsonValue, key: Seq<char>) -> Option<JsonValue> {
    match v {
        JsonValue::Object(fields) => spec_obj_get(fields@, key),
        _ => None,
    }
}

/// Element lookup: index `i` of an array.
pub open spec fn spec_at(v: JsonValue, i: int) -> Option<JsonValue> {
    match v {
        JsonValue::Array(a) => if 0 <= i < a@.len() {
            Some(a@[i])
        } else {
            None
        },
        _ => None,
    }
}

/// The characters of a string value.
pub open spec fn spec_as_str(v: JsonValue) -> Option<Seq<char>> {
    match v {
        JsonValue::Str(s) => Some(s@),
        _ => None,
    }
}

/// The value of a `u64`-representable number.
pub open spec fn spec_as_u64(v: JsonValue) -> Option<u64> {
    match v {
        JsonValue::UInt(n) => Some(n),
        _ => None,
    }
}

/// The value of a boolean.
pub open spec fn spec_as_bool(v: JsonValue) -> Option<bool> {
    match v {
        JsonValue::Bool(b) => Some(b),
        _ => None,
    }
}

/// The elements of an array value.
pub open spec fn spec_as_array(v: JsonValue) -> Option<Seq<JsonValue>> {
    match v {
        JsonValue::Array(a) => Some(a@),
        _ => None,
    }
}

/// Look up the field named `key`.
pub fn get<'a>(v: &'a JsonValue, key: &str) -> (r: Option<&'a JsonValue>)
    ensures
        match r {
            Some(x) => spec_get(*v, key@) == Some(*x),
            None => spec_get(*v, key@) is None,
        },
{
    let key_chars = str_to_chars(key);
    match v {
        JsonValue::Object(fields) => {
            proof {
                assert(*v == JsonValue::Object(*fields));
            }
            let n = fields.len();
            let mut i: usize = 0;
            proof {
                assert(fields@.skip(0) =~= fields@);
            }
            while i < n
                invariant
                    n == fields@.len(),
                    i <= n,
                    key_chars@ == key@,
                    spec_get(*v, key@) == spec_obj_get(fields@, key@),
                    spec_obj_get(fields@, key@) == spec_obj_get(fields@.skip(i as int), key@),
                decreases n - i,
            {
                proof {
                    lemma_skip_step(fields@, i as int);
                }
                let name_chars = str_to_chars(fields[i].0.as_str());
                if chars_eq(&name_chars, &key_chars) {
                    proof {
                        assert(fields@.skip(i as int)[0] == fields@[i as int]);
                        assert(spec_obj_get(fields@.skip(i as int), key@) == Some(
                            fields@[i as int].1,
                        ));
                    }
                    return Some(&fields[i].1);
                }
                i += 1;
            }
            proof {
                assert(fields@.skip(n as int) =~= Seq::<(String, JsonValue)>::empty());
                assert(spec_obj_get(fields@.skip(n as int), key@) is None);
            }
            None
        },
        _ => None,
    }
}

/// Index into an array value.
pub fn at<'a>(v: &'a JsonValue, i: usize) -> (r: Option<&'a JsonValue>)
    ensures
        match r {
            Some(x) => spec_at(*v, i as int) == Some(*x),
            None => spec_at(*v, i as int) is None,
        },
{
    match v {
        JsonValue::Array(a) => {
            if i < a.len() {
                Some(&a[i])
            } else {
                None
            }
        },
        _ => None,
    }
}

/// Read a string value.
pub fn as_str<'a>(v: &'a JsonValue) -> (r: Option<&'a String>)
    ensures
        match r {
            Some(s) => spec_as_str(*v) == Some(s@),
            None => spec_as_str(*v) is None,
        },
{
    match v {
        JsonValue::Str(s) => Some(s),
        _ => None,
    }
}

/// Read a `u64` number.
pub fn as_u64(v: &JsonValue) -> (r: Option<u64>)
    ensures
        r == spec_as_u64(*v),
{
    match v {
        JsonValue::UInt(n) => Some(*n),
        _ => None,
    }
}

/// Read a boolean.
pub fn as_bool(v: &JsonValue) -> (r: Option<bool>)
    ensures
        r == spec_as_bool(*v),
{
    match v {
        JsonValue::Bool(b) => Some(*b),
        _ => None,
    }
}

/// Read an array value.
pub fn as_array<'a>(v: &'a JsonValue) -> (r: Option<&'a Vec<JsonValue>>)
    ensures
        match r {
            Some(a) => spec_as_array(*v) == Some(a@),
            None => spec_as_array(*v) is None,
        },
{
    match v {
        JsonValue::Array(a) => Some(a),
        _ => None,
    }
}

#[verifier::external_type_specification]
#[verifier::external_body]
pub struct ExSerdeValue(serde_json::Value);

/// What serde_json's parser yields on `s`, carried into the gateway's own
/// JSON tree; `None` when `s` is not valid JSON. The result depends on the
/// characters of `s` alone.
pub uninterp spec fn json_parse(s: Seq<char>) -> Option<JsonValue>;

/// Relies on serde_json::Value: its six variants are moved one arm each
/// into the gateway's own tree; `Number::as_u64` keeps the value of a
/// number exactly when it is `u64`-representable.
#[verifier::external_body]
fn from_serde(v: serde_json::Value) -> JsonValue {
    match v {
        serde_json::Value::Null => JsonValue::Null,
        serde_json::Value::Bool(b) => JsonValue::Bool(b),
        serde_json::Value::Number(n) => match n.as_u64() {
            Some(u) => JsonValue::UInt(u),
            None => JsonValue::NonUInt,
        },
        serde_json::Value::String(s) => JsonValue::Str(s),
        serde_json::Value::Array(a) => JsonValue::Array(a.into_iter().map(from_serde).collect()),
        serde_json::Value::Object(o) => JsonValue::Object(
            o.into_iter().map(|(k, x)| (k, from_serde(x))).collect(),
        ),
    }
}

/// Relies on serde_json::from_str::<serde_json::Value>: it parses `s` as
/// one JSON document, deterministically in `s`, and errs exactly on
/// invalid input.
#[verifier::external_body]
pub fn parse_json(s: &str) -> (r: Option<JsonValue>)
    ensures
        r == json_parse(s@),
{
    match serde_json::from_str::<serde_json::Value>(s) {
        Result::Ok(v) => Some(from_serde(v)),
        Result::Err(_) => None,
    }
}

} // verus!
