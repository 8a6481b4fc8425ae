//! A plain model of a parsed JSON document, and the one place where the
//! library leans on serde_json: text is handed to serde_json behind a
//! trusted wrapper and comes back as a `JsonValue` tree of plain values,
//! which the verified configuration logic then walks.

use vstd::prelude::*;

verus! {

/// A JSON document as a tree of plain values.
///
/// A number is kept only as far as the configuration logic reads it: a
/// value representable as `u64` keeps that value, any other number is
/// `NumOther`. Object entries keep unique keys in a fixed order.
#[derive(Debug)]
pub enum JsonValue {
    Null,
    Bool(bool),
    UInt(u64),
    NumOther,
    Str(String),
    Arr(Vec<JsonValue>),
    Obj(Vec<(String, JsonValue)>),
}

/// The value under `key` in an entry list: the first entry whose key
/// matches.
pub open spec fn entries_get(es: Seq<(String, JsonValue)>, key: Seq<char>) -> Option<JsonValue>
    decreases es.len(),
{
    if es.len() == 0 {
        None
    } else if es[0].0@ == key {
        Some(es[0].1)
    } else {
        entries_get(es.drop_first(), key)
    }
}

/// The value under `key` in `v`: `None` unless `v` is an object with such
/// an entry.
pub open spec fn json_get_spec(v: JsonValue, key: Seq<char>) -> Option<JsonValue> {
    match v {
        JsonValue::Obj(es) => entries_get(es@, key),
        _ => None,
    }
}

pub open spec fn field_is_string(v: JsonValue, key: Seq<char>) -> bool {
    match json_get_spec(v, key) {
        Some(JsonValue::Str(_)) => true,
        _ => false,
    }
}

/// The text under `key`, meaningful only when `field_is_string` holds.
pub open spec fn string_field(v: JsonValue, key: Seq<char>) -> Seq<char> {
    match json_get_spec(v, key) {
        Some(JsonValue::Str(s)) => s@,
        _ => Seq::<char>::empty(),
    }
}

/// The text under `key`, else `default` where the field is absent or of
/// another type.
pub open spec fn string_field_or(v: JsonValue, key: Seq<char>, default: Seq<char>) -> Seq<char> {
    if field_is_string(v, key) {
        string_field(v, key)
    } else {
        default
    }
}

pub open spec fn field_is_uint(v: JsonValue, key: Seq<char>) -> bool {
    match json_get_spec(v, key) {
        Some(JsonValue::UInt(_)) => true,
        _ => false,
    }
}

/// The number under `key`, else `default` where the field is absent or not
/// an unsigned integer.
pub open spec fn uint_field_or(v: JsonValue, key: Seq<char>, default: int) -> int {
    match json_get_spec(v, key) {
        Some(JsonValue::UInt(n)) => n as int,
        _ => default,
    }
}

pub open spec fn field_is_bool(v: JsonValue, key: Seq<char>) -> bool {
    match json_get_spec(v, key) {
        Some(JsonValue::Bool(_)) => true,
        _ => false,
    }
}

/// The truth value under `key`, else `default` where the field is absent or
/// not a boolean.
pub open spec fn bool_field_or(v: JsonValue, key: Seq<char>, default: bool) -> bool {
    match json_get_spec(v, key) {
        Some(JsonValue::Bool(b)) => b,
        _ => default,
    }
}

pub open spec fn field_is_array(v: JsonValue, key: Seq<char>) -> bool {
    match json_get_spec(v, key) {
        Some(JsonValue::Arr(_)) => true,
        _ => false,
    }
}

/// The elements under `key`, meaningful only when `field_is_array` holds.
pub open spec fn array_field(v: JsonValue, key: Seq<char>) -> Seq<JsonValue> {
    match json_get_spec(v, key) {
        Some(JsonValue::Arr(a)) => a@,
        _ => Seq::<JsonValue>::empty(),
    }
}

/// Looks the key up in `v`, returning the first entry's value where `v` is
/// an object holding the key, and `None` otherwise.
pub fn json_get<'a>(v: &'a JsonValue, key: &str) -> (r: Option<&'a JsonValue>)
    ensures
        match r {
            Some(x) => json_get_spec(*v, key@) == Some(*x),
            None => json_get_spec(*v, key@) is None,
        },
{
    match v {
        JsonValue::Obj(es) => {
            let key_s = String::from_str(key);
            let n = es.len();
            let mut i: usize = 0;
            assert(es@.skip(0) =~= es@);
            while i < n
                invariant
                    i <= n,
                    n == es@.len(),
                    key_s@ == key@,
                    json_get_spec(*v, key@) == entries_get(es@, key@),
                    entries_get(es@, key@) == entries_get(es@.skip(i as int), key@),
                decreases n - i,
            {
                let pair = &es[i];
                proof {
                    assert(es@.skip(i as int)[0] == es@[i as int]);
                    assert(es@.skip(i as int).drop_first() =~= es@.skip(i + 1));
                }
                if pair.0 == key_s {
                    return Some(&pair.1);
                }
                i = i + 1;
            }
            assert(es@.skip(n as int) =~= Seq::<(String, JsonValue)>::empty());
            None
        },
        _ => None,
    }
}

#[verifier::external_type_specification]
#[verifier::external_body]
pub struct ExSerdeValue(serde_json::Value);

/// The `JsonValue` tree that a piece of text parses to, `None` where the
/// text is not well-formed JSON. The tree is a function of the text alone.
pub uninterp spec fn json_of(s: Seq<char>) -> Option<JsonValue>;

/// Relies on the shape of `serde_json::Value` alone: each variant is
/// carried over one for one, a number keeping its value where
/// `serde_json::Number::as_u64` yields one, and object entries coming out
/// in the key order that `serde_json::Map`'s iterator fixes.
#[verifier::external_body]
fn from_serde_value(v: serde_json::Value) -> JsonValue {
    match v {
        serde_json::Value::Null => JsonValue::Null,
        serde_json::Value::Bool(b) => JsonValue::Bool(b),
        serde_json::Value::Number(n) => match n.as_u64() {
            Some(u) => JsonValue::UInt(u),
            None => JsonValue::NumOther,
        },
        serde_json::Value::String(s) => JsonValue::Str(s),
        serde_json::Value::Array(a) => JsonValue::Arr(
            a.into_iter().map(from_serde_value).collect(),
        ),
        serde_json::Value::Object(m) => JsonValue::Obj(
            m.into_iter().map(|(k, w)| (k, from_serde_value(w))).collect(),
        ),
    }
}

/// Relies on `serde_json::from_str::<serde_json::Value>`: whether the text
/// parses, and the value it parses to, depend on the text alone.
#[verifier::external_body]
pub(crate) fn parse_json_text(s: &str) -> (r: Option<JsonValue>)
    ensures
        r == json_of(s@),
{
    match serde_json::from_str::<serde_json::Value>(s) {
        Ok(v) => Some(from_serde_value(v)),
        Err(_) => None,
    }
}

} // verus!
