//! A plain model of JSON documents, and the parser that produces it.
use vstd::prelude::*;

verus! {

/// A JSON value. Numbers keep their textual form; an object keeps its
/// members in the order in which they are listed.
#[derive(Debug)]
pub enum JsonValue {
    Null,
    Bool(bool),
    Number(String),
    Str(String),
    Array(Vec<JsonValue>),
    Object(Vec<(String, JsonValue)>),
}

/// The document that `text` holds, as serde_json reads it; `None` where
/// `text` is not well-formed JSON.
pub uninterp spec fn parsed_json(text: Seq<char>) -> Option<JsonValue>;

/// The JSON string literal that stands for `s`, quotes and escapes included.
pub uninterp spec fn json_quoted(s: Seq<char>) -> Seq<char>;

#[verifier::external_type_specification]
#[verifier::external_body]
pub struct ExSerdeJsonValue(serde_json::Value);

/// Moves a value of serde_json's tree into a [`JsonValue`], node for node.
#[verifier::external_body]
fn from_serde_value(v: serde_json::Value) -> JsonValue {
    match v {
        serde_json::Value::Null => JsonValue::Null,
        serde_json::Value::Bool(b) => JsonValue::Bool(b),
        serde_json::Value::Number(n) => JsonValue::Number(n.to_string()),
        serde_json::Value::String(s) => JsonValue::Str(s),
        serde_json::Value::Array(a) => JsonValue::Array(a.into_iter().map(from_serde_value).collect()),
        serde_json::Value::Object(m) => JsonValue::Object(
            m.into_iter().map(|(k, x)| (k, from_serde_value(x))).collect(),
        ),
    }
}

/// Relies on serde_json::from_str, read into serde_json::Value: the result
/// depends on the text alone.
#[verifier::external_body]
pub(crate) fn parse_json(text: &str) -> (r: Option<JsonValue>)
    ensures
        r == parsed_json(text@),
{
    serde_json::from_str::<serde_json::Value>(text).ok().map(from_serde_value)
}

/// Relies on serde_json's rendering of a string value (`Value::String` through
/// `to_string`), which cannot fail.
#[verifier::external_body]
pub(crate) fn quote_json(s: &str) -> (r: String)
    ensures
        r@ == json_quoted(s@),
{
    serde_json::Value::String(s.to_string()).to_string()
}

/// The value of the first member named `key` at or after position `i`.
pub open spec fn lookup_from(fields: Seq<(String, JsonValue)>, key: Seq<char>, i: int) -> Option<JsonValue>
    decreases fields.len() - i,
{
    if i < 0 || i >= fields.len() {
        None
    } else if fields[i].0@ == key {
        Some(fields[i].1)
    } else {
        lookup_from(fields, key, i + 1)
    }
}

/// The value of the first member named `key`, if any.
pub open spec fn lookup(fields: Seq<(String, JsonValue)>, key: Seq<char>) -> Option<JsonValue> {
    lookup_from(fields, key, 0)
}

/// A member is found when no earlier member bears its name.
pub proof fn lemma_lookup_at(fields: Seq<(String, JsonValue)>, key: Seq<char>, i: int)
    requires
        0 <= i < fields.len(),
        fields[i].0@ == key,
        forall|j: int| 0 <= j < i ==> fields[j].0@ != key,
    ensures
        lookup(fields, key) == Some(fields[i].1),
    decreases i,
{
    lemma_lookup_from_at(fields, key, 0, i);
}

proof fn lemma_lookup_from_at(fields: Seq<(String, JsonValue)>, key: Seq<char>, start: int, i: int)
    requires
        0 <= start <= i < fields.len(),
        fields[i].0@ == key,
        forall|j: int| start <= j < i ==> fields[j].0@ != key,
    ensures
        lookup_from(fields, key, start) == Some(fields[i].1),
    decreases i - start,
{
    if start < i {
        lemma_lookup_from_at(fields, key, start + 1, i);
    }
}

/// Finds the first member named `key` among the members of an object.
pub fn find_member<'a>(fields: &'a Vec<(String, JsonValue)>, key: &String) -> (r: Option<&'a JsonValue>)
    ensures
        r matches Some(v) ==> lookup(fields@, key@) == Some(*v),
        r is None ==> lookup(fields@, key@) is None,
{
    let mut i: usize = 0;
    while i < fields.len()
        invariant
            i <= fields.len(),
            lookup(fields@, key@) == lookup_from(fields@, key@, i as int),
        decreases fields.len() - i,
    {
        if fields[i].0 == *key {
            return Some(&fields[i].1);
        }
        i = i + 1;
    }
    None
}

/// The string held by member `key`; absent, null or another kind of value
/// gives nothing.
pub open spec fn str_member(fields: Seq<(String, JsonValue)>, key: Seq<char>) -> Option<String> {
    match lookup(fields, key) {
        Some(JsonValue::Str(s)) => Some(s),
        _ => None,
    }
}

/// Decoding of an optional string member: absent and null both decode to no
/// value (`Some(None)`), a string to itself, anything else fails (`None`).
pub open spec fn opt_str_member(fields: Seq<(String, JsonValue)>, key: Seq<char>) -> Option<Option<String>> {
    match lookup(fields, key) {
        None => Some(None),
        Some(JsonValue::Null) => Some(None),
        Some(JsonValue::Str(s)) => Some(Some(s)),
        _ => None,
    }
}

/// Decoding of a boolean member that defaults to `false` when absent.
pub open spec fn flag_member(fields: Seq<(String, JsonValue)>, key: Seq<char>) -> Option<bool> {
    match lookup(fields, key) {
        None => Some(false),
        Some(JsonValue::Bool(b)) => Some(b),
        _ => None,
    }
}

/// Decodes a required string member.
pub fn decode_str_member(fields: &Vec<(String, JsonValue)>, key: &str) -> (r: Option<String>)
    ensures
        r == str_member(fields@, key@),
{
    let k = key.to_string();
    match find_member(fields, &k) {
        Some(JsonValue::Str(s)) => Some(s.clone()),
        _ => None,
    }
}

/// Decodes an optional string member.
pub fn decode_opt_str_member(fields: &Vec<(String, JsonValue)>, key: &str) -> (r: Option<Option<String>>)
    ensures
        r == opt_str_member(fields@, key@),
{
    let k = key.to_string();
    match find_member(fields, &k) {
        None => Some(None),
        Some(JsonValue::Null) => Some(None),
        Some(JsonValue::Str(s)) => Some(Some(s.clone())),
        _ => None,
    }
}

/// Decodes a boolean member that defaults to `false`.
pub fn decode_flag_member(fields: &Vec<(String, JsonValue)>, key: &str) -> (r: Option<bool>)
    ensures
        r == flag_member(fields@, key@),
{
    let k = key.to_string();
    match find_member(fields, &k) {
        None => Some(false),
        Some(JsonValue::Bool(b)) => Some(*b),
        _ => None,
    }
}

} // verus!
