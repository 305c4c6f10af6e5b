//! Access to a parsed JSON document, through serde_json, over a model of its
//! tree.
use vstd::prelude::*;

verus! {

#[verifier::external_type_specification]
#[verifier::external_body]
pub struct ExValue(serde_json::Value);

/// A JSON document as a tree of plain values. A number is seen through the
/// two integer readings a caller may ask of it.
pub enum JsonTree {
    Null,
    Bool(bool),
    Number(Option<i64>, Option<u64>),
    Text(Seq<char>),
    Array(Seq<JsonTree>),
    Object(Map<Seq<char>, JsonTree>),
}

/// The tree that a `serde_json::Value` holds.
pub uninterp spec fn json_tree(v: serde_json::Value) -> JsonTree;

/// The tree that `serde_json::from_str` reads from a text, if the text is JSON.
pub uninterp spec fn parsed_json(s: Seq<char>) -> Option<JsonTree>;

/// The member `key` of an object; `Null` when absent or not an object.
pub open spec fn member(t: JsonTree, key: Seq<char>) -> JsonTree {
    match t {
        JsonTree::Object(m) => if m.contains_key(key) { m[key] } else { JsonTree::Null },
        _ => JsonTree::Null,
    }
}

/// The element `i` of an array; `Null` when out of bounds or not an array.
pub open spec fn element(t: JsonTree, i: int) -> JsonTree {
    match t {
        JsonTree::Array(s) => if 0 <= i < s.len() { s[i] } else { JsonTree::Null },
        _ => JsonTree::Null,
    }
}

/// Relies on `serde_json::from_str::<Value>`: it parses the text as one JSON
/// document, and its error is kept as text.
#[verifier::external_body]
pub(crate) fn parse_json(s: &str) -> (r: Result<serde_json::Value, String>)
    ensures
        r is Ok <==> parsed_json(s@) is Some,
        r matches Ok(v) ==> json_tree(v) == parsed_json(s@)->0,
{
    serde_json::from_str::<serde_json::Value>(s).map_err(|e| e.to_string())
}

/// Relies on `Index<&str> for Value`: the member, or `Null` when the value is
/// not an object or lacks the key.
#[verifier::external_body]
pub(crate) fn json_member(v: &serde_json::Value, key: &str) -> (r: serde_json::Value)
    ensures
        json_tree(r) == member(json_tree(*v), key@),
{
    v[key].clone()
}

/// Relies on `Index<usize> for Value`: the element, or `Null` when the value
/// is not an array or the index is out of bounds.
#[verifier::external_body]
pub(crate) fn json_element(v: &serde_json::Value, i: usize) -> (r: serde_json::Value)
    ensures
        json_tree(r) == element(json_tree(*v), i as int),
{
    v[i].clone()
}

/// Relies on `Value::as_str`: the text of a string value.
#[verifier::external_body]
pub(crate) fn json_text(v: &serde_json::Value) -> (r: Option<String>)
    ensures
        json_tree(*v) is Text <==> r is Some,
        r matches Some(s) ==> json_tree(*v) == JsonTree::Text(s@),
{
    v.as_str().map(|s| s.to_string())
}

/// Relies on `Value::as_i64`: a number's reading as an `i64`, if it has one.
#[verifier::external_body]
pub(crate) fn json_i64(v: &serde_json::Value) -> (r: Option<i64>)
    ensures
        match json_tree(*v) {
            JsonTree::Number(i, _) => r == i,
            _ => r is None,
        },
{
    v.as_i64()
}

/// Relies on `Value::as_u64`: a number's reading as a `u64`, if it has one.
#[verifier::external_body]
pub(crate) fn json_u64(v: &serde_json::Value) -> (r: Option<u64>)
    ensures
        match json_tree(*v) {
            JsonTree::Number(_, u) => r == u,
            _ => r is None,
        },
{
    v.as_u64()
}

/// Relies on `Value::is_null`.
#[verifier::external_body]
pub(crate) fn json_is_null(v: &serde_json::Value) -> (r: bool)
    ensures
        r <==> json_tree(*v) is Null,
{
    v.is_null()
}

/// Relies on `Value::is_number`.
#[verifier::external_body]
pub(crate) fn json_is_number(v: &serde_json::Value) -> (r: bool)
    ensures
        r <==> json_tree(*v) is Number,
{
    v.is_number()
}

/// Relies on `Value::as_array`: the length of an array value.
#[verifier::external_body]
pub(crate) fn json_array_len(v: &serde_json::Value) -> (r: Option<usize>)
    ensures
        match json_tree(*v) {
            JsonTree::Array(s) => r matches Some(n) && n == s.len(),
            _ => r is None,
        },
{
    v.as_array().map(|a| a.len())
}

} // verus!
