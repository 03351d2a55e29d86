//! The boundary to `serde_json`: the JSON value type, a mathematical tree that
//! says what such a value holds, and the few calls the log rules make on it.

use vstd::prelude::*;

verus! {

/// `serde_json::Value`, carried through verified code as an opaque value.
#[verifier::external_type_specification]
#[verifier::external_body]
pub struct ExValue(serde_json::Value);

/// A JSON document as a mathematical tree.
pub enum JsonTree {
    Null,
    Bool(bool),
    /// A number, by its decimal text.
    Number(Seq<char>),
    Text(Seq<char>),
    Array(Seq<JsonTree>),
    Object(Map<Seq<char>, JsonTree>),
}

/// The tree that a `serde_json::Value` holds.
pub uninterp spec fn json_tree(v: serde_json::Value) -> JsonTree;

/// The tree that `serde_json::from_str` reads from a text, or `None` where it
/// reports an error.
pub uninterp spec fn parsed_json(text: Seq<char>) -> Option<JsonTree>;

/// The member of an object under a key; `None` for a missing key and for any
/// tree that is not an object.
pub open spec fn tree_get(t: JsonTree, key: Seq<char>) -> Option<JsonTree> {
    match t {
        JsonTree::Object(members) => if members.contains_key(key) {
            Some(members[key])
        } else {
            None
        },
        _ => None,
    }
}

/// The text of a string node; `None` for every other node.
pub open spec fn tree_str(t: JsonTree) -> Option<Seq<char>> {
    match t {
        JsonTree::Text(s) => Some(s),
        _ => None,
    }
}

/// The items of an array node; `None` for every other node.
pub open spec fn tree_items(t: JsonTree) -> Option<Seq<JsonTree>> {
    match t {
        JsonTree::Array(items) => Some(items),
        _ => None,
    }
}

/// The string member of an object under a key, if there is one.
pub open spec fn tree_str_field(t: JsonTree, key: Seq<char>) -> Option<Seq<char>> {
    match tree_get(t, key) {
        Some(member) => tree_str(member),
        None => None,
    }
}

/// The array member of an object under a key, if there is one.
pub open spec fn tree_items_field(t: JsonTree, key: Seq<char>) -> Option<Seq<JsonTree>> {
    match tree_get(t, key) {
        Some(member) => tree_items(member),
        None => None,
    }
}

/// The trees of a sequence of values, one for one.
pub open spec fn trees_of(values: Seq<serde_json::Value>) -> Seq<JsonTree> {
    Seq::new(values.len(), |i: int| json_tree(values[i]))
}

/// The tree of an optional value.
pub open spec fn opt_tree(v: Option<serde_json::Value>) -> Option<JsonTree> {
    match v {
        Some(value) => Some(json_tree(value)),
        None => None,
    }
}

/// Calls `serde_json::from_str` for a `Value`. Trusted: the value returned
/// holds exactly the tree that the parser reads from the text, and `None`
/// comes back exactly where the parser reports an error.
#[verifier::external_body]
pub(crate) fn parse_json(text: &str) -> (r: Option<serde_json::Value>)
    ensures
        opt_tree(r) == parsed_json(text@),
{
    serde_json::from_str::<serde_json::Value>(text).ok()
}

/// Calls `serde_json::Value::get` with a string key. Trusted: the member under
/// that key where the value is an object that has the key, else `None`.
#[verifier::external_body]
pub(crate) fn json_get<'a>(v: &'a serde_json::Value, key: &str) -> (r: Option<&'a serde_json::Value>)
    ensures
        match r {
            Some(member) => tree_get(json_tree(*v), key@) == Some(json_tree(*member)),
            None => tree_get(json_tree(*v), key@).is_none(),
        },
{
    v.get(key)
}

/// Calls `serde_json::Value::as_str`. Trusted: the text where the value is a
/// string, else `None`.
#[verifier::external_body]
pub(crate) fn json_as_str<'a>(v: &'a serde_json::Value) -> (r: Option<&'a str>)
    ensures
        match r {
            Some(s) => tree_str(json_tree(*v)) == Some(s@),
            None => tree_str(json_tree(*v)).is_none(),
        },
{
    v.as_str()
}

/// Calls `serde_json::Value::as_array`. Trusted: the items, one for one, where
/// the value is an array, else `None`.
#[verifier::external_body]
pub(crate) fn json_as_array<'a>(v: &'a serde_json::Value) -> (r: Option<&'a Vec<serde_json::Value>>)
    ensures
        match r {
            Some(items) => tree_items(json_tree(*v)) == Some(trees_of(items@)),
            None => tree_items(json_tree(*v)).is_none(),
        },
{
    v.as_array()
}

/// Calls `Clone::clone` of `serde_json::Value`. Trusted: the copy holds the
/// same tree.
#[verifier::external_body]
pub(crate) fn json_clone(v: &serde_json::Value) -> (r: serde_json::Value)
    ensures
        json_tree(r) == json_tree(*v),
{
    v.clone()
}

} // verus!
