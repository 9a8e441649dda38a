//! The part of `serde_json` that this crate reads JSON with.
//!
//! Nothing in this file is proved: each item states what the named function
//! of `serde_json` does, and the rest of the crate is verified against these
//! statements.

use vstd::prelude::*;

verus! {

/// The mathematical content of a JSON value.
///
/// A number that `serde_json` holds as a 64-bit integer is an `Integer`;
/// every other number is a `Float`, whose value this crate never reads.
pub enum JsonTree {
    Null,
    Bool(bool),
    Integer(int),
    Float,
    Text(Seq<char>),
    Array(Seq<JsonTree>),
    Object(Map<Seq<char>, JsonTree>),
}

/// `serde_json::Value`, a parsed JSON value. Verus sees nothing inside it.
#[verifier::external_type_specification]
#[verifier::external_body]
pub struct ExValue(serde_json::Value);

/// The content of a parsed JSON value.
pub uninterp spec fn json_tree(value: serde_json::Value) -> JsonTree;

/// What `serde_json::from_str` makes of a text: the content of the value it
/// parses to, or `None` where it reports an error.
pub uninterp spec fn json_of_text(text: Seq<char>) -> Option<JsonTree>;

/// The member `key` of a tree: the value under that key where the tree is an
/// object that has the key, and `Null` in every other case.
pub open spec fn member(tree: JsonTree, key: Seq<char>) -> JsonTree {
    match tree {
        JsonTree::Object(entries) => if entries.dom().contains(key) {
            entries[key]
        } else {
            JsonTree::Null
        },
        _ => JsonTree::Null,
    }
}

/// The tree as a signed 64-bit integer, where it is an integer in that range.
pub open spec fn tree_as_i64(tree: JsonTree) -> Option<i64> {
    match tree {
        JsonTree::Integer(n) => if i64::MIN <= n <= i64::MAX {
            Some(n as i64)
        } else {
            None
        },
        _ => None,
    }
}

/// The tree as a text, where it is a JSON string.
pub open spec fn tree_as_text(tree: JsonTree) -> Option<Seq<char>> {
    match tree {
        JsonTree::Text(s) => Some(s),
        _ => None,
    }
}

/// `serde_json::from_str::<serde_json::Value>`: parses `text`. The result is
/// a function of the text alone; an error is reported as `None`.
#[verifier::external_body]
pub(crate) fn parse_json(text: &str) -> (parsed: Option<serde_json::Value>)
    ensures
        match parsed {
            Some(value) => json_of_text(text@) == Some(json_tree(value)),
            None => json_of_text(text@) is None,
        },
{
    serde_json::from_str::<serde_json::Value>(text).ok()
}

/// `Index<&str>::index` of `serde_json::Value`, written `value[key]`: the
/// value under `key` where `value` is an object that has it, and a null
/// value otherwise. It never panics.
#[verifier::external_body]
pub(crate) fn json_member<'a>(
    value: &'a serde_json::Value,
    key: &str,
) -> (found: &'a serde_json::Value)
    ensures
        json_tree(*found) == member(json_tree(*value), key@),
{
    &value[key]
}

/// `serde_json::Value::as_i64`: the integer that the value holds, if it is a
/// number held as an integer that fits `i64`.
pub assume_specification[ serde_json::Value::as_i64 ](
    value: &serde_json::Value,
) -> (n: Option<i64>)
    ensures
        n == tree_as_i64(json_tree(*value)),
;

/// `serde_json::Value::as_str`: the text that the value holds, if it is a
/// JSON string.
pub assume_specification<'a>[ serde_json::Value::as_str ](
    value: &'a serde_json::Value,
) -> (s: Option<&'a str>)
    ensures
        match s {
            Some(text) => tree_as_text(json_tree(*value)) == Some(text@),
            None => tree_as_text(json_tree(*value)) is None,
        },
;

} // verus!
