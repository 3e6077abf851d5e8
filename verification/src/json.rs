//! JSON documents, parsed and written by the `serde_json` crate.
//!
//! A document stays a value of that crate. What the rest of the library
//! knows of one is its tree, [`json_tree`].

use vstd::prelude::*;
use vstd::string::*;
use serde_json::Value;

verus! {

/// A JSON document of the `serde_json` crate.
#[verifier::external_type_specification]
#[verifier::external_body]
pub struct ExValue(Value);

/// The error with which the `serde_json` crate refuses a text.
#[verifier::external_type_specification]
#[verifier::external_body]
pub struct ExJsonError(serde_json::Error);

/// A JSON number: an integer, or a number written with a fraction or an
/// exponent, which is known here only by the 64 bits of its binary form.
pub enum JsonNumber {
    Integer(int),
    Real(u64),
}

/// The mathematical value of a JSON document.
pub enum JsonTree {
    Null,
    Bool(bool),
    Number(JsonNumber),
    Text(Seq<char>),
    List(Seq<JsonTree>),
    Object(Map<Seq<char>, JsonTree>),
}

/// The tree of a document.
pub uninterp spec fn json_tree(v: Value) -> JsonTree;

/// What parsing a text gives: the tree of the document, or the message of
/// the error.
pub uninterp spec fn json_parsed(text: Seq<char>) -> Result<JsonTree, Seq<char>>;

/// The message of a parse error.
pub uninterp spec fn json_error_text(e: serde_json::Error) -> Seq<char>;

/// The compact text of a document: no white space, the members of an object
/// in the order of their keys.
pub uninterp spec fn json_text(tree: JsonTree) -> Seq<char>;

/// The text of a document laid out over several lines, two spaces deeper for
/// each level.
pub uninterp spec fn json_pretty_text(tree: JsonTree) -> Seq<char>;

/// The member `key` of an object; null where there is no such member or the
/// tree is no object.
pub open spec fn tree_member(tree: JsonTree, key: Seq<char>) -> JsonTree {
    match tree {
        JsonTree::Object(members) => if members.contains_key(key) {
            members[key]
        } else {
            JsonTree::Null
        },
        _ => JsonTree::Null,
    }
}

/// The members of an object; none for any other tree.
pub open spec fn tree_members(tree: JsonTree) -> Map<Seq<char>, JsonTree> {
    match tree {
        JsonTree::Object(members) => members,
        _ => Map::empty(),
    }
}

/// The text of a string value; `None` for any other tree.
pub open spec fn tree_text(tree: JsonTree) -> Option<Seq<char>> {
    match tree {
        JsonTree::Text(s) => Some(s),
        _ => None,
    }
}

/// The value of a number that is an integer from 0 to 2^64 - 1; `None` for
/// any other tree.
pub open spec fn tree_unsigned(tree: JsonTree) -> Option<u64> {
    match tree {
        JsonTree::Number(JsonNumber::Integer(n)) => if 0 <= n <= u64::MAX {
            Some(n as u64)
        } else {
            None
        },
        _ => None,
    }
}

/// Calls `serde_json::from_str` for a `Value`. The outcome depends on the
/// text alone; nothing more is claimed of it.
#[verifier::external_body]
pub(crate) fn parse_json(text: &str) -> (r: Result<Value, serde_json::Error>)
    ensures
        match r {
            Ok(v) => json_parsed(text@) == Ok::<JsonTree, Seq<char>>(json_tree(v)),
            Err(e) => json_parsed(text@) == Err::<JsonTree, Seq<char>>(json_error_text(e)),
        },
{
    serde_json::from_str(text)
}

/// Formats a parse error through its `Display` impl.
#[verifier::external_body]
pub(crate) fn describe_json_error(e: &serde_json::Error) -> (s: String)
    ensures
        s@ == json_error_text(*e),
{
    e.to_string()
}

/// Indexes a document by a key (`Index<&str>` of `Value`), which gives the
/// member of that name, and the null value where the document is no object
/// or has no such member.
#[verifier::external_body]
pub(crate) fn json_member<'a>(v: &'a Value, key: &str) -> (r: &'a Value)
    ensures
        json_tree(*r) == tree_member(json_tree(*v), key@),
{
    &v[key]
}

/// Calls `Value::as_str`: the text of a string value, `None` otherwise.
#[verifier::external_body]
pub(crate) fn json_as_str<'a>(v: &'a Value) -> (r: Option<&'a str>)
    ensures
        match r {
            Some(s) => tree_text(json_tree(*v)) == Some(s@),
            None => tree_text(json_tree(*v)) is None,
        },
{
    v.as_str()
}

/// Calls `Value::as_u64`: the value of an integer that is not negative and
/// fits 64 bits, `None` otherwise.
#[verifier::external_body]
pub(crate) fn json_as_u64(v: &Value) -> (r: Option<u64>)
    ensures
        r == tree_unsigned(json_tree(*v)),
{
    v.as_u64()
}

/// Calls `Value::is_null`.
#[verifier::external_body]
pub(crate) fn json_is_null(v: &Value) -> (r: bool)
    ensures
        r == (json_tree(*v) is Null),
{
    v.is_null()
}

/// The null value, `Value::Null`.
#[verifier::external_body]
pub(crate) fn json_null() -> (v: Value)
    ensures
        json_tree(v) == JsonTree::Null,
{
    Value::Null
}

/// A string value, `Value::String`, holding a copy of `s`.
#[verifier::external_body]
pub(crate) fn json_string(s: &str) -> (v: Value)
    ensures
        json_tree(v) == JsonTree::Text(s@),
{
    Value::String(s.to_owned())
}

/// A number value made from an unsigned integer (`From<u32>` of `Value`).
#[verifier::external_body]
pub(crate) fn json_unsigned(n: u32) -> (v: Value)
    ensures
        json_tree(v) == JsonTree::Number(JsonNumber::Integer(n as int)),
{
    Value::from(n)
}

/// Assigns through `IndexMut<&str>` of `Value`, which sets the member `key`
/// of an object, replacing one of that name, and treats the null value as an
/// object without members. On any other value it panics, so those are left
/// out.
#[verifier::external_body]
pub(crate) fn json_set_member(v: &mut Value, key: &str, member: Value)
    requires
        json_tree(*old(v)) is Null || json_tree(*old(v)) is Object,
    ensures
        json_tree(*final(v)) == JsonTree::Object(
            tree_members(json_tree(*old(v))).insert(key@, json_tree(member)),
        ),
{
    v[key] = member;
}

/// Writes a document through `Display` of `Value`, which gives its compact
/// text.
#[verifier::external_body]
pub(crate) fn json_to_string(v: &Value) -> (s: String)
    ensures
        s@ == json_text(json_tree(*v)),
{
    v.to_string()
}

/// Writes a document through the alternate form of `Display` of `Value`,
/// which gives its text laid out over several lines.
#[verifier::external_body]
pub(crate) fn json_to_pretty_string(v: &Value) -> (s: String)
    ensures
        s@ == json_pretty_text(json_tree(*v)),
{
    format!("{:#}", v)
}

} // verus!
