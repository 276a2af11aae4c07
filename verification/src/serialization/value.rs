//! JSON values, as far as this library reads and builds them.
//!
//! Parsing and printing are the work of `serde_json`. What a value holds is
//! spoken of as a tree; the functions of this file are believed to do to
//! that tree what their contracts say, and are not verified.

use vstd::prelude::*;
use crate::serialization::decimal::is_digit;

verus! {

/// What a JSON value holds. A number is held as its text.
pub enum JsonTree {
    Null,
    Bool(bool),
    Number(Seq<char>),
    Text(Seq<char>),
    Array(Seq<JsonTree>),
    Object(Map<Seq<char>, JsonTree>),
}

/// `serde_json::Value`: a JSON value. It is carried about as it is; what
/// it holds is known through `value_tree` alone.
#[verifier::external_type_specification]
#[verifier::external_body]
pub struct ExValue(serde_json::Value);

/// `serde_json::Error`: why parsing or printing failed. Nothing is read
/// from it.
#[verifier::external_type_specification]
#[verifier::external_body]
pub struct ExError(serde_json::Error);

/// `serde_json::Map`: the members of a JSON object. What it holds is
/// known through `map_members` alone.
#[verifier::external_type_specification]
#[verifier::external_body]
#[verifier::reject_recursive_types(K)]
#[verifier::reject_recursive_types(V)]
pub struct ExMap<K, V>(serde_json::Map<K, V>);

/// What a value of `serde_json` holds.
pub uninterp spec fn value_tree(value: serde_json::Value) -> JsonTree;

/// The members of an object of `serde_json`, by key.
pub uninterp spec fn map_members(map: serde_json::Map<String, serde_json::Value>) -> Map<
    Seq<char>,
    JsonTree,
>;

/// What `serde_json::from_str` makes of a text: the tree of the value it
/// parses the text to, or `None` where it refuses the text.
pub uninterp spec fn document_tree(text: Seq<char>) -> Option<JsonTree>;

/// What `serde_json::to_string_pretty` makes of a value that holds the
/// given tree: its text, or `None` where it fails.
pub uninterp spec fn pretty_text(tree: JsonTree) -> Option<Seq<char>>;

/// No members.
pub open spec fn no_members() -> Map<Seq<char>, JsonTree> {
    Map::empty()
}

/// Whether the text holds digits alone from `from` up to `to`.
pub open spec fn digits_between(text: Seq<char>, from: int, to: int) -> bool {
    forall|i: int| from <= i < to ==> is_digit(#[trigger] text[i])
}

/// Whether the text is a number in plain notation whose digits before the
/// point run from `start` up to `point`: a minus sign or none, then one
/// digit or digits that begin with no zero, then the end of the text or a
/// point and digits, at least one, up to the end of the text.
pub open spec fn plain_number_at(text: Seq<char>, start: int, point: int) -> bool {
    &&& 0 <= start < point <= text.len()
    &&& start == (if text[0] == '-' { 1int } else { 0int })
    &&& digits_between(text, start, point)
    &&& point - start == 1 || text[start] != '0'
    &&& point == text.len() || (text[point] == '.' && point + 1 < text.len() && digits_between(
        text,
        point + 1,
        text.len() as int,
    ))
}

/// Whether the text is a number in plain notation, such as `0`, `-12` or
/// `3.250000`.
pub open spec fn plain_number(text: Seq<char>) -> bool {
    exists|start: int, point: int| plain_number_at(text, start, point)
}

/// Whether the text has an exponent mark.
pub open spec fn has_exponent(text: Seq<char>) -> bool {
    text.contains('e') || text.contains('E')
}

/// `serde_json::from_str`, for a value: parses a document.
#[verifier::external_body]
pub(crate) fn from_text(text: &str) -> (r: Result<serde_json::Value, serde_json::Error>)
    ensures
        match r {
            Ok(v) => document_tree(text@) == Some(value_tree(v)),
            Err(_) => document_tree(text@) is None,
        },
{
    serde_json::from_str::<serde_json::Value>(text)
}

/// `serde_json::to_string_pretty`, for a value: prints a document.
#[verifier::external_body]
pub(crate) fn to_text(value: &serde_json::Value) -> (r: Result<String, serde_json::Error>)
    ensures
        match r {
            Ok(text) => pretty_text(value_tree(*value)) == Some(text@),
            Err(_) => pretty_text(value_tree(*value)) is None,
        },
{
    serde_json::to_string_pretty(value)
}

/// `Value::get` with a key: the member of an object under that key; `None`
/// for an object without such a member and for a value that is no object.
#[verifier::external_body]
pub(crate) fn member<'a>(value: &'a serde_json::Value, key: &str) -> (r: Option<
    &'a serde_json::Value,
>)
    ensures
        match r {
            Some(v) => value_tree(*value) matches JsonTree::Object(m) && m.contains_key(key@)
                && m[key@] == value_tree(*v),
            None => !(value_tree(*value) matches JsonTree::Object(m) && m.contains_key(key@)),
        },
{
    value.get(key)
}

/// `Value::get` with a position: the item of an array at that position;
/// `None` past the end of the array and for a value that is no array.
#[verifier::external_body]
pub(crate) fn item<'a>(value: &'a serde_json::Value, position: usize) -> (r: Option<
    &'a serde_json::Value,
>)
    ensures
        match r {
            Some(v) => value_tree(*value) matches JsonTree::Array(a) && position < a.len()
                && a[position as int] == value_tree(*v),
            None => !(value_tree(*value) matches JsonTree::Array(a) && position < a.len()),
        },
{
    value.get(position)
}

/// `Value::as_array`, for the length: the number of items of an array;
/// `None` for a value that is no array.
#[verifier::external_body]
pub(crate) fn array_len(value: &serde_json::Value) -> (r: Option<usize>)
    ensures
        match r {
            Some(n) => value_tree(*value) matches JsonTree::Array(a) && a.len() == n,
            None => !(value_tree(*value) is Array),
        },
{
    value.as_array().map(|a| a.len())
}

/// `Value::as_number`, for the text: the text of a number; `None` for a
/// value that is no number.
#[verifier::external_body]
pub(crate) fn number_text(value: &serde_json::Value) -> (r: Option<String>)
    ensures
        match r {
            Some(text) => value_tree(*value) == JsonTree::Number(text@),
            None => !(value_tree(*value) is Number),
        },
{
    value.as_number().map(|n| n.to_string())
}

/// `Number::from_str`: the number that a text denotes, as a value. It
/// takes every number in plain notation, and keeps a text without exponent
/// mark that it takes as it stands.
#[verifier::external_body]
pub(crate) fn number_value(text: &str) -> (r: Result<serde_json::Value, serde_json::Error>)
    ensures
        plain_number(text@) ==> r is Ok,
        r matches Ok(v) ==> value_tree(v) is Number,
        r matches Ok(v) ==> !has_exponent(text@) ==> value_tree(v) == JsonTree::Number(text@),
{
    text.parse::<serde_json::Number>().map(serde_json::Value::Number)
}

/// `Value::Array`: the array of the given items.
#[verifier::external_body]
pub(crate) fn array_value(items: Vec<serde_json::Value>) -> (r: serde_json::Value)
    ensures
        value_tree(r) == JsonTree::Array(Seq::new(items@.len(), |i: int| value_tree(items@[i]))),
{
    serde_json::Value::Array(items)
}

/// `Map::new`: an object without members.
#[verifier::external_body]
pub(crate) fn new_map() -> (r: serde_json::Map<String, serde_json::Value>)
    ensures
        map_members(r) == no_members(),
{
    serde_json::Map::new()
}

/// `Map::insert`: puts a member under a key, in place of any that was
/// there.
#[verifier::external_body]
pub(crate) fn map_insert(
    map: &mut serde_json::Map<String, serde_json::Value>,
    key: &str,
    value: serde_json::Value,
)
    ensures
        map_members(*final(map)) == map_members(*old(map)).insert(key@, value_tree(value)),
{
    map.insert(key.to_owned(), value);
}

/// `Value::Object`: the object with the given members.
#[verifier::external_body]
pub(crate) fn object_value(map: serde_json::Map<String, serde_json::Value>) -> (r:
    serde_json::Value)
    ensures
        value_tree(r) == JsonTree::Object(map_members(map)),
{
    serde_json::Value::Object(map)
}

} // verus!
