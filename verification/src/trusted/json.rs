//! `serde_json`: its types, its reader and its writer.

use vstd::prelude::*;

use crate::json::{JsonView, ParsedView};
use crate::text::decimal;

verus! {

/// `serde_json::Number`: a JSON number, carried through as it was read.
#[verifier::external_type_specification]
#[verifier::external_body]
pub struct ExNumber(serde_json::Number);

/// `serde_json::Value`: a JSON value as the reader yields it and the writer takes it.
#[verifier::external_type_specification]
#[verifier::external_body]
pub struct ExValue(serde_json::Value);

/// `serde_json::Map`: the members of a JSON object.
#[verifier::external_type_specification]
#[verifier::external_body]
#[verifier::reject_recursive_types(K)]
#[verifier::reject_recursive_types(V)]
pub struct ExMap<K, V>(serde_json::Map<K, V>);

/// The tree a `serde_json::Value` holds.
pub uninterp spec fn value_tree(value: serde_json::Value) -> JsonView;

/// The members a `serde_json::Map` holds.
pub uninterp spec fn map_tree(
    map: serde_json::Map<String, serde_json::Value>,
) -> Map<Seq<char>, JsonView>;

/// The integer a number is, `None` for a floating-point number.
pub uninterp spec fn number_integer(number: serde_json::Number) -> Option<int>;

/// The number that a natural number becomes.
pub uninterp spec fn natural_number(n: u64) -> serde_json::Number;

/// The number that an integer becomes.
pub uninterp spec fn signed_number(n: i64) -> serde_json::Number;

/// The spelling of a number.
pub uninterp spec fn number_spelling(number: serde_json::Number) -> Seq<char>;

/// What reading a text as one JSON value gives: its tree, or the message of the error.
pub uninterp spec fn parsed_text(text: Seq<char>) -> ParsedView;

/// What reading bytes as one JSON value gives: its tree, or the message of the error.
pub uninterp spec fn parsed_bytes(bytes: Seq<u8>) -> ParsedView;

/// The compact one-line spelling of a tree.
pub uninterp spec fn json_text(tree: JsonView) -> Seq<char>;

/// Every number in the tree is an integer, and no value lies under more than `depth` arrays and
/// objects.
pub open spec fn integral_within(tree: JsonView, depth: nat) -> bool
    decreases depth,
{
    match tree {
        JsonView::Number(number) => number_integer(number) is Some,
        JsonView::Array(items) => depth > 0 && forall|i: int|
            0 <= i < items.len() ==> integral_within(#[trigger] items[i], (depth - 1) as nat),
        JsonView::Object(members) => depth > 0 && forall|key: Seq<char>| #[trigger]
            members.contains_key(key) ==> integral_within(members[key], (depth - 1) as nat),
        _ => true,
    }
}

/// The deepest nesting that the reader follows.
pub open spec fn reader_depth() -> nat {
    127
}

/// One level of a `serde_json::Value`: its variant and what the variant holds.
pub enum JsonNode {
    Null,
    Bool(bool),
    Number(serde_json::Number),
    String(String),
    Array(Vec<serde_json::Value>),
    Object(serde_json::Map<String, serde_json::Value>),
}

/// The tree of one level.
pub open spec fn node_tree(node: JsonNode) -> JsonView {
    match node {
        JsonNode::Null => JsonView::Null,
        JsonNode::Bool(flag) => JsonView::Bool(flag),
        JsonNode::Number(number) => JsonView::Number(number),
        JsonNode::String(text) => JsonView::String(text@),
        JsonNode::Array(items) => JsonView::Array(values_tree(items@)),
        JsonNode::Object(members) => JsonView::Object(map_tree(members)),
    }
}

/// The trees of a sequence of values.
pub open spec fn values_tree(values: Seq<serde_json::Value>) -> Seq<JsonView> {
    values.map_values(|value: serde_json::Value| value_tree(value))
}

/// The members listed by a sequence of entries; of two entries for one key the later counts.
pub open spec fn pairs_tree(entries: Seq<(String, serde_json::Value)>) -> Map<Seq<char>, JsonView>
    decreases entries.len(),
{
    if entries.len() == 0 {
        Map::empty()
    } else {
        pairs_tree(entries.drop_last()).insert(entries.last().0@, value_tree(entries.last().1))
    }
}

/// `serde_json::from_str` into a `Value`: the tree of the text when the text is one JSON value,
/// the message of the error otherwise.
#[verifier::external_body]
pub(crate) fn parse_value(text: &str) -> (result: Result<serde_json::Value, String>)
    ensures
        match result {
            Ok(value) => parsed_text(text@) == ParsedView::Tree(value_tree(value)),
            Err(message) => parsed_text(text@) == ParsedView::Failure(message@),
        },
{
    serde_json::from_str::<serde_json::Value>(text).map_err(|error| error.to_string())
}

/// `serde_json::from_slice` into a `Value`: the tree of the bytes when they are one JSON value,
/// the message of the error otherwise.
#[verifier::external_body]
pub(crate) fn parse_slice(bytes: &[u8]) -> (result: Result<serde_json::Value, String>)
    ensures
        match result {
            Ok(value) => parsed_bytes(bytes@) == ParsedView::Tree(value_tree(value)),
            Err(message) => parsed_bytes(bytes@) == ParsedView::Failure(message@),
        },
{
    serde_json::from_slice::<serde_json::Value>(bytes).map_err(|error| error.to_string())
}

/// `serde_json::to_string` of a `Value`, which never fails: the compact spelling. The writer puts
/// no white space between tokens and escapes control characters inside strings, so the spelling
/// holds no line feed. Read back it gives the same tree, for a tree that nests no deeper than the
/// reader follows and holds integers only; of floating-point numbers nothing is claimed.
#[verifier::external_body]
pub(crate) fn write_value(value: &serde_json::Value) -> (text: String)
    ensures
        text@ == json_text(value_tree(*value)),
        !text@.contains('\n'),
        integral_within(value_tree(*value), reader_depth()) ==> parsed_text(text@) == ParsedView::Tree(value_tree(*value)),
{
    serde_json::to_string(value).expect("a JSON value always serializes")
}

/// The variants of `serde_json::Value`, told apart.
#[verifier::external_body]
pub(crate) fn open_value(value: serde_json::Value) -> (node: JsonNode)
    ensures
        node_tree(node) == value_tree(value),
{
    match value {
        serde_json::Value::Null => JsonNode::Null,
        serde_json::Value::Bool(flag) => JsonNode::Bool(flag),
        serde_json::Value::Number(number) => JsonNode::Number(number),
        serde_json::Value::String(text) => JsonNode::String(text),
        serde_json::Value::Array(items) => JsonNode::Array(items),
        serde_json::Value::Object(members) => JsonNode::Object(members),
    }
}

/// The variants of `serde_json::Value`, put together.
#[verifier::external_body]
pub(crate) fn close_value(node: JsonNode) -> (value: serde_json::Value)
    ensures
        value_tree(value) == node_tree(node),
{
    match node {
        JsonNode::Null => serde_json::Value::Null,
        JsonNode::Bool(flag) => serde_json::Value::Bool(flag),
        JsonNode::Number(number) => serde_json::Value::Number(number),
        JsonNode::String(text) => serde_json::Value::String(text),
        JsonNode::Array(items) => serde_json::Value::Array(items),
        JsonNode::Object(members) => serde_json::Value::Object(members),
    }
}

/// `serde_json::Map::new`: no members.
#[verifier::external_body]
pub(crate) fn new_map() -> (map: serde_json::Map<String, serde_json::Value>)
    ensures
        JsonView::Object(map_tree(map)) == JsonView::empty_object(),
{
    serde_json::Map::new()
}

/// `serde_json::Map::insert`: the member is added, or replaced where the key was present.
#[verifier::external_body]
pub(crate) fn insert_member(
    map: &mut serde_json::Map<String, serde_json::Value>,
    key: String,
    value: serde_json::Value,
)
    ensures
        map_tree(*final(map)) == map_tree(*old(map)).insert(key@, value_tree(value)),
{
    map.insert(key, value);
}

/// `serde_json::Map::into_iter`: every member once.
#[verifier::external_body]
pub(crate) fn into_members(map: serde_json::Map<String, serde_json::Value>) -> (entries: Vec<
    (String, serde_json::Value),
>)
    ensures
        pairs_tree(entries@) == map_tree(map),
        forall|i: int, j: int| 0 <= i < j < entries@.len() ==> entries@[i].0@ != entries@[j].0@,
{
    map.into_iter().collect()
}

/// `serde_json::Number::from(u64)`: the number is that integer.
#[verifier::external_body]
pub(crate) fn number_from_u64(n: u64) -> (number: serde_json::Number)
    ensures
        number == natural_number(n),
        number_integer(number) == Some(n as int),
{
    serde_json::Number::from(n)
}

/// `serde_json::Number::from(i64)`: the number is that integer.
#[verifier::external_body]
pub(crate) fn number_from_i64(n: i64) -> (number: serde_json::Number)
    ensures
        number == signed_number(n),
        number_integer(number) == Some(n as int),
{
    serde_json::Number::from(n)
}

/// `serde_json::Number::as_i64`: the integer where the number is one and fits.
#[verifier::external_body]
pub(crate) fn number_as_i64(number: &serde_json::Number) -> (n: Option<i64>)
    ensures
        match number_integer(*number) {
            Some(k) if i64::MIN <= k <= i64::MAX => n == Some(k as i64),
            _ => n is None,
        },
{
    number.as_i64()
}

/// The `Display` text of a `serde_json::Number`; an integer is spelled in decimal.
#[verifier::external_body]
pub(crate) fn number_text(number: &serde_json::Number) -> (text: String)
    ensures
        text@ == number_spelling(*number),
        number_integer(*number) matches Some(k) ==> text@ == decimal(k),
{
    number.to_string()
}

/// `serde_json::Number::clone`: the same number.
#[verifier::external_body]
pub(crate) fn number_copy(number: &serde_json::Number) -> (copy: serde_json::Number)
    ensures
        copy == *number,
{
    number.clone()
}

} // verus!
