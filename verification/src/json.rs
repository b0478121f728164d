//! JSON as the wire protocol needs it: text is parsed and rendered by `serde_json`,
//! and a parsed value is opened one level at a time.
//!
//! Nothing here looks deeper into a value than its outermost shape. A nested value
//! stays a `serde_json::Value` and is carried through as it is.

use vstd::prelude::*;

verus! {

/// `serde_json::Value`, carried through without looking inside.
#[verifier::external_type_specification]
#[verifier::external_body]
pub struct ExValue(serde_json::Value);

/// `serde_json::Number`, carried through without looking inside.
#[verifier::external_type_specification]
#[verifier::external_body]
pub struct ExNumber(serde_json::Number);

/// A JSON document as a mathematical tree. The members of an object keep their order.
pub enum JsonTree {
    Null,
    Bool(bool),
    Number(serde_json::Number),
    Text(Seq<char>),
    Array(Seq<JsonTree>),
    Object(Seq<(Seq<char>, JsonTree)>),
}

/// The tree that a `serde_json::Value` holds.
pub uninterp spec fn value_tree(value: serde_json::Value) -> JsonTree;

/// The tree that `serde_json::from_str` reads from `text`, where it accepts the text.
pub uninterp spec fn parsed_json(text: Seq<char>) -> Option<JsonTree>;

/// The compact text that `serde_json::to_string` writes for a value that holds `tree`,
/// where it writes one.
pub uninterp spec fn rendered_json(tree: JsonTree) -> Option<Seq<char>>;

/// One member of a JSON object.
pub struct Member {
    pub key: String,
    pub value: serde_json::Value,
}

/// A JSON value opened one level: scalars by their content, an array by its items, an
/// object by its members in order.
pub enum JsonNode {
    Null,
    Bool(bool),
    Number(serde_json::Number),
    Text(String),
    Array(Vec<serde_json::Value>),
    Object(Vec<Member>),
}

/// The members of an object as pairs of key and tree.
pub open spec fn member_trees(members: Seq<Member>) -> Seq<(Seq<char>, JsonTree)> {
    members.map_values(|m: Member| (m.key@, value_tree(m.value)))
}

/// The keys of a list of members, in order.
pub open spec fn keys_of(members: Seq<(Seq<char>, JsonTree)>) -> Seq<Seq<char>> {
    members.map_values(|m: (Seq<char>, JsonTree)| m.0)
}

impl JsonNode {
    /// The tree that this node stands for.
    pub open spec fn tree(self) -> JsonTree {
        match self {
            JsonNode::Null => JsonTree::Null,
            JsonNode::Bool(b) => JsonTree::Bool(b),
            JsonNode::Number(n) => JsonTree::Number(n),
            JsonNode::Text(s) => JsonTree::Text(s@),
            JsonNode::Array(items) => JsonTree::Array(
                items@.map_values(|v: serde_json::Value| value_tree(v)),
            ),
            JsonNode::Object(members) => JsonTree::Object(member_trees(members@)),
        }
    }

    /// An object node names each of its keys once.
    pub open spec fn keys_distinct(self) -> bool {
        match self {
            JsonNode::Object(members) => keys_of(member_trees(members@)).no_duplicates(),
            _ => true,
        }
    }
}

/// Parses JSON text.
///
/// Trusted: wraps `serde_json::from_str::<serde_json::Value>`. The claim is that
/// acceptance and the value read depend on the text alone.
#[verifier::external_body]
pub(crate) fn parse_value(text: &str) -> (parsed: Option<serde_json::Value>)
    ensures
        match parsed {
            Some(value) => parsed_json(text@) == Some(value_tree(value)),
            None => parsed_json(text@) is None,
        },
{
    serde_json::from_str::<serde_json::Value>(text).ok()
}

/// Renders a value as compact JSON text.
///
/// Trusted: wraps `serde_json::to_string`. The claim is that whether a text is written,
/// and which, depends on the tree of the value alone; that one is written is not
/// claimed.
#[verifier::external_body]
pub(crate) fn render_value(value: &serde_json::Value) -> (rendered: Option<String>)
    ensures
        match rendered {
            Some(text) => rendered_json(value_tree(*value)) == Some(text@),
            None => rendered_json(value_tree(*value)) is None,
        },
{
    serde_json::to_string(value).ok()
}

/// Opens a value one level.
///
/// Trusted: tells the six variants of `serde_json::Value` apart and moves their
/// fields; the members of an object come out in the order in which its map holds them.
#[verifier::external_body]
pub(crate) fn unfold(value: serde_json::Value) -> (node: JsonNode)
    ensures
        node.tree() == value_tree(value),
{
    match value {
        serde_json::Value::Null => JsonNode::Null,
        serde_json::Value::Bool(b) => JsonNode::Bool(b),
        serde_json::Value::Number(n) => JsonNode::Number(n),
        serde_json::Value::String(s) => JsonNode::Text(s),
        serde_json::Value::Array(items) => JsonNode::Array(items),
        serde_json::Value::Object(map) => JsonNode::Object(
            map.into_iter().map(|(key, value)| Member { key, value }).collect(),
        ),
    }
}

/// Closes a node into a value.
///
/// Trusted: builds the variant of `serde_json::Value` that matches the node and moves
/// the fields in. The members of an object are collected into a `serde_json::Map`,
/// which keeps their order as long as no key repeats.
#[verifier::external_body]
pub(crate) fn fold(node: JsonNode) -> (value: serde_json::Value)
    requires
        node.keys_distinct(),
    ensures
        value_tree(value) == node.tree(),
{
    match node {
        JsonNode::Null => serde_json::Value::Null,
        JsonNode::Bool(b) => serde_json::Value::Bool(b),
        JsonNode::Number(n) => serde_json::Value::Number(n),
        JsonNode::Text(s) => serde_json::Value::String(s),
        JsonNode::Array(items) => serde_json::Value::Array(items),
        JsonNode::Object(members) => serde_json::Value::Object(
            members.into_iter().map(|m| (m.key, m.value)).collect(),
        ),
    }
}

/// `Clone::clone` of `serde_json::Value`: the copy holds the same tree.
pub assume_specification[ <serde_json::Value as Clone>::clone ](value: &serde_json::Value) -> (copy:
    serde_json::Value)
    ensures
        value_tree(copy) == value_tree(*value),
;

/// `Clone::clone` of `serde_json::Number`: the copy is the same number.
pub assume_specification[ <serde_json::Number as Clone>::clone ](number: &serde_json::Number) -> (copy:
    serde_json::Number)
    ensures
        copy == *number,
;

} // verus!
