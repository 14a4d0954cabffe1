//! Reading JSON text into a tree, with `serde_json` as the parser.

use vstd::prelude::*;
use crate::error::ConversionError;
use crate::json::{has_key, keys_distinct, Json, JsonObject, JsonView};

verus! {

/// A parsed JSON value of `serde_json`. Nothing is known of it but the tree
/// that it holds.
#[verifier::external_type_specification]
#[verifier::external_body]
pub struct ExJsonValue(serde_json::Value);

/// The tree that a parsed value holds: its kind, its scalar, its items in
/// order or its members in the order of the map. A number is the text that
/// `serde_json::Number::as_str` gives.
pub uninterp spec fn json_value_tree(value: serde_json::Value) -> JsonView;

/// The tree that `serde_json` reads from a text, if the text is JSON.
pub uninterp spec fn parsed_json(text: Seq<char>) -> Option<JsonView>;

/// Calls `serde_json::from_str` for a `serde_json::Value`. The parser reads
/// nothing but the text, so the same text always gives the same tree or is
/// always refused.
#[verifier::external_body]
fn parse_value(text: &str) -> (result: Result<serde_json::Value, serde_json::Error>)
    ensures
        match result {
            Ok(value) => parsed_json(text@) == Some(json_value_tree(value)),
            Err(_) => parsed_json(text@) is None,
        },
{
    serde_json::from_str::<serde_json::Value>(text)
}

/// One level of a parsed value: its kind and what stands directly under it.
enum Shape<'a> {
    Null,
    Bool(bool),
    Number(String),
    String(String),
    Array(Vec<&'a serde_json::Value>),
    Object(Vec<(String, &'a serde_json::Value)>),
}

/// The tree under one level of a parsed value.
spec fn shape_tree(shape: Shape) -> JsonView {
    match shape {
        Shape::Null => JsonView::Null,
        Shape::Bool(b) => JsonView::Bool(b),
        Shape::Number(literal) => JsonView::Number(literal@),
        Shape::String(text) => JsonView::String(text@),
        Shape::Array(items) => JsonView::Array(
            Seq::new(items@.len(), |i: int| json_value_tree(*items@[i])),
        ),
        Shape::Object(members) => JsonView::Object(
            Seq::new(members@.len(), |i: int| (members@[i].0@, json_value_tree(*members@[i].1))),
        ),
    }
}

/// Tells the variants of `serde_json::Value` apart and hands out what each
/// holds: the literal of a number from `Number::as_str`, the items of an
/// array, the members of an object from `Map::iter`. A `serde_json::Map`
/// holds each key once.
#[verifier::external_body]
fn shape_of(value: &serde_json::Value) -> (shape: Shape<'_>)
    ensures
        shape_tree(shape) == json_value_tree(*value),
        shape_tree(shape) matches JsonView::Object(members) ==> keys_distinct(members),
{
    match value {
        serde_json::Value::Null => Shape::Null,
        serde_json::Value::Bool(b) => Shape::Bool(*b),
        serde_json::Value::Number(number) => Shape::Number(number.as_str().to_owned()),
        serde_json::Value::String(text) => Shape::String(text.clone()),
        serde_json::Value::Array(items) => Shape::Array(items.iter().collect()),
        serde_json::Value::Object(map) => Shape::Object(
            map.iter().map(|(key, value)| (key.clone(), value)).collect(),
        ),
    }
}

/// Copies a value that `serde_json` has parsed into a tree of the library.
pub fn read_value(value: &serde_json::Value) -> (tree: Json)
    ensures
        tree@ == json_value_tree(*value),
    decreases json_value_tree(*value),
{
    match shape_of(value) {
        Shape::Null => Json::Null,
        Shape::Bool(b) => Json::Bool(b),
        Shape::Number(literal) => Json::Number(literal),
        Shape::String(text) => Json::String(text),
        Shape::Array(items) => {
            let ghost trees = json_value_tree(*value)->Array_0;
            let mut lifted: Vec<Json> = Vec::new();
            let mut i: usize = 0;
            while i < items.len()
                invariant
                    i <= items.len(),
                    lifted@.len() == i,
                    json_value_tree(*value) is Array,
                    trees == json_value_tree(*value)->Array_0,
                    trees.len() == items@.len(),
                    forall|k: int|
                        0 <= k < trees.len() ==> #[trigger] trees[k] == json_value_tree(
                            *items@[k],
                        ),
                    forall|k: int| 0 <= k < i ==> (#[trigger] lifted@[k])@ == trees[k],
                decreases items.len() - i,
            {
                assert(trees[i as int] == json_value_tree(*items@[i as int]));
                let item = read_value(items[i]);
                lifted.push(item);
                i += 1;
            }
            let tree = Json::Array(lifted);
            assert(tree@->Array_0 =~= trees);
            tree
        },
        Shape::Object(members) => {
            let ghost trees = json_value_tree(*value)->Object_0;
            let mut object = JsonObject::new();
            let mut i: usize = 0;
            assert(object@ =~= trees.take(0));
            while i < members.len()
                invariant
                    i <= members.len(),
                    json_value_tree(*value) is Object,
                    trees == json_value_tree(*value)->Object_0,
                    keys_distinct(trees),
                    trees.len() == members@.len(),
                    forall|k: int|
                        0 <= k < trees.len() ==> (#[trigger] trees[k]).0 == members@[k].0@
                            && trees[k].1 == json_value_tree(*members@[k].1),
                    object@ == trees.take(i as int),
                decreases members.len() - i,
            {
                assert(trees[i as int].1 == json_value_tree(*members@[i as int].1));
                let key = members[i].0.clone();
                let member = read_value(members[i].1);
                proof {
                    assert forall|k: int| 0 <= k < i implies (#[trigger] trees.take(i as int)[k]).0
                        != key@ by {
                        assert(trees[k].0 != trees[i as int].0);
                    }
                    assert(!has_key(trees.take(i as int), key@));
                }
                object.insert(key, member);
                assert(object@ =~= trees.take(i + 1));
                i += 1;
            }
            assert(trees.take(i as int) =~= trees);
            Json::Object(object)
        },
    }
}

/// Parses a JSON text into a tree. The tree is the one that `serde_json`
/// reads; a text that it refuses gives its error.
pub fn parse_json(text: &str) -> (result: Result<Json, ConversionError>)
    ensures
        match parsed_json(text@) {
            Some(tree) => result matches Ok(json) && json@ == tree,
            None => result matches Err(ConversionError::JsonParse(_)),
        },
{
    match parse_value(text) {
        Ok(value) => Ok(read_value(&value)),
        Err(error) => Err(ConversionError::from(error)),
    }
}

} // verus!
