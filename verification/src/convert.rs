//! The conversion of a JSON tree into a document.
//!
//! A document is an array of nodes. A node is an object with a `name` and,
//! optionally, `arguments`, `properties`, `children` and a `type`. An argument
//! or a property is a scalar, or an object that holds the scalar under `value`
//! and may annotate it with a `type`.
//!
//! An annotation is always read from the tree that stands for the node or the
//! entry itself: for an entry that is the object which holds `value`, so a
//! scalar that stands by itself has no annotation.

use vstd::prelude::*;
use crate::document::{
    entries_view, nodes_view, text_view, Document, Entry, EntryView, Node, NodeView, Scalar,
    ScalarView,
};
use crate::error::{ConversionError, Violation};
use crate::json::{lookup, Json, JsonObject, JsonView};
use crate::printer::document_model;
use crate::render::{encode_document, lower_document, render, spec_render};
use crate::sequence::{lemma_try_map_step, lemma_try_map_stops, try_map};
use crate::source::{json_value_tree, parse_json, parsed_json, read_value};

verus! {

/// The revision of the KDL language that the printed document conforms to.
#[derive(Clone, Copy, Debug, PartialEq, Eq, Structural)]
pub enum KdlVersion {
    V1,
    V2,
}

impl Default for KdlVersion {
    /// Documents are written as KDL v2 unless v1 is asked for.
    fn default() -> (version: Self)
        ensures
            version == KdlVersion::V2,
    {
        KdlVersion::V2
    }
}

/// The annotation that the value of a `type` key stands for: a string names
/// it, null stands for none, and nothing else is accepted.
pub open spec fn spec_convert_type(json: JsonView) -> Result<Option<Seq<char>>, Violation> {
    match json {
        JsonView::String(ty) => Ok(Some(ty)),
        JsonView::Null => Ok(None),
        _ => Err(Violation::TypeNotStringOrNull),
    }
}

/// The annotation of a node or of an entry: that of its `type` member. A tree
/// that is no object, or an object without that member, has none.
pub open spec fn spec_annotation(json: JsonView) -> Result<Option<Seq<char>>, Violation> {
    match json {
        JsonView::Object(members) => match lookup(members, "type"@) {
            Some(ty) => spec_convert_type(ty),
            None => Ok(None),
        },
        _ => Ok(None),
    }
}

/// The tree that holds the scalar of an entry: the `value` member of an
/// object that has one, and the tree itself otherwise.
pub open spec fn spec_scalar(json: JsonView) -> JsonView {
    match json {
        JsonView::Object(members) => match lookup(members, "value"@) {
            Some(value) => value,
            None => json,
        },
        _ => json,
    }
}

/// The value of a scalar. A number keeps the characters of its literal.
pub open spec fn spec_convert_value(json: JsonView) -> Result<ScalarView, Violation> {
    match json {
        JsonView::Null => Ok(ScalarView::Null),
        JsonView::Bool(b) => Ok(ScalarView::Bool(b)),
        JsonView::Number(literal) => Ok(ScalarView::Number(literal)),
        JsonView::String(text) => Ok(ScalarView::String(text)),
        _ => Err(Violation::UnsupportedValue),
    }
}

/// The entry that a tree stands for. The value is judged before the
/// annotation.
pub open spec fn spec_convert_entry(json: JsonView) -> Result<EntryView, Violation> {
    match spec_convert_value(spec_scalar(json)) {
        Err(violation) => Err(violation),
        Ok(value) => match spec_annotation(json) {
            Err(violation) => Err(violation),
            Ok(ty) => Ok(EntryView { value, name: None, ty }),
        },
    }
}

/// The property that a member of `properties` stands for: the entry of its
/// value, under its key.
pub open spec fn spec_convert_property(member: (Seq<char>, JsonView)) -> Result<
    EntryView,
    Violation,
> {
    match spec_convert_entry(member.1) {
        Err(violation) => Err(violation),
        Ok(entry) => Ok(EntryView { name: Some(member.0), ..entry }),
    }
}

/// `spec_convert_entry` as a function value.
pub open spec fn entry_converter() -> spec_fn(JsonView) -> Result<EntryView, Violation> {
    |item: JsonView| spec_convert_entry(item)
}

/// `spec_convert_property` as a function value.
pub open spec fn property_converter() -> spec_fn((Seq<char>, JsonView)) -> Result<
    EntryView,
    Violation,
> {
    |member: (Seq<char>, JsonView)| spec_convert_property(member)
}

/// The arguments of a node with these members: one entry for each item of
/// `arguments`, in order, and none where the key is missing.
pub open spec fn spec_arguments(members: Seq<(Seq<char>, JsonView)>) -> Result<
    Seq<EntryView>,
    Violation,
> {
    match lookup(members, "arguments"@) {
        None => Ok(Seq::empty()),
        Some(JsonView::Array(items)) => try_map(items, entry_converter()),
        Some(_) => Err(Violation::ArgumentsNotArray),
    }
}

/// The properties of a node with these members: one entry for each member of
/// `properties`, in order, and none where the key is missing.
pub open spec fn spec_properties(members: Seq<(Seq<char>, JsonView)>) -> Result<
    Seq<EntryView>,
    Violation,
> {
    match lookup(members, "properties"@) {
        None => Ok(Seq::empty()),
        Some(JsonView::Object(properties)) => try_map(properties, property_converter()),
        Some(_) => Err(Violation::PropertiesNotObject),
    }
}

/// The node that a tree stands for. The first rule that the tree breaks, in
/// the order name, arguments, properties, children, type, is its error.
pub open spec fn spec_convert_node(json: JsonView) -> Result<NodeView, Violation>
    decreases json,
{
    match json {
        JsonView::Object(members) => match lookup(members, "name"@) {
            None => Err(Violation::MissingName),
            Some(JsonView::String(name)) => match spec_arguments(members) {
                Err(violation) => Err(violation),
                Ok(arguments) => match spec_properties(members) {
                    Err(violation) => Err(violation),
                    Ok(properties) => match spec_children(members) {
                        Err(violation) => Err(violation),
                        Ok(children) => match spec_annotation(json) {
                            Err(violation) => Err(violation),
                            Ok(ty) => Ok(
                                NodeView { name, arguments, properties, children, ty },
                            ),
                        },
                    },
                },
            },
            Some(_) => Err(Violation::NameNotString),
        },
        _ => Err(Violation::NodeNotObject),
    }
}

/// The children of a node with these members: the document under
/// `children`, and no block at all where the key is missing.
pub open spec fn spec_children(members: Seq<(Seq<char>, JsonView)>) -> Result<
    Option<Seq<NodeView>>,
    Violation,
>
    decreases members,
{
    match lookup(members, "children"@) {
        None => Ok(None),
        Some(children) => match spec_convert_document(children) {
            Err(violation) => Err(violation),
            Ok(nodes) => Ok(Some(nodes)),
        },
    }
}

/// The nodes that the items of an array stand for, or the error of the first
/// item that is no node.
pub open spec fn spec_convert_nodes(items: Seq<JsonView>) -> Result<Seq<NodeView>, Violation>
    decreases items,
{
    if items.len() == 0 {
        Ok(Seq::empty())
    } else {
        match spec_convert_nodes(items.drop_last()) {
            Err(violation) => Err(violation),
            Ok(nodes) => match spec_convert_node(items.last()) {
                Err(violation) => Err(violation),
                Ok(node) => Ok(nodes.push(node)),
            },
        }
    }
}

/// The document that a tree stands for: the nodes of its items, if it is an
/// array.
pub open spec fn spec_convert_document(json: JsonView) -> Result<Seq<NodeView>, Violation>
    decreases json,
{
    match json {
        JsonView::Array(items) => spec_convert_nodes(items),
        _ => Err(Violation::RootNotArray),
    }
}

/// `spec_convert_node` as a function value.
pub open spec fn node_converter() -> spec_fn(JsonView) -> Result<NodeView, Violation> {
    |item: JsonView| spec_convert_node(item)
}

/// The nodes of an array are its items converted one by one, up to the first
/// item that is no node.
pub proof fn lemma_nodes_one_by_one(items: Seq<JsonView>)
    ensures
        spec_convert_nodes(items) == try_map(items, node_converter()),
    decreases items.len(),
{
    if items.len() > 0 {
        lemma_nodes_one_by_one(items.drop_last());
    }
}

/// Reads the value of a `type` key: a string is an annotation, null is none.
pub fn convert_type(json: &Json) -> (result: Result<Option<String>, ConversionError>)
    ensures
        match spec_convert_type(json@) {
            Ok(ty) => result matches Ok(found) && text_view(found) == ty,
            Err(violation) => result matches Err(error) && error.reports(violation),
        },
{
    match json {
        Json::String(ty) => Ok(Some(ty.clone())),
        Json::Null => Ok(None),
        _ => Err(ConversionError::invalid(Violation::TypeNotStringOrNull)),
    }
}

/// Reads the annotation of a node or of an entry from its `type` member.
pub fn convert_annotation(json: &Json) -> (result: Result<Option<String>, ConversionError>)
    ensures
        match spec_annotation(json@) {
            Ok(ty) => result matches Ok(found) && text_view(found) == ty,
            Err(violation) => result matches Err(error) && error.reports(violation),
        },
{
    match json {
        Json::Object(object) => match object.get("type") {
            Some(ty) => convert_type(ty),
            None => Ok(None),
        },
        _ => Ok(None),
    }
}

/// Keeps a numeric literal as it was written: the value is the text itself,
/// whatever number it denotes and however large or precise that number is.
pub fn preserve_literal(literal: &str) -> (value: Scalar)
    ensures
        value@ == ScalarView::Number(literal@),
{
    Scalar::Number(literal.to_owned())
}

/// Converts one argument or property value into an entry without a name.
pub fn convert_entry(json: &Json) -> (result: Result<Entry, ConversionError>)
    ensures
        match spec_convert_entry(json@) {
            Ok(entry) => result matches Ok(found) && found@ == entry,
            Err(violation) => result matches Err(error) && error.reports(violation),
        },
{
    let scalar = match json {
        Json::Object(object) => match object.get("value") {
            Some(value) => value,
            None => json,
        },
        _ => json,
    };
    assert(scalar@ == spec_scalar(json@));
    let value = match scalar {
        Json::Null => Scalar::Null,
        Json::Bool(b) => Scalar::Bool(*b),
        Json::Number(literal) => preserve_literal(literal.as_str()),
        Json::String(text) => Scalar::String(text.clone()),
        _ => {
            return Err(ConversionError::invalid(Violation::UnsupportedValue));
        },
    };
    match convert_annotation(json) {
        Ok(ty) => Ok(Entry { value, name: None, ty }),
        Err(error) => Err(error),
    }
}

/// Converts the `arguments` of a node, in order.
pub fn convert_arguments(object: &JsonObject) -> (result: Result<Vec<Entry>, ConversionError>)
    ensures
        match spec_arguments(object@) {
            Ok(entries) => result matches Ok(found) && entries_view(found@) == entries,
            Err(violation) => result matches Err(error) && error.reports(violation),
        },
{
    let mut arguments: Vec<Entry> = Vec::new();
    let items = match object.get("arguments") {
        None => {
            assert(entries_view(arguments@) =~= Seq::empty());
            return Ok(arguments);
        },
        Some(Json::Array(items)) => items,
        Some(_) => {
            return Err(ConversionError::invalid(Violation::ArgumentsNotArray));
        },
    };
    let ghost trees = lookup(object@, "arguments"@).unwrap()->Array_0;
    let mut i: usize = 0;
    assert(trees.take(0) =~= Seq::empty());
    assert(entries_view(arguments@) =~= Seq::empty());
    while i < items.len()
        invariant
            i <= items.len(),
            trees.len() == items@.len(),
            forall|k: int| 0 <= k < trees.len() ==> #[trigger] trees[k] == items@[k]@,
            spec_arguments(object@) == try_map(trees, entry_converter()),
            try_map(trees.take(i as int), entry_converter()) == Ok::<Seq<EntryView>, Violation>(
                entries_view(arguments@),
            ),
        decreases items.len() - i,
    {
        proof {
            lemma_try_map_step(trees, entry_converter(), i as int);
        }
        match convert_entry(&items[i]) {
            Ok(entry) => {
                let ghost before = entries_view(arguments@);
                arguments.push(entry);
                assert(entries_view(arguments@) =~= before.push(entry@));
            },
            Err(error) => {
                proof {
                    lemma_try_map_stops(trees, entry_converter(), i + 1);
                }
                return Err(error);
            },
        }
        i += 1;
    }
    assert(trees.take(i as int) =~= trees);
    Ok(arguments)
}

/// Converts the `properties` of a node, in order, each under its key.
pub fn convert_properties(object: &JsonObject) -> (result: Result<Vec<Entry>, ConversionError>)
    ensures
        match spec_properties(object@) {
            Ok(entries) => result matches Ok(found) && entries_view(found@) == entries,
            Err(violation) => result matches Err(error) && error.reports(violation),
        },
{
    let mut properties: Vec<Entry> = Vec::new();
    let members = match object.get("properties") {
        None => {
            assert(entries_view(properties@) =~= Seq::empty());
            return Ok(properties);
        },
        Some(Json::Object(members)) => members.members(),
        Some(_) => {
            return Err(ConversionError::invalid(Violation::PropertiesNotObject));
        },
    };
    let ghost trees = lookup(object@, "properties"@).unwrap()->Object_0;
    let mut i: usize = 0;
    assert(trees.take(0) =~= Seq::empty());
    assert(entries_view(properties@) =~= Seq::empty());
    while i < members.len()
        invariant
            i <= members.len(),
            trees.len() == members@.len(),
            forall|k: int|
                0 <= k < trees.len() ==> (#[trigger] members@[k]).0@ == trees[k].0
                    && members@[k].1@ == trees[k].1,
            spec_properties(object@) == try_map(trees, property_converter()),
            try_map(trees.take(i as int), property_converter()) == Ok::<
                Seq<EntryView>,
                Violation,
            >(entries_view(properties@)),
        decreases members.len() - i,
    {
        proof {
            lemma_try_map_step(trees, property_converter(), i as int);
        }
        let member = &members[i];
        match convert_entry(&member.1) {
            Ok(entry) => {
                let ghost before = entries_view(properties@);
                let property = Entry {
                    value: entry.value,
                    name: Some(member.0.clone()),
                    ty: entry.ty,
                };
                properties.push(property);
                assert(entries_view(properties@) =~= before.push(property@));
            },
            Err(error) => {
                proof {
                    lemma_try_map_stops(trees, property_converter(), i + 1);
                }
                return Err(error);
            },
        }
        i += 1;
    }
    assert(trees.take(i as int) =~= trees);
    Ok(properties)
}

/// Converts the `children` of a node into its block of children.
pub fn convert_children(object: &JsonObject) -> (result: Result<Option<Document>, ConversionError>)
    ensures
        match spec_children(object@) {
            Ok(Some(nodes)) => result matches Ok(Some(found)) && found@ == nodes,
            Ok(None) => result matches Ok(None),
            Err(violation) => result matches Err(error) && error.reports(violation),
        },
    decreases object@,
{
    match object.get("children") {
        None => Ok(None),
        Some(children) => match convert_document(children) {
            Ok(document) => Ok(Some(document)),
            Err(error) => Err(error),
        },
    }
}

/// Converts one element of a document into a node.
pub fn convert_node(json: &Json) -> (result: Result<Node, ConversionError>)
    ensures
        match spec_convert_node(json@) {
            Ok(node) => result matches Ok(found) && found@ == node,
            Err(violation) => result matches Err(error) && error.reports(violation),
        },
    decreases json@,
{
    let object = match json {
        Json::Object(object) => object,
        _ => {
            return Err(ConversionError::invalid(Violation::NodeNotObject));
        },
    };
    let name = match object.get("name") {
        Some(Json::String(name)) => name.clone(),
        Some(_) => {
            return Err(ConversionError::invalid(Violation::NameNotString));
        },
        None => {
            return Err(ConversionError::invalid(Violation::MissingName));
        },
    };
    let arguments = match convert_arguments(object) {
        Ok(arguments) => arguments,
        Err(error) => {
            return Err(error);
        },
    };
    let properties = match convert_properties(object) {
        Ok(properties) => properties,
        Err(error) => {
            return Err(error);
        },
    };
    let children = match convert_children(object) {
        Ok(children) => children,
        Err(error) => {
            return Err(error);
        },
    };
    let ty = match convert_annotation(json) {
        Ok(ty) => ty,
        Err(error) => {
            return Err(error);
        },
    };
    Ok(Node { name, arguments, properties, children, ty })
}

/// Converts a JSON array of nodes into a document. The first rule that the
/// tree breaks ends the conversion; there is no partial document.
pub fn convert_document(json: &Json) -> (result: Result<Document, ConversionError>)
    ensures
        match spec_convert_document(json@) {
            Ok(nodes) => result matches Ok(found) && found@ == nodes,
            Err(violation) => result matches Err(error) && error.reports(violation),
        },
        !(json@ is Array) ==> (result matches Err(error) && error.reports(
            Violation::RootNotArray,
        )),
    decreases json@,
{
    let items = match json {
        Json::Array(items) => items,
        _ => {
            return Err(ConversionError::invalid(Violation::RootNotArray));
        },
    };
    let ghost trees = json@->Array_0;
    let mut nodes: Vec<Node> = Vec::new();
    let mut i: usize = 0;
    proof {
        lemma_nodes_one_by_one(trees);
        assert(trees.take(0) =~= Seq::empty());
        assert(nodes_view(nodes@) =~= Seq::empty());
    }
    while i < items.len()
        invariant
            i <= items.len(),
            json@ == JsonView::Array(trees),
            trees.len() == items@.len(),
            forall|k: int| 0 <= k < trees.len() ==> #[trigger] trees[k] == items@[k]@,
            spec_convert_nodes(trees) == try_map(trees, node_converter()),
            try_map(trees.take(i as int), node_converter()) == Ok::<Seq<NodeView>, Violation>(
                nodes_view(nodes@),
            ),
        decreases items.len() - i,
    {
        proof {
            lemma_try_map_step(trees, node_converter(), i as int);
        }
        match convert_node(&items[i]) {
            Ok(node) => {
                let ghost before = nodes_view(nodes@);
                nodes.push(node);
                assert(nodes_view(nodes@) =~= before.push(node@));
            },
            Err(error) => {
                proof {
                    lemma_try_map_stops(trees, node_converter(), i + 1);
                }
                return Err(error);
            },
        }
        i += 1;
    }
    assert(trees.take(i as int) =~= trees);
    Ok(Document { nodes })
}

/// Converts a value that `serde_json` has parsed into a document of `kdl`,
/// for callers that hold the one and want the other.
pub fn convert_value(value: &serde_json::Value) -> (result: Result<
    kdl::KdlDocument,
    ConversionError,
>)
    ensures
        match spec_convert_document(json_value_tree(*value)) {
            Ok(nodes) => result matches Ok(document) && document_model(document)
                == encode_document(nodes),
            Err(violation) => result matches Err(error) && error.reports(violation),
        },
{
    let json = read_value(value);
    match convert_document(&json) {
        Ok(document) => Ok(lower_document(&document)),
        Err(error) => Err(error),
    }
}

/// Converts a JSON tree into KDL text of the given version.
pub fn convert_json(json: &Json, version: KdlVersion) -> (result: Result<String, ConversionError>)
    ensures
        match spec_convert_document(json@) {
            Ok(nodes) => result matches Ok(text) && text@ == spec_render(nodes, version),
            Err(violation) => result matches Err(error) && error.reports(violation),
        },
{
    match convert_document(json) {
        Ok(document) => Ok(render(&document, version)),
        Err(error) => Err(error),
    }
}

/// Converts the content of a JSON file into KDL text of the given version:
/// the text is parsed, the tree is converted, and the document is printed.
/// The first step that fails ends the conversion with its error.
pub fn convert_file_content(json_content: &str, version: KdlVersion) -> (result: Result<
    String,
    ConversionError,
>)
    ensures
        match parsed_json(json_content@) {
            None => result matches Err(ConversionError::JsonParse(_)),
            Some(tree) => match spec_convert_document(tree) {
                Ok(nodes) => result matches Ok(text) && text@ == spec_render(nodes, version),
                Err(violation) => result matches Err(error) && error.reports(violation),
            },
        },
{
    match parse_json(json_content) {
        Ok(json) => convert_json(&json, version),
        Err(error) => Err(error),
    }
}

} // verus!
