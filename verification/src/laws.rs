//! What holds of every conversion.

use vstd::prelude::*;
use crate::convert::{
    entry_converter, lemma_nodes_one_by_one, node_converter, property_converter,
    spec_annotation, spec_convert_document, spec_convert_entry, spec_convert_node,
    spec_convert_value, spec_scalar,
};
use crate::document::{
    document_well_formed, names_distinct, node_well_formed, EntryView, NodeView, ScalarView,
};
use crate::error::Violation;
use crate::json::{
    has_key, key_position, keys_distinct, lemma_key_position_unique, lookup, well_formed, JsonView,
};
use crate::sequence::{first_refused, lemma_first_refused, lemma_try_map};

verus! {

/// A numeric literal is never rewritten: the entry of a number, bare or under
/// `value`, holds the characters of the literal exactly, however long they
/// are and whatever number they denote.
pub proof fn lemma_literal_is_kept(json: JsonView, literal: Seq<char>)
    requires
        spec_scalar(json) == JsonView::Number(literal),
        spec_convert_entry(json) is Ok,
    ensures
        spec_convert_entry(json).unwrap().value == ScalarView::Number(literal),
        spec_convert_entry(JsonView::Number(literal)) == Ok::<EntryView, Violation>(
            EntryView { value: ScalarView::Number(literal), name: None, ty: None },
        ),
{
}

/// A node has one argument for each item of `arguments`, in the same order,
/// and each argument is the entry that the item converts to by itself. A node
/// without `arguments` has no argument.
pub proof fn lemma_arguments_follow_the_array(members: Seq<(Seq<char>, JsonView)>)
    requires
        spec_convert_node(JsonView::Object(members)) is Ok,
    ensures
        match lookup(members, "arguments"@) {
            Some(JsonView::Array(items)) => {
                let node = spec_convert_node(JsonView::Object(members)).unwrap();
                &&& node.arguments.len() == items.len()
                &&& forall|i: int|
                    0 <= i < items.len() ==> spec_convert_entry(#[trigger] items[i]) == Ok::<
                        EntryView,
                        Violation,
                    >(node.arguments[i])
            },
            Some(_) => false,
            None => spec_convert_node(JsonView::Object(members)).unwrap().arguments.len() == 0,
        },
{
    match lookup(members, "arguments"@) {
        Some(JsonView::Array(items)) => {
            lemma_try_map(items, entry_converter());
        },
        _ => {},
    }
}

/// A node has one property for each member of `properties`, in the same
/// order: it is named by the member's key and is otherwise the entry that
/// the member's value converts to by itself. So each key of `properties`
/// names exactly one property. A node without `properties` has no property.
pub proof fn lemma_properties_follow_the_object(members: Seq<(Seq<char>, JsonView)>)
    requires
        spec_convert_node(JsonView::Object(members)) is Ok,
    ensures
        match lookup(members, "properties"@) {
            Some(JsonView::Object(properties)) => {
                let node = spec_convert_node(JsonView::Object(members)).unwrap();
                &&& node.properties.len() == properties.len()
                &&& forall|i: int|
                    0 <= i < properties.len() ==> {
                        &&& spec_convert_entry((#[trigger] properties[i]).1) is Ok
                        &&& node.properties[i] == EntryView {
                            name: Some(properties[i].0),
                            ..spec_convert_entry(properties[i].1).unwrap()
                        }
                    }
                &&& keys_distinct(properties) ==> names_distinct(node.properties)
            },
            Some(_) => false,
            None => spec_convert_node(JsonView::Object(members)).unwrap().properties.len() == 0,
        },
{
    match lookup(members, "properties"@) {
        Some(JsonView::Object(properties)) => {
            lemma_try_map(properties, property_converter());
            let node = spec_convert_node(JsonView::Object(members)).unwrap();
            assert forall|i: int| 0 <= i < properties.len() implies {
                &&& spec_convert_entry((#[trigger] properties[i]).1) is Ok
                &&& node.properties[i] == EntryView {
                    name: Some(properties[i].0),
                    ..spec_convert_entry(properties[i].1).unwrap()
                }
            } by {
                assert(property_converter()(properties[i]) == Ok::<EntryView, Violation>(
                    node.properties[i],
                ));
            }
            if keys_distinct(properties) {
                assert forall|i: int| 0 <= i < node.properties.len() implies (
                #[trigger] node.properties[i]).name is Some by {
                    assert(spec_convert_entry(properties[i].1) is Ok);
                }
                assert forall|i: int, j: int| 0 <= i < j < node.properties.len() implies (
                #[trigger] node.properties[i]).name != (#[trigger] node.properties[j]).name by {
                    assert(properties[i].0 != properties[j].0);
                }
            }
        },
        _ => {},
    }
}

/// Each key of `properties` names exactly one property of the node, and
/// that property holds what the key's value converts to by itself.
pub proof fn lemma_each_key_names_one_property(
    members: Seq<(Seq<char>, JsonView)>,
    properties: Seq<(Seq<char>, JsonView)>,
    key: Seq<char>,
)
    requires
        spec_convert_node(JsonView::Object(members)) is Ok,
        lookup(members, "properties"@) == Some(JsonView::Object(properties)),
        keys_distinct(properties),
        has_key(properties, key),
    ensures
        ({
            let node = spec_convert_node(JsonView::Object(members)).unwrap();
            let at = key_position(properties, key);
            &&& 0 <= at < node.properties.len()
            &&& forall|i: int|
                0 <= i < node.properties.len() ==> ((#[trigger] node.properties[i]).name == Some(
                    key,
                ) <==> i == at)
            &&& spec_convert_entry(lookup(properties, key).unwrap()) is Ok
            &&& node.properties[at] == EntryView {
                name: Some(key),
                ..spec_convert_entry(lookup(properties, key).unwrap()).unwrap()
            }
        }),
{
    lemma_properties_follow_the_object(members);
    let node = spec_convert_node(JsonView::Object(members)).unwrap();
    let at = key_position(properties, key);
    assert(properties[at].0 == key);
    assert forall|i: int| 0 <= i < node.properties.len() implies ((
    #[trigger] node.properties[i]).name == Some(key) <==> i == at) by {
        assert(node.properties[i].name == Some(properties[i].0));
        if properties[i].0 == key {
            lemma_key_position_unique(properties, key, i);
        }
    }
}

/// The children of a node are the document that the value of `children`
/// converts to by itself. A node without `children` has no block of
/// children, which is not the same as the empty block that `[]` gives.
pub proof fn lemma_children_are_a_document(members: Seq<(Seq<char>, JsonView)>)
    requires
        spec_convert_node(JsonView::Object(members)) is Ok,
    ensures
        match lookup(members, "children"@) {
            Some(children) => spec_convert_document(children) == Ok::<Seq<NodeView>, Violation>(
                spec_convert_node(JsonView::Object(members)).unwrap().children.unwrap(),
            ) && spec_convert_node(JsonView::Object(members)).unwrap().children is Some,
            None => spec_convert_node(JsonView::Object(members)).unwrap().children is None,
        },
        lookup(members, "children"@) == Some(JsonView::Array(Seq::empty()))
            ==> spec_convert_node(JsonView::Object(members)).unwrap().children == Some(
            Seq::<NodeView>::empty(),
        ),
{
}

/// A `type` that is a string annotates, a `type` that is null or missing
/// does not, and any other `type` is refused.
pub proof fn lemma_annotation(members: Seq<(Seq<char>, JsonView)>)
    ensures
        spec_annotation(JsonView::Object(members)) == match lookup(members, "type"@) {
            Some(JsonView::String(ty)) => Ok::<Option<Seq<char>>, Violation>(Some(ty)),
            Some(JsonView::Null) => Ok(None),
            Some(_) => Err(Violation::TypeNotStringOrNull),
            None => Ok(None),
        },
        spec_convert_node(JsonView::Object(members)) is Ok ==> Ok::<Option<Seq<char>>, Violation>(
            spec_convert_node(JsonView::Object(members)).unwrap().ty,
        ) == spec_annotation(JsonView::Object(members)),
        spec_convert_entry(JsonView::Object(members)) is Ok ==> Ok::<Option<Seq<char>>, Violation>(
            spec_convert_entry(JsonView::Object(members)).unwrap().ty,
        ) == spec_annotation(JsonView::Object(members)),
        spec_annotation(JsonView::Object(members)) is Err ==> spec_convert_node(
            JsonView::Object(members),
        ) is Err && spec_convert_entry(JsonView::Object(members)) is Err,
{
}

/// A scalar that stands by itself carries no annotation.
pub proof fn lemma_bare_scalar_has_no_annotation(json: JsonView)
    requires
        !(json is Object),
        spec_convert_entry(json) is Ok,
    ensures
        spec_convert_entry(json).unwrap().ty is None,
        spec_convert_entry(json).unwrap().name is None,
        spec_convert_value(json) == Ok::<ScalarView, Violation>(
            spec_convert_entry(json).unwrap().value,
        ),
{
}

/// A root that is no array is refused as such, whatever else is wrong with
/// it.
pub proof fn lemma_root_must_be_an_array(json: JsonView)
    requires
        !(json is Array),
    ensures
        spec_convert_document(json) == Err::<Seq<NodeView>, Violation>(Violation::RootNotArray),
{
}

/// A document has one node for each item of the array, in the same order,
/// and its error is that of the first item that is no node.
pub proof fn lemma_nodes_follow_the_array(items: Seq<JsonView>)
    ensures
        match spec_convert_document(JsonView::Array(items)) {
            Ok(nodes) => {
                &&& nodes.len() == items.len()
                &&& forall|i: int|
                    0 <= i < items.len() ==> spec_convert_node(#[trigger] items[i]) == Ok::<
                        NodeView,
                        Violation,
                    >(nodes[i])
            },
            Err(violation) => exists|i: int|
                {
                    &&& 0 <= i < items.len()
                    &&& spec_convert_node(#[trigger] items[i]) == Err::<NodeView, Violation>(
                        violation,
                    )
                    &&& forall|k: int| 0 <= k < i ==> spec_convert_node(#[trigger] items[k]) is Ok
                },
        },
{
    lemma_nodes_one_by_one(items);
    lemma_try_map(items, node_converter());
    lemma_first_refused(items, node_converter());
    if spec_convert_document(JsonView::Array(items)) is Err {
        let i = first_refused(items, node_converter());
        assert(0 <= i < items.len());
        assert(node_converter()(items[i]) == spec_convert_node(items[i]));
        assert forall|k: int| 0 <= k < i implies spec_convert_node(#[trigger] items[k]) is Ok by {
            assert(node_converter()(items[k]) is Ok);
        }
    }
}

/// The document of a tree whose objects are mappings is well formed: no
/// argument has a name, every property has one, and no node has two
/// properties of the same name.
pub proof fn lemma_document_is_well_formed(json: JsonView)
    requires
        well_formed(json),
        spec_convert_document(json) is Ok,
    ensures
        document_well_formed(spec_convert_document(json).unwrap()),
    decreases json, 1nat,
{
    let items = json->Array_0;
    let nodes = spec_convert_document(json).unwrap();
    lemma_nodes_follow_the_array(items);
    assert forall|i: int| 0 <= i < nodes.len() implies node_well_formed(#[trigger] nodes[i]) by {
        assert(spec_convert_node(items[i]) == Ok::<NodeView, Violation>(nodes[i]));
        lemma_node_is_well_formed(items[i]);
    }
}

/// The node of a tree whose objects are mappings is well formed.
pub proof fn lemma_node_is_well_formed(json: JsonView)
    requires
        well_formed(json),
        spec_convert_node(json) is Ok,
    ensures
        node_well_formed(spec_convert_node(json).unwrap()),
    decreases json, 0nat,
{
    let members = json->Object_0;
    let node = spec_convert_node(json).unwrap();
    lemma_arguments_follow_the_array(members);
    lemma_properties_follow_the_object(members);
    match lookup(members, "arguments"@) {
        Some(JsonView::Array(items)) => {
            assert forall|i: int| 0 <= i < node.arguments.len() implies (
            #[trigger] node.arguments[i]).name is None by {
                assert(spec_convert_entry(items[i]) == Ok::<EntryView, Violation>(
                    node.arguments[i],
                ));
            }
        },
        _ => {},
    }
    match lookup(members, "properties"@) {
        Some(JsonView::Object(properties)) => {
            let p = key_position(members, "properties"@);
            assert(well_formed(members[p].1));
            assert(keys_distinct(properties));
        },
        _ => {},
    }
    match lookup(members, "children"@) {
        Some(children) => {
            let p = key_position(members, "children"@);
            assert(well_formed(members[p].1));
            lemma_document_is_well_formed(children);
        },
        None => {},
    }
}

} // verus!
