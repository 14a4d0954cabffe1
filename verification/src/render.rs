//! From a document of this library to KDL text: the document is rebuilt as a
//! document of `kdl`, formatted, brought to the version asked for, and
//! printed.

use vstd::prelude::*;
use crate::convert::KdlVersion;
use crate::document::{
    entries_view, Document, Entry, EntryView, Node, NodeView, Scalar, ScalarView,
};
use crate::printer::{
    entry_format, entry_model, document_model, identifier, kdl_as_v1, kdl_as_v2, kdl_autoformat,
    kdl_autoformatted, kdl_document_new, kdl_document_nodes_mut, kdl_ensure_v1, kdl_ensure_v2,
    kdl_entry_new, kdl_entry_set_format, kdl_entry_set_name, kdl_entry_set_ty, kdl_node_new,
    kdl_node_push, kdl_node_set_children, kdl_node_set_ty, kdl_print, kdl_printed,
    new_node_format, node_model, node_models, DocumentModel, EntryModel, IdentifierModel,
    NodeModel, Payload, ValueModel,
};

verus! {

/// The identifier of an optional name.
pub open spec fn encode_name(name: Option<Seq<char>>) -> Option<IdentifierModel> {
    match name {
        Some(name) => Some(identifier(name)),
        None => None,
    }
}

/// The entry of `kdl` that carries a numeric literal. Its value is an
/// integer, one of the two kinds of value whose text `kdl` leaves alone when
/// it brings a document to a version; the number itself is never read. Its
/// format holds the literal as the text to print, one space before it, and
/// the mark that keeps automatic formatting from dropping either.
pub open spec fn literal_model(literal: Seq<char>) -> EntryModel {
    EntryModel {
        ty: None,
        value: ValueModel::Integer(0),
        name: None,
        format: Some(entry_format(literal, " "@, true)),
    }
}

/// The entry of `kdl` that stands for an entry.
pub open spec fn encode_entry(entry: EntryView) -> EntryModel {
    let bare = match entry.value {
        ScalarView::Null => EntryModel {
            ty: None,
            value: ValueModel::Null,
            name: None,
            format: None,
        },
        ScalarView::Bool(b) => EntryModel {
            ty: None,
            value: ValueModel::Bool(b),
            name: None,
            format: None,
        },
        ScalarView::String(text) => EntryModel {
            ty: None,
            value: ValueModel::String(text),
            name: None,
            format: None,
        },
        ScalarView::Number(literal) => literal_model(literal),
    };
    EntryModel { ty: encode_name(entry.ty), name: encode_name(entry.name), ..bare }
}

/// The entries of `kdl` that stand for a list of entries.
pub open spec fn encode_entries(entries: Seq<EntryView>) -> Seq<EntryModel> {
    Seq::new(entries.len(), |i: int| encode_entry(entries[i]))
}

/// The node of `kdl` that stands for a node: its arguments come first, its
/// properties after them.
pub open spec fn encode_node(node: NodeView) -> NodeModel
    decreases node,
{
    NodeModel {
        ty: encode_name(node.ty),
        name: identifier(node.name),
        entries: encode_entries(node.arguments) + encode_entries(node.properties),
        children: match node.children {
            Some(children) => Some(encode_document(children)),
            None => None,
        },
        format: Some(new_node_format()),
    }
}

/// The document of `kdl` that stands for a document.
pub open spec fn encode_document(nodes: Seq<NodeView>) -> DocumentModel
    decreases nodes,
{
    DocumentModel {
        nodes: Seq::new(
            nodes.len(),
            |i: int|
                if 0 <= i < nodes.len() {
                    encode_node(nodes[i])
                } else {
                    arbitrary()
                },
        ),
        format: None,
    }
}

/// The text of a document in a version of KDL: what `kdl` prints after it
/// has formatted the document and then, in this order, brought it to the
/// version.
pub open spec fn spec_render(nodes: Seq<NodeView>, version: KdlVersion) -> Seq<char> {
    let formatted = kdl_autoformatted(encode_document(nodes));
    match version {
        KdlVersion::V1 => kdl_printed(kdl_as_v1(formatted)),
        KdlVersion::V2 => kdl_printed(kdl_as_v2(formatted)),
    }
}

/// A numeric literal reaches the printer as it was written: the entry of
/// `kdl` that stands for a number holds the characters of the literal as the
/// text to print, and is marked so that automatic formatting keeps them.
pub proof fn lemma_literal_reaches_the_printer(entry: EntryView, literal: Seq<char>)
    requires
        entry.value == ScalarView::Number(literal),
    ensures
        encode_entry(entry).value is Integer,
        encode_entry(entry).format matches Some(format) && format.value_repr == literal
            && format.autoformat_keep && format.leading == " "@,
{
}

/// Builds the entry of `kdl` that prints `literal` as it stands.
pub fn literal_entry(literal: &str) -> (entry: kdl::KdlEntry)
    ensures
        entry_model(entry) == literal_model(literal@),
{
    let mut entry = kdl_entry_new(Payload::Integer(0));
    kdl_entry_set_format(&mut entry, literal, " ", true);
    entry
}

/// Builds the entry of `kdl` that stands for `entry`.
pub fn lower_entry(entry: &Entry) -> (lowered: kdl::KdlEntry)
    ensures
        entry_model(lowered) == encode_entry(entry@),
{
    let mut lowered = match &entry.value {
        Scalar::Null => kdl_entry_new(Payload::Null),
        Scalar::Bool(b) => kdl_entry_new(Payload::Bool(*b)),
        Scalar::String(text) => kdl_entry_new(Payload::String(text.clone())),
        Scalar::Number(literal) => literal_entry(literal.as_str()),
    };
    match &entry.ty {
        Some(ty) => {
            kdl_entry_set_ty(&mut lowered, ty.as_str());
        },
        None => {},
    }
    match &entry.name {
        Some(name) => {
            kdl_entry_set_name(&mut lowered, name.as_str());
        },
        None => {},
    }
    lowered
}

/// Appends the entries of `kdl` that stand for `entries` to a node.
fn push_entries(node: &mut kdl::KdlNode, entries: &Vec<Entry>)
    ensures
        node_model(*final(node)) == (NodeModel {
            entries: node_model(*old(node)).entries + encode_entries(
                entries_view(entries@),
            ),
            ..node_model(*old(node))
        }),
{
    let ghost before = node_model(*node);
    let ghost views = entries_view(entries@);
    let mut i: usize = 0;
    assert(before.entries + encode_entries(views.take(0)) =~= before.entries);
    while i < entries.len()
        invariant
            i <= entries.len(),
            views == entries_view(entries@),
            node_model(*node) == (NodeModel {
                entries: before.entries + encode_entries(views.take(i as int)),
                ..before
            }),
        decreases entries.len() - i,
    {
        let lowered = lower_entry(&entries[i]);
        kdl_node_push(node, lowered);
        assert(before.entries + encode_entries(views.take(i + 1)) =~= (before.entries
            + encode_entries(views.take(i as int))).push(encode_entry(views[i as int])));
        i += 1;
    }
    assert(views.take(i as int) =~= views);
}

/// Builds the node of `kdl` that stands for `node`.
pub fn lower_node(node: &Node) -> (lowered: kdl::KdlNode)
    ensures
        node_model(lowered) == encode_node(node@),
    decreases node@,
{
    let mut lowered = kdl_node_new(node.name.as_str());
    push_entries(&mut lowered, &node.arguments);
    push_entries(&mut lowered, &node.properties);
    match &node.children {
        Some(children) => {
            let block = lower_document(children);
            kdl_node_set_children(&mut lowered, block);
        },
        None => {},
    }
    match &node.ty {
        Some(ty) => {
            kdl_node_set_ty(&mut lowered, ty.as_str());
        },
        None => {},
    }
    assert(node_model(lowered).entries =~= encode_node(node@).entries);
    lowered
}

/// Builds the document of `kdl` that stands for `document`.
pub fn lower_document(document: &Document) -> (lowered: kdl::KdlDocument)
    ensures
        document_model(lowered) == encode_document(document@),
    decreases document@,
{
    let mut lowered = kdl_document_new();
    let ghost views = document@;
    let mut i: usize = 0;
    assert(encode_document(views).nodes.take(0) =~= Seq::empty());
    while i < document.nodes.len()
        invariant
            i <= document.nodes.len(),
            views == document@,
            views.len() == document.nodes@.len(),
            document_model(lowered) == (DocumentModel {
                nodes: encode_document(views).nodes.take(i as int),
                format: None,
            }),
        decreases document.nodes.len() - i,
    {
        assert(views[i as int] == document.nodes@[i as int]@);
        let node = lower_node(&document.nodes[i]);
        let ghost before = document_model(lowered);
        let nodes = kdl_document_nodes_mut(&mut lowered);
        nodes.push(node);
        assert(document_model(lowered).nodes =~= before.nodes.push(node_model(node)));
        assert(encode_document(views).nodes.take(i + 1) =~= encode_document(views).nodes.take(
            i as int,
        ).push(encode_node(views[i as int])));
        i += 1;
    }
    assert(encode_document(views).nodes.take(i as int) =~= encode_document(views).nodes);
    lowered
}

/// Prints a document as KDL text of the given version. The document is
/// formatted first and brought to the version second: in the other order
/// `kdl` prints something else.
pub fn render(document: &Document, version: KdlVersion) -> (text: String)
    ensures
        text@ == spec_render(document@, version),
{
    let mut lowered = lower_document(document);
    kdl_autoformat(&mut lowered);
    match version {
        KdlVersion::V1 => kdl_ensure_v1(&mut lowered),
        KdlVersion::V2 => kdl_ensure_v2(&mut lowered),
    }
    kdl_print(&lowered)
}

} // verus!
