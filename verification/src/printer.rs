//! The `kdl` crate as this library uses it: what its documents hold, how they
//! are built, and its formatting passes. Everything stated here about `kdl`
//! is taken from its source and is not proved.

use vstd::prelude::*;

verus! {

/// A document of `kdl`: a whole document, or the children of a node.
#[verifier::external_type_specification]
#[verifier::external_body]
pub struct ExKdlDocument(kdl::KdlDocument);

/// A node of `kdl`.
#[verifier::external_type_specification]
#[verifier::external_body]
pub struct ExKdlNode(kdl::KdlNode);

/// An argument or a property of `kdl`.
#[verifier::external_type_specification]
#[verifier::external_body]
pub struct ExKdlEntry(kdl::KdlEntry);

/// What a `kdl::KdlIdentifier` holds: the name and, if it was given one, the
/// text that is printed in place of the name.
pub struct IdentifierModel {
    pub value: Seq<char>,
    pub repr: Option<Seq<char>>,
}

/// What a `kdl::KdlValue` holds.
pub enum ValueModel {
    String(Seq<char>),
    Integer(int),
    /// A floating-point number, by its bit pattern. This library builds none.
    Float(int),
    Bool(bool),
    Null,
}

/// What a `kdl::KdlEntryFormat` holds.
pub struct EntryFormatModel {
    pub value_repr: Seq<char>,
    pub leading: Seq<char>,
    pub trailing: Seq<char>,
    pub after_ty: Seq<char>,
    pub before_ty_name: Seq<char>,
    pub after_ty_name: Seq<char>,
    pub after_key: Seq<char>,
    pub after_eq: Seq<char>,
    pub autoformat_keep: bool,
}

/// What a `kdl::KdlEntry` holds, but for its span.
pub struct EntryModel {
    pub ty: Option<IdentifierModel>,
    pub value: ValueModel,
    pub name: Option<IdentifierModel>,
    pub format: Option<EntryFormatModel>,
}

/// What a `kdl::KdlNodeFormat` holds.
pub struct NodeFormatModel {
    pub leading: Seq<char>,
    pub before_ty_name: Seq<char>,
    pub after_ty_name: Seq<char>,
    pub after_ty: Seq<char>,
    pub before_children: Seq<char>,
    pub before_terminator: Seq<char>,
    pub terminator: Seq<char>,
    pub trailing: Seq<char>,
}

/// What a `kdl::KdlNode` holds, but for its span.
pub struct NodeModel {
    pub ty: Option<IdentifierModel>,
    pub name: IdentifierModel,
    pub entries: Seq<EntryModel>,
    pub children: Option<DocumentModel>,
    pub format: Option<NodeFormatModel>,
}

/// What a `kdl::KdlDocumentFormat` holds.
pub struct DocumentFormatModel {
    pub leading: Seq<char>,
    pub trailing: Seq<char>,
}

/// What a `kdl::KdlDocument` holds, but for its span.
pub struct DocumentModel {
    pub nodes: Seq<NodeModel>,
    pub format: Option<DocumentFormatModel>,
}

/// The identifier that `kdl` makes from a string: the string is its name, and
/// nothing is printed in its place.
pub open spec fn identifier(name: Seq<char>) -> IdentifierModel {
    IdentifierModel { value: name, repr: None }
}

/// The format of an entry whose value has a text of its own: the text, what
/// is printed before it, whether automatic formatting keeps both, and
/// nothing in any other place.
pub open spec fn entry_format(
    value_repr: Seq<char>,
    leading: Seq<char>,
    autoformat_keep: bool,
) -> EntryFormatModel {
    EntryFormatModel {
        value_repr,
        leading,
        trailing: Seq::empty(),
        after_ty: Seq::empty(),
        before_ty_name: Seq::empty(),
        after_ty_name: Seq::empty(),
        after_key: Seq::empty(),
        after_eq: Seq::empty(),
        autoformat_keep,
    }
}

/// The format that `kdl::KdlNode::new` gives to a node: a line break after
/// it and nothing in any other place.
pub open spec fn new_node_format() -> NodeFormatModel {
    NodeFormatModel {
        leading: Seq::empty(),
        before_ty_name: Seq::empty(),
        after_ty_name: Seq::empty(),
        after_ty: Seq::empty(),
        before_children: Seq::empty(),
        before_terminator: Seq::empty(),
        terminator: Seq::empty(),
        trailing: "\n"@,
    }
}

/// What a document of `kdl` holds.
pub uninterp spec fn document_model(document: kdl::KdlDocument) -> DocumentModel;

/// What a node of `kdl` holds.
pub uninterp spec fn node_model(node: kdl::KdlNode) -> NodeModel;

/// What an entry of `kdl` holds.
pub uninterp spec fn entry_model(entry: kdl::KdlEntry) -> EntryModel;

/// What `kdl::KdlDocument::autoformat` makes of a document.
pub uninterp spec fn kdl_autoformatted(document: DocumentModel) -> DocumentModel;

/// What `kdl::KdlDocument::ensure_v1` makes of a document.
pub uninterp spec fn kdl_as_v1(document: DocumentModel) -> DocumentModel;

/// What `kdl::KdlDocument::ensure_v2` makes of a document.
pub uninterp spec fn kdl_as_v2(document: DocumentModel) -> DocumentModel;

/// The text that `kdl` prints for a document.
pub uninterp spec fn kdl_printed(document: DocumentModel) -> Seq<char>;

/// A value that an entry of `kdl` can be made with.
pub enum Payload {
    String(String),
    Integer(i128),
    Bool(bool),
    Null,
}

impl View for Payload {
    type V = ValueModel;

    open spec fn view(&self) -> ValueModel {
        match *self {
            Payload::String(text) => ValueModel::String(text@),
            Payload::Integer(number) => ValueModel::Integer(number as int),
            Payload::Bool(b) => ValueModel::Bool(b),
            Payload::Null => ValueModel::Null,
        }
    }
}

/// Calls `kdl::KdlDocument::new`: no nodes and no format.
#[verifier::external_body]
pub(crate) fn kdl_document_new() -> (document: kdl::KdlDocument)
    ensures
        document_model(document) == (DocumentModel { nodes: Seq::empty(), format: None }),
{
    kdl::KdlDocument::new()
}

/// What the nodes of a vector hold.
pub open spec fn node_models(nodes: Seq<kdl::KdlNode>) -> Seq<NodeModel> {
    Seq::new(nodes.len(), |i: int| node_model(nodes[i]))
}

/// Calls `kdl::KdlDocument::nodes_mut`: hands out the vector of the
/// document's nodes. What the vector holds when the caller is done with it
/// are the nodes of the document; nothing else changes.
#[verifier::external_body]
pub(crate) fn kdl_document_nodes_mut(document: &mut kdl::KdlDocument) -> (nodes: &mut Vec<
    kdl::KdlNode,
>)
    ensures
        node_models(nodes@) == document_model(*old(document)).nodes,
        document_model(*final(document)) == (DocumentModel {
            nodes: node_models(final(nodes)@),
            ..document_model(*old(document))
        }),
{
    document.nodes_mut()
}

/// Calls `kdl::KdlNode::new`: a node of that name without annotation,
/// entries or children, followed by a line break.
#[verifier::external_body]
pub(crate) fn kdl_node_new(name: &str) -> (node: kdl::KdlNode)
    ensures
        node_model(node) == (NodeModel {
            ty: None,
            name: identifier(name@),
            entries: Seq::empty(),
            children: None,
            format: Some(new_node_format()),
        }),
{
    kdl::KdlNode::new(name)
}

/// Calls `kdl::KdlNode::push`: the entry becomes the last one, nothing else
/// changes.
#[verifier::external_body]
pub(crate) fn kdl_node_push(node: &mut kdl::KdlNode, entry: kdl::KdlEntry)
    ensures
        node_model(*final(node)) == (NodeModel {
            entries: node_model(*old(node)).entries.push(entry_model(entry)),
            ..node_model(*old(node))
        }),
{
    node.push(entry);
}

/// Calls `kdl::KdlNode::set_children`: the document becomes the block of
/// children, nothing else changes.
#[verifier::external_body]
pub(crate) fn kdl_node_set_children(node: &mut kdl::KdlNode, children: kdl::KdlDocument)
    ensures
        node_model(*final(node)) == (NodeModel {
            children: Some(document_model(children)),
            ..node_model(*old(node))
        }),
{
    node.set_children(children);
}

/// Calls `kdl::KdlNode::set_ty` with a string: the identifier made from it
/// becomes the annotation, nothing else changes.
#[verifier::external_body]
pub(crate) fn kdl_node_set_ty(node: &mut kdl::KdlNode, ty: &str)
    ensures
        node_model(*final(node)) == (NodeModel {
            ty: Some(identifier(ty@)),
            ..node_model(*old(node))
        }),
{
    node.set_ty(ty);
}

/// Calls `kdl::KdlEntry::new`: an entry with that value and without name,
/// annotation or format.
#[verifier::external_body]
pub(crate) fn kdl_entry_new(value: Payload) -> (entry: kdl::KdlEntry)
    ensures
        entry_model(entry) == (EntryModel { ty: None, value: value@, name: None, format: None }),
{
    kdl::KdlEntry::new(
        match value {
            Payload::String(text) => kdl::KdlValue::String(text),
            Payload::Integer(number) => kdl::KdlValue::Integer(number),
            Payload::Bool(b) => kdl::KdlValue::Bool(b),
            Payload::Null => kdl::KdlValue::Null,
        },
    )
}

/// Calls `kdl::KdlEntry::set_name` with a string: the identifier made from it
/// becomes the name, nothing else changes.
#[verifier::external_body]
pub(crate) fn kdl_entry_set_name(entry: &mut kdl::KdlEntry, name: &str)
    ensures
        entry_model(*final(entry)) == (EntryModel {
            name: Some(identifier(name@)),
            ..entry_model(*old(entry))
        }),
{
    entry.set_name(Some(name));
}

/// Calls `kdl::KdlEntry::set_ty` with a string: the identifier made from it
/// becomes the annotation, nothing else changes.
#[verifier::external_body]
pub(crate) fn kdl_entry_set_ty(entry: &mut kdl::KdlEntry, ty: &str)
    ensures
        entry_model(*final(entry)) == (EntryModel {
            ty: Some(identifier(ty@)),
            ..entry_model(*old(entry))
        }),
{
    entry.set_ty(ty);
}

/// Calls `kdl::KdlEntry::set_format` with a `kdl::KdlEntryFormat` that holds
/// the three values given and the default, which is empty, in every other
/// field: that format becomes the entry's, nothing else changes.
#[verifier::external_body]
pub(crate) fn kdl_entry_set_format(
    entry: &mut kdl::KdlEntry,
    value_repr: &str,
    leading: &str,
    autoformat_keep: bool,
)
    ensures
        entry_model(*final(entry)) == (EntryModel {
            format: Some(entry_format(value_repr@, leading@, autoformat_keep)),
            ..entry_model(*old(entry))
        }),
{
    entry.set_format(
        kdl::KdlEntryFormat {
            value_repr: value_repr.into(),
            leading: leading.into(),
            autoformat_keep,
            ..Default::default()
        },
    );
}

/// Calls `kdl::KdlDocument::autoformat`, which reads nothing but the
/// document.
#[verifier::external_body]
pub(crate) fn kdl_autoformat(document: &mut kdl::KdlDocument)
    ensures
        document_model(*final(document)) == kdl_autoformatted(document_model(*old(document))),
{
    document.autoformat();
}

/// Calls `kdl::KdlDocument::ensure_v1`, which reads nothing but the document.
#[verifier::external_body]
pub(crate) fn kdl_ensure_v1(document: &mut kdl::KdlDocument)
    ensures
        document_model(*final(document)) == kdl_as_v1(document_model(*old(document))),
{
    document.ensure_v1();
}

/// Calls `kdl::KdlDocument::ensure_v2`, which reads nothing but the document.
#[verifier::external_body]
pub(crate) fn kdl_ensure_v2(document: &mut kdl::KdlDocument)
    ensures
        document_model(*final(document)) == kdl_as_v2(document_model(*old(document))),
{
    document.ensure_v2();
}

/// Calls `to_string` of `kdl::KdlDocument`, that is its `Display`
/// implementation, which reads nothing but the document.
#[verifier::external_body]
pub(crate) fn kdl_print(document: &kdl::KdlDocument) -> (text: String)
    ensures
        text@ == kdl_printed(document_model(*document)),
{
    document.to_string()
}

} // verus!
