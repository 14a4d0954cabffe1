//! The result of a conversion: a document of nodes, each with positional
//! entries, named entries, an optional block of children and an optional type
//! annotation.

use vstd::prelude::*;

verus! {

/// The mathematical value of a [`Scalar`].
pub enum ScalarView {
    Null,
    Bool(bool),
    String(Seq<char>),
    /// A number, as the characters that are printed for it.
    Number(Seq<char>),
}

/// The mathematical value of an [`Entry`].
pub struct EntryView {
    pub value: ScalarView,
    pub name: Option<Seq<char>>,
    pub ty: Option<Seq<char>>,
}

/// The mathematical value of a [`Node`].
pub struct NodeView {
    pub name: Seq<char>,
    pub arguments: Seq<EntryView>,
    pub properties: Seq<EntryView>,
    pub children: Option<Seq<NodeView>>,
    pub ty: Option<Seq<char>>,
}

/// What an entry holds. A number is the text of its literal: there is no
/// numeric payload that could be read back in its place.
#[derive(Debug, PartialEq, Eq)]
pub enum Scalar {
    Null,
    Bool(bool),
    String(String),
    Number(String),
}

/// One value attached to a node: an argument if it has no name, a property
/// if it has one.
#[derive(Debug, PartialEq, Eq)]
pub struct Entry {
    pub value: Scalar,
    pub name: Option<String>,
    pub ty: Option<String>,
}

/// A named node of a document.
#[derive(Debug, PartialEq, Eq)]
pub struct Node {
    pub name: String,
    /// The positional entries, in order.
    pub arguments: Vec<Entry>,
    /// The named entries, in the order in which their names were inserted.
    pub properties: Vec<Entry>,
    /// The block of children. A node without a block differs from a node
    /// with an empty one.
    pub children: Option<Document>,
    pub ty: Option<String>,
}

/// An ordered sequence of nodes: a whole document, or the children of a node.
#[derive(Debug, PartialEq, Eq)]
pub struct Document {
    pub nodes: Vec<Node>,
}

/// The characters of an optional string.
pub open spec fn text_view(text: Option<String>) -> Option<Seq<char>> {
    match text {
        Some(text) => Some(text@),
        None => None,
    }
}

impl View for Scalar {
    type V = ScalarView;

    open spec fn view(&self) -> ScalarView {
        match *self {
            Scalar::Null => ScalarView::Null,
            Scalar::Bool(b) => ScalarView::Bool(b),
            Scalar::String(text) => ScalarView::String(text@),
            Scalar::Number(literal) => ScalarView::Number(literal@),
        }
    }
}

impl View for Entry {
    type V = EntryView;

    open spec fn view(&self) -> EntryView {
        EntryView { value: self.value@, name: text_view(self.name), ty: text_view(self.ty) }
    }
}

/// The values of a list of entries.
pub open spec fn entries_view(entries: Seq<Entry>) -> Seq<EntryView> {
    Seq::new(entries.len(), |i: int| entries[i]@)
}

/// The value of a node.
pub open spec fn node_view(node: Node) -> NodeView
    decreases node,
{
    NodeView {
        name: node.name@,
        arguments: entries_view(node.arguments@),
        properties: entries_view(node.properties@),
        children: match node.children {
            Some(document) => Some(nodes_view(document.nodes@)),
            None => None,
        },
        ty: text_view(node.ty),
    }
}

/// The values of a list of nodes.
pub open spec fn nodes_view(nodes: Seq<Node>) -> Seq<NodeView>
    decreases nodes,
{
    Seq::new(
        nodes.len(),
        |i: int|
            if 0 <= i < nodes.len() {
                node_view(nodes[i])
            } else {
                arbitrary()
            },
    )
}

impl View for Node {
    type V = NodeView;

    open spec fn view(&self) -> NodeView {
        node_view(*self)
    }
}

impl View for Document {
    type V = Seq<NodeView>;

    open spec fn view(&self) -> Seq<NodeView> {
        nodes_view(self.nodes@)
    }
}

/// No name occurs twice among `properties`, and each of them has one.
pub open spec fn names_distinct(properties: Seq<EntryView>) -> bool {
    &&& forall|i: int| 0 <= i < properties.len() ==> (#[trigger] properties[i]).name is Some
    &&& forall|i: int, j: int|
        0 <= i < j < properties.len() ==> (#[trigger] properties[i]).name != (
        #[trigger] properties[j]).name
}

/// The arguments of the node have no name, its properties have one each and
/// no two the same, and the same holds in its children.
pub open spec fn node_well_formed(node: NodeView) -> bool
    decreases node,
{
    &&& forall|i: int| 0 <= i < node.arguments.len() ==> (#[trigger] node.arguments[i]).name is None
    &&& names_distinct(node.properties)
    &&& match node.children {
        Some(children) => forall|i: int|
            0 <= i < children.len() ==> node_well_formed(#[trigger] children[i]),
        None => true,
    }
}

/// Every node of the document is well formed.
pub open spec fn document_well_formed(nodes: Seq<NodeView>) -> bool {
    forall|i: int| 0 <= i < nodes.len() ==> node_well_formed(#[trigger] nodes[i])
}

} // verus!
