//! KDL documents, read by the `kdl` crate and seen here as trees of plain
//! values.
use vstd::prelude::*;
use kdl::{KdlDocument, KdlNode};

verus! {

#[verifier::external_type_specification]
#[verifier::external_body]
pub struct ExKdlDocument(KdlDocument);

#[verifier::external_type_specification]
#[verifier::external_body]
pub struct ExKdlNode(KdlNode);

/// A KDL node as plain values: its name; what its first entry holds (`None`
/// when it has no entry, `Some(None)` when the first entry's value is not a
/// string); and its children, if it has a children block.
pub struct KdlTree {
    pub name: Seq<char>,
    pub first_string: Option<Option<Seq<char>>>,
    pub children: Option<Seq<KdlTree>>,
}

/// The nodes of a document, in order.
pub uninterp spec fn kdl_nodes(doc: KdlDocument) -> Seq<KdlTree>;

/// A node's contents.
pub uninterp spec fn kdl_node(node: KdlNode) -> KdlTree;

/// The nodes `kdl` reads from a text, or `None` where it rejects the text.
pub uninterp spec fn kdl_parse(text: Seq<char>) -> Option<Seq<KdlTree>>;

/// The first node of `nodes` named `name`.
pub open spec fn first_named(nodes: Seq<KdlTree>, name: Seq<char>) -> Option<KdlTree>
    decreases nodes.len(),
{
    if nodes.len() == 0 {
        None
    } else if nodes[0].name == name {
        Some(nodes[0])
    } else {
        first_named(nodes.drop_first(), name)
    }
}

/// Calls `KdlDocument::parse` (through `str::parse`).
///
/// Claims: the document is the named [`kdl_parse`] of the text, and an error
/// comes exactly where that is `None`; the error's text is `kdl`'s message,
/// of which nothing is claimed.
#[verifier::external_body]
pub(crate) fn parse_document(text: &str) -> (r: Result<KdlDocument, String>)
    ensures
        match r {
            Ok(d) => kdl_parse(text@) == Some(kdl_nodes(d)),
            Err(_) => kdl_parse(text@) is None,
        },
{
    match text.parse::<KdlDocument>() {
        Ok(d) => Ok(d),
        Err(e) => Err(e.to_string()),
    }
}

/// Calls `KdlDocument::get`, which the crate's source writes as the first
/// node whose name equals `name`.
#[verifier::external_body]
pub(crate) fn document_get<'a>(doc: &'a KdlDocument, name: &str) -> (r: Option<&'a KdlNode>)
    ensures
        match r {
            Some(n) => first_named(kdl_nodes(*doc), name@) == Some(kdl_node(*n)),
            None => first_named(kdl_nodes(*doc), name@) is None,
        },
{
    doc.get(name)
}

/// Calls `KdlDocument::nodes`: the document's nodes, in order.
#[verifier::external_body]
pub(crate) fn document_nodes(doc: &KdlDocument) -> (r: &[KdlNode])
    ensures
        r@.len() == kdl_nodes(*doc).len(),
        forall|i: int| 0 <= i < r@.len() ==> kdl_node(#[trigger] r@[i]) == kdl_nodes(*doc)[i],
{
    doc.nodes()
}

/// Calls `KdlNode::name` and the identifier's `value`: the node's name as
/// text.
#[verifier::external_body]
pub(crate) fn node_name(node: &KdlNode) -> (r: String)
    ensures
        r@ == kdl_node(*node).name,
{
    node.name().value().to_string()
}

/// Calls `KdlNode::entries`, and on the first entry `value` and
/// `KdlValue::as_string`: `None` for a node without entries, `Some(None)`
/// when the first entry's value is not a string.
#[verifier::external_body]
pub(crate) fn node_first_string(node: &KdlNode) -> (r: Option<Option<String>>)
    ensures
        match r {
            None => kdl_node(*node).first_string is None,
            Some(None) => kdl_node(*node).first_string == Some(None::<Seq<char>>),
            Some(Some(s)) => kdl_node(*node).first_string == Some(Some(s@)),
        },
{
    match node.entries().first() {
        None => None,
        Some(e) => match e.value().as_string() {
            Some(s) => Some(Some(s.to_string())),
            None => Some(None),
        },
    }
}

/// Calls `KdlNode::children`: the node's children block, if it has one.
#[verifier::external_body]
pub(crate) fn node_children(node: &KdlNode) -> (r: Option<&KdlDocument>)
    ensures
        match r {
            Some(d) => kdl_node(*node).children == Some(kdl_nodes(*d)),
            None => kdl_node(*node).children is None,
        },
{
    node.children()
}

} // verus!
