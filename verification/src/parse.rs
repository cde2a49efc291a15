//! Reading markup text into an element tree. The reading itself is the work of
//! the `kuchiki` crate, which follows the HTML parsing rules.
use vstd::prelude::*;
use kuchiki::traits::TendrilSink;
use crate::node::Attribute;
use crate::node::Node;
use crate::node::Tree;

verus! {

/// `kuchiki::NodeRef`: a handle on a node of the outside crate's own tree.
#[verifier::external_type_specification]
#[verifier::external_body]
pub struct ExNodeRef(kuchiki::NodeRef);

/// What the tree below a `kuchiki::NodeRef` holds, node by node: an element
/// with the local part of its name, its attributes in the order of
/// `Attributes::map`, each with the local part of its name and its value, and
/// its children; a text node with its text; any other node with its children.
pub uninterp spec fn held_tree(node: kuchiki::NodeRef) -> Tree;

/// What the document that `kuchiki::parse_html().one(raw)` builds from the
/// text `raw` holds.
pub uninterp spec fn parsed_tree(raw: Seq<char>) -> Tree;

/// The longest text, in bytes, that is read: a third of `2^31`.
pub const MAX_MARKUP_LEN: usize = 715_827_882;

/// Calls `kuchiki::parse_html().one(raw)`. The parser reports no error, and
/// the document that it builds depends on the text alone. Its buffers round
/// their capacity up to a power of two that must fit in a `u32`, and panic
/// where a buffer would grow past `2^31` bytes. A buffer holds at most what
/// the text holds, but that a NUL byte of the text takes three bytes in it.
/// So the text may have a third of `2^31` bytes.
#[verifier::external_body]
fn read_document(raw: &str) -> (out: kuchiki::NodeRef)
    requires
        raw.len() <= MAX_MARKUP_LEN,
    ensures
        held_tree(out) == parsed_tree(raw@),
{
    kuchiki::parse_html().one(raw)
}

/// Copies the tree below a `kuchiki::NodeRef`, read through `children`,
/// `data` and the fields of `ElementData`, into a `Node` that holds the same.
/// The handle is that of a tree that nothing else holds: this function and
/// `read_document` stay private and are called one after the other.
#[verifier::external_body]
fn copy_node(node: &kuchiki::NodeRef) -> (out: Node)
    ensures
        out@ == held_tree(*node),
{
    let mut children = Vec::new();
    for child in node.children() {
        children.push(copy_node(&child));
    }
    match node.data() {
        kuchiki::NodeData::Element(e) => Node::Element {
            name: e.name.local.to_string(),
            attributes: e.attributes.borrow().map.iter().map(
                |(k, v)| Attribute { name: k.local.to_string(), value: v.value.clone() },
            ).collect(),
            children,
        },
        kuchiki::NodeData::Text(t) => Node::Text { content: t.borrow().clone() },
        _ => Node::Other { children },
    }
}

/// Reads markup text of at most `MAX_MARKUP_LEN` bytes into its document tree.
pub fn parse_html(raw: &str) -> (out: Node)
    requires
        raw.len() <= MAX_MARKUP_LEN,
    ensures
        out@ == parsed_tree(raw@),
{
    let document = read_document(raw);
    copy_node(&document)
}

} // verus!
