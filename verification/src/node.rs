//! The element tree that a markup reader hands over, as plain values, and the
//! lookups that the bookmark format needs on it.
use vstd::prelude::*;
use crate::text::names_match;
use crate::text::same_name;

verus! {

/// One attribute of an element, as a mathematical value.
pub struct AttributeView {
    pub name: Seq<char>,
    pub value: Seq<char>,
}

/// A node and everything below it, as a mathematical value.
pub enum Tree {
    /// An element: its tag name, its attributes and its children, each in order.
    Element { name: Seq<char>, attributes: Seq<AttributeView>, children: Seq<Tree> },
    /// A run of text.
    Text { content: Seq<char> },
    /// Any other node: of such a node only the children count.
    Other { children: Seq<Tree> },
}

/// One attribute of an element.
#[derive(Debug)]
pub struct Attribute {
    pub name: String,
    pub value: String,
}

impl Attribute {
    /// This attribute as a mathematical value.
    pub open spec fn view(&self) -> AttributeView {
        AttributeView { name: self.name@, value: self.value@ }
    }
}

/// A node of a parsed document together with its descendants.
#[derive(Debug)]
pub enum Node {
    /// An element with its tag name, its attributes and its children, each in order.
    Element { name: String, attributes: Vec<Attribute>, children: Vec<Node> },
    /// A run of text.
    Text { content: String },
    /// Anything else: the document itself, a doctype, a comment.
    Other { children: Vec<Node> },
}

/// The mathematical value of an attribute that may be missing.
pub open spec fn attribute_option_view(a: Option<Attribute>) -> Option<AttributeView> {
    match a {
        Some(a) => Some(a@),
        None => None,
    }
}

/// The mathematical values of a row of attributes.
pub open spec fn attribute_views(attributes: Seq<Attribute>) -> Seq<AttributeView> {
    Seq::new(attributes.len(), |i: int| attributes[i]@)
}

/// The mathematical values of a row of nodes.
pub open spec fn views(nodes: Seq<Node>) -> Seq<Tree>
    decreases nodes,
{
    Seq::new(
        nodes.len(),
        |i: int|
            if 0 <= i < nodes.len() {
                nodes[i].view()
            } else {
                arbitrary()
            },
    )
}

impl Node {
    /// This node and what is below it as a mathematical value.
    pub open spec fn view(&self) -> Tree
        decreases self,
    {
        match self {
            Node::Element { name, attributes, children } => Tree::Element {
                name: name@,
                attributes: attribute_views(attributes@),
                children: views(children@),
            },
            Node::Text { content } => Tree::Text { content: content@ },
            Node::Other { children } => Tree::Other { children: views(children@) },
        }
    }
}

impl Tree {
    /// The nodes directly below this one; a text node has none.
    pub open spec fn children(self) -> Seq<Tree> {
        match self {
            Tree::Element { children, .. } => children,
            Tree::Text { .. } => Seq::empty(),
            Tree::Other { children } => children,
        }
    }

    /// The attributes of an element; any other node has none.
    pub open spec fn attributes(self) -> Seq<AttributeView> {
        match self {
            Tree::Element { attributes, .. } => attributes,
            _ => Seq::empty(),
        }
    }

    /// Whether this node is an element whose tag name matches `name`,
    /// the case of ASCII letters set aside.
    pub open spec fn is_element(self, name: Seq<char>) -> bool {
        self matches Tree::Element { name: own, .. } && names_match(own, name)
    }

    /// The first attribute, in the order of the element, whose name matches
    /// `name`, the case of ASCII letters set aside.
    pub open spec fn attribute(self, name: Seq<char>) -> Option<AttributeView> {
        first_attribute(self.attributes(), name, 0)
    }

    /// The value of that attribute, or the empty string where there is none.
    pub open spec fn attribute_value(self, name: Seq<char>) -> Seq<char> {
        match self.attribute(name) {
            Some(a) => a.value,
            None => Seq::empty(),
        }
    }

    /// The text of all text nodes in this tree, in document order.
    pub open spec fn text(self) -> Seq<char>
        decreases self, 0nat,
    {
        match self {
            Tree::Text { content } => content,
            _ => joined_text(self.children(), self.children().len()),
        }
    }
}

/// The first attribute at or after `start` whose name matches `name`.
pub open spec fn first_attribute(attributes: Seq<AttributeView>, name: Seq<char>, start: int) -> Option<AttributeView>
    decreases attributes.len() - start,
{
    if start < 0 || start >= attributes.len() {
        None
    } else if names_match(attributes[start].name, name) {
        Some(attributes[start])
    } else {
        first_attribute(attributes, name, start + 1)
    }
}

/// The text of the first `count` trees of `nodes`, one after another.
pub open spec fn joined_text(nodes: Seq<Tree>, count: nat) -> Seq<char>
    decreases nodes, count,
{
    if count == 0 || count > nodes.len() {
        Seq::empty()
    } else {
        joined_text(nodes, (count - 1) as nat) + nodes[count - 1].text()
    }
}

/// The index of the first tree at or after `start` that is an element named `name`.
pub open spec fn first_element(nodes: Seq<Tree>, name: Seq<char>, start: int) -> Option<int>
    decreases nodes.len() - start,
{
    if start < 0 || start >= nodes.len() {
        None
    } else if nodes[start].is_element(name) {
        Some(start)
    } else {
        first_element(nodes, name, start + 1)
    }
}

/// The index of the first tree at or after `start` that is an element,
/// whatever its name.
pub open spec fn first_of_elements(nodes: Seq<Tree>, start: int) -> Option<int>
    decreases nodes.len() - start,
{
    if start < 0 || start >= nodes.len() {
        None
    } else if nodes[start] is Element {
        Some(start)
    } else {
        first_of_elements(nodes, start + 1)
    }
}

/// A first element found at or after `start` lies in the row.
pub proof fn lemma_first_element_in_row(row: Seq<Tree>, name: Seq<char>, start: int)
    ensures
        first_element(row, name, start) matches Some(i) ==> start <= i < row.len()
            && row[i].is_element(name),
    decreases row.len() - start,
{
    if 0 <= start < row.len() && !row[start].is_element(name) {
        lemma_first_element_in_row(row, name, start + 1);
    }
}

impl Node {
    /// The nodes directly below this one.
    pub fn children(&self) -> (out: &[Node])
        ensures
            views(out@) == self@.children(),
    {
        match self {
            Node::Element { children, .. } => children.as_slice(),
            Node::Text { .. } => &[],
            Node::Other { children } => children.as_slice(),
        }
    }

    /// Whether this node is an element, whatever its name.
    pub fn is_any_element(&self) -> (out: bool)
        ensures
            out == (self@ is Element),
    {
        match self {
            Node::Element { .. } => true,
            _ => false,
        }
    }

    /// Whether this node is an element whose tag name matches `tag_name`.
    pub fn is_element(&self, tag_name: &str) -> (out: bool)
        ensures
            out == self@.is_element(tag_name@),
    {
        match self {
            Node::Element { name, .. } => same_name(name.as_str(), tag_name),
            _ => false,
        }
    }

    /// The first attribute of an element whose name matches `attribute_name`.
    pub fn select_attribute(&self, attribute_name: &str) -> (out: Option<Attribute>)
        ensures
            attribute_option_view(out) == self@.attribute(attribute_name@),
    {
        match self {
            Node::Element { attributes, .. } => {
                let mut i: usize = 0;
                while i < attributes.len()
                    invariant
                        i <= attributes.len(),
                        self@.attributes() == attribute_views(attributes@),
                        self@.attribute(attribute_name@) == first_attribute(
                            attribute_views(attributes@),
                            attribute_name@,
                            i as int,
                        ),
                    decreases attributes.len() - i,
                {
                    if same_name(attributes[i].name.as_str(), attribute_name) {
                        return Some(
                            Attribute {
                                name: attributes[i].name.clone(),
                                value: attributes[i].value.clone(),
                            },
                        );
                    }
                    i = i + 1;
                }
                None
            },
            _ => None,
        }
    }

    /// The text of all text nodes in this tree, in document order.
    pub fn text_contents(&self) -> (out: String)
        ensures
            out@ == self@.text(),
        decreases self, 0nat,
    {
        match self {
            Node::Text { content } => content.clone(),
            Node::Element { children, .. } => text_of_all(children),
            Node::Other { children } => text_of_all(children),
        }
    }
}

/// The text of a row of trees, one after another.
fn text_of_all(nodes: &Vec<Node>) -> (out: String)
    ensures
        out@ == joined_text(views(nodes@), nodes@.len()),
    decreases nodes, 1nat,
{
    let mut out = String::new();
    let mut i: usize = 0;
    while i < nodes.len()
        invariant
            i <= nodes.len(),
            out@ == joined_text(views(nodes@), i as nat),
        decreases nodes.len() - i,
    {
        let piece = nodes[i].text_contents();
        out.append(piece.as_str());
        i = i + 1;
    }
    out
}

} // verus!
