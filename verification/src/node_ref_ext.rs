//! A position in an element tree: a node together with the row of siblings it
//! stands in, so that what follows a node can be reached from it.
use vstd::prelude::*;
use crate::node::Attribute;
use crate::node::attribute_option_view;
use crate::node::Node;
use crate::node::Tree;
use crate::node::first_element;
use crate::node::first_of_elements;
use crate::node::views;

verus! {

/// `core::slice::from_ref`: the slice of length one that holds the value referred to.
pub assume_specification<T>[ core::slice::from_ref::<T> ](s: &T) -> (out: &[T])
    ensures
        out@ == seq![*s],
;

/// A node seen in its row of siblings.
#[derive(Clone, Copy, Debug)]
pub struct Cursor<'a> {
    siblings: &'a [Node],
    index: usize,
}

/// The place of the first element named `name`, in document order, in the tree
/// at `index` of `row`, that tree's own root included: the row it stands in and
/// its index there.
pub open spec fn first_match(row: Seq<Tree>, index: int, name: Seq<char>) -> Option<(Seq<Tree>, int)>
    decreases row, 0nat,
{
    if index < 0 || index >= row.len() {
        None
    } else if row[index].is_element(name) {
        Some((row, index))
    } else {
        match row[index] {
            Tree::Text { .. } => None,
            _ => first_match_from(row[index].children(), 0, name),
        }
    }
}

/// The same for the trees of `row` from `start` on, taken in order.
pub open spec fn first_match_from(row: Seq<Tree>, start: int, name: Seq<char>) -> Option<(Seq<Tree>, int)>
    decreases row, row.len() - start,
{
    if start < 0 || start >= row.len() {
        None
    } else {
        match first_match(row, start, name) {
            Some(place) => Some(place),
            None => first_match_from(row, start + 1, name),
        }
    }
}

/// The text below the first child of the first element named `name`.
pub open spec fn selected_text(row: Seq<Tree>, index: int, name: Seq<char>) -> Option<Seq<char>> {
    match first_match(row, index, name) {
        Some((found_row, found)) => if found_row[found].children().len() > 0 {
            Some(found_row[found].children()[0].text())
        } else {
            None
        },
        None => None,
    }
}

/// The mathematical value of a text that may be missing.
pub open spec fn text_option_view(s: Option<String>) -> Option<Seq<char>> {
    match s {
        Some(s) => Some(s@),
        None => None,
    }
}

/// Lookups on a node that set the case of ASCII letters aside.
pub trait NodeRefExt {
    /// The row of trees that the node stands in.
    spec fn trees(&self) -> Seq<Tree>;

    /// The node's index in that row.
    spec fn position(&self) -> int;

    /// The text below the first child of the first element, in document order
    /// and this node included, whose tag name matches `selector`. A selector
    /// is a tag name and nothing more: any other text selects what an element
    /// of that very name would be, that is, as a rule, nothing.
    fn select_text(&self, selector: &str) -> (out: Option<String>)
        ensures
            text_option_view(out) == selected_text(self.trees(), self.position(), selector@),
    ;

    /// Whether the node is an element whose tag name matches `tag_name`.
    fn is_element(&self, tag_name: &str) -> (out: bool)
        ensures
            out == self.trees()[self.position()].is_element(tag_name@),
    ;

    /// The first attribute of the node whose name matches `attribute_name`.
    fn select_attribute(&self, attribute_name: &str) -> (out: Option<Attribute>)
        ensures
            attribute_option_view(out) == self.trees()[self.position()].attribute(attribute_name@),
    ;
}

impl<'a> Cursor<'a> {
    /// A cursor always stands on a node of its row.
    #[verifier::type_invariant]
    pub open spec fn in_row(self) -> bool {
        0 <= self.position() < self.row().len()
    }

    /// The row of nodes that this one stands in.
    pub closed spec fn row(self) -> Seq<Node> {
        self.siblings@
    }

    /// The node itself, as a mathematical value.
    pub open spec fn tree(self) -> Tree {
        self.trees()[self.position()]
    }

    /// The node at `index` of `siblings`, if there is one.
    pub fn at(siblings: &'a [Node], index: usize) -> (out: Option<Cursor<'a>>)
        ensures
            out is Some <==> index < siblings@.len(),
            out matches Some(n) ==> n.row() == siblings@ && n.position() == index,
    {
        if index < siblings.len() {
            Some(Cursor { siblings, index })
        } else {
            None
        }
    }

    /// A node that stands alone: the row holds nothing else.
    pub fn root(node: &'a Node) -> (out: Cursor<'a>)
        ensures
            out.row() == seq![*node],
            out.position() == 0,
            out.trees() == seq![node@],
            out.tree() == node@,
    {
        Cursor { siblings: core::slice::from_ref(node), index: 0 }
    }

    /// The node at this position.
    pub fn node(&self) -> (out: &'a Node)
        ensures
            0 <= self.position() < self.row().len(),
            *out == self.row()[self.position()],
            out@ == self.tree(),
    {
        proof {
            use_type_invariant(self);
        }
        &self.siblings[self.index]
    }

    /// The children of this node, each in the row of all of them.
    pub fn children(&self) -> (out: Vec<Cursor<'a>>)
        ensures
            out@.len() == self.tree().children().len(),
            forall|i: int|
                0 <= i < out@.len() ==> (#[trigger] out@[i]).trees() == self.tree().children()
                    && out@[i].position() == i,
    {
        let kids = self.node().children();
        let mut out: Vec<Cursor<'a>> = Vec::new();
        let mut i: usize = 0;
        while i < kids.len()
            invariant
                i <= kids.len(),
                views(kids@) == self.tree().children(),
                out@.len() == i,
                forall|j: int|
                    0 <= j < i ==> (#[trigger] out@[j]).trees() == self.tree().children()
                        && out@[j].position() == j,
            decreases kids.len() - i,
        {
            out.push(Cursor { siblings: kids, index: i });
            i = i + 1;
        }
        out
    }

    /// The first child that is an element, whatever its name.
    pub fn first_element_child(&self) -> (out: Option<Cursor<'a>>)
        ensures
            out is Some <==> first_of_elements(self.tree().children(), 0) is Some,
            out matches Some(child) ==> child.trees() == self.tree().children() && Some(
                child.position(),
            ) == first_of_elements(self.tree().children(), 0),
    {
        let kids = self.node().children();
        let mut i: usize = 0;
        while i < kids.len()
            invariant
                i <= kids.len(),
                views(kids@) == self.tree().children(),
                first_of_elements(self.tree().children(), 0) == first_of_elements(
                    self.tree().children(),
                    i as int,
                ),
            decreases kids.len() - i,
        {
            if kids[i].is_any_element() {
                return Some(Cursor { siblings: kids, index: i });
            }
            i = i + 1;
        }
        None
    }

    /// The first child that is an element whose tag name matches `tag_name`.
    pub fn first_child(&self, tag_name: &str) -> (out: Option<Cursor<'a>>)
        ensures
            out is Some <==> first_element(self.tree().children(), tag_name@, 0) is Some,
            out matches Some(child) ==> child.trees() == self.tree().children() && Some(
                child.position(),
            ) == first_element(self.tree().children(), tag_name@, 0),
    {
        let kids = self.node().children();
        let mut i: usize = 0;
        while i < kids.len()
            invariant
                i <= kids.len(),
                views(kids@) == self.tree().children(),
                first_element(self.tree().children(), tag_name@, 0) == first_element(
                    self.tree().children(),
                    tag_name@,
                    i as int,
                ),
            decreases kids.len() - i,
        {
            if kids[i].is_element(tag_name) {
                return Some(Cursor { siblings: kids, index: i });
            }
            i = i + 1;
        }
        None
    }

    /// The first sibling after this node that is an element whose tag name
    /// matches `tag_name`.
    pub fn next_sibling(&self, tag_name: &str) -> (out: Option<Cursor<'a>>)
        ensures
            out is Some <==> first_element(self.trees(), tag_name@, self.position() + 1) is Some,
            out matches Some(sibling) ==> sibling.trees() == self.trees() && Some(
                sibling.position(),
            ) == first_element(self.trees(), tag_name@, self.position() + 1),
    {
        proof {
            use_type_invariant(self);
        }
        let count = self.siblings.len();
        let mut i: usize = self.index + 1;
        while i < count
            invariant
                count == self.siblings.len(),
                self.index < i <= count,
                first_element(self.trees(), tag_name@, self.position() + 1) == first_element(
                    self.trees(),
                    tag_name@,
                    i as int,
                ),
            decreases count - i,
        {
            if self.siblings[i].is_element(tag_name) {
                return Some(Cursor { siblings: self.siblings, index: i });
            }
            i = i + 1;
        }
        None
    }

    /// The siblings after this node, in document order, each in the same row.
    pub fn following_siblings(&self) -> (out: Vec<Cursor<'a>>)
        ensures
            out@.len() == self.row().len() - self.position() - 1,
            forall|i: int|
                0 <= i < out@.len() ==> (#[trigger] out@[i]).row() == self.row()
                    && out@[i].position() == self.position() + 1 + i,
    {
        proof {
            use_type_invariant(self);
        }
        let count = self.siblings.len();
        let mut out: Vec<Cursor<'a>> = Vec::new();
        let mut i: usize = self.index + 1;
        while i < count
            invariant
                count == self.siblings.len(),
                self.index < i <= self.siblings.len(),
                out@.len() == i - self.index - 1,
                forall|j: int|
                    0 <= j < out@.len() ==> (#[trigger] out@[j]).row() == self.row()
                        && out@[j].position() == self.position() + 1 + j,
            decreases count - i,
        {
            out.push(Cursor { siblings: self.siblings, index: i });
            i = i + 1;
        }
        out
    }

    /// The value of the first attribute whose name matches `name`, or the
    /// empty string where there is none.
    pub fn attribute_value(&self, name: &str) -> (out: String)
        ensures
            out@ == self.tree().attribute_value(name@),
    {
        match self.select_attribute(name) {
            Some(attribute) => attribute.value,
            None => String::new(),
        }
    }

    /// The text of all text nodes at and below this node, in document order.
    pub fn text_contents(&self) -> (out: String)
        ensures
            out@ == self.tree().text(),
    {
        self.node().text_contents()
    }

    /// The first element, in document order and this node included, whose tag
    /// name matches `tag_name`.
    pub fn select_first(&self, tag_name: &str) -> (out: Option<Cursor<'a>>)
        ensures
            out is Some <==> first_match(self.trees(), self.position(), tag_name@) is Some,
            out matches Some(found) ==> Some((found.trees(), found.position())) == first_match(
                self.trees(),
                self.position(),
                tag_name@,
            ),
        decreases self.trees(), 0nat,
    {
        let node = self.node();
        if node.is_element(tag_name) {
            return Some(*self);
        }
        let kids = node.children();
        let mut i: usize = 0;
        while i < kids.len()
            invariant
                i <= kids.len(),
                0 <= self.position() < self.trees().len(),
                views(kids@) == self.tree().children(),
                first_match(self.trees(), self.position(), tag_name@) == first_match_from(
                    views(kids@),
                    i as int,
                    tag_name@,
                ),
            decreases kids.len() - i,
        {
            let child = Cursor { siblings: kids, index: i };
            match child.select_first(tag_name) {
                Some(n) => {
                    return Some(n);
                },
                None => {},
            }
            i = i + 1;
        }
        None
    }
}

impl<'a> NodeRefExt for Cursor<'a> {
    open spec fn trees(&self) -> Seq<Tree> {
        views(self.row())
    }

    closed spec fn position(&self) -> int {
        self.index as int
    }

    fn select_text(&self, selector: &str) -> (out: Option<String>) {
        match self.select_first(selector) {
            Some(n) => {
                let kids = n.node().children();
                if kids.len() > 0 {
                    Some(kids[0].text_contents())
                } else {
                    None
                }
            },
            None => None,
        }
    }

    fn is_element(&self, tag_name: &str) -> (out: bool) {
        self.node().is_element(tag_name)
    }

    fn select_attribute(&self, attribute_name: &str) -> (out: Option<Attribute>) {
        self.node().select_attribute(attribute_name)
    }
}

} // verus!
