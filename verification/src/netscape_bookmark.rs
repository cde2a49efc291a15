//! The head of a bookmark document alone: its title and its heading.
use vstd::prelude::*;
use vstd::std_specs::cmp::PartialEqSpecImpl;
use crate::node::Tree;
use crate::node_ref_ext::Cursor;
use crate::node_ref_ext::NodeRefExt;
use crate::node_ref_ext::selected_text;
use crate::parse::MAX_MARKUP_LEN;
use crate::parse::parse_html;
use crate::parse::parsed_tree;

verus! {

/// The head of a document as a mathematical value.
pub struct NetscapeBookmarkView {
    pub title: Seq<char>,
    pub h1: Seq<char>,
}

/// The text that `selected_text` finds, or the empty string where it finds none.
pub open spec fn text_or_empty(row: Seq<Tree>, index: int, name: Seq<char>) -> Seq<char> {
    match selected_text(row, index, name) {
        Some(text) => text,
        None => Seq::empty(),
    }
}

/// The head of the document in the tree at `index` of `row`: the texts of the
/// first `TITLE` element and of the first `H1` element, wherever they stand.
pub open spec fn head_of(row: Seq<Tree>, index: int) -> NetscapeBookmarkView {
    NetscapeBookmarkView {
        title: text_or_empty(row, index, "TITLE"@),
        h1: text_or_empty(row, index, "H1"@),
    }
}

/// The title and the heading of a bookmark document.
#[derive(Debug)]
pub struct NetscapeBookmark {
    /// The title of the document: the text of its `TITLE` element.
    pub title: String,
    /// The heading of the document: the text of its `H1` element.
    pub h1: String,
}

impl NetscapeBookmark {
    /// This head as a mathematical value.
    pub open spec fn view(&self) -> NetscapeBookmarkView {
        NetscapeBookmarkView { title: self.title@, h1: self.h1@ }
    }

    /// A head with the given title and heading.
    pub fn new(title: String, h1: String) -> (out: Self)
        ensures
            out.title == title,
            out.h1 == h1,
    {
        NetscapeBookmark { title: title, h1: h1 }
    }

    /// Reads the head off a node of a parsed tree. This never fails: a text
    /// that is not found is left empty.
    pub fn from_node(node: Cursor) -> (out: Result<Self, std::io::Error>)
        ensures
            out matches Ok(head) && head@ == head_of(node.trees(), node.position()),
    {
        let mut title = String::new();
        let mut h1 = String::new();
        if let Some(content) = node.select_text("TITLE") {
            title = content
        }
        if let Some(content) = node.select_text("H1") {
            h1 = content
        }
        Ok(NetscapeBookmark { title: title, h1: h1 })
    }

    /// Reads the head off markup text of at most `MAX_MARKUP_LEN` bytes.
    pub fn from_string(raw: &str) -> (out: Result<Self, std::io::Error>)
        requires
            raw.len() <= MAX_MARKUP_LEN,
        ensures
            out matches Ok(head) && head@ == head_of(seq![parsed_tree(raw@)], 0),
    {
        let tree = parse_html(raw);
        NetscapeBookmark::from_node(Cursor::root(&tree))
    }

    /// The head as text: always the empty string.
    pub fn to_string(&self) -> (out: String)
        ensures
            out@ == Seq::<char>::empty(),
    {
        String::new()
    }
}

impl Default for NetscapeBookmark {
    fn default() -> (out: Self)
        ensures
            out@ == (NetscapeBookmarkView { title: Seq::empty(), h1: Seq::empty() }),
    {
        NetscapeBookmark { title: String::new(), h1: String::new() }
    }
}

impl PartialEq for NetscapeBookmark {
    fn eq(&self, other: &Self) -> (out: bool) {
        self.title == other.title && self.h1 == other.h1
    }
}

impl PartialEqSpecImpl for NetscapeBookmark {
    open spec fn obeys_eq_spec() -> bool {
        true
    }

    open spec fn eq_spec(&self, other: &Self) -> bool {
        self@ == other@
    }
}

} // verus!
