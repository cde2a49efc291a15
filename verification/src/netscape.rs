//! The bookmark document: a title, a heading and the entries at the top level.
use vstd::prelude::*;
use vstd::std_specs::cmp::PartialEqSpecImpl;
use crate::bookmark::Bookmark;
use crate::collection::NestedCollection;
use crate::collection::bookmark_views;
use crate::collection::folder_views;
use crate::collection::nested_shortcuts;
use crate::collection::nested_subfolders;
use crate::folder::Folder;
use crate::item::Item;
use crate::item::ItemView;
use crate::item::item_views;
use crate::item::items_eq;
use crate::item::items_html;
use crate::item::items_of;
use crate::item::render_items;
use crate::item::same_items;
use crate::node::Tree;
use crate::node::first_element;
use crate::node_ref_ext::Cursor;
use crate::node_ref_ext::NodeRefExt;
use crate::parse::MAX_MARKUP_LEN;
use crate::parse::parse_html;
use crate::parse::parsed_tree;

verus! {

/// `std::io::Error`: what reading a file fails with. No function here makes one.
#[verifier::external_type_specification]
#[verifier::external_body]
pub struct ExIoError(std::io::Error);

/// A bookmark document as a mathematical value.
pub struct NetscapeView {
    pub title: Seq<char>,
    pub h1: Seq<char>,
    pub children: Seq<ItemView>,
}

/// The text of the last element named `name` among the first `count` trees of
/// `row`; the empty string where there is none.
pub open spec fn last_text(row: Seq<Tree>, name: Seq<char>, count: nat) -> Seq<char>
    decreases count,
{
    if count == 0 || count > row.len() {
        Seq::empty()
    } else if row[count - 1].is_element(name) {
        row[count - 1].text()
    } else {
        last_text(row, name, (count - 1) as nat)
    }
}

/// The entries that the `DL` elements among the first `count` trees of `row`
/// list, in order.
pub open spec fn listed_items(row: Seq<Tree>, count: nat) -> Seq<ItemView>
    decreases count,
{
    if count == 0 || count > row.len() {
        Seq::empty()
    } else if row[count - 1].is_element("DL"@) {
        listed_items(row, (count - 1) as nat) + items_of(row[count - 1].children())
    } else {
        listed_items(row, (count - 1) as nat)
    }
}

/// The document that a parsed tree stands for. The tree's first `HTML` child
/// is the root. The title is the text of the `TITLE` child of the root's first
/// `HEAD` child. The root's first `BODY` child gives the heading, the text of
/// its `H1` child, and the entries, those that its `DL` children list. Of
/// several `TITLE` or `H1` children the last one counts. Whatever is missing
/// reads as empty.
pub open spec fn document_of(root: Tree) -> NetscapeView {
    match first_element(root.children(), "HTML"@, 0) {
        Some(top) => {
            let sections = root.children()[top].children();
            NetscapeView {
                title: match first_element(sections, "HEAD"@, 0) {
                    Some(head) => last_text(
                        sections[head].children(),
                        "TITLE"@,
                        sections[head].children().len(),
                    ),
                    None => Seq::empty(),
                },
                h1: match first_element(sections, "BODY"@, 0) {
                    Some(body) => last_text(
                        sections[body].children(),
                        "H1"@,
                        sections[body].children().len(),
                    ),
                    None => Seq::empty(),
                },
                children: match first_element(sections, "BODY"@, 0) {
                    Some(body) => listed_items(
                        sections[body].children(),
                        sections[body].children().len(),
                    ),
                    None => Seq::empty(),
                },
            }
        },
        None => NetscapeView { title: Seq::empty(), h1: Seq::empty(), children: Seq::empty() },
    }
}

impl NetscapeView {
    /// Two documents are the same when they agree on title and heading and
    /// hold the same entries in the same order.
    pub open spec fn same(self, other: NetscapeView) -> bool {
        &&& self.title == other.title
        &&& self.h1 == other.h1
        &&& same_items(self.children, other.children)
    }

    /// The markup of a document: the fixed preamble, the title and the
    /// heading, then the list of the entries, one per line.
    pub open spec fn html(self) -> Seq<char> {
        "<!DOCTYPE NETSCAPE-Bookmark-file-1>\n<!-- This is an automatically generated file.\n     It will be read and overwritten.\n     DO NOT EDIT! -->\n<META HTTP-EQUIV=\"Content-Type\" CONTENT=\"text/html; charset=UTF-8\">\n<TITLE>"@
            + self.title + "</TITLE>\n<H1>"@ + self.h1 + "</H1>\n<DL><p>\n"@ + items_html(
            self.children,
            self.children.len(),
        ) + "</DL>"@
    }
}

/// A bookmark document.
#[derive(Debug)]
pub struct Netscape {
    /// The title of the document: the text of its `TITLE` element.
    pub title: String,
    /// The heading of the document: the text of its `H1` element.
    pub h1: String,
    /// The entries at the top level, in the order of the file.
    pub children: Vec<Item>,
}

/// The text of the last child of `parent` that is an element named `name`.
fn last_child_text(parent: &Cursor, name: &str) -> (out: String)
    ensures
        out@ == last_text(parent.tree().children(), name@, parent.tree().children().len()),
{
    let kids = parent.children();
    let mut out = String::new();
    let mut i: usize = 0;
    while i < kids.len()
        invariant
            i <= kids.len(),
            kids@.len() == parent.tree().children().len(),
            forall|j: int|
                0 <= j < kids@.len() ==> (#[trigger] kids@[j]).trees() == parent.tree().children()
                    && kids@[j].position() == j,
            out@ == last_text(parent.tree().children(), name@, i as nat),
        decreases kids.len() - i,
    {
        if kids[i].is_element(name) {
            out = kids[i].text_contents();
        }
        i = i + 1;
    }
    out
}

/// The entries that the `DL` children of `parent` list.
fn listed_entries(parent: &Cursor) -> (out: Vec<Item>)
    ensures
        item_views(out@) == listed_items(
            parent.tree().children(),
            parent.tree().children().len(),
        ),
{
    let kids = parent.children();
    let mut out: Vec<Item> = Vec::new();
    let mut i: usize = 0;
    while i < kids.len()
        invariant
            i <= kids.len(),
            kids@.len() == parent.tree().children().len(),
            forall|j: int|
                0 <= j < kids@.len() ==> (#[trigger] kids@[j]).trees() == parent.tree().children()
                    && kids@[j].position() == j,
            item_views(out@) == listed_items(parent.tree().children(), i as nat),
        decreases kids.len() - i,
    {
        if kids[i].is_element("DL") {
            let mut listed = Item::from_children(&kids[i]);
            out.append(&mut listed);
        }
        i = i + 1;
    }
    out
}

impl Netscape {
    /// This document as a mathematical value.
    pub open spec fn view(&self) -> NetscapeView {
        NetscapeView { title: self.title@, h1: self.h1@, children: item_views(self.children@) }
    }

    /// Reads a document off the root of a parsed tree. This never fails: what
    /// the tree lacks is left empty.
    pub fn from_node(node: &Cursor) -> (out: Result<Netscape, std::io::Error>)
        ensures
            out matches Ok(document) && document@ == document_of(node.tree()),
    {
        let mut title = String::new();
        let mut h1 = String::new();
        let mut children: Vec<Item> = Vec::new();
        assert(item_views(children@) =~= Seq::empty());
        if let Some(root) = node.first_child("HTML") {
            if let Some(head) = root.first_child("HEAD") {
                title = last_child_text(&head, "TITLE");
            }
            if let Some(body) = root.first_child("BODY") {
                h1 = last_child_text(&body, "H1");
                children = listed_entries(&body);
            }
        }
        Ok(Netscape { title, h1, children })
    }

    /// Reads a document off markup text of at most `MAX_MARKUP_LEN` bytes.
    /// This never fails: the reader takes any such text.
    pub fn from_html(raw: &str) -> (out: Result<Netscape, std::io::Error>)
        requires
            raw.len() <= MAX_MARKUP_LEN,
        ensures
            out matches Ok(document) && document@ == document_of(parsed_tree(raw@)),
    {
        let tree = parse_html(raw);
        let root = Cursor::root(&tree);
        Netscape::from_node(&root)
    }

    /// The markup of this document.
    pub fn to_html(&self) -> (out: String)
        ensures
            out@ == self@.html(),
    {
        let inner = render_items(&self.children);
        let mut out = String::from_str(
            "<!DOCTYPE NETSCAPE-Bookmark-file-1>\n<!-- This is an automatically generated file.\n     It will be read and overwritten.\n     DO NOT EDIT! -->\n<META HTTP-EQUIV=\"Content-Type\" CONTENT=\"text/html; charset=UTF-8\">\n<TITLE>",
        );
        out.append(self.title.as_str());
        out.append("</TITLE>\n<H1>");
        out.append(self.h1.as_str());
        out.append("</H1>\n<DL><p>\n");
        out.append(inner.as_str());
        out.append("</DL>");
        out
    }

    /// All shortcuts of the document, at any depth, in the order of the file.
    pub fn get_bookmarks(&self) -> (out: Vec<&Bookmark>)
        ensures
            bookmark_views(out@) == nested_shortcuts(self@.children, self@.children.len()),
    {
        self.children.shortcuts()
    }

    /// All folders of the document, at any depth: each comes before the
    /// folders that it holds.
    pub fn get_folders(&self) -> (out: Vec<&Folder>)
        ensures
            folder_views(out@) == nested_subfolders(self@.children, self@.children.len()),
    {
        self.children.subfolders()
    }
}

impl PartialEq for Netscape {
    fn eq(&self, other: &Self) -> (out: bool) {
        self.title == other.title && self.h1 == other.h1 && items_eq(
            &self.children,
            &other.children,
        )
    }
}

impl PartialEqSpecImpl for Netscape {
    open spec fn obeys_eq_spec() -> bool {
        true
    }

    open spec fn eq_spec(&self, other: &Self) -> bool {
        self@.same(other@)
    }
}

} // verus!
