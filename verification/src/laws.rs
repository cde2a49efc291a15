//! What holds of reading and writing together. Each entry and each document
//! has a tree that its markup describes: the elements that the markup opens,
//! nested as the format means them, with the attributes that it writes. Reading
//! that tree gives the entry or the document back, field by field.
use vstd::prelude::*;
use crate::bookmark::BookmarkView;
use crate::bookmark::anchor_bookmark;
use crate::bookmark::bookmark_of;
use crate::folder::FolderView;
use crate::folder::folder_at;
use crate::item::ItemView;
use crate::item::item_at;
use crate::item::items_upto;
use crate::item::same_items;
use crate::json::item_values;
use crate::json::items_json;
use crate::json::has_field;
use crate::json::written;
use crate::json::written_fields;
use crate::json::written_values;
use crate::netscape::NetscapeView;
use crate::netscape::document_of;
use crate::netscape::last_text;
use crate::netscape::listed_items;
use crate::node::AttributeView;
use crate::node::Tree;
use crate::node::first_attribute;
use crate::node::first_element;
use crate::node::first_of_elements;
use crate::node::joined_text;
use crate::node::lemma_first_element_in_row;
use crate::text::names_match;
use crate::text::upper;
use crate::text::upper_char;

verus! {

/// Names of different lengths do not match.
pub proof fn lemma_lengths_differ(a: Seq<char>, b: Seq<char>)
    requires
        a.len() != b.len(),
    ensures
        !names_match(a, b),
{
    assert(upper(a).len() != upper(b).len());
}

/// Names that differ at one place in more than the case of a letter do not match.
pub proof fn lemma_letters_differ(a: Seq<char>, b: Seq<char>, at: int)
    requires
        0 <= at < a.len(),
        at < b.len(),
        upper_char(a[at]) != upper_char(b[at]),
    ensures
        !names_match(a, b),
{
    assert(upper(a)[at] != upper(b)[at]);
}

/// No two of the tag names of the format match.
pub proof fn lemma_tag_names_differ()
    ensures
        !names_match("A"@, "DT"@),
        !names_match("A"@, "H3"@),
        !names_match("A"@, "DL"@),
        !names_match("DT"@, "H3"@),
        !names_match("DT"@, "DL"@),
        !names_match("H3"@, "DL"@),
        !names_match("H1"@, "DL"@),
        !names_match("HEAD"@, "BODY"@),
{
    reveal_strlit("A");
    reveal_strlit("DT");
    reveal_strlit("H3");
    reveal_strlit("DL");
    reveal_strlit("H1");
    reveal_strlit("HEAD");
    reveal_strlit("BODY");
    lemma_lengths_differ("A"@, "DT"@);
    lemma_lengths_differ("A"@, "H3"@);
    lemma_lengths_differ("A"@, "DL"@);
    lemma_letters_differ("DT"@, "H3"@, 0);
    lemma_letters_differ("DT"@, "DL"@, 1);
    lemma_letters_differ("H3"@, "DL"@, 0);
    lemma_letters_differ("H1"@, "DL"@, 0);
    lemma_letters_differ("HEAD"@, "BODY"@, 0);
}

/// No two of the attribute names of an anchor match.
pub proof fn lemma_anchor_names_differ()
    ensures
        !names_match("HREF"@, "ADD_DATE"@),
        !names_match("HREF"@, "LAST_VISIT"@),
        !names_match("HREF"@, "LAST_MODIFIED"@),
        !names_match("HREF"@, "ICON_URI"@),
        !names_match("HREF"@, "ICON"@),
        !names_match("ADD_DATE"@, "LAST_VISIT"@),
        !names_match("ADD_DATE"@, "LAST_MODIFIED"@),
        !names_match("ADD_DATE"@, "ICON_URI"@),
        !names_match("ADD_DATE"@, "ICON"@),
        !names_match("LAST_VISIT"@, "LAST_MODIFIED"@),
        !names_match("LAST_VISIT"@, "ICON_URI"@),
        !names_match("LAST_VISIT"@, "ICON"@),
        !names_match("LAST_MODIFIED"@, "ICON_URI"@),
        !names_match("LAST_MODIFIED"@, "ICON"@),
        !names_match("ICON_URI"@, "ICON"@),
{
    reveal_strlit("HREF");
    reveal_strlit("ADD_DATE");
    reveal_strlit("LAST_VISIT");
    reveal_strlit("LAST_MODIFIED");
    reveal_strlit("ICON_URI");
    reveal_strlit("ICON");
    lemma_lengths_differ("HREF"@, "ADD_DATE"@);
    lemma_lengths_differ("HREF"@, "LAST_VISIT"@);
    lemma_lengths_differ("HREF"@, "LAST_MODIFIED"@);
    lemma_lengths_differ("HREF"@, "ICON_URI"@);
    lemma_letters_differ("HREF"@, "ICON"@, 0);
    lemma_lengths_differ("ADD_DATE"@, "LAST_VISIT"@);
    lemma_lengths_differ("ADD_DATE"@, "LAST_MODIFIED"@);
    lemma_letters_differ("ADD_DATE"@, "ICON_URI"@, 0);
    lemma_lengths_differ("ADD_DATE"@, "ICON"@);
    lemma_lengths_differ("LAST_VISIT"@, "LAST_MODIFIED"@);
    lemma_lengths_differ("LAST_VISIT"@, "ICON_URI"@);
    lemma_lengths_differ("LAST_VISIT"@, "ICON"@);
    lemma_lengths_differ("LAST_MODIFIED"@, "ICON_URI"@);
    lemma_lengths_differ("LAST_MODIFIED"@, "ICON"@);
    lemma_lengths_differ("ICON_URI"@, "ICON"@);
}

/// No two of the attribute names of a heading match.
pub proof fn lemma_heading_names_differ()
    ensures
        !names_match("FOLDED"@, "ADD_DATE"@),
        !names_match("FOLDED"@, "LAST_MODIFIED"@),
        !names_match("FOLDED"@, "PERSONAL_TOOLBAR_FOLDER"@),
        !names_match("FOLDED"@, "UNFILED_BOOKMARKS_FOLDER"@),
        !names_match("ADD_DATE"@, "LAST_MODIFIED"@),
        !names_match("ADD_DATE"@, "PERSONAL_TOOLBAR_FOLDER"@),
        !names_match("ADD_DATE"@, "UNFILED_BOOKMARKS_FOLDER"@),
        !names_match("LAST_MODIFIED"@, "PERSONAL_TOOLBAR_FOLDER"@),
        !names_match("LAST_MODIFIED"@, "UNFILED_BOOKMARKS_FOLDER"@),
        !names_match("PERSONAL_TOOLBAR_FOLDER"@, "UNFILED_BOOKMARKS_FOLDER"@),
{
    reveal_strlit("FOLDED");
    reveal_strlit("ADD_DATE");
    reveal_strlit("LAST_MODIFIED");
    reveal_strlit("PERSONAL_TOOLBAR_FOLDER");
    reveal_strlit("UNFILED_BOOKMARKS_FOLDER");
    lemma_lengths_differ("FOLDED"@, "ADD_DATE"@);
    lemma_lengths_differ("FOLDED"@, "LAST_MODIFIED"@);
    lemma_lengths_differ("FOLDED"@, "PERSONAL_TOOLBAR_FOLDER"@);
    lemma_lengths_differ("FOLDED"@, "UNFILED_BOOKMARKS_FOLDER"@);
    lemma_lengths_differ("ADD_DATE"@, "LAST_MODIFIED"@);
    lemma_lengths_differ("ADD_DATE"@, "PERSONAL_TOOLBAR_FOLDER"@);
    lemma_lengths_differ("ADD_DATE"@, "UNFILED_BOOKMARKS_FOLDER"@);
    lemma_lengths_differ("LAST_MODIFIED"@, "PERSONAL_TOOLBAR_FOLDER"@);
    lemma_lengths_differ("LAST_MODIFIED"@, "UNFILED_BOOKMARKS_FOLDER"@);
    lemma_lengths_differ("PERSONAL_TOOLBAR_FOLDER"@, "UNFILED_BOOKMARKS_FOLDER"@);
}

/// The attribute at `at` is the one found where it matches and none before it does.
pub proof fn lemma_attribute_found(
    attributes: Seq<AttributeView>,
    name: Seq<char>,
    start: int,
    at: int,
)
    requires
        0 <= start <= at < attributes.len(),
        names_match(attributes[at].name, name),
        forall|j: int| start <= j < at ==> !names_match(#[trigger] attributes[j].name, name),
    ensures
        first_attribute(attributes, name, start) == Some(attributes[at]),
    decreases at - start,
{
    if start < at {
        lemma_attribute_found(attributes, name, start + 1, at);
    }
}

/// What is found in two rows of attributes, one after the other: what is
/// found in the first, else what is found in the second.
pub proof fn lemma_attribute_of_both(
    first: Seq<AttributeView>,
    second: Seq<AttributeView>,
    name: Seq<char>,
    start: int,
)
    requires
        0 <= start,
    ensures
        start <= first.len() ==> first_attribute(first + second, name, start) == (match first_attribute(
            first,
            name,
            start,
        ) {
            Some(a) => Some(a),
            None => first_attribute(second, name, 0),
        }),
        start >= first.len() ==> first_attribute(first + second, name, start) == first_attribute(
            second,
            name,
            start - first.len(),
        ),
    decreases (first + second).len() - start,
{
    if start < (first + second).len() {
        lemma_attribute_of_both(first, second, name, start + 1);
    }
}

/// The element at `at` is the one found where it is named `name` and none before it is.
pub proof fn lemma_element_found(row: Seq<Tree>, name: Seq<char>, start: int, at: int)
    requires
        0 <= start <= at < row.len(),
        row[at].is_element(name),
        forall|j: int| start <= j < at ==> !(#[trigger] row[j]).is_element(name),
    ensures
        first_element(row, name, start) == Some(at),
    decreases at - start,
{
    if start < at {
        lemma_element_found(row, name, start + 1, at);
    }
}

/// An element that holds one run of text.
pub open spec fn text_element(name: Seq<char>, attributes: Seq<AttributeView>, text: Seq<char>) -> Tree {
    Tree::Element { name, attributes, children: seq![Tree::Text { content: text }] }
}

/// The text of such an element is the run that it holds.
pub proof fn lemma_text_element(name: Seq<char>, attributes: Seq<AttributeView>, text: Seq<char>)
    ensures
        text_element(name, attributes, text).text() == text,
{
    let children = seq![Tree::Text { content: text }];
    assert(joined_text(children, 1) == joined_text(children, 0) + children[0].text());
}

/// The bare attribute that the markup writes for a flag that is set.
pub open spec fn flag_attributes(name: Seq<char>, set: bool) -> Seq<AttributeView> {
    if set {
        seq![AttributeView { name, value: Seq::empty() }]
    } else {
        Seq::empty()
    }
}

/// The attribute that the markup writes for a value that is not empty.
pub open spec fn value_attributes(name: Seq<char>, value: Seq<char>) -> Seq<AttributeView> {
    if value.len() == 0 {
        Seq::empty()
    } else {
        seq![AttributeView { name, value }]
    }
}

/// The trees that the markup of a row of entries describes.
pub open spec fn item_trees(items: Seq<ItemView>) -> Seq<Tree>
    decreases items,
{
    Seq::new(
        items.len(),
        |i: int|
            if 0 <= i < items.len() {
                items[i].tree()
            } else {
                arbitrary()
            },
    )
}

impl BookmarkView {
    /// The attributes that the markup of a shortcut writes, in its order.
    pub open spec fn attributes(self) -> Seq<AttributeView> {
        seq![
            AttributeView { name: "HREF"@, value: self.href },
            AttributeView { name: "ADD_DATE"@, value: self.add_date },
            AttributeView { name: "LAST_VISIT"@, value: self.last_visit },
            AttributeView { name: "LAST_MODIFIED"@, value: self.last_modified },
            AttributeView { name: "ICON_URI"@, value: self.icon_uri },
            AttributeView { name: "ICON"@, value: self.icon },
        ]
    }

    /// The anchor that the markup of a shortcut describes.
    pub open spec fn anchor(self) -> Tree {
        text_element("A"@, self.attributes(), self.title)
    }

    /// The tree that the markup of a shortcut describes: the anchor in its wrapper.
    pub open spec fn tree(self) -> Tree {
        Tree::Element { name: "DT"@, attributes: Seq::empty(), children: seq![self.anchor()] }
    }
}

impl FolderView {
    /// The attributes that the markup of a folder writes on its heading, in its order.
    pub open spec fn attributes(self) -> Seq<AttributeView> {
        flag_attributes("FOLDED"@, self.folded) + value_attributes("ADD_DATE"@, self.add_date)
            + value_attributes("LAST_MODIFIED"@, self.last_modified) + flag_attributes(
            "PERSONAL_TOOLBAR_FOLDER"@,
            self.personal_toolbar_folder,
        ) + flag_attributes("UNFILED_BOOKMARKS_FOLDER"@, self.unfiled_bookmarks_folder)
    }

    /// The heading that the markup of a folder describes.
    pub open spec fn heading(self) -> Tree {
        text_element("H3"@, self.attributes(), self.title)
    }

    /// The list that the markup of a folder describes: the trees of its entries.
    pub open spec fn list(self) -> Tree
        decreases self, 0nat,
    {
        Tree::Element { name: "DL"@, attributes: Seq::empty(), children: item_trees(self.children) }
    }

    /// The tree that the markup of a folder describes: a wrapper that holds
    /// the heading and, after it, the list.
    pub open spec fn tree(self) -> Tree
        decreases self, 1nat,
    {
        Tree::Element {
            name: "DT"@,
            attributes: Seq::empty(),
            children: seq![self.heading(), self.list()],
        }
    }
}

impl ItemView {
    /// The tree that the markup of an entry describes.
    pub open spec fn tree(self) -> Tree
        decreases self,
    {
        match self {
            ItemView::Subfolder(f) => f.tree(),
            ItemView::Shortcut(b) => b.tree(),
        }
    }
}

impl NetscapeView {
    /// The tree that the markup of a document describes: below the root, an
    /// `HTML` element that holds the head with the title and the body with the
    /// heading and the list of the entries.
    pub open spec fn tree(self) -> Tree {
        Tree::Other {
            children: seq![
                Tree::Element {
                    name: "HTML"@,
                    attributes: Seq::empty(),
                    children: seq![
                        Tree::Element {
                            name: "HEAD"@,
                            attributes: Seq::empty(),
                            children: seq![text_element("TITLE"@, Seq::empty(), self.title)],
                        },
                        Tree::Element {
                            name: "BODY"@,
                            attributes: Seq::empty(),
                            children: seq![
                                text_element("H1"@, Seq::empty(), self.h1),
                                Tree::Element {
                                    name: "DL"@,
                                    attributes: Seq::empty(),
                                    children: item_trees(self.children),
                                },
                            ],
                        },
                    ],
                },
            ],
        }
    }
}

/// Reading the anchor of a shortcut gives the shortcut back.
pub proof fn lemma_anchor_round_trip(b: BookmarkView)
    ensures
        b.anchor().is_element("A"@),
        !b.anchor().is_element("DT"@),
        anchor_bookmark(b.anchor()) == b,
{
    let a = b.attributes();
    lemma_tag_names_differ();
    lemma_anchor_names_differ();
    lemma_text_element("A"@, a, b.title);
    lemma_attribute_found(a, "HREF"@, 0, 0);
    lemma_attribute_found(a, "ADD_DATE"@, 0, 1);
    lemma_attribute_found(a, "LAST_VISIT"@, 0, 2);
    lemma_attribute_found(a, "LAST_MODIFIED"@, 0, 3);
    lemma_attribute_found(a, "ICON_URI"@, 0, 4);
    lemma_attribute_found(a, "ICON"@, 0, 5);
}

/// Reading the tree of a shortcut gives the shortcut back.
pub proof fn lemma_bookmark_round_trip(b: BookmarkView)
    ensures
        bookmark_of(b.tree()) == Some(b),
{
    lemma_anchor_round_trip(b);
}

/// What a lookup finds among the attributes of a folder's heading.
pub proof fn lemma_heading_attributes(f: FolderView)
    ensures
        f.heading().attribute("FOLDED"@) is Some == f.folded,
        f.heading().attribute_value("ADD_DATE"@) == f.add_date,
        f.heading().attribute_value("LAST_MODIFIED"@) == f.last_modified,
        f.heading().attribute("PERSONAL_TOOLBAR_FOLDER"@) is Some == f.personal_toolbar_folder,
        f.heading().attribute("UNFILED_BOOKMARKS_FOLDER"@) is Some == f.unfiled_bookmarks_folder,
{
    let s1 = flag_attributes("FOLDED"@, f.folded);
    let s2 = value_attributes("ADD_DATE"@, f.add_date);
    let s3 = value_attributes("LAST_MODIFIED"@, f.last_modified);
    let s4 = flag_attributes("PERSONAL_TOOLBAR_FOLDER"@, f.personal_toolbar_folder);
    let s5 = flag_attributes("UNFILED_BOOKMARKS_FOLDER"@, f.unfiled_bookmarks_folder);
    lemma_heading_names_differ();
    assert forall|name: Seq<char>|
        first_attribute(f.attributes(), name, 0) == (match first_attribute(s1, name, 0) {
            Some(a) => Some(a),
            None => match first_attribute(s2, name, 0) {
                Some(a) => Some(a),
                None => match first_attribute(s3, name, 0) {
                    Some(a) => Some(a),
                    None => match first_attribute(s4, name, 0) {
                        Some(a) => Some(a),
                        None => first_attribute(s5, name, 0),
                    },
                },
            },
        }) by {
        lemma_attribute_of_both(s1, s2, name, 0);
        lemma_attribute_of_both(s1 + s2, s3, name, 0);
        lemma_attribute_of_both(s1 + s2 + s3, s4, name, 0);
        lemma_attribute_of_both(s1 + s2 + s3 + s4, s5, name, 0);
    }
    reveal_with_fuel(first_attribute, 2);
}

/// Reading the tree of an entry, wherever it stands in a row, gives the entry back.
pub proof fn lemma_item_round_trip(item: ItemView, row: Seq<Tree>, index: int)
    requires
        0 <= index < row.len(),
        row[index] == item.tree(),
    ensures
        item_at(row, index) == Some(item),
    decreases item, 0nat,
{
    lemma_tag_names_differ();
    match item {
        ItemView::Shortcut(b) => {
            lemma_bookmark_round_trip(b);
        },
        ItemView::Subfolder(f) => {
            let inside = f.tree().children();
            lemma_element_found(inside, "H3"@, 0, 0);
            lemma_element_found(inside, "DL"@, 1, 1);
            lemma_text_element("H3"@, f.attributes(), f.title);
            lemma_heading_attributes(f);
            lemma_items_round_trip(f.children, f.children.len());
            assert(f.children.take(f.children.len() as int) =~= f.children);
        },
    }
}

/// Reading the trees of a row of entries gives the entries back, in their order.
pub proof fn lemma_items_round_trip(items: Seq<ItemView>, count: nat)
    requires
        count <= items.len(),
    ensures
        items_upto(item_trees(items), count) == items.take(count as int),
    decreases items, count,
{
    if count > 0 {
        lemma_items_round_trip(items, (count - 1) as nat);
        lemma_item_round_trip(items[count - 1], item_trees(items), count - 1);
        assert(items.take(count as int) =~= items.take(count - 1).push(items[count - 1]));
    }
}

/// Reading the tree of a folder gives the folder back: every field, and the
/// entries in their order.
pub proof fn lemma_folder_round_trip(f: FolderView)
    ensures
        folder_at(seq![f.tree()], 0) == Some(f),
        folder_at(seq![f.tree()], 0) matches Some(read) && read.children == f.children,
{
    lemma_item_round_trip(ItemView::Subfolder(f), seq![f.tree()], 0);
}

/// An entry is the same as itself.
pub proof fn lemma_item_same_as_itself(item: ItemView)
    ensures
        item.same(item),
    decreases item,
{
    match item {
        ItemView::Shortcut(b) => {},
        ItemView::Subfolder(f) => {
            assert forall|i: int| 0 <= i < f.children.len() implies (#[trigger] f.children[i]).same(
                f.children[i],
            ) by {
                lemma_item_same_as_itself(f.children[i]);
            }
        },
    }
}

/// Sameness of entries goes both ways.
pub proof fn lemma_item_same_both_ways(a: ItemView, b: ItemView)
    requires
        a.same(b),
    ensures
        b.same(a),
    decreases a,
{
    match (a, b) {
        (ItemView::Subfolder(f), ItemView::Subfolder(g)) => {
            assert forall|i: int| 0 <= i < g.children.len() implies (#[trigger] g.children[i]).same(
                f.children[i],
            ) by {
                lemma_item_same_both_ways(f.children[i], g.children[i]);
            }
        },
        _ => {},
    }
}

/// Sameness of entries carries over: what is the same as a second entry is
/// the same as whatever the second is the same as.
pub proof fn lemma_item_same_carries_over(a: ItemView, b: ItemView, c: ItemView)
    requires
        a.same(b),
        b.same(c),
    ensures
        a.same(c),
    decreases a,
{
    match (a, b, c) {
        (ItemView::Subfolder(f), ItemView::Subfolder(g), ItemView::Subfolder(h)) => {
            assert forall|i: int| 0 <= i < f.children.len() implies (#[trigger] f.children[i]).same(
                h.children[i],
            ) by {
                assert(g.children[i].same(h.children[i]));
                lemma_item_same_carries_over(f.children[i], g.children[i], h.children[i]);
            }
        },
        _ => {},
    }
}

/// A row of entries is the same as itself.
pub proof fn lemma_items_same_as_themselves(items: Seq<ItemView>)
    ensures
        same_items(items, items),
{
    assert forall|i: int| 0 <= i < items.len() implies (#[trigger] items[i]).same(items[i]) by {
        lemma_item_same_as_itself(items[i]);
    }
}

/// Reading the tree of a document gives the document back: the title, the
/// heading, and the entries in their order. What comes back is then the same
/// document also by the equality that leaves icons and flags out, and its
/// markup is the markup that was read.
pub proof fn lemma_document_round_trip(d: NetscapeView)
    ensures
        document_of(d.tree()) == d,
        document_of(d.tree()).same(d),
        document_of(d.tree()).html() == d.html(),
{
    let top = d.tree().children();
    let sections = top[0].children();
    let head = sections[0].children();
    let body = sections[1].children();
    lemma_tag_names_differ();
    lemma_element_found(top, "HTML"@, 0, 0);
    lemma_element_found(sections, "HEAD"@, 0, 0);
    lemma_element_found(sections, "BODY"@, 0, 1);
    lemma_text_element("TITLE"@, Seq::empty(), d.title);
    lemma_text_element("H1"@, Seq::empty(), d.h1);
    assert(last_text(head, "TITLE"@, 1) == d.title);
    assert(last_text(body, "H1"@, 1) == d.h1);
    assert(last_text(body, "H1"@, 2) == d.h1);
    lemma_items_round_trip(d.children, d.children.len());
    assert(d.children.take(d.children.len() as int) =~= d.children);
    assert(listed_items(body, 0) == Seq::<ItemView>::empty());
    assert(listed_items(body, 1) == Seq::<ItemView>::empty());
    assert(listed_items(body, 2) == d.children);
    lemma_items_same_as_themselves(d.children);
}

/// Whether the folder `f` is a chain of `depth` folders, one inside the
/// other: each but the last holds the next and nothing else, and the last
/// holds nothing.
pub open spec fn is_chain(f: FolderView, depth: nat) -> bool
    decreases depth,
{
    if depth == 0 {
        false
    } else if depth == 1 {
        f.children.len() == 0
    } else {
        &&& f.children.len() == 1
        &&& f.children[0] matches ItemView::Subfolder(inner)
        &&& is_chain(inner, (depth - 1) as nat)
    }
}

/// The index of the first node at or after `start` that stands for an entry.
pub open spec fn first_entry(row: Seq<Tree>, start: int) -> Option<int>
    decreases row.len() - start,
{
    if start < 0 || start >= row.len() {
        None
    } else if item_at(row, start) is Some {
        Some(start)
    } else {
        first_entry(row, start + 1)
    }
}

/// Whether the node at `index` of `row` is an `H3` heading that opens a chain
/// of `depth` headings. The last heading of a chain has no `DL` element after
/// it. Every other heading has one, and of the children of the first such
/// list exactly one stands for an entry: a wrapper that heads the rest of the
/// chain.
pub open spec fn heads_chain(row: Seq<Tree>, index: int, depth: nat) -> bool
    decreases depth, 0nat,
{
    let list = first_element(row, "DL"@, index + 1);
    &&& 0 <= index < row.len()
    &&& row[index].is_element("H3"@)
    &&& depth >= 1
    &&& depth == 1 ==> list is None
    &&& depth > 1 ==> list is Some && first_entry(row[list->0].children(), 0) is Some
        && wraps_chain(
        row[list->0].children(),
        first_entry(row[list->0].children(), 0)->0,
        (depth - 1) as nat,
    )
}

/// Whether the node at `at` of `row` is the only one of the row that stands
/// for an entry, and is a `DT` wrapper of no shortcut whose first `H3` child
/// heads a chain of `depth` headings.
pub open spec fn wraps_chain(row: Seq<Tree>, at: int, depth: nat) -> bool
    decreases depth, 1nat,
{
    let heading = first_element(row[at].children(), "H3"@, 0);
    &&& 0 <= at < row.len()
    &&& forall|j: int| 0 <= j < row.len() && j != at ==> #[trigger] item_at(row, j) is None
    &&& row[at].is_element("DT"@)
    &&& bookmark_of(row[at]) is None
    &&& heading is Some
    &&& heads_chain(row[at].children(), heading->0, depth)
}

/// The entries of a row in which one node alone stands for an entry.
pub proof fn lemma_only_entry(row: Seq<Tree>, at: int, item: ItemView, count: nat)
    requires
        0 <= at < row.len(),
        count <= row.len(),
        item_at(row, at) == Some(item),
        forall|j: int| 0 <= j < row.len() && j != at ==> #[trigger] item_at(row, j) is None,
    ensures
        items_upto(row, count) == if count > at {
            seq![item]
        } else {
            Seq::<ItemView>::empty()
        },
    decreases count,
{
    if count > 0 {
        lemma_only_entry(row, at, item, (count - 1) as nat);
        if count - 1 == at {
            assert(Seq::<ItemView>::empty().push(item) =~= seq![item]);
        } else {
            assert(item_at(row, count - 1) is None);
        }
    }
}

/// Folders nest as deep as the headings do: a heading that opens a chain of
/// `depth` headings stands for a chain of `depth` folders. No level is lost
/// and none is added, however long the chain.
pub proof fn lemma_chain_of_headings(row: Seq<Tree>, index: int, depth: nat)
    requires
        heads_chain(row, index, depth),
    ensures
        folder_at(row, index) matches Some(f) && is_chain(f, depth),
    decreases depth, 0nat,
{
    lemma_tag_names_differ();
    if depth > 1 {
        let list = first_element(row, "DL"@, index + 1)->0;
        lemma_first_element_in_row(row, "DL"@, index + 1);
        let inner = row[list].children();
        let at = first_entry(inner, 0)->0;
        lemma_chain_in_wrapper(inner, at, (depth - 1) as nat);
        let item = ItemView::Subfolder(folder_at(inner, at)->0);
        lemma_only_entry(inner, at, item, inner.len());
    }
}

/// The same for the wrapper of a heading: a `DT` wrapper of no shortcut whose
/// first `H3` child opens a chain of `depth` headings stands for a chain of
/// `depth` folders.
pub proof fn lemma_chain_in_wrapper(row: Seq<Tree>, at: int, depth: nat)
    requires
        wraps_chain(row, at, depth),
    ensures
        folder_at(row, at) matches Some(f) && is_chain(f, depth),
        item_at(row, at) == Some(ItemView::Subfolder(folder_at(row, at)->0)),
    decreases depth, 1nat,
{
    lemma_tag_names_differ();
    let inside = row[at].children();
    let heading = first_element(inside, "H3"@, 0)->0;
    lemma_chain_of_headings(inside, heading, depth);
}

/// Where the first element of a row from `start` on is named `name`, it is
/// also the first element of that name.
pub proof fn lemma_first_of_elements_named(row: Seq<Tree>, name: Seq<char>, start: int)
    requires
        first_of_elements(row, start) matches Some(i) && row[i].is_element(name),
    ensures
        first_element(row, name, start) == first_of_elements(row, start),
    decreases row.len() - start,
{
    if 0 <= start < row.len() && !(row[start] is Element) {
        lemma_first_of_elements_named(row, name, start + 1);
    }
}

/// Of a `DT` wrapper only the first element counts for a shortcut: where
/// that element is no anchor the wrapper stands for no shortcut, whatever
/// follows it, and where it is an `H3` heading the wrapper stands for a folder.
pub proof fn lemma_wrapper_first_element(row: Seq<Tree>, index: int)
    requires
        0 <= index < row.len(),
        row[index].is_element("DT"@),
        first_of_elements(row[index].children(), 0) matches Some(first) && !row[index].children()[first].is_element(
            "A"@,
        ),
    ensures
        bookmark_of(row[index]) is None,
        row[index].children()[first_of_elements(row[index].children(), 0)->0].is_element("H3"@)
            ==> item_at(row, index) matches Some(ItemView::Subfolder(_)),
{
    let inside = row[index].children();
    let first = first_of_elements(inside, 0)->0;
    if inside[first].is_element("H3"@) {
        lemma_first_of_elements_named(inside, "H3"@, 0);
    }
}

/// A node that is no element named `A`, `DT` or `H3` stands for no entry:
/// text between the entries and elements that only lay the page out are
/// passed over.
pub proof fn lemma_other_nodes_give_no_entry(row: Seq<Tree>, index: int)
    requires
        !row[index].is_element("A"@),
        !row[index].is_element("DT"@),
        !row[index].is_element("H3"@),
    ensures
        item_at(row, index) is None,
{
}

/// An anchor without attributes still stands for a shortcut: every field of
/// it is empty but the title, which is the anchor's text.
pub proof fn lemma_bare_anchor(name: Seq<char>, children: Seq<Tree>)
    requires
        names_match(name, "A"@),
    ensures
        bookmark_of(Tree::Element { name, attributes: Seq::empty(), children }) == Some(
            BookmarkView {
                href: Seq::empty(),
                title: (Tree::Element { name, attributes: Seq::empty(), children }).text(),
                add_date: Seq::empty(),
                last_visit: Seq::empty(),
                last_modified: Seq::empty(),
                icon_uri: Seq::empty(),
                icon: Seq::empty(),
            },
        ),
{
    lemma_tag_names_differ();
}

/// A lookup does not tell apart two names that differ only in the case of
/// ASCII letters: it finds the same whichever of them is asked for.
pub proof fn lemma_case_set_aside(node: Tree, a: Seq<char>, b: Seq<char>)
    requires
        names_match(a, b),
    ensures
        node.is_element(a) == node.is_element(b),
        node.attribute(a) == node.attribute(b),
        node.attribute_value(a) == node.attribute_value(b),
{
    lemma_attribute_case_set_aside(node.attributes(), a, b, 0);
}

/// Nor does it tell apart two elements whose own names differ only in the
/// case of ASCII letters.
pub proof fn lemma_own_case_set_aside(
    a: Seq<char>,
    b: Seq<char>,
    attributes: Seq<AttributeView>,
    children: Seq<Tree>,
    asked: Seq<char>,
)
    requires
        names_match(a, b),
    ensures
        (Tree::Element { name: a, attributes, children }).is_element(asked) == (Tree::Element {
            name: b,
            attributes,
            children,
        }).is_element(asked),
{
}

/// The same attribute is found from `start` on whichever of two matching
/// names is asked for.
pub proof fn lemma_attribute_case_set_aside(
    attributes: Seq<AttributeView>,
    a: Seq<char>,
    b: Seq<char>,
    start: int,
)
    requires
        names_match(a, b),
    ensures
        first_attribute(attributes, a, start) == first_attribute(attributes, b, start),
    decreases attributes.len() - start,
{
    if 0 <= start < attributes.len() {
        lemma_attribute_case_set_aside(attributes, a, b, start + 1);
    }
}

/// The same element is found from `start` on whichever of two matching names
/// is asked for.
pub proof fn lemma_element_case_set_aside(row: Seq<Tree>, a: Seq<char>, b: Seq<char>, start: int)
    requires
        names_match(a, b),
    ensures
        first_element(row, a, start) == first_element(row, b, start),
    decreases row.len() - start,
{
    if 0 <= start < row.len() {
        lemma_element_case_set_aside(row, a, b, start + 1);
    }
}

/// The JSON form of an entry is the text that writes its JSON object.
pub proof fn lemma_item_json_is_written(item: ItemView)
    ensures
        item.json() == written(item.json_value()),
    decreases item, 0nat,
{
    match item {
        ItemView::Shortcut(b) => {
            let fields = b.json_value()->Record_0;
            assert(written_fields(fields) =~= b.json_fields());
        },
        ItemView::Subfolder(f) => {
            let fields = f.json_value()->Record_0;
            lemma_items_json_are_written(f.children);
            assert(written_fields(fields) =~= f.json_fields());
        },
    }
}

/// The JSON forms of a row of entries are the texts that write their JSON objects.
pub proof fn lemma_items_json_are_written(items: Seq<ItemView>)
    ensures
        items_json(items) == written_values(item_values(items)),
    decreases items, 1nat,
{
    assert forall|i: int| 0 <= i < items.len() implies (#[trigger] items_json(items)[i])
        == written_values(item_values(items))[i] by {
        lemma_item_json_is_written(items[i]);
    }
    assert(items_json(items) =~= written_values(item_values(items)));
}

/// The JSON form of a document is the text that writes its JSON object.
pub proof fn lemma_document_json_is_written(d: NetscapeView)
    ensures
        d.json() == written(d.json_value()),
{
    let fields = d.json_value()->Record_0;
    lemma_items_json_are_written(d.children);
    assert(written_fields(fields) =~= d.json_fields());
}

/// The JSON object of an entry shows its kind by its fields alone, at any
/// depth of a document: that of a shortcut has a field `href` and no field
/// `children`, that of a folder has a field `children` and no field `href`.
/// No field is added that names the kind: the fields are those of the
/// shortcut or of the folder.
pub proof fn lemma_json_shows_kind(item: ItemView)
    ensures
        item is Shortcut <==> has_field(item.json_value(), "href"@) && !has_field(
            item.json_value(),
            "children"@,
        ),
        item is Subfolder <==> has_field(item.json_value(), "children"@) && !has_field(
            item.json_value(),
            "href"@,
        ),
        item matches ItemView::Shortcut(b) ==> item.json_value() == b.json_value(),
        item matches ItemView::Subfolder(f) ==> item.json_value() == f.json_value(),
{
    reveal_strlit("href");
    reveal_strlit("title");
    reveal_strlit("add_date");
    reveal_strlit("last_visit");
    reveal_strlit("last_modified");
    reveal_strlit("icon_uri");
    reveal_strlit("icon");
    reveal_strlit("folded");
    reveal_strlit("personal_toolbar_folder");
    reveal_strlit("unfiled_bookmarks_folder");
    reveal_strlit("children");
    let fields = item.json_value()->Record_0;
    match item {
        ItemView::Shortcut(b) => {
            assert(fields[0].name == "href"@);
            assert("add_date"@[0] != "children"@[0]);
            assert("icon_uri"@[0] != "children"@[0]);
            assert forall|i: int| 0 <= i < fields.len() implies (#[trigger] fields[i]).name
                != "children"@ by {
                assert(fields[i].name.len() != "children"@.len() || fields[i].name[0]
                    != "children"@[0]);
            }
        },
        ItemView::Subfolder(f) => {
            assert(fields[6].name == "children"@);
            assert forall|i: int| 0 <= i < fields.len() implies (#[trigger] fields[i]).name
                != "href"@ by {
                assert(fields[i].name.len() != "href"@.len());
            }
        },
    }
}

} // verus!
