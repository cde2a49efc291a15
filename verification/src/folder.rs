//! The folder: a named, ordered container of entries.
use vstd::prelude::*;
use vstd::std_specs::cmp::PartialEqSpecImpl;
use crate::item::Item;
use crate::item::ItemView;
use crate::item::item_views;
use crate::item::items_eq;
use crate::item::items_html;
use crate::item::items_of;
use crate::item::render_items;
use crate::node::Tree;
use crate::node::first_element;
use crate::node::lemma_first_element_in_row;
use crate::node_ref_ext::Cursor;
use crate::node_ref_ext::NodeRefExt;

verus! {

/// A folder as a mathematical value.
pub struct FolderView {
    pub title: Seq<char>,
    pub folded: bool,
    pub add_date: Seq<char>,
    pub last_modified: Seq<char>,
    pub personal_toolbar_folder: bool,
    pub unfiled_bookmarks_folder: bool,
    pub children: Seq<ItemView>,
}

/// ` NAME="value"`, or nothing where the value is empty.
pub open spec fn value_attribute(name: Seq<char>, value: Seq<char>) -> Seq<char> {
    if value.len() == 0 {
        Seq::empty()
    } else {
        " "@ + name + "=\""@ + value + "\""@
    }
}

/// ` NAME`, or nothing where the flag is not set.
pub open spec fn flag_attribute(name: Seq<char>, set: bool) -> Seq<char> {
    if set {
        " "@ + name
    } else {
        Seq::empty()
    }
}

impl FolderView {
    /// Two folders are the same entry when they agree on the title and the
    /// date of creation and hold the same entries in the same order.
    pub open spec fn same(self, other: FolderView) -> bool
        decreases self,
    {
        &&& self.add_date == other.add_date
        &&& self.title == other.title
        &&& self.children.len() == other.children.len()
        &&& forall|i: int|
            0 <= i < self.children.len() ==> (#[trigger] self.children[i]).same(other.children[i])
    }

    /// The markup of a folder: its heading, then the list of its entries, one per line.
    pub open spec fn html(self) -> Seq<char>
        decreases self, 0nat,
    {
        "<DT><H3"@ + flag_attribute("FOLDED"@, self.folded) + value_attribute(
            "ADD_DATE"@,
            self.add_date,
        ) + value_attribute("LAST_MODIFIED"@, self.last_modified) + flag_attribute(
            "PERSONAL_TOOLBAR_FOLDER"@,
            self.personal_toolbar_folder,
        ) + flag_attribute("UNFILED_BOOKMARKS_FOLDER"@, self.unfiled_bookmarks_folder) + ">"@
            + self.title + "</H3>\n<DL><p>\n"@ + items_html(self.children, self.children.len())
            + "</DL><p>"@
    }
}

/// The folder that the heading at `index` of `row` opens. Its entries are
/// those of the first `DL` element that follows the heading in the row; it
/// has none where no such element follows.
pub open spec fn heading_folder(row: Seq<Tree>, index: int) -> FolderView
    decreases row, 0nat,
{
    let heading = row[index];
    FolderView {
        title: heading.text(),
        folded: heading.attribute("FOLDED"@) is Some,
        add_date: heading.attribute_value("ADD_DATE"@),
        last_modified: heading.attribute_value("LAST_MODIFIED"@),
        personal_toolbar_folder: heading.attribute("PERSONAL_TOOLBAR_FOLDER"@) is Some,
        unfiled_bookmarks_folder: heading.attribute("UNFILED_BOOKMARKS_FOLDER"@) is Some,
        children: match first_element(row, "DL"@, index + 1) {
            Some(body) => {
                proof {
                    lemma_first_element_in_row(row, "DL"@, index + 1);
                }
                items_of(row[body].children())
            },
            None => Seq::empty(),
        },
    }
}

/// The folder that the node at `index` of `row` stands for: an `H3` heading
/// opens one, a `DT` wrapper stands for the one that its first `H3` child
/// opens, and any other node for none.
pub open spec fn folder_at(row: Seq<Tree>, index: int) -> Option<FolderView>
    decreases row, 1nat,
{
    if index < 0 || index >= row.len() {
        None
    } else if row[index].is_element("DT"@) {
        match first_element(row[index].children(), "H3"@, 0) {
            Some(heading) => Some(heading_folder(row[index].children(), heading)),
            None => None,
        }
    } else if row[index].is_element("H3"@) {
        Some(heading_folder(row, index))
    } else {
        None
    }
}

/// The mathematical value of a folder that may be missing.
pub open spec fn folder_option_view(f: Option<Folder>) -> Option<FolderView> {
    match f {
        Some(f) => Some(f@),
        None => None,
    }
}

/// A folder of a bookmark file.
#[derive(Debug)]
pub struct Folder {
    /// The title: the text of the heading.
    pub title: String,
    /// Whether the folder is shown closed.
    pub folded: bool,
    /// When the folder was made, as the file gives it.
    pub add_date: String,
    /// When the folder was last changed, as the file gives it.
    pub last_modified: String,
    /// Whether this is the folder of the bookmarks toolbar.
    pub personal_toolbar_folder: bool,
    /// Whether this is the folder of unfiled bookmarks.
    pub unfiled_bookmarks_folder: bool,
    /// The entries of the folder, in the order of the file.
    pub children: Vec<Item>,
}

impl Folder {
    /// This folder as a mathematical value.
    pub open spec fn view(&self) -> FolderView
        decreases self,
    {
        FolderView {
            title: self.title@,
            folded: self.folded,
            add_date: self.add_date@,
            last_modified: self.last_modified@,
            personal_toolbar_folder: self.personal_toolbar_folder,
            unfiled_bookmarks_folder: self.unfiled_bookmarks_folder,
            children: item_views(self.children@),
        }
    }

    /// A folder with the given fields.
    pub fn new(
        title: String,
        folded: bool,
        add_date: String,
        last_modified: String,
        personal_toolbar_folder: bool,
        unfiled_bookmarks_folder: bool,
        children: Vec<Item>,
    ) -> (out: Folder)
        ensures
            out@ == (FolderView {
                title: title@,
                folded,
                add_date: add_date@,
                last_modified: last_modified@,
                personal_toolbar_folder,
                unfiled_bookmarks_folder,
                children: item_views(children@),
            }),
    {
        Folder {
            title,
            folded,
            add_date,
            last_modified,
            personal_toolbar_folder,
            unfiled_bookmarks_folder,
            children,
        }
    }

    /// Reads the folder that a heading opens.
    fn from_heading(node: &Cursor) -> (out: Folder)
        ensures
            out@ == heading_folder(node.trees(), node.position()),
        decreases node.trees(), 1nat,
    {
        proof {
            use_type_invariant(node);
        }
        let folded = node.select_attribute("FOLDED").is_some();
        let add_date = node.attribute_value("ADD_DATE");
        let last_modified = node.attribute_value("LAST_MODIFIED");
        let personal_toolbar_folder = node.select_attribute("PERSONAL_TOOLBAR_FOLDER").is_some();
        let unfiled_bookmarks_folder = node.select_attribute("UNFILED_BOOKMARKS_FOLDER").is_some();
        let title = node.text_contents();
        let children = match node.next_sibling("DL") {
            Some(body) => Item::from_children(&body),
            None => Vec::new(),
        };
        proof {
            lemma_first_element_in_row(node.trees(), "DL"@, node.position() + 1);
            if first_element(node.trees(), "DL"@, node.position() + 1) is None {
                assert(item_views(children@) =~= Seq::empty());
            }
        }
        Folder {
            title,
            folded,
            add_date,
            last_modified,
            personal_toolbar_folder,
            unfiled_bookmarks_folder,
            children,
        }
    }

    /// Reads a folder off a node: off an `H3` heading, or off the first `H3`
    /// heading directly inside a `DT` wrapper. Any other node gives none.
    pub fn from_node(node: &Cursor) -> (out: Option<Folder>)
        ensures
            folder_option_view(out) == folder_at(node.trees(), node.position()),
        decreases node.trees(), 2nat,
    {
        proof {
            use_type_invariant(node);
        }
        if node.is_element("DT") {
            match node.first_child("H3") {
                Some(heading) => Some(Self::from_heading(&heading)),
                None => None,
            }
        } else if node.is_element("H3") {
            Some(Self::from_heading(node))
        } else {
            None
        }
    }

    /// The markup of this folder.
    pub fn render(&self) -> (out: String)
        ensures
            out@ == self@.html(),
        decreases self, 2nat,
    {
        let folded = flag_text("FOLDED", self.folded);
        let add_date = value_text("ADD_DATE", self.add_date.as_str());
        let last_modified = value_text("LAST_MODIFIED", self.last_modified.as_str());
        let toolbar = flag_text("PERSONAL_TOOLBAR_FOLDER", self.personal_toolbar_folder);
        let unfiled = flag_text("UNFILED_BOOKMARKS_FOLDER", self.unfiled_bookmarks_folder);
        let inner = render_items(&self.children);
        let mut out = String::from_str("<DT><H3");
        out.append(folded.as_str());
        out.append(add_date.as_str());
        out.append(last_modified.as_str());
        out.append(toolbar.as_str());
        out.append(unfiled.as_str());
        out.append(">");
        out.append(self.title.as_str());
        out.append("</H3>\n<DL><p>\n");
        out.append(inner.as_str());
        out.append("</DL><p>");
        out
    }
}

/// The text of a value attribute: nothing where the value is empty.
fn value_text(name: &str, value: &str) -> (out: String)
    ensures
        out@ == value_attribute(name@, value@),
{
    if value.is_empty() {
        String::new()
    } else {
        let mut out = String::from_str(" ");
        out.append(name);
        out.append("=\"");
        out.append(value);
        out.append("\"");
        out
    }
}

/// The text of a bare attribute: nothing where the flag is not set.
fn flag_text(name: &str, set: bool) -> (out: String)
    ensures
        out@ == flag_attribute(name@, set),
{
    if set {
        let mut out = String::from_str(" ");
        out.append(name);
        out
    } else {
        String::new()
    }
}

impl Clone for Folder {
    fn clone(&self) -> (out: Self)
        ensures
            out@ == self@,
        decreases self,
    {
        let mut children: Vec<Item> = Vec::new();
        let mut i: usize = 0;
        while i < self.children.len()
            invariant
                i <= self.children.len(),
                children@.len() == i,
                forall|j: int| 0 <= j < i ==> (#[trigger] children@[j])@ == self.children@[j]@,
            decreases self.children.len() - i,
        {
            children.push(self.children[i].clone());
            i = i + 1;
        }
        assert(item_views(children@) =~= item_views(self.children@));
        Folder {
            title: self.title.clone(),
            folded: self.folded,
            add_date: self.add_date.clone(),
            last_modified: self.last_modified.clone(),
            personal_toolbar_folder: self.personal_toolbar_folder,
            unfiled_bookmarks_folder: self.unfiled_bookmarks_folder,
            children,
        }
    }
}

impl Default for Folder {
    fn default() -> (out: Self)
        ensures
            out@ == (FolderView {
                title: Seq::empty(),
                folded: false,
                add_date: Seq::empty(),
                last_modified: Seq::empty(),
                personal_toolbar_folder: false,
                unfiled_bookmarks_folder: false,
                children: Seq::empty(),
            }),
    {
        let out = Folder {
            title: String::new(),
            folded: false,
            add_date: String::new(),
            last_modified: String::new(),
            personal_toolbar_folder: false,
            unfiled_bookmarks_folder: false,
            children: Vec::new(),
        };
        assert(item_views(out.children@) =~= Seq::empty());
        out
    }
}

impl PartialEq for Folder {
    fn eq(&self, other: &Self) -> (out: bool)
        decreases self, 2nat,
    {
        self.add_date == other.add_date && self.title == other.title && items_eq(
            &self.children,
            &other.children,
        )
    }
}

impl PartialEqSpecImpl for Folder {
    open spec fn obeys_eq_spec() -> bool {
        true
    }

    open spec fn eq_spec(&self, other: &Self) -> bool {
        self@.same(other@)
    }
}

} // verus!
