//! The entries of a bookmark file: each is a shortcut or a folder.
use vstd::prelude::*;
use vstd::std_specs::cmp::PartialEqSpecImpl;
use crate::bookmark::Bookmark;
use crate::bookmark::BookmarkView;
use crate::bookmark::bookmark_of;
use crate::folder::Folder;
use crate::folder::FolderView;
use crate::folder::folder_at;
use crate::node::Tree;
use crate::node_ref_ext::Cursor;
use crate::node_ref_ext::NodeRefExt;

verus! {

/// An entry as a mathematical value.
pub enum ItemView {
    Subfolder(FolderView),
    Shortcut(BookmarkView),
}

impl ItemView {
    /// Two entries are the same when they are of one kind and the same as such.
    pub open spec fn same(self, other: ItemView) -> bool
        decreases self,
    {
        match (self, other) {
            (ItemView::Subfolder(f1), ItemView::Subfolder(f2)) => f1.same(f2),
            (ItemView::Shortcut(b1), ItemView::Shortcut(b2)) => b1.same(b2),
            _ => false,
        }
    }

    /// The markup of an entry.
    pub open spec fn html(self) -> Seq<char>
        decreases self, 0nat,
    {
        match self {
            ItemView::Subfolder(f) => f.html(),
            ItemView::Shortcut(b) => b.html(),
        }
    }
}

/// Whether two rows of entries are the same entry by entry.
pub open spec fn same_items(a: Seq<ItemView>, b: Seq<ItemView>) -> bool
    decreases a,
{
    &&& a.len() == b.len()
    &&& forall|i: int| 0 <= i < a.len() ==> (#[trigger] a[i]).same(b[i])
}

/// The markup of the first `count` entries, each followed by a line break.
pub open spec fn items_html(items: Seq<ItemView>, count: nat) -> Seq<char>
    decreases items, count,
{
    if count == 0 || count > items.len() {
        Seq::empty()
    } else {
        items_html(items, (count - 1) as nat) + items[count - 1].html() + "\n"@
    }
}

/// The entry that the node at `index` of `row` stands for: a shortcut where
/// it stands for one, else a folder where it stands for one.
pub open spec fn item_at(row: Seq<Tree>, index: int) -> Option<ItemView>
    decreases row, 2nat,
{
    if index < 0 || index >= row.len() {
        None
    } else {
        match bookmark_of(row[index]) {
            Some(b) => Some(ItemView::Shortcut(b)),
            None => match folder_at(row, index) {
                Some(f) => Some(ItemView::Subfolder(f)),
                None => None,
            },
        }
    }
}

/// The entries that the first `count` nodes of `row` stand for, in order;
/// a node that stands for none is passed over.
pub open spec fn items_upto(row: Seq<Tree>, count: nat) -> Seq<ItemView>
    decreases row, count + 2,
{
    if count == 0 || count > row.len() {
        Seq::empty()
    } else {
        match item_at(row, count - 1) {
            Some(item) => items_upto(row, (count - 1) as nat).push(item),
            None => items_upto(row, (count - 1) as nat),
        }
    }
}

/// The entries that the nodes of `row` stand for.
pub open spec fn items_of(row: Seq<Tree>) -> Seq<ItemView>
    decreases row, row.len() + 3,
{
    items_upto(row, row.len())
}

/// An entry of a bookmark file.
#[derive(Debug)]
pub enum Item {
    /// A folder with the entries inside it.
    Subfolder(Folder),
    /// A shortcut.
    Shortcut(Bookmark),
}

/// The mathematical values of a row of entries.
pub open spec fn item_views(items: Seq<Item>) -> Seq<ItemView>
    decreases items,
{
    Seq::new(
        items.len(),
        |i: int|
            if 0 <= i < items.len() {
                items[i].view()
            } else {
                arbitrary()
            },
    )
}

/// The mathematical value of an entry that may be missing.
pub open spec fn item_option_view(item: Option<Item>) -> Option<ItemView> {
    match item {
        Some(item) => Some(item@),
        None => None,
    }
}

impl Item {
    /// This entry as a mathematical value.
    pub open spec fn view(&self) -> ItemView
        decreases self,
    {
        match self {
            Item::Subfolder(f) => ItemView::Subfolder(f.view()),
            Item::Shortcut(b) => ItemView::Shortcut(b@),
        }
    }

    /// Reads an entry off a node: a shortcut if the node stands for one, else
    /// a folder if it stands for one, else nothing.
    pub fn from_node(node: &Cursor) -> (out: Option<Item>)
        ensures
            item_option_view(out) == item_at(node.trees(), node.position()),
        decreases node.trees(), 3nat,
    {
        proof {
            use_type_invariant(node);
        }
        match Bookmark::from_node(node) {
            Some(bookmark) => Some(Item::Shortcut(bookmark)),
            None => match Folder::from_node(node) {
                Some(folder) => Some(Item::Subfolder(folder)),
                None => None,
            },
        }
    }

    /// Reads the entries off the children of a node, in order.
    pub fn from_children(parent: &Cursor) -> (out: Vec<Item>)
        ensures
            item_views(out@) == items_of(parent.tree().children()),
        decreases parent.trees(), 0nat,
    {
        proof {
            use_type_invariant(parent);
        }
        let kids = parent.children();
        let mut out: Vec<Item> = Vec::new();
        let mut i: usize = 0;
        while i < kids.len()
            invariant
                i <= kids.len(),
                0 <= parent.position() < parent.trees().len(),
                kids@.len() == parent.tree().children().len(),
                forall|j: int|
                    0 <= j < kids@.len() ==> (#[trigger] kids@[j]).trees()
                        == parent.tree().children() && kids@[j].position() == j,
                item_views(out@) == items_upto(parent.tree().children(), i as nat),
            decreases kids.len() - i,
        {
            if let Some(item) = Item::from_node(&kids[i]) {
                out.push(item);
            }
            i = i + 1;
        }
        out
    }

    /// Whether this entry is a shortcut.
    pub fn is_shortcut(&self) -> (out: bool)
        ensures
            out == (self@ is Shortcut),
    {
        match self {
            Item::Subfolder(_) => false,
            Item::Shortcut(_) => true,
        }
    }

    /// The shortcut that this entry is, if it is one.
    pub fn take_shortcut(&self) -> (out: Option<&Bookmark>)
        ensures
            out is Some <==> self is Shortcut,
            out matches Some(b) ==> *self == Item::Shortcut(*b),
    {
        match self {
            Item::Subfolder(_) => None,
            Item::Shortcut(bookmark) => Some(bookmark),
        }
    }

    /// Whether this entry is a folder.
    pub fn is_subfolder(&self) -> (out: bool)
        ensures
            out == (self@ is Subfolder),
    {
        match self {
            Item::Subfolder(_) => true,
            Item::Shortcut(_) => false,
        }
    }

    /// The folder that this entry is, if it is one.
    pub fn take_subfolder(&self) -> (out: Option<&Folder>)
        ensures
            out is Some <==> self is Subfolder,
            out matches Some(f) ==> *self == Item::Subfolder(*f),
    {
        match self {
            Item::Subfolder(folder) => Some(folder),
            Item::Shortcut(_) => None,
        }
    }

    /// The markup of this entry.
    pub fn render(&self) -> (out: String)
        ensures
            out@ == self@.html(),
        decreases self, 0nat,
    {
        match self {
            Item::Subfolder(folder) => folder.render(),
            Item::Shortcut(bookmark) => bookmark.render(),
        }
    }
}

/// The markup of a row of entries, each followed by a line break.
pub fn render_items(items: &Vec<Item>) -> (out: String)
    ensures
        out@ == items_html(item_views(items@), items@.len()),
    decreases items, 1nat,
{
    let mut out = String::new();
    let mut i: usize = 0;
    while i < items.len()
        invariant
            i <= items.len(),
            out@ == items_html(item_views(items@), i as nat),
        decreases items.len() - i,
    {
        let piece = items[i].render();
        out.append(piece.as_str());
        out.append("\n");
        i = i + 1;
    }
    out
}

/// Whether two rows of entries are the same entry by entry.
pub fn items_eq(a: &Vec<Item>, b: &Vec<Item>) -> (out: bool)
    ensures
        out == same_items(item_views(a@), item_views(b@)),
    decreases a, 1nat,
{
    if a.len() != b.len() {
        return false;
    }
    let mut i: usize = 0;
    while i < a.len()
        invariant
            i <= a.len(),
            a.len() == b.len(),
            forall|j: int| 0 <= j < i ==> (#[trigger] item_views(a@)[j]).same(item_views(b@)[j]),
        decreases a.len() - i,
    {
        if !a[i].eq(&b[i]) {
            assert(!item_views(a@)[i as int].same(item_views(b@)[i as int]));
            return false;
        }
        i = i + 1;
    }
    true
}

impl Clone for Item {
    fn clone(&self) -> (out: Self)
        ensures
            out@ == self@,
        decreases self,
    {
        match self {
            Item::Subfolder(folder) => Item::Subfolder(folder.clone()),
            Item::Shortcut(bookmark) => Item::Shortcut(bookmark.clone()),
        }
    }
}

impl PartialEq for Item {
    fn eq(&self, other: &Self) -> (out: bool)
        decreases self, 0nat,
    {
        match (self, other) {
            (Item::Subfolder(f1), Item::Subfolder(f2)) => f1.eq(f2),
            (Item::Shortcut(b1), Item::Shortcut(b2)) => b1.eq(b2),
            _ => false,
        }
    }
}

impl PartialEqSpecImpl for Item {
    open spec fn obeys_eq_spec() -> bool {
        true
    }

    open spec fn eq_spec(&self, other: &Self) -> bool {
        self@.same(other@)
    }
}

} // verus!
