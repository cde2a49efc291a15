//! Queries that reach through the folders of a row of entries.
use vstd::prelude::*;
use crate::bookmark::Bookmark;
use crate::bookmark::BookmarkView;
use crate::folder::Folder;
use crate::folder::FolderView;
use crate::item::Item;
use crate::item::ItemView;
use crate::item::item_views;

verus! {

/// The shortcuts among the first `count` entries of `items` and in the
/// folders among them, at any depth, in the order of the file.
pub open spec fn nested_shortcuts(items: Seq<ItemView>, count: nat) -> Seq<BookmarkView>
    decreases items, count,
{
    if count == 0 || count > items.len() {
        Seq::empty()
    } else {
        nested_shortcuts(items, (count - 1) as nat) + match items[count - 1] {
            ItemView::Subfolder(f) => nested_shortcuts(f.children, f.children.len()),
            ItemView::Shortcut(b) => seq![b],
        }
    }
}

/// The folders among the first `count` entries of `items` and inside them, at
/// any depth: each folder comes before the folders that it holds.
pub open spec fn nested_subfolders(items: Seq<ItemView>, count: nat) -> Seq<FolderView>
    decreases items, count,
{
    if count == 0 || count > items.len() {
        Seq::empty()
    } else {
        nested_subfolders(items, (count - 1) as nat) + match items[count - 1] {
            ItemView::Subfolder(f) => seq![f] + nested_subfolders(f.children, f.children.len()),
            ItemView::Shortcut(_) => Seq::empty(),
        }
    }
}

/// The mathematical values of a row of shortcuts.
pub open spec fn bookmark_views(bookmarks: Seq<&Bookmark>) -> Seq<BookmarkView> {
    Seq::new(bookmarks.len(), |i: int| bookmarks[i]@)
}

/// The mathematical values of a row of folders.
pub open spec fn folder_views(folders: Seq<&Folder>) -> Seq<FolderView> {
    Seq::new(folders.len(), |i: int| folders[i]@)
}

/// Collects the entries of one kind from a row of entries and from all the
/// folders in it.
pub trait NestedCollection {
    /// The entries of the row.
    spec fn entries(&self) -> Seq<ItemView>;

    /// All shortcuts of the row and of the folders in it.
    fn shortcuts(&self) -> (all: Vec<&Bookmark>)
        ensures
            bookmark_views(all@) == nested_shortcuts(self.entries(), self.entries().len()),
    ;

    /// All folders of the row and of the folders in it.
    fn subfolders(&self) -> (all: Vec<&Folder>)
        ensures
            folder_views(all@) == nested_subfolders(self.entries(), self.entries().len()),
    ;
}

impl NestedCollection for Vec<Item> {
    open spec fn entries(&self) -> Seq<ItemView> {
        item_views(self@)
    }

    fn shortcuts(&self) -> (all: Vec<&Bookmark>)
        decreases self,
    {
        let mut all: Vec<&Bookmark> = Vec::new();
        let mut i: usize = 0;
        while i < self.len()
            invariant
                i <= self.len(),
                bookmark_views(all@) == nested_shortcuts(item_views(self@), i as nat),
            decreases self.len() - i,
        {
            match &self[i] {
                Item::Subfolder(f) => {
                    let mut inner = f.children.shortcuts();
                    all.append(&mut inner);
                },
                Item::Shortcut(b) => {
                    all.push(b);
                },
            }
            i = i + 1;
        }
        all
    }

    fn subfolders(&self) -> (all: Vec<&Folder>)
        decreases self,
    {
        let mut all: Vec<&Folder> = Vec::new();
        let mut i: usize = 0;
        while i < self.len()
            invariant
                i <= self.len(),
                folder_views(all@) == nested_subfolders(item_views(self@), i as nat),
            decreases self.len() - i,
        {
            if let Item::Subfolder(f) = &self[i] {
                all.push(f);
                let mut inner = f.children.subfolders();
                all.append(&mut inner);
            }
            i = i + 1;
        }
        all
    }
}

} // verus!
