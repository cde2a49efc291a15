//! The shortcut: a leaf entry with a target address and a title.
use vstd::prelude::*;
use vstd::std_specs::cmp::PartialEqSpecImpl;
use crate::node::Tree;
use crate::node::first_of_elements;
use crate::node_ref_ext::Cursor;
use crate::node_ref_ext::NodeRefExt;

verus! {

/// A shortcut as a mathematical value.
pub struct BookmarkView {
    pub href: Seq<char>,
    pub title: Seq<char>,
    pub add_date: Seq<char>,
    pub last_visit: Seq<char>,
    pub last_modified: Seq<char>,
    pub icon_uri: Seq<char>,
    pub icon: Seq<char>,
}

impl BookmarkView {
    /// Two shortcuts are the same entry when they agree on the address, the
    /// three dates and the title. The icon does not identify an entry.
    pub open spec fn same(self, other: BookmarkView) -> bool {
        &&& self.href == other.href
        &&& self.add_date == other.add_date
        &&& self.last_visit == other.last_visit
        &&& self.last_modified == other.last_modified
        &&& self.title == other.title
    }

    /// The markup of a shortcut: one anchor in its wrapper, each value written as it is.
    pub open spec fn html(self) -> Seq<char> {
        "<DT><A HREF=\""@ + self.href + "\" ADD_DATE=\""@ + self.add_date + "\" LAST_VISIT=\""@
            + self.last_visit + "\" LAST_MODIFIED=\""@ + self.last_modified + "\" ICON_URI=\""@
            + self.icon_uri + "\" ICON=\""@ + self.icon + "\">"@ + self.title + "</A>"@
    }
}

/// The shortcut that an anchor element stands for: each attribute that is
/// missing reads as the empty string, and the title is the anchor's text.
pub open spec fn anchor_bookmark(anchor: Tree) -> BookmarkView {
    BookmarkView {
        href: anchor.attribute_value("HREF"@),
        title: anchor.text(),
        add_date: anchor.attribute_value("ADD_DATE"@),
        last_visit: anchor.attribute_value("LAST_VISIT"@),
        last_modified: anchor.attribute_value("LAST_MODIFIED"@),
        icon_uri: anchor.attribute_value("ICON_URI"@),
        icon: anchor.attribute_value("ICON"@),
    }
}

/// The shortcut that a node stands for. An anchor stands for itself. Of a
/// `DT` wrapper only the first child that is an element counts, whatever its
/// name: where that child is an anchor the wrapper stands for it, and else,
/// or without such a child, for nothing. No other node stands for a shortcut.
pub open spec fn bookmark_of(node: Tree) -> Option<BookmarkView> {
    if node.is_element("DT"@) {
        match first_of_elements(node.children(), 0) {
            Some(i) => if node.children()[i].is_element("A"@) {
                Some(anchor_bookmark(node.children()[i]))
            } else {
                None
            },
            None => None,
        }
    } else if node.is_element("A"@) {
        Some(anchor_bookmark(node))
    } else {
        None
    }
}

/// The mathematical value of a shortcut that may be missing.
pub open spec fn bookmark_option_view(b: Option<Bookmark>) -> Option<BookmarkView> {
    match b {
        Some(b) => Some(b@),
        None => None,
    }
}

/// A shortcut: a leaf entry of a bookmark file.
#[derive(Debug)]
pub struct Bookmark {
    /// The address that the shortcut leads to.
    pub href: String,
    /// The title: the text of the anchor.
    pub title: String,
    /// When the entry was made, as the file gives it.
    pub add_date: String,
    /// When the address was last visited, as the file gives it.
    pub last_visit: String,
    /// When the entry was last changed, as the file gives it.
    pub last_modified: String,
    /// The address of the site's icon.
    pub icon_uri: String,
    /// The icon itself, usually a data URI.
    pub icon: String,
}

impl Bookmark {
    /// This shortcut as a mathematical value.
    pub open spec fn view(&self) -> BookmarkView {
        BookmarkView {
            href: self.href@,
            title: self.title@,
            add_date: self.add_date@,
            last_visit: self.last_visit@,
            last_modified: self.last_modified@,
            icon_uri: self.icon_uri@,
            icon: self.icon@,
        }
    }

    /// A shortcut with the given fields.
    pub fn new(
        href: String,
        title: String,
        add_date: String,
        last_visit: String,
        last_modified: String,
        icon_uri: String,
        icon: String,
    ) -> (out: Bookmark)
        ensures
            out@ == (BookmarkView {
                href: href@,
                title: title@,
                add_date: add_date@,
                last_visit: last_visit@,
                last_modified: last_modified@,
                icon_uri: icon_uri@,
                icon: icon@,
            }),
    {
        Bookmark { href, title, add_date, last_visit, last_modified, icon_uri, icon }
    }

    /// Reads a shortcut off an anchor element.
    fn from_anchor(node: &Cursor) -> (out: Bookmark)
        ensures
            out@ == anchor_bookmark(node.tree()),
    {
        Bookmark {
            href: node.attribute_value("HREF"),
            title: node.text_contents(),
            add_date: node.attribute_value("ADD_DATE"),
            last_visit: node.attribute_value("LAST_VISIT"),
            last_modified: node.attribute_value("LAST_MODIFIED"),
            icon_uri: node.attribute_value("ICON_URI"),
            icon: node.attribute_value("ICON"),
        }
    }

    /// Reads a shortcut off a node: off an anchor, or off the first element
    /// directly inside a `DT` wrapper where that element is an anchor. Any
    /// other node gives none.
    pub fn from_node(node: &Cursor) -> (out: Option<Bookmark>)
        ensures
            bookmark_option_view(out) == bookmark_of(node.tree()),
    {
        if node.is_element("DT") {
            match node.first_element_child() {
                Some(child) => if child.is_element("A") {
                    Some(Self::from_anchor(&child))
                } else {
                    None
                },
                None => None,
            }
        } else if node.is_element("A") {
            Some(Self::from_anchor(node))
        } else {
            None
        }
    }

    /// The markup of this shortcut.
    pub fn render(&self) -> (out: String)
        ensures
            out@ == self@.html(),
    {
        let mut out = String::from_str("<DT><A HREF=\"");
        out.append(self.href.as_str());
        out.append("\" ADD_DATE=\"");
        out.append(self.add_date.as_str());
        out.append("\" LAST_VISIT=\"");
        out.append(self.last_visit.as_str());
        out.append("\" LAST_MODIFIED=\"");
        out.append(self.last_modified.as_str());
        out.append("\" ICON_URI=\"");
        out.append(self.icon_uri.as_str());
        out.append("\" ICON=\"");
        out.append(self.icon.as_str());
        out.append("\">");
        out.append(self.title.as_str());
        out.append("</A>");
        out
    }
}

impl Clone for Bookmark {
    fn clone(&self) -> (out: Self)
        ensures
            out == *self,
    {
        Bookmark {
            href: self.href.clone(),
            title: self.title.clone(),
            add_date: self.add_date.clone(),
            last_visit: self.last_visit.clone(),
            last_modified: self.last_modified.clone(),
            icon_uri: self.icon_uri.clone(),
            icon: self.icon.clone(),
        }
    }
}

impl Default for Bookmark {
    fn default() -> (out: Self)
        ensures
            out@ == (BookmarkView {
                href: Seq::empty(),
                title: Seq::empty(),
                add_date: Seq::empty(),
                last_visit: Seq::empty(),
                last_modified: Seq::empty(),
                icon_uri: Seq::empty(),
                icon: Seq::empty(),
            }),
    {
        Bookmark {
            href: String::new(),
            title: String::new(),
            add_date: String::new(),
            last_visit: String::new(),
            last_modified: String::new(),
            icon_uri: String::new(),
            icon: String::new(),
        }
    }
}

impl PartialEq for Bookmark {
    fn eq(&self, other: &Self) -> (out: bool) {
        self.href == other.href && self.add_date == other.add_date && self.last_visit
            == other.last_visit && self.last_modified == other.last_modified && self.title
            == other.title
    }
}

impl PartialEqSpecImpl for Bookmark {
    open spec fn obeys_eq_spec() -> bool {
        true
    }

    open spec fn eq_spec(&self, other: &Self) -> bool {
        self@.same(other@)
    }
}

} // verus!
