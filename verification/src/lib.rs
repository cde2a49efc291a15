//! Reading and writing of browser bookmark files in the Netscape bookmark
//! format, the nested list that browsers export their bookmarks as.
//!
//! A file is read in two steps. `parse` hands the text to an HTML reader and
//! keeps what it builds as a plain tree, `node::Node`. The mappers then read
//! that tree: `Bookmark::from_node` reads a shortcut, `Folder::from_node` a
//! folder with all that it holds, `item::Item::from_node` either of them, and
//! `Netscape::from_node` a whole document. A mapper never fails on a tree: what
//! is missing reads as empty, and a node that stands for nothing is passed over.
//!
//! Writing goes the other way: `render` and `Netscape::to_html` give the
//! markup of an entry or of a document, and `to_json` gives its JSON form.
//!
//! Every function states what it returns over mathematical values, the views
//! of the types, and `laws` proves what holds of reading and writing together.

pub mod bookmark;
pub mod collection;
pub mod folder;
pub mod item;
pub mod json;
pub mod laws;
pub mod netscape;
pub mod netscape_bookmark;
pub mod netscape_item;
pub mod node;
pub mod node_ref_ext;
pub mod parse;
pub mod text;

pub use bookmark::Bookmark;
pub use folder::Folder;
pub use netscape::Netscape;
