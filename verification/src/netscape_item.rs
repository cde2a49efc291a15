//! A second name for the entry type.
use vstd::prelude::*;
use crate::item::Item;

verus! {

/// An entry of a bookmark file: the same type as `Item`.
pub type NetscapeItem = Item;

} // verus!
