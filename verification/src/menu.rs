use vstd::prelude::*;

verus! {

/// An entry that a menu can list.
pub trait MenuItem {
    /// The text shown for the entry.
    fn format(&self) -> String;
}

/// A list of entries of which one is selected.
#[derive(Debug)]
pub struct Menu<T: MenuItem> {
    pub title: String,
    pub options: Vec<T>,
    pub selected: usize,
}

} // verus!
