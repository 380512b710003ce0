use vstd::prelude::*;

verus! {

/// A page of items saved in the user's library.
#[derive(Debug, Clone, PartialEq, Eq)]
pub struct SavedItemsResponse<T> {
    pub items: Vec<SavedItem<T>>,
}

/// One saved item; the Web API names it `album` or `track`.
#[derive(Debug, Clone, PartialEq, Eq)]
pub struct SavedItem<T> {
    pub item: T,
}

/// An object of which only the URI is read.
#[derive(Debug, Clone, PartialEq, Eq)]
pub struct Uri {
    pub uri: String,
}

} // verus!
