use vstd::prelude::*;

verus! {

/// Body of a request that inserts items into a playlist.
#[derive(Debug, Clone, PartialEq, Eq)]
pub struct AddItemRequest {
    pub uris: Vec<String>,
    pub position: Option<u32>,
}

/// Body of a request that removes items from a playlist.
#[derive(Debug, Clone, PartialEq, Eq)]
pub struct RemoveItemRequest {
    pub items: Vec<RemoveItem>,
}

/// One item to remove from a playlist, named by its URI.
#[derive(Debug, Clone, PartialEq, Eq)]
pub struct RemoveItem {
    pub uri: String,
}

/// Body of a request that creates a playlist or changes its details.
/// `public` has to be false for `collaborative` to take effect.
#[derive(Debug, Clone, PartialEq, Eq)]
pub struct CreatePlaylistRequest {
    pub name: String,
    pub public: bool,
    pub collaborative: bool,
    pub description: Option<String>,
}

} // verus!
