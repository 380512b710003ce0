use vstd::prelude::*;

verus! {

/// What the Web API answers to a playlist's creation: its id.
#[derive(Debug, Clone, PartialEq, Eq)]
pub struct CreatePlaylistResponse {
    pub id: String,
}

} // verus!
