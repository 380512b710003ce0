//! Playlist metadata as librespot delivers it, held as plain values.
//! Dates are whole seconds of Unix time; ids and revisions are the
//! 128-bit numbers behind Spotify's ids.

use std::collections::HashMap;

use vstd::prelude::*;

use super::uri::SpotifyUri;

verus! {

/// A playlist with its items and, where it came as an update, the diff.
#[derive(Debug, Clone)]
pub struct Playlist {
    pub id: SpotifyUri,
    pub owner_username: String,
    pub revision: Vec<u8>,
    pub length: i32,
    pub attributes: PlaylistAttributes,
    pub contents: Vec<PlaylistItem>,
    pub timestamp: i64,
    pub diff: Option<PlaylistDiff>,
}

/// The attributes of a playlist.
#[derive(Debug, Clone)]
pub struct PlaylistAttributes {
    pub name: String,
    pub description: String,
    pub picture: Vec<u8>,
    pub is_collaborative: bool,
    pub pl3_version: String,
    pub is_deleted_by_owner: bool,
    pub client_id: String,
    pub format: String,
    pub format_attributes: HashMap<String, String>,
}

/// One item of a playlist.
#[derive(Debug, Clone)]
pub struct PlaylistItem {
    pub id: SpotifyUri,
    pub attributes: PlaylistItemAttributes,
}

/// The attributes of a playlist item.
#[derive(Debug, Clone)]
pub struct PlaylistItemAttributes {
    pub added_by: String,
    pub timestamp: i64,
    pub seen_at: i64,
    pub is_public: bool,
    pub format_attributes: HashMap<String, String>,
    pub item_id: Vec<u8>,
}

/// The changes between two revisions of a playlist.
#[derive(Debug, Clone)]
pub struct PlaylistDiff {
    pub from_revision: u128,
    pub operations: Vec<PlaylistOperation>,
    pub to_revision: u128,
}

/// The kind of a playlist change.
#[derive(Debug, Clone, Copy, PartialEq, Eq, Structural)]
pub enum PlaylistOperationKind {
    KindUnknown,
    Add,
    Rem,
    Mov,
    UpdateItemAttributes,
    UpdateListAttributes,
}

/// One change of a playlist; only the part that its kind names is meaningful.
#[derive(Debug, Clone)]
pub struct PlaylistOperation {
    pub kind: PlaylistOperationKind,
    pub add: PlaylistOperationAdd,
    pub rem: PlaylistOperationRemove,
    pub mov: PlaylistOperationMove,
    pub update_item_attributes: PlaylistUpdateItemAttributes,
}

/// Items inserted into a playlist.
#[derive(Debug, Clone)]
pub struct PlaylistOperationAdd {
    pub from_index: i32,
    pub items: Vec<PlaylistItem>,
    pub add_last: bool,
    pub add_first: bool,
}

/// A range of items moved within a playlist.
#[derive(Debug, Clone, Copy)]
pub struct PlaylistOperationMove {
    pub from_index: i32,
    pub length: i32,
    pub to_index: i32,
}

/// A range of items removed from a playlist.
#[derive(Debug, Clone)]
pub struct PlaylistOperationRemove {
    pub from_index: i32,
    pub length: i32,
    pub items: Vec<PlaylistItem>,
    pub has_items_as_key: bool,
}

/// A change of an item's attributes; only its position is read.
#[derive(Debug, Clone, Copy)]
pub struct PlaylistUpdateItemAttributes {
    pub index: i32,
}

} // verus!
