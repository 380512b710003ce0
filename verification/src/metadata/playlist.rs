//! The serializable shape of a playlist, and its construction from metadata.

use std::collections::HashMap;

use vstd::prelude::*;

use super::source::{
    Playlist, PlaylistAttributes, PlaylistDiff, PlaylistItem, PlaylistItemAttributes,
    PlaylistOperation, PlaylistOperationKind,
};
use super::uri::{id_base62, spotify_id_to_base62, uri_id, uri_text};
use crate::text::{hex_lower, to_hex_lower};

verus! {

/// A JSON value of serde_json, carried through untouched.
#[verifier::external_type_specification]
#[verifier::external_body]
pub struct ExJsonValue(serde_json::Value);

/// A playlist in the shape the app reads.
pub struct PlaylistJson {
    pub id: String,
    pub uri: String,
    pub owner_username: String,
    pub revision: String,
    pub length: i32,
    pub attributes: PlaylistAttributesJson,
    pub contents: Vec<PlaylistItemJson>,
    pub timestamp: i64,
    pub diff: Option<PlaylistDiffJson>,
}

/// A playlist's attributes; `picture_id` is the picture in hexadecimal.
pub struct PlaylistAttributesJson {
    pub name: String,
    pub description: String,
    pub picture: Vec<u8>,
    pub is_collaborative: bool,
    pub pl3_version: String,
    pub is_deleted_by_owner: bool,
    pub client_id: String,
    pub format: String,
    pub format_attributes: HashMap<String, String>,
    pub picture_id: String,
}

/// A playlist item.
pub struct PlaylistItemJson {
    pub id: String,
    pub uri: String,
    pub attributes: PlaylistItemAttributesJson,
}

/// A playlist item's attributes.
pub struct PlaylistItemAttributesJson {
    pub added_by: String,
    pub timestamp: i64,
    pub seen_at: i64,
    pub is_public: bool,
    pub format_attributes: HashMap<String, String>,
    pub item_id: Vec<u8>,
}

/// The changes between two revisions.
pub struct PlaylistDiffJson {
    pub from_revision: String,
    pub to_revision: String,
    pub operations: Vec<PlaylistOperationJson>,
}

/// One change; `kind` names it, and the part of that kind is the one present.
pub struct PlaylistOperationJson {
    pub kind: String,
    pub add: Option<PlaylistOperationAddJson>,
    pub rem: Option<PlaylistOperationRemoveJson>,
    pub mov: Option<PlaylistOperationMoveJson>,
    pub update_item_attributes: Option<PlaylistUpdateItemAttributesJson>,
    pub update_list_attributes: Option<PlaylistUpdateListAttributesJson>,
}

/// Items inserted.
pub struct PlaylistOperationAddJson {
    pub from_index: i32,
    pub items: Vec<PlaylistItemJson>,
    pub add_last: bool,
    pub add_first: bool,
}

/// A range of items moved.
pub struct PlaylistOperationMoveJson {
    pub from_index: i32,
    pub length: i32,
    pub to_index: i32,
}

/// A range of items removed.
pub struct PlaylistOperationRemoveJson {
    pub from_index: i32,
    pub length: i32,
    pub items: Vec<PlaylistItemJson>,
    pub has_items_as_key: bool,
}

/// A change of item attributes.
pub struct PlaylistUpdateItemAttributesJson {
    pub position: Option<i32>,
    pub length: Option<i32>,
    pub items: Vec<PlaylistItemJson>,
    pub added_by: Option<String>,
    pub timestamp: Option<i64>,
    pub seen_at: Option<i64>,
    pub is_public: Option<bool>,
    pub format_attributes: Option<HashMap<String, String>>,
}

/// A change of list attributes.
pub struct PlaylistUpdateListAttributesJson {
    pub name: Option<String>,
    pub description: Option<String>,
    pub is_deleted_by_owner: Option<bool>,
    pub format_attributes: Option<HashMap<String, String>>,
    pub picture_sizes: Option<serde_json::Value>,
}

// ---------------------------------------------------------------------------
// What each shape holds of the metadata it is made from.

/// `j` carries the item attributes `a`.
pub open spec fn item_attributes_json_of(j: PlaylistItemAttributesJson, a: PlaylistItemAttributes) -> bool {
    &&& j.added_by@ == a.added_by@
    &&& j.timestamp == a.timestamp
    &&& j.seen_at == a.seen_at
    &&& j.is_public == a.is_public
    &&& j.format_attributes@ == a.format_attributes@
    &&& j.item_id@ == a.item_id@
}

/// `j` carries the item `i`: its id and URI in text form, and its attributes.
pub open spec fn item_json_of(j: PlaylistItemJson, i: PlaylistItem) -> bool {
    &&& j.id@ == uri_id(i.id)
    &&& j.uri@ == uri_text(i.id)
    &&& item_attributes_json_of(j.attributes, i.attributes)
}

/// `js` carries the items `is`, one for one and in order.
pub open spec fn items_json_of(js: Seq<PlaylistItemJson>, is: Seq<PlaylistItem>) -> bool {
    &&& js.len() == is.len()
    &&& forall|k: int| 0 <= k < js.len() ==> #[trigger] item_json_of(js[k], is[k])
}

/// `j` carries the attributes `a`, with `picture_id` the picture in hexadecimal.
pub open spec fn attributes_json_of(j: PlaylistAttributesJson, a: PlaylistAttributes) -> bool {
    &&& j.name@ == a.name@
    &&& j.description@ == a.description@
    &&& j.picture@ == a.picture@
    &&& j.is_collaborative == a.is_collaborative
    &&& j.pl3_version@ == a.pl3_version@
    &&& j.is_deleted_by_owner == a.is_deleted_by_owner
    &&& j.client_id@ == a.client_id@
    &&& j.format@ == a.format@
    &&& j.format_attributes@ == a.format_attributes@
    &&& j.picture_id@ == hex_lower(a.picture@)
}

/// The name of a change's kind.
pub open spec fn kind_name(k: PlaylistOperationKind) -> Seq<char> {
    match k {
        PlaylistOperationKind::Add => "add"@,
        PlaylistOperationKind::Rem => "rem"@,
        PlaylistOperationKind::Mov => "mov"@,
        PlaylistOperationKind::UpdateItemAttributes => "update_item_attributes"@,
        PlaylistOperationKind::UpdateListAttributes => "update_list_attributes"@,
        PlaylistOperationKind::KindUnknown => "unknown"@,
    }
}

/// `j` carries the change `op`: its kind's name, the part of that kind
/// (an item-attribute change with only its position), and no other part.
pub open spec fn operation_json_of(j: PlaylistOperationJson, op: PlaylistOperation) -> bool {
    &&& j.kind@ == kind_name(op.kind)
    &&& (op.kind == PlaylistOperationKind::Add) == (j.add is Some)
    &&& (op.kind == PlaylistOperationKind::Rem) == (j.rem is Some)
    &&& (op.kind == PlaylistOperationKind::Mov) == (j.mov is Some)
    &&& (op.kind == PlaylistOperationKind::UpdateItemAttributes) == (j.update_item_attributes is Some)
    &&& (op.kind == PlaylistOperationKind::UpdateListAttributes) == (j.update_list_attributes is Some)
    &&& (j.add matches Some(a) ==> {
        &&& a.from_index == op.add.from_index
        &&& items_json_of(a.items@, op.add.items@)
        &&& a.add_last == op.add.add_last
        &&& a.add_first == op.add.add_first
    })
    &&& (j.rem matches Some(r) ==> {
        &&& r.from_index == op.rem.from_index
        &&& r.length == op.rem.length
        &&& items_json_of(r.items@, op.rem.items@)
        &&& r.has_items_as_key == op.rem.has_items_as_key
    })
    &&& (j.mov matches Some(m) ==> {
        &&& m.from_index == op.mov.from_index
        &&& m.length == op.mov.length
        &&& m.to_index == op.mov.to_index
    })
    &&& (j.update_item_attributes matches Some(u) ==> {
        &&& u.position == Some(op.update_item_attributes.index)
        &&& u.length is None
        &&& u.items@.len() == 0
        &&& u.added_by is None
        &&& u.timestamp is None
        &&& u.seen_at is None
        &&& u.is_public is None
        &&& u.format_attributes is None
    })
    &&& (j.update_list_attributes matches Some(u) ==> {
        &&& u.name is None
        &&& u.description is None
        &&& u.is_deleted_by_owner is None
        &&& u.format_attributes is None
        &&& u.picture_sizes is None
    })
}

/// `j` carries the diff `d`: both revisions in base 62, and each change in order.
pub open spec fn diff_json_of(j: PlaylistDiffJson, d: PlaylistDiff) -> bool {
    &&& j.from_revision@ == id_base62(d.from_revision)
    &&& j.to_revision@ == id_base62(d.to_revision)
    &&& j.operations@.len() == d.operations@.len()
    &&& forall|k: int| 0 <= k < j.operations@.len()
        ==> #[trigger] operation_json_of(j.operations@[k], d.operations@[k])
}

/// `j` carries the playlist `p`: the id and URI in text form, the revision in
/// hexadecimal, the attributes, every item in order, and the diff where there is one.
pub open spec fn playlist_json_of(j: PlaylistJson, p: Playlist) -> bool {
    &&& j.id@ == uri_id(p.id)
    &&& j.uri@ == uri_text(p.id)
    &&& j.owner_username@ == p.owner_username@
    &&& j.revision@ == hex_lower(p.revision@)
    &&& j.length == p.length
    &&& attributes_json_of(j.attributes, p.attributes)
    &&& items_json_of(j.contents@, p.contents@)
    &&& j.timestamp == p.timestamp
    &&& (j.diff is Some) == (p.diff is Some)
    &&& (j.diff matches Some(jd) ==> diff_json_of(jd, p.diff.unwrap()))
}

/// The number of parts a change's shape carries.
pub open spec fn payload_count(j: PlaylistOperationJson) -> nat {
    (if j.add is Some { 1nat } else { 0nat })
        + (if j.rem is Some { 1nat } else { 0nat })
        + (if j.mov is Some { 1nat } else { 0nat })
        + (if j.update_item_attributes is Some { 1nat } else { 0nat })
        + (if j.update_list_attributes is Some { 1nat } else { 0nat })
}

/// A change's shape carries exactly one part, the one its kind names, and
/// none where the kind is unknown; and different kinds have different names,
/// so the name tells the kind.
pub proof fn lemma_operation_shape_follows_kind(j: PlaylistOperationJson, op: PlaylistOperation, other: PlaylistOperationKind)
    requires
        operation_json_of(j, op),
    ensures
        payload_count(j) == (if op.kind == PlaylistOperationKind::KindUnknown { 0nat } else { 1nat }),
        other != op.kind ==> kind_name(other) != kind_name(op.kind),
{
    reveal_strlit("add");
    reveal_strlit("rem");
    reveal_strlit("mov");
    reveal_strlit("update_item_attributes");
    reveal_strlit("update_list_attributes");
    reveal_strlit("unknown");
    if other != op.kind {
        let a = kind_name(other);
        let b = kind_name(op.kind);
        if a.len() == b.len() {
            assert(a[0] != b[0] || a[2] != b[2] || a[7] != b[7]);
        }
    }
}

/// Each attribute of a playlist's shape is the same-named attribute of the
/// playlist, character for character, and the shape's `picture_id` is the
/// picture in hexadecimal; the same holds of the playlist's own fields.
pub proof fn lemma_playlist_fields_carry_over(j: PlaylistJson, p: Playlist)
    requires
        playlist_json_of(j, p),
    ensures
        j.attributes.name@ == p.attributes.name@,
        j.attributes.description@ == p.attributes.description@,
        j.attributes.picture@ == p.attributes.picture@,
        j.attributes.is_collaborative == p.attributes.is_collaborative,
        j.attributes.pl3_version@ == p.attributes.pl3_version@,
        j.attributes.is_deleted_by_owner == p.attributes.is_deleted_by_owner,
        j.attributes.client_id@ == p.attributes.client_id@,
        j.attributes.format@ == p.attributes.format@,
        j.attributes.format_attributes@ == p.attributes.format_attributes@,
        j.attributes.picture_id@ == hex_lower(p.attributes.picture@),
        j.owner_username@ == p.owner_username@,
        j.revision@ == hex_lower(p.revision@),
        j.length == p.length,
        j.timestamp == p.timestamp,
{
}

/// Every item of a playlist has its shape in the playlist's shape, at its
/// own position: the shape's contents are the items' shapes in order.
pub proof fn lemma_playlist_items_in_order(j: PlaylistJson, p: Playlist, k: int)
    requires
        playlist_json_of(j, p),
        0 <= k < p.contents@.len(),
    ensures
        j.contents@.len() == p.contents@.len(),
        j.contents@[k].id@ == uri_id(p.contents@[k].id),
        j.contents@[k].uri@ == uri_text(p.contents@[k].id),
        item_attributes_json_of(j.contents@[k].attributes, p.contents@[k].attributes),
{
    assert(item_json_of(j.contents@[k], p.contents@[k]));
}

// ---------------------------------------------------------------------------
// Construction.

fn copy_bytes(v: &Vec<u8>) -> (r: Vec<u8>)
    ensures
        r@ == v@,
{
    let mut r: Vec<u8> = Vec::new();
    let mut i: usize = 0;
    while i < v.len()
        invariant
            i <= v.len(),
            r@ == v@.subrange(0, i as int),
        decreases v.len() - i,
    {
        r.push(v[i]);
        i = i + 1;
    }
    proof {
        assert(v@.subrange(0, v@.len() as int) == v@);
    }
    r
}

impl PlaylistItemAttributesJson {
    /// The shape of an item's attributes.
    pub fn from_metadata(attr: &PlaylistItemAttributes) -> (j: PlaylistItemAttributesJson)
        ensures
            item_attributes_json_of(j, *attr),
    {
        PlaylistItemAttributesJson {
            added_by: attr.added_by.clone(),
            timestamp: attr.timestamp,
            seen_at: attr.seen_at,
            is_public: attr.is_public,
            format_attributes: attr.format_attributes.clone(),
            item_id: copy_bytes(&attr.item_id),
        }
    }
}

impl PlaylistItemJson {
    /// The shape of an item.
    pub fn from_metadata(item: &PlaylistItem) -> (j: PlaylistItemJson)
        ensures
            item_json_of(j, *item),
    {
        PlaylistItemJson {
            id: item.id.to_id(),
            uri: item.id.to_uri(),
            attributes: PlaylistItemAttributesJson::from_metadata(&item.attributes),
        }
    }

    /// The shapes of a list of items, in order.
    pub fn from_items(items: &Vec<PlaylistItem>) -> (js: Vec<PlaylistItemJson>)
        ensures
            items_json_of(js@, items@),
    {
        let mut js: Vec<PlaylistItemJson> = Vec::new();
        let mut i: usize = 0;
        while i < items.len()
            invariant
                i <= items.len(),
                js@.len() == i,
                forall|k: int| 0 <= k < i ==> #[trigger] item_json_of(js@[k], items@[k]),
            decreases items.len() - i,
        {
            js.push(PlaylistItemJson::from_metadata(&items[i]));
            i = i + 1;
        }
        js
    }
}

impl PlaylistAttributesJson {
    /// The shape of a playlist's attributes, with the picture also in hexadecimal.
    pub fn from_metadata(attr: &PlaylistAttributes) -> (j: PlaylistAttributesJson)
        ensures
            attributes_json_of(j, *attr),
    {
        let picture_id = to_hex_lower(attr.picture.as_slice());
        PlaylistAttributesJson {
            name: attr.name.clone(),
            description: attr.description.clone(),
            picture: copy_bytes(&attr.picture),
            is_collaborative: attr.is_collaborative,
            pl3_version: attr.pl3_version.clone(),
            is_deleted_by_owner: attr.is_deleted_by_owner,
            client_id: attr.client_id.clone(),
            format: attr.format.clone(),
            format_attributes: attr.format_attributes.clone(),
            picture_id,
        }
    }
}


impl PlaylistOperationJson {
    /// The shape of a change: its kind's name and the part of that kind.
    pub fn from_metadata(op: &PlaylistOperation) -> (j: PlaylistOperationJson)
        ensures
            operation_json_of(j, *op),
    {
        let kind = match op.kind {
            PlaylistOperationKind::Add => "add".to_owned(),
            PlaylistOperationKind::Rem => "rem".to_owned(),
            PlaylistOperationKind::Mov => "mov".to_owned(),
            PlaylistOperationKind::UpdateItemAttributes => "update_item_attributes".to_owned(),
            PlaylistOperationKind::UpdateListAttributes => "update_list_attributes".to_owned(),
            PlaylistOperationKind::KindUnknown => "unknown".to_owned(),
        };

        let add = if op.kind == PlaylistOperationKind::Add {
            Some(PlaylistOperationAddJson {
                from_index: op.add.from_index,
                items: PlaylistItemJson::from_items(&op.add.items),
                add_last: op.add.add_last,
                add_first: op.add.add_first,
            })
        } else {
            None
        };

        let rem = if op.kind == PlaylistOperationKind::Rem {
            Some(PlaylistOperationRemoveJson {
                from_index: op.rem.from_index,
                length: op.rem.length,
                items: PlaylistItemJson::from_items(&op.rem.items),
                has_items_as_key: op.rem.has_items_as_key,
            })
        } else {
            None
        };

        let mov = if op.kind == PlaylistOperationKind::Mov {
            Some(PlaylistOperationMoveJson {
                from_index: op.mov.from_index,
                length: op.mov.length,
                to_index: op.mov.to_index,
            })
        } else {
            None
        };

        let update_item_attributes = if op.kind == PlaylistOperationKind::UpdateItemAttributes {
            Some(PlaylistUpdateItemAttributesJson {
                position: Some(op.update_item_attributes.index),
                length: None,
                items: Vec::new(),
                added_by: None,
                timestamp: None,
                seen_at: None,
                is_public: None,
                format_attributes: None,
            })
        } else {
            None
        };

        let update_list_attributes = if op.kind == PlaylistOperationKind::UpdateListAttributes {
            Some(PlaylistUpdateListAttributesJson {
                name: None,
                description: None,
                is_deleted_by_owner: None,
                format_attributes: None,
                picture_sizes: None,
            })
        } else {
            None
        };

        PlaylistOperationJson { kind, add, rem, mov, update_item_attributes, update_list_attributes }
    }
}

impl PlaylistDiffJson {
    /// The shape of a diff: both revisions in base 62 and every change in order.
    pub fn from_metadata(d: &PlaylistDiff) -> (j: PlaylistDiffJson)
        ensures
            diff_json_of(j, *d),
    {
        let mut operations: Vec<PlaylistOperationJson> = Vec::new();
        let mut i: usize = 0;
        while i < d.operations.len()
            invariant
                i <= d.operations.len(),
                operations@.len() == i,
                forall|k: int| 0 <= k < i ==> #[trigger] operation_json_of(operations@[k], d.operations@[k]),
            decreases d.operations.len() - i,
        {
            operations.push(PlaylistOperationJson::from_metadata(&d.operations[i]));
            i = i + 1;
        }
        PlaylistDiffJson {
            from_revision: spotify_id_to_base62(d.from_revision),
            to_revision: spotify_id_to_base62(d.to_revision),
            operations,
        }
    }
}

impl PlaylistJson {
    /// The shape of a playlist: id and URI in text form, the revision in
    /// hexadecimal, attributes, items in order, and the diff where there is one.
    pub fn from_metadata(playlist: &Playlist) -> (j: PlaylistJson)
        ensures
            playlist_json_of(j, *playlist),
    {
        let diff = match &playlist.diff {
            Some(d) => Some(PlaylistDiffJson::from_metadata(d)),
            None => None,
        };
        PlaylistJson {
            id: playlist.id.to_id(),
            uri: playlist.id.to_uri(),
            owner_username: playlist.owner_username.clone(),
            revision: to_hex_lower(playlist.revision.as_slice()),
            length: playlist.length,
            attributes: PlaylistAttributesJson::from_metadata(&playlist.attributes),
            contents: PlaylistItemJson::from_items(&playlist.contents),
            timestamp: playlist.timestamp,
            diff,
        }
    }
}

} // verus!
