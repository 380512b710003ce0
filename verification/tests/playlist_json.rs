use std::collections::HashMap;

use outify_core::metadata::playlist::{PlaylistJson, PlaylistOperationJson};
use outify_core::metadata::source::{
    Playlist, PlaylistAttributes, PlaylistDiff, PlaylistItem, PlaylistItemAttributes,
    PlaylistOperation, PlaylistOperationAdd, PlaylistOperationKind, PlaylistOperationMove,
    PlaylistOperationRemove, PlaylistUpdateItemAttributes,
};
use outify_core::metadata::uri::SpotifyUri;

const TRACK_ID: u128 = 238762092608182713602505436543891614649;

fn item(id: u128, added_by: &str) -> PlaylistItem {
    let mut fa = HashMap::new();
    fa.insert("k".to_string(), "v".to_string());
    PlaylistItem {
        id: SpotifyUri::Track { id },
        attributes: PlaylistItemAttributes {
            added_by: added_by.to_string(),
            timestamp: 1_700_000_000,
            seen_at: -5,
            is_public: true,
            format_attributes: fa,
            item_id: vec![1, 2, 3],
        },
    }
}

fn operation(kind: PlaylistOperationKind) -> PlaylistOperation {
    PlaylistOperation {
        kind,
        add: PlaylistOperationAdd { from_index: 3, items: vec![item(TRACK_ID, "a")], add_last: true, add_first: false },
        rem: PlaylistOperationRemove { from_index: 4, length: 2, items: vec![item(1, "b"), item(2, "c")], has_items_as_key: true },
        mov: PlaylistOperationMove { from_index: 1, length: 1, to_index: 7 },
        update_item_attributes: PlaylistUpdateItemAttributes { index: 9 },
    }
}

fn payloads(j: &PlaylistOperationJson) -> usize {
    [j.add.is_some(), j.rem.is_some(), j.mov.is_some(), j.update_item_attributes.is_some(), j.update_list_attributes.is_some()]
        .iter()
        .filter(|b| **b)
        .count()
}

fn playlist(diff: Option<PlaylistDiff>) -> Playlist {
    Playlist {
        id: SpotifyUri::Playlist { user: None, id: TRACK_ID },
        owner_username: "owner".to_string(),
        revision: vec![0xde, 0xad, 0x01],
        length: 2,
        attributes: PlaylistAttributes {
            name: "Mix".to_string(),
            description: "desc".to_string(),
            picture: vec![0xab, 0x0c],
            is_collaborative: false,
            pl3_version: "3".to_string(),
            is_deleted_by_owner: false,
            client_id: "cid".to_string(),
            format: "fmt".to_string(),
            format_attributes: HashMap::new(),
        },
        contents: vec![item(TRACK_ID, "first"), item(5, "second")],
        timestamp: 42,
        diff,
    }
}

#[test]
fn playlist_shape_carries_ids_revision_and_items_in_order() {
    let j = PlaylistJson::from_metadata(&playlist(None));
    assert_eq!(j.id, "5sWHDYs0csV6RS48xBl0tH");
    assert_eq!(j.uri, "spotify:playlist:5sWHDYs0csV6RS48xBl0tH");
    assert_eq!(j.owner_username, "owner");
    assert_eq!(j.revision, "dead01");
    assert_eq!(j.length, 2);
    assert_eq!(j.timestamp, 42);
    assert!(j.diff.is_none());
    assert_eq!(j.attributes.name, "Mix");
    assert_eq!(j.attributes.picture, vec![0xab, 0x0c]);
    assert_eq!(j.attributes.picture_id, "ab0c");
    assert_eq!(j.contents.len(), 2);
    assert_eq!(j.contents[0].uri, "spotify:track:5sWHDYs0csV6RS48xBl0tH");
    assert_eq!(j.contents[0].attributes.added_by, "first");
    assert_eq!(j.contents[1].attributes.added_by, "second");
    assert_eq!(j.contents[1].id, "0000000000000000000005");
    assert_eq!(j.contents[0].attributes.seen_at, -5);
    assert_eq!(j.contents[0].attributes.item_id, vec![1, 2, 3]);
    assert_eq!(j.contents[0].attributes.format_attributes.get("k").map(|s| s.as_str()), Some("v"));
}

#[test]
fn diff_revisions_are_base62_and_operations_keep_order() {
    let d = PlaylistDiff {
        from_revision: TRACK_ID,
        operations: vec![operation(PlaylistOperationKind::Add), operation(PlaylistOperationKind::Mov)],
        to_revision: 0,
    };
    let j = PlaylistJson::from_metadata(&playlist(Some(d)));
    let dj = j.diff.unwrap();
    assert_eq!(dj.from_revision, "5sWHDYs0csV6RS48xBl0tH");
    assert_eq!(dj.to_revision, "0000000000000000000000");
    assert_eq!(dj.operations.len(), 2);
    assert_eq!(dj.operations[0].kind, "add");
    assert_eq!(dj.operations[1].kind, "mov");
}

#[test]
fn each_operation_kind_carries_its_own_part_only() {
    let add = PlaylistOperationJson::from_metadata(&operation(PlaylistOperationKind::Add));
    assert_eq!(add.kind, "add");
    assert_eq!(payloads(&add), 1);
    let a = add.add.unwrap();
    assert_eq!((a.from_index, a.add_last, a.add_first, a.items.len()), (3, true, false, 1));
    assert_eq!(a.items[0].id, "5sWHDYs0csV6RS48xBl0tH");

    let rem = PlaylistOperationJson::from_metadata(&operation(PlaylistOperationKind::Rem));
    assert_eq!(rem.kind, "rem");
    assert_eq!(payloads(&rem), 1);
    let r = rem.rem.unwrap();
    assert_eq!((r.from_index, r.length, r.has_items_as_key, r.items.len()), (4, 2, true, 2));
    assert_eq!(r.items[1].attributes.added_by, "c");

    let mov = PlaylistOperationJson::from_metadata(&operation(PlaylistOperationKind::Mov));
    assert_eq!(mov.kind, "mov");
    assert_eq!(payloads(&mov), 1);
    let m = mov.mov.unwrap();
    assert_eq!((m.from_index, m.length, m.to_index), (1, 1, 7));

    let upd = PlaylistOperationJson::from_metadata(&operation(PlaylistOperationKind::UpdateItemAttributes));
    assert_eq!(upd.kind, "update_item_attributes");
    assert_eq!(payloads(&upd), 1);
    let u = upd.update_item_attributes.unwrap();
    assert_eq!(u.position, Some(9));
    assert!(u.length.is_none() && u.items.is_empty() && u.added_by.is_none() && u.timestamp.is_none());
    assert!(u.seen_at.is_none() && u.is_public.is_none() && u.format_attributes.is_none());

    let list = PlaylistOperationJson::from_metadata(&operation(PlaylistOperationKind::UpdateListAttributes));
    assert_eq!(list.kind, "update_list_attributes");
    assert_eq!(payloads(&list), 1);
    let l = list.update_list_attributes.unwrap();
    assert!(l.name.is_none() && l.description.is_none() && l.is_deleted_by_owner.is_none());
    assert!(l.format_attributes.is_none() && l.picture_sizes.is_none());
}

#[test]
fn unknown_operation_kind_carries_no_part() {
    let unk = PlaylistOperationJson::from_metadata(&operation(PlaylistOperationKind::KindUnknown));
    assert_eq!(unk.kind, "unknown");
    assert_eq!(payloads(&unk), 0);
}
