use vstd::prelude::*;

use super::album::AlbumObject;
use super::artist::{ArtistObject, SimplifiedArtistObject};
use super::common::{ExternalIds, ExternalUrls, RestrictionsObject};
use super::pagination::Page;

verus! {

/// A track in full; `object_type` is the Web API's `type` field.
#[derive(Debug, Clone, PartialEq, Eq)]
pub struct TrackObject {
    pub album: Option<AlbumObject>,
    pub artists: Option<Vec<SimplifiedArtistObject>>,
    pub available_markets: Option<Vec<String>>,
    pub disc_number: Option<i32>,
    pub duration_ms: Option<i32>,
    pub explicit: Option<bool>,
    pub external_ids: Option<ExternalIds>,
    pub external_urls: Option<ExternalUrls>,
    pub href: Option<String>,
    pub id: Option<String>,
    pub is_playable: Option<bool>,
    pub linked_from: Option<LinkedFromObject>,
    pub restrictions: Option<RestrictionsObject>,
    pub name: String,
    pub popularity: Option<i32>,
    pub preview_url: Option<String>,
    pub track_number: Option<i32>,
    pub object_type: String,
    pub uri: Option<String>,
    pub is_local: Option<bool>,
}

/// The track that was asked for, where another one is played in its place.
#[derive(Debug, Clone, PartialEq, Eq)]
pub struct LinkedFromObject {
    pub external_urls: Option<ExternalUrls>,
    pub href: Option<String>,
    pub id: Option<String>,
    pub uri: Option<String>,
}

/// An item among a user's top items: an artist or a track.
#[derive(Debug, Clone, PartialEq, Eq)]
pub enum ArtistOrTrack {
    Artist(ArtistObject),
    Track(TrackObject),
}

/// A page of top artists or top tracks.
pub type ArtistsOrTracksPage = Page<ArtistOrTrack>;

} // verus!
