use vstd::prelude::*;

use super::common::{ExternalUrls, Followers, ImageObject};

verus! {

/// An artist in full, as returned among a user's top items.
/// `object_type` is the Web API's `type` field.
#[derive(Debug, Clone, PartialEq, Eq)]
pub struct ArtistObject {
    pub external_urls: Option<ExternalUrls>,
    pub followers: Followers,
    pub genres: Vec<String>,
    pub href: Option<String>,
    pub id: Option<String>,
    pub images: Option<Vec<ImageObject>>,
    pub name: String,
    pub popularity: Option<i32>,
    pub object_type: String,
    pub uri: Option<String>,
}

/// An artist as the Web API describes it inside albums and tracks.
#[derive(Debug, Clone, PartialEq, Eq)]
pub struct SimplifiedArtistObject {
    pub external_urls: Option<ExternalUrls>,
    pub href: Option<String>,
    pub id: Option<String>,
    pub name: Option<String>,
    pub object_type: Option<String>,
    pub uri: Option<String>,
}

} // verus!
