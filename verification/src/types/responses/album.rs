use vstd::prelude::*;

use super::artist::SimplifiedArtistObject;
use super::common::ImageObject;

verus! {

/// An album as the Web API describes it inside other objects.
#[derive(Debug, Clone, PartialEq, Eq)]
pub struct AlbumObject {
    pub href: Option<String>,
    pub id: Option<String>,
    pub name: Option<String>,
    pub album_type: Option<String>,
    pub album_group: Option<String>,
    pub artists: Option<Vec<SimplifiedArtistObject>>,
    pub images: Option<Vec<ImageObject>>,
    pub uri: Option<String>,
}

} // verus!
