use vstd::prelude::*;

verus! {

/// Links to an object on the Spotify site.
#[derive(Debug, Clone, PartialEq, Eq)]
pub struct ExternalUrls {
    pub spotify: Option<String>,
}

/// Follower information of an object.
#[derive(Debug, Clone, PartialEq, Eq)]
pub struct Followers {
    pub href: Option<String>,
    pub total: Option<i32>,
}

/// An image of an object, with its size where known.
#[derive(Debug, Clone, PartialEq, Eq)]
pub struct ImageObject {
    pub url: String,
    pub height: Option<i32>,
    pub width: Option<i32>,
}

/// Identifiers of a recording or release outside Spotify.
#[derive(Debug, Clone, PartialEq, Eq)]
pub struct ExternalIds {
    pub isrc: Option<String>,
    pub ean: Option<String>,
    pub upc: Option<String>,
}

/// Why content is restricted, where it is.
#[derive(Debug, Clone, PartialEq, Eq)]
pub struct RestrictionsObject {
    pub reason: Option<String>,
}

} // verus!
