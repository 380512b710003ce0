use vstd::prelude::*;

verus! {

/// The current user's profile; `user_type` is the Web API's `type` field.
#[derive(Debug, Clone, PartialEq, Eq)]
pub struct CurrentUserResponse {
    pub country: Option<String>,
    pub display_name: Option<String>,
    pub email: Option<String>,
    pub explicit_content: ExplicitContent,
    pub external_urls: ExternalUrls,
    pub followers: Followers,
    pub href: Option<String>,
    pub id: Option<String>,
    pub images: Vec<Image>,
    pub product: Option<String>,
    pub user_type: String,
    pub uri: String,
}

/// The user's explicit-content settings.
#[derive(Debug, Clone, PartialEq, Eq)]
pub struct ExplicitContent {
    pub filter_enabled: bool,
    pub filter_locked: bool,
}

/// The link to the user's profile on the Spotify site.
#[derive(Debug, Clone, PartialEq, Eq)]
pub struct ExternalUrls {
    pub spotify: String,
}

/// The user's followers.
#[derive(Debug, Clone, PartialEq, Eq)]
pub struct Followers {
    pub href: Option<String>,
    pub total: u32,
}

/// A profile image.
#[derive(Debug, Clone, PartialEq, Eq)]
pub struct Image {
    pub url: String,
    pub height: u32,
    pub width: u32,
}

} // verus!
