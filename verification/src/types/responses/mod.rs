pub mod album;
pub mod artist;
pub mod common;
pub mod devices;
pub mod library;
pub mod pagination;
pub mod playlists;
pub mod track;
pub mod user;

pub use album::AlbumObject;
pub use artist::{ArtistObject, SimplifiedArtistObject};
pub use common::{ExternalIds, ExternalUrls, Followers, ImageObject, RestrictionsObject};
pub use devices::{Device, DevicesResponse};
pub use library::{SavedItem, SavedItemsResponse, Uri};
pub use pagination::Page;
pub use playlists::CreatePlaylistResponse;
pub use track::{ArtistOrTrack, ArtistsOrTracksPage, LinkedFromObject, TrackObject};
pub use user::CurrentUserResponse;
