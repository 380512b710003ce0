pub mod devices;
pub mod playlists;
pub mod user;

pub use devices::TransferPlaybackRequest;
pub use playlists::{AddItemRequest, CreatePlaylistRequest, RemoveItem, RemoveItemRequest};
pub use user::UserTopRequest;
