pub mod api;
pub mod client;
pub mod error;
pub mod library;
pub mod oauth;
pub mod search;
pub mod token;
