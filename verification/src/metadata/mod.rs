pub mod playlist;
pub mod source;
pub mod uri;
