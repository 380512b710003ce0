use vstd::prelude::*;

verus! {

/// Errors of the Web API client.
#[derive(Debug, Clone, PartialEq, Eq)]
pub enum SpotifyApiError {
    /// A failure described by the client itself.
    Generic(String),
    /// A file operation failed; the text is the system's message.
    IO(String),
    /// The HTTP transport failed; the text is the transport's message.
    Request(String),
    /// A body was not the JSON that was expected; the text is the parser's message.
    Json(String),
}

/// The text an error carries.
pub open spec fn error_text(e: SpotifyApiError) -> Seq<char> {
    match e {
        SpotifyApiError::Generic(m) => m@,
        SpotifyApiError::IO(m) => m@,
        SpotifyApiError::Request(m) => m@,
        SpotifyApiError::Json(m) => m@,
    }
}

impl SpotifyApiError {
    /// The text this error carries.
    pub fn message(&self) -> (m: String)
        ensures
            m@ == error_text(*self),
    {
        match self {
            SpotifyApiError::Generic(m) => m.clone(),
            SpotifyApiError::IO(m) => m.clone(),
            SpotifyApiError::Request(m) => m.clone(),
            SpotifyApiError::Json(m) => m.clone(),
        }
    }
}

} // verus!
