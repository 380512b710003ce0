//! Web API access tokens.

use vstd::prelude::*;

use crate::spotify::error::SpotifyApiError;

verus! {

/// An access token for the Web API, with the refresh token that renews it,
/// the second (Unix time) from which it is no longer valid, and its scopes
/// separated by spaces.
#[derive(Debug, Clone, PartialEq, Eq)]
pub struct WebApiToken {
    pub access_token: String,
    pub refresh_token: String,
    pub expires_at: u64,
    pub scope: String,
}

/// What the accounts service answers to a token request.
#[derive(Debug, Clone, PartialEq, Eq)]
pub struct TokenResponse {
    pub access_token: String,
    pub token_type: String,
    pub scope: String,
    pub expires_in: u64,
    pub refresh_token: Option<String>,
}

/// The second at which a token obtained at `now`, valid for `expires_in`
/// seconds, runs out (the last representable second where that overflows).
pub open spec fn expiry(now: u64, expires_in: u64) -> u64 {
    if now + expires_in <= u64::MAX {
        (now + expires_in) as u64
    } else {
        u64::MAX
    }
}

impl WebApiToken {
    /// A token obtained at `now` (Unix seconds) that stays valid `expires_in` seconds.
    pub fn new(access_token: String, refresh_token: String, expires_in: u64, scope: String, now: u64) -> (t: WebApiToken)
        ensures
            t.access_token@ == access_token@,
            t.refresh_token@ == refresh_token@,
            t.expires_at == expiry(now, expires_in),
            t.scope@ == scope@,
    {
        WebApiToken { access_token, refresh_token, expires_at: now.saturating_add(expires_in), scope }
    }

    /// The token an answer of the accounts service grants at `now`. Where the
    /// answer carries no refresh token, the one given is kept (none: empty).
    pub fn from_response(response: TokenResponse, refresh_token: Option<&String>, now: u64) -> (t: WebApiToken)
        ensures
            t.access_token@ == response.access_token@,
            t.refresh_token@ == match response.refresh_token {
                Some(r) => r@,
                None => match refresh_token {
                    Some(r) => r@,
                    None => Seq::<char>::empty(),
                },
            },
            t.expires_at == expiry(now, response.expires_in),
            t.scope@ == response.scope@,
    {
        let refresh = match response.refresh_token {
            Some(r) => r,
            None => match refresh_token {
                Some(r) => r.clone(),
                None => String::new(),
            },
        };
        WebApiToken::new(response.access_token, refresh, response.expires_in, response.scope, now)
    }

    /// Whether the token is no longer valid at `now` (Unix seconds).
    pub fn is_expired(&self, now: u64) -> (b: bool)
        ensures
            b == (now >= self.expires_at),
    {
        now >= self.expires_at
    }

    /// A copy of the token.
    pub fn duplicate(&self) -> (t: WebApiToken)
        ensures
            t == *self,
    {
        WebApiToken {
            access_token: self.access_token.clone(),
            refresh_token: self.refresh_token.clone(),
            expires_at: self.expires_at,
            scope: self.scope.clone(),
        }
    }
}


/// What reading the stored account token found.
#[derive(Debug, Clone, PartialEq, Eq)]
pub enum TokenFile {
    /// The directory for the app's files is not known.
    NoFilesDir,
    /// No token is stored.
    Missing,
    /// Reading failed otherwise; the text is the system's message.
    Unreadable(String),
    /// The stored text.
    Contents(String),
}

/// The next step of loading the account token.
#[derive(Debug, PartialEq, Eq)]
pub enum TokenLoadStep {
    /// Parse this stored text as a token.
    Parse(String),
    /// Renew this token, which has expired.
    Refresh(WebApiToken),
    /// Loading is over, with this result.
    Done(Result<Option<WebApiToken>, SpotifyApiError>),
}

/// What loading decides on what the stored file held.
pub fn on_token_file(file: TokenFile) -> (step: TokenLoadStep)
    ensures
        match file {
            TokenFile::NoFilesDir => step matches TokenLoadStep::Done(Err(SpotifyApiError::Generic(m)))
                && m@ == "Android file path is not set!"@,
            TokenFile::Missing => step == TokenLoadStep::Done(Ok(None)),
            TokenFile::Unreadable(m) => step matches TokenLoadStep::Done(Err(SpotifyApiError::IO(e))) && e@ == m@,
            TokenFile::Contents(t) => step matches TokenLoadStep::Parse(u) && u@ == t@,
        },
{
    match file {
        TokenFile::NoFilesDir => TokenLoadStep::Done(Err(SpotifyApiError::Generic("Android file path is not set!".to_owned()))),
        TokenFile::Missing => TokenLoadStep::Done(Ok(None)),
        TokenFile::Unreadable(m) => TokenLoadStep::Done(Err(SpotifyApiError::IO(m))),
        TokenFile::Contents(t) => TokenLoadStep::Parse(t),
    }
}

/// What loading decides on the parsed token at `now` (Unix seconds): a token
/// that could not be parsed is an error, an expired one is renewed, any
/// other is the result.
pub fn on_token_parsed(parsed: Result<WebApiToken, String>, now: u64) -> (step: TokenLoadStep)
    ensures
        match parsed {
            Err(msg) => step matches TokenLoadStep::Done(Err(SpotifyApiError::Generic(m)))
                && m@ == "Failed to parse token JSON: "@ + msg@,
            Ok(t) => if now >= t.expires_at {
                step == TokenLoadStep::Refresh(t)
            } else {
                step == TokenLoadStep::Done(Ok(Some(t)))
            },
        },
{
    match parsed {
        Err(msg) => {
            let mut m = "Failed to parse token JSON: ".to_owned();
            m.append(msg.as_str());
            TokenLoadStep::Done(Err(SpotifyApiError::Generic(m)))
        },
        Ok(t) => if t.is_expired(now) {
            TokenLoadStep::Refresh(t)
        } else {
            TokenLoadStep::Done(Ok(Some(t)))
        },
    }
}

/// What loading decides on the renewal of an expired token: the renewed
/// token is the result, and a failed renewal's error is passed on.
pub fn on_token_refreshed(refreshed: Result<WebApiToken, SpotifyApiError>) -> (step: TokenLoadStep)
    ensures
        match refreshed {
            Ok(t) => step == TokenLoadStep::Done(Ok(Some(t))),
            Err(e) => step == TokenLoadStep::Done(Err(e)),
        },
{
    match refreshed {
        Ok(t) => TokenLoadStep::Done(Ok(Some(t))),
        Err(e) => TokenLoadStep::Done(Err(e)),
    }
}

/// Loading never gives back an expired token: a parsed token is the result
/// only while valid, an expired one is renewed, and after a renewal the
/// result is the renewed token or the renewal's error.
pub proof fn lemma_load_never_returns_expired(t: WebApiToken, now: u64, step: TokenLoadStep)
    requires
        step == (if now >= t.expires_at { TokenLoadStep::Refresh(t) } else { TokenLoadStep::Done(Ok(Some(t))) }),
    ensures
        step matches TokenLoadStep::Done(Ok(Some(u))) ==> now < u.expires_at,
        now >= t.expires_at ==> step == TokenLoadStep::Refresh(t),
{
}

/// Whether a loaded token shows the user signed in with Spotify.
pub fn is_authenticated(loaded: &Result<Option<WebApiToken>, SpotifyApiError>) -> (b: bool)
    ensures
        b == (*loaded matches Ok(Some(_))),
{
    match loaded {
        Ok(Some(_)) => true,
        _ => false,
    }
}

/// The scopes of a loaded token, separated by spaces.
pub fn scope_of(loaded: &Result<Option<WebApiToken>, SpotifyApiError>) -> (s: Option<String>)
    ensures
        match *loaded {
            Ok(Some(t)) => s matches Some(x) && x@ == t.scope@,
            _ => s is None,
        },
{
    match loaded {
        Ok(Some(t)) => Some(t.scope.clone()),
        _ => None,
    }
}

} // verus!
