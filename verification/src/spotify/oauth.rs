//! The OAuth sign-in flow of the Web API client: the client that the flow
//! uses, its state between the two halves of the flow, and the token that
//! completes it.

use vstd::prelude::*;

use crate::spotify::api::ApiCall;
use crate::spotify::error::SpotifyApiError;
use crate::spotify::token::{expiry, WebApiToken};
use crate::text::{join_strings, joined, texts};

verus! {

/// The address Spotify sends the user back to after signing in.
pub const SPOTIFY_OAUTH_CALLBACK_URI: &'static str = "http://127.0.0.1:5588/account/login";

/// How long a started sign-in may take before it must be started anew, in nanoseconds.
pub const OAUTH_STATE_LIFETIME_NS: u64 = 600_000_000_000;

/// The OAuth client of librespot.
#[verifier::external_type_specification]
#[verifier::external_body]
pub struct ExOAuthClient(librespot_oauth::OAuthClient);

/// The scopes the app asks for.
pub open spec fn oauth_scope_names() -> Seq<Seq<char>> {
    seq![
        "streaming"@,
        "user-read-private"@,
        "user-read-email"@,
        "user-top-read"@,
        "user-library-modify"@,
        "user-library-read"@,
        "user-follow-modify"@,
        "user-read-playback-state"@,
        "playlist-modify-private"@,
        "playlist-modify-public"@,
    ]
}

/// The texts of a list of string slices.
pub open spec fn str_texts(v: Seq<&str>) -> Seq<Seq<char>> {
    v.map_values(|s: &str| s@)
}

/// The scopes the app asks for, in order.
pub fn oauth_scopes() -> (v: Vec<&'static str>)
    ensures
        str_texts(v@) == oauth_scope_names(),
{
    let v = vec![
        "streaming",
        "user-read-private",
        "user-read-email",
        "user-top-read",
        "user-library-modify",
        "user-library-read",
        "user-follow-modify",
        "user-read-playback-state",
        "playlist-modify-private",
        "playlist-modify-public",
    ];
    proof {
        assert(str_texts(v@) =~= oauth_scope_names());
    }
    v
}

/// The scopes asked for at sign-in are exactly these ten, in this order:
/// streaming, user-read-private, user-read-email, user-top-read,
/// user-library-modify, user-library-read, user-follow-modify,
/// user-read-playback-state, playlist-modify-private, playlist-modify-public.
pub proof fn lemma_sign_in_scopes(v: Vec<&'static str>)
    requires
        str_texts(v@) == oauth_scope_names(),
    ensures
        v@.len() == 10,
        v@[0]@ == "streaming"@,
        v@[1]@ == "user-read-private"@,
        v@[2]@ == "user-read-email"@,
        v@[3]@ == "user-top-read"@,
        v@[4]@ == "user-library-modify"@,
        v@[5]@ == "user-library-read"@,
        v@[6]@ == "user-follow-modify"@,
        v@[7]@ == "user-read-playback-state"@,
        v@[8]@ == "playlist-modify-private"@,
        v@[9]@ == "playlist-modify-public"@,
{
    assert(str_texts(v@).len() == v@.len());
    assert forall|i: int| 0 <= i < v@.len() implies str_texts(v@)[i] == v@[i]@ by {}
}

/// Each Web API call that reads or changes the user's data has its scope
/// asked for at sign-in: saving and deleting library items need
/// user-library-modify, reading them user-library-read, the playlist calls
/// playlist-modify-public and playlist-modify-private, the top items
/// user-top-read, the devices user-read-playback-state, the current user
/// user-read-private.
pub proof fn lemma_calls_have_their_scopes(c: ApiCall)
    ensures
        (c is SaveItems || c is DeleteItems) ==> oauth_scope_names().contains("user-library-modify"@),
        c is GetSaved ==> oauth_scope_names().contains("user-library-read"@),
        (c is AddToPlaylist || c is DeleteFromPlaylist || c is CreatePlaylist || c is ModifyPlaylist)
            ==> oauth_scope_names().contains("playlist-modify-public"@)
                && oauth_scope_names().contains("playlist-modify-private"@),
        c is GetTop ==> oauth_scope_names().contains("user-top-read"@),
        c is GetDevices ==> oauth_scope_names().contains("user-read-playback-state"@),
        c is GetCurrentUser ==> oauth_scope_names().contains("user-read-private"@),
{
    let s = oauth_scope_names();
    assert(s[1] == "user-read-private"@);
    assert(s[3] == "user-top-read"@);
    assert(s[4] == "user-library-modify"@);
    assert(s[5] == "user-library-read"@);
    assert(s[7] == "user-read-playback-state"@);
    assert(s[8] == "playlist-modify-private"@);
    assert(s[9] == "playlist-modify-public"@);
}

/// What librespot's OAuth client builder answers for this client id,
/// redirect address and scopes: no error (`None`), or the message of the
/// error it refuses them with (it refuses a redirect address that is no URL).
pub uninterp spec fn oauth_client_build_error(client_id: Seq<char>, redirect_uri: Seq<char>, scopes: Seq<Seq<char>>) -> Option<Seq<char>>;

/// Builds librespot's OAuth client.
///
/// Calls `librespot_oauth::OAuthClientBuilder::new(client_id, redirect_uri, scopes).build()`.
/// Claimed: whether it succeeds, and the message of its error where it fails,
/// depend on the three arguments alone (the builder only parses two fixed
/// Spotify URLs and `redirect_uri`). Nothing is claimed of the client itself,
/// which Verus cannot look into.
#[verifier::external_body]
fn build_librespot_oauth_client(client_id: &str, redirect_uri: &str, scopes: Vec<&str>) -> (r: Result<librespot_oauth::OAuthClient, String>)
    ensures
        match r {
            Ok(_) => oauth_client_build_error(client_id@, redirect_uri@, str_texts(scopes@)) is None,
            Err(m) => oauth_client_build_error(client_id@, redirect_uri@, str_texts(scopes@)) == Some(m@),
        },
{
    librespot_oauth::OAuthClientBuilder::new(client_id, redirect_uri, scopes).build().map_err(|e| e.to_string())
}

/// The message of the error of a client that could not be built.
pub open spec fn build_failure_message(error: Seq<char>) -> Seq<char> {
    "Failed to build OAuth client: "@ + error
}

/// What building the app's OAuth client for `client_id` comes to: `None`
/// where it builds, else the builder's error message.
pub open spec fn app_client_build_error(client_id: Seq<char>) -> Option<Seq<char>> {
    oauth_client_build_error(client_id, SPOTIFY_OAUTH_CALLBACK_URI@, oauth_scope_names())
}

/// The OAuth client for the application `client_id`, sending users back to
/// the app's callback address and asking for the app's scopes.
pub fn build_oauth_client(client_id: &String) -> (r: Result<librespot_oauth::OAuthClient, SpotifyApiError>)
    ensures
        match app_client_build_error(client_id@) {
            None => r is Ok,
            Some(e) => r matches Err(SpotifyApiError::Generic(m)) && m@ == build_failure_message(e),
        },
{
    match build_librespot_oauth_client(client_id.as_str(), SPOTIFY_OAUTH_CALLBACK_URI, oauth_scopes()) {
        Ok(c) => Ok(c),
        Err(msg) => {
            let mut m = "Failed to build OAuth client: ".to_owned();
            m.append(msg.as_str());
            Err(SpotifyApiError::Generic(m))
        },
    }
}

/// A started sign-in: the OAuth client and the application id it was built
/// for, the PKCE verifier until the code is exchanged, and when it was
/// started (nanoseconds of a monotonic clock).
pub struct OAuthState<C, V> {
    pub oauth_client: C,
    pub client_id: String,
    pub pkce_verifier: Option<V>,
    pub created_at: u64,
}

/// Why the second half of a sign-in cannot go on, or that it can.
#[derive(Debug, Clone, Copy, PartialEq, Eq, Structural)]
pub enum TakeOutcome {
    NotStarted,
    Expired,
    NoVerifier,
    Taken,
}

/// Whether a sign-in started at `created_at` has run out at `now`.
pub open spec fn state_expired(created_at: u64, now: u64) -> bool {
    now > created_at && now - created_at > OAUTH_STATE_LIFETIME_NS
}

/// What taking the verifier at `now` comes to in the state `s`.
pub open spec fn take_outcome<C, V>(s: Option<OAuthState<C, V>>, now: u64) -> TakeOutcome {
    match s {
        None => TakeOutcome::NotStarted,
        Some(st) => if state_expired(st.created_at, now) {
            TakeOutcome::Expired
        } else if st.pkce_verifier is None {
            TakeOutcome::NoVerifier
        } else {
            TakeOutcome::Taken
        },
    }
}

/// The state after taking the verifier at `now`: without the verifier where
/// it was taken, else unchanged.
pub open spec fn state_after_take<C, V>(s: Option<OAuthState<C, V>>, now: u64) -> Option<OAuthState<C, V>> {
    match s {
        Some(st) => if take_outcome(s, now) == TakeOutcome::Taken {
            Some(OAuthState {
                oauth_client: st.oauth_client,
                client_id: st.client_id,
                pkce_verifier: None,
                created_at: st.created_at,
            })
        } else {
            s
        },
        None => s,
    }
}

/// The message of each refusal to go on with a sign-in.
pub open spec fn take_refusal_message(o: TakeOutcome) -> Seq<char> {
    match o {
        TakeOutcome::NotStarted => "OAuth flow not started. Call start_oauth_flow first."@,
        TakeOutcome::Expired => "OAuth state expired. Please restart the flow."@,
        TakeOutcome::NoVerifier => "PKCE verifier not found. OAuth flow may have already completed."@,
        TakeOutcome::Taken => Seq::empty(),
    }
}

/// The verifier of a sign-in is handed out at most once: once taken, every
/// later attempt is refused. A sign-in just started is not refused within
/// its lifetime, and one whose lifetime has passed always is.
pub proof fn lemma_verifier_taken_once<C, V>(s: Option<OAuthState<C, V>>, c: C, id: String, v: V, start: u64, now1: u64, now2: u64)
    ensures
        take_outcome(s, now1) == TakeOutcome::Taken ==> take_outcome(state_after_take(s, now1), now2) == (
            if state_expired(s.unwrap().created_at, now2) { TakeOutcome::Expired } else { TakeOutcome::NoVerifier }),
        now2 <= start + OAUTH_STATE_LIFETIME_NS ==> take_outcome(
            Some(OAuthState { oauth_client: c, client_id: id, pkce_verifier: Some(v), created_at: start }), now2,
        ) == TakeOutcome::Taken,
        now2 > start + OAUTH_STATE_LIFETIME_NS ==> take_outcome(
            Some(OAuthState { oauth_client: c, client_id: id, pkce_verifier: Some(v), created_at: start }), now2,
        ) == TakeOutcome::Expired,
{
}

/// The sign-in flow of the client: no sign-in, or the one started last.
pub struct OAuthFlow<C, V> {
    pub state: Option<OAuthState<C, V>>,
}

impl<C, V> OAuthFlow<C, V> {
    /// A flow with no sign-in started.
    pub fn new() -> (f: OAuthFlow<C, V>)
        ensures
            f.state is None,
    {
        OAuthFlow { state: None }
    }

    /// Starts a sign-in at `now`, replacing any earlier one.
    pub fn start(&mut self, oauth_client: C, client_id: String, pkce_verifier: V, now: u64)
        ensures
            final(self).state == Some(OAuthState { oauth_client, client_id, pkce_verifier: Some(pkce_verifier), created_at: now }),
    {
        self.state = Some(OAuthState { oauth_client, client_id, pkce_verifier: Some(pkce_verifier), created_at: now });
    }

    /// The application id of the sign-in started last, if any.
    pub fn client_id(&self) -> (id: Option<&String>)
        ensures
            match self.state {
                Some(st) => id matches Some(i) && *i == st.client_id,
                None => id is None,
            },
    {
        match &self.state {
            Some(st) => Some(&st.client_id),
            None => None,
        }
    }

    /// Takes the verifier for the exchange of the code, at `now`. Refused
    /// where no sign-in was started, where it ran out, or where its verifier
    /// was taken already; the state is then unchanged.
    pub fn take_verifier(&mut self, now: u64) -> (r: Result<V, SpotifyApiError>)
        ensures
            final(self).state == state_after_take(old(self).state, now),
            take_outcome(old(self).state, now) == TakeOutcome::Taken
                ==> r == Ok::<V, SpotifyApiError>(old(self).state.unwrap().pkce_verifier.unwrap()),
            take_outcome(old(self).state, now) != TakeOutcome::Taken
                ==> (r matches Err(SpotifyApiError::Generic(m))
                    && m@ == take_refusal_message(take_outcome(old(self).state, now))),
    {
        match &mut self.state {
            None => Err(SpotifyApiError::Generic("OAuth flow not started. Call start_oauth_flow first.".to_owned())),
            Some(st) => {
                if now > st.created_at && now - st.created_at > OAUTH_STATE_LIFETIME_NS {
                    return Err(SpotifyApiError::Generic("OAuth state expired. Please restart the flow.".to_owned()));
                }
                match st.pkce_verifier.take() {
                    Some(v) => Ok(v),
                    None => Err(SpotifyApiError::Generic(
                        "PKCE verifier not found. OAuth flow may have already completed.".to_owned(),
                    )),
                }
            },
        }
    }

    /// The OAuth client of the sign-in started last, if any.
    pub fn client(&self) -> (c: Option<&C>)
        ensures
            match self.state {
                Some(st) => c == Some(&st.oauth_client),
                None => c is None,
            },
    {
        match &self.state {
            Some(st) => Some(&st.oauth_client),
            None => None,
        }
    }

    /// Ends the sign-in after a successful exchange.
    pub fn clear(&mut self)
        ensures
            final(self).state is None,
    {
        self.state = None;
    }
}

/// What the exchange of a sign-in's code grants: the tokens, how many
/// seconds the access token stays valid, and the granted scopes.
pub struct OAuthGrant {
    pub access_token: String,
    pub refresh_token: String,
    pub expires_in: u64,
    pub scopes: Vec<String>,
}

/// The error of a failed exchange of the code for a token.
pub fn exchange_error(message: &str) -> (e: SpotifyApiError)
    ensures
        e matches SpotifyApiError::Generic(m) && m@ == "Token exchange failed: "@ + message@,
{
    let mut m = "Token exchange failed: ".to_owned();
    m.append(message);
    SpotifyApiError::Generic(m)
}

/// The token a completed sign-in grants at `now` (Unix seconds), valid for
/// `expires_in` seconds, with the granted scopes joined by spaces.
pub fn token_from_oauth(access_token: String, refresh_token: String, expires_in: u64, scopes: &Vec<String>, now: u64) -> (t: WebApiToken)
    ensures
        t.access_token@ == access_token@,
        t.refresh_token@ == refresh_token@,
        t.expires_at == expiry(now, expires_in),
        t.scope@ == joined(texts(scopes@), " "@),
{
    WebApiToken::new(access_token, refresh_token, expires_in, join_strings(scopes, " "), now)
}

} // verus!
