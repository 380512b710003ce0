//! The client's credentials and the slot that holds the one client of the process.

use vstd::prelude::*;

use crate::spotify::error::SpotifyApiError;
use crate::spotify::oauth::{
    app_client_build_error, build_failure_message, build_oauth_client, exchange_error,
    token_from_oauth, OAuthFlow, OAuthGrant, SPOTIFY_OAUTH_CALLBACK_URI,
};
use crate::spotify::token::{expiry, WebApiToken};
use crate::text::{joined, texts};

verus! {

/// The Web API client's own state: the application credentials it signs in
/// with, and the token obtained by the last completed sign-in.
pub struct SpotifyClient {
    pub client_id: String,
    pub client_secret: String,
    pub token: Option<WebApiToken>,
}

impl SpotifyClient {
    /// The application's client id.
    pub closed spec fn spec_client_id(&self) -> Seq<char> {
        self.client_id@
    }

    /// The application's client secret.
    pub closed spec fn spec_client_secret(&self) -> Seq<char> {
        self.client_secret@
    }

    /// The token of the last completed sign-in, if any.
    pub open spec fn spec_token(&self) -> Option<WebApiToken> {
        self.token
    }

    /// A client for the given credentials, without a token.
    pub fn new(client_id: String, client_secret: String) -> (c: SpotifyClient)
        ensures
            c == (SpotifyClient { client_id, client_secret, token: None }),
    {
        SpotifyClient { client_id, client_secret, token: None }
    }

    /// Replaces both credentials; the token is kept.
    pub fn update_credentials(&mut self, client_id: String, client_secret: String)
        ensures
            *final(self) == (SpotifyClient { client_id, client_secret, token: old(self).token }),
    {
        self.client_id = client_id;
        self.client_secret = client_secret;
    }

    /// The application's client id.
    pub fn client_id(&self) -> (s: &String)
        ensures
            s@ == self.spec_client_id(),
    {
        &self.client_id
    }

    /// The application's client secret.
    pub fn client_secret(&self) -> (s: &String)
        ensures
            s@ == self.spec_client_secret(),
    {
        &self.client_secret
    }

    /// The token of the last completed sign-in, if any.
    pub fn token(&self) -> (t: &Option<WebApiToken>)
        ensures
            *t == self.spec_token(),
    {
        &self.token
    }

    /// The address Spotify sends the user back to after signing in.
    pub fn get_oauth_url(&self) -> (s: String)
        ensures
            s@ == SPOTIFY_OAUTH_CALLBACK_URI@,
    {
        SPOTIFY_OAUTH_CALLBACK_URI.to_owned()
    }

    /// Starts a sign-in at `now` (nanoseconds of a monotonic clock) from an
    /// authorization address and the PKCE verifier that was made with it:
    /// builds the OAuth client for this application, keeps it, with this
    /// application's id and the verifier, in place of any earlier sign-in,
    /// and gives back the address.
    /// Where the client cannot be built, the error says why and the flow is
    /// unchanged.
    pub fn start_oauth_flow<V>(
        &self,
        flow: &mut OAuthFlow<librespot_oauth::OAuthClient, V>,
        auth_url: String,
        pkce_verifier: V,
        now: u64,
    ) -> (r: Result<String, SpotifyApiError>)
        ensures
            match app_client_build_error(self.client_id@) {
                None => r matches Ok(u) && u@ == auth_url@
                    && (final(flow).state matches Some(st)
                        && st.client_id@ == self.client_id@
                        && st.pkce_verifier == Some(pkce_verifier)
                        && st.created_at == now),
                Some(e) => r matches Err(SpotifyApiError::Generic(m))
                    && m@ == build_failure_message(e)
                    && final(flow).state == old(flow).state,
            },
    {
        let oauth_client = build_oauth_client(&self.client_id)?;
        flow.start(oauth_client, self.client_id.clone(), pkce_verifier, now);
        Ok(auth_url)
    }

    /// Completes a sign-in with what the exchange of its code came to, at
    /// `now` (Unix seconds): a failed exchange is an error and changes
    /// nothing; a grant becomes the client's token, with its scopes joined
    /// by spaces, and ends the sign-in.
    pub fn complete_oauth_flow<C, V>(&mut self, flow: &mut OAuthFlow<C, V>, exchanged: Result<OAuthGrant, String>, now: u64) -> (r: Result<WebApiToken, SpotifyApiError>)
        ensures
            match exchanged {
                Err(msg) => r matches Err(SpotifyApiError::Generic(m))
                    && m@ == "Token exchange failed: "@ + msg@
                    && *final(self) == *old(self)
                    && final(flow).state == old(flow).state,
                Ok(g) => r matches Ok(t)
                    && t.access_token@ == g.access_token@
                    && t.refresh_token@ == g.refresh_token@
                    && t.expires_at == expiry(now, g.expires_in)
                    && t.scope@ == joined(texts(g.scopes@), " "@)
                    && final(self).token == Some(t)
                    && final(self).client_id == old(self).client_id
                    && final(self).client_secret == old(self).client_secret
                    && final(flow).state is None,
            },
    {
        match exchanged {
            Err(msg) => Err(exchange_error(msg.as_str())),
            Ok(g) => {
                let t = token_from_oauth(g.access_token, g.refresh_token, g.expires_in, &g.scopes, now);
                self.token = Some(t.duplicate());
                flow.clear();
                Ok(t)
            },
        }
    }

    /// Records the token of a completed sign-in.
    pub fn set_token(&mut self, token: WebApiToken)
        ensures
            final(self).spec_token() == Some(token),
            final(self).spec_client_id() == old(self).spec_client_id(),
            final(self).spec_client_secret() == old(self).spec_client_secret(),
    {
        self.token = Some(token);
    }
}

/// The slot that holds the process's one client: empty until the first
/// `init_client`, and never emptied or replaced afterwards.
pub struct ClientRegistry {
    client: Option<SpotifyClient>,
}

impl ClientRegistry {
    /// The client held, if one was set up.
    pub closed spec fn spec_client(&self) -> Option<SpotifyClient> {
        self.client
    }

    /// An empty slot.
    pub fn new() -> (r: ClientRegistry)
        ensures
            r.spec_client() is None,
    {
        ClientRegistry { client: None }
    }

    /// Whether a client was set up.
    pub fn is_initialized(&self) -> (b: bool)
        ensures
            b == self.spec_client() is Some,
    {
        self.client.is_some()
    }

    /// The client held, if one was set up.
    pub fn client(&self) -> (c: Option<&SpotifyClient>)
        ensures
            match c {
                Some(c) => self.spec_client() == Some(*c),
                None => self.spec_client() is None,
            },
    {
        match &self.client {
            Some(c) => Some(c),
            None => None,
        }
    }

    /// The client held, for changes of its state.
    pub fn client_mut(&mut self) -> (c: Option<&mut SpotifyClient>)
        ensures
            match c {
                Some(c) => old(self).spec_client() == Some(*c)
                    && final(self).spec_client() == Some(*final(c)),
                None => old(self).spec_client() is None && final(self).spec_client() is None,
            },
    {
        match &mut self.client {
            Some(c) => Some(c),
            None => None,
        }
    }
}

/// The slot after `init_client` with these credentials: the client already
/// held, or else a new client for them.
pub open spec fn init_result(slot: Option<SpotifyClient>, client_id: String, client_secret: String) -> Option<SpotifyClient> {
    match slot {
        Some(c) => Some(c),
        None => Some(SpotifyClient { client_id, client_secret, token: None }),
    }
}

/// The slot after `update_client` with these credentials: empty where it was,
/// else the client held with the new credentials and its token.
pub open spec fn update_result(slot: Option<SpotifyClient>, client_id: String, client_secret: String) -> Option<SpotifyClient> {
    match slot {
        Some(c) => Some(SpotifyClient { client_id, client_secret, token: c.token }),
        None => None,
    }
}

/// The slot is set up once: a second `init_client` changes nothing, whatever
/// its credentials; `update_client` on an empty slot leaves it empty; after
/// set-up, an update leaves the slot holding the new credentials.
pub proof fn lemma_client_slot(slot: Option<SpotifyClient>, a: String, b: String, c: String, d: String)
    ensures
        init_result(init_result(slot, a, b), c, d) == init_result(slot, a, b),
        update_result(None, c, d) is None,
        update_result(init_result(slot, a, b), c, d) matches Some(cl)
            && cl.spec_client_id() == c@ && cl.spec_client_secret() == d@,
{
}

/// Sets up the process's client with the given credentials. Where a client
/// is set up already, the slot keeps it and the call changes nothing.
pub fn init_client(registry: &mut ClientRegistry, client_id: String, client_secret: String)
    ensures
        final(registry).spec_client() == init_result(old(registry).spec_client(), client_id, client_secret),
{
    if registry.client.is_none() {
        registry.client = Some(SpotifyClient::new(client_id, client_secret));
    }
}

/// The process's client; it must have been set up.
pub fn get_client(registry: &ClientRegistry) -> (c: &SpotifyClient)
    requires
        registry.spec_client() is Some,
    ensures
        registry.spec_client() == Some(*c),
{
    registry.client.as_ref().unwrap()
}

/// Replaces the credentials of the process's client where one is set up;
/// with an empty slot the call changes nothing.
pub fn update_client(registry: &mut ClientRegistry, client_id: String, client_secret: String)
    ensures
        final(registry).spec_client() == update_result(old(registry).spec_client(), client_id, client_secret),
{
    match &mut registry.client {
        Some(client) => client.update_credentials(client_id, client_secret),
        None => {},
    }
}

} // verus!
