use outify_core::spotify::error::SpotifyApiError;
use outify_core::spotify::client::SpotifyClient;
use outify_core::spotify::oauth::{
    build_oauth_client, exchange_error, oauth_scopes, token_from_oauth, OAuthFlow, OAuthGrant,
};
use outify_core::spotify::search::{extract_all_uris, SearchResponse};
use outify_core::types::responses::{Page, Uri};

#[test]
fn callback_and_scopes() {
    let c = SpotifyClient::new("id".to_string(), "secret".to_string());
    assert_eq!(c.get_oauth_url(), "http://127.0.0.1:5588/account/login");
    let s = oauth_scopes();
    assert_eq!(s.len(), 10);
    assert_eq!(s[0], "streaming");
    assert_eq!(s[9], "playlist-modify-public");
}

#[test]
fn oauth_client_builds_for_the_callback_address() {
    assert!(build_oauth_client(&"some-client-id".to_string()).is_ok());
}

#[test]
fn verifier_is_handed_out_once() {
    let mut flow: OAuthFlow<&str, u32> = OAuthFlow::new();
    assert_eq!(
        flow.take_verifier(0),
        Err(SpotifyApiError::Generic("OAuth flow not started. Call start_oauth_flow first.".to_string()))
    );
    flow.start("client", "app-id".to_string(), 77, 1_000);
    assert_eq!(flow.client_id(), Some(&"app-id".to_string()));
    assert_eq!(flow.client(), Some(&"client"));
    assert_eq!(flow.take_verifier(1_000 + 600_000_000_000), Ok(77));
    assert_eq!(
        flow.take_verifier(2_000),
        Err(SpotifyApiError::Generic("PKCE verifier not found. OAuth flow may have already completed.".to_string()))
    );
    flow.clear();
    assert!(flow.client().is_none());
}

#[test]
fn expired_sign_in_is_refused() {
    let mut flow: OAuthFlow<(), u8> = OAuthFlow::new();
    flow.start((), "id".to_string(), 1, 5);
    assert_eq!(
        flow.take_verifier(5 + 600_000_000_001),
        Err(SpotifyApiError::Generic("OAuth state expired. Please restart the flow.".to_string()))
    );
    assert_eq!(flow.take_verifier(10), Ok(1));
}

#[test]
fn oauth_token_joins_scopes_with_spaces() {
    let t = token_from_oauth("a".to_string(), "r".to_string(), 60, &vec!["x".to_string(), "y".to_string()], 10);
    assert_eq!((t.access_token.as_str(), t.refresh_token.as_str(), t.expires_at, t.scope.as_str()), ("a", "r", 70, "x y"));
    assert_eq!(exchange_error("boom"), SpotifyApiError::Generic("Token exchange failed: boom".to_string()));
}

fn page(uris: &[Option<&str>]) -> Option<Page<Option<Uri>>> {
    Some(Page {
        href: None,
        items: uris.iter().map(|u| u.map(|s| Uri { uri: s.to_string() })).collect(),
        limit: None,
        next: None,
        offset: None,
        previous: None,
        total: None,
    })
}

#[test]
fn search_uris_come_kind_after_kind() {
    let r = SearchResponse {
        tracks: page(&[Some("spotify:track:1"), None, Some("spotify:track:2")]),
        artists: None,
        albums: page(&[Some("spotify:album:3")]),
        playlists: page(&[None]),
        shows: None,
        episodes: page(&[Some("spotify:episode:4")]),
        audiobooks: None,
    };
    assert_eq!(
        extract_all_uris(&r),
        vec!["spotify:track:1", "spotify:track:2", "spotify:album:3", "spotify:episode:4"]
    );
}

#[test]
fn client_starts_and_completes_a_sign_in() {
    let mut c = SpotifyClient::new("some-client-id".to_string(), "secret".to_string());
    let mut flow = OAuthFlow::new();
    assert_eq!(
        c.start_oauth_flow(&mut flow, "https://accounts.spotify.com/authorize?x=1".to_string(), 5u8, 100),
        Ok("https://accounts.spotify.com/authorize?x=1".to_string())
    );
    assert!(flow.client().is_some());
    assert_eq!(flow.client_id(), Some(&"some-client-id".to_string()));
    assert_eq!(flow.take_verifier(200), Ok(5u8));
    assert_eq!(
        flow.take_verifier(100 + 600_000_000_001),
        Err(SpotifyApiError::Generic("OAuth state expired. Please restart the flow.".to_string()))
    );
    assert_eq!(
        c.complete_oauth_flow(&mut flow, Err("denied".to_string()), 0),
        Err(SpotifyApiError::Generic("Token exchange failed: denied".to_string()))
    );
    assert!(c.token().is_none());
    assert!(flow.client().is_some());
    let grant = OAuthGrant {
        access_token: "acc".to_string(),
        refresh_token: "ref".to_string(),
        expires_in: 3600,
        scopes: vec!["streaming".to_string(), "user-read-email".to_string()],
    };
    let t = c.complete_oauth_flow(&mut flow, Ok(grant), 1000).unwrap();
    assert_eq!((t.access_token.as_str(), t.expires_at, t.scope.as_str()), ("acc", 4600, "streaming user-read-email"));
    assert_eq!(c.token(), &Some(t));
    assert!(flow.client().is_none());
}
