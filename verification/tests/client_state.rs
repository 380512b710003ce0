use outify_core::spotify::client::{get_client, init_client, update_client, ClientRegistry, SpotifyClient};
use outify_core::spotify::library::SavedItemType;
use outify_core::spotify::error::SpotifyApiError;
use outify_core::spotify::token::{
    is_authenticated, on_token_file, on_token_parsed, on_token_refreshed, scope_of, TokenFile, TokenLoadStep, TokenResponse,
    WebApiToken,
};

#[test]
fn client_is_set_up_once() {
    let mut reg = ClientRegistry::new();
    assert!(!reg.is_initialized());
    update_client(&mut reg, "x".to_string(), "y".to_string());
    assert!(!reg.is_initialized());
    init_client(&mut reg, "id1".to_string(), "secret1".to_string());
    init_client(&mut reg, "id2".to_string(), "secret2".to_string());
    let c = get_client(&reg);
    assert_eq!((c.client_id().as_str(), c.client_secret().as_str()), ("id1", "secret1"));
    update_client(&mut reg, "id3".to_string(), "secret3".to_string());
    let c = get_client(&reg);
    assert_eq!((c.client_id().as_str(), c.client_secret().as_str()), ("id3", "secret3"));
    assert!(c.token().is_none());
}

#[test]
fn credentials_update_keeps_token() {
    let mut c = SpotifyClient::new("a".to_string(), "b".to_string());
    let t = WebApiToken { access_token: "x".to_string(), refresh_token: "y".to_string(), expires_at: 9, scope: "z".to_string() };
    c.set_token(t.clone());
    c.update_credentials("c".to_string(), "d".to_string());
    assert_eq!(c.token(), &Some(t));
    assert_eq!(c.client_id(), "c");
}

#[test]
fn saved_item_names_round_trip() {
    assert_eq!(SavedItemType::Tracks.as_str(), "tracks");
    assert_eq!(SavedItemType::Albums.as_str(), "albums");
    for t in [SavedItemType::Tracks, SavedItemType::Albums] {
        assert_eq!(t.as_str().parse::<SavedItemType>(), Ok(t));
    }
    assert_eq!(
        "songs".parse::<SavedItemType>(),
        Err(SpotifyApiError::Generic("Invalid SavedItemType: songs".to_string()))
    );
    assert_eq!(
        SavedItemType::parse("Tracks"),
        Err(SpotifyApiError::Generic("Invalid SavedItemType: Tracks".to_string()))
    );
}

fn token(expires_at: u64) -> WebApiToken {
    WebApiToken { access_token: "a".to_string(), refresh_token: "r".to_string(), expires_at, scope: "s1 s2".to_string() }
}

#[test]
fn token_file_outcomes() {
    assert_eq!(
        on_token_file(TokenFile::NoFilesDir),
        TokenLoadStep::Done(Err(SpotifyApiError::Generic("Android file path is not set!".to_string())))
    );
    assert_eq!(on_token_file(TokenFile::Missing), TokenLoadStep::Done(Ok(None)));
    assert_eq!(
        on_token_file(TokenFile::Unreadable("denied".to_string())),
        TokenLoadStep::Done(Err(SpotifyApiError::IO("denied".to_string())))
    );
    assert_eq!(on_token_file(TokenFile::Contents("{}".to_string())), TokenLoadStep::Parse("{}".to_string()));
}

#[test]
fn expired_tokens_are_renewed_valid_ones_kept() {
    assert_eq!(on_token_parsed(Ok(token(100)), 99), TokenLoadStep::Done(Ok(Some(token(100)))));
    assert_eq!(on_token_parsed(Ok(token(100)), 100), TokenLoadStep::Refresh(token(100)));
    assert_eq!(on_token_parsed(Ok(token(100)), 1000), TokenLoadStep::Refresh(token(100)));
    assert_eq!(
        on_token_parsed(Err("bad json".to_string()), 0),
        TokenLoadStep::Done(Err(SpotifyApiError::Generic("Failed to parse token JSON: bad json".to_string())))
    );
}

#[test]
fn renewal_keeps_old_refresh_token_when_none_is_sent() {
    let resp = TokenResponse {
        access_token: "new".to_string(),
        token_type: "Bearer".to_string(),
        scope: "a b".to_string(),
        expires_in: 3600,
        refresh_token: None,
    };
    let old = "old-refresh".to_string();
    let t = WebApiToken::from_response(resp.clone(), Some(&old), 1000);
    assert_eq!((t.access_token.as_str(), t.refresh_token.as_str(), t.expires_at, t.scope.as_str()), ("new", "old-refresh", 4600, "a b"));
    let t2 = WebApiToken::from_response(TokenResponse { refresh_token: Some("fresh".to_string()), ..resp.clone() }, Some(&old), 0);
    assert_eq!(t2.refresh_token, "fresh");
    assert_eq!(WebApiToken::from_response(resp, None, u64::MAX - 1).expires_at, u64::MAX);
}

#[test]
fn authentication_and_scope_follow_the_loaded_token() {
    assert!(is_authenticated(&Ok(Some(token(1)))));
    assert!(!is_authenticated(&Ok(None)));
    assert!(!is_authenticated(&Err(SpotifyApiError::IO("x".to_string()))));
    assert_eq!(scope_of(&Ok(Some(token(1)))), Some("s1 s2".to_string()));
    assert_eq!(scope_of(&Ok(None)), None);
}

#[test]
fn renewal_outcome_ends_loading() {
    assert_eq!(on_token_refreshed(Ok(token(5))), TokenLoadStep::Done(Ok(Some(token(5)))));
    assert_eq!(
        on_token_refreshed(Err(SpotifyApiError::Request("offline".to_string()))),
        TokenLoadStep::Done(Err(SpotifyApiError::Request("offline".to_string())))
    );
}
