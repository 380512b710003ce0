use outify_core::spotify::api::{
    check_response_json, refresh_token_request, ApiCall, ApiReply, ApiRequest, Attempt, CallAction,
    HttpMethod, RequestBody,
};
use outify_core::spotify::error::SpotifyApiError;
use outify_core::spotify::library::SavedItemType;
use outify_core::spotify::token::WebApiToken;

fn token(access: &str) -> WebApiToken {
    WebApiToken { access_token: access.to_string(), refresh_token: "r".to_string(), expires_at: 100, scope: "s".to_string() }
}

fn query(r: &ApiRequest) -> Vec<(&str, &str)> {
    r.query.iter().map(|(k, v)| (k.as_str(), v.as_str())).collect()
}

fn uris() -> Vec<String> {
    vec!["spotify:track:a".to_string(), "spotify:album:b".to_string()]
}

#[test]
fn search_request_names_query_types_and_paging() {
    let c = ApiCall::Search { query: "abba".to_string(), types: "track,album".to_string(), limit: Some(10), offset: Some(-1) };
    let r = c.request(&"tok".to_string());
    assert_eq!(r.method, HttpMethod::Get);
    assert_eq!(r.url, "https://api.spotify.com/v1/search");
    assert_eq!(query(&r), vec![("q", "abba"), ("type", "track,album"), ("limit", "10"), ("offset", "-1")]);
    assert_eq!(r.bearer_token.as_deref(), Some("tok"));
    assert_eq!(r.timeout_secs, Some(5));
    assert_eq!(r.body, RequestBody::Empty);
    let bare = ApiCall::Search { query: "x".to_string(), types: "artist".to_string(), limit: None, offset: None };
    assert_eq!(query(&bare.request(&"t".to_string())), vec![("q", "x"), ("type", "artist")]);
}

#[test]
fn library_requests_join_uris_with_commas() {
    let save = ApiCall::SaveItems { uris: uris() }.request(&"t".to_string());
    assert_eq!(save.method, HttpMethod::Put);
    assert_eq!(save.url, "https://api.spotify.com/v1/me/library");
    assert_eq!(query(&save), vec![("uris", "spotify:track:a,spotify:album:b")]);
    assert!(save.empty_content_length);
    let del = ApiCall::DeleteItems { uris: uris() }.request(&"t".to_string());
    assert_eq!(del.method, HttpMethod::Delete);
    assert_eq!(query(&del), vec![("uris", "spotify:track:a,spotify:album:b")]);
    assert!(del.empty_content_length);
}

#[test]
fn playlist_item_requests_carry_json_bodies() {
    let add = ApiCall::AddToPlaylist { playlist_id: "pl1".to_string(), uris: uris() }.request(&"t".to_string());
    assert_eq!(add.method, HttpMethod::Post);
    assert_eq!(add.url, "https://api.spotify.com/v1/playlists/pl1/items");
    match add.body {
        RequestBody::AddItems(b) => {
            assert_eq!(b.uris, uris());
            assert_eq!(b.position, Some(0));
        },
        other => panic!("unexpected body {:?}", other),
    }
    let rem = ApiCall::DeleteFromPlaylist { playlist_id: "pl1".to_string(), uris: uris() }.request(&"t".to_string());
    assert_eq!(rem.method, HttpMethod::Delete);
    assert_eq!(rem.url, "https://api.spotify.com/v1/playlists/pl1/items");
    match rem.body {
        RequestBody::RemoveItems(b) => {
            assert_eq!(b.items.len(), 2);
            assert_eq!(b.items[1].uri, "spotify:album:b");
        },
        other => panic!("unexpected body {:?}", other),
    }
}

#[test]
fn other_requests() {
    let t = "t".to_string();
    assert_eq!(ApiCall::GetCurrentUser.request(&t).url, "https://api.spotify.com/v1/me");
    assert_eq!(ApiCall::GetDevices.request(&t).url, "https://api.spotify.com/v1/me/player/devices");
    let tr = ApiCall::TransferPlayback { device_id: "dev".to_string() }.request(&t);
    assert_eq!(tr.method, HttpMethod::Put);
    assert_eq!(tr.url, "https://api.spotify.com/v1/me/player");
    match tr.body {
        RequestBody::TransferPlayback(b) => assert_eq!(b.device_ids, vec!["dev".to_string()]),
        other => panic!("unexpected body {:?}", other),
    }
    let top = ApiCall::GetTop { request_type: None, time_range: "short_term".to_string() }.request(&t);
    assert_eq!(top.url, "https://api.spotify.com/v1/me/top/artists?time_range=short_term");
    let top_tracks = ApiCall::GetTop { request_type: Some("tracks".to_string()), time_range: "long_term".to_string() }.request(&t);
    assert_eq!(top_tracks.url, "https://api.spotify.com/v1/me/top/tracks?time_range=long_term");
    let create = ApiCall::CreatePlaylist { name: "n".to_string(), description: None, public: false, collaborative: true }.request(&t);
    assert_eq!(create.method, HttpMethod::Post);
    assert_eq!(create.url, "https://api.spotify.com/v1/me/playlists");
    match create.body {
        RequestBody::Playlist(b) => {
            assert_eq!((b.name.as_str(), b.public, b.collaborative, b.description), ("n", false, true, None));
        },
        other => panic!("unexpected body {:?}", other),
    }
    let modify = ApiCall::ModifyPlaylist {
        id: "p9".to_string(),
        name: "m".to_string(),
        description: Some("d".to_string()),
        public: true,
        collaborative: false,
    }
    .request(&t);
    assert_eq!(modify.method, HttpMethod::Put);
    assert_eq!(modify.url, "https://api.spotify.com/v1/playlists/p9");
    assert_eq!(ApiCall::GetSaved { item: SavedItemType::Albums }.request(&t).url, "https://api.spotify.com/v1/me/albums");
    assert_eq!(ApiCall::GetSaved { item: SavedItemType::Tracks }.request(&t).url, "https://api.spotify.com/v1/me/tracks");
}

#[test]
fn no_token_no_request() {
    let c = ApiCall::GetDevices;
    assert_eq!(c.start(), CallAction::LoadToken);
    assert_eq!(
        c.on_token(Ok(None)),
        CallAction::Finish(Err(SpotifyApiError::Generic("No account token present!".to_string())))
    );
    assert_eq!(
        c.on_token(Err(SpotifyApiError::IO("denied".to_string()))),
        CallAction::Finish(Err(SpotifyApiError::IO("denied".to_string())))
    );
    match c.on_token(Ok(Some(token("abc")))) {
        CallAction::Send { request, attempt, token: t } => {
            assert_eq!(request.bearer_token.as_deref(), Some("abc"));
            assert_eq!(attempt, Attempt::First);
            assert_eq!(t, token("abc"));
        },
        other => panic!("unexpected action {:?}", other),
    }
}

#[test]
fn unauthorized_first_response_renews_once() {
    let c = ApiCall::GetTop { request_type: None, time_range: "x".to_string() };
    let t = token("old");
    assert_eq!(c.on_response(Attempt::First, &t, 401, Ok("no".to_string())), CallAction::RefreshToken(t.clone()));
    match c.on_refreshed(Ok(token("new"))) {
        CallAction::Send { request, attempt, token: t } => {
            assert_eq!(request.bearer_token.as_deref(), Some("new"));
            assert_eq!(attempt, Attempt::Retry);
            assert_eq!(t, token("new"));
        },
        other => panic!("unexpected action {:?}", other),
    }
    assert_eq!(
        c.on_response(Attempt::Retry, &token("new"), 401, Ok("still no".to_string())),
        CallAction::Finish(Err(SpotifyApiError::Generic("get_top failed with status 401: still no".to_string())))
    );
    assert_eq!(
        c.on_refreshed(Err(SpotifyApiError::Request("offline".to_string()))),
        CallAction::Finish(Err(SpotifyApiError::Request("offline".to_string())))
    );
}

#[test]
fn status_calls_give_back_the_status() {
    let c = ApiCall::SaveItems { uris: uris() };
    let t = token("a");
    assert_eq!(c.on_response(Attempt::First, &t, 200, Ok(String::new())), CallAction::Finish(Ok(ApiReply::Status(200))));
    assert_eq!(
        c.on_response(Attempt::First, &t, 401, Ok("bad".to_string())),
        CallAction::Finish(Err(SpotifyApiError::Generic("save_items failed with status 401: bad".to_string())))
    );
    let m = ApiCall::ModifyPlaylist {
        id: "p".to_string(),
        name: "n".to_string(),
        description: None,
        public: true,
        collaborative: false,
    };
    assert_eq!(
        m.finish(503, Err(SpotifyApiError::Request("reset".to_string()))),
        Err(SpotifyApiError::Generic("modify_playlist failed with status 503: ".to_string()))
    );
    assert_eq!(m.finish(299, Ok("ignored".to_string())), Ok(ApiReply::Status(299)));
}

#[test]
fn failure_messages_of_search_and_profile() {
    let s = ApiCall::Search { query: "q1".to_string(), types: "track".to_string(), limit: None, offset: None };
    assert_eq!(
        s.finish(400, Ok("oops".to_string())),
        Err(SpotifyApiError::Generic("search failed with status 400, query 'q1': oops".to_string()))
    );
    assert_eq!(s.finish(200, Ok("{}".to_string())), Ok(ApiReply::Body("{}".to_string())));
    assert_eq!(
        ApiCall::GetCurrentUser.finish(500, Ok("down".to_string())),
        Err(SpotifyApiError::Generic("Request failed with status code: 500. Body: down".to_string()))
    );
    assert_eq!(
        ApiCall::GetCurrentUser.finish(200, Err(SpotifyApiError::Request("cut".to_string()))),
        Err(SpotifyApiError::Request("cut".to_string()))
    );
}

#[test]
fn saved_items_take_any_status_and_wrap_body_errors() {
    let c = ApiCall::GetSaved { item: SavedItemType::Tracks };
    assert_eq!(c.finish(500, Ok("{\"items\":[]}".to_string())), Ok(ApiReply::Body("{\"items\":[]}".to_string())));
    assert_eq!(
        c.finish(200, Err(SpotifyApiError::Json("eof".to_string()))),
        Err(SpotifyApiError::Generic("get_saved failed with error: eof".to_string()))
    );
}

#[test]
fn json_check() {
    assert_eq!(check_response_json("m", 204, Ok("b".to_string())), Ok("b".to_string()));
    assert_eq!(
        check_response_json("m", 404, Ok("nope".to_string())),
        Err(SpotifyApiError::Generic("m failed with status 404: nope".to_string()))
    );
    assert_eq!(
        check_response_json("m", 199, Err(SpotifyApiError::Request("x".to_string()))),
        Err(SpotifyApiError::Generic("m failed with status 199: ".to_string()))
    );
}

#[test]
fn refresh_request_posts_a_form() {
    let r = refresh_token_request(&token("a"), &"client".to_string());
    assert_eq!(r.method, HttpMethod::Post);
    assert_eq!(r.url, "https://accounts.spotify.com/api/token");
    assert!(r.bearer_token.is_none());
    assert!(r.timeout_secs.is_none());
    match r.body {
        RequestBody::Form(f) => {
            let f: Vec<(&str, &str)> = f.iter().map(|(k, v)| (k.as_str(), v.as_str())).collect();
            assert_eq!(f, vec![("grant_type", "refresh_token"), ("refresh_token", "r"), ("client_id", "client")]);
        },
        other => panic!("unexpected body {:?}", other),
    }
}

#[test]
fn retried_request_differs_only_in_token() {
    let c = ApiCall::CreatePlaylist { name: "n".to_string(), description: Some("d".to_string()), public: true, collaborative: false };
    let first = c.request(&"old".to_string());
    let retry = match c.on_refreshed(Ok(token("new"))) {
        CallAction::Send { request, .. } => request,
        other => panic!("unexpected action {:?}", other),
    };
    assert_eq!(first.bearer_token.as_deref(), Some("old"));
    assert_eq!(retry.bearer_token.as_deref(), Some("new"));
    assert_eq!(ApiRequest { bearer_token: None, ..first }, ApiRequest { bearer_token: None, ..retry });
}

#[test]
fn body_parse_errors() {
    assert_eq!(ApiCall::GetDevices.parse_error("eof".to_string()), SpotifyApiError::Json("eof".to_string()));
    assert_eq!(
        ApiCall::GetSaved { item: SavedItemType::Albums }.parse_error("missing field".to_string()),
        SpotifyApiError::Generic("get_saved failed with error: missing field".to_string())
    );
    assert_eq!(SpotifyApiError::Json("eof".to_string()).message(), "eof");
}
