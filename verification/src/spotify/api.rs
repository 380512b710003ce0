//! The Web API calls: the request each one sends, and what is decided on
//! the token, the response and a token refresh. The caller performs each
//! action (load the token, send, refresh) and hands back what came of it.

use vstd::prelude::*;

use crate::spotify::error::{error_text, SpotifyApiError};
use crate::spotify::library::{saved_item_name, SavedItemType};
use crate::spotify::token::WebApiToken;
use crate::text::{decimal, push_decimal, signed_decimal, texts, i32_to_string, join_strings, joined};
use crate::types::requests::{
    AddItemRequest, CreatePlaylistRequest, RemoveItem, RemoveItemRequest, TransferPlaybackRequest,
};

verus! {

/// The Web API's base URL.
pub const SPOTIFY_API_URL: &'static str = "https://api.spotify.com";

/// The accounts service's token endpoint.
pub const SPOTIFY_TOKEN_URL: &'static str = "https://accounts.spotify.com/api/token";

/// The time allowed for a Web API request, in seconds.
pub const REQUEST_TIMEOUT_SECS: u64 = 5;

/// The HTTP status of a request without valid credentials.
pub const UNAUTHORIZED: u16 = 401;

/// An HTTP method.
#[derive(Debug, Clone, Copy, PartialEq, Eq, Structural)]
pub enum HttpMethod {
    Get,
    Put,
    Post,
    Delete,
}

/// The body of a request: none, one of the JSON bodies, or a form.
#[derive(Debug, Clone, PartialEq, Eq)]
pub enum RequestBody {
    Empty,
    AddItems(AddItemRequest),
    RemoveItems(RemoveItemRequest),
    TransferPlayback(TransferPlaybackRequest),
    Playlist(CreatePlaylistRequest),
    Form(Vec<(String, String)>),
}

/// An HTTP request to send: method, URL, query pairs, bearer token, whether
/// it carries `Content-Length: 0`, its time limit in seconds, and its body.
#[derive(Debug, Clone, PartialEq, Eq)]
pub struct ApiRequest {
    pub method: HttpMethod,
    pub url: String,
    pub query: Vec<(String, String)>,
    pub bearer_token: Option<String>,
    pub empty_content_length: bool,
    pub timeout_secs: Option<u64>,
    pub body: RequestBody,
}

/// A Web API call of the client, with its arguments.
#[derive(Debug, Clone, PartialEq, Eq)]
pub enum ApiCall {
    Search { query: String, types: String, limit: Option<i32>, offset: Option<i32> },
    GetCurrentUser,
    SaveItems { uris: Vec<String> },
    AddToPlaylist { playlist_id: String, uris: Vec<String> },
    DeleteItems { uris: Vec<String> },
    DeleteFromPlaylist { playlist_id: String, uris: Vec<String> },
    GetDevices,
    TransferPlayback { device_id: String },
    GetTop { request_type: Option<String>, time_range: String },
    CreatePlaylist { name: String, description: Option<String>, public: bool, collaborative: bool },
    ModifyPlaylist {
        id: String,
        name: String,
        description: Option<String>,
        public: bool,
        collaborative: bool,
    },
    GetSaved { item: SavedItemType },
}

/// What a finished call gives back: the HTTP status, or the body to parse.
#[derive(Debug, Clone, PartialEq, Eq)]
pub enum ApiReply {
    Status(u16),
    Body(String),
}

/// What the caller is to do next.
#[derive(Debug, PartialEq, Eq)]
pub enum CallAction {
    /// Load the account token.
    LoadToken,
    /// Send this request, the `attempt`-th sending of the call's request,
    /// made with `token`; its response goes to `on_response` with both.
    Send { request: ApiRequest, attempt: Attempt, token: WebApiToken },
    /// Renew the token that was sent and was refused.
    RefreshToken(WebApiToken),
    /// The call is over, with this result.
    Finish(Result<ApiReply, SpotifyApiError>),
}

/// Which sending of a request a response answers.
#[derive(Debug, Clone, Copy, PartialEq, Eq, Structural)]
pub enum Attempt {
    First,
    Retry,
}

// ---------------------------------------------------------------------------
// Requests.

/// A Web API URL: the base URL followed by `path`.
pub open spec fn api_url(path: Seq<char>) -> Seq<char> {
    SPOTIFY_API_URL@ + path
}

/// The texts of a list of string pairs.
pub open spec fn pair_texts(v: Seq<(String, String)>) -> Seq<(Seq<char>, Seq<char>)> {
    v.map_values(|p: (String, String)| (p.0@, p.1@))
}

/// The text of an optional string.
pub open spec fn opt_text(o: Option<String>) -> Option<Seq<char>> {
    match o {
        Some(s) => Some(s@),
        None => None,
    }
}

/// The query of a search: `q`, `type`, then `limit` and `offset` where given.
pub open spec fn search_query(query: Seq<char>, types: Seq<char>, limit: Option<i32>, offset: Option<i32>) -> Seq<(Seq<char>, Seq<char>)> {
    seq![("q"@, query), ("type"@, types)]
        + match limit {
            Some(l) => seq![("limit"@, signed_decimal(l as int))],
            None => Seq::empty(),
        }
        + match offset {
            Some(o) => seq![("offset"@, signed_decimal(o as int))],
            None => Seq::empty(),
        }
}

/// The URL of a playlist's items.
pub open spec fn playlist_items_url(playlist_id: Seq<char>) -> Seq<char> {
    api_url("/v1/playlists/"@ + playlist_id + "/items"@)
}

/// The URL of the user's top items of a kind (artists where none is named).
pub open spec fn top_url(request_type: Option<String>, time_range: Seq<char>) -> Seq<char> {
    let kind = match request_type {
        Some(t) => t@,
        None => "artists"@,
    };
    api_url("/v1/me/top/"@ + kind + "?time_range="@ + time_range)
}

/// The library query naming `uris`, joined with commas.
pub open spec fn library_query(uris: Seq<String>) -> Seq<(Seq<char>, Seq<char>)> {
    seq![("uris"@, joined(texts(uris), ","@))]
}

/// `b` is the body that creates or changes a playlist with these details.
pub open spec fn playlist_body(b: CreatePlaylistRequest, name: String, description: Option<String>, public: bool, collaborative: bool) -> bool {
    &&& b.name@ == name@
    &&& b.public == public
    &&& b.collaborative == collaborative
    &&& opt_text(b.description) == opt_text(description)
}

/// `b` removes exactly the items with these URIs, in order.
pub open spec fn remove_body(b: RemoveItemRequest, uris: Seq<String>) -> bool {
    &&& b.items@.len() == uris.len()
    &&& forall|k: int| 0 <= k < uris.len() ==> (#[trigger] b.items@[k]).uri@ == uris[k]@
}

/// `r` is the request the call `c` sends with the access token `token`.
pub open spec fn request_for(c: ApiCall, token: Seq<char>, r: ApiRequest) -> bool {
    &&& r.bearer_token matches Some(b) && b@ == token
    &&& r.timeout_secs == Some(REQUEST_TIMEOUT_SECS)
    &&& match c {
        ApiCall::Search { query, types, limit, offset } => {
            &&& r.method == HttpMethod::Get
            &&& r.url@ == api_url("/v1/search"@)
            &&& pair_texts(r.query@) == search_query(query@, types@, limit, offset)
            &&& !r.empty_content_length
            &&& r.body is Empty
        },
        ApiCall::GetCurrentUser => {
            &&& r.method == HttpMethod::Get
            &&& r.url@ == api_url("/v1/me"@)
            &&& r.query@.len() == 0
            &&& !r.empty_content_length
            &&& r.body is Empty
        },
        ApiCall::SaveItems { uris } => {
            &&& r.method == HttpMethod::Put
            &&& r.url@ == api_url("/v1/me/library"@)
            &&& pair_texts(r.query@) == library_query(uris@)
            &&& r.empty_content_length
            &&& r.body is Empty
        },
        ApiCall::AddToPlaylist { playlist_id, uris } => {
            &&& r.method == HttpMethod::Post
            &&& r.url@ == playlist_items_url(playlist_id@)
            &&& r.query@.len() == 0
            &&& !r.empty_content_length
            &&& r.body matches RequestBody::AddItems(b)
                && texts(b.uris@) == texts(uris@) && b.position == Some(0u32)
        },
        ApiCall::DeleteItems { uris } => {
            &&& r.method == HttpMethod::Delete
            &&& r.url@ == api_url("/v1/me/library"@)
            &&& pair_texts(r.query@) == library_query(uris@)
            &&& r.empty_content_length
            &&& r.body is Empty
        },
        ApiCall::DeleteFromPlaylist { playlist_id, uris } => {
            &&& r.method == HttpMethod::Delete
            &&& r.url@ == playlist_items_url(playlist_id@)
            &&& r.query@.len() == 0
            &&& !r.empty_content_length
            &&& r.body matches RequestBody::RemoveItems(b) && remove_body(b, uris@)
        },
        ApiCall::GetDevices => {
            &&& r.method == HttpMethod::Get
            &&& r.url@ == api_url("/v1/me/player/devices"@)
            &&& r.query@.len() == 0
            &&& !r.empty_content_length
            &&& r.body is Empty
        },
        ApiCall::TransferPlayback { device_id } => {
            &&& r.method == HttpMethod::Put
            &&& r.url@ == api_url("/v1/me/player"@)
            &&& r.query@.len() == 0
            &&& !r.empty_content_length
            &&& r.body matches RequestBody::TransferPlayback(b) && texts(b.device_ids@) == seq![device_id@]
        },
        ApiCall::GetTop { request_type, time_range } => {
            &&& r.method == HttpMethod::Get
            &&& r.url@ == top_url(request_type, time_range@)
            &&& r.query@.len() == 0
            &&& !r.empty_content_length
            &&& r.body is Empty
        },
        ApiCall::CreatePlaylist { name, description, public, collaborative } => {
            &&& r.method == HttpMethod::Post
            &&& r.url@ == api_url("/v1/me/playlists"@)
            &&& r.query@.len() == 0
            &&& !r.empty_content_length
            &&& r.body matches RequestBody::Playlist(b)
                && playlist_body(b, name, description, public, collaborative)
        },
        ApiCall::ModifyPlaylist { id, name, description, public, collaborative } => {
            &&& r.method == HttpMethod::Put
            &&& r.url@ == api_url("/v1/playlists/"@ + id@)
            &&& r.query@.len() == 0
            &&& !r.empty_content_length
            &&& r.body matches RequestBody::Playlist(b)
                && playlist_body(b, name, description, public, collaborative)
        },
        ApiCall::GetSaved { item } => {
            &&& r.method == HttpMethod::Get
            &&& r.url@ == api_url("/v1/me/"@ + saved_item_name(item))
            &&& r.query@.len() == 0
            &&& !r.empty_content_length
            &&& r.body is Empty
        },
    }
}

fn copy_strings(v: &Vec<String>) -> (r: Vec<String>)
    ensures
        texts(r@) == texts(v@),
{
    let mut r: Vec<String> = Vec::new();
    let mut i: usize = 0;
    while i < v.len()
        invariant
            i <= v.len(),
            r@.len() == i,
            forall|k: int| 0 <= k < i ==> #[trigger] r@[k]@ == v@[k]@,
        decreases v.len() - i,
    {
        r.push(v[i].clone());
        i = i + 1;
    }
    proof {
        assert(texts(r@) =~= texts(v@));
    }
    r
}

fn copy_opt(o: &Option<String>) -> (r: Option<String>)
    ensures
        opt_text(r) == opt_text(*o),
{
    match o {
        Some(s) => Some(s.clone()),
        None => None,
    }
}

fn api_url_of(path: &str) -> (s: String)
    ensures
        s@ == api_url(path@),
{
    let mut s = SPOTIFY_API_URL.to_owned();
    s.append(path);
    s
}

fn pair(key: &str, value: String) -> (p: (String, String))
    ensures
        p.0@ == key@,
        p.1@ == value@,
{
    (key.to_owned(), value)
}

fn playlist_request(name: &String, description: &Option<String>, public: bool, collaborative: bool) -> (b: CreatePlaylistRequest)
    ensures
        playlist_body(b, *name, *description, public, collaborative),
{
    CreatePlaylistRequest {
        name: name.clone(),
        public,
        collaborative,
        description: copy_opt(description),
    }
}

impl ApiCall {
    /// The request this call sends with the access token `token`.
    pub fn request(&self, token: &String) -> (r: ApiRequest)
        ensures
            request_for(*self, token@, r),
    {
        let mut method = HttpMethod::Get;
        let mut query: Vec<(String, String)> = Vec::new();
        let mut empty_content_length = false;
        let mut body = RequestBody::Empty;
        let url = match self {
            ApiCall::Search { query: q, types, limit, offset } => {
                query.push(pair("q", q.clone()));
                query.push(pair("type", types.clone()));
                match limit {
                    Some(l) => query.push(pair("limit", i32_to_string(*l))),
                    None => {},
                }
                match offset {
                    Some(o) => query.push(pair("offset", i32_to_string(*o))),
                    None => {},
                }
                proof {
                    assert(pair_texts(query@) =~= search_query(q@, types@, *limit, *offset));
                }
                api_url_of("/v1/search")
            },
            ApiCall::GetCurrentUser => api_url_of("/v1/me"),
            ApiCall::SaveItems { uris } => {
                method = HttpMethod::Put;
                query.push(pair("uris", join_strings(uris, ",")));
                empty_content_length = true;
                proof {
                    assert(pair_texts(query@) =~= library_query(uris@));
                }
                api_url_of("/v1/me/library")
            },
            ApiCall::AddToPlaylist { playlist_id, uris } => {
                method = HttpMethod::Post;
                body = RequestBody::AddItems(AddItemRequest { uris: copy_strings(uris), position: Some(0) });
                let mut u = api_url_of("/v1/playlists/");
                u.append(playlist_id.as_str());
                u.append("/items");
                proof {
                    assert(u@ =~= playlist_items_url(playlist_id@));
                }
                u
            },
            ApiCall::DeleteItems { uris } => {
                method = HttpMethod::Delete;
                query.push(pair("uris", join_strings(uris, ",")));
                empty_content_length = true;
                proof {
                    assert(pair_texts(query@) =~= library_query(uris@));
                }
                api_url_of("/v1/me/library")
            },
            ApiCall::DeleteFromPlaylist { playlist_id, uris } => {
                method = HttpMethod::Delete;
                let mut items: Vec<RemoveItem> = Vec::new();
                let mut i: usize = 0;
                while i < uris.len()
                    invariant
                        i <= uris.len(),
                        items@.len() == i,
                        forall|k: int| 0 <= k < i ==> (#[trigger] items@[k]).uri@ == uris@[k]@,
                    decreases uris.len() - i,
                {
                    items.push(RemoveItem { uri: uris[i].clone() });
                    i = i + 1;
                }
                body = RequestBody::RemoveItems(RemoveItemRequest { items });
                let mut u = api_url_of("/v1/playlists/");
                u.append(playlist_id.as_str());
                u.append("/items");
                proof {
                    assert(u@ =~= playlist_items_url(playlist_id@));
                }
                u
            },
            ApiCall::GetDevices => api_url_of("/v1/me/player/devices"),
            ApiCall::TransferPlayback { device_id } => {
                method = HttpMethod::Put;
                let mut ids: Vec<String> = Vec::new();
                ids.push(device_id.clone());
                proof {
                    assert(texts(ids@) =~= seq![device_id@]);
                }
                body = RequestBody::TransferPlayback(TransferPlaybackRequest { device_ids: ids });
                api_url_of("/v1/me/player")
            },
            ApiCall::GetTop { request_type, time_range } => {
                let mut u = api_url_of("/v1/me/top/");
                match request_type {
                    Some(t) => u.append(t.as_str()),
                    None => u.append("artists"),
                }
                u.append("?time_range=");
                u.append(time_range.as_str());
                proof {
                    assert(u@ =~= top_url(*request_type, time_range@));
                }
                u
            },
            ApiCall::CreatePlaylist { name, description, public, collaborative } => {
                method = HttpMethod::Post;
                body = RequestBody::Playlist(playlist_request(name, description, *public, *collaborative));
                api_url_of("/v1/me/playlists")
            },
            ApiCall::ModifyPlaylist { id, name, description, public, collaborative } => {
                method = HttpMethod::Put;
                body = RequestBody::Playlist(playlist_request(name, description, *public, *collaborative));
                let mut u = api_url_of("/v1/playlists/");
                u.append(id.as_str());
                proof {
                    assert(u@ =~= api_url("/v1/playlists/"@ + id@));
                }
                u
            },
            ApiCall::GetSaved { item } => {
                let mut u = api_url_of("/v1/me/");
                u.append(item.as_str());
                proof {
                    assert(u@ =~= api_url("/v1/me/"@ + saved_item_name(*item)));
                }
                u
            },
        };
        ApiRequest {
            method,
            url,
            query,
            bearer_token: Some(token.clone()),
            empty_content_length,
            timeout_secs: Some(REQUEST_TIMEOUT_SECS),
            body,
        }
    }
}


// ---------------------------------------------------------------------------
// Decisions on token, response and refresh.

/// Whether an HTTP status reports success (the 2xx range).
pub open spec fn is_success(status: u16) -> bool {
    200 <= status <= 299
}

/// The text of a response body, or nothing where it could not be read.
pub open spec fn body_or_empty(body: Result<String, SpotifyApiError>) -> Seq<char> {
    match body {
        Ok(t) => t@,
        Err(_) => Seq::empty(),
    }
}

/// The message refusing a call made without an account token.
pub open spec fn no_token_message() -> Seq<char> {
    "No account token present!"@
}

/// The name a call gives itself in its error messages.
pub open spec fn call_name(c: ApiCall) -> Seq<char> {
    match c {
        ApiCall::Search { .. } => "search"@,
        ApiCall::GetCurrentUser => "get_current_user"@,
        ApiCall::SaveItems { .. } => "save_items"@,
        ApiCall::AddToPlaylist { .. } => "add_to_playlist"@,
        ApiCall::DeleteItems { .. } => "delete_items"@,
        ApiCall::DeleteFromPlaylist { .. } => "delete_from_playlist"@,
        ApiCall::GetDevices => "get_devices"@,
        ApiCall::TransferPlayback { .. } => "transfer_playback"@,
        ApiCall::GetTop { .. } => "get_top"@,
        ApiCall::CreatePlaylist { .. } => "create_playlist"@,
        ApiCall::ModifyPlaylist { .. } => "modify_playlist"@,
        ApiCall::GetSaved { .. } => "get_saved"@,
    }
}

/// The calls whose result is the response's status.
pub open spec fn answers_with_status(c: ApiCall) -> bool {
    match c {
        ApiCall::SaveItems { .. } | ApiCall::AddToPlaylist { .. } | ApiCall::DeleteItems { .. }
        | ApiCall::DeleteFromPlaylist { .. } | ApiCall::TransferPlayback { .. }
        | ApiCall::ModifyPlaylist { .. } => true,
        _ => false,
    }
}

/// The calls that renew the token once when their first request is refused
/// as unauthorized.
pub open spec fn refreshes_when_unauthorized(c: ApiCall) -> bool {
    match c {
        ApiCall::GetDevices | ApiCall::GetTop { .. } | ApiCall::CreatePlaylist { .. } => true,
        _ => false,
    }
}

/// The message of a `method` refused with `status` and body text `body`.
pub open spec fn status_failure_message(method: Seq<char>, status: u16, body: Seq<char>) -> Seq<char> {
    method + " failed with status "@ + decimal(status as nat) + ": "@ + body
}

/// The message of a call whose response reports no success.
pub open spec fn failure_message(c: ApiCall, status: u16, body: Seq<char>) -> Seq<char> {
    match c {
        ApiCall::Search { query, .. } =>
            "search failed with status "@ + decimal(status as nat) + ", query '"@ + query@ + "': "@ + body,
        ApiCall::GetCurrentUser =>
            "Request failed with status code: "@ + decimal(status as nat) + ". Body: "@ + body,
        _ => status_failure_message(call_name(c), status, body),
    }
}

/// The message of `get_saved` where its body could not be had.
pub open spec fn saved_failure_message(e: SpotifyApiError) -> Seq<char> {
    "get_saved failed with error: "@ + error_text(e)
}

/// `r` is the result of `check_response_json` for `method` on a response
/// with `status` and `body`: the body where the status reports success and
/// it was read, the reading's error where it was not, else a failure message.
pub open spec fn json_check_of(method: Seq<char>, status: u16, body: Result<String, SpotifyApiError>, r: Result<String, SpotifyApiError>) -> bool {
    if is_success(status) {
        match body {
            Ok(t) => r matches Ok(s) && s@ == t@,
            Err(e) => r == Err::<String, SpotifyApiError>(e),
        }
    } else {
        r matches Err(SpotifyApiError::Generic(m)) && m@ == status_failure_message(method, status, body_or_empty(body))
    }
}

/// `r` is how the call `c` ends on a response with `status` and `body`.
pub open spec fn call_result_of(c: ApiCall, status: u16, body: Result<String, SpotifyApiError>, r: Result<ApiReply, SpotifyApiError>) -> bool {
    if c is GetSaved {
        match body {
            Ok(t) => r matches Ok(ApiReply::Body(b)) && b@ == t@,
            Err(e) => r matches Err(SpotifyApiError::Generic(m)) && m@ == saved_failure_message(e),
        }
    } else if !is_success(status) {
        r matches Err(SpotifyApiError::Generic(m)) && m@ == failure_message(c, status, body_or_empty(body))
    } else if answers_with_status(c) {
        r == Ok::<ApiReply, SpotifyApiError>(ApiReply::Status(status))
    } else {
        match body {
            Ok(t) => r matches Ok(ApiReply::Body(b)) && b@ == t@,
            Err(e) => r == Err::<ApiReply, SpotifyApiError>(e),
        }
    }
}

/// Whether a response to the `attempt` of call `c` with `status` has the
/// token renewed (and the request sent once more).
pub open spec fn asks_refresh(c: ApiCall, attempt: Attempt, status: u16) -> bool {
    attempt == Attempt::First && refreshes_when_unauthorized(c) && status == UNAUTHORIZED
}

/// `a` is what follows the renewal of a refused token: the request sent
/// again, as the retry, with the new token; or the renewal's error.
pub open spec fn after_refresh_of(c: ApiCall, loaded: Result<WebApiToken, SpotifyApiError>, a: CallAction) -> bool {
    match loaded {
        Ok(t) => a matches CallAction::Send { request: r, attempt: at, token: tk }
            && request_for(c, t.access_token@, r) && at == Attempt::Retry && tk == t,
        Err(e) => a == CallAction::Finish(Err(e)),
    }
}

fn status_message(method: &str, status: u16, body: &Result<String, SpotifyApiError>) -> (m: String)
    ensures
        m@ == status_failure_message(method@, status, body_or_empty(*body)),
{
    let mut m = method.to_owned();
    m.append(" failed with status ");
    push_decimal(&mut m, status as u64);
    m.append(": ");
    match body {
        Ok(t) => m.append(t.as_str()),
        Err(_) => {},
    }
    proof {
        assert(m@ =~= status_failure_message(method@, status, body_or_empty(*body)));
    }
    m
}

/// Checks a response that carries JSON: its body where the status reports
/// success, else an error naming `method`, the status and the body.
pub fn check_response_json(method: &str, status: u16, body: Result<String, SpotifyApiError>) -> (r: Result<String, SpotifyApiError>)
    ensures
        json_check_of(method@, status, body, r),
{
    if !(200 <= status && status <= 299) {
        let m = status_message(method, status, &body);
        return Err(SpotifyApiError::Generic(m));
    }
    body
}

impl ApiCall {
    /// The name this call gives itself in its error messages.
    pub fn name(&self) -> (s: &'static str)
        ensures
            s@ == call_name(*self),
    {
        match self {
            ApiCall::Search { .. } => "search",
            ApiCall::GetCurrentUser => "get_current_user",
            ApiCall::SaveItems { .. } => "save_items",
            ApiCall::AddToPlaylist { .. } => "add_to_playlist",
            ApiCall::DeleteItems { .. } => "delete_items",
            ApiCall::DeleteFromPlaylist { .. } => "delete_from_playlist",
            ApiCall::GetDevices => "get_devices",
            ApiCall::TransferPlayback { .. } => "transfer_playback",
            ApiCall::GetTop { .. } => "get_top",
            ApiCall::CreatePlaylist { .. } => "create_playlist",
            ApiCall::ModifyPlaylist { .. } => "modify_playlist",
            ApiCall::GetSaved { .. } => "get_saved",
        }
    }

    /// The first thing every call does: load the account token.
    pub fn start(&self) -> (a: CallAction)
        ensures
            a == CallAction::LoadToken,
    {
        CallAction::LoadToken
    }

    /// What follows the loading of the account token: the call's request,
    /// sent with that token; no token ends the call with an error.
    pub fn on_token(&self, loaded: Result<Option<WebApiToken>, SpotifyApiError>) -> (a: CallAction)
        ensures
            match loaded {
                Ok(Some(t)) => a matches CallAction::Send { request: r, attempt: at, token: tk }
                    && request_for(*self, t.access_token@, r) && at == Attempt::First && tk == t,
                Ok(None) => a matches CallAction::Finish(Err(SpotifyApiError::Generic(m))) && m@ == no_token_message(),
                Err(e) => a == CallAction::Finish(Err(e)),
            },
    {
        match loaded {
            Ok(Some(t)) => {
                let request = self.request(&t.access_token);
                CallAction::Send { request, attempt: Attempt::First, token: t }
            },
            Ok(None) => CallAction::Finish(Err(SpotifyApiError::Generic("No account token present!".to_owned()))),
            Err(e) => CallAction::Finish(Err(e)),
        }
    }

    /// What follows a response to the request sent with `token`: a renewal of
    /// the token for a first request of a call that renews when refused as
    /// unauthorized, else the end of the call.
    pub fn on_response(&self, attempt: Attempt, token: &WebApiToken, status: u16, body: Result<String, SpotifyApiError>) -> (a: CallAction)
        ensures
            asks_refresh(*self, attempt, status) ==> a == CallAction::RefreshToken(*token),
            !asks_refresh(*self, attempt, status) ==> (a matches CallAction::Finish(r) && call_result_of(*self, status, body, r)),
    {
        let refreshes = match self {
            ApiCall::GetDevices | ApiCall::GetTop { .. } | ApiCall::CreatePlaylist { .. } => true,
            _ => false,
        };
        if attempt == Attempt::First && refreshes && status == UNAUTHORIZED {
            return CallAction::RefreshToken(token.duplicate());
        }
        CallAction::Finish(self.finish(status, body))
    }

    /// How the call ends on a response with `status` and `body`.
    pub fn finish(&self, status: u16, body: Result<String, SpotifyApiError>) -> (r: Result<ApiReply, SpotifyApiError>)
        ensures
            call_result_of(*self, status, body, r),
    {
        match self {
            ApiCall::GetSaved { .. } => {
                return match body {
                    Ok(t) => Ok(ApiReply::Body(t)),
                    Err(e) => {
                        let mut m = "get_saved failed with error: ".to_owned();
                        let text = e.message();
                        m.append(text.as_str());
                        Err(SpotifyApiError::Generic(m))
                    },
                };
            },
            _ => {},
        }
        if !(200 <= status && status <= 299) {
            let m = match self {
                ApiCall::Search { query, .. } => {
                    let mut m = "search failed with status ".to_owned();
                    push_decimal(&mut m, status as u64);
                    m.append(", query '");
                    m.append(query.as_str());
                    m.append("': ");
                    match &body {
                        Ok(t) => m.append(t.as_str()),
                        Err(_) => {},
                    }
                    proof {
                        assert(m@ =~= failure_message(*self, status, body_or_empty(body)));
                    }
                    m
                },
                ApiCall::GetCurrentUser => {
                    let mut m = "Request failed with status code: ".to_owned();
                    push_decimal(&mut m, status as u64);
                    m.append(". Body: ");
                    match &body {
                        Ok(t) => m.append(t.as_str()),
                        Err(_) => {},
                    }
                    proof {
                        assert(m@ =~= failure_message(*self, status, body_or_empty(body)));
                    }
                    m
                },
                _ => status_message(self.name(), status, &body),
            };
            return Err(SpotifyApiError::Generic(m));
        }
        match self {
            ApiCall::SaveItems { .. } | ApiCall::AddToPlaylist { .. } | ApiCall::DeleteItems { .. }
            | ApiCall::DeleteFromPlaylist { .. } | ApiCall::TransferPlayback { .. }
            | ApiCall::ModifyPlaylist { .. } => Ok(ApiReply::Status(status)),
            _ => match body {
                Ok(t) => Ok(ApiReply::Body(t)),
                Err(e) => Err(e),
            },
        }
    }

    /// The error of a reply body that is not the JSON this call expects:
    /// for `get_saved` the parser's message in the call's own error, else
    /// the parser's error as it is.
    pub fn parse_error(&self, message: String) -> (e: SpotifyApiError)
        ensures
            self is GetSaved ==> (e matches SpotifyApiError::Generic(m) && m@ == "get_saved failed with error: "@ + message@),
            !(self is GetSaved) ==> e == SpotifyApiError::Json(message),
    {
        match self {
            ApiCall::GetSaved { .. } => {
                let mut m = "get_saved failed with error: ".to_owned();
                m.append(message.as_str());
                SpotifyApiError::Generic(m)
            },
            _ => SpotifyApiError::Json(message),
        }
    }

    /// What follows the renewal of a refused token: the request sent once
    /// more with the new token, or the end of the call with the renewal's error.
    pub fn on_refreshed(&self, refreshed: Result<WebApiToken, SpotifyApiError>) -> (a: CallAction)
        ensures
            after_refresh_of(*self, refreshed, a),
    {
        match refreshed {
            Ok(t) => {
                let request = self.request(&t.access_token);
                CallAction::Send { request, attempt: Attempt::Retry, token: t }
            },
            Err(e) => CallAction::Finish(Err(e)),
        }
    }
}

/// The form of a token renewal: grant type, refresh token and client id.
pub open spec fn refresh_form(refresh_token: Seq<char>, client_id: Seq<char>) -> Seq<(Seq<char>, Seq<char>)> {
    seq![
        ("grant_type"@, "refresh_token"@),
        ("refresh_token"@, refresh_token),
        ("client_id"@, client_id),
    ]
}

/// The request that renews `token` for the application `client_id`: a form
/// posted to the accounts service, without bearer token or time limit.
pub fn refresh_token_request(token: &WebApiToken, client_id: &String) -> (r: ApiRequest)
    ensures
        r.method == HttpMethod::Post,
        r.url@ == SPOTIFY_TOKEN_URL@,
        r.query@.len() == 0,
        r.bearer_token is None,
        !r.empty_content_length,
        r.timeout_secs is None,
        r.body matches RequestBody::Form(f) && pair_texts(f@) == refresh_form(token.refresh_token@, client_id@),
{
    let mut form: Vec<(String, String)> = Vec::new();
    form.push(pair("grant_type", "refresh_token".to_owned()));
    form.push(pair("refresh_token", token.refresh_token.clone()));
    form.push(pair("client_id", client_id.clone()));
    proof {
        assert(pair_texts(form@) =~= refresh_form(token.refresh_token@, client_id@));
    }
    ApiRequest {
        method: HttpMethod::Post,
        url: SPOTIFY_TOKEN_URL.to_owned(),
        query: Vec::new(),
        bearer_token: None,
        empty_content_length: false,
        timeout_secs: None,
        body: RequestBody::Form(form),
    }
}

/// How the answer to a token renewal is checked: as JSON named `refresh_token`.
pub fn check_refresh_response(status: u16, body: Result<String, SpotifyApiError>) -> (r: Result<String, SpotifyApiError>)
    ensures
        json_check_of("refresh_token"@, status, body, r),
{
    check_response_json("refresh_token", status, body)
}


/// A call renews its token at most once: a response to the retried request
/// always ends the call, and only a refusal as unauthorized (401) of the
/// first request of a renewing call asks for a renewal.
pub proof fn lemma_refresh_at_most_once(c: ApiCall, status: u16)
    ensures
        !asks_refresh(c, Attempt::Retry, status),
        asks_refresh(c, Attempt::First, status) ==> status == 401 && refreshes_when_unauthorized(c),
{
}

/// The request sent after a renewal is labelled as the retry, so whatever
/// its response, no second renewal follows.
pub proof fn lemma_no_renewal_after_renewal(c: ApiCall, t: WebApiToken, a: CallAction, status: u16)
    requires
        after_refresh_of(c, Ok(t), a),
    ensures
        a matches CallAction::Send { attempt: at, .. } && at == Attempt::Retry && !asks_refresh(c, at, status),
{
}

/// A call that answers with a status succeeds exactly on a 2xx response,
/// and then gives back that status.
pub proof fn lemma_status_calls_succeed_on_2xx(c: ApiCall, status: u16, body: Result<String, SpotifyApiError>, r: Result<ApiReply, SpotifyApiError>)
    requires
        answers_with_status(c),
        call_result_of(c, status, body, r),
    ensures
        (r is Ok) == is_success(status),
        r is Ok ==> r == Ok::<ApiReply, SpotifyApiError>(ApiReply::Status(status)),
{
}

/// On a 2xx response whose body was read, the library and playlist edits
/// (`save_items`, `add_to_playlist`, `delete_items`, `delete_from_playlist`,
/// `modify_playlist`) and the playback transfer end with the response's
/// status; every other call (search, current user, devices, top items,
/// playlist creation, saved items) ends with that body, character for
/// character, to be parsed by the caller.
pub proof fn lemma_two_hundreds_give_status_or_body(c: ApiCall, status: u16, t: String, r: Result<ApiReply, SpotifyApiError>)
    requires
        200 <= status <= 299,
        call_result_of(c, status, Ok(t), r),
    ensures
        (c is Search || c is GetCurrentUser || c is GetDevices || c is GetTop || c is CreatePlaylist
            || c is GetSaved) ==> (r matches Ok(ApiReply::Body(b)) && b@ == t@),
        (c is SaveItems || c is AddToPlaylist || c is DeleteItems || c is DeleteFromPlaylist
            || c is TransferPlayback || c is ModifyPlaylist) ==> r == Ok::<ApiReply, SpotifyApiError>(ApiReply::Status(status)),
{
}

/// The request sent again after a renewal differs from the first only in
/// its token: method, URL, query, headers and time limit are the same.
pub proof fn lemma_retry_repeats_request(c: ApiCall, t1: Seq<char>, t2: Seq<char>, r1: ApiRequest, r2: ApiRequest)
    requires
        request_for(c, t1, r1),
        request_for(c, t2, r2),
    ensures
        r1.method == r2.method,
        r1.url@ == r2.url@,
        pair_texts(r1.query@) == pair_texts(r2.query@),
        r1.empty_content_length == r2.empty_content_length,
        r1.timeout_secs == r2.timeout_secs,
        r1.bearer_token matches Some(b) && b@ == t1,
        r2.bearer_token matches Some(b) && b@ == t2,
{
    match c {
        ApiCall::AddToPlaylist { .. } | ApiCall::DeleteFromPlaylist { .. } | ApiCall::TransferPlayback { .. }
        | ApiCall::CreatePlaylist { .. } | ApiCall::ModifyPlaylist { .. } | ApiCall::GetCurrentUser
        | ApiCall::GetDevices | ApiCall::GetTop { .. } | ApiCall::GetSaved { .. } => {
            assert(pair_texts(r1.query@) =~= pair_texts(r2.query@));
        },
        _ => {},
    }
}

} // verus!
