//! Spotify URIs and IDs as plain values, and their canonical text forms.

use vstd::prelude::*;

use vstd::arithmetic::div_mod::{lemma_mod_breakdown, lemma_small_mod};
use vstd::arithmetic::power::{lemma_pow_positive, pow};

use crate::text::{decimal, push_char, push_decimal};

verus! {

/// A Spotify URI: the kind of an item and its identity. Ids are the 128-bit
/// numbers behind Spotify's base-62 ids; a local file is named by artist,
/// album, track and its duration in whole seconds.
#[derive(Debug, Clone, PartialEq, Eq)]
pub enum SpotifyUri {
    Album { id: u128 },
    Artist { id: u128 },
    Episode { id: u128 },
    Playlist { user: Option<String>, id: u128 },
    Show { id: u128 },
    Track { id: u128 },
    Local { artist: String, album_title: String, track_title: String, duration_secs: u64 },
    Unknown { kind: String, id: String },
}

/// The base-62 digit of a value below 62: `0-9`, then `a-z`, then `A-Z`.
pub open spec fn base62_digit(d: nat) -> char {
    if d < 10 {
        (48 + d) as char
    } else if d < 36 {
        (87 + d) as char
    } else {
        (29 + d) as char
    }
}

/// The last `width` base-62 digits of `n`, most significant first, with
/// leading zeros.
pub open spec fn base62_fixed(n: nat, width: nat) -> Seq<char>
    decreases width,
{
    if width == 0 {
        Seq::empty()
    } else {
        base62_fixed(n / 62, (width - 1) as nat).push(base62_digit(n % 62))
    }
}

/// The canonical 22-character base-62 text of a Spotify id.
pub open spec fn id_base62(id: u128) -> Seq<char> {
    base62_fixed(id as nat, 22)
}

proof fn lemma_base62_digit_injective(d: nat, e: nat)
    requires
        d < 62,
        e < 62,
        base62_digit(d) == base62_digit(e),
    ensures
        d == e,
{
    let cd = base62_digit(d) as int;
    let ce = base62_digit(e) as int;
    assert(cd == (if d < 10 { 48 + d } else if d < 36 { 87 + d } else { 29 + d }));
    assert(ce == (if e < 10 { 48 + e } else if e < 36 { 87 + e } else { 29 + e }));
}

proof fn lemma_base62_fixed_determines_residue(n: nat, m: nat, w: nat)
    requires
        base62_fixed(n, w) == base62_fixed(m, w),
    ensures
        n % (pow(62, w) as nat) == m % (pow(62, w) as nat),
    decreases w,
{
    reveal(pow);
    if w == 0 {
        assert(pow(62, 0) == 1);
    } else {
        let a = base62_fixed(n, w);
        let b = base62_fixed(m, w);
        assert(a.last() == base62_digit(n % 62));
        assert(b.last() == base62_digit(m % 62));
        lemma_base62_digit_injective(n % 62, m % 62);
        assert(a.drop_last() == base62_fixed(n / 62, (w - 1) as nat));
        assert(b.drop_last() == base62_fixed(m / 62, (w - 1) as nat));
        lemma_base62_fixed_determines_residue(n / 62, m / 62, (w - 1) as nat);
        let p = pow(62, (w - 1) as nat);
        lemma_pow_positive(62, (w - 1) as nat);
        assert(pow(62, w) == 62 * p);
        lemma_mod_breakdown(n as int, 62, p);
        lemma_mod_breakdown(m as int, 62, p);
    }
}

/// The text of a Spotify id identifies it: different ids have different
/// 22-character base-62 texts.
pub proof fn lemma_id_base62_identifies(a: u128, b: u128)
    ensures
        id_base62(a) == id_base62(b) ==> a == b,
        id_base62(a).len() == 22,
{
    lemma_base62_fixed_len(a as nat, 22);
    if id_base62(a) == id_base62(b) {
        lemma_base62_fixed_determines_residue(a as nat, b as nat, 22);
        assert(pow(62, 22) > u128::MAX) by {
            reveal_with_fuel(pow, 23);
        }
        lemma_small_mod(a as nat, pow(62, 22) as nat);
        lemma_small_mod(b as nat, pow(62, 22) as nat);
    }
}

proof fn lemma_base62_fixed_len(n: nat, w: nat)
    ensures
        base62_fixed(n, w).len() == w,
    decreases w,
{
    if w > 0 {
        lemma_base62_fixed_len(n / 62, (w - 1) as nat);
    }
}

/// Renders a Spotify id in base 62 through librespot.
///
/// Calls `librespot_core::SpotifyId::to_base62`. Claimed: the text is the id's
/// 22 base-62 digits, most significant first, zero-padded, over the alphabet
/// `0-9a-zA-Z` (the function's documentation and its loop show this), and the
/// call succeeds: its only failure is `String::from_utf8` on those ASCII digits.
#[verifier::external_body]
pub(crate) fn spotify_id_to_base62(id: u128) -> (s: String)
    ensures
        s@ == id_base62(id),
{
    librespot_core::SpotifyId { id }.to_base62().unwrap_or_default()
}

/// The type label of a URI.
pub open spec fn item_type(u: SpotifyUri) -> Seq<char> {
    match u {
        SpotifyUri::Album { .. } => "album"@,
        SpotifyUri::Artist { .. } => "artist"@,
        SpotifyUri::Episode { .. } => "episode"@,
        SpotifyUri::Playlist { .. } => "playlist"@,
        SpotifyUri::Show { .. } => "show"@,
        SpotifyUri::Track { .. } => "track"@,
        SpotifyUri::Local { .. } => "local"@,
        SpotifyUri::Unknown { .. } => "unknown"@,
    }
}

/// The resource part of a URI, after its type label (a playlist's user left out).
pub open spec fn uri_id(u: SpotifyUri) -> Seq<char> {
    match u {
        SpotifyUri::Album { id } => id_base62(id),
        SpotifyUri::Artist { id } => id_base62(id),
        SpotifyUri::Episode { id } => id_base62(id),
        SpotifyUri::Playlist { id, .. } => id_base62(id),
        SpotifyUri::Show { id } => id_base62(id),
        SpotifyUri::Track { id } => id_base62(id),
        SpotifyUri::Local { artist, album_title, track_title, duration_secs } =>
            artist@ + ":"@ + album_title@ + ":"@ + track_title@ + ":"@ + decimal(duration_secs as nat),
        SpotifyUri::Unknown { id, .. } => id@,
    }
}

/// The canonical text of a URI: `spotify:{type}:{id}`, or
/// `spotify:user:{user}:playlist:{id}` for a playlist with a user.
pub open spec fn uri_text(u: SpotifyUri) -> Seq<char> {
    match u {
        SpotifyUri::Playlist { user: Some(user), id } =>
            "spotify:user:"@ + user@ + ":"@ + item_type(u) + ":"@ + id_base62(id),
        _ => "spotify:"@ + item_type(u) + ":"@ + uri_id(u),
    }
}

/// Each kind's URI text starts with `spotify:`, then the kind's own
/// lower-case name, then `:` and the base-62 id; and two URIs have the same
/// type label only where they are of the same kind, so URIs of different
/// kinds never share a text of this form.
pub proof fn lemma_uri_kind_labels(id: u128, u: SpotifyUri, v: SpotifyUri)
    ensures
        uri_text(SpotifyUri::Album { id }) == "spotify:album:"@ + id_base62(id),
        uri_text(SpotifyUri::Artist { id }) == "spotify:artist:"@ + id_base62(id),
        uri_text(SpotifyUri::Episode { id }) == "spotify:episode:"@ + id_base62(id),
        uri_text(SpotifyUri::Playlist { user: None, id }) == "spotify:playlist:"@ + id_base62(id),
        uri_text(SpotifyUri::Show { id }) == "spotify:show:"@ + id_base62(id),
        uri_text(SpotifyUri::Track { id }) == "spotify:track:"@ + id_base62(id),
        item_type(u) == item_type(v) ==> {
            &&& (u is Album <==> v is Album)
            &&& (u is Artist <==> v is Artist)
            &&& (u is Episode <==> v is Episode)
            &&& (u is Playlist <==> v is Playlist)
            &&& (u is Show <==> v is Show)
            &&& (u is Track <==> v is Track)
            &&& (u is Local <==> v is Local)
            &&& (u is Unknown <==> v is Unknown)
        },
{
    reveal_strlit("album");
    reveal_strlit("artist");
    reveal_strlit("episode");
    reveal_strlit("playlist");
    reveal_strlit("show");
    reveal_strlit("track");
    reveal_strlit("local");
    reveal_strlit("unknown");
    reveal_strlit("spotify:");
    reveal_strlit(":");
    reveal_strlit("spotify:album:");
    reveal_strlit("spotify:artist:");
    reveal_strlit("spotify:episode:");
    reveal_strlit("spotify:playlist:");
    reveal_strlit("spotify:show:");
    reveal_strlit("spotify:track:");
    assert(uri_text(SpotifyUri::Album { id }) =~= "spotify:album:"@ + id_base62(id));
    assert(uri_text(SpotifyUri::Artist { id }) =~= "spotify:artist:"@ + id_base62(id));
    assert(uri_text(SpotifyUri::Episode { id }) =~= "spotify:episode:"@ + id_base62(id));
    assert(uri_text(SpotifyUri::Playlist { user: None, id }) =~= "spotify:playlist:"@ + id_base62(id));
    assert(uri_text(SpotifyUri::Show { id }) =~= "spotify:show:"@ + id_base62(id));
    assert(uri_text(SpotifyUri::Track { id }) =~= "spotify:track:"@ + id_base62(id));
    let a = item_type(u);
    let b = item_type(v);
    if a == b {
        assert(a.len() == b.len());
        assert(a[0] == b[0]);
        assert(a[1] == b[1]);
        if a.len() > 4 {
            assert(a[4] == b[4]);
        }
    }
}

impl SpotifyUri {
    /// The type label of this URI.
    pub fn item_type(&self) -> (s: &'static str)
        ensures
            s@ == item_type(*self),
    {
        match self {
            SpotifyUri::Album { .. } => {
                proof { reveal_strlit("album"); }
                "album"
            },
            SpotifyUri::Artist { .. } => {
                proof { reveal_strlit("artist"); }
                "artist"
            },
            SpotifyUri::Episode { .. } => {
                proof { reveal_strlit("episode"); }
                "episode"
            },
            SpotifyUri::Playlist { .. } => {
                proof { reveal_strlit("playlist"); }
                "playlist"
            },
            SpotifyUri::Show { .. } => {
                proof { reveal_strlit("show"); }
                "show"
            },
            SpotifyUri::Track { .. } => {
                proof { reveal_strlit("track"); }
                "track"
            },
            SpotifyUri::Local { .. } => {
                proof { reveal_strlit("local"); }
                "local"
            },
            SpotifyUri::Unknown { .. } => {
                proof { reveal_strlit("unknown"); }
                "unknown"
            },
        }
    }

    /// The resource part of this URI.
    pub fn to_id(&self) -> (s: String)
        ensures
            s@ == uri_id(*self),
    {
        match self {
            SpotifyUri::Album { id } => spotify_id_to_base62(*id),
            SpotifyUri::Artist { id } => spotify_id_to_base62(*id),
            SpotifyUri::Episode { id } => spotify_id_to_base62(*id),
            SpotifyUri::Playlist { id, .. } => spotify_id_to_base62(*id),
            SpotifyUri::Show { id } => spotify_id_to_base62(*id),
            SpotifyUri::Track { id } => spotify_id_to_base62(*id),
            SpotifyUri::Local { artist, album_title, track_title, duration_secs } => {
                let mut s = artist.clone();
                push_char(&mut s, ':');
                s.append(album_title.as_str());
                push_char(&mut s, ':');
                s.append(track_title.as_str());
                push_char(&mut s, ':');
                push_decimal(&mut s, *duration_secs);
                proof {
                    reveal_strlit(":");
                    assert(s@ =~= uri_id(*self));
                }
                s
            },
            SpotifyUri::Unknown { id, .. } => id.clone(),
        }
    }

    /// The canonical text of this URI.
    pub fn to_uri(&self) -> (s: String)
        ensures
            s@ == uri_text(*self),
    {
        let kind = self.item_type();
        let name = self.to_id();
        match self {
            SpotifyUri::Playlist { user: Some(user), id } => {
                let mut s = "spotify:user:".to_owned();
                s.append(user.as_str());
                push_char(&mut s, ':');
                s.append(kind);
                push_char(&mut s, ':');
                s.append(name.as_str());
                proof {
                    reveal_strlit(":");
                    assert(s@ =~= uri_text(*self));
                }
                s
            },
            _ => {
                let mut s = "spotify:".to_owned();
                s.append(kind);
                push_char(&mut s, ':');
                s.append(name.as_str());
                proof {
                    reveal_strlit(":");
                    assert(s@ =~= uri_text(*self));
                }
                s
            },
        }
    }
}

} // verus!
