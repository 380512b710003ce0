use outify_core::metadata::uri::SpotifyUri;
use outify_core::text::{i32_to_string, join_strings, to_hex_lower, u64_to_string};

#[test]
fn hex_renders_two_lower_case_digits_per_byte() {
    assert_eq!(to_hex_lower(&[0x00, 0x0f, 0xab, 0xff]), "000fabff");
    assert_eq!(to_hex_lower(&[]), "");
}

#[test]
fn hex_of_different_bytes_differs() {
    assert_ne!(to_hex_lower(&[0x01, 0x23]), to_hex_lower(&[0x12, 0x03]));
    assert_eq!(to_hex_lower(&[0x01, 0x23]).len(), 4);
}

#[test]
fn decimal_numerals() {
    assert_eq!(u64_to_string(0), "0");
    assert_eq!(u64_to_string(127), "127");
    assert_eq!(u64_to_string(u64::MAX), u64::MAX.to_string());
    assert_eq!(i32_to_string(-45), "-45");
    assert_eq!(i32_to_string(i32::MIN), "-2147483648");
    assert_eq!(i32_to_string(50), "50");
}

#[test]
fn join_puts_separator_between_neighbours() {
    let parts = vec!["a".to_string(), "b".to_string(), "c".to_string()];
    assert_eq!(join_strings(&parts, ","), "a,b,c");
    assert_eq!(join_strings(&vec!["only".to_string()], ","), "only");
    assert_eq!(join_strings(&Vec::new(), ","), "");
}

#[test]
fn track_uri_renders_through_librespot_base62() {
    let u = SpotifyUri::Track { id: 238762092608182713602505436543891614649 };
    assert_eq!(u.to_id(), "5sWHDYs0csV6RS48xBl0tH");
    assert_eq!(u.to_uri(), "spotify:track:5sWHDYs0csV6RS48xBl0tH");
    assert_eq!(u.item_type(), "track");
}

#[test]
fn small_ids_are_zero_padded_to_22_digits() {
    let u = SpotifyUri::Album { id: 61 };
    assert_eq!(u.to_id(), "000000000000000000000Z");
    assert_eq!(SpotifyUri::Episode { id: 0 }.to_uri(), "spotify:episode:0000000000000000000000");
}

#[test]
fn playlist_with_user_names_the_user() {
    let id = librespot_core::SpotifyId::from_base62("37i9dQZF1DWSw8liJZcPOI").unwrap().id;
    let u = SpotifyUri::Playlist { user: Some("spotify".to_string()), id };
    assert_eq!(u.to_uri(), "spotify:user:spotify:playlist:37i9dQZF1DWSw8liJZcPOI");
    assert_eq!(u.to_id(), "37i9dQZF1DWSw8liJZcPOI");
    let plain = SpotifyUri::Playlist { user: None, id };
    assert_eq!(plain.to_uri(), "spotify:playlist:37i9dQZF1DWSw8liJZcPOI");
}

#[test]
fn local_and_unknown_uris() {
    let local = SpotifyUri::Local {
        artist: "David+Wise".to_string(),
        album_title: "Tropical".to_string(),
        track_title: "Snomads+Island".to_string(),
        duration_secs: 127,
    };
    assert_eq!(local.to_id(), "David+Wise:Tropical:Snomads+Island:127");
    assert_eq!(local.to_uri(), "spotify:local:David+Wise:Tropical:Snomads+Island:127");
    let unknown = SpotifyUri::Unknown { kind: "arbitrary".to_string(), id: "xyz".to_string() };
    assert_eq!(unknown.to_id(), "xyz");
    assert_eq!(unknown.to_uri(), "spotify:unknown:xyz");
}

#[test]
fn id_texts_tell_ids_apart() {
    let a = SpotifyUri::Track { id: u128::MAX }.to_id();
    let b = SpotifyUri::Track { id: u128::MAX - 1 }.to_id();
    assert_eq!(a.len(), 22);
    assert_ne!(a, b);
    assert_eq!(a, librespot_core::SpotifyId { id: u128::MAX }.to_base62().unwrap());
}
