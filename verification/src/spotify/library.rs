use vstd::prelude::*;

use crate::spotify::error::SpotifyApiError;


verus! {

/// The kinds of items a user can save in the library.
#[derive(Debug, Clone, Copy, PartialEq, Eq)]
pub enum SavedItemType {
    Tracks,
    Albums,
}

/// The path segment naming a kind of saved item.
pub open spec fn saved_item_name(t: SavedItemType) -> Seq<char> {
    match t {
        SavedItemType::Tracks => seq!['t', 'r', 'a', 'c', 'k', 's'],
        SavedItemType::Albums => seq!['a', 'l', 'b', 'u', 'm', 's'],
    }
}

/// The kind of saved item a path segment names, if any.
pub open spec fn parse_saved_item(s: Seq<char>) -> Option<SavedItemType> {
    if s == saved_item_name(SavedItemType::Tracks) {
        Some(SavedItemType::Tracks)
    } else if s == saved_item_name(SavedItemType::Albums) {
        Some(SavedItemType::Albums)
    } else {
        None
    }
}

/// The message of the error for a name that is no kind of saved item.
pub open spec fn invalid_saved_item_message(s: Seq<char>) -> Seq<char> {
    "Invalid SavedItemType: "@ + s
}

impl SavedItemType {
    /// The path segment of this kind: `tracks` or `albums`.
    pub fn as_str(&self) -> (s: &'static str)
        ensures
            s@ == saved_item_name(*self),
    {
        match self {
            SavedItemType::Tracks => {
                let s = "tracks";
                proof {
                    reveal_strlit("tracks");
                }
                s
            },
            SavedItemType::Albums => {
                let s = "albums";
                proof {
                    reveal_strlit("albums");
                }
                s
            },
        }
    }

    /// Reads a kind from its path segment; any other text is refused.
    pub fn parse(s: &str) -> (r: Result<SavedItemType, SpotifyApiError>)
        ensures
            match parse_saved_item(s@) {
                Some(t) => r == Ok::<SavedItemType, SpotifyApiError>(t),
                None => r matches Err(SpotifyApiError::Generic(m)) && m@ == invalid_saved_item_message(s@),
            },
    {
        let tracks = SavedItemType::Tracks.as_str();
        let albums = SavedItemType::Albums.as_str();
        if str_eq(s, tracks) {
            Ok(SavedItemType::Tracks)
        } else if str_eq(s, albums) {
            Ok(SavedItemType::Albums)
        } else {
            let mut m = "Invalid SavedItemType: ".to_owned();
            m.append(s);
            proof {
                reveal_strlit("Invalid SavedItemType: ");
            }
            Err(SpotifyApiError::Generic(m))
        }
    }
}

impl std::str::FromStr for SavedItemType {
    type Err = SpotifyApiError;

    /// Reads a kind from its path segment, as `SavedItemType::parse` does.
    fn from_str(s: &str) -> (r: Result<SavedItemType, SpotifyApiError>)
        ensures
            match parse_saved_item(s@) {
                Some(t) => r == Ok::<SavedItemType, SpotifyApiError>(t),
                None => r matches Err(SpotifyApiError::Generic(m)) && m@ == invalid_saved_item_message(s@),
            },
    {
        SavedItemType::parse(s)
    }
}

/// Naming a kind and reading the name back gives the kind again, and a
/// name that is read as a kind is that kind's name: the two are inverse.
pub proof fn lemma_saved_item_names_round_trip(t: SavedItemType, s: Seq<char>)
    ensures
        parse_saved_item(saved_item_name(t)) == Some(t),
        parse_saved_item(s) == Some(t) ==> saved_item_name(t) == s,
{
    assert(saved_item_name(SavedItemType::Tracks)[0] != saved_item_name(SavedItemType::Albums)[0]);
}

/// Compares two strings character by character.
pub fn str_eq(a: &str, b: &str) -> (r: bool)
    ensures
        r == (a@ == b@),
{
    let n = a.unicode_len();
    if n != b.unicode_len() {
        return false;
    }
    let mut i: usize = 0;
    while i < n
        invariant
            n == a@.len(),
            n == b@.len(),
            i <= n,
            forall|j: int| 0 <= j < i ==> a@[j] == b@[j],
        decreases n - i,
    {
        if a.get_char(i) != b.get_char(i) {
            return false;
        }
        i = i + 1;
    }
    proof {
        assert(a@ =~= b@);
    }
    true
}

} // verus!
