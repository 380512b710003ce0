//! The answer to a search, and the URIs it names.

use vstd::prelude::*;

use crate::types::responses::{Page, Uri};

verus! {

/// The pages of a search answer, one per kind of item asked for; an item
/// the Web API could not describe is left out of its page as `None`.
#[derive(Debug, Clone, PartialEq, Eq)]
pub struct SearchResponse {
    pub tracks: Option<Page<Option<Uri>>>,
    pub artists: Option<Page<Option<Uri>>>,
    pub albums: Option<Page<Option<Uri>>>,
    pub playlists: Option<Page<Option<Uri>>>,
    pub shows: Option<Page<Option<Uri>>>,
    pub episodes: Option<Page<Option<Uri>>>,
    pub audiobooks: Option<Page<Option<Uri>>>,
}

/// The URIs of the described items of a list, in order.
pub open spec fn item_uris(items: Seq<Option<Uri>>) -> Seq<Seq<char>>
    decreases items.len(),
{
    if items.len() == 0 {
        Seq::empty()
    } else {
        item_uris(items.drop_last()) + match items.last() {
            Some(u) => seq![u.uri@],
            None => Seq::empty(),
        }
    }
}

/// The URIs of a page's described items, none where there is no page.
pub open spec fn page_uris(p: Option<Page<Option<Uri>>>) -> Seq<Seq<char>> {
    match p {
        Some(page) => item_uris(page.items@),
        None => Seq::empty(),
    }
}

/// Every URI of a search answer: tracks, artists, albums, playlists, shows,
/// episodes and audiobooks, each page in order.
pub open spec fn all_uris(r: SearchResponse) -> Seq<Seq<char>> {
    page_uris(r.tracks) + page_uris(r.artists) + page_uris(r.albums) + page_uris(r.playlists)
        + page_uris(r.shows) + page_uris(r.episodes) + page_uris(r.audiobooks)
}

/// The items of a page, none where there is no page.
pub open spec fn page_items(p: Option<Page<Option<Uri>>>) -> Seq<Option<Uri>> {
    match p {
        Some(page) => page.items@,
        None => Seq::empty(),
    }
}

/// How many items of a page are described.
pub open spec fn described_count(p: Option<Page<Option<Uri>>>) -> nat {
    page_items(p).filter(|o: Option<Uri>| o is Some).len()
}

/// `uris` holds the URI of every described item of the page `p`.
pub open spec fn names_every_item(uris: Seq<Seq<char>>, p: Option<Page<Option<Uri>>>) -> bool {
    forall|k: int| 0 <= k < page_items(p).len() && page_items(p)[k] is Some
        ==> uris.contains(page_items(p)[k]->Some_0.uri@)
}

/// `x` is the URI of a described item of the page `p`.
pub open spec fn named_by_page(x: Seq<char>, p: Option<Page<Option<Uri>>>) -> bool {
    exists|k: int| 0 <= k < page_items(p).len() && page_items(p)[k] is Some
        && page_items(p)[k]->Some_0.uri@ == x
}

proof fn lemma_item_uris_cover(items: Seq<Option<Uri>>)
    ensures
        item_uris(items).len() == items.filter(|o: Option<Uri>| o is Some).len(),
        forall|k: int| 0 <= k < items.len() && items[k] is Some
            ==> item_uris(items).contains(items[k]->Some_0.uri@),
        forall|x: Seq<char>| item_uris(items).contains(x) ==>
            exists|k: int| 0 <= k < items.len() && items[k] is Some && items[k]->Some_0.uri@ == x,
    decreases items.len(),
{
    reveal(Seq::filter);
    if items.len() > 0 {
        let init = items.drop_last();
        lemma_item_uris_cover(init);
        let pre = item_uris(init);
        let whole = item_uris(items);
        assert forall|k: int| 0 <= k < items.len() && items[k] is Some
            implies whole.contains(items[k]->Some_0.uri@) by {
            if k < items.len() - 1 {
                assert(init[k] == items[k]);
                let j = choose|j: int| 0 <= j < pre.len() && pre[j] == items[k]->Some_0.uri@;
                assert(whole[j] == pre[j]);
            } else {
                assert(whole[pre.len() as int] == items[k]->Some_0.uri@);
            }
        }
        assert forall|x: Seq<char>| whole.contains(x) implies
            exists|k: int| 0 <= k < items.len() && items[k] is Some && items[k]->Some_0.uri@ == x by {
            let j = choose|j: int| 0 <= j < whole.len() && whole[j] == x;
            if j < pre.len() {
                assert(pre[j] == x);
                assert(pre.contains(x));
                let k = choose|k: int| 0 <= k < init.len() && init[k] is Some && init[k]->Some_0.uri@ == x;
                assert(items[k] == init[k]);
            } else {
                assert(items[items.len() - 1] is Some);
            }
        }
    }
}

proof fn lemma_page_uris_cover(p: Option<Page<Option<Uri>>>)
    ensures
        page_uris(p).len() == described_count(p),
        names_every_item(page_uris(p), p),
        forall|x: Seq<char>| page_uris(p).contains(x) ==> named_by_page(x, p),
{
    reveal(Seq::filter);
    lemma_item_uris_cover(page_items(p));
    assert(page_uris(p) == item_uris(page_items(p)));
}

/// The URIs of a search answer, read kind after kind, name every described
/// item of each of its seven pages (tracks, artists, albums, playlists,
/// shows, episodes, audiobooks), name nothing else, and are as many as the
/// described items over all seven pages.
pub proof fn lemma_search_names_every_item(r: SearchResponse, uris: Seq<Seq<char>>)
    requires
        uris == all_uris(r),
    ensures
        names_every_item(uris, r.tracks),
        names_every_item(uris, r.artists),
        names_every_item(uris, r.albums),
        names_every_item(uris, r.playlists),
        names_every_item(uris, r.shows),
        names_every_item(uris, r.episodes),
        names_every_item(uris, r.audiobooks),
        forall|x: Seq<char>| uris.contains(x) ==> named_by_page(x, r.tracks) || named_by_page(x, r.artists)
            || named_by_page(x, r.albums) || named_by_page(x, r.playlists) || named_by_page(x, r.shows)
            || named_by_page(x, r.episodes) || named_by_page(x, r.audiobooks),
        uris.len() == described_count(r.tracks) + described_count(r.artists) + described_count(r.albums)
            + described_count(r.playlists) + described_count(r.shows) + described_count(r.episodes)
            + described_count(r.audiobooks),
{
    lemma_page_uris_cover(r.tracks);
    lemma_page_uris_cover(r.artists);
    lemma_page_uris_cover(r.albums);
    lemma_page_uris_cover(r.playlists);
    lemma_page_uris_cover(r.shows);
    lemma_page_uris_cover(r.episodes);
    lemma_page_uris_cover(r.audiobooks);
    let s = seq![page_uris(r.tracks), page_uris(r.artists), page_uris(r.albums), page_uris(r.playlists),
        page_uris(r.shows), page_uris(r.episodes), page_uris(r.audiobooks)];
    let ps = seq![r.tracks, r.artists, r.albums, r.playlists, r.shows, r.episodes, r.audiobooks];
    let a1 = s[0] + s[1];
    let a2 = a1 + s[2];
    let a3 = a2 + s[3];
    let a4 = a3 + s[4];
    let a5 = a4 + s[5];
    assert(uris == a5 + s[6]);
    assert forall|i: int, x: Seq<char>| 0 <= i < 7 && s[i].contains(x) implies uris.contains(x) by {
        let j = choose|j: int| 0 <= j < s[i].len() && s[i][j] == x;
        let off: int = if i == 0 { 0 } else if i == 1 { a1.len() - s[1].len() } else if i == 2 { a2.len() - s[2].len() }
            else if i == 3 { a3.len() - s[3].len() } else if i == 4 { a4.len() - s[4].len() }
            else if i == 5 { a5.len() - s[5].len() } else { uris.len() - s[6].len() };
        assert(uris[off + j] == x);
    }
    assert forall|x: Seq<char>| uris.contains(x) implies exists|i: int| 0 <= i < 7 && s[i].contains(x) by {
        let j = choose|j: int| 0 <= j < uris.len() && uris[j] == x;
        if j < s[0].len() {
            assert(s[0][j] == x);
        } else if j < a1.len() {
            assert(s[1][j - s[0].len()] == x);
        } else if j < a2.len() {
            assert(s[2][j - a1.len()] == x);
        } else if j < a3.len() {
            assert(s[3][j - a2.len()] == x);
        } else if j < a4.len() {
            assert(s[4][j - a3.len()] == x);
        } else if j < a5.len() {
            assert(s[5][j - a4.len()] == x);
        } else {
            assert(s[6][j - a5.len()] == x);
        }
    }
    assert forall|x: Seq<char>| uris.contains(x) implies named_by_page(x, r.tracks) || named_by_page(x, r.artists)
        || named_by_page(x, r.albums) || named_by_page(x, r.playlists) || named_by_page(x, r.shows)
        || named_by_page(x, r.episodes) || named_by_page(x, r.audiobooks) by {
        let i = choose|i: int| 0 <= i < 7 && s[i].contains(x);
        assert(s[i] == page_uris(ps[i]));
    }
}

fn push_page_uris(out: &mut Vec<String>, page: &Option<Page<Option<Uri>>>)
    ensures
        final(out)@.map_values(|s: String| s@) == old(out)@.map_values(|s: String| s@) + page_uris(*page),
{
    match page {
        Some(p) => {
            let ghost start = out@.map_values(|s: String| s@);
            let mut i: usize = 0;
            while i < p.items.len()
                invariant
                    i <= p.items.len(),
                    out@.map_values(|s: String| s@) == start + item_uris(p.items@.subrange(0, i as int)),
                decreases p.items.len() - i,
            {
                proof {
                    assert(p.items@.subrange(0, i + 1).drop_last() == p.items@.subrange(0, i as int));
                }
                match &p.items[i] {
                    Some(u) => {
                        let ghost before = out@;
                        out.push(u.uri.clone());
                        proof {
                            assert(out@.map_values(|s: String| s@) =~= before.map_values(|s: String| s@).push(u.uri@));
                        }
                    },
                    None => {},
                }
                i = i + 1;
            }
            proof {
                assert(p.items@.subrange(0, p.items@.len() as int) == p.items@);
            }
        },
        None => {
            proof {
                assert(out@.map_values(|s: String| s@) =~= out@.map_values(|s: String| s@) + page_uris(*page));
            }
        },
    }
}

/// Every URI that a search answer names, kind after kind.
pub fn extract_all_uris(parsed: &SearchResponse) -> (uris: Vec<String>)
    ensures
        uris@.map_values(|s: String| s@) == all_uris(*parsed),
{
    let mut out: Vec<String> = Vec::new();
    proof {
        assert(out@.map_values(|s: String| s@) =~= Seq::<Seq<char>>::empty());
    }
    push_page_uris(&mut out, &parsed.tracks);
    push_page_uris(&mut out, &parsed.artists);
    push_page_uris(&mut out, &parsed.albums);
    push_page_uris(&mut out, &parsed.playlists);
    push_page_uris(&mut out, &parsed.shows);
    push_page_uris(&mut out, &parsed.episodes);
    push_page_uris(&mut out, &parsed.audiobooks);
    proof {
        assert(out@.map_values(|s: String| s@) =~= all_uris(*parsed));
    }
    out
}

} // verus!
