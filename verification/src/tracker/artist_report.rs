//! Finding the MTGA artist names that have no counterpart among Scryfall's artists.

use vstd::prelude::*;
use vstd::seq_lib::lemma_seq_contains_after_push;
use crate::text::{concat_str, lowercase, str_equal, strings_view, lemma_strings_view_push};
use crate::tracker::artists::{artist_alias, map_lowercase_mtga_artist_name_to_scry};
use crate::tracker::cards::{MtgaCard, ScryCard};

verus! {

/// Whether one of the first `n` Scryfall printings has an artist whose lowercase name is `a`.
pub open spec fn scry_artist_among(scry: Seq<ScryCard>, n: int, a: Seq<char>) -> bool {
    exists|j: int| 0 <= j < n && #[trigger] scry[j].artist is Some && lowercase(scry[j].artist->0@) == a
}

/// Whether one of the first `n` MTGA cards has an artist whose lowercase name is `a`.
pub open spec fn mtga_artist_among(mtga: Seq<MtgaCard>, n: int, a: Seq<char>) -> bool {
    exists|i: int| 0 <= i < n && lowercase(#[trigger] mtga[i].artist@) == a
}

/// Whether `a`, the lowercase name of an artist among the first `n` MTGA cards, has no
/// counterpart among the Scryfall artists once mapped to Scryfall's spelling.
pub open spec fn unmapped_among(scry: Seq<ScryCard>, mtga: Seq<MtgaCard>, n: int, a: Seq<char>) -> bool {
    mtga_artist_among(mtga, n, a) && !scry_artist_among(scry, scry.len() as int, artist_alias(a))
}

/// The lowercase artist names of the Scryfall printings (with repeats).
fn scry_artist_names(scry: &[ScryCard]) -> (r: Vec<String>)
    ensures
        forall|a: Seq<char>| strings_view(r@).contains(a) <==> scry_artist_among(scry@, scry@.len() as int, a),
{
    let mut names: Vec<String> = Vec::new();
    let mut i: usize = 0;
    while i < scry.len()
        invariant
            i <= scry@.len(),
            forall|a: Seq<char>| strings_view(names@).contains(a) <==> scry_artist_among(scry@, i as int, a),
        decreases scry.len() - i,
    {
        let ghost before = names@;
        match scry[i].lowercase_artist() {
            Some(l) => {
                names.push(l);
                proof {
                    lemma_strings_view_push(before, l);
                    assert forall|a: Seq<char>| strings_view(names@).contains(a) <==> scry_artist_among(scry@, i + 1, a) by {
                        lemma_seq_contains_after_push(strings_view(before), l@, a);
                        if scry_artist_among(scry@, i + 1, a) && !scry_artist_among(scry@, i as int, a) {
                            let j = choose|j: int| 0 <= j < i + 1 && #[trigger] scry@[j].artist is Some && lowercase(scry@[j].artist->0@) == a;
                            assert(j == i);
                        }
                        if a == l@ {
                            assert(scry@[i as int].artist is Some && lowercase(scry@[i as int].artist->0@) == a);
                        }
                    }
                }
            },
            None => {
                proof {
                    assert forall|a: Seq<char>| strings_view(names@).contains(a) <==> scry_artist_among(scry@, i + 1, a) by {
                        if scry_artist_among(scry@, i + 1, a) {
                            let j = choose|j: int| 0 <= j < i + 1 && #[trigger] scry@[j].artist is Some && lowercase(scry@[j].artist->0@) == a;
                            assert(j != i);
                        }
                    }
                }
            },
        }
        i = i + 1;
    }
    names
}

/// Whether one of the strings is `s`.
fn contains_string(v: &Vec<String>, s: &str) -> (r: bool)
    ensures
        r == strings_view(v@).contains(s@),
{
    let mut k: usize = 0;
    while k < v.len()
        invariant
            k <= v@.len(),
            forall|j: int| 0 <= j < k ==> v@[j]@ != s@,
        decreases v.len() - k,
    {
        if str_equal(v[k].as_str(), s) {
            assert(strings_view(v@)[k as int] == s@);
            return true;
        }
        k = k + 1;
    }
    proof {
        if strings_view(v@).contains(s@) {
            let j = choose|j: int| 0 <= j < strings_view(v@).len() && strings_view(v@)[j] == s@;
            assert(v@[j]@ == s@);
        }
    }
    false
}

/// The lowercase artist names of the MTGA cards that have no counterpart among the Scryfall
/// artists once mapped to Scryfall's spelling: each such name once, and no other.
pub fn unmapped_artists(scry_cards: &[ScryCard], mtga_cards: &[MtgaCard]) -> (r: Vec<String>)
    ensures
        strings_view(r@).no_duplicates(),
        forall|a: Seq<char>|
            strings_view(r@).contains(a) <==> unmapped_among(scry_cards@, mtga_cards@, mtga_cards@.len() as int, a),
{
    let scry_names = scry_artist_names(scry_cards);
    let mut missing: Vec<String> = Vec::new();
    let mut i: usize = 0;
    while i < mtga_cards.len()
        invariant
            i <= mtga_cards@.len(),
            forall|a: Seq<char>|
                strings_view(scry_names@).contains(a) <==> scry_artist_among(scry_cards@, scry_cards@.len() as int, a),
            strings_view(missing@).no_duplicates(),
            forall|a: Seq<char>|
                strings_view(missing@).contains(a) <==> unmapped_among(scry_cards@, mtga_cards@, i as int, a),
        decreases mtga_cards.len() - i,
    {
        let artist = mtga_cards[i].lowercase_artist();
        let alias = map_lowercase_mtga_artist_name_to_scry(artist.as_str());
        let mapped = contains_string(&scry_names, alias);
        let ghost before = missing@;
        let seen = contains_string(&missing, artist.as_str());
        if !mapped && !seen {
            missing.push(artist);
            proof {
                lemma_strings_view_push(before, artist);
            }
        }
        proof {
            assert(mtga_cards@[i as int].artist@ == mtga_cards@[i as int].artist@);
            assert forall|a: Seq<char>|
                strings_view(missing@).contains(a) <==> unmapped_among(scry_cards@, mtga_cards@, i + 1, a) by {
                if !mapped && !seen {
                    lemma_seq_contains_after_push(strings_view(before), artist@, a);
                }
                if mtga_artist_among(mtga_cards@, i + 1, a) && !mtga_artist_among(mtga_cards@, i as int, a) {
                    let j = choose|j: int| 0 <= j < i + 1 && lowercase(#[trigger] mtga_cards@[j].artist@) == a;
                    assert(j == i);
                }
                if a == artist@ {
                    assert(lowercase(mtga_cards@[i as int].artist@) == a);
                }
                if mtga_artist_among(mtga_cards@, i as int, a) {
                    let j = choose|j: int| 0 <= j < i && lowercase(#[trigger] mtga_cards@[j].artist@) == a;
                    assert(0 <= j < i + 1 && lowercase(mtga_cards@[j].artist@) == a);
                }
            }
            if !mapped && !seen {
                assert(strings_view(missing@).no_duplicates()) by {
                    assert forall|x: int, y: int|
                        0 <= x < strings_view(missing@).len() && 0 <= y < strings_view(missing@).len() && x != y
                        implies strings_view(missing@)[x] != strings_view(missing@)[y] by {
                        if x == before.len() as int {
                            assert(strings_view(before)[y] == strings_view(missing@)[y]);
                        } else if y == before.len() as int {
                            assert(strings_view(before)[x] == strings_view(missing@)[x]);
                        } else {
                            assert(strings_view(before)[x] == strings_view(missing@)[x]);
                            assert(strings_view(before)[y] == strings_view(missing@)[y]);
                        }
                    }
                }
            }
        }
        i = i + 1;
    }
    missing
}

/// The line that reports an artist without a counterpart.
pub fn mapping_error_line(artist: &str) -> (r: String)
    ensures
        r@ == "Could not find a mapping for '"@ + artist@ + "' in the scry_db"@,
{
    let head = concat_str("Could not find a mapping for '", artist);
    concat_str(head.as_str(), "' in the scry_db")
}

} // verus!
