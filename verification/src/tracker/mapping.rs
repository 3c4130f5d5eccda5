//! Matching the cards of the MTGA client's database with Scryfall's printings.

use vstd::prelude::*;
use crate::text::{chars_of, chars_equal, lowercase, str_equal};
use crate::tracker::artists::{artist_alias, map_lowercase_mtga_artist_name_to_scry};
use crate::tracker::cards::{mtga_card_name, strings_contain, try_get_mtga_card_name, MtgaCard, ScryCard};
use std::collections::HashMap;
use crate::tracker::search::{
    indices_where, same_indices, lemma_indices_where_bounds, lemma_indices_where_complete,
    lemma_indices_where_increasing,
};

verus! {

/// What looking up the Scryfall printing of an MTGA card gives: the index of the printing,
/// nothing, or an abort (the lookup is ambiguous or the data is inconsistent).
#[derive(Debug, Clone, Copy, PartialEq, Eq, Structural)]
pub enum ScryLookup {
    Found(usize),
    NotFound,
    Aborted,
}

/// The number of bytes of the UTF-8 encoding of `c`.
pub open spec fn utf8_width(c: char) -> nat {
    if (c as u32) < 0x80 {
        1
    } else if (c as u32) < 0x800 {
        2
    } else if (c as u32) < 0x10000 {
        3
    } else {
        4
    }
}

/// The text after its first two bytes, as `&s[2..]` gives it; `None` when that slice would
/// panic (the text is shorter, or byte 2 is inside a character).
pub open spec fn skip_two_bytes(s: Seq<char>) -> Option<Seq<char>> {
    if s.len() >= 1 && utf8_width(s[0]) == 2 {
        Some(s.skip(1))
    } else if s.len() >= 2 && utf8_width(s[0]) == 1 && utf8_width(s[1]) == 1 {
        Some(s.skip(2))
    } else {
        None
    }
}

/// The printing has the card's set and collector number.
pub open spec fn same_print(s: ScryCard, m: MtgaCard) -> bool {
    s.set@ == m.set@ && s.collector_number@ == m.collector_number@
}

/// The printing's artist is the card's artist, once the name is written the Scryfall way.
pub open spec fn same_artist(s: ScryCard, m: MtgaCard) -> bool {
    s.artist matches Some(a) && lowercase(a@) == artist_alias(lowercase(m.artist@))
}

pub open spec fn same_print_pred(scry: Seq<ScryCard>, m: MtgaCard) -> spec_fn(int) -> bool {
    |j: int| same_print(scry[j], m)
}

pub open spec fn english_print_pred(scry: Seq<ScryCard>, m: MtgaCard) -> spec_fn(int) -> bool {
    |j: int| same_print(scry[j], m) && scry[j].lang@ == "en"@
}

pub open spec fn same_set_pred(scry: Seq<ScryCard>, m: MtgaCard, name: Seq<char>) -> spec_fn(int) -> bool {
    |j: int| lowercase(scry[j].name@) == name && scry[j].set@ == m.set@
}

pub open spec fn same_artist_pred(scry: Seq<ScryCard>, m: MtgaCard, name: Seq<char>) -> spec_fn(int) -> bool {
    |j: int| name == lowercase(scry[j].name@) && same_artist(scry[j], m)
}

/// Whether the client's database holds a card with the id `arena_id`.
pub open spec fn has_arena_id(mtga: Seq<MtgaCard>, arena_id: u32) -> bool {
    exists|k: int| 0 <= k < mtga.len() && #[trigger] mtga[k].arena_id == arena_id
}

/// First try: the printing with the card's set and collector number. A single such printing
/// is taken when its name is the card's name, or when it points at another card of the client
/// and its name without the two-character alchemy prefix is the card's name. Several such
/// printings: the English one. `None`: go on with the next try.
pub open spec fn step_same_print(mtga: Seq<MtgaCard>, scry: Seq<ScryCard>, m: MtgaCard, name: Seq<char>) -> Option<ScryLookup> {
    let r1 = indices_where(scry.len() as int, same_print_pred(scry, m));
    if r1.len() == 0 {
        None
    } else if r1.len() == 1 {
        let s = scry[r1[0]];
        let different = s.arena_id matches Some(id) && id != m.arena_id;
        if different && !has_arena_id(mtga, s.arena_id->0) {
            Some(ScryLookup::Aborted)
        } else if name == lowercase(s.name@) {
            Some(ScryLookup::Found(r1[0] as usize))
        } else if different {
            match skip_two_bytes(lowercase(s.name@)) {
                None => Some(ScryLookup::Aborted),
                Some(t) => if name == t {
                    Some(ScryLookup::Found(r1[0] as usize))
                } else {
                    None
                },
            }
        } else {
            None
        }
    } else {
        let en = indices_where(scry.len() as int, english_print_pred(scry, m));
        if en.len() == 1 {
            Some(ScryLookup::Found(en[0] as usize))
        } else {
            Some(ScryLookup::Aborted)
        }
    }
}

/// A single lookup result is taken, several abort, none go on.
pub open spec fn single_or_abort(r: Seq<int>) -> Option<ScryLookup> {
    if r.len() == 0 {
        None
    } else if r.len() == 1 {
        Some(ScryLookup::Found(r[0] as usize))
    } else {
        Some(ScryLookup::Aborted)
    }
}

/// Second try: the printing of the same name in the card's set, whatever its collector
/// number (digital varieties have inconsistent collector numbers).
pub open spec fn step_same_set(scry: Seq<ScryCard>, m: MtgaCard, name: Seq<char>) -> Option<ScryLookup> {
    single_or_abort(indices_where(scry.len() as int, same_set_pred(scry, m, name)))
}

/// Last resort, tried once: the printing of the same name and artist in any set.
pub open spec fn step_last_resort(scry: Seq<ScryCard>, m: MtgaCard, name: Seq<char>, was_last_resort: bool) -> Option<ScryLookup> {
    if was_last_resort {
        None
    } else {
        single_or_abort(indices_where(scry.len() as int, same_artist_pred(scry, m, name)))
    }
}

/// The Scryfall printing of an MTGA card.
pub open spec fn scry_lookup(mtga: Seq<MtgaCard>, scry: Seq<ScryCard>, m: MtgaCard, was_last_resort: bool) -> ScryLookup {
    match mtga_card_name(mtga, m) {
        None => ScryLookup::Aborted,
        Some(name) => match step_same_print(mtga, scry, m, name) {
            Some(r) => r,
            None => match step_same_set(scry, m, name) {
                Some(r) => r,
                None => match step_last_resort(scry, m, name, was_last_resort) {
                    Some(r) => r,
                    None => ScryLookup::NotFound,
                },
            },
        },
    }
}

fn same_print_indices(scry: &[ScryCard], m: &MtgaCard) -> (r: Vec<usize>)
    ensures
        same_indices(r@, indices_where(scry@.len() as int, same_print_pred(scry@, *m))),
{
    let ghost p = same_print_pred(scry@, *m);
    let mut r: Vec<usize> = Vec::new();
    let mut j: usize = 0;
    while j < scry.len()
        invariant
            j <= scry@.len(),
            p == same_print_pred(scry@, *m),
            same_indices(r@, indices_where(j as int, p)),
        decreases scry.len() - j,
    {
        if str_equal(scry[j].set(), m.set()) && str_equal(
            scry[j].collector_number(),
            m.collector_number(),
        ) {
            r.push(j);
        }
        j = j + 1;
    }
    r
}

fn english_print_indices(scry: &[ScryCard], m: &MtgaCard) -> (r: Vec<usize>)
    ensures
        same_indices(r@, indices_where(scry@.len() as int, english_print_pred(scry@, *m))),
{
    let ghost p = english_print_pred(scry@, *m);
    let mut r: Vec<usize> = Vec::new();
    let mut j: usize = 0;
    while j < scry.len()
        invariant
            j <= scry@.len(),
            p == english_print_pred(scry@, *m),
            same_indices(r@, indices_where(j as int, p)),
        decreases scry.len() - j,
    {
        if str_equal(scry[j].set(), m.set()) && str_equal(
            scry[j].collector_number(),
            m.collector_number(),
        ) && str_equal(scry[j].lang(), "en") {
            r.push(j);
        }
        j = j + 1;
    }
    r
}

fn same_set_indices(scry: &[ScryCard], m: &MtgaCard, name: &str) -> (r: Vec<usize>)
    ensures
        same_indices(r@, indices_where(scry@.len() as int, same_set_pred(scry@, *m, name@))),
{
    let ghost p = same_set_pred(scry@, *m, name@);
    let mut r: Vec<usize> = Vec::new();
    let mut j: usize = 0;
    while j < scry.len()
        invariant
            j <= scry@.len(),
            p == same_set_pred(scry@, *m, name@),
            same_indices(r@, indices_where(j as int, p)),
        decreases scry.len() - j,
    {
        let lname = scry[j].lowercase_name();
        if str_equal(lname.as_str(), name) && str_equal(scry[j].set(), m.set()) {
            r.push(j);
        }
        j = j + 1;
    }
    r
}

fn same_artist_indices(scry: &[ScryCard], m: &MtgaCard, name: &str) -> (r: Vec<usize>)
    ensures
        same_indices(r@, indices_where(scry@.len() as int, same_artist_pred(scry@, *m, name@))),
{
    let ghost p = same_artist_pred(scry@, *m, name@);
    let mtga_artist = m.lowercase_artist();
    let alias = map_lowercase_mtga_artist_name_to_scry(mtga_artist.as_str());
    let mut r: Vec<usize> = Vec::new();
    let mut j: usize = 0;
    while j < scry.len()
        invariant
            j <= scry@.len(),
            p == same_artist_pred(scry@, *m, name@),
            alias@ == artist_alias(lowercase(m.artist@)),
            same_indices(r@, indices_where(j as int, p)),
        decreases scry.len() - j,
    {
        let lname = scry[j].lowercase_name();
        if str_equal(name, lname.as_str()) {
            match scry[j].lowercase_artist() {
                Some(a) => {
                    if str_equal(a.as_str(), alias) {
                        r.push(j);
                    }
                },
                None => {},
            }
        }
        j = j + 1;
    }
    r
}

fn has_card_with_id(mtga: &[MtgaCard], arena_id: u32) -> (r: bool)
    ensures
        r == has_arena_id(mtga@, arena_id),
{
    let mut k: usize = 0;
    while k < mtga.len()
        invariant
            k <= mtga@.len(),
            forall|i: int| 0 <= i < k ==> #[trigger] mtga@[i].arena_id != arena_id,
        decreases mtga.len() - k,
    {
        if mtga[k].arena_id() == arena_id {
            return true;
        }
        k = k + 1;
    }
    false
}

/// `&s[2..]` on the characters of `s`.
fn skip_two_bytes_exec(s: &[char]) -> (r: Option<Vec<char>>)
    ensures
        match r {
            Some(t) => skip_two_bytes(s@) == Some(t@),
            None => skip_two_bytes(s@) is None,
        },
{
    let from: usize = if s.len() >= 1 && (s[0] as u32) >= 0x80 && (s[0] as u32) < 0x800 {
        1
    } else if s.len() >= 2 && (s[0] as u32) < 0x80 && (s[1] as u32) < 0x80 {
        2
    } else {
        return None;
    };
    let mut t: Vec<char> = Vec::new();
    let mut i: usize = from;
    while i < s.len()
        invariant
            from <= i <= s@.len(),
            t@ == s@.subrange(from as int, i as int),
        decreases s.len() - i,
    {
        t.push(s[i]);
        i = i + 1;
        assert(t@ =~= s@.subrange(from as int, i as int));
    }
    assert(t@ =~= s@.skip(from as int));
    Some(t)
}

fn single_or_abort_exec(r: &Vec<usize>, Ghost(spec_r): Ghost<Seq<int>>) -> (out: Option<ScryLookup>)
    requires
        same_indices(r@, spec_r),
    ensures
        out == single_or_abort(spec_r),
{
    if r.len() == 0 {
        None
    } else if r.len() == 1 {
        Some(ScryLookup::Found(r[0]))
    } else {
        Some(ScryLookup::Aborted)
    }
}

/// Looks up the Scryfall printing of an MTGA card: first by set and collector number, then by
/// name in the card's set, and at last (when `was_last_resort` is false) by name and artist in
/// any set.
pub fn lookup_scry_card(
    mtga_cards_db: &[MtgaCard],
    scry_cards_db: &[ScryCard],
    mtga_card: &MtgaCard,
    was_last_resort: bool,
) -> (r: ScryLookup)
    ensures
        r == scry_lookup(mtga_cards_db@, scry_cards_db@, *mtga_card, was_last_resort),
        r matches ScryLookup::Found(i) ==> i < scry_cards_db@.len(),
{
    let ghost mtga = mtga_cards_db@;
    let ghost scry = scry_cards_db@;
    let ghost m = *mtga_card;
    let name = match try_get_mtga_card_name(mtga_cards_db, mtga_card) {
        Some(n) => n,
        None => return ScryLookup::Aborted,
    };
    let ghost sname = name@;
    // First try: same set and collector number.
    let r1 = same_print_indices(scry_cards_db, mtga_card);
    proof {
        lemma_indices_where_bounds(scry.len() as int, same_print_pred(scry, m));
        lemma_indices_where_bounds(scry.len() as int, english_print_pred(scry, m));
        lemma_indices_where_bounds(scry.len() as int, same_set_pred(scry, m, sname));
        lemma_indices_where_bounds(scry.len() as int, same_artist_pred(scry, m, sname));
    }
    let ghost step1 = step_same_print(mtga, scry, m, sname);
    let first: Option<ScryLookup> = if r1.len() == 0 {
        None
    } else if r1.len() == 1 {
        let i = r1[0];
        let s = &scry_cards_db[i];
        let different = match s.arena_id() {
            Some(id) => id != mtga_card.arena_id(),
            None => false,
        };
        if different && !has_card_with_id(mtga_cards_db, s.arena_id.unwrap()) {
            Some(ScryLookup::Aborted)
        } else {
            let lname = s.lowercase_name();
            if str_equal(name.as_str(), lname.as_str()) {
                Some(ScryLookup::Found(i))
            } else if different {
                let lchars = chars_of(lname.as_str());
                match skip_two_bytes_exec(lchars.as_slice()) {
                    None => Some(ScryLookup::Aborted),
                    Some(t) => {
                        let nchars = chars_of(name.as_str());
                        if chars_equal(nchars.as_slice(), t.as_slice()) {
                            Some(ScryLookup::Found(i))
                        } else {
                            None
                        }
                    },
                }
            } else {
                None
            }
        }
    } else {
        let en = english_print_indices(scry_cards_db, mtga_card);
        if en.len() == 1 {
            Some(ScryLookup::Found(en[0]))
        } else {
            Some(ScryLookup::Aborted)
        }
    };
    assert(first == step1);
    if let Some(found) = first {
        return found;
    }
    // Second try: same name in the same set.
    let r2 = same_set_indices(scry_cards_db, mtga_card, name.as_str());
    let second = single_or_abort_exec(&r2, Ghost(indices_where(scry.len() as int, same_set_pred(scry, m, sname))));
    if let Some(found) = second {
        return found;
    }
    // Last resort: same name and artist in any set.
    if !was_last_resort {
        let r3 = same_artist_indices(scry_cards_db, mtga_card, name.as_str());
        let third = single_or_abort_exec(&r3, Ghost(indices_where(scry.len() as int, same_artist_pred(scry, m, sname))));
        if let Some(found) = third {
            return found;
        }
    }
    ScryLookup::NotFound
}

/// The printing `s` has the card's set and collector number.
pub open spec fn prints_same(s: ScryCard, m: MtgaCard) -> bool {
    s.set@ == m.set@ && s.collector_number@ == m.collector_number@
}

/// When two or more Scryfall printings have the card's set and collector number, the lookup
/// settles on the English one: it finds a printing only if that printing is English and has
/// the card's set and number, it finds one exactly when the card has a name and a single such
/// English printing exists, and otherwise it aborts.
pub proof fn lemma_shared_print_takes_the_english_one(
    mtga: Seq<MtgaCard>,
    scry: Seq<ScryCard>,
    m: MtgaCard,
    was_last_resort: bool,
)
    requires
        scry.len() <= usize::MAX,
        exists|a: int, b: int|
            0 <= a < b < scry.len() && #[trigger] prints_same(scry[a], m) && #[trigger] prints_same(
                scry[b],
                m,
            ),
    ensures
        scry_lookup(mtga, scry, m, was_last_resort) is Found || scry_lookup(mtga, scry, m, was_last_resort) is Aborted,
        scry_lookup(mtga, scry, m, was_last_resort) matches ScryLookup::Found(i) ==> {
            &&& i < scry.len()
            &&& prints_same(scry[i as int], m)
            &&& scry[i as int].lang@ == "en"@
        },
        scry_lookup(mtga, scry, m, was_last_resort) is Found <==> {
            &&& mtga_card_name(mtga, m) is Some
            &&& exists|i: int|
                0 <= i < scry.len() && prints_same(scry[i], m) && scry[i].lang@ == "en"@ && forall|j: int|
                    0 <= j < scry.len() && prints_same(scry[j], m) && scry[j].lang@ == "en"@ ==> j == i
        },
{
    let (a, b) = choose|a: int, b: int|
        0 <= a < b < scry.len() && #[trigger] prints_same(scry[a], m) && #[trigger] prints_same(scry[b], m);
    let n = scry.len() as int;
    let p1 = same_print_pred(scry, m);
    let pe = english_print_pred(scry, m);
    let r1 = indices_where(n, p1);
    let en = indices_where(n, pe);
    lemma_indices_where_bounds(n, p1);
    lemma_indices_where_bounds(n, pe);
    lemma_indices_where_complete(n, p1, a);
    lemma_indices_where_complete(n, p1, b);
    lemma_indices_where_increasing(n, p1);
    lemma_indices_where_increasing(n, pe);
    let ka = choose|k: int| 0 <= k < r1.len() && #[trigger] r1[k] == a;
    let kb = choose|k: int| 0 <= k < r1.len() && #[trigger] r1[k] == b;
    assert(ka != kb);
    assert(r1.len() >= 2);
    let unique = exists|i: int|
        0 <= i < scry.len() && prints_same(scry[i], m) && scry[i].lang@ == "en"@ && forall|j: int|
            0 <= j < scry.len() && prints_same(scry[j], m) && scry[j].lang@ == "en"@ ==> j == i;
    if en.len() == 1 {
        let i = en[0];
        assert(pe(i));
        assert(0 <= i < n);
        assert((i as usize) as int == i);
        assert forall|j: int| 0 <= j < scry.len() && prints_same(scry[j], m) && scry[j].lang@ == "en"@ implies j == i by {
            assert(pe(j));
            lemma_indices_where_complete(n, pe, j);
            let k = choose|k: int| 0 <= k < en.len() && #[trigger] en[k] == j;
        }
        assert(unique);
    } else {
        if unique {
            let i = choose|i: int|
                0 <= i < scry.len() && prints_same(scry[i], m) && scry[i].lang@ == "en"@ && forall|j: int|
                    0 <= j < scry.len() && prints_same(scry[j], m) && scry[j].lang@ == "en"@ ==> j == i;
            assert(pe(i));
            lemma_indices_where_complete(n, pe, i);
            assert(en.len() >= 2);
            assert(pe(en[0]) && pe(en[1]));
            assert(en[0] < en[1]);
        }
        assert(!unique);
    }
}

/// The Scryfall printing of an MTGA card, or `None` when it cannot be found. The lookup must
/// not abort: see `lookup_scry_card`, which tells when it does.
pub fn get_scry_card_for_mtga_card<'a>(
    mtga_cards_db: &'a [MtgaCard],
    scry_cards_db: &'a [ScryCard],
    mtga_card: &'a MtgaCard,
    was_last_resort: bool,
) -> (r: Option<&'a ScryCard>)
    requires
        scry_lookup(mtga_cards_db@, scry_cards_db@, *mtga_card, was_last_resort) != ScryLookup::Aborted,
    ensures
        match scry_lookup(mtga_cards_db@, scry_cards_db@, *mtga_card, was_last_resort) {
            ScryLookup::Found(i) => r == Some(&scry_cards_db@[i as int]),
            _ => r is None,
        },
{
    match lookup_scry_card(mtga_cards_db, scry_cards_db, mtga_card, was_last_resort) {
        ScryLookup::Found(i) => Some(&scry_cards_db[i]),
        _ => None,
    }
}


/// The printing matches the card directly: it has the card's id, the card's name, is
/// available on Arena and has the card's artist.
pub open spec fn direct_pred(scry: Seq<ScryCard>, m: MtgaCard, name: Seq<char>) -> spec_fn(int) -> bool {
    |j: int|
        scry[j].arena_id == Some(m.arena_id) && name == lowercase(scry[j].name@) && strings_contain(
            scry[j].games@,
            "arena"@,
        ) && same_artist(scry[j], m)
}

/// Whether a printing has the card id `arena_id`.
pub open spec fn has_scry_with_id(scry: Seq<ScryCard>, arena_id: u32) -> bool {
    exists|j: int| 0 <= j < scry.len() && #[trigger] scry[j].arena_id == Some(arena_id)
}

/// The mapping from card ids to the pair (MTGA card index, Scryfall printing index).
pub type CardMap = Map<u32, (usize, usize)>;

/// The direct matching of card `i`, on top of the mapping `acc`: no candidate leaves `acc` as
/// it is, a single one is mapped, several abort; the card's name is needed (and must be
/// known) only when some printing has its id.
pub open spec fn direct_step(mtga: Seq<MtgaCard>, scry: Seq<ScryCard>, i: int, acc: CardMap) -> Option<CardMap> {
    let m = mtga[i];
    if has_scry_with_id(scry, m.arena_id) {
        match mtga_card_name(mtga, m) {
            None => None,
            Some(name) => {
                let c = indices_where(scry.len() as int, direct_pred(scry, m, name));
                if c.len() == 0 {
                    Some(acc)
                } else if c.len() == 1 {
                    Some(acc.insert(m.arena_id, (i as usize, c[0] as usize)))
                } else {
                    None
                }
            },
        }
    } else {
        Some(acc)
    }
}

/// The direct matching of the first `n` cards, in order (`None`: aborted).
pub open spec fn direct_mapping(mtga: Seq<MtgaCard>, scry: Seq<ScryCard>, n: int) -> Option<CardMap>
    decreases n,
{
    if n <= 0 {
        Some(Map::empty())
    } else {
        match direct_mapping(mtga, scry, n - 1) {
            None => None,
            Some(acc) => direct_step(mtga, scry, n - 1, acc),
        }
    }
}

/// Once the direct matching aborts, it stays aborted.
proof fn lemma_direct_abort_persists(mtga: Seq<MtgaCard>, scry: Seq<ScryCard>, i: int, n: int)
    requires
        0 <= i <= n,
        direct_mapping(mtga, scry, i) is None,
    ensures
        direct_mapping(mtga, scry, n) is None,
    decreases n - i,
{
    if i < n {
        lemma_direct_abort_persists(mtga, scry, i, n - 1);
    }
}

/// The collectible cards that the direct matching left unmapped.
pub open spec fn unmapped_collectible_pred(mtga: Seq<MtgaCard>, mapped: CardMap) -> spec_fn(int) -> bool {
    |i: int| mtga[i].is_collectible && !mapped.contains_key(mtga[i].arena_id)
}

/// Resolving card `i` by a lookup: a printing found is mapped (the card's id must not be
/// mapped yet), nothing found leaves the mapping, an aborted lookup aborts.
pub open spec fn resolve_step(mtga: Seq<MtgaCard>, scry: Seq<ScryCard>, i: int, acc: CardMap) -> Option<CardMap> {
    match scry_lookup(mtga, scry, mtga[i], false) {
        ScryLookup::Found(s) => if acc.contains_key(mtga[i].arena_id) {
            None
        } else {
            Some(acc.insert(mtga[i].arena_id, (i as usize, s)))
        },
        ScryLookup::NotFound => Some(acc),
        ScryLookup::Aborted => None,
    }
}

/// Resolving the first `k` cards of `fix`, in order, on top of `start`.
pub open spec fn resolve_all(mtga: Seq<MtgaCard>, scry: Seq<ScryCard>, fix: Seq<int>, k: int, start: CardMap) -> Option<CardMap>
    decreases k,
{
    if k <= 0 {
        Some(start)
    } else {
        match resolve_all(mtga, scry, fix, k - 1, start) {
            None => None,
            Some(acc) => resolve_step(mtga, scry, fix[k - 1], acc),
        }
    }
}

/// Once resolving aborts, it stays aborted.
proof fn lemma_resolve_abort_persists(
    mtga: Seq<MtgaCard>,
    scry: Seq<ScryCard>,
    fix: Seq<int>,
    t: int,
    n: int,
    start: CardMap,
)
    requires
        0 <= t <= n,
        resolve_all(mtga, scry, fix, t, start) is None,
    ensures
        resolve_all(mtga, scry, fix, n, start) is None,
    decreases n - t,
{
    if t < n {
        lemma_resolve_abort_persists(mtga, scry, fix, t, n - 1, start);
    }
}

/// The mapping from card ids to the matched (MTGA card, Scryfall printing) pairs: the direct
/// matches first, then the collectible cards left over, resolved by lookup.
pub open spec fn card_mapping(mtga: Seq<MtgaCard>, scry: Seq<ScryCard>) -> Option<CardMap> {
    match direct_mapping(mtga, scry, mtga.len() as int) {
        None => None,
        Some(direct) => {
            let fix = indices_where(mtga.len() as int, unmapped_collectible_pred(mtga, direct));
            resolve_all(mtga, scry, fix, fix.len() as int, direct)
        },
    }
}

/// The cards whose id the mapping does not hold.
pub open spec fn remaining_pred(mtga: Seq<MtgaCard>, mapped: CardMap) -> spec_fn(int) -> bool {
    |i: int| !mapped.contains_key(mtga[i].arena_id)
}

/// The outcome of matching the two card databases.
pub struct CardMapping {
    /// Card id to (index of the MTGA card, index of its Scryfall printing).
    pub mapped: HashMap<u32, (usize, usize)>,
    /// The indices of the MTGA cards left without a printing, in order.
    pub remaining: Vec<usize>,
}

fn has_scry_with_id_exec(scry: &[ScryCard], arena_id: u32) -> (r: bool)
    ensures
        r == has_scry_with_id(scry@, arena_id),
{
    let mut j: usize = 0;
    while j < scry.len()
        invariant
            j <= scry@.len(),
            forall|k: int| 0 <= k < j ==> #[trigger] scry@[k].arena_id != Some(arena_id),
        decreases scry.len() - j,
    {
        if scry[j].arena_id() == Some(arena_id) {
            return true;
        }
        j = j + 1;
    }
    false
}

fn direct_indices(scry: &[ScryCard], m: &MtgaCard, name: &str) -> (r: Vec<usize>)
    ensures
        same_indices(r@, indices_where(scry@.len() as int, direct_pred(scry@, *m, name@))),
{
    let ghost p = direct_pred(scry@, *m, name@);
    let mtga_artist = m.lowercase_artist();
    let alias = map_lowercase_mtga_artist_name_to_scry(mtga_artist.as_str());
    let mut r: Vec<usize> = Vec::new();
    let mut j: usize = 0;
    while j < scry.len()
        invariant
            j <= scry@.len(),
            p == direct_pred(scry@, *m, name@),
            alias@ == artist_alias(lowercase(m.artist@)),
            same_indices(r@, indices_where(j as int, p)),
        decreases scry.len() - j,
    {
        if scry[j].arena_id() == Some(m.arena_id()) {
            let lname = scry[j].lowercase_name();
            if str_equal(name, lname.as_str()) && scry[j].is_available_in_arena() {
                match scry[j].lowercase_artist() {
                    Some(a) => {
                        if str_equal(a.as_str(), alias) {
                            r.push(j);
                        }
                    },
                    None => {},
                }
            }
        }
        j = j + 1;
    }
    r
}

/// Matches the cards of the MTGA client with their Scryfall printings, as the card database is
/// built: every card whose printing matches it directly (same id, name, artist, on Arena), then
/// every collectible card left over, looked up by set and collector number, by name in its set
/// or, at last, by name and artist. `None` when the matching aborts: several direct matches, an
/// aborted lookup, a card id resolved twice, or a card whose other half is missing.
pub fn map_cards(mtga_cards: &[MtgaCard], scry_cards: &[ScryCard]) -> (r: Option<CardMapping>)
    ensures
        match r {
            Some(out) => card_mapping(mtga_cards@, scry_cards@) == Some(out.mapped@) && same_indices(
                out.remaining@,
                indices_where(mtga_cards@.len() as int, remaining_pred(mtga_cards@, out.mapped@)),
            ),
            None => card_mapping(mtga_cards@, scry_cards@) is None,
        },
{
    broadcast use vstd::std_specs::hash::group_hash_axioms;

    let ghost mtga = mtga_cards@;
    let ghost scry = scry_cards@;
    let mut mapped: HashMap<u32, (usize, usize)> = HashMap::new();
    let mut i: usize = 0;
    while i < mtga_cards.len()
        invariant
            i <= mtga.len(),
            mtga == mtga_cards@,
            scry == scry_cards@,
            direct_mapping(mtga, scry, i as int) == Some(mapped@),
        decreases mtga_cards.len() - i,
    {
        let m = &mtga_cards[i];
        if has_scry_with_id_exec(scry_cards, m.arena_id()) {
            let name = match try_get_mtga_card_name(mtga_cards, m) {
                Some(n) => n,
                None => {
                    proof {
                        lemma_direct_abort_persists(mtga, scry, i + 1, mtga.len() as int);
                    }
                    return None;
                },
            };
            let c = direct_indices(scry_cards, m, name.as_str());
            if c.len() == 1 {
                mapped.insert(m.arena_id(), (i, c[0]));
            } else if c.len() > 1 {
                proof {
                    lemma_direct_abort_persists(mtga, scry, i + 1, mtga.len() as int);
                }
                return None;
            }
        }
        i = i + 1;
    }
    let ghost direct = mapped@;
    let ghost fix_pred = unmapped_collectible_pred(mtga, direct);
    // The collectible cards left over, gathered before any of them is resolved.
    let mut fix: Vec<usize> = Vec::new();
    let mut k: usize = 0;
    while k < mtga_cards.len()
        invariant
            k <= mtga.len(),
            mtga == mtga_cards@,
            mapped@ == direct,
            fix_pred == unmapped_collectible_pred(mtga, direct),
            same_indices(fix@, indices_where(k as int, fix_pred)),
        decreases mtga_cards.len() - k,
    {
        if mtga_cards[k].is_collectible() && !mapped.contains_key(&mtga_cards[k].arena_id()) {
            fix.push(k);
        }
        k = k + 1;
    }
    let ghost fix_spec = indices_where(mtga.len() as int, fix_pred);
    proof {
        lemma_indices_where_bounds(mtga.len() as int, fix_pred);
    }
    let mut t: usize = 0;
    while t < fix.len()
        invariant
            t <= fix@.len(),
            mtga == mtga_cards@,
            scry == scry_cards@,
            same_indices(fix@, fix_spec),
            forall|q: int| 0 <= q < fix_spec.len() ==> 0 <= #[trigger] fix_spec[q] < mtga.len(),
            resolve_all(mtga, scry, fix_spec, t as int, direct) == Some(mapped@),
            direct_mapping(mtga, scry, mtga.len() as int) == Some(direct),
            fix_spec == indices_where(mtga.len() as int, unmapped_collectible_pred(mtga, direct)),
        decreases fix.len() - t,
    {
        let idx = fix[t];
        let m = &mtga_cards[idx];
        match lookup_scry_card(mtga_cards, scry_cards, m, false) {
            ScryLookup::Found(s) => {
                if mapped.contains_key(&m.arena_id()) {
                    proof {
                        lemma_resolve_abort_persists(mtga, scry, fix_spec, t + 1, fix_spec.len() as int, direct);
                    }
                    return None;
                }
                mapped.insert(m.arena_id(), (idx, s));
            },
            ScryLookup::NotFound => {},
            ScryLookup::Aborted => {
                proof {
                    lemma_resolve_abort_persists(mtga, scry, fix_spec, t + 1, fix_spec.len() as int, direct);
                }
                return None;
            },
        }
        t = t + 1;
    }
    let ghost final_map = mapped@;
    let ghost rem_pred = remaining_pred(mtga, final_map);
    let mut remaining: Vec<usize> = Vec::new();
    let mut q: usize = 0;
    while q < mtga_cards.len()
        invariant
            q <= mtga.len(),
            mtga == mtga_cards@,
            mapped@ == final_map,
            rem_pred == remaining_pred(mtga, final_map),
            same_indices(remaining@, indices_where(q as int, rem_pred)),
        decreases mtga_cards.len() - q,
    {
        if !mapped.contains_key(&mtga_cards[q].arena_id()) {
            remaining.push(q);
        }
        q = q + 1;
    }
    Some(CardMapping { mapped, remaining })
}

} // verus!
