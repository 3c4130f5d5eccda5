//! The card records of the MTGA client and of Scryfall, and the card the tracker keeps.

use vstd::prelude::*;
use crate::text::{
    chars_of, concat_str, copy_str, decimal, decimal_string, find_char, lowercase, str_equal,
    string_from_range, to_lowercase,
};
use crate::tracker::model::{Guid, Uri};
use crate::tracker::search::{first_where, lemma_first_where_found, lemma_first_where_none};

verus! {

/// A card object of the MTGA client's card database.
#[derive(Debug)]
pub struct MtgaCard {
    pub name: String,
    pub scry_name: String,
    pub set: String,
    pub scry_set: String,
    pub arena_id: u32,
    pub is_primary_card: bool,
    pub is_main_set: bool,
    pub is_token: bool,
    pub linked_faces: Vec<u32>,
    pub is_collectible: bool,
    pub is_craftable: bool,
    pub tokens: Vec<u32>,
    pub templates: Vec<u32>,
    pub is_rebalanced: bool,
    pub rebalanced_card_link: u32,
    pub artist: String,
    pub art_id: u32,
    pub collector_number: String,
    pub linked_face_type: String,
    pub max_collected: u32,
    pub scry_uri: Uri,
}

impl MtgaCard {
    /// The card's id in the client.
    pub fn arena_id(&self) -> (r: u32)
        ensures
            r == self.arena_id,
    {
        self.arena_id
    }

    /// The card's name in the client.
    pub fn name(&self) -> (r: &str)
        ensures
            r@ == self.name@,
    {
        self.name.as_str()
    }

    /// The artist's name, lowercase.
    pub fn lowercase_artist(&self) -> (r: String)
        ensures
            r@ == lowercase(self.artist@),
    {
        to_lowercase(self.artist.as_str())
    }

    /// The set code in the client.
    pub fn set(&self) -> (r: &str)
        ensures
            r@ == self.set@,
    {
        self.set.as_str()
    }

    /// The ids of the card's other faces.
    pub fn linked_faces(&self) -> (r: &[u32])
        ensures
            r@ == self.linked_faces@,
    {
        self.linked_faces.as_slice()
    }

    /// How the card is linked to its other faces (`LinkedFace_...`).
    pub fn linked_face_type(&self) -> (r: &str)
        ensures
            r@ == self.linked_face_type@,
    {
        self.linked_face_type.as_str()
    }

    /// The collector number.
    pub fn collector_number(&self) -> (r: &str)
        ensures
            r@ == self.collector_number@,
    {
        self.collector_number.as_str()
    }

    /// Whether the card can be collected.
    pub fn is_collectible(&self) -> (r: bool)
        ensures
            r == self.is_collectible,
    {
        self.is_collectible
    }

    /// How many copies of the card count for a full collection.
    pub fn max_collected(&self) -> (r: u32)
        ensures
            r == self.max_collected,
    {
        self.max_collected
    }
}

/// The fields of a Scryfall card object that the tracker reads.
#[derive(Debug)]
pub struct ScryCard {
    pub arena_id: Option<u32>,
    pub lang: String,
    pub name: String,
    pub layout: String,
    pub games: Vec<String>,
    pub artist: Option<String>,
    pub booster: bool,
    pub collector_number: String,
    pub rarity: String,
    pub set: String,
    pub scryfall_uri: Uri,
    /// The `normal` entry of the card's `image_uris`, if it has one.
    pub normal_image_uri: Option<Uri>,
}

/// Whether `s` holds `x`.
pub open spec fn strings_contain(s: Seq<String>, x: Seq<char>) -> bool {
    exists|i: int| 0 <= i < s.len() && #[trigger] s[i]@ == x
}

/// Where the first `/` stands in a reversible card's name; the name before it, minus the
/// separating character, is the name of the front face.
pub open spec fn reversible_split_ok(name: Seq<char>) -> bool {
    exists|k: int|
        1 <= k < name.len() && name[k] == '/' && (forall|j: int| 0 <= j < k ==> name[j] != '/') && (
        #[trigger] name[k - 1]) < '\u{80}'
}

/// The name of the card's front face for reversible cards, else the whole name, lowercase.
pub open spec fn unreversed_name(card: ScryCard) -> Seq<char> {
    if card.layout@ == "reversible_card"@ {
        let k = choose|k: int|
            1 <= k < card.name@.len() && card.name@[k] == '/' && (forall|j: int|
                0 <= j < k ==> card.name@[j] != '/') && (#[trigger] card.name@[k - 1]) < '\u{80}';
        lowercase(card.name@.take(k - 1))
    } else {
        lowercase(card.name@)
    }
}

impl ScryCard {
    /// The card's id in the MTGA client, if Scryfall knows one.
    pub fn arena_id(&self) -> (r: Option<u32>)
        ensures
            r == self.arena_id,
    {
        self.arena_id
    }

    /// The card's name; both faces, separated by ` // `, for multi-faced cards.
    pub fn name(&self) -> (r: &str)
        ensures
            r@ == self.name@,
    {
        self.name.as_str()
    }

    /// The set code.
    pub fn set(&self) -> (r: &str)
        ensures
            r@ == self.set@,
    {
        self.set.as_str()
    }

    /// The rarity.
    pub fn rarity(&self) -> (r: &str)
        ensures
            r@ == self.rarity@,
    {
        self.rarity.as_str()
    }

    /// The card's name, lowercase.
    pub fn lowercase_name(&self) -> (r: String)
        ensures
            r@ == lowercase(self.name@),
    {
        to_lowercase(self.name.as_str())
    }

    /// The lowercase name of the front face of a reversible card (the name up to the space
    /// before the first `/`), or the lowercase name of any other card.
    pub fn unreversed_lowercase_name(&self) -> (r: String)
        requires
            self.layout@ == "reversible_card"@ ==> reversible_split_ok(self.name@),
        ensures
            r@ == unreversed_name(*self),
    {
        if str_equal(self.layout.as_str(), "reversible_card") {
            let chars = chars_of(self.name.as_str());
            match find_char(chars.as_slice(), '/') {
                Some(k) => {
                    proof {
                        let w = choose|w: int|
                            1 <= w < self.name@.len() && self.name@[w] == '/' && (forall|j: int|
                                0 <= j < w ==> self.name@[j] != '/') && (#[trigger] self.name@[w
                                - 1]) < '\u{80}';
                        assert(w == k as int) by {
                            if w < k {
                                assert(chars@[w] != '/');
                            } else if w > k {
                                assert(self.name@[k as int] != '/');
                            }
                        }
                    }
                    let front = string_from_range(chars.as_slice(), 0, k - 1);
                    proof {
                        assert(front@ =~= self.name@.take(k - 1));
                    }
                    to_lowercase(front.as_str())
                },
                None => {
                    proof {
                        let w = choose|w: int|
                            1 <= w < self.name@.len() && self.name@[w] == '/' && (forall|j: int|
                                0 <= j < w ==> self.name@[j] != '/') && (#[trigger] self.name@[w
                                - 1]) < '\u{80}';
                        assert(chars@[w] == '/');
                    }
                    String::new()
                },
            }
        } else {
            to_lowercase(self.name.as_str())
        }
    }

    /// Whether the card can be played on MTG Arena.
    pub fn is_available_in_arena(&self) -> (r: bool)
        ensures
            r == strings_contain(self.games@, "arena"@),
    {
        let mut i: usize = 0;
        while i < self.games.len()
            invariant
                i <= self.games@.len(),
                forall|j: int| 0 <= j < i ==> #[trigger] self.games@[j]@ != "arena"@,
            decreases self.games.len() - i,
        {
            if str_equal(self.games[i].as_str(), "arena") {
                return true;
            }
            i = i + 1;
        }
        false
    }

    /// The illustrator's name, lowercase, if known.
    pub fn lowercase_artist(&self) -> (r: Option<String>)
        ensures
            match self.artist {
                Some(a) => r matches Some(l) && l@ == lowercase(a@),
                None => r is None,
            },
    {
        match &self.artist {
            Some(a) => Some(to_lowercase(a.as_str())),
            None => None,
        }
    }

    /// Whether the card is found in boosters.
    pub fn booster(&self) -> (r: bool)
        ensures
            r == self.booster,
    {
        self.booster
    }

    /// The collector number.
    pub fn collector_number(&self) -> (r: &str)
        ensures
            r@ == self.collector_number@,
    {
        self.collector_number.as_str()
    }

    /// The language code of this printing.
    pub fn lang(&self) -> (r: &str)
        ensures
            r@ == self.lang@,
    {
        self.lang.as_str()
    }

    /// The link to the card's page on Scryfall.
    pub fn scryfall_uri(&self) -> (r: &Uri)
        ensures
            *r == self.scryfall_uri,
    {
        &self.scryfall_uri
    }

    /// The link to the card's normal-size image, or the empty link.
    pub fn get_image_uri(&self) -> (r: Uri)
        ensures
            r@ == match self.normal_image_uri {
                Some(u) => u@,
                None => Seq::<char>::empty(),
            },
    {
        match &self.normal_image_uri {
            Some(u) => u.duplicate(),
            None => Uri::new(),
        }
    }

    /// The card described for messages: `name (set/collector number) lang:lang (artist) (#id)`.
    pub fn describe(&self) -> (r: String)
        ensures
            r@ == self.name@ + " ("@ + self.set@ + "/"@ + self.collector_number@ + ") lang:"@
                + self.lang@ + " ("@ + match self.artist {
                Some(a) => a@,
                None => "unknown artist"@,
            } + ") (#"@ + decimal(
                match self.arena_id {
                    Some(id) => id as nat,
                    None => 0,
                },
            ) + ")"@,
    {
        let mut s = copy_str(self.name.as_str());
        s.append(" (");
        s.append(self.set.as_str());
        s.append("/");
        s.append(self.collector_number.as_str());
        s.append(") lang:");
        s.append(self.lang.as_str());
        s.append(" (");
        match &self.artist {
            Some(a) => s.append(a.as_str()),
            None => s.append("unknown artist"),
        }
        s.append(") (#");
        let id: u32 = match self.arena_id {
            Some(id) => id,
            None => 0,
        };
        let digits = decimal_string(id as u64);
        s.append(digits.as_str());
        s.append(")");
        s
    }
}

/// A card closely related to another (a token it makes, a meld part, a combo piece), as
/// Scryfall lists it.
#[derive(Debug)]
pub struct ScryRelatedCard {
    pub id: Guid,
    pub object: String,
    pub component: String,
    pub name: String,
    pub type_line: String,
    pub uri: Uri,
}

/// A card as the tracker stores it: the MTGA card joined with its Scryfall printing.
#[derive(Debug)]
pub struct TrackerCard {
    pub name: String,
    pub set: String,
    pub collector_number: String,
    pub scry_uri: Uri,
    pub arena_id: u32,
    pub image_uri: Uri,
    pub rarity: String,
    pub in_booster: bool,
    pub is_alchemy_card: bool,
    pub max_collected: u32,
}

impl TrackerCard {
    /// Joins an MTGA card with the Scryfall printing it was matched to: the name, set, link,
    /// image, rarity and booster flag come from Scryfall, the collector number, id and
    /// collection size from the client. A rebalanced card linked to another is an alchemy card.
    pub fn new(mtga_card: &MtgaCard, scry_card: &ScryCard) -> (r: TrackerCard)
        ensures
            r.name@ == scry_card.name@,
            r.set@ == scry_card.set@,
            r.collector_number@ == mtga_card.collector_number@,
            r.scry_uri@ == scry_card.scryfall_uri@,
            r.arena_id == mtga_card.arena_id,
            r.image_uri@ == match scry_card.normal_image_uri {
                Some(u) => u@,
                None => Seq::<char>::empty(),
            },
            r.rarity@ == scry_card.rarity@,
            r.in_booster == scry_card.booster,
            r.is_alchemy_card == (mtga_card.rebalanced_card_link != 0 && mtga_card.is_rebalanced),
            r.max_collected == mtga_card.max_collected,
    {
        TrackerCard {
            name: copy_str(scry_card.name()),
            set: copy_str(scry_card.set()),
            collector_number: copy_str(mtga_card.collector_number()),
            scry_uri: scry_card.scryfall_uri().duplicate(),
            arena_id: mtga_card.arena_id(),
            image_uri: scry_card.get_image_uri(),
            rarity: copy_str(scry_card.rarity()),
            in_booster: scry_card.booster(),
            is_alchemy_card: (mtga_card.rebalanced_card_link != 0 && mtga_card.is_rebalanced),
            max_collected: mtga_card.max_collected(),
        }
    }

    /// The card's name.
    pub fn name(&self) -> (r: &str)
        ensures
            r@ == self.name@,
    {
        self.name.as_str()
    }

    /// The set code.
    pub fn set(&self) -> (r: &str)
        ensures
            r@ == self.set@,
    {
        self.set.as_str()
    }

    /// The link to the card's page on Scryfall.
    pub fn scry_uri(&self) -> (r: &Uri)
        ensures
            *r == self.scry_uri,
    {
        &self.scry_uri
    }

    /// The card's id in the client.
    pub fn arena_id(&self) -> (r: u32)
        ensures
            r == self.arena_id,
    {
        self.arena_id
    }

    /// The link to the card's image.
    pub fn image_uri(&self) -> (r: &Uri)
        ensures
            *r == self.image_uri,
    {
        &self.image_uri
    }

    /// The rarity.
    pub fn rarity(&self) -> (r: &str)
        ensures
            r@ == self.rarity@,
    {
        self.rarity.as_str()
    }

    /// Whether the card is found in boosters.
    pub fn in_booster(&self) -> (r: bool)
        ensures
            r == self.in_booster,
    {
        self.in_booster
    }

    /// The collector number.
    pub fn collector_number(&self) -> (r: &str)
        ensures
            r@ == self.collector_number@,
    {
        self.collector_number.as_str()
    }

    /// How many copies count for a full collection.
    pub fn max_collected(&self) -> (r: u32)
        ensures
            r == self.max_collected,
    {
        self.max_collected
    }

    /// Whether the card is a rebalanced (alchemy) version of another.
    pub fn is_alchemy_card(&self) -> (r: bool)
        ensures
            r == self.is_alchemy_card,
    {
        self.is_alchemy_card
    }

    /// The card described for messages: `name - (set:#collector number) (#id) (rarity)`.
    pub fn describe(&self) -> (r: String)
        ensures
            r@ == self.name@ + " - ("@ + self.set@ + ":#"@ + self.collector_number@ + ") (#"@
                + decimal(self.arena_id as nat) + ") ("@ + self.rarity@ + ")"@,
    {
        let mut s = copy_str(self.name.as_str());
        s.append(" - (");
        s.append(self.set.as_str());
        s.append(":#");
        s.append(self.collector_number.as_str());
        s.append(") (#");
        let digits = decimal_string(self.arena_id as u64);
        s.append(digits.as_str());
        s.append(") (");
        s.append(self.rarity.as_str());
        s.append(")");
        s
    }
}

/// The face type of the card that holds the other half of a card with linked face type
/// `t`: the adventure parent of an adventure, the front of the back face of a (modal)
/// double-faced card.
pub open spec fn partner_face_type(t: Seq<char>) -> Option<Seq<char>> {
    if t == "LinkedFace_AdventureChild"@ {
        Some("LinkedFace_AdventureParent"@)
    } else if t == "LinkedFace_MDFC_Back"@ {
        Some("LinkedFace_MDFC_Front"@)
    } else if t == "LinkedFace_DFC_Back"@ {
        Some("LinkedFace_DFC_Front"@)
    } else {
        None
    }
}

/// Whether `card` lists `arena_id` among its linked faces and has the face type `face_type`.
pub open spec fn is_partner(card: MtgaCard, arena_id: u32, face_type: Seq<char>) -> bool {
    card.linked_faces@.contains(arena_id) && card.linked_face_type@ == face_type
}

/// The index of the first card of `db` that is the partner of the card `arena_id`.
pub open spec fn first_partner(db: Seq<MtgaCard>, arena_id: u32, face_type: Seq<char>) -> Option<int> {
    first_where(db.len() as int, |k: int| is_partner(db[k], arena_id, face_type))
}

/// The card's full name: for a card whose other half is a separate card object of the
/// client, `name // other name`. `None` when that other card is missing from the database.
pub open spec fn full_card_name(db: Seq<MtgaCard>, card: MtgaCard) -> Option<Seq<char>> {
    match partner_face_type(card.linked_face_type@) {
        None => Some(card.name@),
        Some(t) => match first_partner(db, card.arena_id, t) {
            Some(i) => Some(card.name@ + " // "@ + db[i].name@),
            None => None,
        },
    }
}

/// The card's full name, lowercase, the way Scryfall names the card.
pub open spec fn mtga_card_name(db: Seq<MtgaCard>, card: MtgaCard) -> Option<Seq<char>> {
    match full_card_name(db, card) {
        Some(n) => Some(lowercase(n)),
        None => None,
    }
}

fn contains_u32(v: &[u32], x: u32) -> (r: bool)
    ensures
        r == v@.contains(x),
{
    let mut i: usize = 0;
    while i < v.len()
        invariant
            i <= v.len(),
            forall|j: int| 0 <= j < i ==> v@[j] != x,
        decreases v.len() - i,
    {
        if v[i] == x {
            return true;
        }
        i = i + 1;
    }
    false
}

/// The first card of `db` that is the partner of the card `arena_id`.
fn find_partner(db: &[MtgaCard], arena_id: u32, face_type: &str) -> (r: Option<usize>)
    ensures
        r matches Some(i) ==> i < db@.len(),
        match r {
            Some(i) => first_partner(db@, arena_id, face_type@) == Some(i as int),
            None => first_partner(db@, arena_id, face_type@) is None,
        },
{
    let ghost p = |k: int| is_partner(db@[k], arena_id, face_type@);
    let mut i: usize = 0;
    while i < db.len()
        invariant
            i <= db.len(),
            p == (|k: int| is_partner(db@[k], arena_id, face_type@)),
            forall|j: int| 0 <= j < i ==> !#[trigger] p(j),
        decreases db.len() - i,
    {
        if contains_u32(db[i].linked_faces(), arena_id) && str_equal(
            db[i].linked_face_type(),
            face_type,
        ) {
            proof {
                lemma_first_where_found(db@.len() as int, p, i as int);
            }
            return Some(i);
        }
        i = i + 1;
    }
    proof {
        lemma_first_where_none(db@.len() as int, p);
    }
    None
}

/// The face type of the partner of a card with face type `t`.
fn partner_face(t: &str) -> (r: Option<&'static str>)
    ensures
        match r {
            Some(p) => partner_face_type(t@) == Some(p@),
            None => partner_face_type(t@) is None,
        },
{
    if str_equal(t, "LinkedFace_AdventureChild") {
        Some("LinkedFace_AdventureParent")
    } else if str_equal(t, "LinkedFace_MDFC_Back") {
        Some("LinkedFace_MDFC_Front")
    } else if str_equal(t, "LinkedFace_DFC_Back") {
        Some("LinkedFace_DFC_Front")
    } else {
        None
    }
}

/// The card's full name, lowercase (`None` when the other half of the card is missing from
/// the database).
pub fn try_get_mtga_card_name(mtga_cards_db: &[MtgaCard], mtga_card: &MtgaCard) -> (r: Option<String>)
    ensures
        match r {
            Some(n) => mtga_card_name(mtga_cards_db@, *mtga_card) == Some(n@),
            None => mtga_card_name(mtga_cards_db@, *mtga_card) is None,
        },
{
    match partner_face(mtga_card.linked_face_type()) {
        None => Some(to_lowercase(mtga_card.name())),
        Some(t) => match find_partner(mtga_cards_db, mtga_card.arena_id(), t) {
            Some(i) => {
                let with_separator = concat_str(mtga_card.name(), " // ");
                let full = concat_str(with_separator.as_str(), mtga_cards_db[i].name());
                Some(to_lowercase(full.as_str()))
            },
            None => None,
        },
    }
}

/// The card's full name, lowercase: `name // other name` for the back of a (modal)
/// double-faced card or an adventure, whose other half is a separate card of the client.
pub fn get_mtga_card_name(mtga_cards_db: &[MtgaCard], mtga_card: &MtgaCard) -> (r: String)
    requires
        mtga_card_name(mtga_cards_db@, *mtga_card) is Some,
    ensures
        mtga_card_name(mtga_cards_db@, *mtga_card) == Some(r@),
{
    match try_get_mtga_card_name(mtga_cards_db, mtga_card) {
        Some(n) => n,
        None => {
            proof {
                assert(false);
            }
            String::new()
        },
    }
}

} // verus!
