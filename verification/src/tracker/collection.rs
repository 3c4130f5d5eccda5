//! The collection view: the cards of a set that the user collected, by rarity and name, with
//! the details that pop up over each.

use vstd::prelude::*;
use crate::text::{concat_str, copy_str, decimal, decimal_string, strings_view, lemma_strings_view_push};
use crate::tracker::cards::TrackerCard;
use crate::tracker::ordering::{is_name_order, lemma_name_order_unique, places, sorted_order};
use crate::tracker::runner::UserSession;

verus! {

/// A card of the collection view.
pub struct CollectionCard {
    pub arena_id: u32,
    pub long_name: String,
    pub name: String,
    pub image: Option<Vec<u8>>,
    pub max_collected: u32,
    pub num_collected: u32,
    pub ratings_labels: Vec<String>,
    pub ratings_values: Vec<String>,
    pub tags: Vec<String>,
    pub notes: String,
    pub image_loaded: bool,
}

/// The view of a card of the collection view.
pub struct CardView {
    pub arena_id: u32,
    pub long_name: Seq<char>,
    pub name: Seq<char>,
    pub image: Option<Seq<u8>>,
    pub max_collected: u32,
    pub num_collected: u32,
    pub ratings_labels: Seq<Seq<char>>,
    pub ratings_values: Seq<Seq<char>>,
    pub tags: Seq<Seq<char>>,
    pub notes: Seq<char>,
    pub image_loaded: bool,
}

impl View for CollectionCard {
    type V = CardView;

    open spec fn view(&self) -> CardView {
        CardView {
            arena_id: self.arena_id,
            long_name: self.long_name@,
            name: self.name@,
            image: match self.image {
                Some(i) => Some(i@),
                None => None,
            },
            max_collected: self.max_collected,
            num_collected: self.num_collected,
            ratings_labels: strings_view(self.ratings_labels@),
            ratings_values: strings_view(self.ratings_values@),
            tags: strings_view(self.tags@),
            notes: self.notes@,
            image_loaded: self.image_loaded,
        }
    }
}

/// The description of a tracker card (`TrackerCard::describe`).
pub open spec fn card_description(c: TrackerCard) -> Seq<char> {
    c.name@ + " - ("@ + c.set@ + ":#"@ + c.collector_number@ + ") (#"@ + decimal(c.arena_id as nat) + ") ("@
        + c.rarity@ + ")"@
}

/// The card shown for a collected card: no image yet, no ratings or tags, placeholder notes.
pub open spec fn collected_card_view(c: TrackerCard, collected: u32) -> CardView {
    CardView {
        arena_id: c.arena_id,
        long_name: card_description(c),
        name: c.name@,
        image: None,
        max_collected: c.max_collected,
        num_collected: collected,
        ratings_labels: Seq::empty(),
        ratings_values: Seq::empty(),
        tags: Seq::empty(),
        notes: "notes"@,
        image_loaded: false,
    }
}

impl CollectionCard {
    /// The card shown for a card collected `collected` times.
    pub fn from_collected(card: &TrackerCard, collected: u32) -> (r: CollectionCard)
        ensures
            r@ == collected_card_view(*card, collected),
    {
        let r = CollectionCard {
            arena_id: card.arena_id(),
            long_name: card.describe(),
            name: copy_str(card.name()),
            image: None,
            max_collected: card.max_collected(),
            num_collected: collected,
            ratings_labels: Vec::new(),
            ratings_values: Vec::new(),
            tags: Vec::new(),
            notes: copy_str("notes"),
            image_loaded: false,
        };
        assert(strings_view(r.ratings_labels@) =~= Seq::<Seq<char>>::empty());
        assert(strings_view(r.ratings_values@) =~= Seq::<Seq<char>>::empty());
        assert(strings_view(r.tags@) =~= Seq::<Seq<char>>::empty());
        r
    }
}

/// The names of a group of collected cards.
pub open spec fn group_names(group: Seq<(TrackerCard, u32)>) -> Seq<Seq<char>> {
    group.map_values(|p: (TrackerCard, u32)| p.0.name@)
}

/// The order of a group by name, ties in their first order (unique: `lemma_name_order_unique`).
pub open spec fn group_order(group: Seq<(TrackerCard, u32)>) -> Seq<int> {
    choose|o: Seq<int>| is_name_order(group_names(group), o)
}

/// The cards shown for a group, in the order of their names.
pub open spec fn sorted_group(group: Seq<(TrackerCard, u32)>) -> Seq<CardView> {
    Seq::new(
        group.len(),
        |k: int| collected_card_view(group[group_order(group)[k]].0, group[group_order(group)[k]].1),
    )
}

/// The views of the cards.
pub open spec fn cards_view(v: Seq<CollectionCard>) -> Seq<CardView> {
    v.map_values(|c: CollectionCard| c@)
}

/// Appends the cards of a group, in the order of their names.
fn push_sorted_group(out: &mut Vec<CollectionCard>, group: &Vec<(TrackerCard, u32)>)
    ensures
        cards_view(final(out)@) == cards_view(old(out)@) + sorted_group(group@),
{
    let mut names: Vec<String> = Vec::new();
    let mut i: usize = 0;
    while i < group.len()
        invariant
            i <= group@.len(),
            strings_view(names@) =~= group_names(group@).take(i as int),
        decreases group.len() - i,
    {
        let n = copy_str(group[i].0.name());
        proof {
            lemma_strings_view_push(names@, n);
        }
        names.push(n);
        i = i + 1;
    }
    assert(strings_view(names@) =~= group_names(group@));
    let order = sorted_order(&names);
    proof {
        lemma_name_order_unique(group_names(group@), places(order@), group_order(group@));
    }
    let ghost start = cards_view(out@);
    let mut k: usize = 0;
    while k < order.len()
        invariant
            k <= order@.len(),
            order@.len() == group@.len(),
            places(order@) == group_order(group@),
            is_name_order(group_names(group@), places(order@)),
            cards_view(out@) =~= start + sorted_group(group@).take(k as int),
        decreases order.len() - k,
    {
        assert(places(order@)[k as int] == order@[k as int] as int);
        assert(0 <= places(order@)[k as int] < group@.len());
        let j = order[k];
        let card = CollectionCard::from_collected(&group[j].0, group[j].1);
        proof {
            assert(cards_view(out@.push(card)) =~= cards_view(out@).push(card@));
            assert(sorted_group(group@).take(k + 1) =~= sorted_group(group@).take(k as int).push(card@));
        }
        out.push(card);
        k = k + 1;
    }
    assert(sorted_group(group@).take(k as int) =~= sorted_group(group@));
}

/// The collection view: the set chosen, the user whose collection it shows, and its cards.
pub struct CollectionComponent {
    selected_set: String,
    display_user_session: Option<UserSession>,
    cards: Vec<CollectionCard>,
}

/// The text next to a card: `collected/max long name`.
pub open spec fn card_row_text(c: CardView) -> Seq<char> {
    decimal(c.num_collected as nat) + "/"@ + decimal(c.max_collected as nat) + " "@ + c.long_name
}

/// What the popup of a card shows in place of its image.
pub enum CardImage {
    /// The image, once loaded.
    Loaded(Vec<u8>),
    /// The image was looked for and there is none: the placeholder.
    Missing,
    /// The image is being loaded: "One moment please...".
    Waiting,
}

/// The texts of a card's row and popup.
pub struct CardRow {
    pub base: String,
    pub name: String,
    pub image: CardImage,
    pub labels: Vec<String>,
    pub notes: String,
}

/// The labels of a card's popup: its collection count, each rating as `label: value` (the
/// ratings paired in order, the longer list cut), then its tags.
pub open spec fn card_labels(c: CardView) -> Seq<Seq<char>> {
    let n = if c.ratings_labels.len() <= c.ratings_values.len() {
        c.ratings_labels.len()
    } else {
        c.ratings_values.len()
    };
    seq!["Collection: "@ + decimal(c.num_collected as nat) + "/"@ + decimal(c.max_collected as nat)]
        + Seq::new(n, |i: int| c.ratings_labels[i] + ": "@ + c.ratings_values[i]) + c.tags
}

/// The texts of a card's row and popup.
pub fn card_row(card: &CollectionCard) -> (r: CardRow)
    ensures
        r.base@ == card_row_text(card@),
        r.name@ == card@.name,
        match r.image {
            CardImage::Loaded(i) => card.image_loaded && card@.image == Some(i@),
            CardImage::Missing => card.image_loaded && card.image is None,
            CardImage::Waiting => !card.image_loaded,
        },
        strings_view(r.labels@) == card_labels(card@),
        r.notes@ == "Notes: "@ + card.notes@,
{
    let num = decimal_string(card.num_collected as u64);
    let max = decimal_string(card.max_collected as u64);
    let counts = concat_str(num.as_str(), "/");
    let counts = concat_str(counts.as_str(), max.as_str());
    let base = concat_str(counts.as_str(), " ");
    let base = concat_str(base.as_str(), card.long_name.as_str());
    let image = if card.image_loaded {
        match &card.image {
            Some(i) => CardImage::Loaded(i.clone()),
            None => CardImage::Missing,
        }
    } else {
        CardImage::Waiting
    };
    let mut labels: Vec<String> = Vec::new();
    let first = concat_str("Collection: ", counts.as_str());
    proof {
        lemma_strings_view_push(labels@, first);
    }
    labels.push(first);
    let n = if card.ratings_labels.len() <= card.ratings_values.len() {
        card.ratings_labels.len()
    } else {
        card.ratings_values.len()
    };
    let ghost cv = card@;
    proof {
        let head = "Collection: "@ + decimal(card.num_collected as nat) + "/"@ + decimal(card.max_collected as nat);
        assert(first@ =~= head);
        assert(strings_view(labels@) =~= seq![head] + Seq::new(0nat, |j: int| cv.ratings_labels[j] + ": "@ + cv.ratings_values[j]));
    }
    let mut i: usize = 0;
    while i < n
        invariant
            cv == card@,
            n <= card.ratings_labels@.len(),
            n <= card.ratings_values@.len(),
            n == (if cv.ratings_labels.len() <= cv.ratings_values.len() {
                cv.ratings_labels.len()
            } else {
                cv.ratings_values.len()
            }),
            i <= n,
            strings_view(labels@) =~= seq!["Collection: "@ + decimal(card.num_collected as nat) + "/"@ + decimal(card.max_collected as nat)]
                + Seq::new(i as nat, |j: int| cv.ratings_labels[j] + ": "@ + cv.ratings_values[j]),
        decreases n - i,
    {
        let l = concat_str(card.ratings_labels[i].as_str(), ": ");
        let l = concat_str(l.as_str(), card.ratings_values[i].as_str());
        proof {
            lemma_strings_view_push(labels@, l);
            assert(cv.ratings_labels[i as int] == card.ratings_labels@[i as int]@);
            assert(cv.ratings_values[i as int] == card.ratings_values@[i as int]@);
        }
        labels.push(l);
        i = i + 1;
    }
    let ghost before = strings_view(labels@);
    let mut t: usize = 0;
    while t < card.tags.len()
        invariant
            cv == card@,
            t <= card.tags@.len(),
            strings_view(labels@) =~= before + cv.tags.take(t as int),
        decreases card.tags.len() - t,
    {
        let tag = copy_str(card.tags[t].as_str());
        proof {
            lemma_strings_view_push(labels@, tag);
            assert(cv.tags[t as int] == card.tags@[t as int]@);
        }
        labels.push(tag);
        t = t + 1;
    }
    assert(cv.tags.take(t as int) =~= cv.tags);
    CardRow { base, name: copy_str(card.name.as_str()), image, labels, notes: concat_str("Notes: ", card.notes.as_str()) }
}

/// The place of the first card with the id.
fn find_card(cards: &Vec<CollectionCard>, arena_id: u32) -> (r: Option<usize>)
    ensures
        match r {
            Some(i) => i < cards@.len() && cards@[i as int].arena_id == arena_id && forall|j: int|
                0 <= j < i ==> #[trigger] cards@[j].arena_id != arena_id,
            None => forall|j: int| 0 <= j < cards@.len() ==> #[trigger] cards@[j].arena_id != arena_id,
        },
{
    let mut i: usize = 0;
    while i < cards.len()
        invariant
            i <= cards@.len(),
            forall|j: int| 0 <= j < i ==> #[trigger] cards@[j].arena_id != arena_id,
        decreases cards.len() - i,
    {
        if cards[i].arena_id == arena_id {
            return Some(i);
        }
        i = i + 1;
    }
    None
}

impl CollectionComponent {
    /// The set shown.
    pub closed spec fn selected(&self) -> Seq<char> {
        self.selected_set@
    }

    /// The user whose collection is shown.
    pub closed spec fn user(&self) -> Option<UserSession> {
        self.display_user_session
    }

    /// The cards shown.
    pub closed spec fn shown(&self) -> Seq<CardView> {
        cards_view(self.cards@)
    }

    /// The view before any user is known, on the set "woe".
    pub fn new() -> (r: CollectionComponent)
        ensures
            r.selected() == "woe"@,
            r.user() is None,
            r.shown().len() == 0,
    {
        let r = CollectionComponent { selected_set: copy_str("woe"), display_user_session: None, cards: Vec::new() };
        assert(cards_view(r.cards@) =~= Seq::<CardView>::empty());
        r
    }

    /// Shows the collection of another user (the cards are read again with `update_state`).
    pub fn set_current_user(&mut self, user: UserSession)
        ensures
            final(self).user() == Some(user),
            final(self).selected() == old(self).selected(),
            final(self).shown() == old(self).shown(),
    {
        self.display_user_session = Some(user);
    }

    /// Shows another set (the cards are read again with `update_state`).
    pub fn change_selected_set(&mut self, set: String)
        ensures
            final(self).selected() == set@,
            final(self).user() == old(self).user(),
            final(self).shown() == old(self).shown(),
    {
        self.selected_set = set;
    }

    /// The cards shown.
    pub fn cards(&self) -> (r: &Vec<CollectionCard>)
        ensures
            cards_view(r@) == self.shown(),
    {
        &self.cards
    }

    /// The user whose collection is shown.
    pub fn current_user(&self) -> (r: Option<&UserSession>)
        ensures
            match r {
                Some(u) => self.user() == Some(*u),
                None => self.user() is None,
            },
    {
        match &self.display_user_session {
            Some(u) => Some(u),
            None => None,
        }
    }

    /// Shows the collected cards of the set: the common, uncommon, rare and mythic ones in
    /// that order, each rarity by name. Fails, changing nothing, when no user is known.
    pub fn update_state(
        &mut self,
        common: &Vec<(TrackerCard, u32)>,
        uncommon: &Vec<(TrackerCard, u32)>,
        rare: &Vec<(TrackerCard, u32)>,
        mythic: &Vec<(TrackerCard, u32)>,
    ) -> (r: Result<(), String>)
        ensures
            final(self).user() == old(self).user(),
            final(self).selected() == old(self).selected(),
            match r {
                Ok(_) => old(self).user() is Some && final(self).shown() == sorted_group(common@) + sorted_group(
                    uncommon@,
                ) + sorted_group(rare@) + sorted_group(mythic@),
                Err(e) => old(self).user() is None && e@ == "Display user has not been set"@
                    && final(self).shown() == old(self).shown(),
            },
    {
        if self.display_user_session.is_none() {
            return Err(copy_str("Display user has not been set"));
        }
        let mut cards: Vec<CollectionCard> = Vec::new();
        assert(cards_view(cards@) =~= Seq::<CardView>::empty());
        push_sorted_group(&mut cards, common);
        assert(cards_view(cards@) =~= sorted_group(common@));
        push_sorted_group(&mut cards, uncommon);
        push_sorted_group(&mut cards, rare);
        push_sorted_group(&mut cards, mythic);
        self.cards = cards;
        Ok(())
    }

    /// Whether hovering over the card should load its image: the first card with the id is
    /// shown and its image is not loaded yet.
    pub fn hover_card(&self, arena_id: u32) -> (r: bool)
        ensures
            r == (exists|i: int| 0 <= i < self.shown().len() && self.shown()[i].arena_id == arena_id
                && !self.shown()[i].image_loaded && forall|j: int| 0 <= j < i ==> #[trigger] self.shown()[j].arena_id
                != arena_id),
    {
        match find_card(&self.cards, arena_id) {
            Some(i) => {
                proof {
                    assert(self.shown()[i as int] == self.cards@[i as int]@);
                    assert forall|j: int| 0 <= j < i implies #[trigger] self.shown()[j].arena_id != arena_id by {
                        assert(self.shown()[j] == self.cards@[j]@);
                    }
                    if !(!self.cards[i as int].image_loaded) {
                        assert forall|i2: int| 0 <= i2 < self.shown().len() && self.shown()[i2].arena_id == arena_id
                            && !self.shown()[i2].image_loaded implies !(forall|j: int| 0 <= j < i2 ==> #[trigger] self.shown()[j].arena_id != arena_id) by {
                            assert(self.shown()[i2] == self.cards@[i2]@);
                            if i2 > i {
                                assert(self.shown()[i as int].arena_id == arena_id);
                            }
                        }
                    }
                }
                !self.cards[i].image_loaded
            },
            None => {
                proof {
                    assert forall|i2: int| 0 <= i2 < self.shown().len() implies self.shown()[i2].arena_id != arena_id by {
                        assert(self.shown()[i2] == self.cards@[i2]@);
                    }
                }
                false
            },
        }
    }

    /// The image of the first card with the id was loaded: it is shown from now on.
    pub fn image_loaded(&mut self, arena_id: u32, image: Vec<u8>)
        ensures
            final(self).user() == old(self).user(),
            final(self).selected() == old(self).selected(),
            final(self).shown().len() == old(self).shown().len(),
            forall|i: int| 0 <= i < old(self).shown().len() ==> {
                if old(self).shown()[i].arena_id == arena_id && forall|j: int| 0 <= j < i ==> #[trigger] old(
                    self,
                ).shown()[j].arena_id != arena_id {
                    final(self).shown()[i] == (CardView { image: Some(image@), image_loaded: true, ..old(self).shown()[i] })
                } else {
                    final(self).shown()[i] == old(self).shown()[i]
                }
            },
    {
        match find_card(&self.cards, arena_id) {
            Some(i) => {
                let ghost before = self.cards@;
                let mut card = self.cards.remove(i);
                card.image = Some(image);
                card.image_loaded = true;
                self.cards.insert(i, card);
                proof {
                    assert forall|k: int| 0 <= k < before.len() && k != i implies self.cards@[k] == before[k] by {
                        if k < i {
                        } else {
                        }
                    }
                    assert forall|k: int| 0 <= k < old(self).shown().len() implies {
                        if old(self).shown()[k].arena_id == arena_id && forall|j: int| 0 <= j < k ==> #[trigger] old(
                            self,
                        ).shown()[j].arena_id != arena_id {
                            self.shown()[k] == (CardView { image: Some(image@), image_loaded: true, ..old(self).shown()[k] })
                        } else {
                            self.shown()[k] == old(self).shown()[k]
                        }
                    } by {
                        assert(old(self).shown()[k] == before[k]@);
                        assert(self.shown()[k] == self.cards@[k]@);
                        if k < i {
                            assert(before[k].arena_id != arena_id);
                        } else if k > i {
                            assert(old(self).shown()[i as int].arena_id == arena_id);
                        }
                    }
                }
            },
            None => {
                proof {
                    assert forall|k: int| 0 <= k < old(self).shown().len() implies old(self).shown()[k].arena_id != arena_id by {
                        assert(old(self).shown()[k] == self.cards@[k]@);
                    }
                }
            },
        }
    }
}

} // verus!
