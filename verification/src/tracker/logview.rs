//! What the log view shows for an entry: a line of text, or, for an inventory update, a row of
//! badges (an icon with a short text, some with a list of details that pops up).

use vstd::prelude::*;
use crate::text::{concat_str, copy_str, decimal, decimal_string, plus_count_string, plus_signed, plus_signed_string, signed_decimal, signed_decimal_string, strings_view, lemma_strings_view_push};
use crate::tracker::collations::collation_short_name;
use crate::tracker::dates::friendly_time_text;
use crate::tracker::events::{added_cards, draft_kind, orb_kind, token_delta, token_sums_fit, ArtSkin, BoosterStack, InventoryUpdateResult, TicketStack};

verus! {

/// The icons of the badges.
#[derive(Debug, Clone, Copy, PartialEq, Eq, Structural)]
pub enum BadgeIcon {
    Gold,
    Gem,
    Xp,
    Packs,
    Orbs,
    CommonWildcard,
    UncommonWildcard,
    RareWildcard,
    MythicWildcard,
    Vanity,
    Style,
    Cards,
    Tickets,
    DraftToken,
}

/// An element of the row shown for an inventory update.
#[derive(Debug)]
pub enum EntryItem {
    /// The time of the update.
    Time(String),
    /// An icon with a text.
    Counter { icon: BadgeIcon, label: String },
    /// An icon with texts, and details that pop up.
    Popup { icon: BadgeIcon, labels: Vec<String>, details: Vec<String> },
    /// The place of the vault's progress, shown when it is not zero.
    Vault,
    /// What triggered the update.
    Context(String),
    /// The place of the update's JSON, which pops up.
    Debug,
}

/// The view of an element of the row.
pub enum ItemView {
    Time(Seq<char>),
    Counter { icon: BadgeIcon, label: Seq<char> },
    Popup { icon: BadgeIcon, labels: Seq<Seq<char>>, details: Seq<Seq<char>> },
    Vault,
    Context(Seq<char>),
    Debug,
}

impl View for EntryItem {
    type V = ItemView;

    open spec fn view(&self) -> ItemView {
        match self {
            EntryItem::Time(t) => ItemView::Time(t@),
            EntryItem::Counter { icon, label } => ItemView::Counter { icon: *icon, label: label@ },
            EntryItem::Popup { icon, labels, details } => ItemView::Popup {
                icon: *icon,
                labels: strings_view(labels@),
                details: strings_view(details@),
            },
            EntryItem::Vault => ItemView::Vault,
            EntryItem::Context(c) => ItemView::Context(c@),
            EntryItem::Debug => ItemView::Debug,
        }
    }
}

/// The views of a row.
pub open spec fn items_view(v: Seq<EntryItem>) -> Seq<ItemView> {
    v.map_values(|x: EntryItem| x@)
}

/// The sum of the counts of the first `n` stacks of packs.
pub open spec fn pack_sum(s: Seq<BoosterStack>, n: int) -> int
    decreases n,
{
    if n <= 0 {
        0
    } else {
        pack_sum(s, n - 1) + s[n - 1].count as int
    }
}

/// The sum of the counts of the first `n` stacks of tickets.
pub open spec fn ticket_sum(s: Seq<TicketStack>, n: int) -> int
    decreases n,
{
    if n <= 0 {
        0
    } else {
        ticket_sum(s, n - 1) + s[n - 1].count as int
    }
}

/// The running sums of the counts of the packs stay within `i32`.
pub open spec fn pack_sums_fit(s: Seq<BoosterStack>) -> bool {
    forall|n: int| 0 <= n <= s.len() ==> i32::MIN <= #[trigger] pack_sum(s, n) <= i32::MAX
}

/// The running sums of the counts of the tickets stay within `i32`.
pub open spec fn ticket_sums_fit(s: Seq<TicketStack>) -> bool {
    forall|n: int| 0 <= n <= s.len() ==> i32::MIN <= #[trigger] ticket_sum(s, n) <= i32::MAX
}

/// The element, if `shown`.
pub open spec fn shown_if(shown: bool, item: ItemView) -> Seq<ItemView> {
    if shown {
        seq![item]
    } else {
        Seq::empty()
    }
}

/// A counter with the signed change, shown when there is a change.
pub open spec fn delta_counter(icon: BadgeIcon, delta: i32) -> Seq<ItemView> {
    shown_if(delta != 0, ItemView::Counter { icon, label: plus_signed(delta as int) })
}

/// A counter with the signed change of tokens, shown when such tokens changed.
pub open spec fn token_counter(icon: BadgeIcon, delta: Option<i32>) -> Seq<ItemView> {
    match delta {
        Some(d) => seq![ItemView::Counter { icon, label: plus_signed(d as int) }],
        None => Seq::empty(),
    }
}

/// The detail of a stack of packs: its signed count and the short name of its collation.
pub open spec fn pack_line(s: BoosterStack) -> Seq<char> {
    plus_signed(s.count as int) + " "@ + collation_short_name(s.collation_id)
}

/// The detail of a stack of tickets: its signed count and the ticket's name.
pub open spec fn ticket_line(t: TicketStack) -> Seq<char> {
    plus_signed(t.count as int) + " "@ + t.ticket@
}

/// A card skin as the log view names it.
pub open spec fn skin_name(s: ArtSkin) -> Seq<char> {
    s.ccv@ + " - "@ + decimal(s.art_id as nat)
}

/// The name shown for an added card: its name where the database knows it, else its number.
pub open spec fn card_line(id: u32, name: Option<Seq<char>>) -> Seq<char> {
    match name {
        Some(n) => n,
        None => "Card #"@ + decimal(id as nat),
    }
}

/// The packs badge: the total, and one detail per stack; shown when packs changed.
pub open spec fn packs_items(packs: Seq<BoosterStack>) -> Seq<ItemView> {
    shown_if(
        packs.len() != 0,
        ItemView::Popup {
            icon: BadgeIcon::Packs,
            labels: seq![plus_signed(pack_sum(packs, packs.len() as int))],
            details: Seq::new(packs.len(), |i: int| pack_line(packs[i])),
        },
    )
}

/// The tickets badge: the total, and one detail per stack; shown when the update lists
/// tickets, even none.
pub open spec fn tickets_items(tickets: Option<Vec<TicketStack>>) -> Seq<ItemView> {
    match tickets {
        Some(t) => seq![
            ItemView::Popup {
                icon: BadgeIcon::Tickets,
                labels: seq![plus_signed(ticket_sum(t@, t@.len() as int))],
                details: Seq::new(t@.len(), |i: int| ticket_line(t@[i])),
            },
        ],
        None => Seq::empty(),
    }
}

/// The vanity badge: the number added (when some were), the number removed (written with a
/// plus sign, when the update lists removals), and the items with their sign.
pub open spec fn vanity_items(added: Seq<String>, removed: Option<Vec<String>>) -> Seq<ItemView> {
    shown_if(
        added.len() != 0 || removed is Some,
        ItemView::Popup {
            icon: BadgeIcon::Vanity,
            labels: shown_labels(added.len() != 0, plus_signed(added.len() as int)) + match removed {
                Some(r) => seq![plus_signed(r@.len() as int)],
                None => Seq::empty(),
            },
            details: Seq::new(added.len(), |i: int| "+"@ + added[i]@) + match removed {
                Some(r) => Seq::new(r@.len(), |i: int| "-"@ + r@[i]@),
                None => Seq::empty(),
            },
        },
    )
}

/// The style badge: the number of skins added (when some were), the number removed (with a
/// minus sign, when the update lists removals), and the skins with their sign.
pub open spec fn style_items(added: Seq<ArtSkin>, removed: Option<Vec<ArtSkin>>) -> Seq<ItemView> {
    shown_if(
        added.len() != 0 || removed is Some,
        ItemView::Popup {
            icon: BadgeIcon::Style,
            labels: shown_labels(added.len() != 0, plus_signed(added.len() as int)) + match removed {
                Some(r) => seq!["-"@ + decimal(r@.len())],
                None => Seq::empty(),
            },
            details: Seq::new(added.len(), |i: int| "+"@ + skin_name(added[i])) + match removed {
                Some(r) => Seq::new(r@.len(), |i: int| "-"@ + skin_name(r@[i])),
                None => Seq::empty(),
            },
        },
    )
}

/// A label, if `shown`.
pub open spec fn shown_labels(shown: bool, label: Seq<char>) -> Seq<Seq<char>> {
    if shown {
        seq![label]
    } else {
        Seq::empty()
    }
}

/// The cards badge: the number of cards added and their names; shown when cards were added.
pub open spec fn cards_items(ids: Seq<u32>, names: Seq<Option<Seq<char>>>) -> Seq<ItemView> {
    shown_if(
        ids.len() != 0,
        ItemView::Popup {
            icon: BadgeIcon::Cards,
            labels: seq![plus_signed(ids.len() as int)],
            details: Seq::new(ids.len(), |i: int| card_line(ids[i], names[i])),
        },
    )
}

/// The row shown for an inventory update, in order: its time, gold, gems, experience, packs,
/// the vault's place, orbs, the four wildcards from common to mythic, vanity items, skins,
/// cards, tickets, draft tokens, what triggered it, and the place of its JSON. `names` holds
/// the names of the added cards where the database knows them.
pub open spec fn update_items(u: InventoryUpdateResult, names: Seq<Option<Seq<char>>>) -> Seq<ItemView> {
    let d = u.attachment.delta;
    seq![ItemView::Time("["@ + friendly_time_text(u.timestamp@) + "]"@)]
        + delta_counter(BadgeIcon::Gold, d.gold_delta)
        + delta_counter(BadgeIcon::Gem, d.gems_delta)
        + shown_if(
        u.attachment.xp_gained != 0,
        ItemView::Counter { icon: BadgeIcon::Xp, label: signed_decimal(u.attachment.xp_gained as int) },
    ) + packs_items(d.booster_delta@) + seq![ItemView::Vault] + token_counter(
        BadgeIcon::Orbs,
        token_delta(d.custom_token_delta@, orb_kind()),
    ) + delta_counter(BadgeIcon::CommonWildcard, d.wc_common_delta) + delta_counter(
        BadgeIcon::UncommonWildcard,
        d.wc_uncommon_delta,
    ) + delta_counter(BadgeIcon::RareWildcard, d.wc_rare_delta) + delta_counter(
        BadgeIcon::MythicWildcard,
        d.wc_mythic_delta,
    ) + vanity_items(d.vanity_items_added@, d.vanity_items_removed) + style_items(
        d.art_skins_added@,
        d.art_skins_removed,
    ) + cards_items(added_cards(u.attachment.aetherized_cards@), names) + tickets_items(d.tickets)
        + token_counter(BadgeIcon::DraftToken, token_delta(d.custom_token_delta@, draft_kind()))
        + seq![ItemView::Context(u.attachment.context.source@), ItemView::Debug]
}

/// What the row needs to be built without overflow: the running totals of packs, tickets and
/// tokens stay within `i32`.
pub open spec fn update_totals_fit(u: InventoryUpdateResult) -> bool {
    &&& pack_sums_fit(u.attachment.delta.booster_delta@)
    &&& (u.attachment.delta.tickets matches Some(t) ==> ticket_sums_fit(t@))
    &&& token_sums_fit(u.attachment.delta.custom_token_delta@, orb_kind())
    &&& token_sums_fit(u.attachment.delta.custom_token_delta@, draft_kind())
}

/// The views of optional names.
pub open spec fn names_view(v: Seq<Option<String>>) -> Seq<Option<Seq<char>>> {
    v.map_values(|n: Option<String>| match n {
        Some(s) => Some(s@),
        None => None,
    })
}

proof fn lemma_items_view_push(v: Seq<EntryItem>, x: EntryItem)
    ensures
        items_view(v.push(x)) == items_view(v) + seq![x@],
{
    assert(items_view(v.push(x)) =~= items_view(v) + seq![x@]);
}

/// Appends an element to the row.
fn push_item(out: &mut Vec<EntryItem>, x: EntryItem)
    ensures
        items_view(final(out)@) == items_view(old(out)@) + seq![x@],
{
    proof {
        lemma_items_view_push(old(out)@, x);
    }
    out.push(x);
}

/// Appends a counter of the change, when there is one.
fn push_delta(out: &mut Vec<EntryItem>, icon: BadgeIcon, delta: i32)
    ensures
        items_view(final(out)@) == items_view(old(out)@) + delta_counter(icon, delta),
{
    if delta != 0 {
        push_item(out, EntryItem::Counter { icon, label: plus_signed_string(delta as i64) });
    } else {
        assert(items_view(out@) + delta_counter(icon, delta) =~= items_view(out@));
    }
}

/// Appends a counter of the change of tokens, when such tokens changed.
fn push_tokens(out: &mut Vec<EntryItem>, icon: BadgeIcon, delta: Option<i32>)
    ensures
        items_view(final(out)@) == items_view(old(out)@) + token_counter(icon, delta),
{
    match delta {
        Some(d) => {
            push_item(out, EntryItem::Counter { icon, label: plus_signed_string(d as i64) });
        },
        None => {
            assert(items_view(out@) + token_counter(icon, delta) =~= items_view(out@));
        },
    }
}

/// The details and the total of the packs.
fn pack_details(packs: &Vec<BoosterStack>) -> (r: (Vec<String>, i32))
    requires
        pack_sums_fit(packs@),
    ensures
        strings_view(r.0@) == Seq::new(packs@.len(), |i: int| pack_line(packs@[i])),
        r.1 == pack_sum(packs@, packs@.len() as int),
{
    let mut lines: Vec<String> = Vec::new();
    let mut total: i32 = 0;
    let mut i: usize = 0;
    while i < packs.len()
        invariant
            i <= packs@.len(),
            pack_sums_fit(packs@),
            total == pack_sum(packs@, i as int),
            strings_view(lines@) =~= Seq::new(i as nat, |j: int| pack_line(packs@[j])),
        decreases packs.len() - i,
    {
        let count = plus_signed_string(packs[i].count as i64);
        let line = concat_str(count.as_str(), " ");
        let name = packs[i].short_name();
        let line = concat_str(line.as_str(), name.as_str());
        proof {
            lemma_strings_view_push(lines@, line);
            assert(i32::MIN <= pack_sum(packs@, i + 1) <= i32::MAX);
        }
        lines.push(line);
        total = total + packs[i].count;
        i = i + 1;
    }
    (lines, total)
}

/// The details and the total of the tickets.
fn ticket_details(tickets: &Vec<TicketStack>) -> (r: (Vec<String>, i32))
    requires
        ticket_sums_fit(tickets@),
    ensures
        strings_view(r.0@) == Seq::new(tickets@.len(), |i: int| ticket_line(tickets@[i])),
        r.1 == ticket_sum(tickets@, tickets@.len() as int),
{
    let mut lines: Vec<String> = Vec::new();
    let mut total: i32 = 0;
    let mut i: usize = 0;
    while i < tickets.len()
        invariant
            i <= tickets@.len(),
            ticket_sums_fit(tickets@),
            total == ticket_sum(tickets@, i as int),
            strings_view(lines@) =~= Seq::new(i as nat, |j: int| ticket_line(tickets@[j])),
        decreases tickets.len() - i,
    {
        let count = plus_signed_string(tickets[i].count as i64);
        let line = concat_str(count.as_str(), " ");
        let line = concat_str(line.as_str(), tickets[i].ticket.as_str());
        proof {
            lemma_strings_view_push(lines@, line);
            assert(i32::MIN <= ticket_sum(tickets@, i + 1) <= i32::MAX);
        }
        lines.push(line);
        total = total + tickets[i].count;
        i = i + 1;
    }
    (lines, total)
}

/// Appends to `lines` each of `items` after `sign`.
fn push_signed_strings(lines: &mut Vec<String>, sign: &str, items: &Vec<String>)
    ensures
        strings_view(final(lines)@) == strings_view(old(lines)@) + Seq::new(
            items@.len(),
            |i: int| sign@ + items@[i]@,
        ),
{
    let ghost start = strings_view(lines@);
    let mut i: usize = 0;
    while i < items.len()
        invariant
            i <= items@.len(),
            strings_view(lines@) =~= start + Seq::new(i as nat, |j: int| sign@ + items@[j]@),
        decreases items.len() - i,
    {
        let line = concat_str(sign, items[i].as_str());
        proof {
            lemma_strings_view_push(lines@, line);
        }
        lines.push(line);
        i = i + 1;
    }
}

/// Appends to `lines` each of the skins' names after `sign`.
fn push_signed_skins(lines: &mut Vec<String>, sign: &str, skins: &Vec<ArtSkin>)
    ensures
        strings_view(final(lines)@) == strings_view(old(lines)@) + Seq::new(
            skins@.len(),
            |i: int| sign@ + skin_name(skins@[i]),
        ),
{
    let ghost start = strings_view(lines@);
    let mut i: usize = 0;
    while i < skins.len()
        invariant
            i <= skins@.len(),
            strings_view(lines@) =~= start + Seq::new(i as nat, |j: int| sign@ + skin_name(skins@[j])),
        decreases skins.len() - i,
    {
        let name = skins[i].logview_name();
        let line = concat_str(sign, name.as_str());
        proof {
            lemma_strings_view_push(lines@, line);
        }
        lines.push(line);
        i = i + 1;
    }
}

/// The names of the added cards.
fn card_details(ids: &Vec<u32>, names: &Vec<Option<String>>) -> (r: Vec<String>)
    requires
        names@.len() == ids@.len(),
    ensures
        strings_view(r@) == Seq::new(ids@.len(), |i: int| card_line(ids@[i], names_view(names@)[i])),
{
    let mut lines: Vec<String> = Vec::new();
    let mut i: usize = 0;
    while i < ids.len()
        invariant
            i <= ids@.len(),
            names@.len() == ids@.len(),
            strings_view(lines@) =~= Seq::new(i as nat, |j: int| card_line(ids@[j], names_view(names@)[j])),
        decreases ids.len() - i,
    {
        let line = match &names[i] {
            Some(n) => copy_str(n.as_str()),
            None => {
                let digits = decimal_string(ids[i] as u64);
                concat_str("Card #", digits.as_str())
            },
        };
        proof {
            lemma_strings_view_push(lines@, line);
        }
        lines.push(line);
        i = i + 1;
    }
    lines
}

/// A single label.
fn one_label(label: String) -> (r: Vec<String>)
    ensures
        strings_view(r@) == seq![label@],
{
    let mut v: Vec<String> = Vec::new();
    proof {
        lemma_strings_view_push(v@, label);
    }
    v.push(label);
    assert(strings_view(v@) =~= seq![label@]);
    v
}

/// Appends the experience counter, when experience was gained.
fn push_xp(out: &mut Vec<EntryItem>, xp: i32)
    ensures
        items_view(final(out)@) == items_view(old(out)@) + shown_if(
            xp != 0,
            ItemView::Counter { icon: BadgeIcon::Xp, label: signed_decimal(xp as int) },
        ),
{
    if xp != 0 {
        push_item(out, EntryItem::Counter { icon: BadgeIcon::Xp, label: signed_decimal_string(xp as i64) });
    } else {
        let ghost before = items_view(out@);
        assert(before + shown_if(xp != 0, ItemView::Counter { icon: BadgeIcon::Xp, label: signed_decimal(xp as int) })
            =~= before);
    }
}

/// Appends the packs badge, when packs changed.
fn push_packs(out: &mut Vec<EntryItem>, packs: &Vec<BoosterStack>)
    requires
        pack_sums_fit(packs@),
    ensures
        items_view(final(out)@) == items_view(old(out)@) + packs_items(packs@),
{
    if packs.len() != 0 {
        let (lines, total) = pack_details(packs);
        let labels = one_label(plus_signed_string(total as i64));
        push_item(out, EntryItem::Popup { icon: BadgeIcon::Packs, labels, details: lines });
    } else {
        let ghost before = items_view(out@);
        assert(before + packs_items(packs@) =~= before);
    }
}

/// Appends the vanity badge, when vanity items changed.
fn push_vanity(out: &mut Vec<EntryItem>, added: &Vec<String>, removed: &Option<Vec<String>>)
    ensures
        items_view(final(out)@) == items_view(old(out)@) + vanity_items(added@, *removed),
{
    if added.len() != 0 || removed.is_some() {
        let mut labels: Vec<String> = Vec::new();
        let mut details: Vec<String> = Vec::new();
        assert(strings_view(labels@) =~= Seq::<Seq<char>>::empty());
        assert(strings_view(details@) =~= Seq::<Seq<char>>::empty());
        if added.len() != 0 {
            let l = plus_count_string(added.len() as u64);
            proof {
                lemma_strings_view_push(labels@, l);
            }
            labels.push(l);
        }
        let ghost l0 = strings_view(labels@);
        assert(l0 =~= shown_labels(added@.len() != 0, plus_signed(added@.len() as int)));
        push_signed_strings(&mut details, "+", added);
        let ghost d0 = strings_view(details@);
        assert(d0 =~= Seq::new(added@.len(), |i: int| "+"@ + added@[i]@));
        match removed {
            Some(r) => {
                let l = plus_count_string(r.len() as u64);
                proof {
                    lemma_strings_view_push(labels@, l);
                }
                labels.push(l);
                push_signed_strings(&mut details, "-", r);
                assert(strings_view(labels@) =~= l0 + seq![plus_signed(r@.len() as int)]);
            },
            None => {
                assert(strings_view(labels@) =~= l0 + Seq::<Seq<char>>::empty());
                assert(strings_view(details@) =~= d0 + Seq::<Seq<char>>::empty());
            },
        }
        push_item(out, EntryItem::Popup { icon: BadgeIcon::Vanity, labels, details });
    } else {
        let ghost before = items_view(out@);
        assert(before + vanity_items(added@, *removed) =~= before);
    }
}

/// Appends the style badge, when card skins changed.
fn push_style(out: &mut Vec<EntryItem>, added: &Vec<ArtSkin>, removed: &Option<Vec<ArtSkin>>)
    ensures
        items_view(final(out)@) == items_view(old(out)@) + style_items(added@, *removed),
{
    if added.len() != 0 || removed.is_some() {
        let mut labels: Vec<String> = Vec::new();
        let mut details: Vec<String> = Vec::new();
        assert(strings_view(labels@) =~= Seq::<Seq<char>>::empty());
        assert(strings_view(details@) =~= Seq::<Seq<char>>::empty());
        if added.len() != 0 {
            let l = plus_count_string(added.len() as u64);
            proof {
                lemma_strings_view_push(labels@, l);
            }
            labels.push(l);
        }
        let ghost l0 = strings_view(labels@);
        assert(l0 =~= shown_labels(added@.len() != 0, plus_signed(added@.len() as int)));
        push_signed_skins(&mut details, "+", added);
        let ghost d0 = strings_view(details@);
        assert(d0 =~= Seq::new(added@.len(), |i: int| "+"@ + skin_name(added@[i])));
        match removed {
            Some(r) => {
                let digits = decimal_string(r.len() as u64);
                let l = concat_str("-", digits.as_str());
                proof {
                    lemma_strings_view_push(labels@, l);
                }
                labels.push(l);
                push_signed_skins(&mut details, "-", r);
                assert(strings_view(labels@) =~= l0 + seq!["-"@ + decimal(r@.len())]);
            },
            None => {
                assert(strings_view(labels@) =~= l0 + Seq::<Seq<char>>::empty());
                assert(strings_view(details@) =~= d0 + Seq::<Seq<char>>::empty());
            },
        }
        push_item(out, EntryItem::Popup { icon: BadgeIcon::Style, labels, details });
    } else {
        let ghost before = items_view(out@);
        assert(before + style_items(added@, *removed) =~= before);
    }
}

/// Appends the cards badge, when cards were added.
fn push_cards(out: &mut Vec<EntryItem>, ids: &Vec<u32>, names: &Vec<Option<String>>)
    requires
        names@.len() == ids@.len(),
    ensures
        items_view(final(out)@) == items_view(old(out)@) + cards_items(ids@, names_view(names@)),
{
    if ids.len() != 0 {
        let details = card_details(ids, names);
        let labels = one_label(plus_count_string(ids.len() as u64));
        push_item(out, EntryItem::Popup { icon: BadgeIcon::Cards, labels, details });
    } else {
        let ghost before = items_view(out@);
        assert(before + cards_items(ids@, names_view(names@)) =~= before);
    }
}

/// Appends the tickets badge, when the update lists tickets.
fn push_tickets(out: &mut Vec<EntryItem>, tickets: &Option<Vec<TicketStack>>)
    requires
        tickets matches Some(t) ==> ticket_sums_fit(t@),
    ensures
        items_view(final(out)@) == items_view(old(out)@) + tickets_items(*tickets),
{
    match tickets {
        Some(t) => {
            let (lines, total) = ticket_details(t);
            let labels = one_label(plus_signed_string(total as i64));
            push_item(out, EntryItem::Popup { icon: BadgeIcon::Tickets, labels, details: lines });
        },
        None => {
            let ghost before = items_view(out@);
            assert(before + tickets_items(*tickets) =~= before);
        },
    }
}

/// The row shown for an inventory update (see `update_items`). `card_names` holds, for each
/// card of `cards_added`, its name where the database knows it.
pub fn inventory_update_items(u: &InventoryUpdateResult, card_names: &Vec<Option<String>>) -> (r: Vec<EntryItem>)
    requires
        update_totals_fit(*u),
        card_names@.len() == added_cards(u.attachment.aetherized_cards@).len(),
    ensures
        items_view(r@) == update_items(*u, names_view(card_names@)),
{
    let d = &u.attachment.delta;
    let mut out: Vec<EntryItem> = Vec::new();
    assert(items_view(out@) =~= Seq::<ItemView>::empty());
    let time = u.friendly_time();
    let time = concat_str("[", time.as_str());
    let time = concat_str(time.as_str(), "]");
    push_item(&mut out, EntryItem::Time(time));
    assert(items_view(out@) =~= seq![ItemView::Time("["@ + friendly_time_text(u.timestamp@) + "]"@)]);
    push_delta(&mut out, BadgeIcon::Gold, u.gold_delta());
    push_delta(&mut out, BadgeIcon::Gem, u.gems_delta());
    push_xp(&mut out, u.xp_gained());
    push_packs(&mut out, &d.booster_delta);
    push_item(&mut out, EntryItem::Vault);
    push_tokens(&mut out, BadgeIcon::Orbs, u.orbs_delta());
    push_delta(&mut out, BadgeIcon::CommonWildcard, u.common_wildcard_delta());
    push_delta(&mut out, BadgeIcon::UncommonWildcard, u.uncommon_wildcard_delta());
    push_delta(&mut out, BadgeIcon::RareWildcard, u.rare_wildcard_delta());
    push_delta(&mut out, BadgeIcon::MythicWildcard, u.mythic_wildcard_delta());
    push_vanity(&mut out, &d.vanity_items_added, &d.vanity_items_removed);
    push_style(&mut out, &d.art_skins_added, &d.art_skins_removed);
    let ids = u.cards_added();
    push_cards(&mut out, &ids, card_names);
    push_tickets(&mut out, &d.tickets);
    push_tokens(&mut out, BadgeIcon::DraftToken, u.draft_token_delta());
    let ghost before = items_view(out@);
    push_item(&mut out, EntryItem::Context(copy_str(u.source_context())));
    push_item(&mut out, EntryItem::Debug);
    assert(items_view(out@) =~= before + seq![ItemView::Context(u.attachment.context.source@), ItemView::Debug]);
    out
}

/// An entry of the log view.
pub enum LogEntry {
    String(String),
    InventoryUpdate(InventoryUpdateResult),
}

/// The entries of the log view, the newest first.
pub struct LogViewComponent {
    messages: Vec<LogEntry>,
}

impl LogViewComponent {
    /// The entries, the newest first.
    pub closed spec fn entries(&self) -> Seq<LogEntry> {
        self.messages@
    }

    /// An empty log view.
    pub fn new() -> (r: LogViewComponent)
        ensures
            r.entries().len() == 0,
    {
        LogViewComponent { messages: Vec::new() }
    }

    /// Adds an entry on top of the others.
    pub fn add_entry(&mut self, message: LogEntry)
        ensures
            final(self).entries() == seq![message] + old(self).entries(),
    {
        self.messages.insert(0, message);
        assert(self.messages@ =~= seq![message] + old(self).messages@);
    }

    /// The entries, the newest first.
    pub fn messages(&self) -> (r: &Vec<LogEntry>)
        ensures
            r@ == self.entries(),
    {
        &self.messages
    }
}

} // verus!
