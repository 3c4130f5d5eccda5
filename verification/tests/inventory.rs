use mtga_tracker::tracker::events::{
    integer_decode, AetherizedCardInformation, ArtSkin, BoosterStack, CustomTokenDeltaInfo,
    HashableF64, InventoryDelta, InventoryUpdateContext, InventoryUpdateData, InventoryUpdateResult,
    TicketStack,
};
use mtga_tracker::tracker::logview::{inventory_update_items, BadgeIcon, EntryItem, LogEntry, LogViewComponent};

fn delta() -> InventoryDelta {
    InventoryDelta {
        gems_delta: 0,
        gold_delta: 0,
        booster_delta: vec![],
        cards_added: vec![],
        decks_added: vec![],
        starter_decks_added: None,
        vanity_items_added: vec![],
        vanity_items_removed: None,
        vault_progress_delta: HashableF64 { bits: 0 },
        wc_track_position: 0,
        wc_common_delta: 0,
        wc_uncommon_delta: 0,
        wc_rare_delta: 0,
        wc_mythic_delta: 0,
        art_skins_added: vec![],
        art_skins_removed: None,
        tickets: None,
        custom_token_delta: vec![],
        voucher_items_delta: None,
    }
}

fn card(grp_id: u32, added: bool) -> AetherizedCardInformation {
    AetherizedCardInformation {
        grp_id,
        added_to_inventory: added,
        is_granted_from_deck: false,
        vault_progress: HashableF64 { bits: 0 },
        gold_awarded: 0,
        gems_awarded: 0,
        set: None,
    }
}

fn update(delta: InventoryDelta, cards: Vec<AetherizedCardInformation>, xp: i32) -> InventoryUpdateResult {
    InventoryUpdateResult {
        timestamp: String::from("2023-07-18T10:11:12Z"),
        source: String::from("QuestReward"),
        attachment: InventoryUpdateData {
            delta,
            aetherized_cards: cards,
            xp_gained: xp,
            context: InventoryUpdateContext { source: String::from("EventReward"), source_id: None },
            parent_context: None,
        },
        prefix: String::from("MTGADataCollector"),
        date: None,
        content: String::from("{}"),
    }
}

fn token(id: &str, delta: i32) -> CustomTokenDeltaInfo {
    CustomTokenDeltaInfo { id: String::from(id), delta }
}

#[test]
fn token_deltas_sum_the_tokens_of_their_kind() {
    let mut d = delta();
    d.custom_token_delta = vec![token("DraftToken", 1), token("ELD_Orb", 2), token("BattlePass_Orb", -1), token("DraftToken", 2)];
    let u = update(d, vec![], 0);
    assert_eq!(u.draft_token_delta(), Some(3));
    assert_eq!(u.orbs_delta(), Some(1));
    let none = update(delta(), vec![], 0);
    assert_eq!(none.draft_token_delta(), None);
    assert_eq!(none.orbs_delta(), None);
}

#[test]
fn added_cards_leave_out_wildcards_and_vaulted_cards() {
    let u = update(delta(), vec![card(70000, true), card(9, true), card(6, true), card(70001, false), card(70002, true)], 0);
    assert_eq!(u.cards_added(), vec![70000, 70002]);
    assert!(card(70000, true).is_actual_card());
    assert!(!card(7, true).is_actual_card());
}

#[test]
fn the_packs_getter_hides_empty_lists() {
    let mut d = delta();
    assert!(update(delta(), vec![], 0).packs_delta().is_none());
    d.booster_delta = vec![BoosterStack { collation_id: 100026, count: 1 }];
    assert_eq!(update(d, vec![], 0).packs_delta().map(|p| p.len()), Some(1));
}

#[test]
fn skins_are_named_by_style_and_art() {
    let s = ArtSkin { art_id: 4242, ccv: String::from("DA") };
    assert_eq!(s.logview_name(), "DA - 4242");
}

#[test]
fn decoding_float_bits() {
    assert_eq!(integer_decode(1.0f64.to_bits()), (4503599627370496, -52, 1));
    assert_eq!(integer_decode((-2.0f64).to_bits()), (4503599627370496, -51, -1));
    assert_eq!(integer_decode(0.0f64.to_bits()), (0, -1075, 1));
    assert_ne!(integer_decode(0.1f64.to_bits()), integer_decode(0.2f64.to_bits()));
}

fn labels_of(item: &EntryItem) -> (BadgeIcon, Vec<String>, Vec<String>) {
    match item {
        EntryItem::Counter { icon, label } => (*icon, vec![label.clone()], vec![]),
        EntryItem::Popup { icon, labels, details } => (*icon, labels.clone(), details.clone()),
        _ => panic!("not a badge"),
    }
}

#[test]
fn the_row_of_an_empty_update() {
    let u = update(delta(), vec![], 0);
    let items = inventory_update_items(&u, &vec![]);
    assert_eq!(items.len(), 4);
    match &items[0] {
        EntryItem::Time(t) => assert_eq!(t, "[2023-07-18 10:11:12]"),
        _ => panic!(),
    }
    assert!(matches!(items[1], EntryItem::Vault));
    match &items[2] {
        EntryItem::Context(c) => assert_eq!(c, "EventReward"),
        _ => panic!(),
    }
    assert!(matches!(items[3], EntryItem::Debug));
}

#[test]
fn the_row_of_a_full_update() {
    let mut d = delta();
    d.gold_delta = 250;
    d.gems_delta = -100;
    d.booster_delta = vec![BoosterStack { collation_id: 100015, count: 3 }, BoosterStack { collation_id: 1, count: -1 }];
    d.wc_rare_delta = 1;
    d.vanity_items_added = vec![String::from("pet.cat")];
    d.vanity_items_removed = Some(vec![String::from("pet.dog"), String::from("avatar.x")]);
    d.art_skins_added = vec![ArtSkin { art_id: 5, ccv: String::from("DA") }];
    d.art_skins_removed = Some(vec![]);
    d.tickets = Some(vec![TicketStack { ticket: String::from("DraftTicket"), count: 2 }]);
    d.custom_token_delta = vec![token("DraftToken", -1), token("M21_Orb", 4)];
    let u = update(d, vec![card(70000, true), card(70001, true)], 150);
    let names = vec![Some(String::from("Opt")), None];
    let items = inventory_update_items(&u, &names);
    let badges: Vec<(BadgeIcon, Vec<String>, Vec<String>)> = items
        .iter()
        .filter(|i| matches!(i, EntryItem::Counter { .. } | EntryItem::Popup { .. }))
        .map(labels_of)
        .collect();
    let s = |v: &[&str]| v.iter().map(|x| x.to_string()).collect::<Vec<String>>();
    assert_eq!(
        badges,
        vec![
            (BadgeIcon::Gold, s(&["+250"]), s(&[])),
            (BadgeIcon::Gem, s(&["-100"]), s(&[])),
            (BadgeIcon::Xp, s(&["150"]), s(&[])),
            (BadgeIcon::Packs, s(&["+2"]), s(&["+3 eld", "-1 unknown"])),
            (BadgeIcon::Orbs, s(&["+4"]), s(&[])),
            (BadgeIcon::RareWildcard, s(&["+1"]), s(&[])),
            (BadgeIcon::Vanity, s(&["+1", "+2"]), s(&["+pet.cat", "-pet.dog", "-avatar.x"])),
            (BadgeIcon::Style, s(&["+1", "-0"]), s(&["+DA - 5"])),
            (BadgeIcon::Cards, s(&["+2"]), s(&["Opt", "Card #70001"])),
            (BadgeIcon::Tickets, s(&["+2"]), s(&["+2 DraftTicket"])),
            (BadgeIcon::DraftToken, s(&["-1"]), s(&[])),
        ]
    );
    assert!(matches!(items[0], EntryItem::Time(_)));
    assert!(matches!(items[5], EntryItem::Vault));
    assert!(matches!(items[items.len() - 1], EntryItem::Debug));
}

#[test]
fn new_log_entries_go_on_top() {
    let mut view = LogViewComponent::new();
    view.add_entry(LogEntry::String(String::from("first")));
    view.add_entry(LogEntry::String(String::from("second")));
    let texts: Vec<&str> = view
        .messages()
        .iter()
        .map(|e| match e {
            LogEntry::String(s) => s.as_str(),
            LogEntry::InventoryUpdate(_) => "",
        })
        .collect();
    assert_eq!(texts, vec!["second", "first"]);
}
