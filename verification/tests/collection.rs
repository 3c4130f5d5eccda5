use mtga_tracker::tracker::cards::TrackerCard;
use mtga_tracker::tracker::collection::{card_row, CardImage, CollectionCard, CollectionComponent};
use mtga_tracker::tracker::model::Uri;
use mtga_tracker::tracker::ordering::{name_less, sorted_order};
use mtga_tracker::tracker::runner::UserSession;

fn card(id: u32, name: &str, rarity: &str) -> TrackerCard {
    TrackerCard {
        name: String::from(name),
        set: String::from("woe"),
        collector_number: id.to_string(),
        scry_uri: Uri(String::new()),
        arena_id: id,
        image_uri: Uri(String::new()),
        rarity: String::from(rarity),
        in_booster: true,
        is_alchemy_card: false,
        max_collected: 4,
    }
}

#[test]
fn names_compare_character_by_character() {
    assert!(name_less("Apple", "Banana"));
    assert!(!name_less("Banana", "Apple"));
    assert!(name_less("Opt", "Optimist"));
    assert!(!name_less("Opt", "Opt"));
    assert!(name_less("Zebra", "apple"));
    assert!(name_less("Ætherize", "Ørvar") == ("Ætherize" < "Ørvar"));
}

#[test]
fn sorting_keeps_ties_in_order() {
    let names: Vec<String> = ["b", "a", "c", "a", "b"].iter().map(|s| s.to_string()).collect();
    assert_eq!(sorted_order(&names), vec![1, 3, 0, 4, 2]);
    assert_eq!(sorted_order(&vec![]), Vec::<usize>::new());
}

#[test]
fn the_collection_needs_a_user() {
    let mut c = CollectionComponent::new();
    let empty: Vec<(TrackerCard, u32)> = vec![];
    assert_eq!(c.update_state(&empty, &empty, &empty, &empty), Err(String::from("Display user has not been set")));
}

#[test]
fn the_collection_lists_rarities_in_order_each_by_name() {
    let mut c = CollectionComponent::new();
    c.set_current_user(UserSession::new(1, String::from("U1"), String::from("Jace")));
    let common = vec![(card(3, "Shock", "common"), 2), (card(1, "Opt", "common"), 4)];
    let uncommon = vec![(card(5, "Growth", "uncommon"), 1)];
    let rare = vec![];
    let mythic = vec![(card(9, "Bolas", "mythic"), 0), (card(8, "Ajani", "mythic"), 1)];
    assert_eq!(c.update_state(&common, &uncommon, &rare, &mythic), Ok(()));
    let ids: Vec<u32> = c.cards().iter().map(|x| x.arena_id).collect();
    assert_eq!(ids, vec![1, 3, 5, 8, 9]);
    let counts: Vec<u32> = c.cards().iter().map(|x| x.num_collected).collect();
    assert_eq!(counts, vec![4, 2, 1, 1, 0]);
    assert!(c.hover_card(3));
    assert!(!c.hover_card(99));
}

#[test]
fn hovering_loads_an_image_once() {
    let mut c = CollectionComponent::new();
    c.set_current_user(UserSession::new(1, String::from("U1"), String::from("Jace")));
    let common = vec![(card(3, "Shock", "common"), 2)];
    let none: Vec<(TrackerCard, u32)> = vec![];
    c.update_state(&common, &none, &none, &none).unwrap();
    assert!(c.hover_card(3));
    c.image_loaded(3, vec![1, 2, 3]);
    assert!(!c.hover_card(3));
}

#[test]
fn card_rows_show_counts_ratings_and_tags() {
    let mut cc = CollectionCard::from_collected(&card(3, "Shock", "common"), 2);
    assert_eq!(cc.long_name, "Shock - (woe:#3) (#3) (common)");
    assert_eq!(cc.notes, "notes");
    cc.ratings_labels = vec![String::from("LSV"), String::from("17L")];
    cc.ratings_values = vec![String::from("3.5")];
    cc.tags = vec![String::from("burn")];
    let row = card_row(&cc);
    assert_eq!(row.base, "2/4 Shock - (woe:#3) (#3) (common)");
    assert_eq!(row.name, "Shock");
    assert!(matches!(row.image, CardImage::Waiting));
    assert_eq!(row.labels, vec![String::from("Collection: 2/4"), String::from("LSV: 3.5"), String::from("burn")]);
    assert_eq!(row.notes, "Notes: notes");
    cc.image_loaded = true;
    assert!(matches!(card_row(&cc).image, CardImage::Missing));
    cc.image = Some(vec![7]);
    match card_row(&cc).image {
        CardImage::Loaded(b) => assert_eq!(b, vec![7]),
        _ => panic!(),
    }
}
