use mtga_tracker::tracker::artist_report::{mapping_error_line, unmapped_artists};
use mtga_tracker::tracker::artists::map_lowercase_mtga_artist_name_to_scry;
use mtga_tracker::tracker::cards::{get_mtga_card_name, try_get_mtga_card_name, MtgaCard, ScryCard, TrackerCard};
use mtga_tracker::tracker::collations::collation_name;
use mtga_tracker::tracker::events::BoosterStack;
use mtga_tracker::tracker::mapping::{get_scry_card_for_mtga_card, lookup_scry_card, map_cards, ScryLookup};
use mtga_tracker::tracker::model::Uri;

fn mtga(arena_id: u32, name: &str, set: &str, cn: &str, artist: &str) -> MtgaCard {
    MtgaCard {
        name: String::from(name),
        scry_name: String::new(),
        set: String::from(set),
        scry_set: String::new(),
        arena_id,
        is_primary_card: true,
        is_main_set: true,
        is_token: false,
        linked_faces: vec![],
        is_collectible: true,
        is_craftable: true,
        tokens: vec![],
        templates: vec![],
        is_rebalanced: false,
        rebalanced_card_link: 0,
        artist: String::from(artist),
        art_id: 0,
        collector_number: String::from(cn),
        linked_face_type: String::new(),
        max_collected: 4,
        scry_uri: Uri(String::new()),
    }
}

fn scry(arena_id: Option<u32>, name: &str, set: &str, cn: &str, artist: Option<&str>) -> ScryCard {
    ScryCard {
        arena_id,
        lang: String::from("en"),
        name: String::from(name),
        layout: String::from("normal"),
        games: vec![String::from("paper"), String::from("arena")],
        artist: artist.map(String::from),
        booster: true,
        collector_number: String::from(cn),
        rarity: String::from("common"),
        set: String::from(set),
        scryfall_uri: Uri(String::from("https://scryfall.com/card/m21/1")),
        normal_image_uri: Some(Uri(String::from("https://img/opt.jpg"))),
    }
}

#[test]
fn card_names_join_the_faces_of_adventures() {
    let mut child = mtga(2, "Petty Theft", "eld", "39", "A");
    child.linked_face_type = String::from("LinkedFace_AdventureChild");
    let mut parent = mtga(1, "Brazen Borrower", "eld", "39", "A");
    parent.linked_face_type = String::from("LinkedFace_AdventureParent");
    parent.linked_faces = vec![2];
    let db = vec![parent, child];
    assert_eq!(get_mtga_card_name(&db, &db[1]), "petty theft // brazen borrower");
    assert_eq!(get_mtga_card_name(&db, &db[0]), "brazen borrower");
    let mut orphan = mtga(3, "Back", "x", "1", "A");
    orphan.linked_face_type = String::from("LinkedFace_DFC_Back");
    assert_eq!(try_get_mtga_card_name(&db, &orphan), None);
}

#[test]
fn printings_are_found_by_set_and_number_first() {
    let m = vec![mtga(1, "Opt", "m21", "59", "Tom")];
    let s = vec![scry(Some(1), "Other", "m21", "60", Some("Tom")), scry(Some(1), "Opt", "m21", "59", Some("Tom"))];
    assert_eq!(lookup_scry_card(&m, &s, &m[0], false), ScryLookup::Found(1));
    assert_eq!(get_scry_card_for_mtga_card(&m, &s, &m[0], false).map(|c| c.name()), Some("Opt"));
}

#[test]
fn printings_are_found_by_name_in_the_set_then_by_artist() {
    let m = vec![mtga(1, "Opt", "m21", "59", "Tom")];
    let in_set = vec![scry(None, "Opt", "m21", "500", Some("Tom"))];
    assert_eq!(lookup_scry_card(&m, &in_set, &m[0], false), ScryLookup::Found(0));
    let elsewhere = vec![scry(None, "Opt", "xln", "65", Some("Tom")), scry(None, "Opt", "dom", "60", Some("Other"))];
    assert_eq!(lookup_scry_card(&m, &elsewhere, &m[0], false), ScryLookup::Found(0));
    assert_eq!(lookup_scry_card(&m, &elsewhere, &m[0], true), ScryLookup::NotFound);
    let ambiguous = vec![scry(None, "Opt", "m21", "500", Some("Tom")), scry(None, "Opt", "m21", "501", Some("Tom"))];
    assert_eq!(lookup_scry_card(&m, &ambiguous, &m[0], false), ScryLookup::Aborted);
}

#[test]
fn cards_map_directly_then_by_lookup() {
    let m = vec![mtga(1, "Opt", "m21", "59", "Tom"), mtga(2, "Shock", "m21", "159", "Ann"), mtga(3, "Token", "m21", "t1", "Bo")];
    let mut not_collectible = mtga(4, "Nothing", "m21", "999", "Cy");
    not_collectible.is_collectible = false;
    let mut m = m;
    m.push(not_collectible);
    let s = vec![scry(Some(1), "Opt", "m21", "59", Some("Tom")), scry(None, "Shock", "m21", "159", Some("Ann"))];
    let mapping = map_cards(&m, &s).unwrap();
    assert_eq!(mapping.mapped.len(), 2);
    assert_eq!(mapping.mapped.get(&1), Some(&(0, 0)));
    assert_eq!(mapping.mapped.get(&2), Some(&(1, 1)));
    assert_eq!(mapping.remaining, vec![2, 3]);
}

#[test]
fn tracker_cards_take_names_from_scryfall() {
    let m = mtga(1, "Opt", "M21", "59", "Tom");
    let s = scry(Some(1), "Opt", "m21", "59", Some("Tom"));
    let t = TrackerCard::new(&m, &s);
    assert_eq!(t.name(), "Opt");
    assert_eq!(t.set(), "m21");
    assert_eq!(t.image_uri().as_str(), "https://img/opt.jpg");
    assert_eq!(t.describe(), "Opt - (m21:#59) (#1) (common)");
    assert!(!t.is_alchemy_card());
}

#[test]
fn names_and_artists_are_compared_lowercase() {
    assert_eq!(mtga(1, "Opt", "m21", "59", "ÆTHER Hub").lowercase_artist(), "æther hub");
    assert_eq!(scry(None, "ÆTHER Vial", "m21", "1", Some("Tom")).lowercase_name(), "æther vial");
    assert_eq!(scry(None, "Opt", "m21", "1", None).lowercase_artist(), None);
}

#[test]
fn artist_names_are_mapped_to_scryfall_spelling() {
    assert_eq!(map_lowercase_mtga_artist_name_to_scry("pascal blanche"), "pascal blanché");
    assert_eq!(map_lowercase_mtga_artist_name_to_scry("l.a draws"), "la draws");
    assert_eq!(map_lowercase_mtga_artist_name_to_scry("someone else"), "someone else");
}

#[test]
fn the_artist_report_lists_each_missing_artist_once() {
    let m = vec![
        mtga(1, "A", "x", "1", "Pascal Blanche"),
        mtga(2, "B", "x", "2", "Nobody"),
        mtga(3, "C", "x", "3", "NOBODY"),
        mtga(4, "D", "x", "4", "Tom"),
    ];
    let s = vec![scry(None, "A", "x", "1", Some("Pascal Blanché")), scry(None, "D", "x", "4", Some("tom")), scry(None, "E", "x", "5", None)];
    assert_eq!(unmapped_artists(&s, &m), vec![String::from("nobody")]);
    assert_eq!(mapping_error_line("nobody"), "Could not find a mapping for 'nobody' in the scry_db");
}

#[test]
fn mapping_an_artist_name_twice_changes_nothing_more() {
    for name in ["pascal blanche", "jihun", "蟻/ari", "someone else", "ari", "jihun lee"] {
        let once = map_lowercase_mtga_artist_name_to_scry(name);
        assert_eq!(map_lowercase_mtga_artist_name_to_scry(once), once);
    }
}

#[test]
fn draft_collations_follow_their_booster_collation() {
    for id in [100003, 100013, 100032, 100037, 100044] {
        assert_eq!(collation_name(id + 100000), format!("{}_draft", collation_name(id)));
    }
    assert_eq!(BoosterStack { collation_id: 200040, count: 2 }.short_name(), "woe_draft");
    assert_eq!(collation_name(200033), "sir_bonus_typal");
}

#[test]
fn collation_short_names() {
    assert_eq!(collation_name(100015), "eld");
    assert_eq!(collation_name(-5), "unknown");
    assert_eq!(BoosterStack { collation_id: 62242, count: 1 }.short_name(), "kld");
}
