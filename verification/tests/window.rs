use mtga_tracker::tracker::dates::NaiveDateTimeValue;
use mtga_tracker::tracker::events::{
    AccountInfoData, AccountInfoResult, ParseResults, SceneChangeResult, UnknownResult,
};
use mtga_tracker::tracker::gui::{
    collection_updated_line, current_user_line, injection_error_line, inventory_update_line,
    inventory_updated_line, plan_log_step, scene_change_line, set_choices, Action, InjectBarComponent,
    Interaction, LogStep, Mode, SetSelectorComponent, SetSelectorMessage, Status, TextStyle, SET_CHOICE_COUNT,
};

#[test]
fn switching_views_twice_comes_back() {
    assert_eq!(Mode::ShowLog.next(), Mode::ShowCollection);
    assert_eq!(Mode::ShowCollection.next(), Mode::ShowLog);
    assert_eq!(Mode::ShowLog.next().next(), Mode::ShowLog);
}

#[test]
fn the_inject_bar_shows_its_status() {
    let mut bar = InjectBarComponent::new();
    match bar.status() {
        Status::Success(t) => assert_eq!(t, "Initializing..."),
        _ => panic!(),
    }
    bar.set_status(Status::Error(String::from("boom")));
    match bar.status() {
        Status::Error(t) => assert_eq!(t, "boom"),
        _ => panic!(),
    }
}

#[test]
fn selecting_a_set_asks_to_show_it() {
    let mut s = SetSelectorComponent::new();
    assert_eq!(s.set_selected(), "ltr");
    let a = s.update(SetSelectorMessage::Interaction(Interaction::SetSelected(String::from("mom"))));
    assert_eq!(a, Action::ChangeSet(String::from("mom")));
    assert_eq!(s.set_selected(), "mom");
}

#[test]
fn the_selector_offers_the_sets_newest_first() {
    let sets = set_choices();
    assert_eq!(sets.len(), SET_CHOICE_COUNT);
    assert_eq!(sets[0].code, "ltr");
    assert_eq!(sets[0].symbol_height, 28);
    assert_eq!(sets[0].title, "The Lord of the Rings: Tales of Middle-earth - LTR");
    assert_eq!(sets[14].code, "m21");
    assert_eq!(sets[14].symbol_height, 24);
    assert_eq!(sets[27].code, "akr");
    let mut codes: Vec<&str> = sets.iter().map(|s| s.code).collect();
    codes.sort();
    codes.dedup();
    assert_eq!(codes.len(), SET_CHOICE_COUNT);
}

#[test]
fn log_lines() {
    assert_eq!(current_user_line("Jace"), "Current user: Jace");
    assert_eq!(inventory_updated_line("2023-07-18 10:11:12"), "[2023-07-18 10:11:12] Player inventory updated.");
    assert_eq!(collection_updated_line("t"), "[t] Collection updated.");
    assert_eq!(inventory_update_line("t", "{}"), "[t] Player inventory update event received:\n`{}`");
    assert_eq!(scene_change_line("Home", "Draft", "deck"), "Scene change from Home to Draft ctx: deck");
    assert_eq!(injection_error_line("no process"), "Error injecting: no process");
    assert_eq!(TextStyle::default(), TextStyle::Normal);
}

fn date() -> NaiveDateTimeValue {
    NaiveDateTimeValue { year: 2023, month: 7, day: 18, hour: 10, minute: 0, second: 0, nanosecond: 0 }
}

#[test]
fn what_the_window_does_with_log_messages() {
    let account = ParseResults::AccountInfoResult(AccountInfoResult {
        timestamp: String::from("2023-07-18T10:00:00Z"),
        attachment: AccountInfoData { user_id: String::from("U1"), screen_name: String::from("Jace") },
        prefix: String::new(),
        date: None,
        content: String::new(),
    });
    match plan_log_step(&account, false) {
        Some(LogStep::SwitchUser { user_id, screen_name }) => {
            assert_eq!(user_id, "U1");
            assert_eq!(screen_name, "Jace");
        },
        _ => panic!(),
    }
    let scene = ParseResults::SceneChangeResult(SceneChangeResult {
        from_scene_name: String::from("Home"),
        to_scene_name: String::from("Draft"),
        initiator: String::from("System"),
        context: Some(String::from("deck")),
        prefix: String::new(),
        date: Some(date()),
        content: String::new(),
    });
    match plan_log_step(&scene, true) {
        Some(LogStep::Show(l)) => assert_eq!(l, "Scene change from Home to Draft ctx: deck"),
        _ => panic!(),
    }
    let no_context = ParseResults::SceneChangeResult(SceneChangeResult {
        from_scene_name: String::from("Home"),
        to_scene_name: String::from("Draft"),
        initiator: String::from("System"),
        context: None,
        prefix: String::new(),
        date: None,
        content: String::new(),
    });
    assert!(plan_log_step(&no_context, true).is_none());
    let unknown = ParseResults::UnknownResult(UnknownResult::new(String::from("X"), None, String::from("y")));
    assert!(matches!(plan_log_step(&unknown, true), Some(LogStep::Ignore)));
}
