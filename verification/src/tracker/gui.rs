//! The state that the tracker's window keeps, and the lines it shows in its log view.

use vstd::prelude::*;
use crate::text::{concat_str, copy_str};
use crate::tracker::dates::{friendly_time_text, NaiveDateTimeValue};
use crate::tracker::events::{ParseResults};

verus! {

/// What the window shows.
#[derive(Debug, Clone, Copy, PartialEq, Eq, Structural)]
pub enum Mode {
    ShowLog,
    ShowCollection,
}

/// The other view.
pub open spec fn other_mode(m: Mode) -> Mode {
    match m {
        Mode::ShowLog => Mode::ShowCollection,
        Mode::ShowCollection => Mode::ShowLog,
    }
}

impl Mode {
    /// The view that switching leads to.
    pub fn next(&self) -> (r: Mode)
        ensures
            r == other_mode(*self),
    {
        match self {
            Mode::ShowLog => Mode::ShowCollection,
            Mode::ShowCollection => Mode::ShowLog,
        }
    }
}

/// Switching views twice comes back to the first view, and switching always changes it.
pub proof fn lemma_switch_twice(m: Mode)
    ensures
        other_mode(other_mode(m)) == m,
        other_mode(m) != m,
{
}

/// What the user asks of the window.
#[derive(Debug, Clone, PartialEq, Eq)]
pub enum Action {
    Reinject,
    ChangeSet(String),
    CardHovered(u32),
    ParseLog,
    SwitchView,
}

/// The state of the data collector's injection, with the text shown for it.
#[derive(Debug, Clone)]
pub enum Status {
    Success(String),
    Error(String),
}

/// The text shown when the collector was injected.
pub const INJECTED_MESSAGE: &'static str = "Data collector injected successfully.";

/// The bar that shows the injection's state.
pub struct InjectBarComponent {
    status: Status,
}

impl InjectBarComponent {
    /// The state shown.
    pub closed spec fn status_view(&self) -> Status {
        self.status
    }

    /// The bar before anything is known: "Initializing...".
    pub fn new() -> (r: InjectBarComponent)
        ensures
            r.status_view() matches Status::Success(t) && t@ == "Initializing..."@,
    {
        InjectBarComponent { status: Status::Success(copy_str("Initializing...")) }
    }

    /// Shows another state.
    pub fn set_status(&mut self, status: Status)
        ensures
            final(self).status_view() == status,
    {
        self.status = status;
    }

    /// The state shown.
    pub fn status(&self) -> (r: &Status)
        ensures
            *r == self.status_view(),
    {
        &self.status
    }
}

/// What the set selector was told.
#[derive(Debug, Clone)]
pub enum Interaction {
    SetSelected(String),
}

/// A message to the set selector.
#[derive(Debug, Clone)]
pub enum SetSelectorMessage {
    Interaction(Interaction),
}

/// The row of set symbols, with the set chosen.
pub struct SetSelectorComponent {
    set_selected: String,
}

impl SetSelectorComponent {
    /// The set chosen.
    pub closed spec fn selected(&self) -> Seq<char> {
        self.set_selected@
    }

    /// The selector with the newest set ("ltr") chosen.
    pub fn new() -> (r: SetSelectorComponent)
        ensures
            r.selected() == "ltr"@,
    {
        SetSelectorComponent { set_selected: copy_str("ltr") }
    }

    /// The set chosen.
    pub fn set_selected(&self) -> (r: &str)
        ensures
            r@ == self.selected(),
    {
        self.set_selected.as_str()
    }

    /// Chooses the set of the message, and gives the action that changes the shown set to it.
    pub fn update(&mut self, message: SetSelectorMessage) -> (r: Action)
        ensures
            match message {
                SetSelectorMessage::Interaction(Interaction::SetSelected(s)) => {
                    &&& final(self).selected() == s@
                    &&& r matches Action::ChangeSet(t)
                    &&& t@ == s@
                },
            },
    {
        match message {
            SetSelectorMessage::Interaction(Interaction::SetSelected(set)) => {
                let changed = copy_str(set.as_str());
                self.set_selected = set;
                Action::ChangeSet(changed)
            },
        }
    }
}

/// The line shown when the log names the current user.
pub fn current_user_line(screen_name: &str) -> (r: String)
    ensures
        r@ == "Current user: "@ + screen_name@,
{
    concat_str("Current user: ", screen_name)
}

/// The line shown when the inventory was read.
pub fn inventory_updated_line(friendly_time: &str) -> (r: String)
    ensures
        r@ == "["@ + friendly_time@ + "] Player inventory updated."@,
{
    let head = concat_str("[", friendly_time);
    concat_str(head.as_str(), "] Player inventory updated.")
}

/// The line shown when the collection was read.
pub fn collection_updated_line(friendly_time: &str) -> (r: String)
    ensures
        r@ == "["@ + friendly_time@ + "] Collection updated."@,
{
    let head = concat_str("[", friendly_time);
    concat_str(head.as_str(), "] Collection updated.")
}

/// The line logged when an inventory update arrives, with its message.
pub fn inventory_update_line(friendly_time: &str, content: &str) -> (r: String)
    ensures
        r@ == "["@ + friendly_time@ + "] Player inventory update event received:\n`"@ + content@ + "`"@,
{
    let head = concat_str("[", friendly_time);
    let head = concat_str(head.as_str(), "] Player inventory update event received:\n`");
    let head = concat_str(head.as_str(), content);
    concat_str(head.as_str(), "`")
}

/// The line shown for a scene change.
pub fn scene_change_line(from: &str, to: &str, context: &str) -> (r: String)
    ensures
        r@ == "Scene change from "@ + from@ + " to "@ + to@ + " ctx: "@ + context@,
{
    let head = concat_str("Scene change from ", from);
    let head = concat_str(head.as_str(), " to ");
    let head = concat_str(head.as_str(), to);
    let head = concat_str(head.as_str(), " ctx: ");
    concat_str(head.as_str(), context)
}

/// The line logged when the injection failed.
pub fn injection_error_line(reason: &str) -> (r: String)
    ensures
        r@ == "Error injecting: "@ + reason@,
{
    concat_str("Error injecting: ", reason)
}

/// The number of sets the selector offers.
pub const SET_CHOICE_COUNT: usize = 28;

/// The set at `i` in the selector, newest first: its code, the height of its symbol in pixels,
/// and the tooltip that names it.
pub open spec fn set_choice_at(i: int) -> (Seq<char>, u32, Seq<char>) {
    if i == 0 {
        ("ltr"@, 28u32, "The Lord of the Rings: Tales of Middle-earth - LTR"@)
    }
    else if i == 1 {
        ("mom"@, 32u32, "March of the Machine - MOM"@)
    }
    else if i == 2 {
        ("one"@, 32u32, "Phyrexia: All Will Be One - ONE"@)
    }
    else if i == 3 {
        ("bro"@, 32u32, "The Brothers' War - BRO"@)
    }
    else if i == 4 {
        ("dmu"@, 32u32, "Dominaria United - DMU"@)
    }
    else if i == 5 {
        ("hbg"@, 32u32, "Alchemy Horizons: Baldur's Gate - HBG"@)
    }
    else if i == 6 {
        ("snc"@, 28u32, "Streets of New Capenna - SNC"@)
    }
    else if i == 7 {
        ("neo"@, 28u32, "Kamigawa: Neon Dynasty - NEO"@)
    }
    else if i == 8 {
        ("vow"@, 32u32, "Innistrad: Crimson Vow - VOW"@)
    }
    else if i == 9 {
        ("mid"@, 32u32, "Innistrad: Midnight Hunt - MID"@)
    }
    else if i == 10 {
        ("afr"@, 32u32, "Adventures in the Forgotten Realms - AFR"@)
    }
    else if i == 11 {
        ("stx"@, 32u32, "Strixhaven: School of Mages - STX"@)
    }
    else if i == 12 {
        ("khm"@, 32u32, "Kaldheim - KHM"@)
    }
    else if i == 13 {
        ("znr"@, 32u32, "Zendikar Rising - ZNR"@)
    }
    else if i == 14 {
        ("m21"@, 24u32, "Core Set 2021 - M21"@)
    }
    else if i == 15 {
        ("iko"@, 32u32, "Ikoria: Lair of Behemoths - IKO"@)
    }
    else if i == 16 {
        ("thb"@, 32u32, "Theros Beyond Death - THB"@)
    }
    else if i == 17 {
        ("eld"@, 32u32, "Throne of Eldraine - ELD"@)
    }
    else if i == 18 {
        ("m20"@, 24u32, "Core Set 2020 - M20"@)
    }
    else if i == 19 {
        ("war"@, 32u32, "War of the Spark - WAR"@)
    }
    else if i == 20 {
        ("rna"@, 28u32, "Ravnica Allegiance - RNA"@)
    }
    else if i == 21 {
        ("grn"@, 28u32, "Guilds of Ravnica - GRN"@)
    }
    else if i == 22 {
        ("m19"@, 24u32, "Core Set 2019 - M19"@)
    }
    else if i == 23 {
        ("dom"@, 32u32, "Dominaria - DOM"@)
    }
    else if i == 24 {
        ("rix"@, 32u32, "Rivals of Ixalan - RIX"@)
    }
    else if i == 25 {
        ("xln"@, 32u32, "Ixalan - XLN"@)
    }
    else if i == 26 {
        ("klr"@, 32u32, "Kaladesh Remastered - KLR"@)
    }
    else if i == 27 {
        ("akr"@, 32u32, "Amonkhet Remastered - AKR"@)
    }
    else {
        (Seq::empty(), 0u32, Seq::empty())
    }
}

/// A set that the selector offers.
#[derive(Debug, Clone, Copy)]
pub struct SetChoice {
    pub code: &'static str,
    pub symbol_height: u32,
    pub title: &'static str,
}

/// The sets the selector offers, newest first.
pub fn set_choices() -> (r: Vec<SetChoice>)
    ensures
        r@.len() == SET_CHOICE_COUNT,
        forall|i: int| 0 <= i < r@.len() ==> (#[trigger] r@[i].code@, r@[i].symbol_height, r@[i].title@) == set_choice_at(i),
{
    let r = vec![
        SetChoice { code: "ltr", symbol_height: 28, title: "The Lord of the Rings: Tales of Middle-earth - LTR" },
        SetChoice { code: "mom", symbol_height: 32, title: "March of the Machine - MOM" },
        SetChoice { code: "one", symbol_height: 32, title: "Phyrexia: All Will Be One - ONE" },
        SetChoice { code: "bro", symbol_height: 32, title: "The Brothers' War - BRO" },
        SetChoice { code: "dmu", symbol_height: 32, title: "Dominaria United - DMU" },
        SetChoice { code: "hbg", symbol_height: 32, title: "Alchemy Horizons: Baldur's Gate - HBG" },
        SetChoice { code: "snc", symbol_height: 28, title: "Streets of New Capenna - SNC" },
        SetChoice { code: "neo", symbol_height: 28, title: "Kamigawa: Neon Dynasty - NEO" },
        SetChoice { code: "vow", symbol_height: 32, title: "Innistrad: Crimson Vow - VOW" },
        SetChoice { code: "mid", symbol_height: 32, title: "Innistrad: Midnight Hunt - MID" },
        SetChoice { code: "afr", symbol_height: 32, title: "Adventures in the Forgotten Realms - AFR" },
        SetChoice { code: "stx", symbol_height: 32, title: "Strixhaven: School of Mages - STX" },
        SetChoice { code: "khm", symbol_height: 32, title: "Kaldheim - KHM" },
        SetChoice { code: "znr", symbol_height: 32, title: "Zendikar Rising - ZNR" },
        SetChoice { code: "m21", symbol_height: 24, title: "Core Set 2021 - M21" },
        SetChoice { code: "iko", symbol_height: 32, title: "Ikoria: Lair of Behemoths - IKO" },
        SetChoice { code: "thb", symbol_height: 32, title: "Theros Beyond Death - THB" },
        SetChoice { code: "eld", symbol_height: 32, title: "Throne of Eldraine - ELD" },
        SetChoice { code: "m20", symbol_height: 24, title: "Core Set 2020 - M20" },
        SetChoice { code: "war", symbol_height: 32, title: "War of the Spark - WAR" },
        SetChoice { code: "rna", symbol_height: 28, title: "Ravnica Allegiance - RNA" },
        SetChoice { code: "grn", symbol_height: 28, title: "Guilds of Ravnica - GRN" },
        SetChoice { code: "m19", symbol_height: 24, title: "Core Set 2019 - M19" },
        SetChoice { code: "dom", symbol_height: 32, title: "Dominaria - DOM" },
        SetChoice { code: "rix", symbol_height: 32, title: "Rivals of Ixalan - RIX" },
        SetChoice { code: "xln", symbol_height: 32, title: "Ixalan - XLN" },
        SetChoice { code: "klr", symbol_height: 32, title: "Kaladesh Remastered - KLR" },
        SetChoice { code: "akr", symbol_height: 32, title: "Amonkhet Remastered - AKR" },
    ];
    r
}

/// What the window does with a message read from the log.
pub enum LogStep {
    /// Find the user (registering them when new), make them the log's user, and show
    /// `Current user: <name>`.
    SwitchUser { user_id: String, screen_name: String },
    /// Log this error: there is no user to store the event for.
    Reject(String),
    /// Store the inventory update for the log's user at its date, then log `line` and show
    /// the update.
    StoreInventoryUpdate { date: NaiveDateTimeValue, line: String },
    /// Store the inventory for the log's user at its date, then log and show `line`.
    StoreInventory { date: NaiveDateTimeValue, line: String },
    /// Store the collection for the log's user at its date, then log and show `line`.
    StoreCollection { date: NaiveDateTimeValue, line: String },
    /// Log and show this line.
    Show(String),
    /// Nothing to do.
    Ignore,
}

/// The error logged when an event of the kind arrives before any user is known.
pub open spec fn no_session_text(kind: Seq<char>) -> Seq<char> {
    "parser-"@ + kind + " error: No user session is set"@
}

/// What the window does with a message read from the log, depending on whether the log's
/// user is known. `None` where the window fails: a stored event without a date, or a scene
/// change without a context.
pub open spec fn log_step_holds(result: ParseResults, has_user: bool, r: Option<LogStep>) -> bool {
    match result {
        ParseResults::AccountInfoResult(a) => r matches Some(LogStep::SwitchUser { user_id, screen_name })
            && user_id@ == a.attachment.user_id@ && screen_name@ == a.attachment.screen_name@,
        ParseResults::InventoryUpdateResult(u) => if !has_user {
            r matches Some(LogStep::Reject(m)) && m@ == no_session_text("inventoryupdateevent"@)
        } else {
            match u.date {
                Some(d) => r matches Some(LogStep::StoreInventoryUpdate { date, line }) && date == d
                    && line@ == "["@ + friendly_time_text(u.timestamp@)
                    + "] Player inventory update event received:\n`"@ + u.content@ + "`"@,
                None => r is None,
            }
        },
        ParseResults::InventoryResult(i) => if !has_user {
            r matches Some(LogStep::Reject(m)) && m@ == no_session_text("inventoryevent"@)
        } else {
            match i.date {
                Some(d) => r matches Some(LogStep::StoreInventory { date, line }) && date == d && line@
                    == "["@ + friendly_time_text(i.timestamp@) + "] Player inventory updated."@,
                None => r is None,
            }
        },
        ParseResults::CollectionResult(c) => if !has_user {
            r matches Some(LogStep::Reject(m)) && m@ == no_session_text("collectionevent"@)
        } else {
            match c.date {
                Some(d) => r matches Some(LogStep::StoreCollection { date, line }) && date == d && line@
                    == "["@ + friendly_time_text(c.timestamp@) + "] Collection updated."@,
                None => r is None,
            }
        },
        ParseResults::SceneChangeResult(s) => match s.context {
            Some(ctx) => r matches Some(LogStep::Show(l)) && l@ == "Scene change from "@
                + s.from_scene_name@ + " to "@ + s.to_scene_name@ + " ctx: "@ + ctx@,
            None => r is None,
        },
        ParseResults::UnknownResult(_) => r matches Some(LogStep::Ignore),
    }
}

/// The error logged when an event of the kind arrives before any user is known.
fn no_session_error(kind: &str) -> (r: String)
    ensures
        r@ == no_session_text(kind@),
{
    let head = concat_str("parser-", kind);
    concat_str(head.as_str(), " error: No user session is set")
}

/// What the window does with a message read from the log (see `log_step_holds`).
pub fn plan_log_step(result: &ParseResults, has_user: bool) -> (r: Option<LogStep>)
    ensures
        log_step_holds(*result, has_user, r),
{
    match result {
        ParseResults::AccountInfoResult(a) => Some(
            LogStep::SwitchUser { user_id: copy_str(a.user_id()), screen_name: copy_str(a.screen_name()) },
        ),
        ParseResults::InventoryUpdateResult(u) => {
            if !has_user {
                return Some(LogStep::Reject(no_session_error("inventoryupdateevent")));
            }
            match u.date {
                Some(d) => {
                    let t = u.friendly_time();
                    Some(LogStep::StoreInventoryUpdate { date: d, line: inventory_update_line(t.as_str(), u.content.as_str()) })
                },
                None => None,
            }
        },
        ParseResults::InventoryResult(i) => {
            if !has_user {
                return Some(LogStep::Reject(no_session_error("inventoryevent")));
            }
            match i.date {
                Some(d) => {
                    let t = i.friendly_time();
                    Some(LogStep::StoreInventory { date: d, line: inventory_updated_line(t.as_str()) })
                },
                None => None,
            }
        },
        ParseResults::CollectionResult(c) => {
            if !has_user {
                return Some(LogStep::Reject(no_session_error("collectionevent")));
            }
            match c.date {
                Some(d) => {
                    let t = c.friendly_time();
                    Some(LogStep::StoreCollection { date: d, line: collection_updated_line(t.as_str()) })
                },
                None => None,
            }
        },
        ParseResults::SceneChangeResult(s) => match s.context() {
            Some(ctx) => Some(LogStep::Show(scene_change_line(s.from_scene(), s.to_scene(), ctx))),
            None => None,
        },
        ParseResults::UnknownResult(_) => Some(LogStep::Ignore),
    }
}

/// The style of the window.
#[derive(Debug, Clone, Copy, PartialEq, Eq, Structural)]
pub enum TrackerThemeStyle {
    Default,
}

impl Default for TrackerThemeStyle {
    fn default() -> (r: Self)
        ensures
            r == TrackerThemeStyle::Default,
    {
        TrackerThemeStyle::Default
    }
}

/// The theme of the window.
#[derive(Debug, Clone, Copy, PartialEq, Eq, Structural)]
pub struct TrackerTheme {}

impl Default for TrackerTheme {
    fn default() -> (r: Self)
        ensures
            r == (TrackerTheme {}),
    {
        TrackerTheme {  }
    }
}

/// The styles of buttons.
#[derive(Debug, Clone, Copy, PartialEq, Eq, Structural)]
pub enum ButtonStyle {
    Default,
    SetSelector,
}

impl Default for ButtonStyle {
    fn default() -> (r: Self)
        ensures
            r == ButtonStyle::Default,
    {
        ButtonStyle::Default
    }
}

/// The styles of containers.
#[derive(Debug, Clone, Copy, PartialEq, Eq, Structural)]
pub enum ContainerStyle {
    Default,
    Tooltip,
    SummaryPanel,
    Box,
}

impl Default for ContainerStyle {
    fn default() -> (r: Self)
        ensures
            r == ContainerStyle::Default,
    {
        ContainerStyle::Default
    }
}

/// The styles of scrollable areas.
#[derive(Debug, Clone, Copy, PartialEq, Eq, Structural)]
pub enum ScrollableStyle {
    Default,
}

impl Default for ScrollableStyle {
    fn default() -> (r: Self)
        ensures
            r == ScrollableStyle::Default,
    {
        ScrollableStyle::Default
    }
}

/// The styles of text.
#[derive(Debug, Clone, Copy, PartialEq, Eq, Structural)]
pub enum TextStyle {
    Normal,
    Error,
}

impl Default for TextStyle {
    fn default() -> (r: Self)
        ensures
            r == TextStyle::Normal,
    {
        TextStyle::Normal
    }
}

} // verus!
