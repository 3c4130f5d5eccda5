//! The tracker as a program: its errors, and the state it starts with.

use vstd::prelude::*;
use crate::injector::error::InjectError;
use crate::text::{concat_str, copy_str, decimal, decimal_string};

verus! {

/// The errors of the tracker.
#[derive(Debug, Clone)]
pub enum TrackerError {
    IcedError(String),
    SqlError(String),
    SerdeError(String),
    IoError(String),
    InjectError(InjectError),
    ConversionError(String),
    CustomError(String),
}

/// The text of an injector error, as its `Display` writes it.
pub open spec fn inject_error_text(e: InjectError) -> Seq<char> {
    match e {
        InjectError::IoError(m) => m@,
        InjectError::ConversionError(m) => m@,
        InjectError::CustomError(m) => m@,
        InjectError::WindowsApiError(m) => m@,
    }
}

impl TrackerError {
    /// The text of the error, as its `Display` writes it.
    pub fn message(&self) -> (r: String)
        ensures
            r@ == match self {
                TrackerError::IcedError(e) => e@,
                TrackerError::SqlError(e) => e@,
                TrackerError::SerdeError(e) => e@,
                TrackerError::IoError(e) => e@,
                TrackerError::InjectError(e) => inject_error_text(*e),
                TrackerError::ConversionError(e) => e@,
                TrackerError::CustomError(e) => e@,
            },
    {
        match self {
            TrackerError::IcedError(e) => e.clone(),
            TrackerError::SqlError(e) => e.clone(),
            TrackerError::SerdeError(e) => e.clone(),
            TrackerError::IoError(e) => e.clone(),
            TrackerError::InjectError(e) => e.message(),
            TrackerError::ConversionError(e) => e.clone(),
            TrackerError::CustomError(e) => e.clone(),
        }
    }

    /// An error with a message of the tracker's own: `From<&str>`.
    pub fn custom(message: &str) -> (r: TrackerError)
        ensures
            r matches TrackerError::CustomError(m) && m@ == message@,
    {
        TrackerError::CustomError(copy_str(message))
    }

    /// An error of the injector: `From<InjectError>`.
    pub fn inject(e: InjectError) -> (r: TrackerError)
        ensures
            r == TrackerError::InjectError(e),
    {
        TrackerError::InjectError(e)
    }

    /// A JSON failure, with the text of the serde error: `From<serde_json::Error>`.
    pub fn serde(detail: &str) -> (r: TrackerError)
        ensures
            r matches TrackerError::SerdeError(m) && m@ == "Serde error: "@ + detail@,
    {
        TrackerError::SerdeError(concat_str("Serde error: ", detail))
    }

    /// An I/O failure, with the text of the I/O error: `From<std::io::Error>`.
    pub fn io(detail: &str) -> (r: TrackerError)
        ensures
            r matches TrackerError::IoError(m) && m@ == "IO error: "@ + detail@,
    {
        TrackerError::IoError(concat_str("IO error: ", detail))
    }

    /// A failure of the window toolkit, with the text of its error: `From<iced::Error>`.
    pub fn iced(detail: &str) -> (r: TrackerError)
        ensures
            r matches TrackerError::IcedError(m) && m@ == "Iced error: "@ + detail@,
    {
        TrackerError::IcedError(concat_str("Iced error: ", detail))
    }

    /// A database failure, with the text of the SQLite error: `From<rusqlite::Error>`.
    pub fn sql(detail: &str) -> (r: TrackerError)
        ensures
            r matches TrackerError::SqlError(m) && m@ == "Sql error: "@ + detail@,
    {
        TrackerError::SqlError(concat_str("Sql error: ", detail))
    }

    /// Bytes that are not UTF-8, with the text of the error: `From<FromUtf8Error>`.
    pub fn utf8_conversion(detail: &str) -> (r: TrackerError)
        ensures
            r matches TrackerError::ConversionError(m) && m@ == "Utf-8 string conversion error: "@ + detail@,
    {
        TrackerError::ConversionError(concat_str("Utf-8 string conversion error: ", detail))
    }
}

/// The tracker program.
pub struct Tracker {}

impl Tracker {
    pub fn new() -> (r: Tracker) {
        Tracker {  }
    }
}

/// A user of the tracker: its number in the tracker's database, its id in the MTGA client
/// and its name there.
#[derive(Debug, Clone)]
pub struct UserSession {
    user_id: u32,
    arena_id: String,
    screen_name: String,
}

impl UserSession {
    /// The user's number in the tracker's database.
    pub closed spec fn user_id_view(&self) -> u32 {
        self.user_id
    }

    /// The user's id in the MTGA client.
    pub closed spec fn arena_id_view(&self) -> Seq<char> {
        self.arena_id@
    }

    /// The user's name in the MTGA client.
    pub closed spec fn screen_name_view(&self) -> Seq<char> {
        self.screen_name@
    }

    /// A session made of a stored user's row.
    pub fn new(user_id: u32, arena_id: String, screen_name: String) -> (r: UserSession)
        ensures
            r.user_id_view() == user_id,
            r.arena_id_view() == arena_id@,
            r.screen_name_view() == screen_name@,
    {
        UserSession { user_id, arena_id, screen_name }
    }

    /// The user's name in the MTGA client.
    pub fn screen_name(&self) -> (r: &str)
        ensures
            r@ == self.screen_name_view(),
    {
        self.screen_name.as_str()
    }

    /// The user's number in the tracker's database.
    pub fn user_id(&self) -> (r: u32)
        ensures
            r == self.user_id_view(),
    {
        self.user_id
    }

    /// The user's id in the MTGA client.
    pub fn arena_id(&self) -> (r: &str)
        ensures
            r@ == self.arena_id_view(),
    {
        self.arena_id.as_str()
    }
}

/// Loads the images of cards, from a local cache or from Scryfall.
pub struct ImageLoader {}

/// The image shown when a card has none.
pub const NO_IMAGE_PATH: &'static str = "assets/cards/no_image_available.png";

impl ImageLoader {
    /// Where the image of the card is cached: `assets/cards/<arena id>.jpg`.
    pub fn card_image_path(arena_id: u32) -> (r: String)
        ensures
            r@ == "assets/cards/"@ + decimal(arena_id as nat) + ".jpg"@,
    {
        let id = decimal_string(arena_id as u64);
        let head = concat_str("assets/cards/", id.as_str());
        concat_str(head.as_str(), ".jpg")
    }
}

} // verus!
