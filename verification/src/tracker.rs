//! The tracker: its command line, the reading of the game's log, the event and card models,
//! the matching of the card databases, and the state of its window.

pub mod artist_report;
pub mod artists;
pub mod cards;
pub mod collations;
pub mod collection;
pub mod configuration;
pub mod dates;
pub mod draftsummary;
pub mod events;
pub mod gui;
pub mod json;
pub mod logger;
pub mod logview;
pub mod logwatcher;
pub mod mapping;
pub mod model;
pub mod ordering;
pub mod parser;
pub mod runner;
pub mod search;
