//! A tracker for MTG Arena. The injector loads a data collector into the game process: it
//! finds the Mono runtime and its functions, builds the machine-code stubs that call them and
//! drives them in order. The tracker reads the game's log into messages, matches the client's
//! cards with Scryfall's printings, and decides what its window shows.

pub mod injector;
pub mod text;
pub mod tracker;
