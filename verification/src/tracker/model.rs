//! Small value types shared by the card and event models.

use vstd::prelude::*;

verus! {

/// A Scryfall identifier.
#[derive(Debug)]
pub struct Guid(pub String);

/// A link.
#[derive(Debug)]
pub struct Uri(pub String);

impl View for Uri {
    type V = Seq<char>;

    open spec fn view(&self) -> Seq<char> {
        self.0@
    }
}

impl Uri {
    /// The empty link.
    pub fn new() -> (r: Uri)
        ensures
            r@ == Seq::<char>::empty(),
    {
        Uri(String::new())
    }

    /// The link with the given text.
    pub fn from(s: &str) -> (r: Uri)
        ensures
            r@ == s@,
    {
        let mut uri = Uri::new();
        uri.0.append(s);
        uri
    }

    /// A copy of the link.
    pub fn duplicate(&self) -> (r: Uri)
        ensures
            r@ == self@,
    {
        Uri(self.0.clone())
    }

    /// The text of the link.
    pub fn as_str(&self) -> (r: &str)
        ensures
            r@ == self@,
    {
        self.0.as_str()
    }
}

/// A color of a card, as Scryfall abbreviates it (`W`, `U`, `B`, `R`, `G`).
#[derive(Debug)]
pub struct Color(pub String);

/// A list of colors.
#[derive(Debug)]
pub struct Colors(pub Vec<Color>);

/// A legality of a card in a format: `legal`, `not_legal`, `restricted` or `banned`.
#[derive(Debug)]
pub struct Legality(pub String);

/// A calendar date as Scryfall writes it.
#[derive(Debug)]
pub struct Date(pub String);

} // verus!
