//! The game catalogue, as the protocol carries it.

use vstd::prelude::*;

verus! {

/// Where a catalogue entry came from.
#[derive(Debug, Clone, Copy, PartialEq, Eq, Structural)]
#[non_exhaustive]
pub enum EntrySource {
    /// Shipped with Clipped.
    Shipped,
    /// Added by the user.
    User,
}

/// One executable a game is recognised by.
#[derive(Debug, Clone, PartialEq, Eq)]
pub struct CatalogueExecutable {
    /// The executable's file name.
    pub name: String,
    /// Text its path must contain, where the name alone is ambiguous.
    pub path_contains: Option<String>,
}

/// One game the catalogue knows.
#[derive(Debug, Clone, PartialEq, Eq)]
pub struct CatalogueGame {
    /// The catalogue's identifier for the game.
    pub game_id: String,
    /// The game's name.
    pub name: String,
    /// Where the entry came from.
    pub source: EntrySource,
    /// The executables it is recognised by.
    pub executables: Vec<CatalogueExecutable>,
    /// The launcher it is installed through, if known.
    pub launcher: Option<String>,
    /// The launcher's identifier for it, if known.
    pub launcher_app_id: Option<String>,
    /// Whether the user has asked for it never to be recorded.
    pub excluded: bool,
}

/// Adding a game of the user's own.
#[derive(Debug, Clone, PartialEq, Eq)]
pub struct RegisterGame {
    /// What to call it.
    pub name: String,
    /// The executable it is recognised by.
    pub executable: String,
    /// Text its path must contain, if any.
    pub path_contains: Option<String>,
}

/// Renaming a game, or restoring the name it shipped with.
#[derive(Debug, Clone, PartialEq, Eq)]
pub struct RenameGame {
    /// Which game.
    pub game_id: String,
    /// The new name; absent restores the shipped one.
    pub name: Option<String>,
}

/// Excluding a game from recording, or including it again.
#[derive(Debug, Clone, PartialEq, Eq)]
pub struct SetGameExcluded {
    /// Which game.
    pub game_id: String,
    /// Whether it is excluded.
    pub excluded: bool,
}

/// Removing a game the user added.
#[derive(Debug, Clone, PartialEq, Eq)]
pub struct ForgetGame {
    /// Which game.
    pub game_id: String,
}

} // verus!
