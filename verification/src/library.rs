//! Reading the recording library: its sittings, games, events and trash.
//!
//! Only the parts of the library's vocabulary whose values carry no
//! fractional quantities live here.

use vstd::prelude::*;

verus! {

/// Asking for the game events of one recording.
#[derive(Debug, Clone, PartialEq, Eq)]
pub struct LibraryEvents {
    /// The recording, as the library names it.
    pub recording: String,
}

/// One game event, placed in its recording.
#[derive(Debug, Clone, PartialEq)]
pub struct LibraryEventMark {
    /// The recording it belongs to.
    pub recording: String,
    /// Where in the recording it happened, in milliseconds.
    pub at: i64,
    /// What happened.
    pub kind: String,
    /// What reported it.
    pub source: String,
}

/// The game events of one recording, in order.
#[derive(Debug, Clone, PartialEq)]
pub struct LibraryEventLane {
    /// The events.
    pub marks: Vec<LibraryEventMark>,
}

impl Default for LibraryEventLane {
    /// No events.
    fn default() -> (lane: LibraryEventLane)
        ensures
            lane.marks@.len() == 0,
    {
        LibraryEventLane { marks: Vec::new() }
    }
}

/// Asking for a page of the library's sittings.
#[derive(Debug, Clone, PartialEq, Eq)]
pub struct LibrarySessions {
    /// How many sittings a page may hold; absent leaves it to the recorder.
    pub limit: Option<u32>,
    /// The cursor the previous page ended at.
    pub after: Option<String>,
    /// A search to narrow the listing by.
    pub query: Option<String>,
}

impl Default for LibrarySessions {
    /// The recorder's own first page.
    fn default() -> (listing: LibrarySessions)
        ensures
            listing.limit is None,
            listing.after is None,
            listing.query is None,
    {
        LibrarySessions { limit: None, after: None, query: None }
    }
}

/// What the library holds for one game.
#[derive(Debug, Clone, PartialEq, Eq)]
pub struct LibraryGame {
    /// The catalogue's identifier, for an attributed game.
    pub game_id: Option<String>,
    /// The game's name, for an attributed game.
    pub name: Option<String>,
    /// When it was first recorded.
    pub first_seen_at: Option<String>,
    /// When it was last played.
    pub last_played_at: Option<String>,
    /// How many sittings.
    pub sessions: u64,
    /// How many recordings.
    pub recordings: u64,
    /// How many clips.
    pub clips: u64,
    /// How many favourites.
    pub favourites: u64,
    /// How many bytes.
    pub bytes: u64,
    /// How many of its files are missing from the disk.
    pub missing: u64,
}

impl Default for LibraryGame {
    /// An unattributed game with nothing in it.
    fn default() -> (game: LibraryGame)
        ensures
            game.game_id is None,
            game.name is None,
            game.first_seen_at is None,
            game.last_played_at is None,
            game.sessions == 0,
            game.recordings == 0,
            game.clips == 0,
            game.favourites == 0,
            game.bytes == 0,
            game.missing == 0,
    {
        LibraryGame {
            game_id: None,
            name: None,
            first_seen_at: None,
            last_played_at: None,
            sessions: 0,
            recordings: 0,
            clips: 0,
            favourites: 0,
            bytes: 0,
            missing: 0,
        }
    }
}

/// Asking what is in the trash.
#[derive(Debug, Clone, Copy, PartialEq, Eq, Structural)]
pub struct LibraryTrash {}

impl Default for LibraryTrash {
    fn default() -> (request: LibraryTrash)
        ensures
            request == (LibraryTrash {  }),
    {
        LibraryTrash {  }
    }
}

/// One thing in the trash.
#[derive(Debug, Clone, PartialEq, Eq)]
pub struct TrashedItem {
    /// `recording` or `clip`.
    pub kind: String,
    /// The library's identifier for it.
    pub id: i64,
    /// Where it is now.
    pub path: String,
    /// Where it was before it was deleted.
    pub original_path: String,
    /// When it was deleted.
    pub deleted_at: String,
    /// When it will be emptied of its own accord, if it will.
    pub expires_at: Option<String>,
    /// How big it is, if known.
    pub size_bytes: Option<i64>,
    /// How many clips were cut from it.
    pub dependent_clips: u32,
}

/// What is in the trash.
#[derive(Debug, Clone, PartialEq, Eq)]
pub struct TrashListing {
    /// The items.
    pub items: Vec<TrashedItem>,
    /// How many items there are.
    pub total_items: u64,
    /// How many bytes they occupy.
    pub total_bytes: u64,
    /// Where the trash is.
    pub directory: String,
}

impl Default for TrashListing {
    /// An empty trash.
    fn default() -> (listing: TrashListing)
        ensures
            listing.items@.len() == 0,
            listing.total_items == 0,
            listing.total_bytes == 0,
            listing.directory@ == Seq::<char>::empty(),
    {
        TrashListing { items: Vec::new(), total_items: 0, total_bytes: 0, directory: String::new() }
    }
}

/// Putting one thing back where it was.
#[derive(Debug, Clone, PartialEq, Eq)]
pub struct RestoreFromTrash {
    /// `recording` or `clip`.
    pub kind: String,
    /// The library's identifier for it.
    pub id: i64,
}

/// What was put back.
#[derive(Debug, Clone, PartialEq, Eq)]
pub struct RestoredItem {
    /// `recording` or `clip`.
    pub kind: String,
    /// The library's identifier for it.
    pub id: i64,
    /// Where it is now.
    pub path: String,
    /// Whether the file itself came back, rather than only its entry.
    pub file_restored: bool,
    /// Whether it had to be given a new name.
    pub renamed: bool,
}

/// Emptying the trash, confirmed against the listing that was shown.
#[derive(Debug, Clone, Copy, PartialEq, Eq, Structural)]
pub struct EmptyTrash {
    /// How many items the listing showed.
    pub items: u64,
    /// How many bytes the listing showed.
    pub bytes: u64,
}

impl Default for EmptyTrash {
    /// Confirming an empty listing.
    fn default() -> (request: EmptyTrash)
        ensures
            request.items == 0,
            request.bytes == 0,
    {
        EmptyTrash { items: 0, bytes: 0 }
    }
}

/// What emptying the trash did.
#[derive(Debug, Clone, PartialEq, Eq)]
pub struct TrashEmptied {
    /// How many items were removed.
    pub removed: u64,
    /// How many bytes were reclaimed.
    pub reclaimed_bytes: u64,
    /// What could not be removed, one line each.
    pub refused: Vec<String>,
}

impl Default for TrashEmptied {
    /// Nothing removed.
    fn default() -> (emptied: TrashEmptied)
        ensures
            emptied.removed == 0,
            emptied.reclaimed_bytes == 0,
            emptied.refused@.len() == 0,
    {
        TrashEmptied { removed: 0, reclaimed_bytes: 0, refused: Vec::new() }
    }
}

} // verus!
