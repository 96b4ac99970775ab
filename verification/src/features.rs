//! The names of the capabilities a recorder can advertise in a welcome.
//!
//! A feature is the honest answer to "can this build actually do the thing",
//! which a protocol version is not: a window decides whether to offer a control
//! by asking here, so that it never presents a button whose command will be
//! refused.

use vstd::prelude::*;

verus! {

/// The recorder can start and stop a recording.
pub const RECORDING: &'static str = "recording";

/// The recorder can report its status, and push status events.
pub const STATUS_EVENTS: &'static str = "status_events";

/// The recorder can mark a moment in the recording it is making.
pub const BOOKMARKS: &'static str = "bookmarks";

/// The recorder can take a screenshot.
pub const SCREENSHOTS: &'static str = "screenshots";

/// The recorder can be asked to finish and exit over the protocol. The server
/// claims this one itself, whatever the application says.
pub const SHUTDOWN: &'static str = "shutdown";

/// The recorder can read the recording library.
pub const LIBRARY: &'static str = "library";

/// The recorder can copy a finished recording into MP4.
pub const EXPORT: &'static str = "export";

/// The recorder registers the global hotkeys and can report on each.
pub const HOTKEYS: &'static str = "hotkeys";

/// The recorder can save the last few seconds out of a replay buffer.
pub const REPLAY: &'static str = "replay";

/// The recorder can read and change the settings.
pub const SETTINGS: &'static str = "settings";

/// Every capability name the protocol defines, in the order above.
pub const ALL: [&'static str; 10] = [
    RECORDING,
    STATUS_EVENTS,
    BOOKMARKS,
    SCREENSHOTS,
    SHUTDOWN,
    LIBRARY,
    EXPORT,
    HOTKEYS,
    REPLAY,
    SETTINGS,
];

} // verus!
