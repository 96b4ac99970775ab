//! The protocol the desktop application drives the recorder through.
//!
//! Clipped is two processes: the recorder, which owns every recording and runs
//! for days, and the desktop application, a window the user opens, closes and
//! crashes. This library is the seam between them: the message vocabulary, the
//! framing, the handshake that decides whether two builds can talk at all, and
//! the decisions both ends make as a conversation goes on.
//!
//! Everything here is stated as a contract and proved. Moving bytes through a
//! pipe, turning JSON into values, spawning processes and waiting are left to
//! the caller, which hands this library what it read and does what it is told.
//!
//! # Shape of a conversation
//!
//! ```text
//!  desktop application                     recorder
//!  connect  ───────────────────────────▶   accept   (server::admits_connection)
//!  hello { protocol_version, role } ───▶   check    (server::answer_hello)
//!           ◀───────────────────────────   welcome { features } | refused
//!  request { id, command, params } ────▶   dispatch (server::dispatch)
//!           ◀───────────────────────────   response { id, outcome }
//!  client::Client::answer matches the response to the request it answers
//! ```

pub mod catalogue;
pub mod client;
pub mod command;
pub mod diagnostics;
pub mod events;
pub mod error;
pub mod features;
pub mod frame;
pub mod hotkeys;
pub mod library;
pub mod message;
pub mod playback;
mod plugins;
pub mod preview;
pub mod schema;
pub mod server;
pub mod settings;
pub mod startup;
pub mod status;
pub mod storage;
pub mod supervisor;
pub mod text;

pub use client::{Client, ClientError, EventClient};
pub use command::{ExportRecording, Shutdown, StartRecording, StopRecording, TakeScreenshot};
pub use error::{ErrorCode, ErrorDetail, ProtocolError};
pub use frame::{FrameError, LENGTH_PREFIX_BYTES, MAX_FRAME_BYTES};
pub use hotkeys::{HotkeyBinding, HotkeyState};
pub use library::{
    EmptyTrash, LibraryEventLane, LibraryEventMark, LibraryEvents, LibraryGame, LibrarySessions,
    LibraryTrash, RestoreFromTrash, RestoredItem, TrashEmptied, TrashListing, TrashedItem,
};
pub use message::{
    ClientMessage, ConnectionRole, Event, EventStream, Hello, Outcome, PeerIdentity, Request,
    Response, ServerMessage, Welcome, PROTOCOL_VERSION, SUPPORTED_PROTOCOL_VERSIONS,
};
pub use plugins::{PluginDeclaration, PluginState, RefusedPlugin};
pub use server::{ShutdownRequest, MAX_CONCURRENT_CONNECTIONS};
pub use status::{ActiveRecording, EndReason, ExportSummary, RecorderStatus};
pub use supervisor::{
    Attachment, AttachmentOrigin, Delay, RestartPolicy, SupervisorSettings,
};
