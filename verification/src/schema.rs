//! The shapes a machine-readable description of the protocol is made of, the
//! table of its commands, and the closed lists of values it enumerates.
//!
//! Each `every_*` list names every variant of its enumeration that a peer can
//! send, once, apart from the catch-all a stranger is kept in. That is stated
//! as a law beside each list, so a variant added to an enumeration and left out
//! of its list fails verification here.

use vstd::prelude::*;

use crate::command::CommandName;
use crate::error::{lemma_error_code_parse_round_trip, ErrorCode};
use crate::features;
use crate::hotkeys::HotkeyState;
use crate::message::{ConnectionRole, EventStream};
use crate::status::EndReason;
use crate::text::owned;

verus! {

/// The shape of the schema document itself, which changes when the
/// description does rather than when the protocol does.
pub const SCHEMA_FORMAT: u32 = 1;

/// Where one message ends and the next begins.
#[derive(Debug, Clone, PartialEq, Eq)]
pub struct Framing {
    /// The width of the length prefix.
    pub length_prefix_bytes: u32,
    /// The byte order of the length prefix.
    pub length_prefix_endianness: String,
    /// The largest frame either side will send or accept.
    pub max_frame_bytes: u32,
}

/// A set of wire strings, and what happens to one that is not in it.
#[derive(Debug, Clone, PartialEq, Eq)]
pub struct Enumeration {
    /// Every value this build knows, as it appears on the wire.
    pub values: Vec<String>,
    /// Whether a value outside `values` still leaves the message readable.
    pub tolerates_unrecognised: bool,
}

/// The fields of one object on the wire.
#[derive(Debug, Clone, PartialEq, Eq)]
pub struct Structure {
    /// Fields whose absence makes the message unreadable.
    pub required: Vec<String>,
    /// Fields the deserialiser supplies a value for when they are missing.
    pub optional: Vec<String>,
}

/// One command, and whether this build can perform it.
#[derive(Debug, Clone, PartialEq, Eq)]
pub struct CommandSchema {
    /// The name on the wire.
    pub name: String,
    /// The structure its parameters take, where this build defines one.
    pub params: Option<String>,
    /// The reply it produces, where this build produces one.
    pub reply: Option<String>,
    /// Whether this build performs it.
    pub available_in_this_build: bool,
}

/// The roles a connection can declare, in the order they are tabled.
pub open spec fn connection_roles() -> Seq<ConnectionRole> {
    seq![ConnectionRole::Control, ConnectionRole::Events]
}

/// Every role a connection can declare, less the placeholder a role this build
/// does not have is turned into.
pub fn every_connection_role() -> (roles: Vec<ConnectionRole>)
    ensures
        roles@ == connection_roles(),
{
    let mut roles: Vec<ConnectionRole> = Vec::new();
    roles.push(ConnectionRole::Control);
    roles.push(ConnectionRole::Events);
    assert(roles@ =~= connection_roles());
    roles
}

/// The list of roles holds every role but the placeholder, each once.
pub proof fn lemma_connection_roles_are_complete(role: ConnectionRole)
    ensures
        connection_roles().contains(role) <==> role != ConnectionRole::Unknown,
        connection_roles().no_duplicates(),
{
    match role {
        ConnectionRole::Control => assert(connection_roles()[0] == role),
        ConnectionRole::Events => assert(connection_roles()[1] == role),
        ConnectionRole::Unknown => {},
    }
}

/// The event streams the protocol defines, in the order they are tabled.
pub open spec fn event_streams() -> Seq<EventStream> {
    seq![EventStream::Status, EventStream::Errors, EventStream::Metrics]
}

/// Every event stream the protocol defines, including the one this build
/// refuses to deliver.
pub fn every_event_stream() -> (streams: Vec<EventStream>)
    ensures
        streams@ == event_streams(),
{
    let mut streams: Vec<EventStream> = Vec::new();
    streams.push(EventStream::Status);
    streams.push(EventStream::Errors);
    streams.push(EventStream::Metrics);
    assert(streams@ =~= event_streams());
    streams
}

/// The list of streams holds every stream but a stranger's, each once.
pub proof fn lemma_event_streams_are_complete(stream: EventStream)
    ensures
        event_streams().contains(stream) <==> !(stream is Other),
        event_streams().no_duplicates(),
{
    match stream {
        EventStream::Status => assert(event_streams()[0] == stream),
        EventStream::Errors => assert(event_streams()[1] == stream),
        EventStream::Metrics => assert(event_streams()[2] == stream),
        EventStream::Other(_) => {},
    }
}

/// Every capability the protocol defines, as owned strings, in the order of
/// [`features::ALL`].
pub fn every_feature() -> (names: Vec<String>)
    ensures
        names@.len() == features::ALL@.len(),
        forall|i: int| 0 <= i < names@.len() ==> #[trigger] names@[i]@ == features::ALL@[i]@,
{
    let all = features::ALL;
    let mut names: Vec<String> = Vec::new();
    let mut i: usize = 0;
    while i < all.len()
        invariant
            all@ == features::ALL@,
            i <= all@.len(),
            names@.len() == i,
            forall|j: int| 0 <= j < i ==> #[trigger] names@[j]@ == all@[j]@,
        decreases all@.len() - i,
    {
        names.push(owned(all[i]));
        i = i + 1;
    }
    names
}

/// The refusal codes this build knows, in the order they are tabled.
pub open spec fn error_codes() -> Seq<ErrorCode> {
    seq![
        ErrorCode::UnsupportedProtocolVersion,
        ErrorCode::HandshakeRequired,
        ErrorCode::MalformedFrame,
        ErrorCode::UnknownCommand,
        ErrorCode::InvalidParameters,
        ErrorCode::NotImplemented,
        ErrorCode::AlreadyRecording,
        ErrorCode::NotRecording,
        ErrorCode::TargetNotFound,
        ErrorCode::RecordingFailed,
        ErrorCode::TooManyConnections,
        ErrorCode::ShuttingDown,
        ErrorCode::Internal,
    ]
}

/// Every refusal code this build knows.
pub fn every_error_code() -> (codes: Vec<ErrorCode>)
    ensures
        codes@ == error_codes(),
{
    let mut codes: Vec<ErrorCode> = Vec::new();
    codes.push(ErrorCode::UnsupportedProtocolVersion);
    codes.push(ErrorCode::HandshakeRequired);
    codes.push(ErrorCode::MalformedFrame);
    codes.push(ErrorCode::UnknownCommand);
    codes.push(ErrorCode::InvalidParameters);
    codes.push(ErrorCode::NotImplemented);
    codes.push(ErrorCode::AlreadyRecording);
    codes.push(ErrorCode::NotRecording);
    codes.push(ErrorCode::TargetNotFound);
    codes.push(ErrorCode::RecordingFailed);
    codes.push(ErrorCode::TooManyConnections);
    codes.push(ErrorCode::ShuttingDown);
    codes.push(ErrorCode::Internal);
    assert(codes@ =~= error_codes());
    codes
}

/// The list of codes holds every code but a stranger's, each once, and each
/// under a distinct wire name.
pub proof fn lemma_error_codes_are_complete(code: ErrorCode)
    ensures
        error_codes().contains(code) <==> !(code is Other),
        error_codes().no_duplicates(),
        forall|i: int, j: int|
            0 <= i < j < error_codes().len() ==> #[trigger] error_codes()[i].wire()
                != #[trigger] error_codes()[j].wire(),
{
    let codes = error_codes();
    match code {
        ErrorCode::UnsupportedProtocolVersion => assert(codes[0] == code),
        ErrorCode::HandshakeRequired => assert(codes[1] == code),
        ErrorCode::MalformedFrame => assert(codes[2] == code),
        ErrorCode::UnknownCommand => assert(codes[3] == code),
        ErrorCode::InvalidParameters => assert(codes[4] == code),
        ErrorCode::NotImplemented => assert(codes[5] == code),
        ErrorCode::AlreadyRecording => assert(codes[6] == code),
        ErrorCode::NotRecording => assert(codes[7] == code),
        ErrorCode::TargetNotFound => assert(codes[8] == code),
        ErrorCode::RecordingFailed => assert(codes[9] == code),
        ErrorCode::TooManyConnections => assert(codes[10] == code),
        ErrorCode::ShuttingDown => assert(codes[11] == code),
        ErrorCode::Internal => assert(codes[12] == code),
        ErrorCode::Other(_) => {},
    }
    assert forall|i: int, j: int|
        0 <= i < j < codes.len() implies #[trigger] codes[i].wire() != #[trigger] codes[j].wire() by {
        lemma_error_code_parse_round_trip(codes[i]);
        lemma_error_code_parse_round_trip(codes[j]);
    }
}

/// The reasons a recording can end that this build knows.
pub open spec fn end_reasons() -> Seq<EndReason> {
    seq![EndReason::Stopped, EndReason::TargetLost, EndReason::TargetResized]
}

/// Every reason a recording can end that this build knows.
pub fn every_end_reason() -> (reasons: Vec<EndReason>)
    ensures
        reasons@ == end_reasons(),
{
    let mut reasons: Vec<EndReason> = Vec::new();
    reasons.push(EndReason::Stopped);
    reasons.push(EndReason::TargetLost);
    reasons.push(EndReason::TargetResized);
    assert(reasons@ =~= end_reasons());
    reasons
}

/// The list of reasons holds every reason but a stranger's, each once.
pub proof fn lemma_end_reasons_are_complete(reason: EndReason)
    ensures
        end_reasons().contains(reason) <==> !(reason is Other),
        end_reasons().no_duplicates(),
{
    match reason {
        EndReason::Stopped => assert(end_reasons()[0] == reason),
        EndReason::TargetLost => assert(end_reasons()[1] == reason),
        EndReason::TargetResized => assert(end_reasons()[2] == reason),
        EndReason::Other(_) => {},
    }
}

/// Every state a hotkey binding can be in, one of each, with a conflict
/// explained as the commonest one is.
pub fn every_hotkey_state() -> (states: Vec<HotkeyState>)
    ensures
        states@.len() == 3,
        states@[0] == HotkeyState::Unbound,
        states@[1] == HotkeyState::Registered,
        states@[2] matches HotkeyState::Conflict { reason }
            && reason@ == "another application already uses it"@,
{
    let mut states: Vec<HotkeyState> = Vec::new();
    states.push(HotkeyState::Unbound);
    states.push(HotkeyState::Registered);
    states.push(HotkeyState::Conflict { reason: owned("another application already uses it") });
    states
}

/// The commands, in the order the protocol's documentation tables them.
pub open spec fn command_table() -> Seq<CommandName> {
    seq![
        CommandName::Ping,
        CommandName::GetStatus,
        CommandName::StartRecording,
        CommandName::StopRecording,
        CommandName::AddBookmark,
        CommandName::TakeScreenshot,
        CommandName::SaveReplay,
        CommandName::LibrarySessions,
        CommandName::LibraryGames,
        CommandName::LibraryEvents,
        CommandName::LibraryTrash,
        CommandName::RestoreFromTrash,
        CommandName::EmptyTrash,
        CommandName::SetFavourite,
        CommandName::SetLock,
        CommandName::Plugins,
        CommandName::ExportRecording,
        CommandName::OpenPlayback,
        CommandName::OpenPreview,
        CommandName::GetHotkeys,
        CommandName::GetSettings,
        CommandName::ApplySettings,
        CommandName::GetAudioDevices,
        CommandName::GetMicrophoneLevel,
        CommandName::GetStartAtLogin,
        CommandName::SetStartAtLogin,
        CommandName::Shutdown,
    ]
}

/// The structure a command's reply is described under: `reply.` and the tag
/// of the reply it produces.
pub open spec fn reply_structure(command: CommandName) -> Seq<char> {
    match command {
        CommandName::Ping => "reply.pong"@,
        CommandName::GetStatus => "reply.status"@,
        CommandName::StartRecording => "reply.recording_started"@,
        CommandName::StopRecording => "reply.recording_stopped"@,
        CommandName::AddBookmark => "reply.bookmark_added"@,
        CommandName::TakeScreenshot => "reply.screenshot_taken"@,
        CommandName::SaveReplay => "reply.replay_saved"@,
        CommandName::LibrarySessions => "reply.library_sessions"@,
        CommandName::LibraryGames => "reply.library_games"@,
        CommandName::LibraryEvents => "reply.library_events"@,
        CommandName::LibraryTrash => "reply.library_trash"@,
        CommandName::RestoreFromTrash => "reply.restored"@,
        CommandName::EmptyTrash => "reply.trash_emptied"@,
        CommandName::SetFavourite => "reply.favourited"@,
        CommandName::SetLock => "reply.locked"@,
        CommandName::Plugins => "reply.plugins"@,
        CommandName::ExportRecording => "reply.recording_exported"@,
        CommandName::OpenPlayback => "reply.playback_opened"@,
        CommandName::OpenPreview => "reply.preview_opened"@,
        CommandName::GetHotkeys => "reply.hotkeys"@,
        CommandName::GetSettings => "reply.settings"@,
        CommandName::ApplySettings => "reply.settings"@,
        CommandName::GetAudioDevices => "reply.audio_devices"@,
        CommandName::GetMicrophoneLevel => "reply.microphone_level"@,
        CommandName::GetStartAtLogin => "reply.start_at_login"@,
        CommandName::SetStartAtLogin => "reply.start_at_login"@,
        CommandName::Shutdown => "reply.shutting_down"@,
    }
}

/// The structure a command's parameters are described under: its own name,
/// for a command that takes parameters.
pub open spec fn parameter_structure(command: CommandName) -> Option<Seq<char>> {
    if command.has_parameters() {
        Some(command.wire())
    } else {
        None
    }
}

/// Whether `schema` describes `command` as this build performs it: its name,
/// the structures of its parameters and of its reply, and that it is
/// available.
pub open spec fn describes(schema: CommandSchema, command: CommandName) -> bool {
    &&& schema.name@ == command.wire()
    &&& match parameter_structure(command) {
        Some(p) => schema.params matches Some(s) && s@ == p,
        None => schema.params is None,
    }
    &&& schema.reply matches Some(r) && r@ == reply_structure(command)
    &&& schema.available_in_this_build
}

/// Each command's reply is described under `reply.` followed by the tag of
/// the reply it produces: `stop_recording` under `reply.recording_stopped`,
/// `start_recording` under `reply.recording_started`, and so on. Only the
/// commands that answer with the same reply share a structure: reading and
/// applying the settings both answer with the settings, and reading and
/// changing the start at login both answer with that arrangement.
pub proof fn lemma_reply_structures()
    ensures
        reply_structure(CommandName::Ping) == "reply."@ + "pong"@,
        reply_structure(CommandName::GetStatus) == "reply."@ + "status"@,
        reply_structure(CommandName::StartRecording) == "reply."@ + "recording_started"@,
        reply_structure(CommandName::StopRecording) == "reply."@ + "recording_stopped"@,
        reply_structure(CommandName::AddBookmark) == "reply."@ + "bookmark_added"@,
        reply_structure(CommandName::TakeScreenshot) == "reply."@ + "screenshot_taken"@,
        reply_structure(CommandName::SaveReplay) == "reply."@ + "replay_saved"@,
        reply_structure(CommandName::LibrarySessions) == "reply."@ + "library_sessions"@,
        reply_structure(CommandName::LibraryGames) == "reply."@ + "library_games"@,
        reply_structure(CommandName::LibraryEvents) == "reply."@ + "library_events"@,
        reply_structure(CommandName::LibraryTrash) == "reply."@ + "library_trash"@,
        reply_structure(CommandName::RestoreFromTrash) == "reply."@ + "restored"@,
        reply_structure(CommandName::EmptyTrash) == "reply."@ + "trash_emptied"@,
        reply_structure(CommandName::SetFavourite) == "reply."@ + "favourited"@,
        reply_structure(CommandName::SetLock) == "reply."@ + "locked"@,
        reply_structure(CommandName::Plugins) == "reply."@ + "plugins"@,
        reply_structure(CommandName::ExportRecording) == "reply."@ + "recording_exported"@,
        reply_structure(CommandName::OpenPlayback) == "reply."@ + "playback_opened"@,
        reply_structure(CommandName::OpenPreview) == "reply."@ + "preview_opened"@,
        reply_structure(CommandName::GetHotkeys) == "reply."@ + "hotkeys"@,
        reply_structure(CommandName::GetSettings) == "reply."@ + "settings"@,
        reply_structure(CommandName::ApplySettings) == "reply."@ + "settings"@,
        reply_structure(CommandName::GetAudioDevices) == "reply."@ + "audio_devices"@,
        reply_structure(CommandName::GetMicrophoneLevel) == "reply."@ + "microphone_level"@,
        reply_structure(CommandName::GetStartAtLogin) == "reply."@ + "start_at_login"@,
        reply_structure(CommandName::SetStartAtLogin) == "reply."@ + "start_at_login"@,
        reply_structure(CommandName::Shutdown) == "reply."@ + "shutting_down"@,
{
    reveal_strlit("reply.");
    reveal_strlit("reply.audio_devices");
    reveal_strlit("audio_devices");
    reveal_strlit("reply.bookmark_added");
    reveal_strlit("bookmark_added");
    reveal_strlit("reply.favourited");
    reveal_strlit("favourited");
    reveal_strlit("reply.hotkeys");
    reveal_strlit("hotkeys");
    reveal_strlit("reply.library_events");
    reveal_strlit("library_events");
    reveal_strlit("reply.library_games");
    reveal_strlit("library_games");
    reveal_strlit("reply.library_sessions");
    reveal_strlit("library_sessions");
    reveal_strlit("reply.library_trash");
    reveal_strlit("library_trash");
    reveal_strlit("reply.locked");
    reveal_strlit("locked");
    reveal_strlit("reply.microphone_level");
    reveal_strlit("microphone_level");
    reveal_strlit("reply.playback_opened");
    reveal_strlit("playback_opened");
    reveal_strlit("reply.plugins");
    reveal_strlit("plugins");
    reveal_strlit("reply.pong");
    reveal_strlit("pong");
    reveal_strlit("reply.preview_opened");
    reveal_strlit("preview_opened");
    reveal_strlit("reply.recording_exported");
    reveal_strlit("recording_exported");
    reveal_strlit("reply.recording_started");
    reveal_strlit("recording_started");
    reveal_strlit("reply.recording_stopped");
    reveal_strlit("recording_stopped");
    reveal_strlit("reply.replay_saved");
    reveal_strlit("replay_saved");
    reveal_strlit("reply.restored");
    reveal_strlit("restored");
    reveal_strlit("reply.screenshot_taken");
    reveal_strlit("screenshot_taken");
    reveal_strlit("reply.settings");
    reveal_strlit("settings");
    reveal_strlit("reply.shutting_down");
    reveal_strlit("shutting_down");
    reveal_strlit("reply.start_at_login");
    reveal_strlit("start_at_login");
    reveal_strlit("reply.status");
    reveal_strlit("status");
    reveal_strlit("reply.trash_emptied");
    reveal_strlit("trash_emptied");
}

/// The tag of the reply a command produces.
spec fn reply_tag(command: CommandName) -> Seq<char> {
    match command {
        CommandName::Ping => "pong"@,
        CommandName::GetStatus => "status"@,
        CommandName::StartRecording => "recording_started"@,
        CommandName::StopRecording => "recording_stopped"@,
        CommandName::AddBookmark => "bookmark_added"@,
        CommandName::TakeScreenshot => "screenshot_taken"@,
        CommandName::SaveReplay => "replay_saved"@,
        CommandName::LibrarySessions => "library_sessions"@,
        CommandName::LibraryGames => "library_games"@,
        CommandName::LibraryEvents => "library_events"@,
        CommandName::LibraryTrash => "library_trash"@,
        CommandName::RestoreFromTrash => "restored"@,
        CommandName::EmptyTrash => "trash_emptied"@,
        CommandName::SetFavourite => "favourited"@,
        CommandName::SetLock => "locked"@,
        CommandName::Plugins => "plugins"@,
        CommandName::ExportRecording => "recording_exported"@,
        CommandName::OpenPlayback => "playback_opened"@,
        CommandName::OpenPreview => "preview_opened"@,
        CommandName::GetHotkeys => "hotkeys"@,
        CommandName::GetSettings => "settings"@,
        CommandName::ApplySettings => "settings"@,
        CommandName::GetAudioDevices => "audio_devices"@,
        CommandName::GetMicrophoneLevel => "microphone_level"@,
        CommandName::GetStartAtLogin => "start_at_login"@,
        CommandName::SetStartAtLogin => "start_at_login"@,
        CommandName::Shutdown => "shutting_down"@,
    }
}

/// The command that stands for all those answering with the same reply.
spec fn representative(command: CommandName) -> CommandName {
    match command {
        CommandName::ApplySettings => CommandName::GetSettings,
        CommandName::SetStartAtLogin => CommandName::GetStartAtLogin,
        other => other,
    }
}

/// The command, up to [`representative`], whose reply carries `tag`.
spec fn replied_by(tag: Seq<char>) -> CommandName {
    if tag == "pong"@ {
        CommandName::Ping
    } else if tag == "status"@ {
        CommandName::GetStatus
    } else if tag == "recording_started"@ {
        CommandName::StartRecording
    } else if tag == "recording_stopped"@ {
        CommandName::StopRecording
    } else if tag == "bookmark_added"@ {
        CommandName::AddBookmark
    } else if tag == "screenshot_taken"@ {
        CommandName::TakeScreenshot
    } else if tag == "replay_saved"@ {
        CommandName::SaveReplay
    } else if tag == "library_sessions"@ {
        CommandName::LibrarySessions
    } else if tag == "library_games"@ {
        CommandName::LibraryGames
    } else if tag == "library_events"@ {
        CommandName::LibraryEvents
    } else if tag == "library_trash"@ {
        CommandName::LibraryTrash
    } else if tag == "restored"@ {
        CommandName::RestoreFromTrash
    } else if tag == "trash_emptied"@ {
        CommandName::EmptyTrash
    } else if tag == "favourited"@ {
        CommandName::SetFavourite
    } else if tag == "locked"@ {
        CommandName::SetLock
    } else if tag == "plugins"@ {
        CommandName::Plugins
    } else if tag == "recording_exported"@ {
        CommandName::ExportRecording
    } else if tag == "playback_opened"@ {
        CommandName::OpenPlayback
    } else if tag == "preview_opened"@ {
        CommandName::OpenPreview
    } else if tag == "hotkeys"@ {
        CommandName::GetHotkeys
    } else if tag == "settings"@ {
        CommandName::GetSettings
    } else if tag == "audio_devices"@ {
        CommandName::GetAudioDevices
    } else if tag == "microphone_level"@ {
        CommandName::GetMicrophoneLevel
    } else if tag == "start_at_login"@ {
        CommandName::GetStartAtLogin
    } else if tag == "shutting_down"@ {
        CommandName::Shutdown
    } else {
        CommandName::Ping
    }
}

/// A reply tag names back the commands that produce it.
proof fn lemma_reply_tag_round_trip(command: CommandName)
    ensures
        replied_by(reply_tag(command)) == representative(command),
        reply_structure(command) == "reply."@ + reply_tag(command),
{
    lemma_reply_tags_differ();
    lemma_reply_structures();
}

/// Commands that answer with different replies are described under different
/// structures: two commands share a reply structure only when they are the
/// same command, or both answer with the settings, or both answer with the
/// start at login arrangement.
pub proof fn lemma_different_replies_have_different_structures(first: CommandName, second: CommandName)
    ensures
        reply_structure(first) == reply_structure(second) ==> first == second || ((first
            == CommandName::GetSettings || first == CommandName::ApplySettings) && (second
            == CommandName::GetSettings || second == CommandName::ApplySettings)) || ((first
            == CommandName::GetStartAtLogin || first == CommandName::SetStartAtLogin) && (second
            == CommandName::GetStartAtLogin || second == CommandName::SetStartAtLogin)),
{
    lemma_reply_tag_round_trip(first);
    lemma_reply_tag_round_trip(second);
    reveal_strlit("reply.");
    if reply_structure(first) == reply_structure(second) {
        assert(("reply."@ + reply_tag(first)).skip(6) =~= reply_tag(first));
        assert(("reply."@ + reply_tag(second)).skip(6) =~= reply_tag(second));
        assert(reply_tag(first) == reply_tag(second));
    }
}

/// The reply tags: their lengths, and the characters that tell apart any two
/// of the same length.
proof fn lemma_reply_tags_differ()
    ensures
        "audio_devices"@.len() == 13 && "audio_devices"@[0] == 'a' && "audio_devices"@[8] == 'v' && "audio_devices"@[12] == 's',
        "bookmark_added"@.len() == 14 && "bookmark_added"@[0] == 'b' && "bookmark_added"@[8] == '_' && "bookmark_added"@[12] == 'e',
        "favourited"@.len() == 10 && "favourited"@[0] == 'f' && "favourited"@[8] == 'e',
        "hotkeys"@.len() == 7 && "hotkeys"@[0] == 'h',
        "library_events"@.len() == 14 && "library_events"@[0] == 'l' && "library_events"@[8] == 'e' && "library_events"@[12] == 't',
        "library_games"@.len() == 13 && "library_games"@[0] == 'l' && "library_games"@[8] == 'g' && "library_games"@[12] == 's',
        "library_sessions"@.len() == 16 && "library_sessions"@[0] == 'l' && "library_sessions"@[8] == 's' && "library_sessions"@[12] == 'i',
        "library_trash"@.len() == 13 && "library_trash"@[0] == 'l' && "library_trash"@[8] == 't' && "library_trash"@[12] == 'h',
        "locked"@.len() == 6 && "locked"@[0] == 'l',
        "microphone_level"@.len() == 16 && "microphone_level"@[0] == 'm' && "microphone_level"@[8] == 'n' && "microphone_level"@[12] == 'e',
        "playback_opened"@.len() == 15 && "playback_opened"@[0] == 'p' && "playback_opened"@[8] == '_' && "playback_opened"@[12] == 'n',
        "plugins"@.len() == 7 && "plugins"@[0] == 'p',
        "pong"@.len() == 4 && "pong"@[0] == 'p',
        "preview_opened"@.len() == 14 && "preview_opened"@[0] == 'p' && "preview_opened"@[8] == 'o' && "preview_opened"@[12] == 'e',
        "recording_exported"@.len() == 18 && "recording_exported"@[0] == 'r' && "recording_exported"@[8] == 'g' && "recording_exported"@[12] == 'p',
        "recording_started"@.len() == 17 && "recording_started"@[0] == 'r' && "recording_started"@[8] == 'g' && "recording_started"@[12] == 'a',
        "recording_stopped"@.len() == 17 && "recording_stopped"@[0] == 'r' && "recording_stopped"@[8] == 'g' && "recording_stopped"@[12] == 'o',
        "replay_saved"@.len() == 12 && "replay_saved"@[0] == 'r' && "replay_saved"@[8] == 'a',
        "restored"@.len() == 8 && "restored"@[0] == 'r',
        "screenshot_taken"@.len() == 16 && "screenshot_taken"@[0] == 's' && "screenshot_taken"@[8] == 'o' && "screenshot_taken"@[12] == 'a',
        "settings"@.len() == 8 && "settings"@[0] == 's',
        "shutting_down"@.len() == 13 && "shutting_down"@[0] == 's' && "shutting_down"@[8] == '_' && "shutting_down"@[12] == 'n',
        "start_at_login"@.len() == 14 && "start_at_login"@[0] == 's' && "start_at_login"@[8] == '_' && "start_at_login"@[12] == 'i',
        "status"@.len() == 6 && "status"@[0] == 's',
        "trash_emptied"@.len() == 13 && "trash_emptied"@[0] == 't' && "trash_emptied"@[8] == 'p' && "trash_emptied"@[12] == 'd',
{
    reveal_strlit("audio_devices");
    reveal_strlit("bookmark_added");
    reveal_strlit("favourited");
    reveal_strlit("hotkeys");
    reveal_strlit("library_events");
    reveal_strlit("library_games");
    reveal_strlit("library_sessions");
    reveal_strlit("library_trash");
    reveal_strlit("locked");
    reveal_strlit("microphone_level");
    reveal_strlit("playback_opened");
    reveal_strlit("plugins");
    reveal_strlit("pong");
    reveal_strlit("preview_opened");
    reveal_strlit("recording_exported");
    reveal_strlit("recording_started");
    reveal_strlit("recording_stopped");
    reveal_strlit("replay_saved");
    reveal_strlit("restored");
    reveal_strlit("screenshot_taken");
    reveal_strlit("settings");
    reveal_strlit("shutting_down");
    reveal_strlit("start_at_login");
    reveal_strlit("status");
    reveal_strlit("trash_emptied");
}

/// The structure name of a command's reply.
fn reply_structure_of(command: CommandName) -> (name: &'static str)
    ensures
        name@ == reply_structure(command),
{
    match command {
        CommandName::Ping => "reply.pong",
        CommandName::GetStatus => "reply.status",
        CommandName::StartRecording => "reply.recording_started",
        CommandName::StopRecording => "reply.recording_stopped",
        CommandName::AddBookmark => "reply.bookmark_added",
        CommandName::TakeScreenshot => "reply.screenshot_taken",
        CommandName::SaveReplay => "reply.replay_saved",
        CommandName::LibrarySessions => "reply.library_sessions",
        CommandName::LibraryGames => "reply.library_games",
        CommandName::LibraryEvents => "reply.library_events",
        CommandName::LibraryTrash => "reply.library_trash",
        CommandName::RestoreFromTrash => "reply.restored",
        CommandName::EmptyTrash => "reply.trash_emptied",
        CommandName::SetFavourite => "reply.favourited",
        CommandName::SetLock => "reply.locked",
        CommandName::Plugins => "reply.plugins",
        CommandName::ExportRecording => "reply.recording_exported",
        CommandName::OpenPlayback => "reply.playback_opened",
        CommandName::OpenPreview => "reply.preview_opened",
        CommandName::GetHotkeys => "reply.hotkeys",
        CommandName::GetSettings => "reply.settings",
        CommandName::ApplySettings => "reply.settings",
        CommandName::GetAudioDevices => "reply.audio_devices",
        CommandName::GetMicrophoneLevel => "reply.microphone_level",
        CommandName::GetStartAtLogin => "reply.start_at_login",
        CommandName::SetStartAtLogin => "reply.start_at_login",
        CommandName::Shutdown => "reply.shutting_down",
    }
}

/// The commands in table order.
fn command_list() -> (table: Vec<CommandName>)
    ensures
        table@ == command_table(),
{
    let mut table: Vec<CommandName> = Vec::new();
    table.push(CommandName::Ping);
    table.push(CommandName::GetStatus);
    table.push(CommandName::StartRecording);
    table.push(CommandName::StopRecording);
    table.push(CommandName::AddBookmark);
    table.push(CommandName::TakeScreenshot);
    table.push(CommandName::SaveReplay);
    table.push(CommandName::LibrarySessions);
    table.push(CommandName::LibraryGames);
    table.push(CommandName::LibraryEvents);
    table.push(CommandName::LibraryTrash);
    table.push(CommandName::RestoreFromTrash);
    table.push(CommandName::EmptyTrash);
    table.push(CommandName::SetFavourite);
    table.push(CommandName::SetLock);
    table.push(CommandName::Plugins);
    table.push(CommandName::ExportRecording);
    table.push(CommandName::OpenPlayback);
    table.push(CommandName::OpenPreview);
    table.push(CommandName::GetHotkeys);
    table.push(CommandName::GetSettings);
    table.push(CommandName::ApplySettings);
    table.push(CommandName::GetAudioDevices);
    table.push(CommandName::GetMicrophoneLevel);
    table.push(CommandName::GetStartAtLogin);
    table.push(CommandName::SetStartAtLogin);
    table.push(CommandName::Shutdown);
    assert(table@ =~= command_table());
    table
}

/// The commands, in the order the protocol's documentation tables them, each
/// with the structures of its parameters and its reply. Every command this
/// protocol names is one this build performs, so none is listed as
/// unavailable.
pub fn command_schemas() -> (schemas: Vec<CommandSchema>)
    ensures
        schemas@.len() == command_table().len(),
        forall|i: int| 0 <= i < schemas@.len() ==> describes(#[trigger] schemas@[i], command_table()[i]),
{
    let table = command_list();
    let mut schemas: Vec<CommandSchema> = Vec::new();
    let mut i: usize = 0;
    while i < table.len()
        invariant
            table@ == command_table(),
            i <= table@.len(),
            schemas@.len() == i,
            forall|j: int| 0 <= j < i ==> describes(#[trigger] schemas@[j], command_table()[j]),
        decreases table@.len() - i,
    {
        let command = table[i];
        let params = if command.takes_parameters() {
            Some(owned(command.name()))
        } else {
            None
        };
        let schema = CommandSchema {
            name: owned(command.name()),
            params,
            reply: Some(owned(reply_structure_of(command))),
            available_in_this_build: true,
        };
        assert(describes(schema, command_table()[i as int]));
        schemas.push(schema);
        i = i + 1;
    }
    schemas
}

/// The command table lists every command, once.
pub proof fn lemma_command_table_is_complete(command: CommandName)
    ensures
        command_table().contains(command),
        command_table().no_duplicates(),
{
    let table = command_table();
    match command {
        CommandName::Ping => assert(table[0] == command),
        CommandName::GetStatus => assert(table[1] == command),
        CommandName::StartRecording => assert(table[2] == command),
        CommandName::StopRecording => assert(table[3] == command),
        CommandName::AddBookmark => assert(table[4] == command),
        CommandName::TakeScreenshot => assert(table[5] == command),
        CommandName::SaveReplay => assert(table[6] == command),
        CommandName::LibrarySessions => assert(table[7] == command),
        CommandName::LibraryGames => assert(table[8] == command),
        CommandName::LibraryEvents => assert(table[9] == command),
        CommandName::LibraryTrash => assert(table[10] == command),
        CommandName::RestoreFromTrash => assert(table[11] == command),
        CommandName::EmptyTrash => assert(table[12] == command),
        CommandName::SetFavourite => assert(table[13] == command),
        CommandName::SetLock => assert(table[14] == command),
        CommandName::Plugins => assert(table[15] == command),
        CommandName::ExportRecording => assert(table[16] == command),
        CommandName::OpenPlayback => assert(table[17] == command),
        CommandName::OpenPreview => assert(table[18] == command),
        CommandName::GetHotkeys => assert(table[19] == command),
        CommandName::GetSettings => assert(table[20] == command),
        CommandName::ApplySettings => assert(table[21] == command),
        CommandName::GetAudioDevices => assert(table[22] == command),
        CommandName::GetMicrophoneLevel => assert(table[23] == command),
        CommandName::GetStartAtLogin => assert(table[24] == command),
        CommandName::SetStartAtLogin => assert(table[25] == command),
        CommandName::Shutdown => assert(table[26] == command),
    }
}

/// The sets of wire strings a description of the protocol enumerates, in the
/// order of their names, each with whether a value outside it still leaves
/// the message it is part of readable.
///
/// This is the compatibility policy. The envelope types, the two halves of an
/// outcome, the replies, a hotkey's state and the recorder's state are closed:
/// a value this build does not know fails the frame, because each decides
/// what the frame even is, and a state guessed at would be a lie a window
/// tells. Every other set is open: an older client meets a newer recorder
/// through its roles, streams, features, commands, codes, details, events and
/// end reasons, and one it does not know is kept or refused by name rather
/// than making the frame unreadable.
pub open spec fn enumeration_table() -> Seq<(Seq<char>, bool)> {
    seq![
        ("client_message_type"@, false),
        ("command"@, true),
        ("connection_role"@, true),
        ("end_reason"@, true),
        ("error_code"@, true),
        ("error_detail"@, true),
        ("event"@, true),
        ("event_stream"@, true),
        ("feature"@, true),
        ("hotkey_state"@, false),
        ("outcome"@, false),
        ("recorder_state"@, false),
        ("reply"@, false),
        ("server_message_type"@, false),
    ]
}

/// Whether `values` spells out `words`, one for one and in order.
pub open spec fn spelled(values: Seq<String>, words: Seq<Seq<char>>) -> bool {
    &&& values.len() == words.len()
    &&& forall|i: int| 0 <= i < values.len() ==> #[trigger] values[i]@ == words[i]
}

/// One named set of wire strings.
fn enumeration_entry(name: &str, values: Vec<String>, tolerates_unrecognised: bool) -> (entry: (
    String,
    Enumeration,
))
    ensures
        entry.0@ == name@,
        entry.1.values@ == values@,
        entry.1.tolerates_unrecognised == tolerates_unrecognised,
{
    (owned(name), Enumeration { values, tolerates_unrecognised })
}

/// The wire strings of the connection roles, in table order.
fn connection_role_names() -> (names: Vec<String>)
    ensures
        spelled(names@, connection_roles().map_values(|role: ConnectionRole| role.wire())),
{
    let roles = every_connection_role();
    let mut names: Vec<String> = Vec::new();
    let mut i: usize = 0;
    while i < roles.len()
        invariant
            roles@ == connection_roles(),
            i <= roles@.len(),
            names@.len() == i,
            forall|j: int| 0 <= j < i ==> #[trigger] names@[j]@ == roles@[j].wire(),
        decreases roles@.len() - i,
    {
        names.push(owned(roles[i].as_str()));
        i = i + 1;
    }
    names
}

/// The wire strings of the event streams, in table order.
fn event_stream_names() -> (names: Vec<String>)
    ensures
        spelled(names@, event_streams().map_values(|stream: EventStream| stream.wire())),
{
    let streams = every_event_stream();
    let mut names: Vec<String> = Vec::new();
    let mut i: usize = 0;
    while i < streams.len()
        invariant
            streams@ == event_streams(),
            i <= streams@.len(),
            names@.len() == i,
            forall|j: int| 0 <= j < i ==> #[trigger] names@[j]@ == streams@[j].wire(),
        decreases streams@.len() - i,
    {
        names.push(owned(streams[i].as_str()));
        i = i + 1;
    }
    names
}

/// The wire strings of the refusal codes, in table order.
fn error_code_names() -> (names: Vec<String>)
    ensures
        spelled(names@, error_codes().map_values(|code: ErrorCode| code.wire())),
{
    let codes = every_error_code();
    let mut names: Vec<String> = Vec::new();
    let mut i: usize = 0;
    while i < codes.len()
        invariant
            codes@ == error_codes(),
            i <= codes@.len(),
            names@.len() == i,
            forall|j: int| 0 <= j < i ==> #[trigger] names@[j]@ == codes@[j].wire(),
        decreases codes@.len() - i,
    {
        names.push(owned(codes[i].as_str()));
        i = i + 1;
    }
    names
}

/// The wire strings of the end reasons, in table order.
fn end_reason_names() -> (names: Vec<String>)
    ensures
        spelled(names@, end_reasons().map_values(|reason: EndReason| reason.wire())),
{
    let reasons = every_end_reason();
    let mut names: Vec<String> = Vec::new();
    let mut i: usize = 0;
    while i < reasons.len()
        invariant
            reasons@ == end_reasons(),
            i <= reasons@.len(),
            names@.len() == i,
            forall|j: int| 0 <= j < i ==> #[trigger] names@[j]@ == reasons@[j].wire(),
        decreases reasons@.len() - i,
    {
        names.push(owned(reasons[i].as_str()));
        i = i + 1;
    }
    names
}

/// The names of the commands, as [`command_schemas`] lists them.
fn command_names() -> (names: Vec<String>)
    ensures
        spelled(names@, command_table().map_values(|command: CommandName| command.wire())),
{
    let schemas = command_schemas();
    let mut names: Vec<String> = Vec::new();
    let mut i: usize = 0;
    while i < schemas.len()
        invariant
            schemas@.len() == command_table().len(),
            forall|j: int| 0 <= j < schemas@.len() ==> describes(#[trigger] schemas@[j], command_table()[j]),
            i <= schemas@.len(),
            names@.len() == i,
            forall|j: int| 0 <= j < i ==> #[trigger] names@[j]@ == command_table()[j].wire(),
        decreases schemas@.len() - i,
    {
        assert(describes(schemas@[i as int], command_table()[i as int]));
        names.push(owned(schemas[i].name.as_str()));
        i = i + 1;
    }
    names
}

/// The closed and open sets of wire strings, keyed and ordered by name, with
/// the compatibility policy [`enumeration_table`] states.
///
/// The roles, streams, features, commands, codes and end reasons are this
/// library's own lists. The other sets are the tags their types carry on the
/// wire, which only their serialisation knows; they are taken as given, one
/// list per set.
pub fn enumerations(
    client_types: Vec<String>,
    server_types: Vec<String>,
    detail_tags: Vec<String>,
    event_tags: Vec<String>,
    outcome_tags: Vec<String>,
    reply_tags: Vec<String>,
    hotkey_tags: Vec<String>,
    recorder_tags: Vec<String>,
) -> (table: Vec<(String, Enumeration)>)
    ensures
        table@.len() == enumeration_table().len(),
        forall|k: int|
            0 <= k < table@.len() ==> (#[trigger] table@[k]).0@ == enumeration_table()[k].0
                && table@[k].1.tolerates_unrecognised == enumeration_table()[k].1,
        table@[0].1.values@ == client_types@,
        spelled(table@[1].1.values@, command_table().map_values(|command: CommandName| command.wire())),
        spelled(table@[2].1.values@, connection_roles().map_values(|role: ConnectionRole| role.wire())),
        spelled(table@[3].1.values@, end_reasons().map_values(|reason: EndReason| reason.wire())),
        spelled(table@[4].1.values@, error_codes().map_values(|code: ErrorCode| code.wire())),
        table@[5].1.values@ == detail_tags@,
        table@[6].1.values@ == event_tags@,
        spelled(table@[7].1.values@, event_streams().map_values(|stream: EventStream| stream.wire())),
        spelled(table@[8].1.values@, features::ALL@.map_values(|name: &str| name@)),
        table@[9].1.values@ == hotkey_tags@,
        table@[10].1.values@ == outcome_tags@,
        table@[11].1.values@ == recorder_tags@,
        table@[12].1.values@ == reply_tags@,
        table@[13].1.values@ == server_types@,
{
    let features = every_feature();
    assert(spelled(features@, features::ALL@.map_values(|name: &str| name@)));
    let mut table: Vec<(String, Enumeration)> = Vec::new();
    table.push(enumeration_entry("client_message_type", client_types, false));
    table.push(enumeration_entry("command", command_names(), true));
    table.push(enumeration_entry("connection_role", connection_role_names(), true));
    table.push(enumeration_entry("end_reason", end_reason_names(), true));
    table.push(enumeration_entry("error_code", error_code_names(), true));
    table.push(enumeration_entry("error_detail", detail_tags, true));
    table.push(enumeration_entry("event", event_tags, true));
    table.push(enumeration_entry("event_stream", event_stream_names(), true));
    table.push(enumeration_entry("feature", features, true));
    table.push(enumeration_entry("hotkey_state", hotkey_tags, false));
    table.push(enumeration_entry("outcome", outcome_tags, false));
    table.push(enumeration_entry("recorder_state", recorder_tags, false));
    table.push(enumeration_entry("reply", reply_tags, false));
    table.push(enumeration_entry("server_message_type", server_types, false));
    assert forall|k: int| 0 <= k < table@.len() implies (#[trigger] table@[k]).0@
        == enumeration_table()[k].0 && table@[k].1.tolerates_unrecognised
        == enumeration_table()[k].1 by {
    }
    table
}

} // verus!
