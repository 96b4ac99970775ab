//! The parameters of the commands whose shape this library checks, and the
//! refusals a command that cannot be parsed gets.

use vstd::prelude::*;

use crate::error::{ErrorCode, ProtocolError};
use crate::text::{owned, same_text};

verus! {

/// What to record, and how.
#[derive(Debug, Clone, PartialEq, Eq)]
pub struct StartRecording {
    /// Record the window whose title contains this text.
    pub window: Option<String>,
    /// Record the window belonging to this executable, such as `cs2.exe`.
    pub process: Option<String>,
    /// Record the window belonging to this process identifier.
    pub pid: Option<u32>,
    /// Where to write the recording.
    pub output: Option<String>,
    /// Whether an existing file at `output` may be replaced.
    pub overwrite: bool,
    /// `source`, or `WIDTHxHEIGHT`.
    pub resolution: Option<String>,
    /// Frames per second to encode at.
    pub framerate: Option<u32>,
    /// `auto`, `h264`, `hevc` or `av1`.
    pub codec: Option<String>,
    /// `auto`, `nvenc`, `amf`, `quicksync` or `software`.
    pub encoder: Option<String>,
    /// `default`, `none`, or part of a device name.
    pub microphone: Option<String>,
    /// `default`, `none`, or part of a device name.
    pub system_audio: Option<String>,
    /// Keep the last this many seconds of the recording.
    pub replay_seconds: Option<u32>,
    /// Keep a replay buffer, at the length this recorder has configured.
    pub replay: bool,
}

impl Default for StartRecording {
    /// A start that asks for nothing in particular, and for no replay buffer.
    fn default() -> (start: StartRecording)
        ensures
            start.window is None,
            start.process is None,
            start.pid is None,
            start.output is None,
            !start.overwrite,
            start.resolution is None,
            start.framerate is None,
            start.codec is None,
            start.encoder is None,
            start.microphone is None,
            start.system_audio is None,
            start.replay_seconds is None,
            !start.replay,
    {
        StartRecording {
            window: None,
            process: None,
            pid: None,
            output: None,
            overwrite: false,
            resolution: None,
            framerate: None,
            codec: None,
            encoder: None,
            microphone: None,
            system_audio: None,
            replay_seconds: None,
            replay: false,
        }
    }
}

/// Which recording to stop.
#[derive(Debug, Clone, PartialEq, Eq)]
pub struct StopRecording {
    /// The recording to stop; absent means the one that is running.
    pub recording_id: Option<String>,
}

impl Default for StopRecording {
    /// Stopping whatever is running.
    fn default() -> (stop: StopRecording)
        ensures
            stop.recording_id is None,
    {
        StopRecording { recording_id: None }
    }
}

/// Taking a still image of what is being captured.
#[derive(Debug, Clone, PartialEq, Eq)]
pub struct TakeScreenshot {
    /// The recording whose target to capture.
    pub recording_id: Option<String>,
    /// A window whose title contains this text.
    pub window: Option<String>,
    /// A window belonging to this executable.
    pub process: Option<String>,
    /// A window belonging to this process identifier.
    pub pid: Option<u32>,
    /// `png` or `jpeg`.
    pub format: Option<String>,
}

impl Default for TakeScreenshot {
    /// A screenshot of whatever is being recorded, in the default format.
    fn default() -> (shot: TakeScreenshot)
        ensures
            shot.recording_id is None,
            shot.window is None,
            shot.process is None,
            shot.pid is None,
            shot.format is None,
    {
        TakeScreenshot { recording_id: None, window: None, process: None, pid: None, format: None }
    }
}

/// Copying a finished recording into MP4.
#[derive(Debug, Clone, PartialEq, Eq)]
pub struct ExportRecording {
    /// The recording to read.
    pub source: String,
    /// The file to write.
    pub destination: String,
}

impl Default for ExportRecording {
    /// Both paths empty.
    fn default() -> (export: ExportRecording)
        ensures
            export.source@ == Seq::<char>::empty(),
            export.destination@ == Seq::<char>::empty(),
    {
        ExportRecording { source: String::new(), destination: String::new() }
    }
}

/// Asking the recorder to stop serving, finish anything it is recording, and
/// exit.
#[derive(Debug, Clone, Copy, PartialEq, Eq, Structural)]
pub struct Shutdown {
    /// Whether exiting may end a recording in progress. Without it a shutdown
    /// during a recording is refused.
    pub finalise_recording: bool,
}

impl Default for Shutdown {
    /// The shutdown that will not end a recording.
    fn default() -> (shutdown: Shutdown)
        ensures
            !shutdown.finalise_recording,
    {
        Shutdown { finalise_recording: false }
    }
}

/// The commands this protocol defines, by name.
#[derive(Debug, Clone, Copy, PartialEq, Eq, Structural)]
pub enum CommandName {
    /// `ping`.
    Ping,
    /// `get_status`.
    GetStatus,
    /// `start_recording`.
    StartRecording,
    /// `stop_recording`.
    StopRecording,
    /// `add_bookmark`.
    AddBookmark,
    /// `take_screenshot`.
    TakeScreenshot,
    /// `save_replay`.
    SaveReplay,
    /// `library_sessions`.
    LibrarySessions,
    /// `library_games`.
    LibraryGames,
    /// `library_events`.
    LibraryEvents,
    /// `library_trash`.
    LibraryTrash,
    /// `restore_from_trash`.
    RestoreFromTrash,
    /// `empty_trash`.
    EmptyTrash,
    /// `set_favourite`.
    SetFavourite,
    /// `set_lock`.
    SetLock,
    /// `plugins`.
    Plugins,
    /// `export_recording`.
    ExportRecording,
    /// `open_playback`.
    OpenPlayback,
    /// `open_preview`.
    OpenPreview,
    /// `get_hotkeys`.
    GetHotkeys,
    /// `get_settings`.
    GetSettings,
    /// `apply_settings`.
    ApplySettings,
    /// `get_audio_devices`.
    GetAudioDevices,
    /// `get_microphone_level`.
    GetMicrophoneLevel,
    /// `get_start_at_login`.
    GetStartAtLogin,
    /// `set_start_at_login`.
    SetStartAtLogin,
    /// `shutdown`.
    Shutdown,
}

impl CommandName {
    /// The command's name on the wire.
    pub open spec fn wire(self) -> Seq<char> {
        match self {
            CommandName::Ping => "ping"@,
            CommandName::GetStatus => "get_status"@,
            CommandName::StartRecording => "start_recording"@,
            CommandName::StopRecording => "stop_recording"@,
            CommandName::AddBookmark => "add_bookmark"@,
            CommandName::TakeScreenshot => "take_screenshot"@,
            CommandName::SaveReplay => "save_replay"@,
            CommandName::LibrarySessions => "library_sessions"@,
            CommandName::LibraryGames => "library_games"@,
            CommandName::LibraryEvents => "library_events"@,
            CommandName::LibraryTrash => "library_trash"@,
            CommandName::RestoreFromTrash => "restore_from_trash"@,
            CommandName::EmptyTrash => "empty_trash"@,
            CommandName::SetFavourite => "set_favourite"@,
            CommandName::SetLock => "set_lock"@,
            CommandName::Plugins => "plugins"@,
            CommandName::ExportRecording => "export_recording"@,
            CommandName::OpenPlayback => "open_playback"@,
            CommandName::OpenPreview => "open_preview"@,
            CommandName::GetHotkeys => "get_hotkeys"@,
            CommandName::GetSettings => "get_settings"@,
            CommandName::ApplySettings => "apply_settings"@,
            CommandName::GetAudioDevices => "get_audio_devices"@,
            CommandName::GetMicrophoneLevel => "get_microphone_level"@,
            CommandName::GetStartAtLogin => "get_start_at_login"@,
            CommandName::SetStartAtLogin => "set_start_at_login"@,
            CommandName::Shutdown => "shutdown"@,
        }
    }

    /// The command a name names, if it names one.
    pub open spec fn named(name: Seq<char>) -> Option<CommandName> {
        if name == "ping"@ {
            Some(CommandName::Ping)
        } else if name == "get_status"@ {
            Some(CommandName::GetStatus)
        } else if name == "start_recording"@ {
            Some(CommandName::StartRecording)
        } else if name == "stop_recording"@ {
            Some(CommandName::StopRecording)
        } else if name == "add_bookmark"@ {
            Some(CommandName::AddBookmark)
        } else if name == "take_screenshot"@ {
            Some(CommandName::TakeScreenshot)
        } else if name == "save_replay"@ {
            Some(CommandName::SaveReplay)
        } else if name == "library_sessions"@ {
            Some(CommandName::LibrarySessions)
        } else if name == "library_games"@ {
            Some(CommandName::LibraryGames)
        } else if name == "library_events"@ {
            Some(CommandName::LibraryEvents)
        } else if name == "library_trash"@ {
            Some(CommandName::LibraryTrash)
        } else if name == "restore_from_trash"@ {
            Some(CommandName::RestoreFromTrash)
        } else if name == "empty_trash"@ {
            Some(CommandName::EmptyTrash)
        } else if name == "set_favourite"@ {
            Some(CommandName::SetFavourite)
        } else if name == "set_lock"@ {
            Some(CommandName::SetLock)
        } else if name == "plugins"@ {
            Some(CommandName::Plugins)
        } else if name == "export_recording"@ {
            Some(CommandName::ExportRecording)
        } else if name == "open_playback"@ {
            Some(CommandName::OpenPlayback)
        } else if name == "open_preview"@ {
            Some(CommandName::OpenPreview)
        } else if name == "get_hotkeys"@ {
            Some(CommandName::GetHotkeys)
        } else if name == "get_settings"@ {
            Some(CommandName::GetSettings)
        } else if name == "apply_settings"@ {
            Some(CommandName::ApplySettings)
        } else if name == "get_audio_devices"@ {
            Some(CommandName::GetAudioDevices)
        } else if name == "get_microphone_level"@ {
            Some(CommandName::GetMicrophoneLevel)
        } else if name == "get_start_at_login"@ {
            Some(CommandName::GetStartAtLogin)
        } else if name == "set_start_at_login"@ {
            Some(CommandName::SetStartAtLogin)
        } else if name == "shutdown"@ {
            Some(CommandName::Shutdown)
        } else {
            None
        }
    }

    /// Whether a command carries parameters of its own.
    pub open spec fn has_parameters(self) -> bool {
        match self {
            CommandName::Ping | CommandName::GetStatus | CommandName::LibraryGames | CommandName::Plugins | CommandName::GetHotkeys | CommandName::GetSettings | CommandName::GetAudioDevices | CommandName::GetStartAtLogin => false,
            _ => true,
        }
    }

    /// The command's name on the wire.
    pub fn name(self) -> (name: &'static str)
        ensures
            name@ == self.wire(),
    {
        match self {
            CommandName::Ping => "ping",
            CommandName::GetStatus => "get_status",
            CommandName::StartRecording => "start_recording",
            CommandName::StopRecording => "stop_recording",
            CommandName::AddBookmark => "add_bookmark",
            CommandName::TakeScreenshot => "take_screenshot",
            CommandName::SaveReplay => "save_replay",
            CommandName::LibrarySessions => "library_sessions",
            CommandName::LibraryGames => "library_games",
            CommandName::LibraryEvents => "library_events",
            CommandName::LibraryTrash => "library_trash",
            CommandName::RestoreFromTrash => "restore_from_trash",
            CommandName::EmptyTrash => "empty_trash",
            CommandName::SetFavourite => "set_favourite",
            CommandName::SetLock => "set_lock",
            CommandName::Plugins => "plugins",
            CommandName::ExportRecording => "export_recording",
            CommandName::OpenPlayback => "open_playback",
            CommandName::OpenPreview => "open_preview",
            CommandName::GetHotkeys => "get_hotkeys",
            CommandName::GetSettings => "get_settings",
            CommandName::ApplySettings => "apply_settings",
            CommandName::GetAudioDevices => "get_audio_devices",
            CommandName::GetMicrophoneLevel => "get_microphone_level",
            CommandName::GetStartAtLogin => "get_start_at_login",
            CommandName::SetStartAtLogin => "set_start_at_login",
            CommandName::Shutdown => "shutdown",
        }
    }

    /// The command a request names, or [`None`] for a name no command has.
    pub fn from_wire(name: &String) -> (command: Option<CommandName>)
        ensures
            command == CommandName::named(name@),
    {
        if same_text(name, "ping") {
            Some(CommandName::Ping)
        } else if same_text(name, "get_status") {
            Some(CommandName::GetStatus)
        } else if same_text(name, "start_recording") {
            Some(CommandName::StartRecording)
        } else if same_text(name, "stop_recording") {
            Some(CommandName::StopRecording)
        } else if same_text(name, "add_bookmark") {
            Some(CommandName::AddBookmark)
        } else if same_text(name, "take_screenshot") {
            Some(CommandName::TakeScreenshot)
        } else if same_text(name, "save_replay") {
            Some(CommandName::SaveReplay)
        } else if same_text(name, "library_sessions") {
            Some(CommandName::LibrarySessions)
        } else if same_text(name, "library_games") {
            Some(CommandName::LibraryGames)
        } else if same_text(name, "library_events") {
            Some(CommandName::LibraryEvents)
        } else if same_text(name, "library_trash") {
            Some(CommandName::LibraryTrash)
        } else if same_text(name, "restore_from_trash") {
            Some(CommandName::RestoreFromTrash)
        } else if same_text(name, "empty_trash") {
            Some(CommandName::EmptyTrash)
        } else if same_text(name, "set_favourite") {
            Some(CommandName::SetFavourite)
        } else if same_text(name, "set_lock") {
            Some(CommandName::SetLock)
        } else if same_text(name, "plugins") {
            Some(CommandName::Plugins)
        } else if same_text(name, "export_recording") {
            Some(CommandName::ExportRecording)
        } else if same_text(name, "open_playback") {
            Some(CommandName::OpenPlayback)
        } else if same_text(name, "open_preview") {
            Some(CommandName::OpenPreview)
        } else if same_text(name, "get_hotkeys") {
            Some(CommandName::GetHotkeys)
        } else if same_text(name, "get_settings") {
            Some(CommandName::GetSettings)
        } else if same_text(name, "apply_settings") {
            Some(CommandName::ApplySettings)
        } else if same_text(name, "get_audio_devices") {
            Some(CommandName::GetAudioDevices)
        } else if same_text(name, "get_microphone_level") {
            Some(CommandName::GetMicrophoneLevel)
        } else if same_text(name, "get_start_at_login") {
            Some(CommandName::GetStartAtLogin)
        } else if same_text(name, "set_start_at_login") {
            Some(CommandName::SetStartAtLogin)
        } else if same_text(name, "shutdown") {
            Some(CommandName::Shutdown)
        } else {
            None
        }
    }

    /// Whether a command carries parameters of its own: a command without any
    /// is parsed from its name alone, whatever its parameters say.
    pub fn takes_parameters(self) -> (takes: bool)
        ensures
            takes == self.has_parameters(),
            !takes <==> (self == CommandName::Ping || self == CommandName::GetStatus || self
                == CommandName::LibraryGames || self == CommandName::Plugins || self
                == CommandName::GetHotkeys || self == CommandName::GetSettings || self
                == CommandName::GetAudioDevices || self == CommandName::GetStartAtLogin),
    {
        match self {
            CommandName::Ping | CommandName::GetStatus | CommandName::LibraryGames | CommandName::Plugins | CommandName::GetHotkeys | CommandName::GetSettings | CommandName::GetAudioDevices | CommandName::GetStartAtLogin => false,
            _ => true,
        }
    }
}

/// The commands that carry no parameters are the eight that ask a question
/// needing nothing more: `ping`, `get_status`, `library_games`, `plugins`,
/// `get_hotkeys`, `get_settings`, `get_audio_devices` and
/// `get_start_at_login`. Every other command, `stop_recording` among them,
/// has parameters of its own.
pub proof fn lemma_commands_without_parameters(command: CommandName)
    ensures
        !command.has_parameters() <==> (command == CommandName::Ping || command
            == CommandName::GetStatus || command == CommandName::LibraryGames || command
            == CommandName::Plugins || command == CommandName::GetHotkeys || command
            == CommandName::GetSettings || command == CommandName::GetAudioDevices || command
            == CommandName::GetStartAtLogin),
        CommandName::StopRecording.has_parameters(),
        CommandName::StartRecording.has_parameters(),
        CommandName::Shutdown.has_parameters(),
{
}

/// The names of the commands: lengths and the characters that tell every pair
/// apart.
proof fn lemma_command_names()
    ensures
        "ping"@.len() == 4 && "ping"@[0] == 'p' && "ping"@[1] == 'i',
        "get_status"@.len() == 10 && "get_status"@[0] == 'g' && "get_status"@[1] == 'e' && "get_status"@[8] == 'u',
        "start_recording"@.len() == 15 && "start_recording"@[0] == 's' && "start_recording"@[1] == 't' && "start_recording"@[8] == 'c',
        "stop_recording"@.len() == 14 && "stop_recording"@[0] == 's' && "stop_recording"@[1] == 't' && "stop_recording"@[8] == 'o',
        "add_bookmark"@.len() == 12 && "add_bookmark"@[0] == 'a' && "add_bookmark"@[1] == 'd' && "add_bookmark"@[8] == 'm',
        "take_screenshot"@.len() == 15 && "take_screenshot"@[0] == 't' && "take_screenshot"@[1] == 'a' && "take_screenshot"@[8] == 'e',
        "save_replay"@.len() == 11 && "save_replay"@[0] == 's' && "save_replay"@[1] == 'a' && "save_replay"@[8] == 'l',
        "library_sessions"@.len() == 16 && "library_sessions"@[0] == 'l' && "library_sessions"@[1] == 'i' && "library_sessions"@[8] == 's',
        "library_games"@.len() == 13 && "library_games"@[0] == 'l' && "library_games"@[1] == 'i' && "library_games"@[8] == 'g',
        "library_events"@.len() == 14 && "library_events"@[0] == 'l' && "library_events"@[1] == 'i' && "library_events"@[8] == 'e',
        "library_trash"@.len() == 13 && "library_trash"@[0] == 'l' && "library_trash"@[1] == 'i' && "library_trash"@[8] == 't',
        "restore_from_trash"@.len() == 18 && "restore_from_trash"@[0] == 'r' && "restore_from_trash"@[1] == 'e' && "restore_from_trash"@[8] == 'f',
        "empty_trash"@.len() == 11 && "empty_trash"@[0] == 'e' && "empty_trash"@[1] == 'm' && "empty_trash"@[8] == 'a',
        "set_favourite"@.len() == 13 && "set_favourite"@[0] == 's' && "set_favourite"@[1] == 'e' && "set_favourite"@[8] == 'u',
        "set_lock"@.len() == 8 && "set_lock"@[0] == 's' && "set_lock"@[1] == 'e',
        "plugins"@.len() == 7 && "plugins"@[0] == 'p' && "plugins"@[1] == 'l',
        "export_recording"@.len() == 16 && "export_recording"@[0] == 'e' && "export_recording"@[1] == 'x' && "export_recording"@[8] == 'e',
        "open_playback"@.len() == 13 && "open_playback"@[0] == 'o' && "open_playback"@[1] == 'p' && "open_playback"@[8] == 'y',
        "open_preview"@.len() == 12 && "open_preview"@[0] == 'o' && "open_preview"@[1] == 'p' && "open_preview"@[8] == 'v',
        "get_hotkeys"@.len() == 11 && "get_hotkeys"@[0] == 'g' && "get_hotkeys"@[1] == 'e' && "get_hotkeys"@[8] == 'e',
        "get_settings"@.len() == 12 && "get_settings"@[0] == 'g' && "get_settings"@[1] == 'e' && "get_settings"@[8] == 'i',
        "apply_settings"@.len() == 14 && "apply_settings"@[0] == 'a' && "apply_settings"@[1] == 'p' && "apply_settings"@[8] == 't',
        "get_audio_devices"@.len() == 17 && "get_audio_devices"@[0] == 'g' && "get_audio_devices"@[1] == 'e' && "get_audio_devices"@[8] == 'o',
        "get_microphone_level"@.len() == 20 && "get_microphone_level"@[0] == 'g' && "get_microphone_level"@[1] == 'e' && "get_microphone_level"@[8] == 'o',
        "get_start_at_login"@.len() == 18 && "get_start_at_login"@[0] == 'g' && "get_start_at_login"@[1] == 'e' && "get_start_at_login"@[8] == 't',
        "set_start_at_login"@.len() == 18 && "set_start_at_login"@[0] == 's' && "set_start_at_login"@[1] == 'e' && "set_start_at_login"@[8] == 't',
        "shutdown"@.len() == 8 && "shutdown"@[0] == 's' && "shutdown"@[1] == 'h',
{
    reveal_strlit("ping");
    reveal_strlit("get_status");
    reveal_strlit("start_recording");
    reveal_strlit("stop_recording");
    reveal_strlit("add_bookmark");
    reveal_strlit("take_screenshot");
    reveal_strlit("save_replay");
    reveal_strlit("library_sessions");
    reveal_strlit("library_games");
    reveal_strlit("library_events");
    reveal_strlit("library_trash");
    reveal_strlit("restore_from_trash");
    reveal_strlit("empty_trash");
    reveal_strlit("set_favourite");
    reveal_strlit("set_lock");
    reveal_strlit("plugins");
    reveal_strlit("export_recording");
    reveal_strlit("open_playback");
    reveal_strlit("open_preview");
    reveal_strlit("get_hotkeys");
    reveal_strlit("get_settings");
    reveal_strlit("apply_settings");
    reveal_strlit("get_audio_devices");
    reveal_strlit("get_microphone_level");
    reveal_strlit("get_start_at_login");
    reveal_strlit("set_start_at_login");
    reveal_strlit("shutdown");
}

/// Every command survives a trip through its name: the name a command is sent
/// by is parsed back into that command.
pub proof fn lemma_command_name_round_trip(command: CommandName)
    ensures
        CommandName::named(command.wire()) == Some(command),
{
    lemma_command_names();
}

/// The sentence a request for a command this build does not have is refused
/// with.
pub open spec fn unknown_command_text(name: Seq<char>) -> Seq<char> {
    "this recorder has no `"@ + name + "` command"@
}

/// The refusal of a command no command is called.
pub fn unknown_command(name: &str) -> (refusal: ProtocolError)
    ensures
        refusal.code == ErrorCode::UnknownCommand,
        refusal.message@ == unknown_command_text(name@),
        refusal.detail is None,
{
    let mut message = owned("this recorder has no `");
    message.append(name);
    message.append("` command");
    ProtocolError::new(ErrorCode::UnknownCommand, message)
}

/// The sentence parameters of the wrong shape are refused with, naming the
/// command and carrying what was wrong with them.
pub open spec fn unusable_parameters_text(command: Seq<char>, problem: Seq<char>) -> Seq<char> {
    "`"@ + command + "` was not given usable parameters: "@ + problem
}

/// The refusal of parameters that are not the shape the command takes.
pub fn unusable_parameters(command: &str, problem: &str) -> (refusal: ProtocolError)
    ensures
        refusal.code == ErrorCode::InvalidParameters,
        refusal.message@ == unusable_parameters_text(command@, problem@),
        refusal.detail is None,
{
    let mut message = owned("`");
    message.append(command);
    message.append("` was not given usable parameters: ");
    message.append(problem);
    ProtocolError::new(ErrorCode::InvalidParameters, message)
}

/// The sentence a command whose parameters cannot be represented is refused
/// with, naming the command and what went wrong.
pub open spec fn unrepresentable_parameters_text(command: Seq<char>, problem: Seq<char>) -> Seq<char> {
    "`"@ + command + "` could not be represented: "@ + problem
}

/// The refusal of a command whose parameters cannot be written into a
/// request, such as one holding a number that is not a number.
pub fn unrepresentable_parameters(command: &str, problem: &str) -> (refusal: ProtocolError)
    ensures
        refusal.code == ErrorCode::InvalidParameters,
        refusal.message@ == unrepresentable_parameters_text(command@, problem@),
        refusal.detail is None,
{
    let mut message = owned("`");
    message.append(command);
    message.append("` could not be represented: ");
    message.append(problem);
    ProtocolError::new(ErrorCode::InvalidParameters, message)
}

} // verus!
