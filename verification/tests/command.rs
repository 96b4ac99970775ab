use clipped_ipc::command::{unknown_command, unrepresentable_parameters, unusable_parameters, CommandName};
use clipped_ipc::{ErrorCode, Shutdown, StartRecording};

#[test]
fn every_command_this_protocol_defines_is_known_by_its_name() {
    for name in [
        "ping", "get_status", "start_recording", "stop_recording", "add_bookmark",
        "take_screenshot", "save_replay", "library_sessions", "library_games", "library_events",
        "library_trash", "restore_from_trash", "empty_trash", "set_favourite", "set_lock",
        "plugins", "export_recording", "open_playback", "open_preview", "get_hotkeys",
        "get_settings", "apply_settings", "get_audio_devices", "get_microphone_level",
        "get_start_at_login", "set_start_at_login", "shutdown",
    ] {
        let command = CommandName::from_wire(&name.to_owned())
            .unwrap_or_else(|| panic!("`{name}` is in the protocol and this build does not know it"));
        assert_eq!(command.name(), name);
    }
}

#[test]
fn an_unknown_command_is_refused_by_name_rather_than_as_a_broken_frame() {
    assert_eq!(CommandName::from_wire(&"delete_everything".to_owned()), None);
    let error = unknown_command("delete_everything");
    assert_eq!(error.code, ErrorCode::UnknownCommand);
    assert!(
        error.message.contains("delete_everything"),
        "the refusal should name the command: {}",
        error.message
    );
}

#[test]
fn parameters_of_the_wrong_shape_are_refused_naming_the_command() {
    let error = unusable_parameters("start_recording", "invalid type: string \"not a number\", expected u32");
    assert_eq!(error.code, ErrorCode::InvalidParameters);
    assert!(error.message.starts_with("`start_recording` was not given usable parameters: "));
    assert!(error.message.contains("expected u32"));
}

#[test]
fn commands_without_parameters_are_told_apart() {
    assert!(!CommandName::Ping.takes_parameters());
    assert!(!CommandName::GetStartAtLogin.takes_parameters());
    assert!(CommandName::StartRecording.takes_parameters());
    assert!(CommandName::Shutdown.takes_parameters());
}

#[test]
fn a_default_shutdown_may_not_end_a_recording() {
    assert!(!Shutdown::default().finalise_recording);
}

#[test]
fn a_default_start_asks_for_no_replay_buffer() {
    let start = StartRecording::default();
    assert_eq!(start.replay_seconds, None);
    assert!(!start.replay);
}

#[test]
fn parameters_that_cannot_be_represented_are_refused_naming_the_command() {
    let error = unrepresentable_parameters("add_bookmark", "NaN is not a JSON number");
    assert_eq!(error.code, ErrorCode::InvalidParameters);
    assert_eq!(error.message, "`add_bookmark` could not be represented: NaN is not a JSON number");
    assert!(error.detail.is_none());
}
