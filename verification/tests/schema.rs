use clipped_ipc::command::CommandName;
use clipped_ipc::features;
use clipped_ipc::message::EventStream;
use clipped_ipc::schema::{
    command_schemas, enumerations, every_connection_role, every_end_reason, every_error_code, every_event_stream, every_feature,
    every_hotkey_state,
};
use clipped_ipc::status::EndReason;
use clipped_ipc::{ConnectionRole, ErrorCode, HotkeyState};

#[test]
fn the_role_list_leaves_out_the_placeholder() {
    assert_eq!(
        every_connection_role(),
        vec![ConnectionRole::Control, ConnectionRole::Events]
    );
    let names: Vec<&str> = every_connection_role()
        .into_iter()
        .map(|role| role.as_str())
        .collect();
    assert_eq!(names, ["control", "events"]);
}

#[test]
fn the_stream_list_names_the_refused_stream_too() {
    assert_eq!(
        every_event_stream(),
        vec![EventStream::Status, EventStream::Errors, EventStream::Metrics]
    );
    let names: Vec<String> = every_event_stream()
        .iter()
        .map(|stream| stream.as_str().to_owned())
        .collect();
    assert_eq!(names, ["status", "errors", "metrics"]);
}

#[test]
fn the_feature_list_is_the_constants_themselves() {
    let listed = every_feature();
    assert_eq!(listed.len(), features::ALL.len());
    for (listed, defined) in listed.iter().zip(features::ALL.iter()) {
        assert_eq!(listed, defined);
    }
    assert_eq!(listed[0], "recording");
    assert_eq!(listed[9], "settings");
}

#[test]
fn the_code_list_holds_every_known_code_once_under_its_own_name() {
    let codes = every_error_code();
    assert_eq!(codes.len(), 13);
    assert!(!codes.iter().any(|code| matches!(code, ErrorCode::Other(_))));
    let mut names: Vec<&str> = codes.iter().map(ErrorCode::as_str).collect();
    assert_eq!(names[0], "unsupported_protocol_version");
    assert_eq!(names[12], "internal");
    names.sort_unstable();
    names.dedup();
    assert_eq!(names.len(), 13, "two codes share a wire name");
    for code in &codes {
        assert_eq!(&ErrorCode::from_wire(code.as_str().to_owned()), code);
    }
}

#[test]
fn the_end_reason_list_holds_the_three_known_reasons() {
    let reasons = every_end_reason();
    assert_eq!(
        reasons,
        vec![EndReason::Stopped, EndReason::TargetLost, EndReason::TargetResized]
    );
    let names: Vec<&str> = reasons.iter().map(EndReason::as_str).collect();
    assert_eq!(names, ["stopped", "target_lost", "target_resized"]);
}

#[test]
fn the_hotkey_state_list_has_one_of_each_state() {
    let states = every_hotkey_state();
    assert_eq!(states.len(), 3);
    assert_eq!(states[0], HotkeyState::Unbound);
    assert_eq!(states[1], HotkeyState::Registered);
    assert_eq!(
        states[2],
        HotkeyState::Conflict {
            reason: "another application already uses it".to_owned()
        }
    );
}

#[test]
fn the_command_table_describes_every_command_in_order() {
    let schemas = command_schemas();
    assert_eq!(schemas.len(), 27);
    assert!(schemas.iter().all(|schema| schema.available_in_this_build));

    let ping = &schemas[0];
    assert_eq!(ping.name, "ping");
    assert_eq!(ping.params, None);
    assert_eq!(ping.reply.as_deref(), Some("reply.pong"));

    let start = &schemas[2];
    assert_eq!(start.name, "start_recording");
    assert_eq!(start.params.as_deref(), Some("start_recording"));
    assert_eq!(start.reply.as_deref(), Some("reply.recording_started"));

    let restore = &schemas[11];
    assert_eq!(restore.name, "restore_from_trash");
    assert_eq!(restore.reply.as_deref(), Some("reply.restored"));

    let apply = schemas.iter().find(|schema| schema.name == "apply_settings").expect("listed");
    assert_eq!(apply.params.as_deref(), Some("apply_settings"));
    assert_eq!(apply.reply.as_deref(), Some("reply.settings"));

    let shutdown = schemas.last().expect("not empty");
    assert_eq!(shutdown.name, "shutdown");
    assert_eq!(shutdown.params.as_deref(), Some("shutdown"));
    assert_eq!(shutdown.reply.as_deref(), Some("reply.shutting_down"));

    let mut names: Vec<&str> = schemas.iter().map(|schema| schema.name.as_str()).collect();
    names.sort_unstable();
    names.dedup();
    assert_eq!(names.len(), 27, "a command is listed twice");
    for schema in &schemas {
        let command = CommandName::from_wire(&schema.name).expect("every listed name is a command");
        assert_eq!(schema.params.is_some(), command.takes_parameters());
    }
}

fn owned(words: &[&str]) -> Vec<String> {
    words.iter().map(|word| (*word).to_owned()).collect()
}

#[test]
fn the_recorder_state_is_one_of_six_closed_sets_and_every_other_set_is_open() {
    let table = enumerations(
        owned(&["hello", "request"]),
        owned(&["welcome", "refused", "response", "event"]),
        owned(&["unsupported_protocol_version", "not_implemented"]),
        owned(&["status_changed", "recording_failed"]),
        owned(&["ok", "error"]),
        owned(&["pong", "status"]),
        owned(&["unbound", "registered", "conflict"]),
        owned(&["idle", "watching", "recording"]),
    );
    let names: Vec<&str> = table.iter().map(|(name, _)| name.as_str()).collect();
    assert_eq!(
        names,
        [
            "client_message_type", "command", "connection_role", "end_reason", "error_code",
            "error_detail", "event", "event_stream", "feature", "hotkey_state", "outcome",
            "recorder_state", "reply", "server_message_type",
        ]
    );
    let closed: Vec<&str> = table
        .iter()
        .filter(|(_, set)| !set.tolerates_unrecognised)
        .map(|(name, _)| name.as_str())
        .collect();
    assert_eq!(
        closed,
        ["client_message_type", "hotkey_state", "outcome", "recorder_state", "reply", "server_message_type"]
    );
    let set = |name: &str| &table.iter().find(|(n, _)| n == name).expect("listed").1.values;
    assert_eq!(set("connection_role"), &owned(&["control", "events"]));
    assert_eq!(set("event_stream"), &owned(&["status", "errors", "metrics"]));
    assert_eq!(set("end_reason"), &owned(&["stopped", "target_lost", "target_resized"]));
    assert_eq!(set("error_code").len(), 13);
    assert_eq!(set("error_code")[0], "unsupported_protocol_version");
    assert_eq!(set("feature"), &every_feature());
    assert_eq!(set("command").len(), 27);
    assert_eq!(set("command")[0], "ping");
    assert_eq!(set("recorder_state"), &owned(&["idle", "watching", "recording"]));
    assert_eq!(set("outcome"), &owned(&["ok", "error"]));
    assert_eq!(set("server_message_type")[1], "refused");
}
