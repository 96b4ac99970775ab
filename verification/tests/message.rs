use clipped_ipc::message::{is_supported_version, ConnectionRole, EventStream};
use clipped_ipc::{ErrorCode, Event, ProtocolError, RecorderStatus, PROTOCOL_VERSION, SUPPORTED_PROTOCOL_VERSIONS};

#[test]
fn the_supported_versions_include_the_one_this_build_speaks() {
    assert!(SUPPORTED_PROTOCOL_VERSIONS.contains(&PROTOCOL_VERSION));
}

#[test]
fn only_the_version_this_build_speaks_is_supported() {
    assert!(is_supported_version(PROTOCOL_VERSION));
    assert!(!is_supported_version(1));
    assert!(!is_supported_version(99));
}

#[test]
fn a_role_this_build_does_not_have_parses_as_unknown_rather_than_failing() {
    assert_eq!(ConnectionRole::from_wire("preview_frames".to_owned()), ConnectionRole::Unknown);
    assert_eq!(ConnectionRole::from_wire("control".to_owned()), ConnectionRole::Control);
    assert_eq!(ConnectionRole::from_wire("events".to_owned()), ConnectionRole::Events);
    assert_eq!(ConnectionRole::default(), ConnectionRole::Control);
    assert_eq!(ConnectionRole::Events.into_wire(), "events");
}

#[test]
fn every_event_belongs_to_exactly_one_stream() {
    assert_eq!(
        Event::StatusChanged { status: RecorderStatus::Idle }.stream(),
        Some(EventStream::Status)
    );
    assert_eq!(
        Event::RecordingFailed {
            recording_id: "r-1".to_owned(),
            error: ProtocolError::new(ErrorCode::RecordingFailed, "the encoder went away".to_owned()),
        }
        .stream(),
        Some(EventStream::Errors)
    );
}

#[test]
fn an_event_this_build_has_never_heard_of_belongs_to_no_stream() {
    let raw: serde_json::Value = serde_json::from_str(r#"{"event":"disk_filling_up"}"#).expect("json");
    assert_eq!(Event::Other(raw).stream(), None);
}

#[test]
fn a_stream_this_build_has_never_heard_of_keeps_its_name() {
    assert_eq!(EventStream::from_wire("metrics".to_owned()), EventStream::Metrics);
    assert_eq!(
        EventStream::from_wire("gpu_temperature".to_owned()),
        EventStream::Other("gpu_temperature".to_owned())
    );
    assert_eq!(EventStream::Other("gpu_temperature".to_owned()).into_wire(), "gpu_temperature");
    assert_eq!(EventStream::Errors.as_str(), "errors");
}
