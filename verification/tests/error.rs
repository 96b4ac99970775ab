use clipped_ipc::{ErrorCode, ErrorDetail, ProtocolError};

#[test]
fn every_known_code_survives_a_round_trip_through_its_wire_string() {
    let codes = [
        ErrorCode::UnsupportedProtocolVersion,
        ErrorCode::HandshakeRequired,
        ErrorCode::MalformedFrame,
        ErrorCode::UnknownCommand,
        ErrorCode::InvalidParameters,
        ErrorCode::NotImplemented,
        ErrorCode::AlreadyRecording,
        ErrorCode::NotRecording,
        ErrorCode::TargetNotFound,
        ErrorCode::RecordingFailed,
        ErrorCode::TooManyConnections,
        ErrorCode::Internal,
    ];

    for code in codes {
        let wire = code.clone().into_wire();
        let back = ErrorCode::from_wire(wire.clone());
        assert_eq!(back, code, "{wire} did not round-trip");
    }
}

#[test]
fn a_code_this_build_has_never_heard_of_keeps_its_name_rather_than_failing_to_parse() {
    let code = ErrorCode::from_wire("gpu_on_fire".to_owned());
    assert_eq!(code, ErrorCode::Other("gpu_on_fire".to_owned()));
    assert_eq!(code.into_wire(), "gpu_on_fire");
}

#[test]
fn a_missing_subsystem_names_the_milestone_and_the_issue_that_builds_it() {
    let error = ProtocolError::not_implemented("the replay buffer", "M3", 37);

    assert_eq!(error.code, ErrorCode::NotImplemented);
    assert_eq!(
        error.detail,
        Some(ErrorDetail::NotImplemented {
            subsystem: "the replay buffer".to_owned(),
            milestone: "M3".to_owned(),
            tracking_issue: 37,
        }),
        "the UI has to be able to say which build this arrives in"
    );
    assert_eq!(error.message, "the replay buffer is not in this build");
}

#[test]
fn the_wire_strings_are_the_documented_ones() {
    assert_eq!(ErrorCode::UnsupportedProtocolVersion.as_str(), "unsupported_protocol_version");
    assert_eq!(ErrorCode::ShuttingDown.as_str(), "shutting_down");
    assert_eq!(ErrorCode::TooManyConnections.as_str(), "too_many_connections");
    assert_eq!(ErrorCode::from_wire("shutting_down".to_owned()), ErrorCode::ShuttingDown);
}

#[test]
fn a_refusal_is_described_with_its_sentence_and_its_code() {
    let error = ProtocolError::new(ErrorCode::NotRecording, "there is nothing to stop".to_owned());
    assert_eq!(error.describe(), "there is nothing to stop (not_recording)");
    assert_eq!(error.detail, None);
}
