use clipped_ipc::features;
use clipped_ipc::frame::{decode_frame, FrameError};
use clipped_ipc::server::{
    accept_shutdown, accepted_streams, admit_hello, admits_connection, announced_features, answer_hello,
    command_step, describe_versions, dispatch, opens_with_status, read_hello, too_many_connections,
    CommandStep, Dispatch, HelloAnswer, Requested, ShutdownAnswer,
};
use clipped_ipc::{
    ActiveRecording, ClientMessage, ConnectionRole, ErrorCode, ErrorDetail, EventStream,
    Hello, PeerIdentity, ProtocolError, RecorderStatus, Request, Shutdown, ShutdownRequest,
    PROTOCOL_VERSION, SUPPORTED_PROTOCOL_VERSIONS,
};

fn identity() -> PeerIdentity {
    PeerIdentity { name: "clipped-recorder".to_owned(), version: "0.1.0".to_owned() }
}

fn hello(version: u32, role: ConnectionRole, streams: Vec<EventStream>) -> Hello {
    Hello {
        protocol_version: version,
        client: PeerIdentity { name: "test".to_owned(), version: "0".to_owned() },
        role,
        streams,
    }
}

fn handler_features() -> Vec<String> {
    vec![features::STATUS_EVENTS.to_owned()]
}

fn recording() -> RecorderStatus {
    RecorderStatus::Recording(ActiveRecording {
        recording_id: "r-1".to_owned(),
        output: r"D:\clips\session.mkv".to_owned(),
        target: "process `cs2.exe`".to_owned(),
        elapsed_ms: 4_200,
        replay_seconds: None,
        session: None,
    })
}

fn request(id: u64, command: &str) -> Request {
    Request { id, command: command.to_owned(), params: serde_json::Value::Null }
}

#[test]
fn a_supported_version_is_welcomed_and_told_what_the_build_can_do() {
    match answer_hello(hello(PROTOCOL_VERSION, ConnectionRole::Control, Vec::new()), &identity(), handler_features()) {
        HelloAnswer::Welcome(welcome) => {
            assert_eq!(welcome.protocol_version, PROTOCOL_VERSION);
            assert_eq!(welcome.role, ConnectionRole::Control);
            assert!(
                welcome.features.contains(&features::STATUS_EVENTS.to_owned()),
                "the welcome should carry what the build can do: {welcome:?}"
            );
        }
        other => panic!("expected a welcome, got {other:?}"),
    }
}

#[test]
fn a_version_this_build_does_not_speak_is_refused_with_the_ones_it_does() {
    match answer_hello(hello(99, ConnectionRole::Control, Vec::new()), &identity(), handler_features()) {
        HelloAnswer::Refuse(error) => {
            assert_eq!(error.code, ErrorCode::UnsupportedProtocolVersion);
            assert_eq!(
                error.detail,
                Some(ErrorDetail::UnsupportedProtocolVersion {
                    requested: 99,
                    supported: SUPPORTED_PROTOCOL_VERSIONS.to_vec(),
                    recorder_version: "0.1.0".to_owned(),
                })
            );
            assert_eq!(
                error.message,
                "this recorder speaks protocol version 2, and 99 was asked for"
            );
        }
        other => panic!("expected a refusal, got {other:?}"),
    }
}

#[test]
fn a_client_from_before_the_watching_state_is_refused_rather_than_half_understood() {
    match answer_hello(hello(1, ConnectionRole::Control, Vec::new()), &identity(), handler_features()) {
        HelloAnswer::Refuse(error) => {
            assert_eq!(error.code, ErrorCode::UnsupportedProtocolVersion);
            assert_eq!(
                error.detail,
                Some(ErrorDetail::UnsupportedProtocolVersion {
                    requested: 1,
                    supported: SUPPORTED_PROTOCOL_VERSIONS.to_vec(),
                    recorder_version: "0.1.0".to_owned(),
                }),
                "a refusal that does not name what this recorder speaks leaves the client \
                 unable to say which side needs updating"
            );
        }
        other => panic!("expected a refusal, got {other:?}"),
    }
}

#[test]
fn a_request_before_the_handshake_is_refused_for_that_reason() {
    match read_hello(Ok(ClientMessage::Request(request(1, "ping")))) {
        Err(error) => {
            assert_eq!(error.code, ErrorCode::HandshakeRequired);
            assert_eq!(
                error.message,
                "`ping` arrived before the handshake; the first message on a connection states the protocol version"
            );
        }
        Ok(hello) => panic!("expected a refusal, got {hello:?}"),
    }
}

#[test]
fn a_frame_that_is_not_a_message_is_refused_and_the_connection_ends() {
    let bad = serde_json::from_slice::<serde_json::Value>(br#"{"type":"hello","protocol_version":"#)
        .expect_err("it is cut short");
    match read_hello(Err(FrameError::Malformed(bad))) {
        Err(error) => assert_eq!(error.code, ErrorCode::MalformedFrame),
        Ok(hello) => panic!("expected a refusal, got {hello:?}"),
    }
}

#[test]
fn an_oversized_length_prefix_is_refused_without_the_payload_being_believed() {
    let mut bytes = u32::MAX.to_le_bytes().to_vec();
    bytes.extend_from_slice(b"and now four gigabytes of nothing");
    let error = decode_frame(&bytes).expect_err("the prefix is refused");
    match read_hello(Err(error)) {
        Err(error) => {
            assert_eq!(error.code, ErrorCode::MalformedFrame);
            assert!(
                error.message.contains("4294967295"),
                "the refusal should say what was announced: {}",
                error.message
            );
        }
        Ok(hello) => panic!("expected a refusal, got {hello:?}"),
    }
}

#[test]
fn every_connection_is_told_this_recorder_can_be_asked_to_exit() {
    match answer_hello(hello(PROTOCOL_VERSION, ConnectionRole::Control, Vec::new()), &identity(), handler_features()) {
        HelloAnswer::Welcome(welcome) => assert!(
            welcome.features.contains(&features::SHUTDOWN.to_owned()),
            "a recorder that will accept `shutdown` has to say so: {:?}",
            welcome.features
        ),
        other => panic!("expected a welcome, got {other:?}"),
    }
}

#[test]
fn a_handler_that_already_names_shutdown_does_not_announce_it_twice() {
    let announced = announced_features(vec!["shutdown".to_owned(), "recording".to_owned()]);
    assert_eq!(announced, vec!["shutdown".to_owned(), "recording".to_owned()]);
    let announced = announced_features(vec!["recording".to_owned()]);
    assert_eq!(announced, vec!["recording".to_owned(), "shutdown".to_owned()]);
}

#[test]
fn a_shutdown_of_an_idle_recorder_is_answered_and_then_ends_the_accept_loop() {
    let mut shutdown = ShutdownRequest::new();
    shutdown.begin();
    match accept_shutdown(&mut shutdown, RecorderStatus::Idle, Shutdown { finalise_recording: false }) {
        ShutdownAnswer::Accepted(finalising) => assert!(
            finalising.is_none(),
            "nothing was being recorded, so nothing is named as being finished"
        ),
        other => panic!("expected acceptance, got {other:?}"),
    }
    shutdown.request();
    assert!(
        shutdown.was_requested(),
        "answering a shutdown and not asking the listener to stop would be a control that \
         does nothing"
    );
}

#[test]
fn a_shutdown_that_was_not_asked_to_end_a_recording_is_refused_and_the_recorder_keeps_serving() {
    let mut shutdown = ShutdownRequest::new();
    shutdown.begin();
    match accept_shutdown(&mut shutdown, recording(), Shutdown { finalise_recording: false }) {
        ShutdownAnswer::Refused(error) => {
            assert_eq!(error.code, ErrorCode::AlreadyRecording);
            assert!(
                error.message.contains("cs2.exe") && error.message.contains("finalise_recording"),
                "the refusal has to name what is being recorded and the way to proceed: {}",
                error.message
            );
        }
        other => panic!("a bare shutdown during a recording must be refused: {other:?}"),
    }
    assert!(
        !shutdown.was_requested(),
        "a refused shutdown must not have stopped the listener anyway"
    );
    assert!(
        matches!(command_step(Ok(ClientMessage::Request(request(2, "ping")))), CommandStep::Answer(r) if r.id == 2),
        "the connection should still be serving after a refusal"
    );
}

#[test]
fn a_shutdown_that_may_finish_the_recording_names_the_file_it_will_leave() {
    let mut shutdown = ShutdownRequest::new();
    shutdown.begin();
    match accept_shutdown(&mut shutdown, recording(), Shutdown { finalise_recording: true }) {
        ShutdownAnswer::Accepted(Some(active)) => {
            assert_eq!(active.recording_id, "r-1");
            assert_eq!(active.output, r"D:\clips\session.mkv");
        }
        other => panic!("a shutdown that ends a recording has to say which file it leaves: {other:?}"),
    }
    shutdown.request();
    assert!(shutdown.was_requested());
}

#[test]
fn the_door_is_shut_before_the_recording_the_decision_turns_on_is_read() {
    let mut shutdown = ShutdownRequest::new();
    assert!(!shutdown.is_shutting_down());
    shutdown.begin();
    assert!(
        shutdown.is_shutting_down(),
        "the recorder has to stop accepting recordings before it reads whether one is running"
    );
}

#[test]
fn a_recording_cannot_be_started_on_another_connection_once_a_shutdown_is_accepted() {
    let mut shutdown = ShutdownRequest::new();
    shutdown.begin();
    let _ = accept_shutdown(&mut shutdown, RecorderStatus::Idle, Shutdown::default());

    match dispatch(Ok(Requested::StartRecording), &shutdown) {
        Dispatch::Refuse(error) => assert_eq!(
            error.code,
            ErrorCode::ShuttingDown,
            "a recorder on its way out must not start a recording: {}",
            error.message
        ),
        other => panic!("a recording started while exiting: {other:?}"),
    }
}

#[test]
fn a_refused_shutdown_leaves_the_recorder_able_to_start_a_recording() {
    let mut shutdown = ShutdownRequest::new();
    shutdown.begin();
    let _ = accept_shutdown(&mut shutdown, recording(), Shutdown::default());

    assert!(
        matches!(dispatch(Ok(Requested::StartRecording), &shutdown), Dispatch::Perform),
        "the shutdown was refused, so nothing is shutting down"
    );
}

#[test]
fn a_shutdown_never_reaches_the_application() {
    let shutdown = ShutdownRequest::new();
    assert!(matches!(
        dispatch(Ok(Requested::Shutdown(Shutdown { finalise_recording: true })), &shutdown),
        Dispatch::DecideShutdown(Shutdown { finalise_recording: true })
    ));
    assert!(matches!(dispatch(Ok(Requested::Other), &shutdown), Dispatch::Perform));
    let refusal = ProtocolError::new(ErrorCode::UnknownCommand, "no".to_owned());
    assert!(matches!(dispatch(Err(refusal), &shutdown), Dispatch::Refuse(e) if e.code == ErrorCode::UnknownCommand));
}

#[test]
fn the_metrics_stream_is_refused_rather_than_accepted_and_never_delivered() {
    match answer_hello(
        hello(PROTOCOL_VERSION, ConnectionRole::Events, vec![EventStream::Status, EventStream::Metrics]),
        &identity(),
        handler_features(),
    ) {
        HelloAnswer::Refuse(error) => {
            assert_eq!(error.code, ErrorCode::NotImplemented);
            assert_eq!(
                error.detail,
                Some(ErrorDetail::NotImplemented {
                    subsystem: "live recording metrics".to_owned(),
                    milestone: "M14".to_owned(),
                    tracking_issue: 100,
                })
            );
        }
        other => panic!("expected a refusal, got {other:?}"),
    }
}

#[test]
fn an_events_connection_that_asks_for_nothing_is_refused() {
    match answer_hello(hello(PROTOCOL_VERSION, ConnectionRole::Events, Vec::new()), &identity(), handler_features()) {
        HelloAnswer::Refuse(error) => assert_eq!(error.code, ErrorCode::InvalidParameters),
        other => panic!("expected a refusal, got {other:?}"),
    }
}

#[test]
fn a_stream_this_build_does_not_have_is_refused_by_name() {
    match accepted_streams(&vec![EventStream::Status, EventStream::Other("gpu".to_owned())]) {
        Err(error) => {
            assert_eq!(error.code, ErrorCode::InvalidParameters);
            assert_eq!(error.message, "this recorder has no `gpu` event stream");
        }
        Ok(streams) => panic!("expected a refusal, got {streams:?}"),
    }
}

#[test]
fn a_stream_asked_for_twice_is_delivered_once_in_the_order_first_asked_for() {
    let streams = accepted_streams(&vec![
        EventStream::Errors,
        EventStream::Status,
        EventStream::Errors,
    ])
    .expect("both are delivered");
    assert_eq!(streams, vec![EventStream::Errors, EventStream::Status]);

    match answer_hello(
        hello(PROTOCOL_VERSION, ConnectionRole::Events, vec![EventStream::Status, EventStream::Status]),
        &identity(),
        handler_features(),
    ) {
        HelloAnswer::Welcome(welcome) => {
            assert_eq!(welcome.role, ConnectionRole::Events);
            assert_eq!(welcome.streams, vec![EventStream::Status]);
        }
        other => panic!("expected a welcome, got {other:?}"),
    }
}

#[test]
fn a_connection_that_is_neither_control_nor_events_is_refused() {
    match answer_hello(hello(PROTOCOL_VERSION, ConnectionRole::Unknown, Vec::new()), &identity(), handler_features()) {
        HelloAnswer::Refuse(error) => {
            assert_eq!(error.code, ErrorCode::InvalidParameters);
            assert_eq!(error.message, "a connection is either `control` or `events`, and this was neither");
        }
        other => panic!("expected a refusal, got {other:?}"),
    }
}

#[test]
fn a_status_subscription_opens_with_the_state_the_recorder_is_in() {
    assert!(opens_with_status(&vec![EventStream::Status]));
    assert!(!opens_with_status(&vec![EventStream::Errors]));
}

#[test]
fn a_second_handshake_or_a_broken_frame_ends_a_control_connection() {
    let hello_again = ClientMessage::Hello(hello(PROTOCOL_VERSION, ConnectionRole::Control, Vec::new()));
    match command_step(Ok(hello_again)) {
        CommandStep::Refuse(error) => {
            assert_eq!(error.code, ErrorCode::MalformedFrame);
            assert_eq!(error.message, "the handshake happens once, at the start of a connection");
        }
        other => panic!("expected a refusal, got {other:?}"),
    }
    assert!(matches!(command_step(Err(FrameError::Disconnected)), CommandStep::Stop));
    assert!(matches!(
        command_step(Err(FrameError::TooLarge { declared: u32::MAX })),
        CommandStep::Refuse(e) if e.code == ErrorCode::MalformedFrame
    ));
}

#[test]
fn the_connection_cap_is_eight() {
    assert!(admits_connection(7));
    assert!(!admits_connection(8));
    let refusal = too_many_connections();
    assert_eq!(refusal.code, ErrorCode::TooManyConnections);
    assert_eq!(
        refusal.message,
        "this recorder serves 8 connections at a time and they are all in use"
    );
    assert_eq!(describe_versions(), "2");
}

#[test]
fn a_handshake_is_admitted_or_refused_before_the_application_is_asked_anything() {
    assert!(matches!(
        admit_hello(hello(PROTOCOL_VERSION, ConnectionRole::Control, Vec::new()), &identity()),
        Ok((ConnectionRole::Control, streams)) if streams.is_empty()
    ));
    match admit_hello(
        hello(PROTOCOL_VERSION, ConnectionRole::Events, vec![EventStream::Errors, EventStream::Status, EventStream::Errors]),
        &identity(),
    ) {
        Ok((role, streams)) => {
            assert_eq!(role, ConnectionRole::Events);
            assert_eq!(streams, vec![EventStream::Errors, EventStream::Status]);
        }
        Err(refusal) => panic!("refused: {refusal:?}"),
    }
    match admit_hello(hello(PROTOCOL_VERSION, ConnectionRole::Events, vec![EventStream::Metrics]), &identity()) {
        Err(refusal) => assert_eq!(refusal.code, ErrorCode::NotImplemented),
        Ok(admitted) => panic!("metrics were admitted: {admitted:?}"),
    }
    match admit_hello(hello(99, ConnectionRole::Control, Vec::new()), &identity()) {
        Err(refusal) => assert_eq!(refusal.code, ErrorCode::UnsupportedProtocolVersion),
        Ok(admitted) => panic!("an unsupported version was admitted: {admitted:?}"),
    }
}
