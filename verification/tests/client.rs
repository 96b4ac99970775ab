use clipped_ipc::client::{handshake_answer, hello, HandshakeAnswer, EventReading};
use clipped_ipc::frame::FrameError;
use clipped_ipc::{
    Client, ClientError, ClientMessage, ConnectionRole, ErrorCode, Event, EventClient, EventStream,
    Outcome, PeerIdentity, ProtocolError, RecorderStatus, Response, ServerMessage, Welcome,
    PROTOCOL_VERSION,
};

fn welcome(streams: Vec<EventStream>) -> Welcome {
    Welcome {
        protocol_version: PROTOCOL_VERSION,
        recorder: PeerIdentity { name: "clipped-recorder".to_owned(), version: "0.1.0".to_owned() },
        role: ConnectionRole::Control,
        features: vec!["recording".to_owned(), "shutdown".to_owned()],
        streams,
    }
}

#[test]
fn a_handshake_states_the_version_this_build_speaks() {
    match hello("clipped-desktop", "0.1.0", ConnectionRole::Events, vec![EventStream::Status]) {
        ClientMessage::Hello(hello) => {
            assert_eq!(hello.protocol_version, PROTOCOL_VERSION);
            assert_eq!(hello.client.name, "clipped-desktop");
            assert_eq!(hello.role, ConnectionRole::Events);
            assert_eq!(hello.streams, vec![EventStream::Status]);
        }
        other => panic!("expected a handshake, got {other:?}"),
    }
}

#[test]
fn a_handshake_is_answered_by_a_welcome_or_a_refusal() {
    assert!(matches!(
        handshake_answer::<()>(ServerMessage::Welcome(welcome(Vec::new()))),
        HandshakeAnswer::Welcomed(_)
    ));
    let refusal = ProtocolError::new(ErrorCode::UnsupportedProtocolVersion, "no".to_owned());
    assert!(matches!(
        handshake_answer::<()>(ServerMessage::Refused(refusal)),
        HandshakeAnswer::Refused(_)
    ));
    let event = ServerMessage::<()>::Event(Event::StatusChanged { status: RecorderStatus::Idle });
    assert!(matches!(handshake_answer(event), HandshakeAnswer::Unexpected(_)));
}

#[test]
fn requests_are_numbered_from_one_and_never_reused() {
    let mut client = Client::from_welcome(welcome(Vec::new()));
    assert!(client.can_number_another_request());
    assert_eq!(client.next_request_id(), 1);
    assert_eq!(client.next_request_id(), 2);
    assert_eq!(client.next_request_id(), 3);
    assert_eq!(client.welcome().features.len(), 2);
}

#[test]
fn only_the_response_quoting_the_request_answers_it() {
    let client = Client::from_welcome(welcome(Vec::new()));
    let ok = ServerMessage::Response(Response { id: 4, outcome: Outcome::Success("pong") });
    assert!(matches!(client.answer(4, ok), Ok("pong")));

    let refused = ServerMessage::<&str>::Response(Response {
        id: 4,
        outcome: Outcome::Error(ProtocolError::new(ErrorCode::NotRecording, "nothing to stop".to_owned())),
    });
    assert!(matches!(client.answer(4, refused), Err(ClientError::Refused(e)) if e.code == ErrorCode::NotRecording));

    let other = ServerMessage::Response(Response { id: 5, outcome: Outcome::Success("pong") });
    match client.answer(4, other) {
        Err(ClientError::Unexpected(text)) => {
            assert_eq!(text, "a reply to request 5 while 4 was outstanding")
        }
        other => panic!("expected an unexpected reply, got {other:?}"),
    }

    match client.answer::<&str>(4, ServerMessage::Welcome(welcome(Vec::new()))) {
        Err(ClientError::Unexpected(text)) => assert_eq!(text, "a second handshake"),
        other => panic!("unexpected: {other:?}"),
    }
    let event = ServerMessage::<&str>::Event(Event::StatusChanged { status: RecorderStatus::Idle });
    match client.answer(4, event) {
        Err(ClientError::Unexpected(text)) => assert_eq!(text, "an event on a control connection"),
        other => panic!("unexpected: {other:?}"),
    }
}

#[test]
fn an_event_connection_reads_events_and_names_its_streams() {
    let client = EventClient::from_welcome(welcome(vec![EventStream::Status, EventStream::Errors]));
    assert_eq!(client.streams(), &[EventStream::Status, EventStream::Errors]);
    let event = ServerMessage::<()>::Event(Event::StatusChanged { status: RecorderStatus::Idle });
    assert!(matches!(client.reading(event), EventReading::Event(_)));
    assert!(matches!(
        client.reading::<()>(ServerMessage::Welcome(welcome(Vec::new()))),
        EventReading::Unexpected(_)
    ));
}

#[test]
fn a_read_that_failed_is_that_failure_and_a_frame_read_is_judged_as_an_answer() {
    let client = Client::from_welcome(welcome(Vec::new()));
    let failed: Result<ServerMessage<&str>, FrameError> = Err(FrameError::Disconnected);
    assert!(matches!(client.answer_read(1, failed), Err(ClientError::Frame(FrameError::Disconnected))));
    let read = Ok(ServerMessage::Response(Response { id: 1, outcome: Outcome::Success("pong") }));
    assert!(matches!(client.answer_read(1, read), Ok("pong")));
}
